use genetic_algorithms::chromosomes::binary::{dna_from_text, phenotype};
use genetic_algorithms::genotypes::Binary as BinaryGenotype;

#[test]
fn test_dna_from_string() {
    let dna_text = "11010010";
    let dna = dna_from_text(dna_text).unwrap();

    assert_eq!(dna.len(), 8);

    assert_eq!(dna[0].value, true);
    assert_eq!(dna[1].value, true);
    assert_eq!(dna[2].value, false);
    assert_eq!(dna[3].value, true);
    assert_eq!(dna[4].value, false);
    assert_eq!(dna[5].value, false);
    assert_eq!(dna[6].value, true);
    assert_eq!(dna[7].value, false);

    assert_eq!(dna[0].id, 0);
    assert_eq!(dna[1].id, 1);
    assert_eq!(dna[2].id, 2);
    assert_eq!(dna[3].id, 3);
    assert_eq!(dna[4].id, 4);
    assert_eq!(dna[5].id, 5);
    assert_eq!(dna[6].id, 6);
    assert_eq!(dna[7].id, 7);
}

#[test]
fn test_phenotype() {
    let dna = vec![
        BinaryGenotype { id: 1, value: false },
        BinaryGenotype { id: 2, value: true },
        BinaryGenotype { id: 3, value: false },
        BinaryGenotype { id: 4, value: true },
        BinaryGenotype { id: 5, value: false },
    ];

    assert_eq!(phenotype(&dna), "01010");
}

#[test]
fn test_dna_from_string_rejects_other_characters() {
    assert!(dna_from_text("0120").is_none());
    assert!(dna_from_text("").is_some());
}
