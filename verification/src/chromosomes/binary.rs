//! Text import and export for binary dna: one character per gene, `'1'`
//! for a set bit and `'0'` for a clear one.

use vstd::prelude::*;
use vstd::string::StringExecFns;
use crate::genotypes::Binary;

verus! {

/// The character a binary gene prints as.
pub open spec fn phenotype_char(gene: Binary) -> char {
    if gene.value {
        '1'
    } else {
        '0'
    }
}

/// Every character of `s` is a one or a zero.
pub open spec fn text_parses(s: Seq<char>) -> bool {
    forall|i: int| 0 <= i < s.len() ==> s[i] == '1' || s[i] == '0'
}

/// Prints a binary dna as ones and zeroes, one character per gene.
pub fn phenotype(dna: &[Binary]) -> (r: String)
    ensures
        r@.len() == dna@.len(),
        forall|i: int| 0 <= i < dna@.len() ==> r@[i] == phenotype_char(#[trigger] dna@[i]),
{
    let mut text = String::new();
    let n = dna.len();
    let mut i: usize = 0;
    while i < n
        invariant
            i <= n,
            n == dna@.len(),
            text@.len() == i,
            forall|j: int| 0 <= j < i ==> text@[j] == phenotype_char(#[trigger] dna@[j]),
        decreases n - i,
    {
        proof {
            reveal_strlit("1");
            reveal_strlit("0");
        }
        if dna[i].value {
            text.append("1");
        } else {
            text.append("0");
        }
        i += 1;
    }
    text
}

/// Parses a string of ones and zeroes into a binary dna: gene `i` carries
/// identity `i` and the bit of character `i`.  Any other character is
/// reported as `None`, not a panic.
pub fn dna_from_text(s: &str) -> (r: Option<Vec<Binary>>)
    requires
        s@.len() <= i32::MAX,
    ensures
        r.is_some() == text_parses(s@),
        r matches Some(dna) ==> dna@.len() == s@.len() && (forall|i: int|
            0 <= i < s@.len() ==> (#[trigger] dna@[i]).id == i && dna@[i].value == (s@[i]
                == '1')),
{
    broadcast use vstd::string::is_ascii_spec_bytes;

    proof {
        reveal_strlit("1");
        reveal_strlit("0");
    }
    if !s.is_ascii() {
        // Some character is beyond ASCII, so it is neither a one nor a
        // zero.
        proof {
            let w = choose|i: int| 0 <= i < s@.len() && !('\0' <= #[trigger] s@[i] <= '\u{7f}');
            assert(s@[w] != '1' && s@[w] != '0');
        }
        return None;
    }
    let bytes = s.as_bytes();
    let n = bytes.len();
    proof {
        assert(n == s@.len());
    }

    let mut dna: Vec<Binary> = Vec::new();
    let mut index: usize = 0;
    while index < n
        invariant
            index <= n,
            n <= i32::MAX,
            n == s@.len(),
            bytes@.len() == n,
            forall|i: int| 0 <= i < n ==> #[trigger] bytes@[i] == s@[i] as u8,
            vstd::utf8::is_ascii_chars(s@),
            dna@.len() == index,
            forall|i: int|
                0 <= i < index ==> (#[trigger] dna@[i]).id == i && dna@[i].value == (s@[i] == '1'),
            forall|i: int| 0 <= i < index ==> #[trigger] s@[i] == '1' || s@[i] == '0',
        decreases n - index,
    {
        let byte = bytes[index];
        proof {
            assert('\0' <= s@[index as int] <= '\u{7f}');
        }
        if byte == 49 {
            proof {
                assert(s@[index as int] == '1');
            }
            dna.push(Binary { id: index as i32, value: true });
        } else if byte == 48 {
            proof {
                assert(s@[index as int] == '0');
            }
            dna.push(Binary { id: index as i32, value: false });
        } else {
            proof {
                assert(s@[index as int] != '1' && s@[index as int] != '0');
            }
            return None;
        }
        index += 1;
    }
    Some(dna)
}

} // verus!
