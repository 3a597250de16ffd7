//! Lexicographic ordering of names.
//!
//! Audio packs are kept sorted by name; the order is byte-wise
//! lexicographic on the name's encoding, which is the order the standard
//! string comparison uses.

use vstd::prelude::*;
use vstd::string::StringSliceAdditionalSpecFns;

verus! {

/// Byte-wise lexicographic "less than or equal" on byte sequences.
pub open spec fn lex_le(x: Seq<u8>, y: Seq<u8>) -> bool
    decreases x.len(),
{
    if x.len() == 0 {
        true
    } else if y.len() == 0 {
        false
    } else if x[0] < y[0] {
        true
    } else if x[0] > y[0] {
        false
    } else {
        lex_le(x.drop_first(), y.drop_first())
    }
}

/// The order is total: any two byte sequences compare one way or the other.
pub proof fn lemma_lex_le_total(x: Seq<u8>, y: Seq<u8>)
    ensures
        lex_le(x, y) || lex_le(y, x),
    decreases x.len(),
{
    if x.len() > 0 && y.len() > 0 && x[0] == y[0] {
        lemma_lex_le_total(x.drop_first(), y.drop_first());
    }
}

/// The order is transitive.
pub proof fn lemma_lex_le_trans(x: Seq<u8>, y: Seq<u8>, z: Seq<u8>)
    requires
        lex_le(x, y),
        lex_le(y, z),
    ensures
        lex_le(x, z),
    decreases x.len(),
{
    if x.len() > 0 && y.len() > 0 && z.len() > 0 && x[0] == y[0] && y[0] == z[0] {
        lemma_lex_le_trans(x.drop_first(), y.drop_first(), z.drop_first());
    }
}

/// Comparing two sequences that agree on their first `i` bytes reduces to
/// comparing what remains of each.
proof fn lemma_lex_le_skip(x: Seq<u8>, y: Seq<u8>, i: int)
    requires
        0 <= i <= x.len(),
        i <= y.len(),
        forall|k: int| 0 <= k < i ==> x[k] == y[k],
    ensures
        lex_le(x, y) == lex_le(x.subrange(i, x.len() as int), y.subrange(i, y.len() as int)),
    decreases i,
{
    if i == 0 {
        assert(x.subrange(0, x.len() as int) =~= x);
        assert(y.subrange(0, y.len() as int) =~= y);
    } else {
        assert(x.len() > 0 && y.len() > 0 && x[0] == y[0]);
        let xs = x.drop_first();
        let ys = y.drop_first();
        assert(forall|k: int| 0 <= k < i - 1 ==> xs[k] == ys[k]);
        lemma_lex_le_skip(xs, ys, i - 1);
        assert(xs.subrange(i - 1, xs.len() as int) =~= x.subrange(i, x.len() as int));
        assert(ys.subrange(i - 1, ys.len() as int) =~= y.subrange(i, y.len() as int));
    }
}

/// Byte-wise lexicographic comparison of two byte slices.
pub fn bytes_le(a: &[u8], b: &[u8]) -> (r: bool)
    ensures
        r == lex_le(a@, b@),
{
    let a_len: usize = a.len();
    let b_len: usize = b.len();
    let mut i: usize = 0;
    loop
        invariant
            i <= a_len,
            i <= b_len,
            a_len == a@.len(),
            b_len == b@.len(),
            forall|k: int| 0 <= k < i as int ==> a@[k] == b@[k],
        ensures
            lex_le(a@, b@) == ({
                let i = i as int;
                if i == a@.len() {
                    true
                } else if i == b@.len() {
                    false
                } else {
                    a@[i] < b@[i]
                }
            }),
            i as int == a@.len() || i as int == b@.len() || a@[i as int] != b@[i as int],
        decreases a_len - i,
    {
        proof {
            lemma_lex_le_skip(a@, b@, i as int);
        }
        if i == a_len {
            proof {
                assert(a@.subrange(i as int, a@.len() as int).len() == 0);
            }
            break;
        }
        if i == b_len {
            proof {
                assert(b@.subrange(i as int, b@.len() as int).len() == 0);
                assert(a@.subrange(i as int, a@.len() as int).len() > 0);
            }
            break;
        }
        let av: u8 = a[i];
        let bv: u8 = b[i];
        if av != bv {
            proof {
                let xs = a@.subrange(i as int, a@.len() as int);
                let ys = b@.subrange(i as int, b@.len() as int);
                assert(xs[0] == a@[i as int] && ys[0] == b@[i as int]);
            }
            break;
        }
        i = i + 1;
    }
    if i == a_len {
        true
    } else if i == b_len {
        false
    } else {
        a[i] < b[i]
    }
}

/// Lexicographic order of two names, over their byte encodings.
pub open spec fn name_le(a: Seq<char>, b: Seq<char>) -> bool {
    lex_le(vstd::utf8::encode_utf8(a), vstd::utf8::encode_utf8(b))
}

/// Compares two names as the standard string order does.
pub fn str_le(a: &str, b: &str) -> (r: bool)
    ensures
        r == name_le(a@, b@),
{
    bytes_le(a.as_bytes(), b.as_bytes())
}

} // verus!
