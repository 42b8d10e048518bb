//! The order in which arguments are shown: by name, and by value where two
//! names are the same.

use vstd::prelude::*;
use vstd::relations::total_ordering;
use vstd::utf8::{encode_utf8, encode_utf8_decode_utf8};
use crate::text::{bytes_lt, lex_le, lex_lt};
use crate::args::Pair;

verus! {

/// `x` is shown no later than `y`: its name comes first, or the names are
/// the same and its value comes no later.
pub open spec fn pair_le(x: Pair, y: Pair) -> bool {
    lex_lt(x.0, y.0) || (x.0 == y.0 && lex_le(x.1, y.1))
}

/// `pair_le` as a relation.
pub open spec fn pair_order() -> spec_fn(Pair, Pair) -> bool {
    |x: Pair, y: Pair| pair_le(x, y)
}

/// No run of bytes comes before itself.
proof fn lemma_bytes_irreflexive(a: Seq<u8>)
    ensures
        !bytes_lt(a, a),
    decreases a.len(),
{
    if a.len() > 0 {
        lemma_bytes_irreflexive(a.skip(1));
    }
}

/// Of two runs of bytes at most one comes before the other.
proof fn lemma_bytes_asymmetric(a: Seq<u8>, b: Seq<u8>)
    requires
        bytes_lt(a, b),
    ensures
        !bytes_lt(b, a),
    decreases a.len(),
{
    if a.len() > 0 && b.len() > 0 && a[0] == b[0] {
        lemma_bytes_asymmetric(a.skip(1), b.skip(1));
    }
}

/// The order of runs of bytes is transitive.
proof fn lemma_bytes_transitive(a: Seq<u8>, b: Seq<u8>, c: Seq<u8>)
    requires
        bytes_lt(a, b),
        bytes_lt(b, c),
    ensures
        bytes_lt(a, c),
    decreases a.len(),
{
    if a.len() > 0 && a[0] == b[0] && b[0] == c[0] {
        lemma_bytes_transitive(a.skip(1), b.skip(1), c.skip(1));
    }
}

/// Of two different runs of bytes one comes before the other.
proof fn lemma_bytes_connected(a: Seq<u8>, b: Seq<u8>)
    requires
        a != b,
    ensures
        bytes_lt(a, b) || bytes_lt(b, a),
    decreases a.len(),
{
    if a.len() == 0 || b.len() == 0 {
        if a.len() == 0 && b.len() == 0 {
            assert(a =~= b);
        }
    } else if a[0] == b[0] {
        let ra = a.skip(1);
        let rb = b.skip(1);
        if ra == rb {
            assert(a.len() == ra.len() + 1);
            assert(b.len() == rb.len() + 1);
            assert forall|i: int| 0 <= i < a.len() implies a[i] == b[i] by {
                if i > 0 {
                    assert(a[i] == ra[i - 1]);
                    assert(b[i] == rb[i - 1]);
                }
            }
            assert(a =~= b);
        }
        lemma_bytes_connected(ra, rb);
    }
}

/// Nothing comes before itself.
pub proof fn lemma_lex_irreflexive(a: Seq<char>)
    ensures
        !lex_lt(a, a),
{
    lemma_bytes_irreflexive(encode_utf8(a));
}

/// Of two strings at most one comes before the other.
pub proof fn lemma_lex_asymmetric(a: Seq<char>, b: Seq<char>)
    requires
        lex_lt(a, b),
    ensures
        !lex_lt(b, a),
{
    lemma_bytes_asymmetric(encode_utf8(a), encode_utf8(b));
}

/// What comes before something that comes before `c` comes before `c`.
pub proof fn lemma_lex_transitive(a: Seq<char>, b: Seq<char>, c: Seq<char>)
    requires
        lex_lt(a, b),
        lex_lt(b, c),
    ensures
        lex_lt(a, c),
{
    lemma_bytes_transitive(encode_utf8(a), encode_utf8(b), encode_utf8(c));
}

/// Of two different strings one comes before the other.
pub proof fn lemma_lex_connected(a: Seq<char>, b: Seq<char>)
    requires
        a != b,
    ensures
        lex_lt(a, b) || lex_lt(b, a),
{
    encode_utf8_decode_utf8(a);
    encode_utf8_decode_utf8(b);
    lemma_bytes_connected(encode_utf8(a), encode_utf8(b));
}

/// `pair_le` is transitive.
pub proof fn lemma_pair_le_transitive(x: Pair, y: Pair, z: Pair)
    requires
        pair_le(x, y),
        pair_le(y, z),
    ensures
        pair_le(x, z),
{
    if lex_lt(x.0, y.0) && lex_lt(y.0, z.0) {
        lemma_lex_transitive(x.0, y.0, z.0);
    }
    if x.0 == y.0 && y.0 == z.0 && lex_lt(x.1, y.1) && lex_lt(y.1, z.1) {
        lemma_lex_transitive(x.1, y.1, z.1);
    }
}

/// Of two pairs one is shown no later than the other.
pub proof fn lemma_pair_le_connected(x: Pair, y: Pair)
    ensures
        pair_le(x, y) || pair_le(y, x),
{
    if x.0 != y.0 {
        lemma_lex_connected(x.0, y.0);
    } else if x.1 != y.1 {
        lemma_lex_connected(x.1, y.1);
    }
}

/// Two pairs that are each shown no later than the other are one pair.
pub proof fn lemma_pair_le_antisymmetric(x: Pair, y: Pair)
    requires
        pair_le(x, y),
        pair_le(y, x),
    ensures
        x == y,
{
    lemma_lex_irreflexive(x.0);
    if lex_lt(x.0, y.0) {
        lemma_lex_asymmetric(x.0, y.0);
    }
    if lex_lt(y.0, x.0) {
        lemma_lex_asymmetric(y.0, x.0);
    }
    if lex_lt(x.1, y.1) {
        lemma_lex_asymmetric(x.1, y.1);
    }
}

/// The display order is a total order on pairs.
pub proof fn lemma_pair_order_total()
    ensures
        total_ordering(pair_order()),
{
    let r = pair_order();
    assert forall|x: Pair, y: Pair| #[trigger] r(x, y) && #[trigger] r(y, x) implies x == y by {
        lemma_pair_le_antisymmetric(x, y);
    }
    assert forall|x: Pair, y: Pair, z: Pair| #[trigger] r(x, y) && #[trigger] r(y, z) implies r(
        x,
        z,
    ) by {
        lemma_pair_le_transitive(x, y, z);
    }
    assert forall|x: Pair, y: Pair| #[trigger] r(x, y) || #[trigger] r(y, x) by {
        lemma_pair_le_connected(x, y);
    }
}

} // verus!
