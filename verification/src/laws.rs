//! What holds of the rows whatever the transaction: nothing is hidden,
//! nothing is shown twice, and the order of the arguments as given does not
//! matter.

use vstd::prelude::*;
use vstd::seq_lib::{lemma_sorted_unique, to_multiset_len};
use crate::args::{first_index, lemma_first_index, lookup, not_named, sorted_args, without, Pair};
use crate::element::{regular_row, Row};
use crate::order::{lemma_pair_order_total, pair_order};
use crate::parser::{auction_rows, deploy_type_rows, dump_rows, entry_point_of};
use crate::parser::{phase_rows, without_transfer_keys, ExecutableDeployItem, TxnPhase};
use crate::parser::v1::{v1_type_rows, TransactionTarget};
use crate::args::unique_names;
use crate::amount::{amount_text, lemma_dec_digits_are_digits, lemma_dec_value_of_digits};
use crate::text::{all_digits, dec_digits, dec_value, digest_text, group3, lex_le, lex_lt};

verus! {

/// Grouping puts a space after every third digit counted from the right and
/// nowhere else: counted from the right, every fourth character of the
/// grouped text is a space, and the others are the digits in their order.
pub proof fn lemma_group3_layout(d: Seq<char>, j: int)
    requires
        d.len() >= 1,
        0 <= j < d.len() + (d.len() - 1) / 3,
    ensures
        group3(d).len() == d.len() + (d.len() - 1) / 3,
        j % 4 == 3 ==> group3(d)[group3(d).len() - 1 - j] == ' ',
        j % 4 != 3 ==> group3(d)[group3(d).len() - 1 - j] == d[d.len() - 1 - (j - j / 4)],
    decreases d.len(),
{
    let n = d.len() as int;
    if n > 3 {
        let head = d.take(n - 3);
        let tail = d.skip(n - 3);
        let g = group3(head);
        lemma_group3_layout(head, 0);
        assert(group3(d) == g.push(' ') + tail);
        if j < 3 {
            assert(group3(d)[group3(d).len() - 1 - j] == tail[2 - j]);
        } else if j == 3 {
            assert(group3(d)[group3(d).len() - 4] == g.push(' ')[g.len() as int]);
        } else {
            lemma_group3_layout(head, j - 4);
            assert(group3(d)[group3(d).len() - 1 - j] == g[g.len() - 1 - (j - 4)]);
            if j % 4 != 3 {
                assert(head[head.len() - 1 - ((j - 4) - (j - 4) / 4)] == d[n - 1 - (j - j / 4)]);
            }
        }
    }
}

/// The text of an amount is its digits in groups of three, then the unit.
pub proof fn lemma_amount_text_layout(n: nat)
    ensures
        amount_text(n) == group3(dec_digits(n)) + " motes"@,
        all_digits(dec_digits(n)),
        dec_value(dec_digits(n)) == n,
{
    lemma_dec_digits_are_digits(n);
    lemma_dec_value_of_digits(n);
}

/// The dump has two rows for each argument.
pub proof fn lemma_dump_length(a: Seq<Pair>)
    ensures
        sorted_args(a).len() == a.len(),
        dump_rows(a).len() == 2 * a.len(),
{
    lemma_pair_order_total();
    a.lemma_sort_by_ensures(pair_order());
    to_multiset_len(a);
    to_multiset_len(sorted_args(a));
}

/// The dump shows the arguments ascending by name: of two arguments, the one
/// shown first has the name that comes first, or the same name.
pub proof fn lemma_dump_ascending(a: Seq<Pair>, i: int, j: int)
    requires
        0 <= i < j < a.len(),
    ensures
        dump_rows(a)[2 * i].value == sorted_args(a)[i].0,
        dump_rows(a)[2 * j].value == sorted_args(a)[j].0,
        lex_le(dump_rows(a)[2 * i].value, dump_rows(a)[2 * j].value),
{
    lemma_dump_length(a);
    lemma_pair_order_total();
    a.lemma_sort_by_ensures(pair_order());
    let s = sorted_args(a);
    assert(pair_order()(s[i], s[j]));
}

/// Where no name occurs twice, the names in the dump ascend strictly.
pub proof fn lemma_dump_strictly_ascending(a: Seq<Pair>, i: int, j: int)
    requires
        unique_names(a),
        0 <= i < j < a.len(),
    ensures
        lex_lt(dump_rows(a)[2 * i].value, dump_rows(a)[2 * j].value),
{
    lemma_dump_ascending(a, i, j);
    lemma_pair_order_total();
    a.lemma_sort_by_ensures(pair_order());
    let s = sorted_args(a);
    if s[i].0 == s[j].0 {
        a.to_multiset_ensures();
        s.to_multiset_ensures();
        assert(s.contains(s[i]));
        assert(s.contains(s[j]));
        assert(a.contains(s[i]));
        assert(a.contains(s[j]));
        let x = choose|x: int| 0 <= x < a.len() && a[x] == s[i];
        let y = choose|y: int| 0 <= y < a.len() && a[y] == s[j];
        if x != y {
            if x < y {
                assert(a[x].0 != a[y].0);
            } else {
                assert(a[y].0 != a[x].0);
            }
        } else {
            // One argument at two places of the sorted sequence: then it
            // occurs twice in `a` as well.
            lemma_twice_in_sorted(a, i, j);
        }
    }
}

/// An argument that stands at two places of the display order occurs at two
/// places of the arguments as given.
proof fn lemma_twice_in_sorted(a: Seq<Pair>, i: int, j: int)
    requires
        0 <= i < j < sorted_args(a).len(),
        sorted_args(a)[i] == sorted_args(a)[j],
    ensures
        !unique_names(a),
{
    lemma_pair_order_total();
    a.lemma_sort_by_ensures(pair_order());
    let s = sorted_args(a);
    let e = s[i];
    lemma_count_two(s, i, j);
    assert(a.to_multiset().count(e) >= 2);
    if unique_names(a) {
        lemma_count_at_most_one(a, e);
    }
}

/// Something that stands at two places of a sequence is counted twice.
proof fn lemma_count_two(s: Seq<Pair>, i: int, j: int)
    requires
        0 <= i < j < s.len(),
        s[i] == s[j],
    ensures
        s.to_multiset().count(s[i]) >= 2,
{
    let e = s[i];
    let r = s.remove(j);
    s.to_multiset_ensures();
    r.to_multiset_ensures();
    assert(r[i] == e);
    assert(r.contains(e));
    assert(r.to_multiset().count(e) > 0);
    assert(r.to_multiset() =~= s.to_multiset().remove(e));
}

/// Where no name occurs twice, no argument is counted twice.
proof fn lemma_count_at_most_one(a: Seq<Pair>, e: Pair)
    requires
        unique_names(a),
    ensures
        a.to_multiset().count(e) <= 1,
    decreases a.len(),
{
    a.to_multiset_ensures();
    if a.to_multiset().count(e) >= 2 {
        assert(a.contains(e));
        let x = choose|x: int| 0 <= x < a.len() && a[x] == e;
        let r = a.remove(x);
        r.to_multiset_ensures();
        assert(r.to_multiset() =~= a.to_multiset().remove(e));
        assert(r.to_multiset().count(e) >= 1);
        assert(r.contains(e));
        let y = choose|y: int| 0 <= y < r.len() && r[y] == e;
        if y < x {
            assert(a[y] == e);
            assert(a[y].0 != a[x].0);
        } else {
            assert(a[y + 1] == e);
            assert(a[x].0 != a[y + 1].0);
        }
    }
}

/// Every argument is shown: its name in one row, its value in the next.
pub proof fn lemma_dump_shows_every_argument(a: Seq<Pair>, k: int)
    requires
        0 <= k < a.len(),
    ensures
        exists|m: int|
            0 <= m < a.len() && (#[trigger] dump_rows(a)[2 * m]).value == a[k].0 && dump_rows(
                a,
            )[2 * m + 1].value == a[k].1,
{
    lemma_dump_length(a);
    lemma_pair_order_total();
    a.lemma_sort_by_ensures(pair_order());
    let s = sorted_args(a);
    a.to_multiset_ensures();
    s.to_multiset_ensures();
    assert(a.contains(a[k]));
    assert(a.to_multiset().count(a[k]) > 0);
    assert(s.to_multiset().count(a[k]) > 0);
    assert(s.contains(a[k]));
    let m = choose|m: int| 0 <= m < s.len() && s[m] == a[k];
    assert(dump_rows(a)[2 * m].value == a[k].0);
    assert(dump_rows(a)[2 * m + 1].value == a[k].1);
}

/// The dump depends on which arguments there are, not on the order in which
/// they were given.
pub proof fn lemma_dump_order_independent(a: Seq<Pair>, b: Seq<Pair>)
    requires
        a.to_multiset() == b.to_multiset(),
    ensures
        dump_rows(a) == dump_rows(b),
{
    lemma_pair_order_total();
    a.lemma_sort_by_ensures(pair_order());
    b.lemma_sort_by_ensures(pair_order());
    lemma_sorted_unique(sorted_args(a), sorted_args(b), pair_order());
}

/// `without` keeps exactly the arguments that are not named `key`.
pub proof fn lemma_without_holds(a: Seq<Pair>, key: Seq<char>, e: Pair)
    ensures
        without(a, key).contains(e) <==> (a.contains(e) && e.0 != key),
{
    let f = without(a, key);
    let p = not_named(key);
    if f.contains(e) {
        a.lemma_filter_contains_rev(p, e);
        let i = choose|i: int| 0 <= i < f.len() && f[i] == e;
        a.lemma_filter_pred(p, i);
    }
    if a.contains(e) && e.0 != key {
        let i = choose|i: int| 0 <= i < a.len() && a[i] == e;
        a.lemma_filter_contains(p, i);
    }
}

/// One of the five names that a transfer shows in rows of its own.
pub open spec fn is_transfer_key(name: Seq<char>) -> bool {
    name == "to"@ || name == "source"@ || name == "target"@ || name == "amount"@ || name == "id"@
}

/// After a transfer's own rows, the arguments left for the dump are exactly
/// those that no such row has shown: none is shown twice, none is dropped.
pub proof fn lemma_transfer_leftover(a: Seq<Pair>, e: Pair)
    ensures
        without_transfer_keys(a).contains(e) <==> (a.contains(e) && !is_transfer_key(e.0)),
{
    let w1 = without(a, "to"@);
    let w2 = without(w1, "source"@);
    let w3 = without(w2, "target"@);
    let w4 = without(w3, "amount"@);
    lemma_without_holds(a, "to"@, e);
    lemma_without_holds(w1, "source"@, e);
    lemma_without_holds(w2, "target"@, e);
    lemma_without_holds(w3, "amount"@, e);
    lemma_without_holds(w4, "id"@, e);
}

/// Where no name occurs twice, looking up an argument's name gives that
/// argument's value.
pub proof fn lemma_lookup_finds(a: Seq<Pair>, k: int)
    requires
        unique_names(a),
        0 <= k < a.len(),
    ensures
        lookup(a, a[k].0) == Some(a[k].1),
{
    lemma_first_index(a, a[k].0);
    let i = first_index(a, a[k].0);
    if i < k {
        assert(a[i].0 != a[k].0);
    }
}

/// Each argument of a transfer is shown once: one of the five that have a
/// row of their own is found by its name and is not left for the dump; any
/// other is left for the dump, which shows it.
pub proof fn lemma_transfer_shows_each_once(a: Seq<Pair>, k: int)
    requires
        unique_names(a),
        0 <= k < a.len(),
    ensures
        is_transfer_key(a[k].0) ==> lookup(a, a[k].0) == Some(a[k].1)
            && !without_transfer_keys(a).contains(a[k]),
        !is_transfer_key(a[k].0) ==> without_transfer_keys(a).contains(a[k]),
{
    lemma_lookup_finds(a, k);
    assert(a.contains(a[k]));
    lemma_transfer_leftover(a, a[k]);
}

/// Each row pair of the dump shows an argument that is there.
pub proof fn lemma_dump_shows_only_arguments(a: Seq<Pair>, m: int)
    requires
        0 <= m < a.len(),
    ensures
        a.contains((dump_rows(a)[2 * m].value, dump_rows(a)[2 * m + 1].value)),
{
    lemma_dump_length(a);
    lemma_pair_order_total();
    a.lemma_sort_by_ensures(pair_order());
    let s = sorted_args(a);
    assert(s.contains(s[m]));
    assert(s[m] == (dump_rows(a)[2 * m].value, dump_rows(a)[2 * m + 1].value));
}

/// A transfer whose arguments all have rows of their own leaves nothing for
/// the dump.
pub proof fn lemma_transfer_leaves_no_dump(a: Seq<Pair>)
    requires
        forall|i: int| 0 <= i < a.len() ==> is_transfer_key(#[trigger] a[i].0),
    ensures
        without_transfer_keys(a).len() == 0,
        dump_rows(without_transfer_keys(a)) == Seq::<Row>::empty(),
{
    let w = without_transfer_keys(a);
    if w.len() > 0 {
        let e = w[0];
        assert(w.contains(e));
        lemma_transfer_leftover(a, e);
        let i = choose|i: int| 0 <= i < a.len() && a[i] == e;
        assert(is_transfer_key(a[i].0));
    }
    lemma_dump_length(w);
    assert(dump_rows(w) =~= Seq::<Row>::empty());
}

/// The same code gives the same digest text, so the same rows.
pub proof fn lemma_same_code_same_digest(x: Seq<u8>, y: Seq<u8>)
    requires
        x == y,
    ensures
        digest_text(x) == digest_text(y),
{
}

/// A session of the newer format that brings no code shows no digest: it
/// has no row of its kind at all.
pub proof fn lemma_no_digest_without_code(target: TransactionTarget)
    requires
        target matches TransactionTarget::Session { module_bytes } && module_bytes@.len() == 0,
    ensures
        v1_type_rows(target) == Seq::<Row>::empty(),
{
}

/// An item of the older format that brings no code shows no digest, in
/// either phase: its one row says its kind, the standard payment in the
/// payment phase and a contract in the session phase.
pub proof fn lemma_no_code_shows_no_digest(item: ExecutableDeployItem, phase: TxnPhase)
    requires
        item matches ExecutableDeployItem::ModuleBytes { module_bytes, .. } && module_bytes@.len()
            == 0,
    ensures
        deploy_type_rows(TxnPhase::Payment, item) == seq![regular_row("Payment"@, "system"@)],
        deploy_type_rows(TxnPhase::Session, item) == seq![regular_row("Session"@, "contract"@)],
        forall|i: int|
            0 <= i < deploy_type_rows(phase, item).len() ==> (#[trigger] deploy_type_rows(
                phase,
                item,
            )[i]).label != "Cntrct hash"@,
{
    reveal_strlit("Payment");
    reveal_strlit("Session");
    reveal_strlit("Cntrct hash");
    assert("Payment"@.len() != "Cntrct hash"@.len());
    assert("Session"@.len() != "Cntrct hash"@.len());
}

/// A digest row of the older format shows the digest of code that has
/// bytes: where the rows of an item's kind hold a second row for embedded
/// code, the code is not empty.
pub proof fn lemma_digest_row_needs_code(item: ExecutableDeployItem, phase: TxnPhase)
    requires
        item is ModuleBytes,
    ensures
        deploy_type_rows(phase, item).len() == 2 <==> item->module_bytes@.len() > 0,
{
}

/// A call at the entry point `delegate` is shown as a delegation, whichever
/// contract it calls and in whichever phase.
pub proof fn lemma_delegate_is_auction(item: ExecutableDeployItem, phase: TxnPhase)
    requires
        entry_point_of(item) == Some("delegate"@),
    ensures
        phase_rows(item, phase) == auction_rows("delegate"@, item),
{
}

} // verus!
