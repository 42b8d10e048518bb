//! Named arguments: lookup, removal of the keys that a specialised row has
//! used up, and the dump that shows every argument that is left.

use vstd::prelude::*;
use vstd::string::*;
use vstd::relations::sorted_by;
use vstd::seq_lib::{lemma_sorted_unique, to_multiset_insert};
use crate::order::{lemma_pair_le_connected, lemma_pair_le_transitive, lemma_pair_order_total};
use crate::order::{pair_le, pair_order};
use crate::text::str_lt;

verus! {

/// A name and the rendered value that goes with it.
pub type Pair = (Seq<char>, Seq<char>);

/// One argument: its name and its value, already rendered for display.
pub struct NamedArg {
    pub name: String,
    pub value: String,
}

impl View for NamedArg {
    type V = Pair;

    open spec fn view(&self) -> Pair {
        (self.name@, self.value@)
    }
}

/// The pairs that a sequence of arguments stands for.
pub open spec fn arg_views(v: Seq<NamedArg>) -> Seq<Pair> {
    v.map_values(|a: NamedArg| a@)
}

/// No name occurs twice.
pub open spec fn unique_names(a: Seq<Pair>) -> bool {
    forall|i: int, j: int| 0 <= i < j < a.len() ==> a[i].0 != a[j].0
}

/// The place of the first argument named `key`, or the length where there is
/// none.
pub open spec fn first_index(a: Seq<Pair>, key: Seq<char>) -> int
    decreases a.len(),
{
    if a.len() == 0 {
        0
    } else if a[0].0 == key {
        0
    } else {
        1 + first_index(a.skip(1), key)
    }
}

/// The value of the argument named `key`, if there is one.
pub open spec fn lookup(a: Seq<Pair>, key: Seq<char>) -> Option<Seq<char>> {
    let i = first_index(a, key);
    if i < a.len() {
        Some(a[i].1)
    } else {
        None
    }
}

/// The arguments of `a` that are not named `key`, in their order.
pub open spec fn without(a: Seq<Pair>, key: Seq<char>) -> Seq<Pair> {
    a.filter(not_named(key))
}

/// The test that `without` keeps an argument by.
pub open spec fn not_named(key: Seq<char>) -> spec_fn(Pair) -> bool {
    |p: Pair| p.0 != key
}

/// The arguments in the order in which they are shown.
pub open spec fn sorted_args(a: Seq<Pair>) -> Seq<Pair> {
    a.sort_by(pair_order())
}

/// `first_index` is the least place that holds `key`.
pub proof fn lemma_first_index(a: Seq<Pair>, key: Seq<char>)
    ensures
        0 <= first_index(a, key) <= a.len(),
        first_index(a, key) < a.len() ==> a[first_index(a, key)].0 == key,
        forall|k: int| 0 <= k < first_index(a, key) ==> (#[trigger] a[k]).0 != key,
    decreases a.len(),
{
    if a.len() > 0 && a[0].0 != key {
        let rest = a.skip(1);
        lemma_first_index(rest, key);
        assert forall|k: int| 0 <= k < first_index(a, key) implies (#[trigger] a[k]).0 != key by {
            if k > 0 {
                assert(a[k] == rest[k - 1]);
            }
        }
    }
}

/// Removing a name leaves no name twice where none was there twice.
pub proof fn lemma_without_keeps_unique(a: Seq<Pair>, key: Seq<char>)
    requires
        unique_names(a),
    ensures
        unique_names(without(a, key)),
    decreases a.len(),
{
    let p = not_named(key);
    if a.len() == 0 {
        a.lemma_filter_len(p);
    } else {
        let init = a.drop_last();
        let last = a.last();
        assert(a =~= init.push(last));
        assert(unique_names(init)) by {
            assert forall|i: int, j: int| 0 <= i < j < init.len() implies init[i].0 != init[j].0 by {
                assert(init[i] == a[i] && init[j] == a[j]);
            }
        }
        lemma_without_keeps_unique(init, key);
        init.lemma_filter_push(last, p);
        let f = init.filter(p);
        if p(last) {
            let g = f.push(last);
            assert forall|i: int, j: int| 0 <= i < j < g.len() implies g[i].0 != g[j].0 by {
                if j == f.len() {
                    assert(f.contains(f[i]));
                    init.lemma_filter_contains_rev(p, f[i]);
                    let x = choose|x: int| 0 <= x < init.len() && init[x] == f[i];
                    assert(a[x].0 != a[a.len() - 1].0);
                } else {
                    assert(f[i].0 != f[j].0);
                }
            }
        }
    }
}

/// The named arguments of a contract call or a native operation, in the order
/// in which they were given.
pub struct RuntimeArgs {
    args: Vec<NamedArg>,
}

impl View for RuntimeArgs {
    type V = Seq<Pair>;

    closed spec fn view(&self) -> Seq<Pair> {
        arg_views(self.args@)
    }
}

impl RuntimeArgs {
    /// No name occurs twice.
    pub open spec fn wf(&self) -> bool {
        unique_names(self@)
    }

    pub fn new() -> (r: RuntimeArgs)
        ensures
            r@ == Seq::<Pair>::empty(),
            r.wf(),
    {
        let r = RuntimeArgs { args: Vec::new() };
        assert(r@ =~= Seq::<Pair>::empty());
        r
    }

    pub fn len(&self) -> (n: usize)
        ensures
            n == self@.len(),
    {
        self.args.len()
    }

    pub fn is_empty(&self) -> (b: bool)
        ensures
            b == (self@.len() == 0),
    {
        self.args.len() == 0
    }

    /// The place of the first argument named `key`.
    fn position(&self, key: &str) -> (r: usize)
        ensures
            r == first_index(self@, key@),
            r <= self@.len(),
    {
        let mut i: usize = 0;
        let wanted = String::from_str(key);
        proof {
            lemma_first_index(self@, key@);
        }
        while i < self.args.len()
            invariant
                i <= self.args@.len(),
                wanted@ == key@,
                forall|k: int| 0 <= k < i ==> (#[trigger] self@[k]).0 != key@,
            decreases self.args@.len() - i,
        {
            if self.args[i].name == wanted {
                proof {
                    lemma_first_index(self@, key@);
                    assert(self@[i as int].0 == key@);
                }
                return i;
            }
            assert(self@[i as int].0 != key@);
            i = i + 1;
        }
        proof {
            lemma_first_index(self@, key@);
        }
        i
    }

    /// The value of the argument named `key`, if there is one.
    pub fn get(&self, key: &str) -> (r: Option<&String>)
        ensures
            r.is_some() == lookup(self@, key@).is_some(),
            r.is_some() ==> r.unwrap()@ == lookup(self@, key@).unwrap(),
    {
        let i = self.position(key);
        if i < self.args.len() {
            Some(&self.args[i].value)
        } else {
            None
        }
    }

    /// Sets the argument named `name` to `value`: in place where the name is
    /// there already, at the end where it is new.
    pub fn insert(&mut self, name: &str, value: &str)
        ensures
            first_index(old(self)@, name@) < old(self)@.len() ==> final(self)@ == old(self)@.update(
                first_index(old(self)@, name@),
                (name@, value@),
            ),
            first_index(old(self)@, name@) >= old(self)@.len() ==> final(self)@ == old(self)@.push(
                (name@, value@),
            ),
            old(self).wf() ==> final(self).wf(),
            lookup(final(self)@, name@) == Some(value@),
    {
        let i = self.position(name);
        let arg = NamedArg { name: String::from_str(name), value: String::from_str(value) };
        proof {
            lemma_first_index(self@, name@);
        }
        if i < self.args.len() {
            self.args.set(i, arg);
            assert(self@ =~= old(self)@.update(i as int, (name@, value@)));
            assert(self@[i as int].0 == name@);
        } else {
            self.args.push(arg);
            assert(self@ =~= old(self)@.push((name@, value@)));
            assert(self@[i as int].0 == name@);
        }
        proof {
            lemma_first_index(self@, name@);
            let j = first_index(self@, name@);
            if j < i {
                assert(self@[j].0 == old(self)@[j].0);
            }
            assert(j == i);
        }
    }

    /// A copy without the argument named `key`.
    pub fn without_key(&self, key: &str) -> (r: RuntimeArgs)
        ensures
            r@ == without(self@, key@),
            self.wf() ==> r.wf(),
    {
        proof {
            if self.wf() {
                lemma_without_keeps_unique(self@, key@);
            }
        }
        let mut out: Vec<NamedArg> = Vec::new();
        let mut i: usize = 0;
        let ghost keep = not_named(key@);
        let wanted = String::from_str(key);
        proof {
            assert(self@.take(0) =~= Seq::<Pair>::empty());
            assert(arg_views(out@) =~= Seq::<Pair>::empty());
            Seq::<Pair>::empty().lemma_filter_len(keep);
        }
        while i < self.args.len()
            invariant
                i <= self.args@.len(),
                keep == not_named(key@),
                wanted@ == key@,
                arg_views(out@) == self@.take(i as int).filter(keep),
            decreases self.args@.len() - i,
        {
            proof {
                assert(self@.take(i + 1) =~= self@.take(i as int).push(self@[i as int]));
                self@.take(i as int).lemma_filter_push(self@[i as int], keep);
            }
            assert(self@[i as int] == self.args@[i as int]@);
            if !(self.args[i].name == wanted) {
                let ghost before = out@;
                let a = NamedArg { name: self.args[i].name.clone(), value: self.args[i].value.clone() };
                out.push(a);
                assert(arg_views(out@) =~= arg_views(before).push(self@[i as int]));
            }
            i = i + 1;
        }
        assert(self@.take(i as int) =~= self@);
        RuntimeArgs { args: out }
    }
}

/// Whether `a` is shown no later than `b`.
fn shown_no_later(a: &NamedArg, b: &NamedArg) -> (r: bool)
    ensures
        r == pair_le(a@, b@),
{
    if str_lt(a.name.as_str(), b.name.as_str()) {
        true
    } else if a.name == b.name {
        a.value == b.value || str_lt(a.value.as_str(), b.value.as_str())
    } else {
        false
    }
}

impl RuntimeArgs {
    /// The arguments in display order: ascending by name.
    pub fn sorted(&self) -> (out: Vec<NamedArg>)
        ensures
            arg_views(out@) == sorted_args(self@),
    {
        let mut out: Vec<NamedArg> = Vec::new();
        let mut i: usize = 0;
        proof {
            assert(self@.take(0) =~= Seq::<Pair>::empty());
            assert(arg_views(out@) =~= Seq::<Pair>::empty());
        }
        while i < self.args.len()
            invariant
                i <= self.args@.len(),
                sorted_by(arg_views(out@), pair_order()),
                arg_views(out@).to_multiset() == self@.take(i as int).to_multiset(),
            decreases self.args@.len() - i,
        {
            let item = NamedArg { name: self.args[i].name.clone(), value: self.args[i].value.clone() };
            assert(item@ == self@[i as int]);
            let mut p: usize = 0;
            let mut searching = true;
            while searching && p < out.len()
                invariant
                    p <= out@.len(),
                    forall|k: int| 0 <= k < p ==> pair_le(#[trigger] arg_views(out@)[k], item@),
                    !searching ==> p < out@.len() && !pair_le(arg_views(out@)[p as int], item@),
                decreases out@.len() - p + (if searching { 1int } else { 0int }),
            {
                if shown_no_later(&out[p], &item) {
                    p = p + 1;
                } else {
                    searching = false;
                }
            }
            let ghost before = arg_views(out@);
            out.insert(p, item);
            proof {
                let x = self@[i as int];
                let after = arg_views(out@);
                assert(after =~= before.insert(p as int, x));
                assert forall|k: int| p <= k < before.len() implies pair_le(x, #[trigger] before[k]) by {
                    lemma_pair_le_connected(x, before[p as int]);
                    if k > p {
                        assert(pair_order()(before[p as int], before[k]));
                        lemma_pair_le_transitive(x, before[p as int], before[k]);
                    }
                }
                assert forall|a: int, b: int| 0 <= a < b < after.len() implies #[trigger] pair_order()(
                    after[a],
                    after[b],
                ) by {
                    if b < p {
                        assert(pair_order()(before[a], before[b]));
                    } else if b == p {
                        assert(pair_le(before[a], x));
                    } else if a < p {
                        assert(pair_order()(before[a], before[b - 1]));
                    } else if a == p {
                        assert(pair_le(x, before[b - 1]));
                    } else {
                        assert(pair_order()(before[a - 1], before[b - 1]));
                    }
                }
                to_multiset_insert(before, p as int, x);
                assert(self@.take(i + 1) =~= self@.take(i as int).push(x));
                self@.take(i as int).to_multiset_ensures();
            }
            i = i + 1;
        }
        proof {
            assert(self@.take(i as int) =~= self@);
            lemma_pair_order_total();
            self@.lemma_sort_by_ensures(pair_order());
            lemma_sorted_unique(arg_views(out@), sorted_args(self@), pair_order());
        }
        out
    }
}

} // verus!
