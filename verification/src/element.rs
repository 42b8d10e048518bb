//! The display row: a label, a rendered value and a visibility tier.

use vstd::prelude::*;
use vstd::string::*;

verus! {

/// What a renderer sees of one row.
pub struct Row {
    pub label: Seq<char>,
    pub value: Seq<char>,
    pub expert: bool,
}

/// A row shown in the regular view.
pub open spec fn regular_row(label: Seq<char>, value: Seq<char>) -> Row {
    Row { label, value, expert: false }
}

/// A row shown only in the expert view.
pub open spec fn expert_row(label: Seq<char>, value: Seq<char>) -> Row {
    Row { label, value, expert: true }
}

/// The same row, shown only in the expert view.
pub open spec fn demoted(r: Row) -> Row {
    Row { label: r.label, value: r.value, expert: true }
}

/// One labelled line of the confirmation screen.
#[derive(Debug, Clone, PartialEq, Eq)]
pub struct Element {
    pub label: String,
    pub value: String,
    pub expert: bool,
}

impl View for Element {
    type V = Row;

    open spec fn view(&self) -> Row {
        Row { label: self.label@, value: self.value@, expert: self.expert }
    }
}

impl Element {
    pub fn regular(label: &str, value: String) -> (e: Element)
        ensures
            e@ == regular_row(label@, value@),
            e.value == value,
    {
        Element { label: String::from_str(label), value, expert: false }
    }

    pub fn expert(label: &str, value: String) -> (e: Element)
        ensures
            e@ == expert_row(label@, value@),
            e.value == value,
    {
        Element { label: String::from_str(label), value, expert: true }
    }

    /// Moves the row to the expert view; label and value stay.
    pub fn as_expert(&mut self)
        ensures
            final(self)@ == demoted(old(self)@),
    {
        self.expert = true;
    }

    pub fn is_expert(&self) -> (b: bool)
        ensures
            b == self@.expert,
    {
        self.expert
    }
}

/// The rows of a sequence of elements, in order.
pub open spec fn rows(v: Seq<Element>) -> Seq<Row> {
    v.map_values(|e: Element| e@)
}

/// Every row of `s` moved to the expert view.
pub open spec fn all_demoted(s: Seq<Row>) -> Seq<Row> {
    s.map_values(|r: Row| demoted(r))
}

/// Appends one element.
pub fn push_row(v: &mut Vec<Element>, e: Element)
    ensures
        rows(final(v)@) == rows(old(v)@).push(e@),
{
    v.push(e);
    assert(rows(v@) =~= rows(old(v)@).push(e@));
}

/// Appends the element of `e`, if there is one.
pub fn push_optional(v: &mut Vec<Element>, e: Option<Element>)
    ensures
        rows(final(v)@) == rows(old(v)@) + optional_rows(e),
{
    match e {
        Some(el) => {
            v.push(el);
            assert(rows(v@) =~= rows(old(v)@) + optional_rows(e));
        },
        None => {
            assert(rows(v@) =~= rows(old(v)@) + optional_rows(e));
        },
    }
}

/// No row for `None`, one row for `Some`.
pub open spec fn optional_rows(e: Option<Element>) -> Seq<Row> {
    match e {
        Some(el) => seq![el@],
        None => Seq::empty(),
    }
}

/// Appends all of `tail`, in order.
pub fn extend_rows(v: &mut Vec<Element>, tail: Vec<Element>)
    ensures
        rows(final(v)@) == rows(old(v)@) + rows(tail@),
{
    let mut tail = tail;
    let ghost before = v@;
    let ghost added = tail@;
    v.append(&mut tail);
    assert(v@ == before + added);
    assert(rows(v@) =~= rows(before) + rows(added));
}

/// A copy of `v` with every element moved to the expert view.
pub fn demote_all(v: &Vec<Element>) -> (out: Vec<Element>)
    ensures
        rows(out@) == all_demoted(rows(v@)),
{
    let mut out: Vec<Element> = Vec::new();
    let mut i: usize = 0;
    while i < v.len()
        invariant
            i <= v@.len(),
            out@.len() == i,
            forall|k: int| 0 <= k < i ==> (#[trigger] out@[k])@ == demoted(v@[k]@),
        decreases v@.len() - i,
    {
        let e = Element { label: v[i].label.clone(), value: v[i].value.clone(), expert: true };
        out.push(e);
        i = i + 1;
    }
    assert(rows(out@) =~= all_demoted(rows(v@)));
    out
}

} // verus!
