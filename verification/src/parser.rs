//! Rows of a transaction in the older format: a header, then one execution
//! item for the payment and one for the session.

use vstd::prelude::*;
use vstd::string::*;
use crate::amount::{amount_text, format_amount, is_amount_literal, Motes};
use crate::args::{arg_views, lookup, sorted_args, without, NamedArg, Pair, RuntimeArgs};
use crate::element::{all_demoted, expert_row, optional_rows, regular_row, rows, Element, Row};
use crate::element::{demote_all, extend_rows, push_optional, push_row};
use crate::text::{code_digest, dec_digits, dec_value, digest_text, u64_to_decimal};

pub mod v1;

verus! {

/// The label of the row that names the argument shown at place `i`.
pub open spec fn name_label(i: int) -> Seq<char> {
    "arg-"@ + dec_digits(i as nat) + "-name"@
}

/// The label of the row that holds the value of the argument shown at place
/// `i`.
pub open spec fn value_label(i: int) -> Seq<char> {
    "arg-"@ + dec_digits(i as nat) + "-val"@
}

/// Two rows for each argument of `s`, in the order of `s`: its name, then its
/// value.
pub open spec fn dump_in_order(s: Seq<Pair>) -> Seq<Row> {
    Seq::new(
        2 * s.len(),
        |k: int|
            if k % 2 == 0 {
                expert_row(name_label(k / 2), s[k / 2].0)
            } else {
                expert_row(value_label(k / 2), s[k / 2].1)
            },
    )
}

/// The rows that show every argument of `a`, ascending by name.
pub open spec fn dump_rows(a: Seq<Pair>) -> Seq<Row> {
    dump_in_order(sorted_args(a))
}

/// Shows every argument, whatever its name: two rows each, ascending by
/// name, whatever the order in which the arguments were given.
pub fn parse_runtime_args(ra: &RuntimeArgs) -> (elements: Vec<Element>)
    ensures
        rows(elements@) == dump_rows(ra@),
        elements@.len() == 2 * ra@.len(),
{
    let named_args = ra.sorted();
    let ghost sorted = arg_views(named_args@);
    proof {
        crate::order::lemma_pair_order_total();
        ra@.lemma_sort_by_ensures(crate::order::pair_order());
        ra@.to_multiset_ensures();
        sorted.to_multiset_ensures();
    }
    let mut elements: Vec<Element> = Vec::new();
    let mut idx: usize = 0;
    while idx < named_args.len()
        invariant
            idx <= named_args@.len(),
            sorted == arg_views(named_args@),
            elements@.len() == 2 * idx,
            forall|k: int| 0 <= k < 2 * idx ==> (#[trigger] elements@[k])@ == dump_in_order(sorted)[k],
        decreases named_args@.len() - idx,
    {
        let number = u64_to_decimal(idx as u64);
        let name_label = String::from_str("arg-").concat(number.as_str()).concat("-name");
        let value_label = String::from_str("arg-").concat(number.as_str()).concat("-val");
        assert(sorted[idx as int] == named_args@[idx as int]@);
        elements.push(Element::expert(name_label.as_str(), named_args[idx].name.clone()));
        elements.push(Element::expert(value_label.as_str(), named_args[idx].value.clone()));
        idx = idx + 1;
    }
    assert(rows(elements@) =~= dump_rows(ra@));
    elements
}

/// The row of the argument named `key`, where `shown` gives the value's
/// on-screen form; no row where the argument is absent.
pub open spec fn optional_row(
    a: Seq<Pair>,
    key: Seq<char>,
    expert: bool,
    shown: spec_fn(Seq<char>) -> Seq<char>,
) -> Seq<Row> {
    match lookup(a, key) {
        Some(v) => seq![Row { label: key, value: shown(v), expert }],
        None => Seq::empty(),
    }
}

/// A value shown as it is.
pub open spec fn as_it_is() -> spec_fn(Seq<char>) -> Seq<char> {
    |v: Seq<char>| v
}

/// A decimal literal shown as an amount.
pub open spec fn as_amount() -> spec_fn(Seq<char>) -> Seq<char> {
    |v: Seq<char>| amount_text(dec_value(v))
}

/// Looks up `key`; where it is there, one row with the key as its label and
/// `f` of the value as its value. An absent key is no fault.
pub fn parse_optional_arg<F: Fn(String) -> String>(
    args: &RuntimeArgs,
    key: &str,
    expert: bool,
    f: F,
) -> (r: Option<Element>)
    requires
        forall|s: String| lookup(args@, key@) == Some(s@) ==> call_requires(f, (s,)),
    ensures
        r.is_some() == lookup(args@, key@).is_some(),
        r.is_some() ==> {
            &&& r.unwrap()@.label == key@
            &&& r.unwrap()@.expert == expert
            &&& exists|s: String|
                s@ == lookup(args@, key@).unwrap() && call_ensures(f, (s,), r.unwrap().value)
        },
{
    match args.get(key) {
        Some(cl_value) => {
            let shown: String = cl_value.clone();
            let ghost given = shown;
            let value = f(shown);
            let ghost made = value;
            let element = if expert {
                Element::expert(key, value)
            } else {
                Element::regular(key, value)
            };
            proof {
                assert(element.label@ == key@);
                assert(element.value@ == made@);
                assert(given@ == lookup(args@, key@).unwrap());
                assert(call_ensures(f, (given,), made));
            }
            Some(element)
        },
        None => None,
    }
}

pub fn identity<T>(el: T) -> (r: T)
    ensures
        r == el,
{
    el
}

/// The argument named `key`, shown as it is.
pub fn parse_plain_arg(args: &RuntimeArgs, key: &str, expert: bool) -> (r: Option<Element>)
    ensures
        optional_rows(r) == optional_row(args@, key@, expert, as_it_is()),
{
    let r = parse_optional_arg(args, key, expert, identity);
    assert(optional_rows(r) =~= optional_row(args@, key@, expert, as_it_is()));
    r
}

/// The amount, where there is one, is a decimal integer literal within the
/// limit: at least one digit, and digits only.
pub open spec fn amount_ok(a: Seq<Pair>) -> bool {
    match lookup(a, "amount"@) {
        Some(v) => is_amount_literal(v),
        None => true,
    }
}

/// Tests `amount_ok`, for a caller that has to refuse the transaction.
pub fn amount_is_valid(args: &RuntimeArgs) -> (b: bool)
    ensures
        b == amount_ok(args@),
{
    match args.get("amount") {
        Some(v) => Motes::from_dec_str(v.as_str()).is_some(),
        None => true,
    }
}

fn amount_row(args: &RuntimeArgs, expert: bool) -> (r: Option<Element>)
    requires
        amount_ok(args@),
    ensures
        optional_rows(r) == optional_row(args@, "amount"@, expert, as_amount()),
{
    let f = |amount_str: String| -> (out: String)
        requires
            is_amount_literal(amount_str@),
        ensures
            out@ == amount_text(dec_value(amount_str@)),
        {
            let motes_amount = Motes::from_dec_str(amount_str.as_str()).unwrap();
            format_amount(&motes_amount)
        };
    let r = parse_optional_arg(args, "amount", expert, f);
    assert(optional_rows(r) =~= optional_row(args@, "amount"@, expert, as_amount()));
    r
}

/// The amount as a row of the regular view.
pub fn parse_amount(args: &RuntimeArgs) -> (r: Option<Element>)
    requires
        amount_ok(args@),
    ensures
        optional_rows(r) == optional_row(args@, "amount"@, false, as_amount()),
{
    amount_row(args, false)
}

/// The amount of a system payment, as a row of the expert view.
pub fn parse_fee(args: &RuntimeArgs) -> (r: Option<Element>)
    requires
        amount_ok(args@),
    ensures
        optional_rows(r) == optional_row(args@, "amount"@, true, as_amount()),
{
    amount_row(args, true)
}

/// The rows that a transfer's own arguments give, in their fixed order.
pub open spec fn transfer_rows(a: Seq<Pair>) -> Seq<Row> {
    optional_row(a, "to"@, false, as_it_is()) + optional_row(a, "source"@, true, as_it_is())
        + optional_row(a, "target"@, false, as_it_is()) + optional_row(
        a,
        "amount"@,
        false,
        as_amount(),
    ) + optional_row(a, "id"@, true, as_it_is())
}

/// The rows of a transfer: recipient, source, target, amount and identifier,
/// each where it is given.
pub fn parse_transfer_args(args: &RuntimeArgs) -> (elements: Vec<Element>)
    requires
        amount_ok(args@),
    ensures
        rows(elements@) == transfer_rows(args@),
{
    let mut elements: Vec<Element> = Vec::new();
    assert(rows(elements@) =~= Seq::<Row>::empty());
    push_optional(&mut elements, parse_plain_arg(args, "to", false));
    push_optional(&mut elements, parse_plain_arg(args, "source", true));
    push_optional(&mut elements, parse_plain_arg(args, "target", false));
    push_optional(&mut elements, parse_amount(args));
    push_optional(&mut elements, parse_plain_arg(args, "id", true));
    assert(rows(elements@) =~= transfer_rows(args@));
    elements
}

/// The arguments without the five that a transfer shows in rows of its own.
pub open spec fn without_transfer_keys(a: Seq<Pair>) -> Seq<Pair> {
    without(without(without(without(without(a, "to"@), "source"@), "target"@), "amount"@), "id"@)
}

/// A copy of the arguments without the amount.
pub fn remove_amount_arg(args: &RuntimeArgs) -> (r: RuntimeArgs)
    ensures
        r@ == without(args@, "amount"@),
        args.wf() ==> r.wf(),
{
    args.without_key("amount")
}

/// A copy of the arguments without those that a transfer shows itself.
pub fn remove_transfer_args(args: &RuntimeArgs) -> (r: RuntimeArgs)
    ensures
        r@ == without_transfer_keys(args@),
        args.wf() ==> r.wf(),
{
    args.without_key("to").without_key("source").without_key("target").without_key(
        "amount",
    ).without_key("id")
}

/// The text of a version: its number, or `latest` where none is given.
pub open spec fn version_text(version: Option<u32>) -> Seq<char> {
    match version {
        None => "latest"@,
        Some(n) => dec_digits(n as nat),
    }
}

pub fn parse_version(version: &Option<u32>) -> (e: Element)
    ensures
        e@ == expert_row("version"@, version_text(*version)),
{
    let version = match version {
        None => String::from_str("latest"),
        Some(version) => u64_to_decimal(*version as u64),
    };
    Element::expert("version", version)
}

pub fn entrypoint(entry_point: &str) -> (e: Element)
    ensures
        e@ == expert_row("entry-point"@, entry_point@),
{
    Element::expert("entry-point", String::from_str(entry_point))
}

/// Which of a transaction's two execution items is at hand.
#[derive(Debug, Clone, Copy, PartialEq, Eq)]
pub enum TxnPhase {
    Payment,
    Session,
}

/// The tag under which a phase's kind is shown.
pub open spec fn phase_label(phase: TxnPhase) -> Seq<char> {
    match phase {
        TxnPhase::Payment => "Payment"@,
        TxnPhase::Session => "Session"@,
    }
}

impl TxnPhase {
    pub fn is_payment(&self) -> (b: bool)
        ensures
            b == (*self is Payment),
    {
        match self {
            TxnPhase::Payment => true,
            TxnPhase::Session => false,
        }
    }

    pub fn label(&self) -> (r: String)
        ensures
            r@ == phase_label(*self),
    {
        match self {
            TxnPhase::Payment => String::from_str("Payment"),
            TxnPhase::Session => String::from_str("Session"),
        }
    }
}

/// What a transaction of the older format runs. Addresses are held in their
/// rendered form.
pub enum ExecutableDeployItem {
    ModuleBytes { module_bytes: Vec<u8>, args: RuntimeArgs },
    StoredContractByHash { hash: String, entry_point: String, args: RuntimeArgs },
    StoredContractByName { name: String, entry_point: String, args: RuntimeArgs },
    StoredVersionedContractByHash {
        hash: String,
        version: Option<u32>,
        entry_point: String,
        args: RuntimeArgs,
    },
    StoredVersionedContractByName {
        name: String,
        version: Option<u32>,
        entry_point: String,
        args: RuntimeArgs,
    },
    Transfer { args: RuntimeArgs },
}

/// The arguments of an item.
pub open spec fn item_args(item: ExecutableDeployItem) -> Seq<Pair> {
    match item {
        ExecutableDeployItem::ModuleBytes { args, .. } => args@,
        ExecutableDeployItem::StoredContractByHash { args, .. } => args@,
        ExecutableDeployItem::StoredContractByName { args, .. } => args@,
        ExecutableDeployItem::StoredVersionedContractByHash { args, .. } => args@,
        ExecutableDeployItem::StoredVersionedContractByName { args, .. } => args@,
        ExecutableDeployItem::Transfer { args } => args@,
    }
}

/// The entry point of a call of a stored contract; none for the other items.
pub open spec fn entry_point_of(item: ExecutableDeployItem) -> Option<Seq<char>> {
    match item {
        ExecutableDeployItem::ModuleBytes { .. } => None,
        ExecutableDeployItem::StoredContractByHash { entry_point, .. } => Some(entry_point@),
        ExecutableDeployItem::StoredContractByName { entry_point, .. } => Some(entry_point@),
        ExecutableDeployItem::StoredVersionedContractByHash { entry_point, .. } => Some(
            entry_point@,
        ),
        ExecutableDeployItem::StoredVersionedContractByName { entry_point, .. } => Some(
            entry_point@,
        ),
        ExecutableDeployItem::Transfer { .. } => None,
    }
}

/// A payment with no code of its own: the network's standard payment.
pub open spec fn system_payment(phase: TxnPhase, module_bytes: Seq<u8>) -> bool {
    phase is Payment && module_bytes.len() == 0
}

pub fn is_system_payment(phase: TxnPhase, module_bytes: &Vec<u8>) -> (b: bool)
    ensures
        b == system_payment(phase, module_bytes@),
{
    phase.is_payment() && module_bytes.len() == 0
}

/// The rows that say what kind of item runs and which code it names.
/// Arguments and entry points are not among them.
pub open spec fn deploy_type_rows(phase: TxnPhase, item: ExecutableDeployItem) -> Seq<Row> {
    let tag = phase_label(phase);
    match item {
        ExecutableDeployItem::ModuleBytes { module_bytes, .. } => {
            if system_payment(phase, module_bytes@) {
                seq![regular_row(tag, "system"@)]
            } else if module_bytes@.len() == 0 {
                seq![regular_row(tag, "contract"@)]
            } else {
                seq![
                    regular_row(tag, "contract"@),
                    regular_row("Cntrct hash"@, digest_text(module_bytes@)),
                ]
            }
        },
        ExecutableDeployItem::StoredContractByHash { hash, .. } => seq![
            regular_row(tag, "by-hash"@),
            regular_row("address"@, hash@),
        ],
        ExecutableDeployItem::StoredContractByName { name, .. } => seq![
            regular_row(tag, "by-name"@),
            regular_row("name"@, name@),
        ],
        ExecutableDeployItem::StoredVersionedContractByHash { hash, version, .. } => seq![
            regular_row(tag, "by-hash-versioned"@),
            regular_row("address"@, hash@),
            expert_row("version"@, version_text(version)),
        ],
        ExecutableDeployItem::StoredVersionedContractByName { name, version, .. } => seq![
            regular_row(tag, "by-name-versioned"@),
            regular_row("name"@, name@),
            expert_row("version"@, version_text(version)),
        ],
        ExecutableDeployItem::Transfer { .. } => seq![regular_row(tag, "native transfer"@)],
    }
}

/// Says what kind of item runs: the phase with the kind, then the code's
/// digest, address or name, and the version where the item has one. Code
/// without bytes has no digest row.
pub fn deploy_type(phase: TxnPhase, item: &ExecutableDeployItem) -> (elements: Vec<Element>)
    ensures
        rows(elements@) == deploy_type_rows(phase, *item),
{
    let phase_label = phase.label();
    let mut elements: Vec<Element> = Vec::new();
    assert(rows(elements@) =~= Seq::<Row>::empty());
    match item {
        ExecutableDeployItem::ModuleBytes { module_bytes, .. } => {
            if is_system_payment(phase, module_bytes) {
                push_row(&mut elements, Element::regular(phase_label.as_str(), String::from_str("system")));
            } else if module_bytes.len() == 0 {
                push_row(&mut elements, Element::regular(phase_label.as_str(), String::from_str("contract")));
            } else {
                let contract_hash = code_digest(module_bytes);
                push_row(&mut elements, Element::regular(phase_label.as_str(), String::from_str("contract")));
                push_row(&mut elements, Element::regular("Cntrct hash", contract_hash));
            }
        },
        ExecutableDeployItem::StoredContractByHash { hash, .. } => {
            push_row(&mut elements, Element::regular(phase_label.as_str(), String::from_str("by-hash")));
            push_row(&mut elements, Element::regular("address", hash.clone()));
        },
        ExecutableDeployItem::StoredContractByName { name, .. } => {
            push_row(&mut elements, Element::regular(phase_label.as_str(), String::from_str("by-name")));
            push_row(&mut elements, Element::regular("name", name.clone()));
        },
        ExecutableDeployItem::StoredVersionedContractByHash { hash, version, .. } => {
            push_row(
                &mut elements,
                Element::regular(phase_label.as_str(), String::from_str("by-hash-versioned")),
            );
            push_row(&mut elements, Element::regular("address", hash.clone()));
            push_row(&mut elements, parse_version(version));
        },
        ExecutableDeployItem::StoredVersionedContractByName { name, version, .. } => {
            push_row(
                &mut elements,
                Element::regular(phase_label.as_str(), String::from_str("by-name-versioned")),
            );
            push_row(&mut elements, Element::regular("name", name.clone()));
            push_row(&mut elements, parse_version(version));
        },
        ExecutableDeployItem::Transfer { .. } => {
            push_row(
                &mut elements,
                Element::regular(phase_label.as_str(), String::from_str("native transfer")),
            );
        },
    }
    assert(rows(elements@) =~= deploy_type_rows(phase, *item));
    elements
}

/// Whether the item calls a stored contract at the entry point `expected`.
/// Only the name is compared, whichever contract is called.
pub fn is_entrypoint(item: &ExecutableDeployItem, expected: &str) -> (b: bool)
    ensures
        b == (entry_point_of(*item) == Some(expected@)),
{
    let wanted = String::from_str(expected);
    match item {
        ExecutableDeployItem::ModuleBytes { .. } => false,
        ExecutableDeployItem::Transfer { .. } => false,
        ExecutableDeployItem::StoredContractByHash { entry_point, .. } => *entry_point == wanted,
        ExecutableDeployItem::StoredContractByName { entry_point, .. } => *entry_point == wanted,
        ExecutableDeployItem::StoredVersionedContractByHash { entry_point, .. } => *entry_point
            == wanted,
        ExecutableDeployItem::StoredVersionedContractByName { entry_point, .. } => *entry_point
            == wanted,
    }
}

/// Whether the entry point is literally `delegate`.
pub fn is_delegate(item: &ExecutableDeployItem) -> (b: bool)
    ensures
        b == (entry_point_of(*item) == Some("delegate"@)),
{
    is_entrypoint(item, "delegate")
}

/// Whether the entry point is literally `undelegate`.
pub fn is_undelegate(item: &ExecutableDeployItem) -> (b: bool)
    ensures
        b == (entry_point_of(*item) == Some("undelegate"@)),
{
    is_entrypoint(item, "undelegate")
}

/// The item calls a stored contract.
pub open spec fn is_stored_call(item: ExecutableDeployItem) -> bool {
    entry_point_of(item).is_some()
}

/// The rows of a staking operation: what it is, the item's kind moved to the
/// expert view, then delegator, validator and amount.
pub open spec fn auction_rows(kind: Seq<char>, item: ExecutableDeployItem) -> Seq<Row> {
    seq![regular_row("Auction"@, kind)] + all_demoted(deploy_type_rows(TxnPhase::Session, item))
        + optional_row(item_args(item), "delegator"@, false, as_it_is()) + optional_row(
        item_args(item),
        "validator"@,
        false,
        as_it_is(),
    ) + optional_row(item_args(item), "amount"@, false, as_amount())
}

/// The arguments of an item, whatever its kind.
fn args_of_item(item: &ExecutableDeployItem) -> (args: &RuntimeArgs)
    ensures
        args@ == item_args(*item),
{
    match item {
        ExecutableDeployItem::ModuleBytes { args, .. } => args,
        ExecutableDeployItem::StoredContractByHash { args, .. } => args,
        ExecutableDeployItem::StoredContractByName { args, .. } => args,
        ExecutableDeployItem::StoredVersionedContractByHash { args, .. } => args,
        ExecutableDeployItem::StoredVersionedContractByName { args, .. } => args,
        ExecutableDeployItem::Transfer { args } => args,
    }
}

fn parse_auction(kind: &str, item: &ExecutableDeployItem) -> (elements: Vec<Element>)
    requires
        is_stored_call(*item),
        amount_ok(item_args(*item)),
    ensures
        rows(elements@) == auction_rows(kind@, *item),
{
    let mut elements: Vec<Element> = Vec::new();
    assert(rows(elements@) =~= Seq::<Row>::empty());
    push_row(&mut elements, Element::regular("Auction", String::from_str(kind)));
    let kind_rows = deploy_type(TxnPhase::Session, item);
    extend_rows(&mut elements, demote_all(&kind_rows));
    let args = args_of_item(item);
    push_optional(&mut elements, parse_plain_arg(args, "delegator", false));
    push_optional(&mut elements, parse_plain_arg(args, "validator", false));
    push_optional(&mut elements, parse_amount(args));
    assert(rows(elements@) =~= auction_rows(kind@, *item));
    elements
}

/// The rows of a delegation. Only a call of a stored contract can be one.
pub fn parse_delegation(item: &ExecutableDeployItem) -> (elements: Vec<Element>)
    requires
        is_stored_call(*item),
        amount_ok(item_args(*item)),
    ensures
        rows(elements@) == auction_rows("delegate"@, *item),
{
    parse_auction("delegate", item)
}

/// The rows of an undelegation. Only a call of a stored contract can be one.
pub fn parse_undelegation(item: &ExecutableDeployItem) -> (elements: Vec<Element>)
    requires
        is_stored_call(*item),
        amount_ok(item_args(*item)),
    ensures
        rows(elements@) == auction_rows("undelegate"@, *item),
{
    parse_auction("undelegate", item)
}

/// The item is shown as a staking operation.
pub open spec fn is_auction(item: ExecutableDeployItem) -> bool {
    entry_point_of(item) == Some("delegate"@) || entry_point_of(item) == Some("undelegate"@)
}

/// The rows of `item` show its amount as an amount.
pub open spec fn shows_amount(item: ExecutableDeployItem, phase: TxnPhase) -> bool {
    is_auction(item) || match item {
        ExecutableDeployItem::ModuleBytes { module_bytes, .. } => system_payment(
            phase,
            module_bytes@,
        ),
        ExecutableDeployItem::Transfer { .. } => true,
        _ => false,
    }
}

/// The rows that follow an item's kind where it is no staking operation.
pub open spec fn detail_rows(item: ExecutableDeployItem, phase: TxnPhase) -> Seq<Row> {
    match item {
        ExecutableDeployItem::ModuleBytes { module_bytes, args } => {
            if system_payment(phase, module_bytes@) {
                optional_row(args@, "amount"@, false, as_amount()) + dump_rows(
                    without(args@, "amount"@),
                )
            } else {
                dump_rows(args@)
            }
        },
        ExecutableDeployItem::Transfer { args } => transfer_rows(args@) + dump_rows(
            without_transfer_keys(args@),
        ),
        _ => seq![expert_row("entry-point"@, entry_point_of(item).unwrap())] + dump_rows(
            item_args(item),
        ),
    }
}

/// All rows of one execution item.
pub open spec fn phase_rows(item: ExecutableDeployItem, phase: TxnPhase) -> Seq<Row> {
    if entry_point_of(item) == Some("delegate"@) {
        auction_rows("delegate"@, item)
    } else if entry_point_of(item) == Some("undelegate"@) {
        auction_rows("undelegate"@, item)
    } else {
        deploy_type_rows(phase, item) + detail_rows(item, phase)
    }
}

fn stored_detail(elements: &mut Vec<Element>, entry_point: &String, args: &RuntimeArgs)
    ensures
        rows(final(elements)@) == rows(old(elements)@) + (seq![
            expert_row("entry-point"@, entry_point@),
        ] + dump_rows(args@)),
{
    push_row(elements, entrypoint(entry_point.as_str()));
    extend_rows(elements, parse_runtime_args(args));
    assert(rows(elements@) =~= rows(old(elements)@) + (seq![
        expert_row("entry-point"@, entry_point@),
    ] + dump_rows(args@)));
}

/// The rows of one execution item. A call at the entry point `delegate` or
/// `undelegate` is shown as a staking operation, whichever contract it
/// calls. Any other item shows its kind, then what its variant carries, then
/// every argument that no row of its own has shown.
pub fn parse_phase(item: &ExecutableDeployItem, phase: TxnPhase) -> (elements: Vec<Element>)
    requires
        shows_amount(*item, phase) ==> amount_ok(item_args(*item)),
    ensures
        rows(elements@) == phase_rows(*item, phase),
{
    if is_delegate(item) {
        parse_delegation(item)
    } else if is_undelegate(item) {
        parse_undelegation(item)
    } else {
        let mut elements: Vec<Element> = deploy_type(phase, item);
        match item {
            ExecutableDeployItem::ModuleBytes { module_bytes, args } => {
                if is_system_payment(phase, module_bytes) {
                    push_optional(&mut elements, parse_amount(args));
                    let args_sans_amount = remove_amount_arg(args);
                    extend_rows(&mut elements, parse_runtime_args(&args_sans_amount));
                } else {
                    extend_rows(&mut elements, parse_runtime_args(args));
                }
            },
            ExecutableDeployItem::StoredContractByHash { entry_point, args, .. } => {
                stored_detail(&mut elements, entry_point, args);
            },
            ExecutableDeployItem::StoredContractByName { entry_point, args, .. } => {
                stored_detail(&mut elements, entry_point, args);
            },
            ExecutableDeployItem::StoredVersionedContractByHash { entry_point, args, .. } => {
                stored_detail(&mut elements, entry_point, args);
            },
            ExecutableDeployItem::StoredVersionedContractByName { entry_point, args, .. } => {
                stored_detail(&mut elements, entry_point, args);
            },
            ExecutableDeployItem::Transfer { args } => {
                extend_rows(&mut elements, parse_transfer_args(args));
                let args_sans_transfer = remove_transfer_args(args);
                extend_rows(&mut elements, parse_runtime_args(&args_sans_transfer));
            },
        }
        assert(rows(elements@) =~= phase_rows(*item, phase));
        elements
    }
}

/// `parse_phase` can show the item: the amount, where a row shows it as an
/// amount, is a decimal literal within the limit.
pub open spec fn phase_is_shown(item: ExecutableDeployItem, phase: TxnPhase) -> bool {
    shows_amount(item, phase) ==> amount_ok(item_args(item))
}

/// The rows of one execution item, or nothing at all where its amount is no
/// number: such a transaction is not to be signed.
pub fn try_parse_phase(item: &ExecutableDeployItem, phase: TxnPhase) -> (r: Option<Vec<Element>>)
    ensures
        r.is_some() == phase_is_shown(*item, phase),
        r matches Some(elements) ==> rows(elements@) == phase_rows(*item, phase),
{
    let amount_is_read = is_delegate(item) || is_undelegate(item) || match item {
        ExecutableDeployItem::ModuleBytes { module_bytes, .. } => is_system_payment(
            phase,
            module_bytes,
        ),
        ExecutableDeployItem::Transfer { .. } => true,
        _ => false,
    };
    if amount_is_read && !amount_is_valid(args_of_item(item)) {
        None
    } else {
        Some(parse_phase(item, phase))
    }
}

/// The row that counts the signatures attached to the transaction.
pub fn parse_approvals(approvals_count: usize) -> (elements: Vec<Element>)
    ensures
        rows(elements@) == seq![regular_row("Approvals #"@, dec_digits(approvals_count as nat))],
{
    let mut elements: Vec<Element> = Vec::new();
    assert(rows(elements@) =~= Seq::<Row>::empty());
    push_row(
        &mut elements,
        Element::regular("Approvals #", u64_to_decimal(approvals_count as u64)),
    );
    assert(rows(elements@) =~= seq![
        regular_row("Approvals #"@, dec_digits(approvals_count as nat)),
    ]);
    elements
}

/// The header of a transaction of the older format. The account, the
/// timestamp and the time to live are held in their rendered form.
pub struct DeployHeader {
    pub chain_name: String,
    pub account: String,
    pub timestamp: String,
    pub ttl: String,
    pub gas_price: u64,
    pub dependencies: usize,
}

/// The six rows of a header, in their fixed order.
pub open spec fn deploy_header_rows(dh: DeployHeader) -> Seq<Row> {
    seq![
        regular_row("chain ID"@, dh.chain_name@),
        regular_row("from"@, dh.account@),
        expert_row("timestamp"@, dh.timestamp@),
        expert_row("ttl"@, dh.ttl@),
        expert_row("gas price"@, dec_digits(dh.gas_price as nat)),
        expert_row("Deps #"@, dec_digits(dh.dependencies as nat)),
    ]
}

pub fn parse_deploy_header(dh: &DeployHeader) -> (elements: Vec<Element>)
    ensures
        rows(elements@) == deploy_header_rows(*dh),
{
    let mut elements: Vec<Element> = Vec::new();
    assert(rows(elements@) =~= Seq::<Row>::empty());
    push_row(&mut elements, Element::regular("chain ID", dh.chain_name.clone()));
    push_row(&mut elements, Element::regular("from", dh.account.clone()));
    push_row(&mut elements, Element::expert("timestamp", dh.timestamp.clone()));
    push_row(&mut elements, Element::expert("ttl", dh.ttl.clone()));
    push_row(&mut elements, Element::expert("gas price", u64_to_decimal(dh.gas_price)));
    push_row(&mut elements, Element::expert("Deps #", u64_to_decimal(dh.dependencies as u64)));
    assert(rows(elements@) =~= deploy_header_rows(*dh));
    elements
}

} // verus!
