//! Rows of a transaction in the newer, self-describing format.

use vstd::prelude::*;
use vstd::string::*;
use crate::args::{without, Pair, RuntimeArgs};
use crate::element::{expert_row, optional_rows, regular_row, rows, Element, Row};
use crate::element::{extend_rows, push_optional, push_row};
use crate::parser::{amount_is_valid, amount_ok, as_amount, dump_rows, optional_row, transfer_rows, version_text};
use crate::parser::{entrypoint, parse_amount, parse_fee, parse_runtime_args, parse_transfer_args};
use crate::parser::{parse_version, remove_amount_arg, remove_transfer_args, without_transfer_keys};
use crate::text::{code_digest, dec_digits, digest_text, u64_to_decimal};

verus! {

/// The slot of the field map that holds the arguments.
pub const ARGS_MAP_KEY: u16 = 0;

/// The slot of the field map that holds the target.
pub const TARGET_MAP_KEY: u16 = 1;

/// The slot of the field map that holds the entry point.
pub const ENTRY_POINT_MAP_KEY: u16 = 2;

/// The slot of the field map that holds the scheduling.
pub const SCHEDULING_MAP_KEY: u16 = 3;

/// Which stored contract a transaction calls.
pub enum TransactionInvocationTarget {
    ByHash(Vec<u8>),
    ByName(String),
    ByPackageHash { addr: Vec<u8>, version: Option<u32> },
    ByPackageName { name: String, version: Option<u32> },
}

/// What a transaction runs.
pub enum TransactionTarget {
    Native,
    Stored { id: TransactionInvocationTarget },
    Session { module_bytes: Vec<u8> },
}

/// The operation that a transaction invokes. `Other` holds the rendered name
/// of any entry point that has no row layout of its own.
pub enum TransactionEntryPoint {
    Transfer,
    Delegate,
    Undelegate,
    Redelegate,
    Other(String),
}

/// When a transaction is to run. Nothing here reads it.
#[derive(Debug, Clone, Copy, PartialEq, Eq)]
pub enum TransactionScheduling {
    Standard,
}

/// What the field map of a transaction decodes to.
pub struct TransactionV1Meta {
    pub args: RuntimeArgs,
    pub target: TransactionTarget,
    pub entry_point: TransactionEntryPoint,
    pub scheduling: TransactionScheduling,
}

impl TransactionV1Meta {
    pub fn new(
        args: RuntimeArgs,
        target: TransactionTarget,
        entry_point: TransactionEntryPoint,
        scheduling: TransactionScheduling,
    ) -> (meta: Self)
        ensures
            meta.args == args,
            meta.target == target,
            meta.entry_point == entry_point,
            meta.scheduling == scheduling,
    {
        Self { args, target, entry_point, scheduling }
    }
}

/// Who started the transaction, in rendered form.
pub enum InitiatorAddr {
    PublicKey(String),
    AccountHash(String),
}

/// How the transaction pays.
pub enum PricingMode {
    PaymentLimited { payment_amount: u64 },
    Fixed,
    Prepaid,
}

/// The header of a transaction of the newer format. The timestamp and the
/// time to live are held in their rendered form.
pub struct TransactionV1Payload {
    pub chain_name: String,
    pub initiator_addr: InitiatorAddr,
    pub timestamp: String,
    pub ttl: String,
    pub pricing_mode: PricingMode,
}

/// The account that started the transaction.
pub open spec fn initiator_text(addr: InitiatorAddr) -> Seq<char> {
    match addr {
        InitiatorAddr::PublicKey(public_key) => public_key@,
        InitiatorAddr::AccountHash(account_hash) => account_hash@,
    }
}

/// What the payment row shows: the limit where the payment is limited,
/// `Fixed` for a fixed price, `0` for a prepaid one.
pub open spec fn price_text(mode: PricingMode) -> Seq<char> {
    match mode {
        PricingMode::PaymentLimited { payment_amount } => dec_digits(payment_amount as nat),
        PricingMode::Fixed => "Fixed"@,
        PricingMode::Prepaid => "0"@,
    }
}

/// The five rows of a header, in their fixed order.
pub open spec fn payload_rows(payload: TransactionV1Payload) -> Seq<Row> {
    seq![
        regular_row("chain ID"@, payload.chain_name@),
        regular_row("account"@, initiator_text(payload.initiator_addr)),
        expert_row("timestamp"@, payload.timestamp@),
        expert_row("ttl"@, payload.ttl@),
        expert_row("payment"@, price_text(payload.pricing_mode)),
    ]
}

pub fn parse_v1_payload(payload: &TransactionV1Payload) -> (elements: Vec<Element>)
    ensures
        rows(elements@) == payload_rows(*payload),
{
    let mut elements: Vec<Element> = Vec::new();
    assert(rows(elements@) =~= Seq::<Row>::empty());
    push_row(&mut elements, Element::regular("chain ID", payload.chain_name.clone()));
    let initiator = match &payload.initiator_addr {
        InitiatorAddr::PublicKey(public_key) => public_key.clone(),
        InitiatorAddr::AccountHash(account_hash) => account_hash.clone(),
    };
    let gas_price = match &payload.pricing_mode {
        PricingMode::PaymentLimited { payment_amount } => u64_to_decimal(*payment_amount),
        PricingMode::Fixed => String::from_str("Fixed"),
        PricingMode::Prepaid => String::from_str("0"),
    };
    push_row(&mut elements, Element::regular("account", initiator));
    push_row(&mut elements, Element::expert("timestamp", payload.timestamp.clone()));
    push_row(&mut elements, Element::expert("ttl", payload.ttl.clone()));
    push_row(&mut elements, Element::expert("payment", gas_price));
    assert(rows(elements@) =~= payload_rows(*payload));
    elements
}

/// The bytes of an address, each as its decimal number, one after the other.
pub open spec fn address_text(addr: Seq<u8>) -> Seq<char>
    decreases addr.len(),
{
    if addr.len() == 0 {
        Seq::empty()
    } else {
        address_text(addr.drop_last()) + dec_digits(addr.last() as nat)
    }
}

/// Renders an address byte by byte.
pub fn format_address(addr: &Vec<u8>) -> (r: String)
    ensures
        r@ == address_text(addr@),
{
    let mut out = String::new();
    let mut i: usize = 0;
    assert(addr@.take(0) =~= Seq::<u8>::empty());
    while i < addr.len()
        invariant
            i <= addr@.len(),
            out@ == address_text(addr@.take(i as int)),
        decreases addr@.len() - i,
    {
        let digits = u64_to_decimal(addr[i] as u64);
        out.append(digits.as_str());
        proof {
            assert(addr@.take(i + 1).drop_last() =~= addr@.take(i as int));
            assert(addr@.take(i + 1).last() == addr@[i as int]);
        }
        i = i + 1;
    }
    assert(addr@.take(i as int) =~= addr@);
    out
}

/// Embedded code that is empty: the network's standard payment.
pub fn is_system_payment(module_bytes: &Vec<u8>) -> (b: bool)
    ensures
        b == (module_bytes@.len() == 0),
{
    module_bytes.len() == 0
}

/// The rows that say which code a transaction names. A native operation and
/// a session without code give none.
pub open spec fn v1_type_rows(target: TransactionTarget) -> Seq<Row> {
    match target {
        TransactionTarget::Native => Seq::empty(),
        TransactionTarget::Stored { id } => match id {
            TransactionInvocationTarget::ByHash(hash) => seq![
                regular_row("execution"@, "by-hash"@),
                regular_row("address"@, address_text(hash@)),
            ],
            TransactionInvocationTarget::ByName(name) => seq![
                regular_row("execution"@, "by-name"@),
                regular_row("name"@, name@),
            ],
            TransactionInvocationTarget::ByPackageHash { addr, version } => seq![
                regular_row("execution"@, "by-hash-versioned"@),
                regular_row("address"@, address_text(addr@)),
                expert_row("version"@, version_text(version)),
            ],
            TransactionInvocationTarget::ByPackageName { name, version } => seq![
                regular_row("execution"@, "by-name-versioned"@),
                regular_row("name"@, name@),
                expert_row("version"@, version_text(version)),
            ],
        },
        TransactionTarget::Session { module_bytes } => {
            if module_bytes@.len() == 0 {
                Seq::empty()
            } else {
                seq![
                    regular_row("execution"@, "contract"@),
                    regular_row("Cntrct hash"@, digest_text(module_bytes@)),
                ]
            }
        },
    }
}

/// Says which code the transaction names: its address or name, with the
/// version where there is one, or the digest of the code it brings.
pub fn v1_type(item: &TransactionV1Meta) -> (elements: Vec<Element>)
    ensures
        rows(elements@) == v1_type_rows(item.target),
{
    let mut elements: Vec<Element> = Vec::new();
    assert(rows(elements@) =~= Seq::<Row>::empty());
    match &item.target {
        TransactionTarget::Native => {},
        TransactionTarget::Stored { id } => {
            match id {
                TransactionInvocationTarget::ByHash(hash) => {
                    push_row(&mut elements, Element::regular("execution", String::from_str("by-hash")));
                    push_row(&mut elements, Element::regular("address", format_address(hash)));
                },
                TransactionInvocationTarget::ByName(name) => {
                    push_row(&mut elements, Element::regular("execution", String::from_str("by-name")));
                    push_row(&mut elements, Element::regular("name", name.clone()));
                },
                TransactionInvocationTarget::ByPackageHash { addr, version } => {
                    push_row(
                        &mut elements,
                        Element::regular("execution", String::from_str("by-hash-versioned")),
                    );
                    push_row(&mut elements, Element::regular("address", format_address(addr)));
                    push_row(&mut elements, parse_version(version));
                },
                TransactionInvocationTarget::ByPackageName { name, version } => {
                    push_row(
                        &mut elements,
                        Element::regular("execution", String::from_str("by-name-versioned")),
                    );
                    push_row(&mut elements, Element::regular("name", name.clone()));
                    push_row(&mut elements, parse_version(version));
                },
            }
        },
        TransactionTarget::Session { module_bytes } => {
            if !is_system_payment(module_bytes) {
                let contract_hash = code_digest(module_bytes);
                push_row(&mut elements, Element::regular("execution", String::from_str("contract")));
                push_row(&mut elements, Element::regular("Cntrct hash", contract_hash));
            }
        },
    }
    assert(rows(elements@) =~= v1_type_rows(item.target));
    elements
}

/// The name under which an entry point is shown.
pub open spec fn entry_point_text(entry_point: TransactionEntryPoint) -> Seq<char> {
    match entry_point {
        TransactionEntryPoint::Transfer => "transfer"@,
        TransactionEntryPoint::Delegate => "delegate"@,
        TransactionEntryPoint::Undelegate => "undelegate"@,
        TransactionEntryPoint::Redelegate => "redelegate"@,
        TransactionEntryPoint::Other(name) => name@,
    }
}

impl TransactionEntryPoint {
    /// The name under which the entry point is shown.
    pub fn name(&self) -> (r: String)
        ensures
            r@ == entry_point_text(*self),
    {
        match self {
            TransactionEntryPoint::Transfer => String::from_str("transfer"),
            TransactionEntryPoint::Delegate => String::from_str("delegate"),
            TransactionEntryPoint::Undelegate => String::from_str("undelegate"),
            TransactionEntryPoint::Redelegate => String::from_str("redelegate"),
            TransactionEntryPoint::Other(name) => name.clone(),
        }
    }
}

/// The dump of `a`, left out where `a` is empty.
pub open spec fn dump_if_any(a: Seq<Pair>) -> Seq<Row> {
    if a.len() == 0 {
        Seq::empty()
    } else {
        dump_rows(a)
    }
}

/// The rows that follow the kind of a transaction that is no staking
/// operation.
pub open spec fn v1_detail_rows(meta: TransactionV1Meta) -> Seq<Row> {
    let a = meta.args@;
    match meta.target {
        TransactionTarget::Native => transfer_rows(a) + dump_if_any(without_transfer_keys(a)),
        TransactionTarget::Stored { .. } => seq![
            expert_row("entry-point"@, entry_point_text(meta.entry_point)),
        ] + optional_row(a, "amount"@, false, as_amount()) + dump_rows(a),
        TransactionTarget::Session { module_bytes } => {
            if module_bytes@.len() == 0 {
                optional_row(a, "amount"@, true, as_amount()) + dump_if_any(without(a, "amount"@))
            } else {
                optional_row(a, "amount"@, false, as_amount()) + dump_rows(a)
            }
        },
    }
}

/// What the rows of a transaction's body are: those of a staking operation,
/// which its own formatter lays out, or the rows given.
pub enum MetaRows {
    Delegation,
    Undelegation,
    Redelegation,
    Rows(Vec<Element>),
}

/// The transaction is a staking operation.
pub open spec fn is_staking(entry_point: TransactionEntryPoint) -> bool {
    entry_point is Delegate || entry_point is Undelegate || entry_point is Redelegate
}

/// A native target runs a transfer or a staking operation, nothing else.
pub open spec fn native_is_supported(meta: TransactionV1Meta) -> bool {
    meta.target is Native ==> !(meta.entry_point is Other)
}

/// The rows of a transaction's body. A staking operation is handed on by its
/// kind. Any other transaction shows which code it names, then what its
/// target carries, then every argument that no row of its own has shown.
pub fn parse_v1_meta(meta: &TransactionV1Meta) -> (r: MetaRows)
    requires
        native_is_supported(*meta),
        !is_staking(meta.entry_point) ==> amount_ok(meta.args@),
    ensures
        meta.entry_point is Delegate <==> r is Delegation,
        meta.entry_point is Undelegate <==> r is Undelegation,
        meta.entry_point is Redelegate <==> r is Redelegation,
        r matches MetaRows::Rows(elements) ==> rows(elements@) == v1_type_rows(meta.target)
            + v1_detail_rows(*meta),
{
    match &meta.entry_point {
        TransactionEntryPoint::Delegate => MetaRows::Delegation,
        TransactionEntryPoint::Undelegate => MetaRows::Undelegation,
        TransactionEntryPoint::Redelegate => MetaRows::Redelegation,
        _ => {
            let mut elements: Vec<Element> = v1_type(meta);
            let args = &meta.args;
            match &meta.target {
                TransactionTarget::Native => {
                    extend_rows(&mut elements, parse_transfer_args(args));
                    let args_sans_transfer = remove_transfer_args(args);
                    if !args_sans_transfer.is_empty() {
                        extend_rows(&mut elements, parse_runtime_args(&args_sans_transfer));
                    }
                },
                TransactionTarget::Stored { .. } => {
                    let name = meta.entry_point.name();
                    push_row(&mut elements, entrypoint(name.as_str()));
                    push_optional(&mut elements, parse_amount(args));
                    extend_rows(&mut elements, parse_runtime_args(args));
                },
                TransactionTarget::Session { module_bytes } => {
                    if is_system_payment(module_bytes) {
                        push_optional(&mut elements, parse_fee(args));
                        let args_sans_amount = remove_amount_arg(args);
                        if !args_sans_amount.is_empty() {
                            extend_rows(&mut elements, parse_runtime_args(&args_sans_amount));
                        }
                    } else {
                        push_optional(&mut elements, parse_amount(args));
                        extend_rows(&mut elements, parse_runtime_args(args));
                    }
                },
            }
            assert(rows(elements@) =~= v1_type_rows(meta.target) + v1_detail_rows(*meta));
            MetaRows::Rows(elements)
        },
    }
}

/// `parse_v1_meta` can show the transaction.
pub open spec fn meta_is_shown(meta: TransactionV1Meta) -> bool {
    &&& native_is_supported(meta)
    &&& !is_staking(meta.entry_point) ==> amount_ok(meta.args@)
}

/// The rows of a transaction's body, or nothing at all where a native target
/// comes with an entry point that it does not run, or where the amount is no
/// number: such a transaction is not to be signed.
pub fn try_parse_v1_meta(meta: &TransactionV1Meta) -> (r: Option<MetaRows>)
    ensures
        r.is_some() == meta_is_shown(*meta),
        r matches Some(m) ==> {
            &&& meta.entry_point is Delegate <==> m is Delegation
            &&& meta.entry_point is Undelegate <==> m is Undelegation
            &&& meta.entry_point is Redelegate <==> m is Redelegation
            &&& m matches MetaRows::Rows(elements) ==> rows(elements@) == v1_type_rows(meta.target)
                + v1_detail_rows(*meta)
        },
{
    let staking = match &meta.entry_point {
        TransactionEntryPoint::Delegate => true,
        TransactionEntryPoint::Undelegate => true,
        TransactionEntryPoint::Redelegate => true,
        _ => false,
    };
    let native = match &meta.target {
        TransactionTarget::Native => true,
        _ => false,
    };
    let other = match &meta.entry_point {
        TransactionEntryPoint::Other(_) => true,
        _ => false,
    };
    if native && other {
        None
    } else if !staking && !amount_is_valid(&meta.args) {
        None
    } else {
        Some(parse_v1_meta(meta))
    }
}

/// The row that counts the signatures attached to the transaction.
pub fn parse_v1_approvals(approvals_count: usize) -> (elements: Vec<Element>)
    ensures
        rows(elements@) == seq![expert_row("Approvals #"@, dec_digits(approvals_count as nat))],
{
    let mut elements: Vec<Element> = Vec::new();
    assert(rows(elements@) =~= Seq::<Row>::empty());
    push_row(&mut elements, Element::expert("Approvals #", u64_to_decimal(approvals_count as u64)));
    assert(rows(elements@) =~= seq![
        expert_row("Approvals #"@, dec_digits(approvals_count as nat)),
    ]);
    elements
}

} // verus!
