//! Payment events as the ledger's event feed reports them.
//!
//! The feed hands out each event as base-64 texts: two topics and a value,
//! each the XDR form of a contract value.  A payment event has the topics
//! `PayrollProcessed` and the company, and as its value the vector of the
//! employee's address, the amount and the period.

use crate::address::Address;
use crate::encoding::account_strkey;
use crate::encoding::base64_decode;
use crate::encoding::base64_decoded;
use crate::encoding::hex_encode;
use crate::encoding::hex_text;
use crate::encoding::is_utf8;
use crate::encoding::strkey_text;
use stellar_xdr::curr::AccountId;
use stellar_xdr::curr::Int128Parts;
use stellar_xdr::curr::Limits;
use stellar_xdr::curr::PublicKey;
use stellar_xdr::curr::ReadXdr;
use stellar_xdr::curr::ScAddress;
use stellar_xdr::curr::ScVal;
use stellar_xdr::curr::Uint256;
use vstd::prelude::*;
use vstd::string::StringExecFns;

verus! {

/// A contract value as the XDR library holds it.
#[verifier::external_type_specification]
#[verifier::external_body]
pub struct ExScVal(ScVal);

/// The error type of the XDR reader.
#[verifier::external_type_specification]
#[verifier::external_body]
pub struct ExXdrError(stellar_xdr::curr::Error);

/// A decoded payment event.
#[derive(Clone, Debug, PartialEq, Eq)]
pub struct PayrollEvent {
    /// The address of the employee paid, in its text form.
    pub employee: String,
    /// The amount paid, in stroops.
    pub amount: i128,
    /// The pay period.
    pub period: u32,
    /// The closing time of the ledger that holds the event, in ISO 8601.
    pub ledger_closed_at: String,
}

/// A payment event as a mathematical value.
pub struct PayrollEventView {
    /// The address of the employee paid.
    pub employee: Seq<char>,
    /// The amount paid.
    pub amount: i128,
    /// The pay period.
    pub period: u32,
    /// The closing time of the ledger.
    pub ledger_closed_at: Seq<char>,
}

impl View for PayrollEvent {
    type V = PayrollEventView;

    open spec fn view(&self) -> PayrollEventView {
        PayrollEventView {
            employee: self.employee@,
            amount: self.amount,
            period: self.period,
            ledger_closed_at: self.ledger_closed_at@,
        }
    }
}

/// An event as the feed hands it out.
#[derive(Clone, Debug, PartialEq, Eq)]
pub struct RawEvent {
    /// The closing time of the ledger that holds the event.
    pub ledger_closed_at: String,
    /// The topics, each a contract value in base 64.
    pub topic: Vec<String>,
    /// The value, a contract value in base 64.
    pub value: String,
    /// Whether the call that published the event succeeded.
    pub in_successful_contract_call: bool,
}

/// Why an event could not be decoded.
#[derive(Clone, Copy, Debug, PartialEq, Eq)]
pub enum RpcError {
    /// A text is not base 64.
    BadBase64,
    /// The bytes are not the XDR form of a contract value.
    BadXdr,
    /// A symbol is not valid UTF-8.
    BadUtf8,
    /// The value of a payment event is not a vector.
    ExpectedVec,
    /// The vector has no element at this index.
    MissingElement { index: usize },
    /// The element at this index is not an address.
    ExpectedAddress { index: usize },
    /// The element at this index is not a 128-bit integer.
    ExpectedI128 { index: usize },
    /// The element at this index is not a 32-bit unsigned integer.
    ExpectedU32 { index: usize },
}

/// A contract value as far as a payment event needs it.
#[derive(Clone, Debug, PartialEq, Eq)]
pub enum ScLeaf {
    /// A symbol, by its bytes.
    Symbol(Vec<u8>),
    /// The address of an account or a contract.
    Address(Address),
    /// A signed 128-bit integer in two halves.
    I128 { hi: i64, lo: u64 },
    /// An unsigned 32-bit integer.
    U32(u32),
    /// Any other value.
    Other,
}

/// A contract value, or a vector of contract values.
#[derive(Clone, Debug, PartialEq, Eq)]
pub enum ScValue {
    /// A value that is no vector.
    Leaf(ScLeaf),
    /// A vector, by its elements; an element that is itself a vector counts
    /// as `Other`.
    Vec(Vec<ScLeaf>),
}

/// A contract value as a mathematical value.
pub enum ScModel {
    /// A symbol, by its bytes.
    Symbol(Seq<u8>),
    /// The address of an account or a contract.
    Address(Address),
    /// A signed 128-bit integer in two halves.
    I128 { hi: i64, lo: u64 },
    /// An unsigned 32-bit integer.
    U32(u32),
    /// A vector, by its elements.
    Vec(Seq<ScModel>),
    /// Any other value.
    Other,
}

/// The view of an [`ScLeaf`].
pub enum ScLeafView {
    /// A symbol, by its bytes.
    Symbol(Seq<u8>),
    /// The address of an account or a contract.
    Address(Address),
    /// A signed 128-bit integer in two halves.
    I128 { hi: i64, lo: u64 },
    /// An unsigned 32-bit integer.
    U32(u32),
    /// Any other value.
    Other,
}

/// The view of an [`ScValue`].
pub enum ScValueView {
    /// A value that is no vector.
    Leaf(ScLeafView),
    /// A vector, by its elements.
    Vec(Seq<ScLeafView>),
}

impl View for ScLeaf {
    type V = ScLeafView;

    open spec fn view(&self) -> ScLeafView {
        match self {
            ScLeaf::Symbol(bytes) => ScLeafView::Symbol(bytes@),
            ScLeaf::Address(address) => ScLeafView::Address(*address),
            ScLeaf::I128 { hi, lo } => ScLeafView::I128 { hi: *hi, lo: *lo },
            ScLeaf::U32(n) => ScLeafView::U32(*n),
            ScLeaf::Other => ScLeafView::Other,
        }
    }
}

impl View for ScValue {
    type V = ScValueView;

    open spec fn view(&self) -> ScValueView {
        match self {
            ScValue::Leaf(leaf) => ScValueView::Leaf(leaf@),
            ScValue::Vec(items) => ScValueView::Vec(Seq::new(items@.len(), |i: int| items@[i]@)),
        }
    }
}

/// What a contract value of the XDR library holds.
pub uninterp spec fn scval_model(value: ScVal) -> ScModel;

/// The contract value that `bytes` are the XDR form of; none if they are
/// not the XDR form of a contract value, or of one nested too deeply to be
/// read.
pub uninterp spec fn xdr_model(bytes: Seq<u8>) -> Option<ScModel>;

/// A value seen as one that is no vector.
pub open spec fn leaf_of(model: ScModel) -> ScLeafView {
    match model {
        ScModel::Symbol(bytes) => ScLeafView::Symbol(bytes),
        ScModel::Address(address) => ScLeafView::Address(address),
        ScModel::I128 { hi, lo } => ScLeafView::I128 { hi, lo },
        ScModel::U32(n) => ScLeafView::U32(n),
        _ => ScLeafView::Other,
    }
}

/// A value seen one level deep.
pub open spec fn shallow_of(model: ScModel) -> ScValueView {
    match model {
        ScModel::Vec(items) => ScValueView::Vec(Seq::new(items.len(), |i: int| leaf_of(items[i]))),
        _ => ScValueView::Leaf(leaf_of(model)),
    }
}

/// How deeply nested a value may be and still be read.
pub const XDR_DEPTH_LIMIT: u32 = 500;

/// Calls `stellar_xdr::curr::ReadXdr::from_xdr` for `ScVal`, with the depth
/// of the reader limited to [`XDR_DEPTH_LIMIT`] and its length to that of
/// `bytes`.  The contract names the value that comes back, and claims that
/// the call fails exactly where the bytes spell no value.
#[verifier::external_body]
fn scval_from_xdr(bytes: &Vec<u8>) -> (value: Result<ScVal, stellar_xdr::curr::Error>)
    ensures
        match value {
            Ok(v) => xdr_model(bytes@) == Some(scval_model(v)),
            Err(_) => xdr_model(bytes@) is None,
        },
{
    ScVal::from_xdr(bytes, Limits { depth: XDR_DEPTH_LIMIT, len: bytes.len() })
}

/// Tells the variants of `stellar_xdr::curr::ScVal` apart and moves out the
/// fields of those that a payment event is made of.  The contract claims
/// that the result is the value seen as one that is no vector.
#[verifier::external_body]
fn scval_leaf(value: &ScVal) -> (leaf: ScLeaf)
    ensures
        leaf@ == leaf_of(scval_model(*value)),
{
    match value {
        ScVal::Symbol(s) => ScLeaf::Symbol(s.to_vec()),
        ScVal::Address(ScAddress::Account(AccountId(PublicKey::PublicKeyTypeEd25519(Uint256(k))))) =>
            ScLeaf::Address(Address::Account(*k)),
        ScVal::Address(ScAddress::Contract(h)) => ScLeaf::Address(Address::Contract(h.0)),
        ScVal::I128(Int128Parts { hi, lo }) => ScLeaf::I128 { hi: *hi, lo: *lo },
        ScVal::U32(n) => ScLeaf::U32(*n),
        _ => ScLeaf::Other,
    }
}

/// Reads the length of the vector in a `stellar_xdr::curr::ScVal`.  The
/// contract claims that there is a length exactly where the value is a
/// vector, and that it is the number of its elements.
#[verifier::external_body]
fn scval_vec_len(value: &ScVal) -> (len: Option<usize>)
    ensures
        match len {
            Some(n) => scval_model(*value) is Vec && n == scval_model(*value)->Vec_0.len(),
            None => !(scval_model(*value) is Vec),
        },
{
    match value {
        ScVal::Vec(Some(items)) => Some(items.len()),
        _ => None,
    }
}

/// Copies the element at `index` out of the vector in a
/// `stellar_xdr::curr::ScVal`.  The contract claims that the copy holds what
/// the element holds.
#[verifier::external_body]
fn scval_vec_item(value: &ScVal, index: usize) -> (item: ScVal)
    requires
        scval_model(*value) is Vec,
        index < scval_model(*value)->Vec_0.len(),
    ensures
        scval_model(item) == scval_model(*value)->Vec_0[index as int],
{
    match value {
        ScVal::Vec(Some(items)) => items[index].clone(),
        _ => ScVal::Void,
    }
}

/// A value of the XDR library seen one level deep.
fn shallow(value: &ScVal) -> (seen: ScValue)
    ensures
        seen@ == shallow_of(scval_model(*value)),
{
    match scval_vec_len(value) {
        None => ScValue::Leaf(scval_leaf(value)),
        Some(n) => {
            let ghost items = scval_model(*value)->Vec_0;
            let mut leaves: Vec<ScLeaf> = Vec::new();
            let mut i: usize = 0;
            while i < n
                invariant
                    i <= n,
                    scval_model(*value) is Vec,
                    items == scval_model(*value)->Vec_0,
                    n == items.len(),
                    leaves@.len() == i,
                    forall|j: int| 0 <= j < i ==> (#[trigger] leaves@[j])@ == leaf_of(items[j]),
                decreases n - i,
            {
                let item = scval_vec_item(value, i);
                leaves.push(scval_leaf(&item));
                i = i + 1;
            }
            let seen = ScValue::Vec(leaves);
            assert(seen@ =~= shallow_of(scval_model(*value))) by {
                assert(seen@->Vec_0 =~= Seq::new(items.len(), |i: int| leaf_of(items[i])));
            }
            seen
        },
    }
}

/// What a base-64 text decodes to as a contract value.
pub open spec fn decoded_value(text: Seq<char>) -> Result<ScValueView, RpcError> {
    match base64_decoded(text) {
        None => Err(RpcError::BadBase64),
        Some(bytes) => match xdr_model(bytes) {
            None => Err(RpcError::BadXdr),
            Some(model) => Ok(shallow_of(model)),
        },
    }
}

/// Decodes a contract value from the base-64 text of its XDR form.
pub fn decode_scval(b64: &str) -> (value: Result<ScValue, RpcError>)
    ensures
        match value {
            Ok(v) => decoded_value(b64@) == Ok::<ScValueView, RpcError>(v@),
            Err(e) => decoded_value(b64@) == Err::<ScValueView, RpcError>(e),
        },
{
    let bytes = match base64_decode(b64) {
        Err(_) => {
            return Err(RpcError::BadBase64);
        },
        Ok(bytes) => bytes,
    };
    match scval_from_xdr(&bytes) {
        Err(_) => Err(RpcError::BadXdr),
        Ok(value) => Ok(shallow(&value)),
    }
}

/// Whether a value is the symbol that spells `expected`.  A symbol that is
/// not valid UTF-8 is an error; a value that is no symbol is no match.
pub open spec fn symbol_match(value: ScValueView, expected: Seq<char>) -> Result<bool, RpcError> {
    match value {
        ScValueView::Leaf(ScLeafView::Symbol(bytes)) => if !vstd::utf8::valid_utf8(bytes) {
            Err(RpcError::BadUtf8)
        } else {
            Ok(bytes == vstd::utf8::encode_utf8(expected))
        },
        _ => Ok(false),
    }
}

/// Whether two byte strings are the same.
fn same_bytes(a: &[u8], b: &[u8]) -> (same: bool)
    ensures
        same == (a@ == b@),
{
    if a.len() != b.len() {
        return false;
    }
    let mut i: usize = 0;
    while i < a.len()
        invariant
            i <= a@.len(),
            a@.len() == b@.len(),
            forall|j: int| 0 <= j < i ==> a@[j] == b@[j],
        decreases a@.len() - i,
    {
        if a[i] != b[i] {
            return false;
        }
        i = i + 1;
    }
    assert(a@ =~= b@);
    true
}

/// Whether `value` is the symbol that spells `expected`.
pub fn symbol_is(value: &ScValue, expected: &str) -> (result: Result<bool, RpcError>)
    ensures
        result == symbol_match(value@, expected@),
{
    match value {
        ScValue::Leaf(ScLeaf::Symbol(bytes)) => {
            if !is_utf8(bytes.as_slice()) {
                return Err(RpcError::BadUtf8);
            }
            Ok(same_bytes(bytes.as_slice(), expected.as_bytes()))
        },
        _ => Ok(false),
    }
}

/// The text form of an address: the account's strkey, or `C:` and the
/// contract's hash in hexadecimal.
pub open spec fn address_text(address: Address) -> Seq<char> {
    match address {
        Address::Account(key) => strkey_text(key@),
        Address::Contract(hash) => seq!['C', ':'] + hex_text(hash@),
    }
}

/// Writes an address in its text form.
pub fn scaddress_to_strkey(address: &Address) -> (text: String)
    ensures
        text@ == address_text(*address),
{
    match address {
        Address::Account(key) => account_strkey(key),
        Address::Contract(hash) => {
            proof {
                reveal_strlit("C:");
            }
            let mut text = String::from_str("C:");
            let digits = hex_encode(hash.as_slice());
            text.append(digits.as_str());
            assert(text@ =~= address_text(*address));
            text
        },
    }
}

/// The number whose upper half is `hi` and whose lower half is `lo`.
pub open spec fn joined(hi: i64, lo: u64) -> int {
    hi as int * 0x1_0000_0000_0000_0000 + lo as int
}

/// The address at `index` of a vector, in its text form.
pub open spec fn address_at(items: Seq<ScLeafView>, index: int) -> Result<Seq<char>, RpcError> {
    if index >= items.len() {
        Err(RpcError::MissingElement { index: index as usize })
    } else {
        match items[index] {
            ScLeafView::Address(address) => Ok(address_text(address)),
            _ => Err(RpcError::ExpectedAddress { index: index as usize }),
        }
    }
}

/// The 128-bit integer at `index` of a vector.
pub open spec fn i128_at(items: Seq<ScLeafView>, index: int) -> Result<i128, RpcError> {
    if index >= items.len() {
        Err(RpcError::MissingElement { index: index as usize })
    } else {
        match items[index] {
            ScLeafView::I128 { hi, lo } => Ok(joined(hi, lo) as i128),
            _ => Err(RpcError::ExpectedI128 { index: index as usize }),
        }
    }
}

/// The 32-bit integer at `index` of a vector.
pub open spec fn u32_at(items: Seq<ScLeafView>, index: int) -> Result<u32, RpcError> {
    if index >= items.len() {
        Err(RpcError::MissingElement { index: index as usize })
    } else {
        match items[index] {
            ScLeafView::U32(n) => Ok(n),
            _ => Err(RpcError::ExpectedU32 { index: index as usize }),
        }
    }
}

/// The payment that the value of an event tells of: the vector of the
/// employee's address, the amount and the period.  The first of the three
/// that is missing or of another type decides the error.
pub open spec fn payment_of(data: ScValueView, ledger_closed_at: Seq<char>) -> Result<
    PayrollEventView,
    RpcError,
> {
    match data {
        ScValueView::Vec(items) => match address_at(items, 0) {
            Err(e) => Err(e),
            Ok(employee) => match i128_at(items, 1) {
                Err(e) => Err(e),
                Ok(amount) => match u32_at(items, 2) {
                    Err(e) => Err(e),
                    Ok(period) => Ok(PayrollEventView { employee, amount, period, ledger_closed_at }),
                },
            },
        },
        _ => Err(RpcError::ExpectedVec),
    }
}

/// Reads the address at `idx` of a vector.
pub fn extract_address(vec: &Vec<ScLeaf>, idx: usize) -> (result: Result<String, RpcError>)
    ensures
        match result {
            Ok(text) => address_at(Seq::new(vec@.len(), |i: int| vec@[i]@), idx as int) == Ok::<
                Seq<char>,
                RpcError,
            >(text@),
            Err(e) => address_at(Seq::new(vec@.len(), |i: int| vec@[i]@), idx as int) == Err::<
                Seq<char>,
                RpcError,
            >(e),
        },
{
    if idx >= vec.len() {
        return Err(RpcError::MissingElement { index: idx });
    }
    match &vec[idx] {
        ScLeaf::Address(address) => Ok(scaddress_to_strkey(address)),
        _ => Err(RpcError::ExpectedAddress { index: idx }),
    }
}

/// Reads the 128-bit integer at `idx` of a vector.
pub fn extract_i128(vec: &Vec<ScLeaf>, idx: usize) -> (result: Result<i128, RpcError>)
    ensures
        result == i128_at(Seq::new(vec@.len(), |i: int| vec@[i]@), idx as int),
{
    if idx >= vec.len() {
        return Err(RpcError::MissingElement { index: idx });
    }
    match &vec[idx] {
        ScLeaf::I128 { hi, lo } => Ok((*hi as i128) * 0x1_0000_0000_0000_0000 + (*lo as i128)),
        _ => Err(RpcError::ExpectedI128 { index: idx }),
    }
}

/// Reads the 32-bit integer at `idx` of a vector.
pub fn extract_u32(vec: &Vec<ScLeaf>, idx: usize) -> (result: Result<u32, RpcError>)
    ensures
        result == u32_at(Seq::new(vec@.len(), |i: int| vec@[i]@), idx as int),
{
    if idx >= vec.len() {
        return Err(RpcError::MissingElement { index: idx });
    }
    match &vec[idx] {
        ScLeaf::U32(n) => Ok(*n),
        _ => Err(RpcError::ExpectedU32 { index: idx }),
    }
}

/// Reads a payment out of the value of an event.
pub fn payment_from_data(data: &ScValue, ledger_closed_at: &str) -> (result: Result<
    PayrollEvent,
    RpcError,
>)
    ensures
        match result {
            Ok(event) => payment_of(data@, ledger_closed_at@) == Ok::<PayrollEventView, RpcError>(
                event@,
            ),
            Err(e) => payment_of(data@, ledger_closed_at@) == Err::<PayrollEventView, RpcError>(e),
        },
{
    match data {
        ScValue::Vec(items) => {
            let employee = match extract_address(items, 0) {
                Err(e) => {
                    return Err(e);
                },
                Ok(employee) => employee,
            };
            let amount = match extract_i128(items, 1) {
                Err(e) => {
                    return Err(e);
                },
                Ok(amount) => amount,
            };
            let period = match extract_u32(items, 2) {
                Err(e) => {
                    return Err(e);
                },
                Ok(period) => period,
            };
            Ok(
                PayrollEvent {
                    employee,
                    amount,
                    period,
                    ledger_closed_at: String::from_str(ledger_closed_at),
                },
            )
        },
        _ => Err(RpcError::ExpectedVec),
    }
}

/// What an event of the feed tells of the payments of `company_id`: nothing
/// if it has fewer than two topics, if its first topic is not the symbol
/// `PayrollProcessed`, or if its second is not the symbol of the company;
/// else the payment in its value.  The topics and the value are decoded in
/// this order, and only as far as the answer needs them.
pub open spec fn decoded_event(event: RawEvent, company_id: Seq<char>) -> Result<
    Option<PayrollEventView>,
    RpcError,
> {
    if event.topic@.len() < 2 {
        Ok(None)
    } else {
        match decoded_value(event.topic@[0]@) {
            Err(e) => Err(e),
            Ok(name) => match symbol_match(name, "PayrollProcessed"@) {
                Err(e) => Err(e),
                Ok(false) => Ok(None),
                Ok(true) => match decoded_value(event.topic@[1]@) {
                    Err(e) => Err(e),
                    Ok(company) => match symbol_match(company, company_id) {
                        Err(e) => Err(e),
                        Ok(false) => Ok(None),
                        Ok(true) => match decoded_value(event.value@) {
                            Err(e) => Err(e),
                            Ok(data) => match payment_of(data, event.ledger_closed_at@) {
                                Err(e) => Err(e),
                                Ok(payment) => Ok(Some(payment)),
                            },
                        },
                    },
                },
            },
        }
    }
}

/// The view of what [`try_decode_payroll_event`] returns.
pub open spec fn event_view(result: Result<Option<PayrollEvent>, RpcError>) -> Result<
    Option<PayrollEventView>,
    RpcError,
> {
    match result {
        Ok(Some(event)) => Ok(Some(event@)),
        Ok(None) => Ok(None),
        Err(e) => Err(e),
    }
}

/// Decodes an event of the feed as a payment of `company_id`, if it is one.
pub fn try_decode_payroll_event(ev: &RawEvent, company_id: &str) -> (result: Result<
    Option<PayrollEvent>,
    RpcError,
>)
    ensures
        event_view(result) == decoded_event(*ev, company_id@),
{
    if ev.topic.len() < 2 {
        return Ok(None);
    }
    let name = match decode_scval(ev.topic[0].as_str()) {
        Err(e) => {
            return Err(e);
        },
        Ok(name) => name,
    };
    match symbol_is(&name, "PayrollProcessed") {
        Err(e) => {
            return Err(e);
        },
        Ok(matches) => {
            if !matches {
                return Ok(None);
            }
        },
    }
    let company = match decode_scval(ev.topic[1].as_str()) {
        Err(e) => {
            return Err(e);
        },
        Ok(company) => company,
    };
    match symbol_is(&company, company_id) {
        Err(e) => {
            return Err(e);
        },
        Ok(matches) => {
            if !matches {
                return Ok(None);
            }
        },
    }
    let data = match decode_scval(ev.value.as_str()) {
        Err(e) => {
            return Err(e);
        },
        Ok(data) => data,
    };
    match payment_from_data(&data, ev.ledger_closed_at.as_str()) {
        Err(e) => Err(e),
        Ok(payment) => Ok(Some(payment)),
    }
}

/// The payments of `company_id` among the events of the feed, in order.  An
/// event of a call that failed is passed over.  The first event that cannot
/// be decoded ends the reading with its error.
pub open spec fn payments_in(raw: Seq<RawEvent>, company_id: Seq<char>) -> Result<
    Seq<PayrollEventView>,
    RpcError,
>
    decreases raw.len(),
{
    if raw.len() == 0 {
        Ok(Seq::empty())
    } else {
        match payments_in(raw.drop_last(), company_id) {
            Err(e) => Err(e),
            Ok(earlier) => if !raw.last().in_successful_contract_call {
                Ok(earlier)
            } else {
                match decoded_event(raw.last(), company_id) {
                    Err(e) => Err(e),
                    Ok(None) => Ok(earlier),
                    Ok(Some(payment)) => Ok(earlier.push(payment)),
                }
            },
        }
    }
}

/// Once a prefix of the feed has failed to decode, the whole feed fails
/// with the same error.
pub proof fn lemma_payments_in_stops(raw: Seq<RawEvent>, company_id: Seq<char>, k: int)
    requires
        0 <= k <= raw.len(),
        payments_in(raw.take(k), company_id) is Err,
    ensures
        payments_in(raw, company_id) == payments_in(raw.take(k), company_id),
    decreases raw.len() - k,
{
    if k == raw.len() {
        assert(raw.take(k) =~= raw);
    } else {
        assert(raw.take(k + 1).drop_last() =~= raw.take(k));
        lemma_payments_in_stops(raw, company_id, k + 1);
    }
}

/// The views of a list of events.
pub open spec fn views_of(events: Seq<PayrollEvent>) -> Seq<PayrollEventView> {
    Seq::new(events.len(), |i: int| events[i]@)
}

/// Picks the payments of `company_id` out of the events of the feed.
pub fn decode_payroll_events(raw_events: &Vec<RawEvent>, company_id: &str) -> (result: Result<
    Vec<PayrollEvent>,
    RpcError,
>)
    ensures
        match result {
            Ok(events) => payments_in(raw_events@, company_id@) == Ok::<
                Seq<PayrollEventView>,
                RpcError,
            >(views_of(events@)),
            Err(e) => payments_in(raw_events@, company_id@) == Err::<Seq<PayrollEventView>, RpcError>(
                e,
            ),
        },
{
    let mut out: Vec<PayrollEvent> = Vec::new();
    let mut i: usize = 0;
    assert(views_of(out@) =~= Seq::<PayrollEventView>::empty());
    while i < raw_events.len()
        invariant
            i <= raw_events@.len(),
            payments_in(raw_events@.take(i as int), company_id@) == Ok::<
                Seq<PayrollEventView>,
                RpcError,
            >(views_of(out@)),
        decreases raw_events@.len() - i,
    {
        proof {
            assert(raw_events@.take(i + 1).drop_last() =~= raw_events@.take(i as int));
            assert(raw_events@.take(i + 1).last() == raw_events@[i as int]);
        }
        if raw_events[i].in_successful_contract_call {
            match try_decode_payroll_event(&raw_events[i], company_id) {
                Err(e) => {
                    proof {
                        lemma_payments_in_stops(raw_events@, company_id@, i + 1);
                    }
                    return Err(e);
                },
                Ok(None) => {},
                Ok(Some(event)) => {
                    let ghost before = out@;
                    out.push(event);
                    assert(views_of(out@) =~= views_of(before).push(event@));
                },
            }
        }
        i = i + 1;
    }
    proof {
        assert(raw_events@.take(i as int) =~= raw_events@);
    }
    Ok(out)
}

} // verus!
