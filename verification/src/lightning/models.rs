//! The provider's vocabulary: wallets, payments, and the errors of talking
//! to it.

use vstd::prelude::*;
use vstd::string::*;
use crate::domain::Error;
use crate::text::{clone_opt, concat2, opt_text, str_eq};

verus! {

/// The balance of a wallet.
#[derive(Debug)]
pub struct Balance {
    pub id: String,
    pub wallet_id: String,
    pub effective_time: String,
    pub available: i64,
    pub total: i64,
    pub network: Network,
    pub currency: Currency,
}

#[derive(Clone, Copy, Debug, PartialEq, Eq, Structural)]
pub enum Network {
    Mainnet,
    Testnet,
    Signet,
    Mutinynet,
}

#[derive(Clone, Copy, Debug, PartialEq, Eq, Structural)]
pub enum Currency {
    Btc,
    Usd,
}

#[derive(Clone, Copy, Debug, PartialEq, Eq, Structural)]
pub enum PaymentDirection {
    Send,
    Receive,
}

#[derive(Clone, Copy, Debug, PartialEq, Eq, Structural)]
pub enum PaymentKind {
    Bolt11,
    Onchain,
    Bip21,
}

#[derive(Clone, Copy, Debug, PartialEq, Eq, Structural)]
pub enum PaymentStatus {
    Sending,
    Receiving,
    Completed,
    Failed,
}

impl Network {
    /// The name of the network on the wire.
    pub open spec fn wire_name(self) -> Seq<char> {
        match self {
            Network::Mainnet => "mainnet"@,
            Network::Testnet => "testnet"@,
            Network::Signet => "signet"@,
            Network::Mutinynet => "mutinynet"@,
        }
    }

    /// The name of the network on the wire.
    pub fn as_str(&self) -> (name: &'static str)
        ensures
            name@ == self.wire_name(),
    {
        match self {
            Network::Mainnet => "mainnet",
            Network::Testnet => "testnet",
            Network::Signet => "signet",
            Network::Mutinynet => "mutinynet",
        }
    }
}

impl Currency {
    /// The name of the currency on the wire.
    pub open spec fn wire_name(self) -> Seq<char> {
        match self {
            Currency::Btc => "btc"@,
            Currency::Usd => "usd"@,
        }
    }

    /// The name of the currency on the wire.
    pub fn as_str(&self) -> (name: &'static str)
        ensures
            name@ == self.wire_name(),
    {
        match self {
            Currency::Btc => "btc",
            Currency::Usd => "usd",
        }
    }
}

impl PaymentDirection {
    /// The name of the direction on the wire.
    pub open spec fn wire_name(self) -> Seq<char> {
        match self {
            PaymentDirection::Send => "send"@,
            PaymentDirection::Receive => "receive"@,
        }
    }

    /// The name of the direction on the wire.
    pub fn as_str(&self) -> (name: &'static str)
        ensures
            name@ == self.wire_name(),
    {
        match self {
            PaymentDirection::Send => "send",
            PaymentDirection::Receive => "receive",
        }
    }
}

impl PaymentKind {
    /// The name of the kind on the wire.
    pub open spec fn wire_name(self) -> Seq<char> {
        match self {
            PaymentKind::Bolt11 => "bolt11"@,
            PaymentKind::Onchain => "onchain"@,
            PaymentKind::Bip21 => "bip21"@,
        }
    }

    /// The name of the kind on the wire.
    pub fn as_str(&self) -> (name: &'static str)
        ensures
            name@ == self.wire_name(),
    {
        match self {
            PaymentKind::Bolt11 => "bolt11",
            PaymentKind::Onchain => "onchain",
            PaymentKind::Bip21 => "bip21",
        }
    }
}

/// What the ledger calls a payment in the state that the provider reports:
/// "paid" once it is completed, "failed" once it has failed, and "pending"
/// for whatever else the provider says, or where it says nothing.
pub open spec fn ledger_status(provider_status: Option<Seq<char>>) -> Seq<char> {
    if provider_status == Some("completed"@) {
        "paid"@
    } else if provider_status == Some("failed"@) {
        "failed"@
    } else {
        "pending"@
    }
}

impl PaymentStatus {
    /// The name of the status on the wire.
    pub open spec fn wire_name(self) -> Seq<char> {
        match self {
            PaymentStatus::Sending => "sending"@,
            PaymentStatus::Receiving => "receiving"@,
            PaymentStatus::Completed => "completed"@,
            PaymentStatus::Failed => "failed"@,
        }
    }

    /// The status that `name` is on the wire.
    pub open spec fn named(name: Seq<char>) -> Option<PaymentStatus> {
        if name == "sending"@ {
            Some(PaymentStatus::Sending)
        } else if name == "receiving"@ {
            Some(PaymentStatus::Receiving)
        } else if name == "completed"@ {
            Some(PaymentStatus::Completed)
        } else if name == "failed"@ {
            Some(PaymentStatus::Failed)
        } else {
            None
        }
    }

    /// The name of the status on the wire.
    pub fn as_str(&self) -> (name: &'static str)
        ensures
            name@ == self.wire_name(),
    {
        match self {
            PaymentStatus::Sending => "sending",
            PaymentStatus::Receiving => "receiving",
            PaymentStatus::Completed => "completed",
            PaymentStatus::Failed => "failed",
        }
    }

    /// The status that `name` is on the wire.
    pub fn parse(name: &str) -> (status: Option<PaymentStatus>)
        ensures
            status == Self::named(name@),
    {
        if str_eq(name, "sending") {
            Some(PaymentStatus::Sending)
        } else if str_eq(name, "receiving") {
            Some(PaymentStatus::Receiving)
        } else if str_eq(name, "completed") {
            Some(PaymentStatus::Completed)
        } else if str_eq(name, "failed") {
            Some(PaymentStatus::Failed)
        } else {
            None
        }
    }
}

/// What the ledger calls a payment in the state that the provider reports.
pub fn ledger_status_for(provider_status: &Option<String>) -> (status: &'static str)
    ensures
        status@ == ledger_status(opt_text(*provider_status)),
{
    match provider_status {
        Some(name) => {
            if str_eq(name.as_str(), "completed") {
                "paid"
            } else if str_eq(name.as_str(), "failed") {
                "failed"
            } else {
                "pending"
            }
        },
        None => "pending",
    }
}

/// The request to receive a payment.
#[derive(Debug)]
pub struct ReceivePaymentRequest {
    pub id: String,
    pub wallet_id: String,
    pub currency: Currency,
    pub amount_msats: Option<i64>,
    pub payment_kind: PaymentKind,
    pub description: Option<String>,
}

/// What the provider holds for an invoice that is to be paid to the wallet.
#[derive(Debug)]
pub struct Bolt11ReceiveData {
    pub payment_request: Option<String>,
    pub amount_msats: i64,
    pub memo: Option<String>,
}

/// A payment to the wallet, as the provider describes it.
#[derive(Debug)]
pub struct ReceivePayment {
    pub id: String,
    pub wallet_id: String,
    pub organization_id: String,
    pub environment_id: String,
    pub created_at: String,
    pub updated_at: String,
    pub currency: Currency,
    pub status: PaymentStatus,
    pub payment_type: PaymentKind,
    pub direction: PaymentDirection,
    pub data: Bolt11ReceiveData,
    pub error: Option<ReceiveError>,
}

#[derive(Debug)]
pub struct ReceiveError {
    pub detail: Option<String>,
    pub error_type: String,
}

/// The request to send a payment.
#[derive(Debug)]
pub struct SendPaymentRequest {
    pub id: String,
    pub wallet_id: String,
    pub currency: Currency,
    pub payment_type: PaymentKind,
    pub data: SendPaymentData,
}

#[derive(Debug)]
pub struct SendPaymentData {
    pub payment_request: String,
    pub amount_msats: Option<i64>,
    pub max_fee_msats: i64,
}

/// What a reply of the provider says of a payment, as far as the service
/// reads it. A member that is missing, or is no string, is `None`.
#[derive(Debug)]
pub struct Payment {
    pub id: Option<String>,
    pub status: Option<String>,
    pub payment_type: Option<String>,
    pub direction: Option<String>,
    pub payment_request: Option<String>,
}

/// A payment as plain values.
pub struct PaymentView {
    pub id: Option<Seq<char>>,
    pub status: Option<Seq<char>>,
    pub payment_type: Option<Seq<char>>,
    pub direction: Option<Seq<char>>,
    pub payment_request: Option<Seq<char>>,
}

impl View for Payment {
    type V = PaymentView;

    open spec fn view(&self) -> PaymentView {
        PaymentView {
            id: opt_text(self.id),
            status: opt_text(self.status),
            payment_type: opt_text(self.payment_type),
            direction: opt_text(self.direction),
            payment_request: opt_text(self.payment_request),
        }
    }
}

impl Clone for Payment {
    fn clone(&self) -> (copy: Self)
        ensures
            copy@ == self@,
    {
        Payment {
            id: clone_opt(&self.id),
            status: clone_opt(&self.status),
            payment_type: clone_opt(&self.payment_type),
            direction: clone_opt(&self.direction),
            payment_request: clone_opt(&self.payment_request),
        }
    }
}

/// What the `serde_json` crate finds in the document `body` at `pointer`, a
/// JSON Pointer: where `body` is no JSON, the parser's words for what is
/// wrong with it; else the string held there, or `None` where nothing is
/// held there, or something that is no string.
pub uninterp spec fn json_lookup(body: Seq<char>, pointer: Seq<char>) -> Result<
    Option<Seq<char>>,
    Seq<char>,
>;

/// The view of what a lookup found.
pub open spec fn lookup_view(found: Result<Option<String>, String>) -> Result<
    Option<Seq<char>>,
    Seq<char>,
> {
    match found {
        Ok(text) => Ok(opt_text(text)),
        Err(fault) => Err(fault@),
    }
}

/// `serde_json::from_str` to a `Value`, then `Value::pointer` and
/// `Value::as_str`; for a document that is refused, the text of the error.
/// The contract claims that what is found is a function of the document
/// and the pointer.
#[verifier::external_body]
fn json_text_at(body: &str, pointer: &str) -> (found: Result<Option<String>, String>)
    ensures
        lookup_view(found) == json_lookup(body@, pointer@),
{
    match serde_json::from_str::<serde_json::Value>(body) {
        Ok(document) => match document.pointer(pointer) {
            Some(value) => match value.as_str() {
                Some(text) => Ok(Some(text.to_string())),
                None => Ok(None),
            },
            None => Ok(None),
        },
        Err(error) => Err(error.to_string()),
    }
}

/// The string that the JSON document `body` holds at `pointer`.
pub open spec fn json_text(body: Seq<char>, pointer: Seq<char>) -> Option<Seq<char>> {
    match json_lookup(body, pointer) {
        Ok(text) => text,
        Err(_) => None,
    }
}

/// What is wrong with `body` as the description of a payment: the parser's
/// words where it is no JSON, `None` where it is.
pub open spec fn json_fault(body: Seq<char>) -> Option<Seq<char>> {
    match json_lookup(body, "/id"@) {
        Ok(_) => None,
        Err(fault) => Some(fault),
    }
}

/// What the JSON document `body` says of a payment.
pub open spec fn payment_in(body: Seq<char>) -> PaymentView {
    PaymentView {
        id: json_text(body, "/id"@),
        status: json_text(body, "/status"@),
        payment_type: json_text(body, "/type"@),
        direction: json_text(body, "/direction"@),
        payment_request: json_text(body, "/data/payment_request"@),
    }
}

/// The string that `body` holds at `pointer`, if any.
fn member(body: &str, pointer: &str) -> (text: Option<String>)
    ensures
        opt_text(text) == json_text(body@, pointer@),
{
    match json_text_at(body, pointer) {
        Ok(text) => text,
        Err(_) => None,
    }
}

impl Payment {
    /// Reads a payment from the body of a reply: the members `id`, `status`,
    /// `type` and `direction`, and `payment_request` under `data`. A body
    /// that is no JSON is refused with the parser's words.
    pub fn from_json(body: &str) -> (r: Result<Payment, String>)
        ensures
            match json_fault(body@) {
                Some(fault) => r matches Err(text) && text@ == fault,
                None => r matches Ok(payment) && payment@ == payment_in(body@),
            },
    {
        match json_text_at(body, "/id") {
            Err(fault) => Err(fault),
            Ok(id) => Ok(
                Payment {
                    id,
                    status: member(body, "/status"),
                    payment_type: member(body, "/type"),
                    direction: member(body, "/direction"),
                    payment_request: member(body, "/data/payment_request"),
                },
            ),
        }
    }
}

/// What can go wrong between the service and the provider.
#[derive(Debug)]
pub enum LightningError {
    RequestError(String),
    ApiError(String),
    PaymentError(String),
    InvalidResponse(String),
    PaymentNotFound(String),
    InvalidPaymentState(String),
    PaymentTimeout(String),
}

impl LightningError {
    /// The detail that the error carries.
    pub open spec fn detail(self) -> Seq<char> {
        match self {
            LightningError::RequestError(m) => m@,
            LightningError::ApiError(m) => m@,
            LightningError::PaymentError(m) => m@,
            LightningError::InvalidResponse(m) => m@,
            LightningError::PaymentNotFound(m) => m@,
            LightningError::InvalidPaymentState(m) => m@,
            LightningError::PaymentTimeout(m) => m@,
        }
    }

    /// The words that introduce each kind of error.
    pub open spec fn heading(self) -> Seq<char> {
        match self {
            LightningError::RequestError(_) => "HTTP request error: "@,
            LightningError::ApiError(_) => "API error: "@,
            LightningError::PaymentError(_) => "Payment error: "@,
            LightningError::InvalidResponse(_) => "Invalid response: "@,
            LightningError::PaymentNotFound(_) => "Payment not found: "@,
            LightningError::InvalidPaymentState(_) => "Payment in invalid state: "@,
            LightningError::PaymentTimeout(_) => "Timeout waiting for payment: "@,
        }
    }

    /// The error as one line of text: its heading, then its detail.
    pub fn message(&self) -> (text: String)
        ensures
            text@ == self.heading() + self.detail(),
    {
        match self {
            LightningError::RequestError(m) => concat2("HTTP request error: ", m.as_str()),
            LightningError::ApiError(m) => concat2("API error: ", m.as_str()),
            LightningError::PaymentError(m) => concat2("Payment error: ", m.as_str()),
            LightningError::InvalidResponse(m) => concat2("Invalid response: ", m.as_str()),
            LightningError::PaymentNotFound(m) => concat2("Payment not found: ", m.as_str()),
            LightningError::InvalidPaymentState(m) => concat2(
                "Payment in invalid state: ",
                m.as_str(),
            ),
            LightningError::PaymentTimeout(m) => concat2(
                "Timeout waiting for payment: ",
                m.as_str(),
            ),
        }
    }

}

/// Whether `error` stands for `source` among the errors of the service: a
/// payment that is not found is a resource not found; an invalid state and a
/// timeout are invalid input; everything else is reported as an
/// authentication error that carries the whole line.
pub open spec fn stands_for(error: Error, source: LightningError) -> bool {
    match source {
        LightningError::PaymentNotFound(m) => error is NotFound && error.detail() == m@,
        LightningError::InvalidPaymentState(m) => error is InvalidInput && error.detail() == m@,
        LightningError::PaymentTimeout(m) => error is InvalidInput && error.detail() == m@,
        _ => error is Authentication && error.detail() == source.heading() + source.detail(),
    }
}

/// The error of the service that stands for `source`.
pub fn domain_error(source: LightningError) -> (error: Error)
    ensures
        stands_for(error, source),
{
    match source {
        LightningError::PaymentNotFound(m) => Error::NotFound(m),
        LightningError::InvalidPaymentState(m) => Error::InvalidInput(m),
        LightningError::PaymentTimeout(m) => Error::InvalidInput(m),
        other => Error::Authentication(other.message()),
    }
}

} // verus!
