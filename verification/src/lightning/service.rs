//! The calls that the service makes to the provider, and what it makes of
//! each answer. Sending a call and waiting are left to the caller: every
//! operation here is a step that prepares a call or reads a reply.

use vstd::prelude::*;
use vstd::string::*;
use crate::domain::{current_time, new_token};
use crate::ident::is_uuid_v7_text;
use crate::lightning::models::{
    json_fault, payment_in, Currency, LightningError, Payment, PaymentKind, PaymentView,
    ReceivePaymentRequest, SendPaymentData, SendPaymentRequest,
};
use crate::text::{concat2, concat3, opt_str, opt_text, str_eq};

verus! {

/// Seconds between two looks at a payment that is being waited for.
pub const POLL_INTERVAL_SECONDS: u64 = 3;

/// How often a call is tried again after a failure that may pass.
pub const MAX_RETRIES: u32 = 3;

/// Seconds that the service waits for a prize to be paid out.
pub const PAYOUT_TIMEOUT_SECONDS: u64 = 60;

pub const STATUS_NOT_FOUND: u16 = 404;

/// The answer to a call: the status code, and the body as text. Where the
/// body could not be read the caller puts "Unknown error" in its place.
#[derive(Debug)]
pub struct HttpReply {
    pub status: u16,
    pub body: String,
}

/// What a call carries.
#[derive(Debug)]
pub enum CallBody {
    Nothing,
    Receive(ReceivePaymentRequest),
    Send(SendPaymentRequest),
}

/// A call to the provider: where it goes, the key sent in the `x-api-key`
/// header, and what it carries. A call that carries something is a POST, one
/// that carries nothing a GET.
#[derive(Debug)]
pub struct ProviderCall {
    pub url: String,
    pub api_key: String,
    pub body: CallBody,
}

/// The first line of an HTTP answer with the status `code`: the number and
/// the reason that belongs to it, as the `http` crate writes a status.
pub uninterp spec fn status_line(code: int) -> Seq<char>;

/// `http::StatusCode::from_u16` followed by `to_string`, through hyper's
/// re-export. The contract claims that the line is a function of the code.
/// The codes admitted are those that the first call accepts.
#[verifier::external_body]
fn status_line_of(code: u16) -> (line: String)
    requires
        100 <= code <= 999,
    ensures
        line@ == status_line(code as int),
{
    match hyper::StatusCode::from_u16(code) {
        Ok(status) => status.to_string(),
        Err(_) => String::new(),
    }
}

/// Whether `e` is the error of a request that was not made because the clock
/// cannot be read as a time from 1970 on.
pub open spec fn clock_fault(e: LightningError) -> bool {
    e is RequestError && e.detail() == "System clock is out of range"@
}

/// Whether a status code reports success: 200 to 299.
pub open spec fn is_success(code: u16) -> bool {
    200 <= code < 300
}

/// The provider's account that the service talks to. The address ends in a
/// slash.
#[derive(Debug)]
pub struct LightningService {
    api_url: String,
    api_key: String,
    organization_id: String,
    environment_id: String,
    wallet_id: String,
}

/// The account as plain values.
pub struct ServiceView {
    pub api_url: Seq<char>,
    pub api_key: Seq<char>,
    pub organization_id: Seq<char>,
    pub environment_id: Seq<char>,
    pub wallet_id: Seq<char>,
}

impl View for LightningService {
    type V = ServiceView;

    closed spec fn view(&self) -> ServiceView {
        ServiceView {
            api_url: self.api_url@,
            api_key: self.api_key@,
            organization_id: self.organization_id@,
            environment_id: self.environment_id@,
            wallet_id: self.wallet_id@,
        }
    }
}

impl ServiceView {
    /// The address of the account's payments.
    pub open spec fn payments_url(self) -> Seq<char> {
        self.api_url + "organizations/"@ + self.organization_id + "/environments/"@
            + self.environment_id + "/payments"@
    }

    /// The address of one payment.
    pub open spec fn payment_url(self, payment_id: Seq<char>) -> Seq<char> {
        self.payments_url() + "/"@ + payment_id
    }
}

/// What a request for an entry fee is described as where the caller says
/// nothing.
pub open spec fn described(description: Option<Seq<char>>) -> Seq<char> {
    match description {
        Some(text) => text,
        None => "Asteroids Game Entry Fee"@,
    }
}

/// Whether `call` asks the provider for an invoice of `amount_sats`, under
/// the id `payment_id`.
pub open spec fn is_invoice_call(
    call: ProviderCall,
    service: ServiceView,
    payment_id: Seq<char>,
    amount_sats: int,
    description: Option<Seq<char>>,
) -> bool {
    &&& call.url@ == service.payments_url()
    &&& call.api_key@ == service.api_key
    &&& call.body matches CallBody::Receive(request) && {
        &&& request.id@ == payment_id
        &&& request.wallet_id@ == service.wallet_id
        &&& request.currency == Currency::Btc
        &&& request.amount_msats == Some((amount_sats * 1000) as i64)
        &&& request.payment_kind == PaymentKind::Bolt11
        &&& opt_text(request.description) == Some(described(description))
    }
}

/// Whether `call` asks the provider about the payment `payment_id`.
pub open spec fn is_lookup_call(call: ProviderCall, service: ServiceView, payment_id: Seq<char>)
    -> bool {
    &&& call.url@ == service.payment_url(payment_id)
    &&& call.api_key@ == service.api_key
    &&& call.body is Nothing
}

/// The most that a payment of `amount_msats` may cost in fees: a hundredth
/// of it, rounded toward zero.
pub open spec fn fee_ceiling(amount_msats: int) -> int {
    if amount_msats >= 0 {
        amount_msats / 100
    } else {
        -((-amount_msats) / 100)
    }
}

/// Whether `call` asks the provider to pay `invoice`, under the id
/// `payment_id`, for no more than a hundredth of `amount_msats` in fees.
pub open spec fn is_payout_call(
    call: ProviderCall,
    service: ServiceView,
    payment_id: Seq<char>,
    invoice: Seq<char>,
    amount_msats: int,
) -> bool {
    &&& call.url@ == service.payments_url()
    &&& call.api_key@ == service.api_key
    &&& call.body matches CallBody::Send(request) && {
        &&& request.id@ == payment_id
        &&& request.wallet_id@ == service.wallet_id
        &&& request.currency == Currency::Btc
        &&& request.payment_type == PaymentKind::Bolt11
        &&& request.data.payment_request@ == invoice
        &&& request.data.amount_msats is None
        &&& request.data.max_fee_msats == fee_ceiling(amount_msats)
    }
}

/// What the service makes of the answer to a request for an invoice: the
/// request is accepted once the provider answers with success, whether or
/// not the invoice is there yet.
pub open spec fn invoice_outcome(
    payment_id: Seq<char>,
    reply: Result<HttpReply, String>,
    out: Result<String, LightningError>,
) -> bool {
    match reply {
        Err(fault) => out matches Err(e) && e is RequestError && e.detail() == fault@,
        Ok(answer) => if is_success(answer.status) {
            out matches Ok(id) && id@ == payment_id
        } else {
            out matches Err(e) && e is ApiError && e.detail() == "Failed to create invoice: "@
                + answer.body@
        },
    }
}

/// The detail of the error for an answer that reports a failure: what was
/// tried, the status line, and the body.
pub open spec fn failure_detail(what: Seq<char>, answer: HttpReply) -> Seq<char> {
    what + status_line(answer.status as int) + " - "@ + answer.body@
}

/// What the service makes of the answer to a question about a payment: a
/// payment that the provider does not know yet is none; any other failure
/// is an error, as is a body that is no JSON.
pub open spec fn status_outcome(
    reply: Result<HttpReply, String>,
    out: Result<Option<Payment>, LightningError>,
) -> bool {
    match reply {
        Err(fault) => out matches Err(e) && e is RequestError && e.detail() == fault@,
        Ok(answer) => if answer.status == STATUS_NOT_FOUND {
            out matches Ok(None)
        } else if !is_success(answer.status) {
            out matches Err(e) && e is ApiError && e.detail() == failure_detail(
                "Failed to get payment status: "@,
                answer,
            )
        } else {
            match json_fault(answer.body@) {
                Some(fault) => out matches Err(e) && e is InvalidResponse && e.detail()
                    == "Failed to parse payment status response: "@ + fault,
                None => out matches Ok(Some(payment)) && payment@ == payment_in(answer.body@),
            }
        },
    }
}

/// The invoice that a payment carries: its payment request, where the
/// payment is a BOLT11 payment to the wallet.
pub open spec fn invoice_of(payment: PaymentView) -> Option<Seq<char>> {
    if payment.payment_type == Some("bolt11"@) && payment.direction == Some("receive"@) {
        payment.payment_request
    } else {
        None
    }
}

/// Whether a payment is a BOLT11 payment to the wallet.
pub open spec fn is_receivable(payment: PaymentView) -> bool {
    payment.payment_type == Some("bolt11"@) && payment.direction == Some("receive"@)
}

/// Why a payment is refused as one that carries no invoice: it does not say
/// what it is, or in which direction it goes, or there is no invoice to
/// find in it.
pub open spec fn invoice_refusal(payment: PaymentView) -> Seq<char> {
    if payment.payment_type is None {
        "Payment type not found or not a string"@
    } else if payment.direction is None {
        "Payment direction not found or not a string"@
    } else {
        "No invoice found in payment data"@
    }
}

/// What the service makes of the answer to a question about an invoice.
/// A payment that the provider does not know yet, and a BOLT11 payment to
/// the wallet whose invoice is not there yet, give none: the caller asks
/// again. An answer that describes anything else is a fault of the
/// provider, and is refused as such.
pub open spec fn invoice_lookup_outcome(
    reply: Result<HttpReply, String>,
    out: Result<Option<String>, LightningError>,
) -> bool {
    match reply {
        Err(fault) => out matches Err(e) && e is RequestError && e.detail() == fault@,
        Ok(answer) => if answer.status == STATUS_NOT_FOUND {
            out matches Ok(None)
        } else if !is_success(answer.status) {
            out matches Err(e) && e is ApiError && e.detail()
                == "Failed to get payment details: "@ + answer.body@
        } else {
            match json_fault(answer.body@) {
                Some(fault) => out matches Err(e) && e is InvalidResponse && e.detail()
                    == "Failed to parse payment response: "@ + fault,
                None => {
                    let payment = payment_in(answer.body@);
                    if is_receivable(payment) {
                        out matches Ok(found) && opt_text(found) == payment.payment_request
                    } else {
                        out matches Err(e) && e is PaymentError && e.detail() == invoice_refusal(
                            payment,
                        )
                    }
                },
            }
        },
    }
}

/// A wait for a payment: which payment, and for how many seconds.
#[derive(Debug)]
pub struct PaymentWait {
    pub payment_id: String,
    pub timeout_secs: u64,
}

/// What to do next while waiting for a payment.
#[derive(Debug)]
pub enum WaitStep {
    /// The payment is completed: the wait is over.
    Completed(Payment),
    /// The wait has failed: the payment failed, or time ran out.
    Failed(LightningError),
    /// Ask the provider about the payment, and come back with the answer.
    Poll,
    /// Sleep for so many seconds, then come back.
    Sleep(u64),
}

/// The detail of the error for a wait that ran out of time.
pub open spec fn timeout_detail(payment_id: Seq<char>) -> Seq<char> {
    "Timeout waiting for payment "@ + payment_id
}

/// The detail of the error for a payment that failed.
pub open spec fn failed_detail(payment_id: Seq<char>) -> Seq<char> {
    "Payment "@ + payment_id + " failed"@
}

impl PaymentWait {
    /// What to do at the start of a round, `elapsed_secs` into the wait:
    /// give up once the time is used up, else ask the provider.
    pub fn begin_round(&self, elapsed_secs: u64) -> (step: WaitStep)
        ensures
            match step {
                WaitStep::Failed(e) => elapsed_secs >= self.timeout_secs && e is PaymentTimeout
                    && e.detail() == timeout_detail(self.payment_id@),
                WaitStep::Poll => elapsed_secs < self.timeout_secs,
                _ => false,
            },
    {
        if elapsed_secs >= self.timeout_secs {
            WaitStep::Failed(
                LightningError::PaymentTimeout(
                    concat2("Timeout waiting for payment ", self.payment_id.as_str()),
                ),
            )
        } else {
            WaitStep::Poll
        }
    }

    /// What to do with the provider's answer: the wait is over once the
    /// payment is completed, and has failed once the payment has; in every
    /// other case, an error of the call among them, sleep and ask again.
    pub fn end_round(&self, answer: Result<Option<Payment>, LightningError>) -> (step: WaitStep)
        ensures
            match answer {
                Ok(Some(payment)) => if payment@.status == Some("completed"@) {
                    step matches WaitStep::Completed(p) && p@ == payment@
                } else if payment@.status == Some("failed"@) {
                    step matches WaitStep::Failed(e) && e is PaymentError && e.detail()
                        == failed_detail(self.payment_id@)
                } else {
                    step matches WaitStep::Sleep(s) && s == POLL_INTERVAL_SECONDS
                },
                _ => step matches WaitStep::Sleep(s) && s == POLL_INTERVAL_SECONDS,
            },
    {
        match answer {
            Ok(Some(payment)) => {
                let completed = match &payment.status {
                    Some(status) => str_eq(status.as_str(), "completed"),
                    None => false,
                };
                let failed = match &payment.status {
                    Some(status) => str_eq(status.as_str(), "failed"),
                    None => false,
                };
                if completed {
                    WaitStep::Completed(payment)
                } else if failed {
                    WaitStep::Failed(
                        LightningError::PaymentError(
                            concat3("Payment ", self.payment_id.as_str(), " failed"),
                        ),
                    )
                } else {
                    WaitStep::Sleep(POLL_INTERVAL_SECONDS)
                }
            },
            _ => WaitStep::Sleep(POLL_INTERVAL_SECONDS),
        }
    }
}

/// What the service makes of the answer to a payout: it waits for the
/// payment that the answer names, or for `payment_id` where it names none.
pub open spec fn payout_outcome(
    payment_id: Seq<char>,
    reply: Result<HttpReply, String>,
    out: Result<PaymentWait, LightningError>,
) -> bool {
    match reply {
        Err(fault) => out matches Err(e) && e is RequestError && e.detail() == fault@,
        Ok(answer) => if !is_success(answer.status) {
            out matches Err(e) && e is ApiError && e.detail() == failure_detail(
                "Failed to send payment: "@,
                answer,
            )
        } else {
            match json_fault(answer.body@) {
                Some(fault) => out matches Err(e) && e is InvalidResponse && e.detail()
                    == "Failed to parse payment response: "@ + fault,
                None => out matches Ok(wait) && wait.timeout_secs == PAYOUT_TIMEOUT_SECONDS
                    && wait.payment_id@ == match payment_in(answer.body@).id {
                    Some(id) => id,
                    None => payment_id,
                },
            }
        },
    }
}

impl LightningService {
    pub fn new(
        api_url: String,
        api_key: String,
        organization_id: String,
        environment_id: String,
        wallet_id: String,
    ) -> (service: Self)
        ensures
            service@ == (ServiceView {
                api_url: api_url@,
                api_key: api_key@,
                organization_id: organization_id@,
                environment_id: environment_id@,
                wallet_id: wallet_id@,
            }),
    {
        LightningService { api_url, api_key, organization_id, environment_id, wallet_id }
    }

    /// The address of the account's payments.
    pub fn payments_url(&self) -> (url: String)
        ensures
            url@ == self@.payments_url(),
    {
        let url = self.api_url.clone();
        let url = url.concat("organizations/");
        let url = url.concat(self.organization_id.as_str());
        let url = url.concat("/environments/");
        let url = url.concat(self.environment_id.as_str());
        url.concat("/payments")
    }

    /// The address of the payment `payment_id`.
    pub fn payment_url(&self, payment_id: &str) -> (url: String)
        ensures
            url@ == self@.payment_url(payment_id@),
    {
        self.payments_url().concat("/").concat(payment_id)
    }

    /// The call that asks for an invoice of `amount_sats` under the id
    /// `payment_id`.
    pub fn create_game_invoice_as(
        &self,
        payment_id: &str,
        amount_sats: i64,
        description: Option<&str>,
    ) -> (call: ProviderCall)
        requires
            i64::MIN <= amount_sats * 1000 <= i64::MAX,
        ensures
            is_invoice_call(
                call,
                self@,
                payment_id@,
                amount_sats as int,
                opt_str(description),
            ),
    {
        let text = match description {
            Some(text) => text,
            None => "Asteroids Game Entry Fee",
        };
        ProviderCall {
            url: self.payments_url(),
            api_key: self.api_key.clone(),
            body: CallBody::Receive(
                ReceivePaymentRequest {
                    id: String::from_str(payment_id),
                    wallet_id: self.wallet_id.clone(),
                    currency: Currency::Btc,
                    amount_msats: Some(amount_sats * 1000),
                    payment_kind: PaymentKind::Bolt11,
                    description: Some(String::from_str(text)),
                },
            ),
        }
    }

    /// A fresh id for a payment: a version 7 UUID made of the time now, or
    /// the error of a request that cannot be made because the clock cannot
    /// be read as a time from 1970 on.
    pub fn new_payment_id() -> (r: Result<String, LightningError>)
        ensures
            match r {
                Ok(id) => is_uuid_v7_text(id@),
                Err(e) => clock_fault(e),
            },
    {
        let token = match current_time() {
            Ok(now) => new_token(&now),
            Err(e) => Err(e),
        };
        match token {
            Ok(id) => Ok(id),
            Err(_) => Err(
                LightningError::RequestError(String::from_str("System clock is out of range")),
            ),
        }
    }

    /// The call that asks for an invoice of `amount_sats`, under a fresh id.
    /// The id is returned with the call: it is what the payment is known by
    /// once the provider has accepted the call.
    pub fn create_game_invoice(&self, amount_sats: i64, description: Option<&str>) -> (r: Result<
        (String, ProviderCall),
        LightningError,
    >)
        requires
            i64::MIN <= amount_sats * 1000 <= i64::MAX,
        ensures
            match r {
                Ok((id, call)) => {
                    &&& is_uuid_v7_text(id@)
                    &&& is_invoice_call(
                        call,
                        self@,
                        id@,
                        amount_sats as int,
                        opt_str(description),
                    )
                },
                Err(e) => clock_fault(e),
            },
    {
        let payment_id = match Self::new_payment_id() {
            Ok(id) => id,
            Err(e) => {
                return Err(e);
            },
        };
        let call = self.create_game_invoice_as(payment_id.as_str(), amount_sats, description);
        Ok((payment_id, call))
    }

    /// Reads the answer to a request for an invoice.
    pub fn game_invoice_created(payment_id: String, reply: Result<HttpReply, String>) -> (out:
        Result<String, LightningError>)
        ensures
            invoice_outcome(payment_id@, reply, out),
    {
        match reply {
            Err(fault) => Err(LightningError::RequestError(fault)),
            Ok(answer) => {
                if 200 <= answer.status && answer.status < 300 {
                    Ok(payment_id)
                } else {
                    Err(
                        LightningError::ApiError(
                            concat2("Failed to create invoice: ", answer.body.as_str()),
                        ),
                    )
                }
            },
        }
    }

    /// The call that asks about the payment `payment_id`.
    pub fn get_payment_status(&self, payment_id: &str) -> (call: ProviderCall)
        ensures
            is_lookup_call(call, self@, payment_id@),
    {
        ProviderCall {
            url: self.payment_url(payment_id),
            api_key: self.api_key.clone(),
            body: CallBody::Nothing,
        }
    }

    /// Reads the answer to a question about a payment. The status is one
    /// that an HTTP answer can carry.
    pub fn payment_status_from(reply: Result<HttpReply, String>) -> (out: Result<
        Option<Payment>,
        LightningError,
    >)
        requires
            reply matches Ok(answer) ==> 100 <= answer.status <= 999,
        ensures
            status_outcome(reply, out),
    {
        match reply {
            Err(fault) => Err(LightningError::RequestError(fault)),
            Ok(answer) => {
                if answer.status == STATUS_NOT_FOUND {
                    Ok(None)
                } else if !(200 <= answer.status && answer.status < 300) {
                    let line = status_line_of(answer.status);
                    let detail = String::from_str("Failed to get payment status: ").concat(
                        line.as_str(),
                    ).concat(" - ").concat(answer.body.as_str());
                    Err(LightningError::ApiError(detail))
                } else {
                    match Payment::from_json(answer.body.as_str()) {
                        Ok(payment) => Ok(Some(payment)),
                        Err(fault) => Err(
                            LightningError::InvalidResponse(
                                concat2(
                                    "Failed to parse payment status response: ",
                                    fault.as_str(),
                                ),
                            ),
                        ),
                    }
                }
            },
        }
    }

    /// The call that asks for the invoice of the payment `payment_id`.
    pub fn get_payment_invoice(&self, payment_id: &str) -> (call: ProviderCall)
        ensures
            is_lookup_call(call, self@, payment_id@),
    {
        self.get_payment_status(payment_id)
    }

    /// Reads the answer to a question about an invoice: the invoice, or
    /// none while it is not there yet; an answer that describes no BOLT11
    /// payment to the wallet is an error, not a reason to ask again.
    pub fn payment_invoice_from(reply: Result<HttpReply, String>) -> (out: Result<
        Option<String>,
        LightningError,
    >)
        ensures
            invoice_lookup_outcome(reply, out),
    {
        match reply {
            Err(fault) => Err(LightningError::RequestError(fault)),
            Ok(answer) => {
                if answer.status == STATUS_NOT_FOUND {
                    Ok(None)
                } else if !(200 <= answer.status && answer.status < 300) {
                    Err(
                        LightningError::ApiError(
                            concat2("Failed to get payment details: ", answer.body.as_str()),
                        ),
                    )
                } else {
                    match Payment::from_json(answer.body.as_str()) {
                        Ok(payment) => match Self::extract_invoice_from_payment(&payment) {
                            Ok(invoice) => Ok(Some(invoice)),
                            Err(refused) => {
                                if Self::is_receive_payment(&payment) {
                                    Ok(None)
                                } else {
                                    Err(refused)
                                }
                            },
                        },
                        Err(fault) => Err(
                            LightningError::InvalidResponse(
                                concat2("Failed to parse payment response: ", fault.as_str()),
                            ),
                        ),
                    }
                }
            },
        }
    }

    /// Whether `payment` is a BOLT11 payment to the wallet.
    pub fn is_receive_payment(payment: &Payment) -> (r: bool)
        ensures
            r == is_receivable(payment@),
    {
        let bolt11 = match &payment.payment_type {
            Some(text) => str_eq(text.as_str(), "bolt11"),
            None => false,
        };
        let receive = match &payment.direction {
            Some(text) => str_eq(text.as_str(), "receive"),
            None => false,
        };
        bolt11 && receive
    }

    /// The invoice that `payment` carries. A payment that does not say what
    /// it is, or in which direction it goes, is refused as such; one that is
    /// no BOLT11 payment to the wallet, or carries no payment request, has
    /// no invoice.
    pub fn extract_invoice_from_payment(payment: &Payment) -> (out: Result<String, LightningError>)
        ensures
            match out {
                Ok(invoice) => invoice_of(payment@) == Some(invoice@),
                Err(e) => {
                    &&& invoice_of(payment@) is None
                    &&& e is PaymentError
                    &&& e.detail() == invoice_refusal(payment@)
                },
            },
    {
        let payment_type = match &payment.payment_type {
            Some(text) => text,
            None => {
                return Err(
                    LightningError::PaymentError(
                        String::from_str("Payment type not found or not a string"),
                    ),
                );
            },
        };
        let direction = match &payment.direction {
            Some(text) => text,
            None => {
                return Err(
                    LightningError::PaymentError(
                        String::from_str("Payment direction not found or not a string"),
                    ),
                );
            },
        };
        if str_eq(payment_type.as_str(), "bolt11") && str_eq(direction.as_str(), "receive") {
            match &payment.payment_request {
                Some(request) => {
                    return Ok(request.clone());
                },
                None => {},
            }
        }
        Err(LightningError::PaymentError(String::from_str("No invoice found in payment data")))
    }

    /// A wait for the payment `payment_id` of at most `timeout_secs`
    /// seconds. The caller runs it: `begin_round` at the start of each
    /// round, the call of `get_payment_status`, and `end_round` on the
    /// answer.
    pub fn wait_for_payment(payment_id: &str, timeout_secs: u64) -> (wait: PaymentWait)
        ensures
            wait.payment_id@ == payment_id@,
            wait.timeout_secs == timeout_secs,
    {
        PaymentWait { payment_id: String::from_str(payment_id), timeout_secs }
    }

    /// The call that pays `invoice` under the id `payment_id`, for no more
    /// than a hundredth of `amount_msats` in fees.
    pub fn pay_winner_invoice_as(
        &self,
        payment_id: &str,
        invoice: &str,
        amount_msats: i64,
    ) -> (call: ProviderCall)
        ensures
            is_payout_call(call, self@, payment_id@, invoice@, amount_msats as int),
    {
        let max_fee_msats: i64 = if amount_msats >= 0 {
            amount_msats / 100
        } else if amount_msats == i64::MIN {
            -92_233_720_368_547_758
        } else {
            -((-amount_msats) / 100)
        };
        ProviderCall {
            url: self.payments_url(),
            api_key: self.api_key.clone(),
            body: CallBody::Send(
                SendPaymentRequest {
                    id: String::from_str(payment_id),
                    wallet_id: self.wallet_id.clone(),
                    currency: Currency::Btc,
                    payment_type: PaymentKind::Bolt11,
                    data: SendPaymentData {
                        payment_request: String::from_str(invoice),
                        amount_msats: None,
                        max_fee_msats,
                    },
                },
            ),
        }
    }

    /// The call that pays `invoice`, under a fresh id, which is returned
    /// with the call.
    pub fn pay_winner_invoice(&self, invoice: &str, amount_msats: i64) -> (r: Result<
        (String, ProviderCall),
        LightningError,
    >)
        ensures
            match r {
                Ok((id, call)) => {
                    &&& is_uuid_v7_text(id@)
                    &&& is_payout_call(call, self@, id@, invoice@, amount_msats as int)
                },
                Err(e) => clock_fault(e),
            },
    {
        let payment_id = match Self::new_payment_id() {
            Ok(id) => id,
            Err(e) => {
                return Err(e);
            },
        };
        let call = self.pay_winner_invoice_as(payment_id.as_str(), invoice, amount_msats);
        Ok((payment_id, call))
    }

    /// Reads the answer to a payout, and sets up the wait for it. The status
    /// is one that an HTTP answer can carry.
    pub fn winner_payment_started(payment_id: &str, reply: Result<HttpReply, String>) -> (out:
        Result<PaymentWait, LightningError>)
        requires
            reply matches Ok(answer) ==> 100 <= answer.status <= 999,
        ensures
            payout_outcome(payment_id@, reply, out),
    {
        match reply {
            Err(fault) => Err(LightningError::RequestError(fault)),
            Ok(answer) => {
                if !(200 <= answer.status && answer.status < 300) {
                    let line = status_line_of(answer.status);
                    let detail = String::from_str("Failed to send payment: ").concat(
                        line.as_str(),
                    ).concat(" - ").concat(answer.body.as_str());
                    Err(LightningError::ApiError(detail))
                } else {
                    match Payment::from_json(answer.body.as_str()) {
                        Ok(payment) => {
                            let id = match payment.id {
                                Some(id) => id,
                                None => String::from_str(payment_id),
                            };
                            Ok(PaymentWait { payment_id: id, timeout_secs: PAYOUT_TIMEOUT_SECONDS })
                        },
                        Err(fault) => Err(
                            LightningError::InvalidResponse(
                                concat2("Failed to parse payment response: ", fault.as_str()),
                            ),
                        ),
                    }
                }
            },
        }
    }
}

} // verus!
