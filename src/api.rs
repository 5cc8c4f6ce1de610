use vstd::prelude::*;
use crate::error::AppError;
use crate::ledger::{Payment, PaymentStatus};
use crate::amount::decimal_parse;
use crate::payment::{Currency, TransferRequest, positive_amount, prepare_payment, valid_msisdn};
use crate::plan::Plan;

verus! {

/// A client's payment intent, as a transport layer receives it.
#[derive(Debug)]
pub struct PaymentRequest {
    pub amount: String,
    pub phone_number: String,
    pub payer_message: String,
    pub payee_note: String,
}

/// What a client is told about a payment.
#[derive(Debug)]
pub struct PaymentResponse {
    pub reference_id: String,
    pub status: String,
}

/// A request to put a user on a named plan.
#[derive(Debug)]
pub struct SubscriptionUpdate {
    pub user_id: i32,
    pub plan: String,
}

/// A request to open a paid subscription with the billing provider.
#[derive(Debug)]
pub struct CreateSubscriptionRequest {
    pub plan: Plan,
}

/// The descriptive part of an upload.
#[derive(Debug)]
pub struct CreateDocumentRequest {
    pub filename: String,
    pub mime_type: String,
}

/// The caller that the transport layer authenticated.
#[derive(Debug)]
pub struct AuthenticatedUser {
    pub id: i32,
    pub email: String,
}

/// The id of the authenticated caller.
#[derive(Debug)]
pub struct UserId(pub i32);

/// Credentials presented at login.
#[derive(Debug)]
pub struct LoginRequest {
    pub email: String,
    pub password: String,
}

/// The token issued at login.
#[derive(Debug)]
pub struct LoginResponse {
    pub token: String,
}

/// The details of a new account.
#[derive(Debug)]
pub struct RegisterRequest {
    pub email: String,
    pub password: String,
    pub full_name: String,
}

/// The name under which a payment status is reported.
pub open spec fn status_name(s: PaymentStatus) -> Seq<char> {
    match s {
        PaymentStatus::Pending => "Pending"@,
        PaymentStatus::Successful => "Successful"@,
        PaymentStatus::Failed => "Failed"@,
        PaymentStatus::Cancelled => "Cancelled"@,
    }
}

/// The name under which a payment status is reported.
pub fn payment_status_name(s: PaymentStatus) -> (r: &'static str)
    ensures
        r@ == status_name(s),
{
    match s {
        PaymentStatus::Pending => "Pending",
        PaymentStatus::Successful => "Successful",
        PaymentStatus::Failed => "Failed",
        PaymentStatus::Cancelled => "Cancelled",
    }
}

impl PaymentResponse {
    /// The report of a payment: its reference id and its status name.
    pub fn from_payment(p: &Payment) -> (r: PaymentResponse)
        ensures
            r.reference_id@ == p.reference_id@,
            r.status@ == status_name(p.status),
    {
        PaymentResponse {
            reference_id: p.reference_id.clone(),
            status: payment_status_name(p.status).to_owned(),
        }
    }
}

impl PaymentRequest {
    /// Validates this intent for the gateway in `currency`, as
    /// `prepare_payment` does.
    pub fn prepare(&self, currency: Currency) -> (r: Result<TransferRequest, AppError>)
        ensures
            r is Ok <==> valid_msisdn(self.phone_number@) && positive_amount(
                decimal_parse(self.amount@),
            ) is Some,
            r matches Ok(t) ==> Some(t.amount) == positive_amount(decimal_parse(self.amount@))
                && t.amount_text@ == self.amount@ && t.payer_msisdn@
                == self.phone_number@ && t.payer_message@ == self.payer_message@ && t.payee_note@
                == self.payee_note@ && t.currency == currency,
    {
        prepare_payment(
            self.amount.as_str(),
            self.phone_number.as_str(),
            self.payer_message.as_str(),
            self.payee_note.as_str(),
            currency,
        )
    }
}

} // verus!
