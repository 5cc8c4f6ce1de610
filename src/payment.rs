use vstd::prelude::*;
use vstd::string::*;
use vstd::utf8::encode_utf8;
use crate::amount::{Amount, decimal_parse, parse_decimal};
use crate::entitlement::{apply_plan, with_plan};
use crate::error::AppError;
use crate::ledger::{
    Ledger, Payment, PaymentProvider, PaymentStatus, ProviderSnapshot, Subscription, has_reference,
    copy_text_opt, references_unique,
};
use crate::plan::{PlanThresholds, plan_for, plan_for_amount};
use crate::text::{append_decimal, decimal_text, has_prefix, same_text, starts_with_text};

verus! {

/// The currencies that the mobile-money gateway settles in.
#[derive(PartialEq, Eq, Structural, Clone, Copy, Debug)]
pub enum Currency {
    Eur,
    Xaf,
    Xof,
}

/// The currency that a configured code selects; unknown codes select euros.
pub open spec fn currency_for_code(code: Seq<char>) -> Currency {
    if code == "XAF"@ {
        Currency::Xaf
    } else if code == "XOF"@ {
        Currency::Xof
    } else {
        Currency::Eur
    }
}

/// The ISO code of a currency.
pub open spec fn currency_code(c: Currency) -> Seq<char> {
    match c {
        Currency::Eur => "EUR"@,
        Currency::Xaf => "XAF"@,
        Currency::Xof => "XOF"@,
    }
}

impl Currency {
    /// The currency that a configured code selects; unknown codes select euros.
    pub fn from_code(code: &str) -> (r: Currency)
        ensures
            r == currency_for_code(code@),
    {
        if same_text(code, "XAF") {
            Currency::Xaf
        } else if same_text(code, "XOF") {
            Currency::Xof
        } else {
            Currency::Eur
        }
    }

    /// The ISO code of this currency.
    pub fn code(&self) -> (r: &'static str)
        ensures
            r@ == currency_code(*self),
    {
        match self {
            Currency::Eur => "EUR",
            Currency::Xaf => "XAF",
            Currency::Xof => "XOF",
        }
    }
}

/// A failure reported by the gateway client: network, timeout or a 5xx.
#[derive(Debug)]
pub struct GatewayError {
    pub message: String,
}

/// A validated payment intent, ready to be handed to the gateway.
#[derive(Debug)]
pub struct TransferRequest {
    /// The amount as the payer wrote it; the gateway receives this text.
    pub amount_text: String,
    pub amount: Amount,
    pub currency: Currency,
    pub payer_msisdn: String,
    pub payer_message: String,
    pub payee_note: String,
}

/// A payer number the gateway accepts: twelve bytes starting with the
/// country prefix `237`.
pub open spec fn valid_msisdn(s: Seq<char>) -> bool {
    has_prefix(s, "237"@) && encode_utf8(s).len() == 12
}

/// Whether `phone_number` is a payer number the gateway accepts.
pub fn is_valid_msisdn(phone_number: &str) -> (r: bool)
    ensures
        r == valid_msisdn(phone_number@),
{
    starts_with_text(phone_number, "237") && phone_number.as_bytes().len() == 12
}

/// The amount that a parsed decimal gives, when it is positive.
pub open spec fn positive_amount(parsed: Option<(i128, u32)>) -> Option<Amount> {
    match parsed {
        Some(p) => if p.0 > 0 {
            Some(Amount { mantissa: p.0, scale: p.1 })
        } else {
            None
        },
        None => None,
    }
}

/// Turns the parser's reading of an amount into an amount: a text that is
/// no decimal, and a value that is not above zero, are rejected.
pub fn amount_from_parsed(parsed: Option<(i128, u32)>) -> (r: Result<Amount, AppError>)
    ensures
        match parsed {
            Some(p) => if p.0 > 0 {
                r == Ok::<Amount, AppError>(Amount { mantissa: p.0, scale: p.1 })
            } else {
                r matches Err(AppError::InvalidInput(_))
            },
            None => r matches Err(AppError::InvalidInput(_)),
        },
{
    match parsed {
        None => Err(AppError::InvalidInput("Invalid amount format".to_string())),
        Some(p) => {
            if p.0 <= 0 {
                Err(AppError::InvalidInput("Amount must be greater than 0".to_string()))
            } else {
                Ok(Amount { mantissa: p.0, scale: p.1 })
            }
        },
    }
}

/// Whether the inputs of a payment intent are valid: a payer number the
/// gateway accepts and a positive decimal amount.
pub open spec fn valid_intent(amount: Seq<char>, phone_number: Seq<char>) -> bool {
    valid_msisdn(phone_number) && positive_amount(decimal_parse(amount)) is Some
}

/// Whether `t` is the transfer request that `prepare_payment` builds from
/// these inputs; such a request exists only for a valid intent.
pub open spec fn prepared_request(
    t: TransferRequest,
    amount: Seq<char>,
    phone_number: Seq<char>,
    payer_message: Seq<char>,
    payee_note: Seq<char>,
    currency: Currency,
) -> bool {
    &&& valid_msisdn(phone_number)
    &&& Some(t.amount) == positive_amount(decimal_parse(amount))
    &&& t.amount.wf()
    &&& t.amount_text@ == amount
    &&& t.currency == currency
    &&& t.payer_msisdn@ == phone_number
    &&& t.payer_message@ == payer_message
    &&& t.payee_note@ == payee_note
}

/// Validates a payment intent before any gateway call: the payer number
/// must be valid and the amount a positive decimal. Nothing is recorded.
pub fn prepare_payment(
    amount: &str,
    phone_number: &str,
    payer_message: &str,
    payee_note: &str,
    currency: Currency,
) -> (r: Result<TransferRequest, AppError>)
    ensures
        !valid_msisdn(phone_number@) ==> r matches Err(AppError::InvalidInput(_)),
        valid_msisdn(phone_number@) && positive_amount(decimal_parse(amount@)) is None ==> r matches Err(
            AppError::InvalidInput(_),
        ),
        valid_msisdn(phone_number@) && positive_amount(decimal_parse(amount@)) is Some <==> r is Ok,
        r matches Ok(t) ==> prepared_request(t, amount@, phone_number@, payer_message@, payee_note@, currency),
{
    if !is_valid_msisdn(phone_number) {
        return Err(AppError::InvalidInput("Invalid phone number format".to_string()));
    }
    let parsed = parse_decimal(amount);
    let value = amount_from_parsed(parsed);
    match value {
        Err(e) => Err(e),
        Ok(a) => Ok(
            TransferRequest {
                amount_text: amount.to_owned(),
                amount: a,
                currency,
                payer_msisdn: phone_number.to_owned(),
                payer_message: payer_message.to_owned(),
                payee_note: payee_note.to_owned(),
            },
        ),
    }
}

/// The system-side reference id of a payment: the gateway's reference, an
/// underscore, and the local disambiguator in decimal.
pub open spec fn reference_for(provider_reference: Seq<char>, stamp: int) -> Seq<char> {
    provider_reference + seq!['_'] + decimal_text(stamp)
}

/// Derives the system-side reference id from the gateway's reference and a
/// local disambiguator (a timestamp in milliseconds).
pub fn derive_reference_id(provider_reference: &str, stamp: i64) -> (r: String)
    ensures
        r@ == reference_for(provider_reference@, stamp as int),
{
    let mut out = String::new();
    out.append(provider_reference);
    proof {
        reveal_strlit("_");
    }
    out.append("_");
    append_decimal(&mut out, stamp);
    assert(out@ =~= reference_for(provider_reference@, stamp as int));
    out
}

/// Whether `s` records the reply `status` about the payment with these references.
pub open spec fn snapshot_of(
    s: ProviderSnapshot,
    reference_id: Seq<char>,
    provider_reference: Seq<char>,
    status: Seq<char>,
) -> bool {
    s.reference_id@ == reference_id && s.provider_reference_id@ == provider_reference && s.status@
        == status
}

/// Whether `p` is the pending record of request `t`, accepted by the gateway
/// under `provider_reference`, for `user_id`, at position `id`.
pub open spec fn pending_record(
    p: Payment,
    id: int,
    user_id: i32,
    t: TransferRequest,
    provider_reference: Seq<char>,
    stamp: int,
) -> bool {
    &&& p.id == id
    &&& p.user_id == user_id
    &&& p.reference_id@ == reference_for(provider_reference, stamp)
    &&& p.provider_reference_id@ == provider_reference
    &&& p.amount == t.amount
    &&& p.currency@ == currency_code(t.currency)
    &&& p.phone_number@ == t.payer_msisdn@
    &&& p.provider == PaymentProvider::MtnMomo
    &&& p.status == PaymentStatus::Pending
    &&& p.provider_response matches Some(s) && snapshot_of(
        s,
        reference_for(provider_reference, stamp),
        provider_reference,
        "PENDING"@,
    )
    &&& p.error_message is None
    &&& p.payer_message@ == t.payer_message@
    &&& p.payee_note@ == t.payee_note@
}

/// Whether `r` and the payments `after` are what recording the gateway's
/// `reply` to request `t` of `user_id` makes of the payments `before`: a
/// gateway failure records nothing; an accepted request whose derived
/// reference id is taken is a duplicate and records nothing; otherwise one
/// pending payment is appended.
pub open spec fn transfer_recorded(
    before: Seq<Payment>,
    after: Seq<Payment>,
    r: Result<Payment, AppError>,
    user_id: i32,
    t: TransferRequest,
    reply: Result<String, GatewayError>,
    stamp: int,
) -> bool {
    match reply {
        Err(_) => (r matches Err(AppError::GatewayUnavailable(_))) && after == before,
        Ok(pr) => if has_reference(before, reference_for(pr@, stamp)) {
            (r matches Err(AppError::DuplicateRequest(_))) && after == before
        } else {
            r matches Ok(p) && after == before.push(p) && pending_record(
                p,
                before.len() as int,
                user_id,
                t,
                pr@,
                stamp,
            )
        },
    }
}

/// Records the gateway's answer to a transfer request.
///
/// A gateway failure records nothing, so the caller may retry. An accepted
/// request gets the reference id derived from the gateway's reference and
/// `stamp`; if a payment already carries it the request is a duplicate and
/// nothing is recorded, otherwise one `Pending` payment is appended.
pub fn record_transfer(
    ledger: &mut Ledger,
    user_id: i32,
    request: &TransferRequest,
    gateway_reply: Result<String, GatewayError>,
    stamp: i64,
) -> (r: Result<Payment, AppError>)
    requires
        old(ledger).wf(),
        request.amount.wf(),
        request.amount.is_positive(),
    ensures
        final(ledger).wf(),
        final(ledger).subscriptions() == old(ledger).subscriptions(),
        final(ledger).documents() == old(ledger).documents(),
        transfer_recorded(
            old(ledger).payments(),
            final(ledger).payments(),
            r,
            user_id,
            *request,
            gateway_reply,
            stamp as int,
        ),
{
    match gateway_reply {
        Err(e) => {
            let mut m = String::new();
            m.append("Payment request failed: ");
            m.append(e.message.as_str());
            Err(AppError::GatewayUnavailable(m))
        },
        Ok(provider_reference) => {
            let reference_id = derive_reference_id(provider_reference.as_str(), stamp);
            if ledger.find_payment(reference_id.as_str()).is_some() {
                return Err(AppError::DuplicateRequest("Payment request already processed".to_string()));
            }
            proof {
                reveal_strlit("PENDING");
            }
            let p = Payment {
                id: ledger.payment_count() as u64,
                user_id,
                reference_id: reference_id.clone(),
                provider_reference_id: provider_reference.clone(),
                amount: request.amount,
                currency: request.currency.code().to_owned(),
                phone_number: request.payer_msisdn.clone(),
                provider: PaymentProvider::MtnMomo,
                status: PaymentStatus::Pending,
                provider_response: Some(
                    ProviderSnapshot {
                        reference_id,
                        provider_reference_id: provider_reference,
                        status: "PENDING".to_owned(),
                    },
                ),
                error_message: None,
                payer_message: request.payer_message.clone(),
                payee_note: request.payee_note.clone(),
            };
            let out = p.copy();
            ledger.insert_payment(p);
            Ok(out)
        },
    }
}

/// Requests a payment through `gateway`, the injected gateway client.
///
/// The intent is validated first: an invalid payer number or amount is
/// rejected with `InvalidInput`, nothing is recorded, and the gateway is not
/// called (it may be called only on the request that `prepare_payment`
/// builds, and for an invalid intent there is none). For a valid intent the
/// gateway is called once, on exactly that request, and its reply is
/// recorded as `record_transfer` records it: the result is a pending
/// payment, a gateway failure or a duplicate, never `InvalidInput`.
pub fn request_payment<G: FnOnce(&TransferRequest) -> Result<String, GatewayError>>(
    ledger: &mut Ledger,
    gateway: G,
    user_id: i32,
    amount: &str,
    phone_number: &str,
    payer_message: &str,
    payee_note: &str,
    currency: Currency,
    stamp: i64,
) -> (r: Result<Payment, AppError>)
    requires
        old(ledger).wf(),
        forall|t: &TransferRequest|
            #![trigger gateway.requires((t,))]
            prepared_request(*t, amount@, phone_number@, payer_message@, payee_note@, currency)
                ==> gateway.requires((t,)),
    ensures
        final(ledger).wf(),
        final(ledger).subscriptions() == old(ledger).subscriptions(),
        final(ledger).documents() == old(ledger).documents(),
        !valid_intent(amount@, phone_number@) ==> (r matches Err(AppError::InvalidInput(_)))
            && final(ledger).payments() == old(ledger).payments(),
        valid_intent(amount@, phone_number@) ==> !(r matches Err(AppError::InvalidInput(_))),
        valid_intent(amount@, phone_number@) ==> r is Ok || (r matches Err(
            AppError::GatewayUnavailable(_),
        )) || (r matches Err(AppError::DuplicateRequest(_))),
        valid_intent(amount@, phone_number@) ==> exists|
            t: TransferRequest,
            reply: Result<String, GatewayError>,
        |
            #![trigger transfer_recorded(old(ledger).payments(), final(ledger).payments(), r, user_id, t, reply, stamp as int)]
            prepared_request(t, amount@, phone_number@, payer_message@, payee_note@, currency)
                && gateway.ensures((&t,), reply) && transfer_recorded(
                old(ledger).payments(),
                final(ledger).payments(),
                r,
                user_id,
                t,
                reply,
                stamp as int,
            ),
        r matches Ok(p) ==> {
            &&& final(ledger).payments() == old(ledger).payments().push(p)
            &&& p.id == old(ledger).payments().len()
            &&& p.user_id == user_id
            &&& p.status == PaymentStatus::Pending
            &&& p.provider == PaymentProvider::MtnMomo
            &&& Some(p.amount) == positive_amount(decimal_parse(amount@))
            &&& p.phone_number@ == phone_number@
            &&& p.currency@ == currency_code(currency)
            &&& p.payer_message@ == payer_message@
            &&& p.payee_note@ == payee_note@
            &&& p.reference_id@ == reference_for(p.provider_reference_id@, stamp as int)
        },
{
    let request = match prepare_payment(amount, phone_number, payer_message, payee_note, currency) {
        Err(e) => {
            return Err(e);
        },
        Ok(t) => t,
    };
    let reply = gateway(&request);
    let ghost seen = reply;
    let r = record_transfer(ledger, user_id, &request, reply, stamp);
    assert(transfer_recorded(old(ledger).payments(), ledger.payments(), r, user_id, request, seen, stamp as int));
    r
}

/// A request that the gateway accepted adds exactly one payment, pending,
/// and leaves the earlier ones as they were; afterwards its derived reference
/// id is taken, so the same request a second time is a duplicate.
pub proof fn lemma_accepted_request_recorded_once(
    ps: Seq<Payment>,
    p: Payment,
    user_id: i32,
    t: TransferRequest,
    provider_reference: Seq<char>,
    stamp: int,
)
    requires
        !has_reference(ps, reference_for(provider_reference, stamp)),
        pending_record(p, ps.len() as int, user_id, t, provider_reference, stamp),
    ensures
        ps.push(p).len() == ps.len() + 1,
        ps.push(p).last().status == PaymentStatus::Pending,
        forall|i: int| 0 <= i < ps.len() ==> ps.push(p)[i] == ps[i],
        has_reference(ps.push(p), reference_for(provider_reference, stamp)),
{
    assert(ps.push(p)[ps.len() as int] == p);
}

/// The local status for a status word of the gateway: the exact words
/// `SUCCESSFUL`, `FAILED` and `CANCELLED`; any other word means pending.
pub open spec fn status_from_provider(s: Seq<char>) -> PaymentStatus {
    if s == "SUCCESSFUL"@ {
        PaymentStatus::Successful
    } else if s == "FAILED"@ {
        PaymentStatus::Failed
    } else if s == "CANCELLED"@ {
        PaymentStatus::Cancelled
    } else {
        PaymentStatus::Pending
    }
}

/// Maps a status word of the gateway to the local status.
pub fn map_provider_status(s: &str) -> (r: PaymentStatus)
    ensures
        r == status_from_provider(s@),
{
    if same_text(s, "SUCCESSFUL") {
        PaymentStatus::Successful
    } else if same_text(s, "FAILED") {
        PaymentStatus::Failed
    } else if same_text(s, "CANCELLED") {
        PaymentStatus::Cancelled
    } else {
        PaymentStatus::Pending
    }
}

/// The status after a check: a terminal status is final; a pending payment
/// takes the status the gateway reports, or `Failed` when the gateway could
/// not be asked (`None`).
pub open spec fn status_after_check(cur: PaymentStatus, observed: Option<PaymentStatus>) -> PaymentStatus {
    if cur.terminal() {
        cur
    } else {
        match observed {
            Some(o) => o,
            None => PaymentStatus::Failed,
        }
    }
}

/// The status after a check, as `status_after_check` gives it.
pub fn next_status(cur: PaymentStatus, observed: Option<PaymentStatus>) -> (r: PaymentStatus)
    ensures
        r == status_after_check(cur, observed),
{
    if cur.is_terminal() {
        cur
    } else {
        match observed {
            Some(o) => o,
            None => PaymentStatus::Failed,
        }
    }
}

/// Checks never move a payment backwards: a terminal status is kept by a
/// check whatever the gateway answers, so it never returns to `Pending`, and
/// once a check has made a status terminal every later check keeps it.
pub proof fn lemma_status_checks_monotonic(
    cur: PaymentStatus,
    first: Option<PaymentStatus>,
    second: Option<PaymentStatus>,
)
    ensures
        cur.terminal() ==> status_after_check(cur, first) == cur,
        cur.terminal() ==> !(status_after_check(cur, first) is Pending),
        status_after_check(cur, first).terminal() ==> status_after_check(
            status_after_check(cur, first),
            second,
        ) == status_after_check(cur, first),
{
}

/// The position of the payment with reference id `r`, if there is one.
pub open spec fn reference_index(ps: Seq<Payment>, r: Seq<char>) -> int {
    if has_reference(ps, r) {
        choose|i: int| 0 <= i < ps.len() && (#[trigger] ps[i]).reference_id@ == r
    } else {
        -1
    }
}

proof fn lemma_reference_index(ps: Seq<Payment>, r: Seq<char>, i: int)
    requires
        references_unique(ps),
        0 <= i < ps.len(),
        ps[i].reference_id@ == r,
    ensures
        has_reference(ps, r),
        reference_index(ps, r) == i,
{
    assert(has_reference(ps, r));
    let k = reference_index(ps, r);
    if k != i {
        if k < i {
            assert(ps[k].reference_id@ != ps[i].reference_id@);
        } else {
            assert(ps[i].reference_id@ != ps[k].reference_id@);
        }
    }
}

/// The gateway's own transaction id of the payment `reference_id`: what the
/// gateway's status query is about. A reference that no payment carries is
/// not found.
pub fn status_query(ledger: &Ledger, reference_id: &str) -> (r: Result<String, AppError>)
    requires
        ledger.wf(),
    ensures
        !has_reference(ledger.payments(), reference_id@) ==> r matches Err(AppError::NotFound(_)),
        has_reference(ledger.payments(), reference_id@) ==> match r {
            Ok(x) => x@ == ledger.payments()[reference_index(
                ledger.payments(),
                reference_id@,
            )].provider_reference_id@,
            Err(_) => false,
        },
{
    match ledger.find_payment(reference_id) {
        None => Err(AppError::NotFound("Payment not found".to_string())),
        Some(i) => {
            proof {
                lemma_reference_index(ledger.payments(), reference_id@, i as int);
            }
            Ok(ledger.payment_at(i).provider_reference_id.clone())
        },
    }
}

/// The message recorded when the gateway could not be asked.
pub open spec fn check_failure_message(gateway_message: Seq<char>) -> Seq<char> {
    "Status check failed: "@ + gateway_message
}

/// Whether `p` is `cur` after a check that the gateway answered with `word`:
/// only the status and the recorded snapshot differ.
pub open spec fn checked_record(
    p: Payment,
    cur: Payment,
    status: PaymentStatus,
    reference_id: Seq<char>,
    word: Seq<char>,
) -> bool {
    &&& p == Payment { status, provider_response: p.provider_response, ..cur }
    &&& match p.provider_response {
        Some(snap) => snapshot_of(snap, reference_id, cur.provider_reference_id@, word),
        None => false,
    }
}

/// Whether `p` is `cur` after a check the gateway did not answer: only the
/// status, now `Failed`, and the recorded message differ.
pub open spec fn failed_check_record(p: Payment, cur: Payment, message: Seq<char>) -> bool {
    &&& p == Payment { status: PaymentStatus::Failed, error_message: p.error_message, ..cur }
    &&& match p.error_message {
        Some(m) => m@ == message,
        None => false,
    }
}

/// Reconciles the payment `reference_id` with the gateway's answer about it.
///
/// With an answer, the payment takes the status that `status_after_check`
/// gives and records a snapshot of the answer; when that status is
/// `Successful`, the owner is put on the plan that the amount grants (again,
/// if it was already successful, which repairs a lost entitlement update).
/// Without an answer, a pending payment becomes `Failed` with the gateway's
/// message recorded, a terminal one is left as it is, and the error is
/// reported.
pub fn check_payment_status(
    ledger: &mut Ledger,
    thresholds: &PlanThresholds,
    reference_id: &str,
    gateway_reply: Result<String, GatewayError>,
) -> (r: Result<Payment, AppError>)
    requires
        old(ledger).wf(),
    ensures
        final(ledger).wf(),
        final(ledger).documents() == old(ledger).documents(),
        !has_reference(old(ledger).payments(), reference_id@) ==> (r matches Err(AppError::NotFound(_)))
            && final(ledger).payments() == old(ledger).payments()
            && final(ledger).subscriptions() == old(ledger).subscriptions(),
        has_reference(old(ledger).payments(), reference_id@) ==> {
            let i = reference_index(old(ledger).payments(), reference_id@);
            let cur = old(ledger).payments()[i];
            match gateway_reply {
                Ok(word) => {
                    let status = status_after_check(cur.status, Some(status_from_provider(word@)));
                    &&& r matches Ok(p)
                    &&& final(ledger).payments() == old(ledger).payments().update(i, p)
                    &&& checked_record(p, cur, status, reference_id@, word@)
                    &&& status is Successful ==> final(ledger).subscriptions() == with_plan(
                        old(ledger).subscriptions(),
                        cur.user_id,
                        plan_for(*thresholds, cur.amount),
                    )
                    &&& !(status is Successful) ==> final(ledger).subscriptions() == old(ledger).subscriptions()
                },
                Err(e) => {
                    &&& r matches Err(AppError::GatewayUnavailable(m)) && m@ == check_failure_message(e.message@)
                    &&& final(ledger).subscriptions() == old(ledger).subscriptions()
                    &&& cur.status.terminal() ==> final(ledger).payments() == old(ledger).payments()
                    &&& !cur.status.terminal() ==> final(ledger).payments() == old(ledger).payments().update(
                        i,
                        final(ledger).payments()[i],
                    ) && failed_check_record(final(ledger).payments()[i], cur, check_failure_message(e.message@))
                },
            }
        },
{
    let found = ledger.find_payment(reference_id);
    let i = match found {
        None => {
            return Err(AppError::NotFound("Payment not found".to_string()));
        },
        Some(i) => i,
    };
    proof {
        lemma_reference_index(ledger.payments(), reference_id@, i as int);
    }
    let cur = ledger.payment_at(i);
    let user_id = cur.user_id;
    let amount = cur.amount;
    match gateway_reply {
        Ok(word) => {
            let observed = map_provider_status(word.as_str());
            let status = next_status(cur.status, Some(observed));
            let snap = ProviderSnapshot {
                reference_id: reference_id.to_owned(),
                provider_reference_id: cur.provider_reference_id.clone(),
                status: word,
            };
            let p = Payment {
                id: cur.id,
                user_id: cur.user_id,
                reference_id: cur.reference_id.clone(),
                provider_reference_id: cur.provider_reference_id.clone(),
                amount: cur.amount,
                currency: cur.currency.clone(),
                phone_number: cur.phone_number.clone(),
                provider: cur.provider,
                status,
                provider_response: Some(snap),
                error_message: copy_text_opt(&cur.error_message),
                payer_message: cur.payer_message.clone(),
                payee_note: cur.payee_note.clone(),
            };
            let out = p.copy();
            ledger.replace_payment(i, p);
            if matches!(status, PaymentStatus::Successful) {
                let plan = plan_for_amount(thresholds, &amount);
                apply_plan(ledger, user_id, plan);
            }
            Ok(out)
        },
        Err(e) => {
            let mut m = String::new();
            m.append("Status check failed: ");
            m.append(e.message.as_str());
            if !cur.status.is_terminal() {
                let p = Payment {
                    id: cur.id,
                    user_id: cur.user_id,
                    reference_id: cur.reference_id.clone(),
                    provider_reference_id: cur.provider_reference_id.clone(),
                    amount: cur.amount,
                    currency: cur.currency.clone(),
                    phone_number: cur.phone_number.clone(),
                    provider: cur.provider,
                    status: PaymentStatus::Failed,
                    provider_response: match &cur.provider_response {
                        Some(s) => Some(s.copy()),
                        None => None,
                    },
                    error_message: Some(m.clone()),
                    payer_message: cur.payer_message.clone(),
                    payee_note: cur.payee_note.clone(),
                };
                ledger.replace_payment(i, p);
            }
            Err(AppError::GatewayUnavailable(m))
        },
    }
}

/// Replays the entitlement of the successful payment `reference_id`: its
/// owner is put on the plan that its amount grants, as the status check did.
/// This closes the gap left when a payment was confirmed but its
/// entitlement update was lost, and repeating it changes nothing more. A
/// payment that is not successful grants nothing and is refused.
pub fn replay_entitlement(
    ledger: &mut Ledger,
    thresholds: &PlanThresholds,
    reference_id: &str,
) -> (r: Result<Subscription, AppError>)
    requires
        old(ledger).wf(),
    ensures
        final(ledger).wf(),
        final(ledger).payments() == old(ledger).payments(),
        final(ledger).documents() == old(ledger).documents(),
        !has_reference(old(ledger).payments(), reference_id@) ==> (r matches Err(AppError::NotFound(_)))
            && final(ledger).subscriptions() == old(ledger).subscriptions(),
        has_reference(old(ledger).payments(), reference_id@) ==> {
            let cur = old(ledger).payments()[reference_index(old(ledger).payments(), reference_id@)];
            if cur.status is Successful {
                let plan = plan_for(*thresholds, cur.amount);
                &&& final(ledger).subscriptions() == with_plan(old(ledger).subscriptions(), cur.user_id, plan)
                &&& r matches Ok(s) && s.user_id == cur.user_id && s.plan == plan
            } else {
                (r matches Err(AppError::InvalidInput(_))) && final(ledger).subscriptions() == old(
                    ledger,
                ).subscriptions()
            }
        },
{
    let i = match ledger.find_payment(reference_id) {
        None => {
            return Err(AppError::NotFound("Payment not found".to_string()));
        },
        Some(i) => i,
    };
    proof {
        lemma_reference_index(ledger.payments(), reference_id@, i as int);
    }
    let cur = ledger.payment_at(i);
    if !matches!(cur.status, PaymentStatus::Successful) {
        return Err(AppError::InvalidInput("Payment is not successful".to_string()));
    }
    let user_id = cur.user_id;
    let plan = plan_for_amount(thresholds, &cur.amount);
    Ok(apply_plan(ledger, user_id, plan))
}

} // verus!
