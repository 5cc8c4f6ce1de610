use vstd::prelude::*;
use crate::entitlement::{set_provider_status, with_status};
use crate::error::AppError;
use crate::ledger::{Ledger, SubscriptionStatus, linked_to};
use crate::text::same_text;

verus! {

/// What a callback of the billing provider says, once its signature has been
/// verified, as far as entitlements are concerned.
#[derive(Debug)]
pub enum WebhookEvent {
    /// The provider's subscription changed; `status` is the provider's word.
    SubscriptionUpdated { provider_subscription_id: String, status: String },
    /// The provider's subscription ended; `status` is the provider's word.
    SubscriptionDeleted { provider_subscription_id: String, status: String },
    /// Any other event: acknowledged and ignored.
    Other,
}

/// Why a callback was not accepted: its signature, secret or timestamp did
/// not verify, or its body was unreadable.
#[derive(Debug)]
pub struct WebhookRejection {
    pub reason: String,
}

/// The local status for a subscription status word of the provider: the
/// exact words `active` and `canceled`; any other word means inactive.
pub open spec fn subscription_status_from_provider(s: Seq<char>) -> SubscriptionStatus {
    if s == "active"@ {
        SubscriptionStatus::Active
    } else if s == "canceled"@ {
        SubscriptionStatus::Canceled
    } else {
        SubscriptionStatus::Inactive
    }
}

/// Maps a subscription status word of the provider to the local status.
pub fn map_subscription_status(s: &str) -> (r: SubscriptionStatus)
    ensures
        r == subscription_status_from_provider(s@),
{
    if same_text(s, "active") {
        SubscriptionStatus::Active
    } else if same_text(s, "canceled") {
        SubscriptionStatus::Canceled
    } else {
        SubscriptionStatus::Inactive
    }
}

/// Acts on a callback whose signature check came out as `verified`.
///
/// A callback that did not verify is rejected and changes nothing. A
/// subscription update or deletion records the provider's status on the row
/// linked to that provider subscription, if any; the result says whether a
/// row was linked. Other events change nothing.
pub fn apply_webhook(ledger: &mut Ledger, verified: Result<WebhookEvent, WebhookRejection>) -> (r:
    Result<bool, AppError>)
    requires
        old(ledger).wf(),
    ensures
        final(ledger).wf(),
        final(ledger).payments() == old(ledger).payments(),
        final(ledger).documents() == old(ledger).documents(),
        match verified {
            Err(_) => (r matches Err(AppError::InvalidInput(_)))
                && final(ledger).subscriptions() == old(ledger).subscriptions(),
            Ok(WebhookEvent::Other) => r == Ok::<bool, AppError>(false)
                && final(ledger).subscriptions() == old(ledger).subscriptions(),
            Ok(WebhookEvent::SubscriptionUpdated { provider_subscription_id, status })
            | Ok(WebhookEvent::SubscriptionDeleted { provider_subscription_id, status }) => {
                let st = subscription_status_from_provider(status@);
                let ss = old(ledger).subscriptions();
                &&& r == Ok::<bool, AppError>(
                    exists|i: int| 0 <= i < ss.len() && linked_to(#[trigger] ss[i], provider_subscription_id@),
                )
                &&& r == Ok::<bool, AppError>(false) ==> final(ledger).subscriptions() == ss
                &&& r == Ok::<bool, AppError>(true) ==> exists|i: int|
                    0 <= i < ss.len() && linked_to(ss[i], provider_subscription_id@) && (forall|j: int|
                        0 <= j < i ==> !linked_to(#[trigger] ss[j], provider_subscription_id@))
                        && final(ledger).subscriptions() == ss.update(i, with_status(ss[i], st))
            },
        },
{
    match verified {
        Err(_) => Err(AppError::InvalidInput("Invalid webhook signature".to_string())),
        Ok(WebhookEvent::Other) => Ok(false),
        Ok(WebhookEvent::SubscriptionUpdated { provider_subscription_id, status })
        | Ok(WebhookEvent::SubscriptionDeleted { provider_subscription_id, status }) => {
            let st = map_subscription_status(status.as_str());
            let linked = set_provider_status(ledger, provider_subscription_id.as_str(), st);
            Ok(linked)
        },
    }
}

} // verus!
