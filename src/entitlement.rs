use vstd::prelude::*;
use crate::error::AppError;
use crate::ledger::{
    Ledger, Subscription, SubscriptionStatus, copy_text_opt, has_subscriber, subscriber_index,
    subscriptions_consistent, lemma_subscriber_index, linked_to,
};
use crate::plan::{Plan, plan_named, storage_limit_of};

verus! {

/// `s` moved to plan `p`, with the storage limit of `p`, and active.
pub open spec fn activated(s: Subscription, p: Plan) -> Subscription {
    Subscription {
        plan: p,
        storage_limit_bytes: storage_limit_of(p),
        status: SubscriptionStatus::Active,
        ..s
    }
}

/// The row created for a user who has none yet.
pub open spec fn fresh_subscription(
    id: int,
    user_id: i32,
    p: Plan,
    status: SubscriptionStatus,
) -> Subscription {
    Subscription {
        id: id as u64,
        user_id,
        plan: p,
        storage_limit_bytes: storage_limit_of(p),
        status,
        provider_customer_id: None,
        provider_subscription_id: None,
    }
}

/// The subscriptions after `user_id` is put on plan `p`: the user's row is
/// updated in place, or a new active row is appended.
pub open spec fn with_plan(ss: Seq<Subscription>, user_id: i32, p: Plan) -> Seq<Subscription> {
    if has_subscriber(ss, user_id) {
        let i = subscriber_index(ss, user_id);
        ss.update(i, activated(ss[i], p))
    } else {
        ss.push(fresh_subscription(ss.len() as int, user_id, p, SubscriptionStatus::Active))
    }
}

/// The subscriptions after a user is given a row if they had none: the free
/// tier, inactive.
pub open spec fn with_default(ss: Seq<Subscription>, user_id: i32) -> Seq<Subscription> {
    if has_subscriber(ss, user_id) {
        ss
    } else {
        ss.push(fresh_subscription(ss.len() as int, user_id, Plan::Free, SubscriptionStatus::Inactive))
    }
}

/// `s` after a cancellation: the free tier, canceled, unlinked from the
/// provider's subscription.
pub open spec fn canceled(s: Subscription) -> Subscription {
    Subscription {
        plan: Plan::Free,
        storage_limit_bytes: storage_limit_of(Plan::Free),
        status: SubscriptionStatus::Canceled,
        provider_subscription_id: None,
        ..s
    }
}

/// `s` after the provider reports status `st`; a cancellation also degrades
/// the row to the free tier.
pub open spec fn with_status(s: Subscription, st: SubscriptionStatus) -> Subscription {
    if st is Canceled {
        Subscription {
            plan: Plan::Free,
            storage_limit_bytes: storage_limit_of(Plan::Free),
            status: st,
            ..s
        }
    } else {
        Subscription { status: st, ..s }
    }
}

proof fn lemma_update_consistent(ss: Seq<Subscription>, i: int, s: Subscription)
    requires
        subscriptions_consistent(ss),
        0 <= i < ss.len(),
        s.user_id == ss[i].user_id,
        s.storage_limit_bytes == storage_limit_of(s.plan),
    ensures
        subscriptions_consistent(ss.update(i, s)),
{
    let t = ss.update(i, s);
    assert forall|a: int, b: int| 0 <= a < b < t.len() implies (#[trigger] t[a]).user_id != (
    #[trigger] t[b]).user_id by {
        assert(t[a].user_id == ss[a].user_id);
        assert(t[b].user_id == ss[b].user_id);
    }
}

proof fn lemma_push_consistent(ss: Seq<Subscription>, s: Subscription)
    requires
        subscriptions_consistent(ss),
        !has_subscriber(ss, s.user_id),
        s.storage_limit_bytes == storage_limit_of(s.plan),
    ensures
        subscriptions_consistent(ss.push(s)),
{
    let t = ss.push(s);
    assert forall|a: int, b: int| 0 <= a < b < t.len() implies (#[trigger] t[a]).user_id != (
    #[trigger] t[b]).user_id by {
        if b == ss.len() {
            assert(t[a] == ss[a]);
        }
    }
}

/// Puts `user_id` on `plan` in one step: the existing row gets the plan, its
/// storage limit and the active status, or a new active row is created.
/// Returns the user's row as it now stands.
pub fn apply_plan(ledger: &mut Ledger, user_id: i32, plan: Plan) -> (r: Subscription)
    requires
        old(ledger).wf(),
    ensures
        final(ledger).wf(),
        final(ledger).subscriptions() == with_plan(old(ledger).subscriptions(), user_id, plan),
        final(ledger).payments() == old(ledger).payments(),
        final(ledger).documents() == old(ledger).documents(),
        has_subscriber(final(ledger).subscriptions(), user_id),
        r == final(ledger).subscriptions()[subscriber_index(final(ledger).subscriptions(), user_id)],
        r.user_id == user_id,
        r.plan == plan,
        r.storage_limit_bytes == storage_limit_of(plan),
        r.status is Active,
{
    match ledger.find_subscription(user_id) {
        Some(i) => {
            let cur = ledger.subscription_at(i);
            let s = Subscription {
                id: cur.id,
                user_id,
                plan,
                storage_limit_bytes: plan.storage_limit_bytes(),
                status: SubscriptionStatus::Active,
                provider_customer_id: copy_text_opt(&cur.provider_customer_id),
                provider_subscription_id: copy_text_opt(&cur.provider_subscription_id),
            };
            let out = s.copy();
            ledger.replace_subscription(i, s);
            proof {
                lemma_subscriber_index(ledger.subscriptions(), user_id, i as int);
            }
            out
        },
        None => {
            let id = ledger.subscription_count() as u64;
            let s = Subscription {
                id,
                user_id,
                plan,
                storage_limit_bytes: plan.storage_limit_bytes(),
                status: SubscriptionStatus::Active,
                provider_customer_id: None,
                provider_subscription_id: None,
            };
            let out = s.copy();
            ledger.insert_subscription(s);
            proof {
                let n = ledger.subscriptions().len() - 1;
                assert(ledger.subscriptions()[n] == out);
                lemma_subscriber_index(ledger.subscriptions(), user_id, n);
            }
            out
        },
    }
}

/// Applying the same plan twice leaves the subscriptions as one application
/// left them: the plan, the storage limit and every other field are unchanged
/// by the second call.
pub proof fn lemma_apply_plan_idempotent(ss: Seq<Subscription>, user_id: i32, p: Plan)
    requires
        subscriptions_consistent(ss),
    ensures
        subscriptions_consistent(with_plan(ss, user_id, p)),
        with_plan(with_plan(ss, user_id, p), user_id, p) == with_plan(ss, user_id, p),
{
    let once = with_plan(ss, user_id, p);
    if has_subscriber(ss, user_id) {
        let i = subscriber_index(ss, user_id);
        lemma_update_consistent(ss, i, activated(ss[i], p));
        lemma_subscriber_index(once, user_id, i);
        assert(activated(once[i], p) == once[i]);
        assert(once.update(i, activated(once[i], p)) =~= once);
    } else {
        let n = ss.len() as int;
        let s = fresh_subscription(n, user_id, p, SubscriptionStatus::Active);
        lemma_push_consistent(ss, s);
        assert(once[n] == s);
        lemma_subscriber_index(once, user_id, n);
        assert(activated(once[n], p) == once[n]);
        assert(once.update(n, activated(once[n], p)) =~= once);
    }
}

/// The user's row, created on first access as an inactive free-tier row.
pub fn ensure_subscription(ledger: &mut Ledger, user_id: i32) -> (r: Subscription)
    requires
        old(ledger).wf(),
    ensures
        final(ledger).wf(),
        final(ledger).subscriptions() == with_default(old(ledger).subscriptions(), user_id),
        final(ledger).payments() == old(ledger).payments(),
        final(ledger).documents() == old(ledger).documents(),
        has_subscriber(final(ledger).subscriptions(), user_id),
        r == final(ledger).subscriptions()[subscriber_index(final(ledger).subscriptions(), user_id)],
{
    match ledger.find_subscription(user_id) {
        Some(i) => ledger.subscription_at(i).copy(),
        None => {
            let id = ledger.subscription_count() as u64;
            let s = Subscription {
                id,
                user_id,
                plan: Plan::Free,
                storage_limit_bytes: Plan::Free.storage_limit_bytes(),
                status: SubscriptionStatus::Inactive,
                provider_customer_id: None,
                provider_subscription_id: None,
            };
            let out = s.copy();
            ledger.insert_subscription(s);
            proof {
                let n = ledger.subscriptions().len() - 1;
                assert(ledger.subscriptions()[n] == out);
                lemma_subscriber_index(ledger.subscriptions(), user_id, n);
            }
            out
        },
    }
}

/// The row of `user_id`; a user without one is not found.
pub fn get_user_subscription(ledger: &Ledger, user_id: i32) -> (r: Result<Subscription, AppError>)
    requires
        ledger.wf(),
    ensures
        !has_subscriber(ledger.subscriptions(), user_id) ==> r matches Err(AppError::NotFound(_)),
        has_subscriber(ledger.subscriptions(), user_id) ==> r == Ok::<Subscription, AppError>(
            ledger.subscriptions()[subscriber_index(ledger.subscriptions(), user_id)],
        ),
{
    match ledger.find_subscription(user_id) {
        None => Err(AppError::NotFound("Subscription not found".to_string())),
        Some(i) => Ok(ledger.subscription_at(i).copy()),
    }
}

/// Puts `user_id` on the plan named `plan_name` (`none`, `basic`, `premium`
/// or `enterprise`); any other name is rejected and nothing changes.
pub fn update_subscription(ledger: &mut Ledger, user_id: i32, plan_name: &str) -> (r: Result<
    Subscription,
    AppError,
>)
    requires
        old(ledger).wf(),
    ensures
        final(ledger).wf(),
        final(ledger).payments() == old(ledger).payments(),
        final(ledger).documents() == old(ledger).documents(),
        plan_named(plan_name@) is None ==> (r matches Err(AppError::InvalidInput(_)))
            && final(ledger).subscriptions() == old(ledger).subscriptions(),
        plan_named(plan_name@) matches Some(p) ==> r is Ok && final(ledger).subscriptions()
            == with_plan(old(ledger).subscriptions(), user_id, p),
        r matches Ok(s) ==> s == final(ledger).subscriptions()[subscriber_index(
            final(ledger).subscriptions(),
            user_id,
        )],
{
    match Plan::from_name(plan_name) {
        Some(p) => Ok(apply_plan(ledger, user_id, p)),
        None => Err(AppError::InvalidInput("Invalid plan".to_string())),
    }
}

/// Cancels the user's entitlement locally: the row drops to the free tier,
/// becomes canceled and loses its provider subscription link.
pub fn cancel_subscription(ledger: &mut Ledger, user_id: i32) -> (r: Result<Subscription, AppError>)
    requires
        old(ledger).wf(),
    ensures
        final(ledger).wf(),
        final(ledger).payments() == old(ledger).payments(),
        final(ledger).documents() == old(ledger).documents(),
        !has_subscriber(old(ledger).subscriptions(), user_id) ==> (r matches Err(
            AppError::NotFound(_),
        )) && final(ledger).subscriptions() == old(ledger).subscriptions(),
        has_subscriber(old(ledger).subscriptions(), user_id) ==> {
            let i = subscriber_index(old(ledger).subscriptions(), user_id);
            &&& final(ledger).subscriptions() == old(ledger).subscriptions().update(
                i,
                canceled(old(ledger).subscriptions()[i]),
            )
            &&& r == Ok::<Subscription, AppError>(canceled(old(ledger).subscriptions()[i]))
        },
{
    match ledger.find_subscription(user_id) {
        None => Err(AppError::NotFound("Subscription not found".to_string())),
        Some(i) => {
            let cur = ledger.subscription_at(i);
            let s = Subscription {
                id: cur.id,
                user_id: cur.user_id,
                plan: Plan::Free,
                storage_limit_bytes: Plan::Free.storage_limit_bytes(),
                status: SubscriptionStatus::Canceled,
                provider_customer_id: copy_text_opt(&cur.provider_customer_id),
                provider_subscription_id: None,
            };
            let out = s.copy();
            ledger.replace_subscription(i, s);
            Ok(out)
        },
    }
}

/// Records the status that the provider reports for its subscription
/// `provider_id` on the first row linked to it; a cancellation also degrades
/// that row to the free tier. Returns whether a row was linked to it.
pub fn set_provider_status(
    ledger: &mut Ledger,
    provider_id: &str,
    status: SubscriptionStatus,
) -> (r: bool)
    requires
        old(ledger).wf(),
    ensures
        final(ledger).wf(),
        final(ledger).payments() == old(ledger).payments(),
        final(ledger).documents() == old(ledger).documents(),
        !r ==> final(ledger).subscriptions() == old(ledger).subscriptions(),
        !r ==> forall|j: int|
            0 <= j < old(ledger).subscriptions().len() ==> !linked_to(
                #[trigger] old(ledger).subscriptions()[j],
                provider_id@,
            ),
        r ==> exists|i: int|
            0 <= i < old(ledger).subscriptions().len() && linked_to(
                old(ledger).subscriptions()[i],
                provider_id@,
            ) && (forall|j: int|
                0 <= j < i ==> !linked_to(#[trigger] old(ledger).subscriptions()[j], provider_id@))
                && final(ledger).subscriptions() == old(ledger).subscriptions().update(
                i,
                with_status(old(ledger).subscriptions()[i], status),
            ),
{
    match ledger.find_provider_subscription(provider_id) {
        None => false,
        Some(i) => {
            let cur = ledger.subscription_at(i);
            let plan = if matches!(status, SubscriptionStatus::Canceled) {
                Plan::Free
            } else {
                cur.plan
            };
            let s = Subscription {
                id: cur.id,
                user_id: cur.user_id,
                plan,
                storage_limit_bytes: plan.storage_limit_bytes(),
                status,
                provider_customer_id: copy_text_opt(&cur.provider_customer_id),
                provider_subscription_id: copy_text_opt(&cur.provider_subscription_id),
            };
            proof {
                assert(cur.storage_limit_bytes == storage_limit_of(cur.plan));
            }
            ledger.replace_subscription(i, s);
            true
        },
    }
}

/// `s` as the billing provider set it up: plan `p` with its storage limit,
/// the provider's status and the provider's customer and subscription ids.
pub open spec fn provider_linked(
    s: Subscription,
    p: Plan,
    status: SubscriptionStatus,
    customer_id: Seq<char>,
    subscription_id: Option<Seq<char>>,
) -> bool {
    &&& s.plan == p
    &&& s.storage_limit_bytes == storage_limit_of(p)
    &&& s.status == status
    &&& s.provider_customer_id matches Some(c) && c@ == customer_id
    &&& match subscription_id {
        Some(x) => s.provider_subscription_id matches Some(y) && y@ == x,
        None => s.provider_subscription_id is None,
    }
}

/// Records the subscription that the billing provider set up for `user_id`:
/// the user's row, or a new one, takes the plan, its storage limit, the
/// provider's status and the provider's ids. A free plan has no provider
/// subscription, only a customer.
pub fn record_provider_subscription(
    ledger: &mut Ledger,
    user_id: i32,
    plan: Plan,
    status: SubscriptionStatus,
    customer_id: &str,
    subscription_id: Option<&str>,
) -> (r: Subscription)
    requires
        old(ledger).wf(),
    ensures
        final(ledger).wf(),
        final(ledger).payments() == old(ledger).payments(),
        final(ledger).documents() == old(ledger).documents(),
        has_subscriber(final(ledger).subscriptions(), user_id),
        r == final(ledger).subscriptions()[subscriber_index(final(ledger).subscriptions(), user_id)],
        r.user_id == user_id,
        provider_linked(r, plan, status, customer_id@, match subscription_id {
            Some(x) => Some(x@),
            None => None,
        }),
        has_subscriber(old(ledger).subscriptions(), user_id) ==> {
            let i = subscriber_index(old(ledger).subscriptions(), user_id);
            &&& final(ledger).subscriptions() == old(ledger).subscriptions().update(i, r)
            &&& r.id == old(ledger).subscriptions()[i].id
        },
        !has_subscriber(old(ledger).subscriptions(), user_id) ==> final(ledger).subscriptions()
            == old(ledger).subscriptions().push(r) && r.id == old(ledger).subscriptions().len(),
{
    let provider_subscription_id = match subscription_id {
        Some(x) => Some(x.to_owned()),
        None => None,
    };
    match ledger.find_subscription(user_id) {
        Some(i) => {
            let s = Subscription {
                id: ledger.subscription_at(i).id,
                user_id,
                plan,
                storage_limit_bytes: plan.storage_limit_bytes(),
                status,
                provider_customer_id: Some(customer_id.to_owned()),
                provider_subscription_id,
            };
            let out = s.copy();
            ledger.replace_subscription(i, s);
            proof {
                lemma_subscriber_index(ledger.subscriptions(), user_id, i as int);
            }
            out
        },
        None => {
            let s = Subscription {
                id: ledger.subscription_count() as u64,
                user_id,
                plan,
                storage_limit_bytes: plan.storage_limit_bytes(),
                status,
                provider_customer_id: Some(customer_id.to_owned()),
                provider_subscription_id,
            };
            let out = s.copy();
            ledger.insert_subscription(s);
            proof {
                let n = ledger.subscriptions().len() - 1;
                assert(ledger.subscriptions()[n] == out);
                lemma_subscriber_index(ledger.subscriptions(), user_id, n);
            }
            out
        },
    }
}

} // verus!
