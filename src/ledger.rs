use vstd::prelude::*;
use crate::amount::Amount;
use crate::plan::{Plan, storage_limit_of};
use crate::text::same_text;

verus! {

/// Where a payment stands. `Pending` is the only non-terminal status.
#[derive(PartialEq, Eq, Structural, Clone, Copy, Debug)]
pub enum PaymentStatus {
    Pending,
    Successful,
    Failed,
    Cancelled,
}

impl PaymentStatus {
    /// Whether no further transition can leave this status.
    pub open spec fn terminal(self) -> bool {
        !(self is Pending)
    }

    /// Whether no further transition can leave this status.
    pub fn is_terminal(&self) -> (r: bool)
        ensures
            r == self.terminal(),
    {
        !matches!(self, PaymentStatus::Pending)
    }
}

/// The gateway a payment went through.
#[derive(PartialEq, Eq, Structural, Clone, Copy, Debug)]
pub enum PaymentProvider {
    MtnMomo,
    PayPal,
}

/// The last reply of the gateway about a payment, as recorded.
#[derive(Debug)]
pub struct ProviderSnapshot {
    pub reference_id: String,
    pub provider_reference_id: String,
    pub status: String,
}

/// One payment attempt. Never deleted: it is the financial audit record.
#[derive(Debug)]
pub struct Payment {
    /// Internal numeric id: the position of the record in the ledger.
    pub id: u64,
    pub user_id: i32,
    /// System-side idempotency key, unique across the ledger.
    pub reference_id: String,
    /// The gateway's own transaction id.
    pub provider_reference_id: String,
    pub amount: Amount,
    pub currency: String,
    pub phone_number: String,
    pub provider: PaymentProvider,
    pub status: PaymentStatus,
    pub provider_response: Option<ProviderSnapshot>,
    pub error_message: Option<String>,
    pub payer_message: String,
    pub payee_note: String,
}

/// Lifecycle of a subscription row.
#[derive(PartialEq, Eq, Structural, Clone, Copy, Debug)]
pub enum SubscriptionStatus {
    Active,
    Inactive,
    Canceled,
}

/// The entitlement row of one user.
#[derive(Debug)]
pub struct Subscription {
    pub id: u64,
    pub user_id: i32,
    pub plan: Plan,
    pub storage_limit_bytes: i64,
    pub status: SubscriptionStatus,
    pub provider_customer_id: Option<String>,
    pub provider_subscription_id: Option<String>,
}

/// The quota-relevant record of a stored document.
#[derive(Debug)]
pub struct DocumentRecord {
    pub id: u64,
    pub user_id: i32,
    pub filename: String,
    pub file_size: i64,
    pub mime_type: String,
    pub storage_key: String,
}

/// Copies an optional text.
pub fn copy_text_opt(o: &Option<String>) -> (r: Option<String>)
    ensures
        r == *o,
{
    match o {
        Some(s) => Some(s.clone()),
        None => None,
    }
}

impl ProviderSnapshot {
    /// An equal copy.
    pub fn copy(&self) -> (r: ProviderSnapshot)
        ensures
            r == *self,
    {
        ProviderSnapshot {
            reference_id: self.reference_id.clone(),
            provider_reference_id: self.provider_reference_id.clone(),
            status: self.status.clone(),
        }
    }
}

impl Payment {
    /// An equal copy.
    pub fn copy(&self) -> (r: Payment)
        ensures
            r == *self,
    {
        let provider_response = match &self.provider_response {
            Some(s) => Some(s.copy()),
            None => None,
        };
        Payment {
            id: self.id,
            user_id: self.user_id,
            reference_id: self.reference_id.clone(),
            provider_reference_id: self.provider_reference_id.clone(),
            amount: self.amount,
            currency: self.currency.clone(),
            phone_number: self.phone_number.clone(),
            provider: self.provider,
            status: self.status,
            provider_response,
            error_message: copy_text_opt(&self.error_message),
            payer_message: self.payer_message.clone(),
            payee_note: self.payee_note.clone(),
        }
    }
}

impl Subscription {
    /// An equal copy.
    pub fn copy(&self) -> (r: Subscription)
        ensures
            r == *self,
    {
        Subscription {
            id: self.id,
            user_id: self.user_id,
            plan: self.plan,
            storage_limit_bytes: self.storage_limit_bytes,
            status: self.status,
            provider_customer_id: copy_text_opt(&self.provider_customer_id),
            provider_subscription_id: copy_text_opt(&self.provider_subscription_id),
        }
    }
}

impl DocumentRecord {
    /// An equal copy.
    pub fn copy(&self) -> (r: DocumentRecord)
        ensures
            r == *self,
    {
        DocumentRecord {
            id: self.id,
            user_id: self.user_id,
            filename: self.filename.clone(),
            file_size: self.file_size,
            mime_type: self.mime_type.clone(),
            storage_key: self.storage_key.clone(),
        }
    }
}

/// Whether some payment of `ps` carries the reference id `r`.
pub open spec fn has_reference(ps: Seq<Payment>, r: Seq<char>) -> bool {
    exists|i: int| 0 <= i < ps.len() && (#[trigger] ps[i]).reference_id@ == r
}

/// Whether some subscription of `ss` belongs to `user_id`.
pub open spec fn has_subscriber(ss: Seq<Subscription>, user_id: i32) -> bool {
    exists|i: int| 0 <= i < ss.len() && (#[trigger] ss[i]).user_id == user_id
}

/// The position of the subscription of `user_id` in `ss`, if there is one.
pub open spec fn subscriber_index(ss: Seq<Subscription>, user_id: i32) -> int {
    if has_subscriber(ss, user_id) {
        choose|i: int| 0 <= i < ss.len() && (#[trigger] ss[i]).user_id == user_id
    } else {
        -1
    }
}

/// Whether `s` is linked to the provider's subscription id `provider_id`.
pub open spec fn linked_to(s: Subscription, provider_id: Seq<char>) -> bool {
    match s.provider_subscription_id {
        Some(x) => x@ == provider_id,
        None => false,
    }
}

/// Reference ids are unique.
pub open spec fn references_unique(ps: Seq<Payment>) -> bool {
    forall|i: int, j: int|
        0 <= i < j < ps.len() ==> (#[trigger] ps[i]).reference_id@ != (#[trigger] ps[j]).reference_id@
}

/// Every recorded amount is a positive decimal.
pub open spec fn amounts_valid(ps: Seq<Payment>) -> bool {
    forall|i: int| 0 <= i < ps.len() ==> (#[trigger] ps[i]).amount.wf() && ps[i].amount.is_positive()
}

/// At most one subscription per user, each with the storage limit of its plan.
pub open spec fn subscriptions_consistent(ss: Seq<Subscription>) -> bool {
    &&& forall|i: int, j: int|
        0 <= i < j < ss.len() ==> (#[trigger] ss[i]).user_id != (#[trigger] ss[j]).user_id
    &&& forall|i: int|
        0 <= i < ss.len() ==> (#[trigger] ss[i]).storage_limit_bytes == storage_limit_of(
            ss[i].plan,
        )
}

/// Document sizes are non-negative and ids ascend strictly, below `next_id`.
pub open spec fn documents_consistent(ds: Seq<DocumentRecord>, next_id: u64) -> bool {
    &&& forall|i: int| 0 <= i < ds.len() ==> (#[trigger] ds[i]).file_size >= 0
    &&& forall|i: int| 0 <= i < ds.len() ==> (#[trigger] ds[i]).id < next_id
    &&& forall|i: int, j: int| 0 <= i < j < ds.len() ==> (#[trigger] ds[i]).id < (#[trigger] ds[j]).id
}

/// The bookkeeping store: payments, subscriptions and document records.
///
/// Every ledger that the public functions hand out is well formed, and the
/// fields are private, so callers never have to establish `wf` themselves.
pub struct Ledger {
    payments: Vec<Payment>,
    subscriptions: Vec<Subscription>,
    documents: Vec<DocumentRecord>,
    next_document_id: u64,
}

impl Ledger {
    /// All payments, oldest first.
    pub closed spec fn payments(&self) -> Seq<Payment> {
        self.payments@
    }

    /// All subscriptions, oldest first.
    pub closed spec fn subscriptions(&self) -> Seq<Subscription> {
        self.subscriptions@
    }

    /// All document records, oldest first.
    pub closed spec fn documents(&self) -> Seq<DocumentRecord> {
        self.documents@
    }

    /// The id that the next document record receives.
    pub closed spec fn next_document_id(&self) -> u64 {
        self.next_document_id
    }

    /// Unique reference ids, one consistent subscription per user, and sane
    /// document records.
    pub open spec fn wf(&self) -> bool {
        &&& references_unique(self.payments())
        &&& amounts_valid(self.payments())
        &&& subscriptions_consistent(self.subscriptions())
        &&& documents_consistent(self.documents(), self.next_document_id())
    }

    /// An empty ledger.
    pub fn new() -> (r: Ledger)
        ensures
            r.wf(),
            r.payments() == Seq::<Payment>::empty(),
            r.subscriptions() == Seq::<Subscription>::empty(),
            r.documents() == Seq::<DocumentRecord>::empty(),
            r.next_document_id() == 1,
    {
        Ledger {
            payments: Vec::new(),
            subscriptions: Vec::new(),
            documents: Vec::new(),
            next_document_id: 1,
        }
    }

    // ---------------------------------------------------------------- payments

    /// Number of payments recorded.
    pub fn payment_count(&self) -> (r: usize)
        ensures
            r == self.payments().len(),
    {
        self.payments.len()
    }

    /// The payment at position `i`.
    pub fn payment_at(&self, i: usize) -> (r: &Payment)
        requires
            i < self.payments().len(),
        ensures
            *r == self.payments()[i as int],
    {
        &self.payments[i]
    }

    /// The position of the payment with reference id `reference_id`.
    pub fn find_payment(&self, reference_id: &str) -> (r: Option<usize>)
        ensures
            r matches Some(i) ==> i < self.payments().len() && self.payments()[i as int].reference_id@
                == reference_id@,
            r is None <==> !has_reference(self.payments(), reference_id@),
    {
        let mut i: usize = 0;
        while i < self.payments.len()
            invariant
                i <= self.payments@.len(),
                forall|j: int| 0 <= j < i ==> (#[trigger] self.payments@[j]).reference_id@ != reference_id@,
            decreases self.payments@.len() - i,
        {
            if same_text(self.payments[i].reference_id.as_str(), reference_id) {
                return Some(i);
            }
            i = i + 1;
        }
        None
    }

    /// Appends a payment whose reference id is new; its id is its position.
    pub fn insert_payment(&mut self, p: Payment)
        requires
            old(self).wf(),
            !has_reference(old(self).payments(), p.reference_id@),
            p.id == old(self).payments().len(),
            p.amount.wf(),
            p.amount.is_positive(),
        ensures
            final(self).wf(),
            final(self).payments() == old(self).payments().push(p),
            final(self).subscriptions() == old(self).subscriptions(),
            final(self).documents() == old(self).documents(),
    {
        self.payments.push(p);
        assert forall|i: int, j: int|
            0 <= i < j < self.payments@.len() implies (#[trigger] self.payments@[i]).reference_id@
            != (#[trigger] self.payments@[j]).reference_id@ by {
            if j == self.payments@.len() - 1 {
                assert(old(self).payments@[i] == self.payments@[i]);
            }
        }
        assert forall|a: int| 0 <= a < self.payments@.len() - 1 implies (#[trigger] self.payments@[a])
            == old(self).payments@[a] by {}
    }

    /// Replaces the payment at position `i` with a record of the same reference id.
    pub fn replace_payment(&mut self, i: usize, p: Payment)
        requires
            old(self).wf(),
            i < old(self).payments().len(),
            p.reference_id@ == old(self).payments()[i as int].reference_id@,
            p.amount == old(self).payments()[i as int].amount,
        ensures
            final(self).wf(),
            final(self).payments() == old(self).payments().update(i as int, p),
            final(self).subscriptions() == old(self).subscriptions(),
            final(self).documents() == old(self).documents(),
    {
        self.payments.set(i, p);
        assert forall|a: int, b: int|
            0 <= a < b < self.payments@.len() implies (#[trigger] self.payments@[a]).reference_id@
            != (#[trigger] self.payments@[b]).reference_id@ by {
            assert(self.payments@[a].reference_id@ == old(self).payments@[a].reference_id@);
            assert(self.payments@[b].reference_id@ == old(self).payments@[b].reference_id@);
        }
        assert forall|a: int| 0 <= a < self.payments@.len() implies (#[trigger] self.payments@[a]).amount
            == old(self).payments@[a].amount by {}
    }

    // ----------------------------------------------------------- subscriptions

    /// Number of subscriptions recorded.
    pub fn subscription_count(&self) -> (r: usize)
        ensures
            r == self.subscriptions().len(),
    {
        self.subscriptions.len()
    }

    /// The subscription at position `i`.
    pub fn subscription_at(&self, i: usize) -> (r: &Subscription)
        requires
            i < self.subscriptions().len(),
        ensures
            *r == self.subscriptions()[i as int],
    {
        &self.subscriptions[i]
    }

    /// The position of the subscription of `user_id`.
    pub fn find_subscription(&self, user_id: i32) -> (r: Option<usize>)
        requires
            self.wf(),
        ensures
            r is None <==> !has_subscriber(self.subscriptions(), user_id),
            r matches Some(i) ==> i == subscriber_index(self.subscriptions(), user_id),
            r matches Some(i) ==> i < self.subscriptions().len()
                && self.subscriptions()[i as int].user_id == user_id,
    {
        let mut i: usize = 0;
        while i < self.subscriptions.len()
            invariant
                self.wf(),
                i <= self.subscriptions@.len(),
                forall|j: int| 0 <= j < i ==> (#[trigger] self.subscriptions@[j]).user_id != user_id,
            decreases self.subscriptions@.len() - i,
        {
            if self.subscriptions[i].user_id == user_id {
                proof {
                    lemma_subscriber_index(self.subscriptions@, user_id, i as int);
                }
                return Some(i);
            }
            i = i + 1;
        }
        None
    }

    /// The position of the first subscription linked to the provider's
    /// subscription id `provider_id`.
    pub fn find_provider_subscription(&self, provider_id: &str) -> (r: Option<usize>)
        ensures
            r matches Some(i) ==> i < self.subscriptions().len() && linked_to(
                self.subscriptions()[i as int],
                provider_id@,
            ),
            r matches Some(i) ==> forall|j: int|
                0 <= j < i ==> !linked_to(#[trigger] self.subscriptions()[j], provider_id@),
            r is None ==> forall|j: int|
                0 <= j < self.subscriptions().len() ==> !linked_to(
                    #[trigger] self.subscriptions()[j],
                    provider_id@,
                ),
    {
        let mut i: usize = 0;
        while i < self.subscriptions.len()
            invariant
                i <= self.subscriptions@.len(),
                forall|j: int| 0 <= j < i ==> !linked_to(#[trigger] self.subscriptions@[j], provider_id@),
            decreases self.subscriptions@.len() - i,
        {
            match &self.subscriptions[i].provider_subscription_id {
                Some(x) => {
                    if same_text(x.as_str(), provider_id) {
                        return Some(i);
                    }
                },
                None => {},
            }
            i = i + 1;
        }
        None
    }

    /// Replaces the subscription at position `i` with one of the same user
    /// whose storage limit is that of its plan.
    pub fn replace_subscription(&mut self, i: usize, s: Subscription)
        requires
            old(self).wf(),
            i < old(self).subscriptions().len(),
            s.user_id == old(self).subscriptions()[i as int].user_id,
            s.storage_limit_bytes == storage_limit_of(s.plan),
        ensures
            final(self).wf(),
            final(self).subscriptions() == old(self).subscriptions().update(i as int, s),
            final(self).payments() == old(self).payments(),
            final(self).documents() == old(self).documents(),
    {
        self.subscriptions.set(i, s);
        assert forall|a: int, b: int|
            0 <= a < b < self.subscriptions@.len() implies (#[trigger] self.subscriptions@[a]).user_id
            != (#[trigger] self.subscriptions@[b]).user_id by {
            assert(self.subscriptions@[a].user_id == old(self).subscriptions@[a].user_id);
            assert(self.subscriptions@[b].user_id == old(self).subscriptions@[b].user_id);
        }
    }

    /// Appends the subscription of a user who has none, with the storage
    /// limit of its plan; its id is its position.
    pub fn insert_subscription(&mut self, s: Subscription)
        requires
            old(self).wf(),
            !has_subscriber(old(self).subscriptions(), s.user_id),
            s.storage_limit_bytes == storage_limit_of(s.plan),
            s.id == old(self).subscriptions().len(),
        ensures
            final(self).wf(),
            final(self).subscriptions() == old(self).subscriptions().push(s),
            final(self).payments() == old(self).payments(),
            final(self).documents() == old(self).documents(),
    {
        self.subscriptions.push(s);
        assert forall|a: int, b: int|
            0 <= a < b < self.subscriptions@.len() implies (#[trigger] self.subscriptions@[a]).user_id
            != (#[trigger] self.subscriptions@[b]).user_id by {
            if b == self.subscriptions@.len() - 1 {
                assert(old(self).subscriptions@[a] == self.subscriptions@[a]);
            }
        }
    }

    // --------------------------------------------------------------- documents

    /// Number of document records.
    pub fn document_count(&self) -> (r: usize)
        ensures
            r == self.documents().len(),
    {
        self.documents.len()
    }

    /// The document record at position `i`.
    pub fn document_at(&self, i: usize) -> (r: &DocumentRecord)
        requires
            i < self.documents().len(),
        ensures
            *r == self.documents()[i as int],
    {
        &self.documents[i]
    }

    /// The id that the next document record receives.
    pub fn peek_document_id(&self) -> (r: u64)
        ensures
            r == self.next_document_id(),
    {
        self.next_document_id
    }

    /// Appends a document record under the next id, which then advances.
    pub fn insert_document(&mut self, d: DocumentRecord)
        requires
            old(self).wf(),
            d.file_size >= 0,
            d.id == old(self).next_document_id(),
            old(self).next_document_id() < u64::MAX,
        ensures
            final(self).wf(),
            final(self).documents() == old(self).documents().push(d),
            final(self).next_document_id() == old(self).next_document_id() + 1,
            final(self).payments() == old(self).payments(),
            final(self).subscriptions() == old(self).subscriptions(),
    {
        self.documents.push(d);
        self.next_document_id = self.next_document_id + 1;
        assert forall|a: int, b: int|
            0 <= a < b < self.documents@.len() implies (#[trigger] self.documents@[a]).id < (
            #[trigger] self.documents@[b]).id by {
            if b == self.documents@.len() - 1 {
                assert(old(self).documents@[a] == self.documents@[a]);
            }
        }
    }

    /// Removes the document record at position `i`.
    pub fn remove_document(&mut self, i: usize) -> (r: DocumentRecord)
        requires
            old(self).wf(),
            i < old(self).documents().len(),
        ensures
            final(self).wf(),
            r == old(self).documents()[i as int],
            final(self).documents() == old(self).documents().remove(i as int),
            final(self).next_document_id() == old(self).next_document_id(),
            final(self).payments() == old(self).payments(),
            final(self).subscriptions() == old(self).subscriptions(),
    {
        let r = self.documents.remove(i);
        assert forall|a: int, b: int|
            0 <= a < b < self.documents@.len() implies (#[trigger] self.documents@[a]).id < (
            #[trigger] self.documents@[b]).id by {
            let a0 = if a < i { a } else { a + 1 };
            let b0 = if b < i { b } else { b + 1 };
            assert(self.documents@[a] == old(self).documents@[a0]);
            assert(self.documents@[b] == old(self).documents@[b0]);
        }
        assert forall|a: int| 0 <= a < self.documents@.len() implies (#[trigger] self.documents@[a]).file_size
            >= 0 && self.documents@[a].id < self.next_document_id by {
            let a0 = if a < i { a } else { a + 1 };
            assert(self.documents@[a] == old(self).documents@[a0]);
        }
        r
    }
}

/// Under unique user ids, the subscriber index of a user is the one position
/// that holds that user.
pub proof fn lemma_subscriber_index(ss: Seq<Subscription>, user_id: i32, i: int)
    requires
        subscriptions_consistent(ss),
        0 <= i < ss.len(),
        ss[i].user_id == user_id,
    ensures
        has_subscriber(ss, user_id),
        subscriber_index(ss, user_id) == i,
{
    assert(has_subscriber(ss, user_id));
    let k = subscriber_index(ss, user_id);
    if k != i {
        if k < i {
            assert(ss[k].user_id != ss[i].user_id);
        } else {
            assert(ss[i].user_id != ss[k].user_id);
        }
    }
}

} // verus!
