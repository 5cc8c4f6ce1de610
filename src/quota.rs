use vstd::prelude::*;
use crate::error::AppError;
use crate::ledger::{DocumentRecord, Ledger, has_subscriber, subscriber_index};
use crate::plan::{UNLIMITED_DOCUMENTS, UNLIMITED_STORAGE, document_limit_of};

verus! {

/// Bytes stored by `user_id` across the records `ds`.
pub open spec fn usage_of(ds: Seq<DocumentRecord>, user_id: i32) -> int
    decreases ds.len(),
{
    if ds.len() == 0 {
        0
    } else {
        usage_of(ds.drop_last(), user_id) + if ds.last().user_id == user_id {
            ds.last().file_size as int
        } else {
            0
        }
    }
}

/// Number of documents of `user_id` among the records `ds`.
pub open spec fn count_of(ds: Seq<DocumentRecord>, user_id: i32) -> int
    decreases ds.len(),
{
    if ds.len() == 0 {
        0
    } else {
        count_of(ds.drop_last(), user_id) + if ds.last().user_id == user_id {
            1int
        } else {
            0
        }
    }
}

/// Whether a plan with storage ceiling `limit` admits `incoming` more bytes
/// on top of `used`.
pub open spec fn storage_admits(limit: i64, used: int, incoming: int) -> bool {
    limit == UNLIMITED_STORAGE || used + incoming <= limit
}

/// Whether a plan with document ceiling `limit` admits one more document on
/// top of `count`.
pub open spec fn count_admits(limit: i32, count: int) -> bool {
    limit == UNLIMITED_DOCUMENTS || count < limit
}

/// Bytes stored by `user_id`, summed afresh over the current records.
pub fn storage_used(ledger: &Ledger, user_id: i32) -> (r: i128)
    requires
        ledger.wf(),
    ensures
        r == usage_of(ledger.documents(), user_id),
        0 <= r < 0x7fff_ffff_ffff_ffff_0000_0000_0000_0000,
{
    let n = ledger.document_count();
    let mut total: i128 = 0;
    let mut i: usize = 0;
    while i < n
        invariant
            ledger.wf(),
            n == ledger.documents().len(),
            i <= n,
            total == usage_of(ledger.documents().subrange(0, i as int), user_id),
            0 <= total <= i * 0x7fff_ffff_ffff_ffff,
        decreases n - i,
    {
        let d = ledger.document_at(i);
        assert(ledger.documents().subrange(0, (i + 1) as int).drop_last() =~= ledger.documents().subrange(
            0,
            i as int,
        ));
        if d.user_id == user_id {
            assert(0 <= d.file_size);
            proof {
                let k = i as int;
                let t = total as int;
                let f = d.file_size as int;
                assert(t + f <= (k + 1) * 0x7fff_ffff_ffff_ffff) by (nonlinear_arith)
                    requires
                        t <= k * 0x7fff_ffff_ffff_ffff,
                        f <= 0x7fff_ffff_ffff_ffff,
                ;
                assert((k + 1) * 0x7fff_ffff_ffff_ffff < 0x7fff_ffff_ffff_ffff_ffff_ffff_ffff_ffff)
                    by (nonlinear_arith)
                    requires
                        k + 1 <= 0xffff_ffff_ffff_ffff,
                ;
            }
            total = total + d.file_size as i128;
        } else {
            proof {
                let k = i as int;
                let t = total as int;
                assert(t <= (k + 1) * 0x7fff_ffff_ffff_ffff) by (nonlinear_arith)
                    requires
                        t <= k * 0x7fff_ffff_ffff_ffff,
                ;
            }
        }
        i = i + 1;
    }
    assert(ledger.documents().subrange(0, n as int) =~= ledger.documents());
    proof {
        let k = n as int;
        let t = total as int;
        assert(t < 0x7fff_ffff_ffff_ffff_0000_0000_0000_0000) by (nonlinear_arith)
            requires
                t <= k * 0x7fff_ffff_ffff_ffff,
                k <= 0xffff_ffff_ffff_ffff,
        ;
    }
    total
}

/// Number of documents of `user_id`, counted afresh over the current records.
pub fn documents_held(ledger: &Ledger, user_id: i32) -> (r: u64)
    requires
        ledger.wf(),
    ensures
        r == count_of(ledger.documents(), user_id),
{
    let n = ledger.document_count();
    let mut count: u64 = 0;
    let mut i: usize = 0;
    while i < n
        invariant
            n == ledger.documents().len(),
            i <= n,
            count == count_of(ledger.documents().subrange(0, i as int), user_id),
            count <= i,
        decreases n - i,
    {
        let d = ledger.document_at(i);
        assert(ledger.documents().subrange(0, (i + 1) as int).drop_last() =~= ledger.documents().subrange(
            0,
            i as int,
        ));
        if d.user_id == user_id {
            count = count + 1;
        }
        i = i + 1;
    }
    assert(ledger.documents().subrange(0, n as int) =~= ledger.documents());
    count
}

/// Admits or rejects `incoming_size` more bytes for `user_id`, against the
/// storage ceiling of the user's subscription and the sum of the user's
/// current documents. The sentinel unlimited ceiling admits everything.
pub fn check_storage(ledger: &Ledger, user_id: i32, incoming_size: i64) -> (r: Result<(), AppError>)
    requires
        ledger.wf(),
    ensures
        !has_subscriber(ledger.subscriptions(), user_id) ==> r matches Err(AppError::NotFound(_)),
        has_subscriber(ledger.subscriptions(), user_id) ==> {
            let s = ledger.subscriptions()[subscriber_index(ledger.subscriptions(), user_id)];
            if storage_admits(
                s.storage_limit_bytes,
                usage_of(ledger.documents(), user_id),
                incoming_size as int,
            ) {
                r is Ok
            } else {
                r matches Err(AppError::QuotaExceeded(_))
            }
        },
{
    let i = match ledger.find_subscription(user_id) {
        None => {
            return Err(AppError::NotFound("Subscription not found".to_string()));
        },
        Some(i) => i,
    };
    let limit = ledger.subscription_at(i).storage_limit_bytes;
    if limit == UNLIMITED_STORAGE {
        return Ok(());
    }
    let used = storage_used(ledger, user_id);
    if used + incoming_size as i128 > limit as i128 {
        Err(AppError::QuotaExceeded("Storage limit exceeded".to_string()))
    } else {
        Ok(())
    }
}

/// Admits or rejects one more document for `user_id`, against the document
/// ceiling of the plan and the user's current count. The sentinel unlimited
/// ceiling admits everything.
pub fn check_document_count(ledger: &Ledger, user_id: i32) -> (r: Result<(), AppError>)
    requires
        ledger.wf(),
    ensures
        !has_subscriber(ledger.subscriptions(), user_id) ==> r matches Err(AppError::NotFound(_)),
        has_subscriber(ledger.subscriptions(), user_id) ==> {
            let s = ledger.subscriptions()[subscriber_index(ledger.subscriptions(), user_id)];
            if count_admits(document_limit_of(s.plan), count_of(ledger.documents(), user_id)) {
                r is Ok
            } else {
                r matches Err(AppError::QuotaExceeded(_))
            }
        },
{
    let i = match ledger.find_subscription(user_id) {
        None => {
            return Err(AppError::NotFound("Subscription not found".to_string()));
        },
        Some(i) => i,
    };
    let limit = ledger.subscription_at(i).plan.document_limit();
    if limit == UNLIMITED_DOCUMENTS {
        return Ok(());
    }
    let count = documents_held(ledger, user_id);
    if count >= limit as u64 {
        Err(AppError::QuotaExceeded("Document limit exceeded".to_string()))
    } else {
        Ok(())
    }
}

/// Admits or rejects an upload of `file_size` bytes before any byte is
/// written: the storage check first, then the document count.
pub fn admit_upload(ledger: &Ledger, user_id: i32, file_size: i64) -> (r: Result<(), AppError>)
    requires
        ledger.wf(),
    ensures
        !has_subscriber(ledger.subscriptions(), user_id) ==> r matches Err(AppError::NotFound(_)),
        has_subscriber(ledger.subscriptions(), user_id) ==> {
            let s = ledger.subscriptions()[subscriber_index(ledger.subscriptions(), user_id)];
            let fits = storage_admits(
                s.storage_limit_bytes,
                usage_of(ledger.documents(), user_id),
                file_size as int,
            );
            let room = count_admits(document_limit_of(s.plan), count_of(ledger.documents(), user_id));
            &&& fits && room ==> r is Ok
            &&& !(fits && room) ==> r matches Err(AppError::QuotaExceeded(_))
        },
{
    match check_storage(ledger, user_id, file_size) {
        Err(e) => Err(e),
        Ok(()) => check_document_count(ledger, user_id),
    }
}

/// Records a document that was stored: it receives the next document id.
/// A negative size is rejected, and so is a record when the id space is
/// exhausted; nothing changes then.
pub fn record_document(
    ledger: &mut Ledger,
    user_id: i32,
    filename: &str,
    file_size: i64,
    mime_type: &str,
    storage_key: &str,
) -> (r: Result<DocumentRecord, AppError>)
    requires
        old(ledger).wf(),
    ensures
        final(ledger).wf(),
        final(ledger).payments() == old(ledger).payments(),
        final(ledger).subscriptions() == old(ledger).subscriptions(),
        file_size < 0 ==> (r matches Err(AppError::InvalidInput(_)))
            && final(ledger).documents() == old(ledger).documents(),
        file_size >= 0 && old(ledger).next_document_id() == u64::MAX ==> (r matches Err(
            AppError::Internal(_),
        )) && final(ledger).documents() == old(ledger).documents(),
        file_size >= 0 && old(ledger).next_document_id() < u64::MAX ==> (r matches Ok(d) && {
            &&& final(ledger).documents() == old(ledger).documents().push(d)
            &&& d.id == old(ledger).next_document_id()
            &&& d.user_id == user_id
            &&& d.filename@ == filename@
            &&& d.file_size == file_size
            &&& d.mime_type@ == mime_type@
            &&& d.storage_key@ == storage_key@
        }),
{
    if file_size < 0 {
        return Err(AppError::InvalidInput("Invalid file size".to_string()));
    }
    let id = ledger.peek_document_id();
    if id == u64::MAX {
        return Err(AppError::Internal("Document ids exhausted".to_string()));
    }
    let d = DocumentRecord {
        id,
        user_id,
        filename: filename.to_owned(),
        file_size,
        mime_type: mime_type.to_owned(),
        storage_key: storage_key.to_owned(),
    };
    let out = d.copy();
    ledger.insert_document(d);
    Ok(out)
}

/// Admits an upload and records it in one exclusive step, so that no other
/// write can come between the check and the record: the record reserves the
/// bytes before they are sent to storage. If sending them fails, the caller
/// releases the reservation with `delete_document`. After a reservation the
/// user's usage is within the plan's storage ceiling.
pub fn reserve_upload(
    ledger: &mut Ledger,
    user_id: i32,
    filename: &str,
    file_size: i64,
    mime_type: &str,
    storage_key: &str,
) -> (r: Result<DocumentRecord, AppError>)
    requires
        old(ledger).wf(),
    ensures
        final(ledger).wf(),
        final(ledger).payments() == old(ledger).payments(),
        final(ledger).subscriptions() == old(ledger).subscriptions(),
        r is Err ==> final(ledger).documents() == old(ledger).documents(),
        !has_subscriber(old(ledger).subscriptions(), user_id) ==> r matches Err(AppError::NotFound(_)),
        has_subscriber(old(ledger).subscriptions(), user_id) ==> {
            let ss = old(ledger).subscriptions();
            let s = ss[subscriber_index(ss, user_id)];
            let fits = storage_admits(
                s.storage_limit_bytes,
                usage_of(old(ledger).documents(), user_id),
                file_size as int,
            );
            let room = count_admits(document_limit_of(s.plan), count_of(old(ledger).documents(), user_id));
            &&& !(fits && room) ==> (r matches Err(AppError::QuotaExceeded(_)))
            &&& fits && room && file_size >= 0 && old(ledger).next_document_id() < u64::MAX ==> r is Ok
            &&& r is Ok ==> fits && room
            &&& r is Ok && s.storage_limit_bytes != UNLIMITED_STORAGE ==> usage_of(
                final(ledger).documents(),
                user_id,
            ) <= s.storage_limit_bytes
        },
        r matches Ok(d) ==> {
            &&& final(ledger).documents() == old(ledger).documents().push(d)
            &&& d.id == old(ledger).next_document_id()
            &&& d.user_id == user_id
            &&& d.filename@ == filename@
            &&& d.file_size == file_size
            &&& d.mime_type@ == mime_type@
            &&& d.storage_key@ == storage_key@
        },
{
    match admit_upload(ledger, user_id, file_size) {
        Err(e) => Err(e),
        Ok(()) => {
            let r = record_document(ledger, user_id, filename, file_size, mime_type, storage_key);
            proof {
                if r is Ok {
                    assert(ledger.documents().drop_last() =~= old(ledger).documents());
                }
            }
            r
        },
    }
}

/// The position of the document `id` of `user_id`, if the user has it.
pub fn find_document(ledger: &Ledger, id: u64, user_id: i32) -> (r: Option<usize>)
    ensures
        r matches Some(i) ==> i < ledger.documents().len() && ledger.documents()[i as int].id == id
            && ledger.documents()[i as int].user_id == user_id,
        r is None ==> forall|j: int|
            0 <= j < ledger.documents().len() ==> !((#[trigger] ledger.documents()[j]).id == id
                && ledger.documents()[j].user_id == user_id),
{
    let n = ledger.document_count();
    let mut i: usize = 0;
    while i < n
        invariant
            n == ledger.documents().len(),
            i <= n,
            forall|j: int|
                0 <= j < i ==> !((#[trigger] ledger.documents()[j]).id == id
                    && ledger.documents()[j].user_id == user_id),
        decreases n - i,
    {
        let d = ledger.document_at(i);
        if d.id == id && d.user_id == user_id {
            return Some(i);
        }
        i = i + 1;
    }
    None
}

/// The records of `user_id`'s documents, oldest first.
pub fn list_documents(ledger: &Ledger, user_id: i32) -> (r: Vec<DocumentRecord>)
    ensures
        r@ == ledger.documents().filter(|d: DocumentRecord| d.user_id == user_id),
{
    let n = ledger.document_count();
    let mut out: Vec<DocumentRecord> = Vec::new();
    let mut i: usize = 0;
    while i < n
        invariant
            n == ledger.documents().len(),
            i <= n,
            out@ == ledger.documents().subrange(0, i as int).filter(
                |d: DocumentRecord| d.user_id == user_id,
            ),
        decreases n - i,
    {
        let d = ledger.document_at(i);
        proof {
            let ds = ledger.documents();
            assert(ds.subrange(0, (i + 1) as int).drop_last() =~= ds.subrange(0, i as int));
            reveal(Seq::filter);
        }
        if d.user_id == user_id {
            out.push(d.copy());
        }
        i = i + 1;
    }
    assert(ledger.documents().subrange(0, n as int) =~= ledger.documents());
    out
}

/// Removes the record of document `id` of `user_id`, which frees its bytes
/// at once; a document that the user does not have is not found.
pub fn delete_document(ledger: &mut Ledger, id: u64, user_id: i32) -> (r: Result<DocumentRecord, AppError>)
    requires
        old(ledger).wf(),
    ensures
        final(ledger).wf(),
        final(ledger).payments() == old(ledger).payments(),
        final(ledger).subscriptions() == old(ledger).subscriptions(),
        r is Err ==> (r matches Err(AppError::NotFound(_)))
            && final(ledger).documents() == old(ledger).documents() && forall|j: int|
            0 <= j < old(ledger).documents().len() ==> !((#[trigger] old(ledger).documents()[j]).id
                == id && old(ledger).documents()[j].user_id == user_id),
        r matches Ok(d) ==> exists|i: int|
            0 <= i < old(ledger).documents().len() && old(ledger).documents()[i] == d && d.id == id
                && d.user_id == user_id && final(ledger).documents() == old(ledger).documents().remove(i),
{
    match find_document(ledger, id, user_id) {
        None => Err(AppError::NotFound("Document not found".to_string())),
        Some(i) => {
            let d = ledger.remove_document(i);
            Ok(d)
        },
    }
}

/// Removing a document of `user_id` lowers the user's usage by exactly its
/// size, and leaves every other user's usage as it was.
pub proof fn lemma_usage_after_removal(ds: Seq<DocumentRecord>, i: int, user_id: i32)
    requires
        0 <= i < ds.len(),
    ensures
        usage_of(ds.remove(i), user_id) == usage_of(ds, user_id) - if ds[i].user_id == user_id {
            ds[i].file_size as int
        } else {
            0
        },
    decreases ds.len(),
{
    if i == ds.len() - 1 {
        assert(ds.remove(i) =~= ds.drop_last());
    } else {
        lemma_usage_after_removal(ds.drop_last(), i, user_id);
        assert(ds.remove(i).drop_last() =~= ds.drop_last().remove(i));
        assert(ds.remove(i).last() == ds.last());
    }
}

} // verus!
