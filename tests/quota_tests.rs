use storage_billing::entitlement::{apply_plan, ensure_subscription};
use storage_billing::error::AppError;
use storage_billing::ledger::Ledger;
use storage_billing::plan::Plan;
use storage_billing::quota::{
    admit_upload, check_document_count, check_storage, delete_document, documents_held,
    find_document, list_documents, record_document, reserve_upload, storage_used,
};
use storage_billing::upload::{
    file_extension, pdf_bucket, pdf_file_name, pdf_file_path, storage_key_for, stored_file_name,
    upload_naming,
};

fn ledger_with_usage(user_id: i32, sizes: &[i64]) -> Ledger {
    let mut ledger = Ledger::new();
    apply_plan(&mut ledger, user_id, Plan::Basic);
    for (k, size) in sizes.iter().enumerate() {
        let key = format!("{}/doc{}.bin", user_id, k);
        record_document(&mut ledger, user_id, "doc.bin", *size, "application/octet-stream", &key).unwrap();
    }
    ledger
}

#[test]
fn quota_rejects_upload_past_the_limit() {
    let ledger = ledger_with_usage(1, &[600_000_000, 400_000_000]);
    assert_eq!(storage_used(&ledger, 1), 1_000_000_000);
    let r = check_storage(&ledger, 1, 100_000_000);
    assert!(matches!(r, Err(AppError::QuotaExceeded(_))));
    assert!(check_storage(&ledger, 1, 50_000_000).is_ok());
}

#[test]
fn quota_admits_exactly_up_to_the_limit() {
    let ledger = ledger_with_usage(1, &[1_000_000_000]);
    assert!(check_storage(&ledger, 1, 73_741_824).is_ok());
    assert!(matches!(check_storage(&ledger, 1, 73_741_825), Err(AppError::QuotaExceeded(_))));
}

#[test]
fn quota_counts_only_the_users_documents() {
    let mut ledger = ledger_with_usage(1, &[1_000_000_000]);
    apply_plan(&mut ledger, 2, Plan::Basic);
    record_document(&mut ledger, 2, "big", 1_073_741_824, "x", "2/a.").unwrap();
    assert_eq!(storage_used(&ledger, 1), 1_000_000_000);
    assert!(check_storage(&ledger, 1, 50_000_000).is_ok());
    assert!(matches!(check_storage(&ledger, 2, 1), Err(AppError::QuotaExceeded(_))));
}

#[test]
fn quota_without_subscription_is_not_found() {
    let ledger = Ledger::new();
    assert!(matches!(check_storage(&ledger, 5, 1), Err(AppError::NotFound(_))));
    assert!(matches!(check_document_count(&ledger, 5), Err(AppError::NotFound(_))));
    assert!(matches!(admit_upload(&ledger, 5, 1), Err(AppError::NotFound(_))));
}

#[test]
fn document_count_ceiling_of_the_free_plan() {
    let mut ledger = Ledger::new();
    ensure_subscription(&mut ledger, 4);
    for k in 0..10 {
        assert!(admit_upload(&ledger, 4, 10).is_ok());
        record_document(&mut ledger, 4, "f", 10, "t", &format!("4/{}", k)).unwrap();
    }
    assert_eq!(documents_held(&ledger, 4), 10);
    assert!(matches!(check_document_count(&ledger, 4), Err(AppError::QuotaExceeded(_))));
    assert!(matches!(admit_upload(&ledger, 4, 10), Err(AppError::QuotaExceeded(_))));
    apply_plan(&mut ledger, 4, Plan::Enterprise);
    assert!(check_document_count(&ledger, 4).is_ok());
}

#[test]
fn deleting_a_document_frees_its_bytes_at_once() {
    let mut ledger = ledger_with_usage(1, &[1_000_000_000, 50_000_000]);
    assert!(matches!(check_storage(&ledger, 1, 50_000_000), Err(AppError::QuotaExceeded(_))));
    let id = ledger.document_at(1).id;
    assert!(matches!(delete_document(&mut ledger, id, 2), Err(AppError::NotFound(_))));
    let removed = delete_document(&mut ledger, id, 1).unwrap();
    assert_eq!(removed.file_size, 50_000_000);
    assert_eq!(storage_used(&ledger, 1), 1_000_000_000);
    assert!(check_storage(&ledger, 1, 50_000_000).is_ok());
    assert!(find_document(&ledger, id, 1).is_none());
    assert!(matches!(delete_document(&mut ledger, id, 1), Err(AppError::NotFound(_))));
}

#[test]
fn document_records_get_ascending_ids() {
    let mut ledger = Ledger::new();
    let a = record_document(&mut ledger, 1, "a.txt", 3, "text/plain", "1/a.txt").unwrap();
    let b = record_document(&mut ledger, 1, "b.txt", 4, "text/plain", "1/b.txt").unwrap();
    assert!(a.id < b.id);
    assert_eq!(b.filename, "b.txt");
    assert_eq!(b.storage_key, "1/b.txt");
    assert_eq!(find_document(&ledger, b.id, 1), Some(1));
}

#[test]
fn negative_sizes_are_refused() {
    let mut ledger = Ledger::new();
    let r = record_document(&mut ledger, 1, "a", -1, "t", "k");
    assert!(matches!(r, Err(AppError::InvalidInput(_))));
    assert_eq!(ledger.document_count(), 0);
}

#[test]
fn extensions_follow_the_last_dot() {
    assert_eq!(file_extension("report.pdf"), "pdf");
    assert_eq!(file_extension("archive.tar.gz"), "gz");
    assert_eq!(file_extension("noext"), "");
    assert_eq!(file_extension(".bashrc"), "");
    assert_eq!(file_extension("trailing."), "");
    assert_eq!(file_extension(""), "");
}

#[test]
fn storage_keys_name_owner_token_and_extension() {
    assert_eq!(storage_key_for(7, "tok", "report.pdf"), "7/tok.pdf");
    assert_eq!(storage_key_for(-3, "t", "x"), "-3/t.");
}

#[test]
fn uploaded_names_are_sanitized() {
    assert_eq!(stored_file_name("a/b.txt"), "ab.txt");
    assert_eq!(stored_file_name("plain.txt"), "plain.txt");
    let (name, key) = upload_naming(12, "uuid", "../etc/passwd.cfg");
    assert!(!name.contains('/'));
    assert!(key.starts_with("12/uuid."));
    assert!(key.ends_with(".cfg"));
}

#[test]
fn reservation_checks_and_records_in_one_step() {
    let mut ledger = ledger_with_usage(1, &[1_000_000_000]);
    let r = reserve_upload(&mut ledger, 1, "big.bin", 100_000_000, "x", "1/big.bin");
    assert!(matches!(r, Err(AppError::QuotaExceeded(_))));
    assert_eq!(ledger.document_count(), 1);
    let d = reserve_upload(&mut ledger, 1, "ok.bin", 50_000_000, "x", "1/ok.bin").unwrap();
    assert_eq!(d.file_size, 50_000_000);
    assert_eq!(storage_used(&ledger, 1), 1_050_000_000);
    let r = reserve_upload(&mut ledger, 1, "more.bin", 50_000_000, "x", "1/more.bin");
    assert!(matches!(r, Err(AppError::QuotaExceeded(_))));
    assert!(matches!(reserve_upload(&mut ledger, 9, "a", 1, "x", "9/a"), Err(AppError::NotFound(_))));
    delete_document(&mut ledger, d.id, 1).unwrap();
    assert_eq!(storage_used(&ledger, 1), 1_000_000_000);
}

#[test]
fn listing_returns_only_the_users_documents_in_order() {
    let mut ledger = Ledger::new();
    record_document(&mut ledger, 1, "a", 1, "t", "1/a").unwrap();
    record_document(&mut ledger, 2, "b", 2, "t", "2/b").unwrap();
    record_document(&mut ledger, 1, "c", 3, "t", "1/c").unwrap();
    let mine = list_documents(&ledger, 1);
    assert_eq!(mine.len(), 2);
    assert_eq!(mine[0].filename, "a");
    assert_eq!(mine[1].filename, "c");
    assert!(list_documents(&ledger, 3).is_empty());
}

#[test]
fn pdf_locations() {
    assert_eq!(pdf_bucket(42), "user-42");
    assert_eq!(pdf_file_name(Some("cv.pdf"), 99), "cv.pdf");
    assert_eq!(pdf_file_name(None, 1_700_000_000), "file-1700000000.pdf");
    assert_eq!(pdf_file_path(42, "cv.pdf"), "user-42/cv.pdf");
}

#[test]
fn sanitized_names_have_no_separators_and_fit_255_bytes() {
    let name = stored_file_name("a\\b/c:d*e?.txt");
    assert_eq!(name, "abcde.txt");
    assert_eq!(stored_file_name(".."), "");
    let long: String = std::iter::repeat("\u{e9}").take(200).collect();
    let cut = stored_file_name(&long);
    assert!(cut.len() <= 255);
    assert_eq!(cut.chars().count(), 127);
}

#[test]
fn first_document_gets_id_one() {
    let mut ledger = Ledger::new();
    let d = record_document(&mut ledger, 1, "a", 1, "t", "1/a").unwrap();
    assert_eq!(d.id, 1);
    assert_eq!(ledger.peek_document_id(), 2);
}
