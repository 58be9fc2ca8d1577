use club_backend::errors::AppError;
use club_backend::images::{ImageStore, UpdateImageRequest, page_slice};
use club_backend::upload::UploadBuffer;

fn upload(
    store: &mut ImageStore,
    name: &str,
    content_type: &str,
    data: &[u8],
    category: Option<&str>,
    now: i64,
) -> Result<club_backend::images::ImageMetadata, AppError> {
    store.create(
        name.to_string(),
        content_type.to_string(),
        data.to_vec(),
        category.map(|c| c.to_string()),
        None,
        now,
    )
}

#[test]
fn oversized_upload_is_rejected_incrementally() {
    let mut buf = UploadBuffer::new(10);
    assert!(buf.push_chunk(&[1, 2, 3, 4, 5, 6]).is_ok());
    assert_eq!(buf.size(), 6);
    // the second chunk pushes the running total past the maximum and is
    // rejected at once, leaving the buffer as it was
    assert!(matches!(buf.push_chunk(&[7, 8, 9, 10, 11]), Err(AppError::FileTooLarge)));
    assert_eq!(buf.size(), 6);
    assert!(buf.push_chunk(&[7, 8, 9, 10]).is_ok());
    assert_eq!(buf.size(), 10);
    assert_eq!(buf.into_bytes(), vec![1, 2, 3, 4, 5, 6, 7, 8, 9, 10]);
}

#[test]
fn rejected_uploads_persist_no_row() {
    let mut store = ImageStore::new();
    assert!(matches!(
        upload(&mut store, "a.txt", "text/plain", b"hello", None, 1),
        Err(AppError::InvalidFileType)
    ));
    assert!(matches!(
        upload(&mut store, "a.png", "image/png", b"", None, 1),
        Err(AppError::BadRequest(_))
    ));
    assert_eq!(store.list_metadata(None).len(), 0);
}

#[test]
fn successful_upload_round_trip() {
    let mut store = ImageStore::new();
    let meta = upload(&mut store, "logo.png", "image/png", &[9, 8, 7], Some("brand"), 44).unwrap();
    assert_eq!(meta.id, 1);
    assert_eq!(meta.image_name, "logo.png");
    assert_eq!(meta.content_type, "image/png");
    assert_eq!(meta.file_size, 3);
    assert_eq!(meta.category, Some("brand".to_string()));
    assert_eq!(meta.uploaded_at, 44);

    let full = store.get(1).unwrap();
    assert_eq!(full.image_data, vec![9, 8, 7]);
    assert_eq!(full.image_name, "logo.png");
    assert_eq!(full.content_type, "image/png");

    assert!(matches!(store.get(2), Err(AppError::NotFound(_))));
}

#[test]
fn metadata_update_coalesces_and_keeps_payload() {
    let mut store = ImageStore::new();
    upload(&mut store, "p.gif", "image/gif", &[1], Some("old"), 5).unwrap();
    let updated = store
        .update(1, UpdateImageRequest { category: Some("new".to_string()), description: None }, 9)
        .unwrap();
    assert_eq!(updated.category, Some("new".to_string()));
    assert_eq!(updated.description, None);
    assert_eq!(updated.updated_at, 9);
    assert_eq!(updated.uploaded_at, 5);
    let full = store.get(1).unwrap();
    assert_eq!(full.image_data, vec![1]);
    assert_eq!(full.category, Some("new".to_string()));
    assert!(matches!(
        store.update(8, UpdateImageRequest { category: None, description: None }, 9),
        Err(AppError::NotFound(_))
    ));
    assert!(matches!(store.delete(8), Err(AppError::NotFound(_))));
}

#[test]
fn listing_filters_by_category_and_orders_newest_first() {
    let mut store = ImageStore::new();
    upload(&mut store, "a.png", "image/png", &[1], Some("x"), 10).unwrap();
    upload(&mut store, "b.png", "image/png", &[2], Some("y"), 30).unwrap();
    upload(&mut store, "c.png", "image/png", &[3], Some("x"), 20).unwrap();
    let all = store.list_metadata(None);
    let names: Vec<String> = all.iter().map(|m| m.image_name.clone()).collect();
    assert_eq!(names, vec!["b.png".to_string(), "c.png".to_string(), "a.png".to_string()]);
    let only_x = store.list_metadata(Some("x"));
    let names: Vec<String> = only_x.iter().map(|m| m.image_name.clone()).collect();
    assert_eq!(names, vec!["c.png".to_string(), "a.png".to_string()]);
    assert_eq!(store.list_metadata(Some("z")).len(), 0);
}

#[test]
fn pagination_reports_the_true_total() {
    let mut store = ImageStore::new();
    for k in 0..5 {
        upload(&mut store, &format!("{k}.png"), "image/png", &[k as u8 + 1], None, k as i64)
            .unwrap();
    }
    let listing = store.list_metadata(None);
    // an independent count of the full filtered set
    assert_eq!(listing.len(), 5);
    let page = page_slice(&listing, Some(2), Some(2));
    assert_eq!(page.total, 5);
    assert_eq!(page.page, 2);
    assert_eq!(page.page_size, 2);
    assert_eq!(page.data.len(), 2);
    let names: Vec<String> = page.data.iter().map(|m| m.image_name.clone()).collect();
    assert_eq!(names, vec!["2.png".to_string(), "1.png".to_string()]);
    // defaults and clamping
    let first = page_slice(&listing, None, None);
    assert_eq!(first.page, 1);
    assert_eq!(first.page_size, 20);
    assert_eq!(first.data.len(), 5);
    let clamped = page_slice(&listing, Some(0), Some(1000));
    assert_eq!(clamped.page, 1);
    assert_eq!(clamped.page_size, 100);
    let beyond = page_slice(&listing, Some(9), Some(2));
    assert_eq!(beyond.data.len(), 0);
    assert_eq!(beyond.total, 5);
}
