use blink::gallery::{
    gallery_entry_id, gallery_file_names, gallery_item_id, missing_item_message, newest_first,
    suffix_of_hash, text_less,
};

#[test]
fn item_ids_and_files() {
    assert_eq!(gallery_item_id(1725029869123, 42), "1725029869123_000042");
    assert_eq!(gallery_item_id(5, 123456), "5_123456");
    assert_eq!(suffix_of_hash(12_345_678_901), 678_901);
    let (png, json, thumb) = gallery_file_names("17_000001");
    assert_eq!(png, "17_000001.png");
    assert_eq!(json, "17_000001.json");
    assert_eq!(thumb, "17_000001_thumb.jpg");
    assert_eq!(missing_item_message("x"), "Gallery item 'x' not found");
}

#[test]
fn only_json_entries_are_items() {
    assert_eq!(gallery_entry_id("/g/17_000001.json"), Some("17_000001".to_string()));
    assert_eq!(gallery_entry_id("/g/17_000001.png"), None);
    assert_eq!(gallery_entry_id("/g/17_000001_thumb.jpg"), None);
    assert_eq!(gallery_entry_id("/g/a.b.json"), Some("a.b".to_string()));
    assert_eq!(gallery_entry_id("/g/.json"), None);
    assert_eq!(gallery_entry_id("/g/x.JSON"), None);
}

#[test]
fn newest_first_is_stable() {
    let keys: Vec<String> = [
        "2026-09-01T10:00:00+00:00",
        "2026-09-03T08:00:00+00:00",
        "2026-09-01T10:00:00+00:00",
        "2025-12-31T23:59:59+00:00",
        "2026-09-03T08:00:00+00:00",
    ]
    .iter()
    .map(|s| s.to_string())
    .collect();
    assert_eq!(newest_first(&keys), vec![1, 4, 0, 2, 3]);
    assert_eq!(newest_first(&Vec::new()), Vec::<usize>::new());
}

#[test]
fn text_order_matches_string_order() {
    for (a, b) in [("a", "b"), ("ab", "a"), ("", "x"), ("same", "same"), ("ä", "z"), ("Z", "a")] {
        assert_eq!(text_less(a, b), a < b, "{a} vs {b}");
    }
}

#[test]
fn a_saved_item_is_listed_under_its_id() {
    for id in [gallery_item_id(1725029869123, 7), "with.dot".to_string(), "x".to_string()] {
        let (_, json, _) = gallery_file_names(&id);
        assert_eq!(gallery_entry_id(&format!("/home/u/gallery/{json}")), Some(id.clone()));
        assert_eq!(gallery_entry_id(&format!("/{json}")), Some(id));
    }
}

#[test]
fn thumbnails_fit_within_150() {
    let wide = blink::imaging::encode_image_to_png(&vec![9u8; 300 * 60 * 4], 300, 60).unwrap();
    let (px, w, h) = blink::gallery::gallery_thumbnail(&wide).unwrap();
    assert_eq!((w, h), (150, 30));
    assert_eq!(px.len(), 150 * 30 * 4);
    let e = blink::gallery::gallery_thumbnail(b"not an image").unwrap_err();
    assert!(e.starts_with("Failed to load image: "), "{e}");
}
