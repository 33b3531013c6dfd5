use spotatui::domain::pagination::{CursorPaged, Paged};

#[test]
fn paged_default_is_empty_with_no_next() {
    let p: Paged<String> = Paged::default();
    assert!(p.items.is_empty());
    assert!(!p.has_next());
    assert_eq!(p.total, 0);
}

#[test]
fn cursor_paged_tracks_after_cursor() {
    let p = CursorPaged {
        items: vec![1u32, 2, 3],
        limit: 3,
        next: Some("https://api/next".to_string()),
        cursor_after: Some("abc".to_string()),
        total: Some(50),
    };
    assert!(p.has_next());
    assert_eq!(p.cursor_after.as_deref(), Some("abc"));
    assert_eq!(p.items.len(), 3);
}

#[test]
fn cursor_paged_default_has_no_next() {
    let p: CursorPaged<u32> = CursorPaged::default();
    assert!(p.items.is_empty());
    assert!(!p.has_next());
    assert_eq!(p.total, None);
}
