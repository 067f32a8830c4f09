use mimo::layout::{centered_rect, compute_layout_zones, rect_contains, Rect};

#[test]
fn test_rect_contains() {
    let r = Rect::new(10, 5, 20, 15);
    assert!(rect_contains(r, 10, 5));
    assert!(rect_contains(r, 29, 19));
    assert!(!rect_contains(r, 9, 5));
    assert!(!rect_contains(r, 30, 5));
    assert!(!rect_contains(r, 15, 4));
    assert!(!rect_contains(r, 15, 20));
}

#[test]
fn test_centered_rect() {
    let area = Rect::new(0, 0, 100, 50);
    let popup = centered_rect(60, 40, area);
    assert_eq!(popup.width, 60);
    assert_eq!(popup.height, 20);
    assert_eq!(popup.x, 20);
    assert_eq!(popup.y, 15);
}

#[test]
fn test_compute_layout_zones() {
    let area = Rect::new(0, 0, 100, 30);
    let zones = compute_layout_zones(area);

    assert_eq!(zones.sidebar.width, 18);
    assert_eq!(zones.sidebar.x, 0);
    assert_eq!(zones.sidebar.height, 30);

    assert_eq!(zones.header.x, 18);
    assert_eq!(zones.header.y, 0);
    assert_eq!(zones.header.height, 3);
    assert_eq!(zones.header.width, 82);

    assert_eq!(zones.footer.y, 29);
    assert_eq!(zones.footer.height, 1);
    assert_eq!(zones.footer.width, 82);

    assert_eq!(zones.content.y, 3);
    assert_eq!(zones.content.height, 26);
    assert_eq!(zones.content.width, 82);
}

#[test]
fn empty_rect_contains_nothing() {
    let r = Rect::new(3, 3, 0, 5);
    assert!(!rect_contains(r, 3, 3));
}
