use bmputil::docs_viewer::{Viewer, ViewerKey};

#[test]
fn starts_at_the_top() {
    let v = Viewer::new(100, 80, 30);
    assert_eq!(v.scroll_position(), 0);
    assert_eq!(v.max_scroll(), 70);
    assert!(!v.exit());
    assert_eq!(v.viewport_size(), (80, 30));
}

#[test]
fn short_documents_do_not_scroll() {
    let mut v = Viewer::new(10, 80, 30);
    assert_eq!(v.max_scroll(), 0);
    v.scroll_down();
    v.scroll_page_down();
    assert_eq!(v.scroll_position(), 0);
}

#[test]
fn line_scrolling_stops_at_the_ends() {
    let mut v = Viewer::new(32, 80, 30);
    v.scroll_up();
    assert_eq!(v.scroll_position(), 0);
    v.scroll_down();
    v.scroll_down();
    assert_eq!(v.scroll_position(), 2);
    v.scroll_down();
    assert_eq!(v.scroll_position(), 2);
    v.scroll_up();
    assert_eq!(v.scroll_position(), 1);
}

#[test]
fn page_scrolling_clamps() {
    let mut v = Viewer::new(100, 80, 30);
    v.scroll_page_down();
    assert_eq!(v.scroll_position(), 30);
    v.scroll_page_down();
    v.scroll_page_down();
    assert_eq!(v.scroll_position(), 70);
    v.scroll_page_up();
    assert_eq!(v.scroll_position(), 40);
    v.scroll_page_up();
    v.scroll_page_up();
    assert_eq!(v.scroll_position(), 0);
}

#[test]
fn resizing_keeps_position_in_range() {
    let mut v = Viewer::new(100, 80, 30);
    v.scroll_page_down();
    v.scroll_page_down();
    assert_eq!(v.scroll_position(), 60);
    v.handle_resize(120, 50, 80);
    assert_eq!(v.max_scroll(), 30);
    assert_eq!(v.scroll_position(), 30);
    assert_eq!(v.viewport_size(), (120, 50));
    v.handle_resize(40, 10, 200);
    assert_eq!(v.max_scroll(), 190);
    assert_eq!(v.scroll_position(), 30);
}

#[test]
fn quitting() {
    let mut v = Viewer::new(1, 1, 1);
    v.quit();
    assert!(v.exit());
}

#[test]
fn keys() {
    let mut v = Viewer::new(100, 80, 30);
    v.handle_key(ViewerKey::PageDown);
    v.handle_key(ViewerKey::Down);
    assert_eq!(v.scroll_position(), 31);
    v.handle_key(ViewerKey::Up);
    v.handle_key(ViewerKey::PageUp);
    assert_eq!(v.scroll_position(), 0);
    v.handle_key(ViewerKey::Char('x'));
    v.handle_key(ViewerKey::Other);
    assert!(!v.exit());
    v.handle_key(ViewerKey::Char('Q'));
    assert!(v.exit());
}
