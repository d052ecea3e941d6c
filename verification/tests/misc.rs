use std::hash::{Hash, Hasher};
use repose_bevy::cursor::{cursor_step, system_cursor_for, CursorKind, SystemCursor};
use repose_bevy::fonts::{font_key, register_font_once, FontRegistry};
use repose_bevy::frame_request::ReposeFrameRequest;
use repose_bevy::panels::{merge_pending, panel_home, PanelHome};
use repose_bevy::queue::{channel_drain, channel_send, route_click, ClickRoute};
use repose_bevy::viewport::{
    fb_extent, image_needs_realloc, msaa_sample_count, next_frame_gen, target_needs_recreate,
    Viewport,
};

#[test]
fn frame_requests_coalesce() {
    let mut r = ReposeFrameRequest::default();
    assert!(!r.is_requested());
    assert!(!r.take());
    r.request();
    r.request();
    assert!(r.is_requested());
    assert!(r.is_requested());
    assert!(r.take());
    assert!(!r.take());
    assert!(!r.is_requested());
}

#[test]
fn cursor_icons_map_one_to_one() {
    assert_eq!(system_cursor_for(None), SystemCursor::Default);
    assert_eq!(system_cursor_for(Some(CursorKind::Default)), SystemCursor::Default);
    assert_eq!(system_cursor_for(Some(CursorKind::Pointer)), SystemCursor::Pointer);
    assert_eq!(system_cursor_for(Some(CursorKind::Text)), SystemCursor::Text);
    assert_eq!(system_cursor_for(Some(CursorKind::EwResize)), SystemCursor::EwResize);
    assert_eq!(system_cursor_for(Some(CursorKind::NsResize)), SystemCursor::NsResize);
    assert_eq!(system_cursor_for(Some(CursorKind::Grab)), SystemCursor::Grab);
    assert_eq!(system_cursor_for(Some(CursorKind::Grabbing)), SystemCursor::Grabbing);
}

#[test]
fn cursor_is_set_once_per_change() {
    let mut last = None;
    assert_eq!(cursor_step(&mut last, false, true, Some(CursorKind::Text)), None);
    assert_eq!(last, None);
    assert_eq!(cursor_step(&mut last, true, false, Some(CursorKind::Text)), None);
    assert_eq!(cursor_step(&mut last, true, true, Some(CursorKind::Text)), Some(SystemCursor::Text));
    assert_eq!(last, Some(SystemCursor::Text));
    assert_eq!(cursor_step(&mut last, true, true, Some(CursorKind::Text)), None);
    assert_eq!(cursor_step(&mut last, true, true, None), Some(SystemCursor::Default));
    assert_eq!(last, Some(SystemCursor::Default));
}

#[test]
fn fonts_are_loaded_once() {
    static REGULAR: &[u8] = b"font bytes one";
    static BOLD: &[u8] = b"font bytes two!";
    let mut reg = FontRegistry::new();
    assert!(register_font_once(&mut reg, REGULAR));
    assert!(!register_font_once(&mut reg, REGULAR));
    assert!(register_font_once(&mut reg, BOLD));
    assert!(reg.contains(font_key(REGULAR)));
    assert!(reg.contains(font_key(BOLD)));
    assert!(!reg.contains((0, 3)));
}

#[test]
fn font_key_is_hash_and_length() {
    let a = font_key(b"abc");
    let b = font_key(b"abc");
    let c = font_key(b"abd");
    assert_eq!(a, b);
    assert_eq!(a.1, 3);
    assert_ne!(a.0, c.0);
    assert_ne!(font_key(b"").1, a.1);
}

#[test]
fn registry_register_reports_newness() {
    let mut reg = FontRegistry::new();
    assert!(reg.register((7, 1)));
    assert!(!reg.register((7, 1)));
    assert!(reg.register((7, 2)));
    assert!(reg.register((8, 1)));
}

#[test]
fn panels_go_where_they_belong() {
    assert_eq!(panel_home(true, true), PanelHome::Installed);
    assert_eq!(panel_home(true, false), PanelHome::Installed);
    assert_eq!(panel_home(false, true), PanelHome::Pending);
    assert_eq!(panel_home(false, false), PanelHome::NewPending);
    let mut installed = vec![1, 2];
    merge_pending(&mut installed, vec![3, 4]);
    assert_eq!(installed, vec![1, 2, 3, 4]);
    let mut empty: Vec<i32> = Vec::new();
    merge_pending(&mut empty, vec![]);
    assert!(empty.is_empty());
}

#[test]
fn channel_drains_in_send_order() {
    let mut q: Vec<&str> = Vec::new();
    channel_send(&mut q, "a");
    channel_send(&mut q, "b");
    channel_send(&mut q, "c");
    assert_eq!(channel_drain(&mut q), vec!["a", "b", "c"]);
    assert!(channel_drain(&mut q).is_empty());
    channel_send(&mut q, "d");
    assert_eq!(channel_drain(&mut q), vec!["d"]);
}

#[test]
fn clicks_prefer_compose_time_queue() {
    assert_eq!(route_click(true, false), ClickRoute::ComposeQueue);
    assert_eq!(route_click(true, true), ClickRoute::ComposeQueue);
    assert_eq!(route_click(false, true), ClickRoute::CurrentQueue);
    assert_eq!(route_click(false, false), ClickRoute::Dropped);
}

#[test]
fn viewport_follows_window() {
    let mut v = Viewport::new();
    assert_eq!(v, Viewport { fb_width: 1, fb_height: 1, force_compose: true });
    v.force_compose = false;
    assert!(v.sync(800, 600, false));
    assert_eq!(v, Viewport { fb_width: 800, fb_height: 600, force_compose: true });
    v.force_compose = false;
    assert!(!v.sync(800, 600, false));
    assert!(!v.force_compose);
    assert!(v.sync(800, 600, true));
    assert!(v.force_compose);
    v.force_compose = false;
    assert!(v.sync(0, 0, false));
    assert_eq!((v.fb_width, v.fb_height), (1, 1));
}

#[test]
fn render_sizing_decisions() {
    assert_eq!(fb_extent(0), 1);
    assert_eq!(fb_extent(1), 1);
    assert_eq!(fb_extent(1920), 1920);
    assert!(!image_needs_realloc(10, 20, 10, 20));
    assert!(image_needs_realloc(10, 20, 10, 21));
    assert!(image_needs_realloc(11, 20, 10, 20));
    assert!(target_needs_recreate(None, 1, 1));
    assert!(!target_needs_recreate(Some((4, 5)), 4, 5));
    assert!(target_needs_recreate(Some((4, 5)), 5, 4));
    assert_eq!(next_frame_gen(0), 1);
    assert_eq!(next_frame_gen(41), 42);
    assert_eq!(next_frame_gen(u64::MAX), 0);
    assert_eq!(msaa_sample_count(0), 1);
    assert_eq!(msaa_sample_count(4), 4);
}

#[test]
fn font_key_hashes_like_a_slice() {
    for bytes in [&b""[..], &b"a"[..], &b"some font bytes"[..]] {
        let mut hasher = std::collections::hash_map::DefaultHasher::new();
        bytes.hash(&mut hasher);
        assert_eq!(font_key(bytes), (hasher.finish(), bytes.len()));
    }
}
