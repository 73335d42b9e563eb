use desktop_music_widget::screen::{
    arrange_monitors, card_origin, monitor_at, monitor_rect, primary_index, sort_monitors, Rect,
};

fn r(left: i32, top: i32, right: i32, bottom: i32) -> Rect {
    Rect { left, top, right, bottom }
}

#[test]
fn monitor_list_is_never_empty_and_is_sorted() {
    let primary = r(0, 0, 1920, 1080);
    assert_eq!(arrange_monitors(Vec::new(), primary), vec![primary]);
    let all = arrange_monitors(vec![r(1920, 0, 3840, 1080), r(-1280, 200, 0, 1224), primary], primary);
    let mut sorted = all.clone();
    sorted.sort_by_key(|m| (m.left, m.top));
    assert_eq!(all, sorted, "monitors must come back in a stable order");
    assert_eq!(all[0].left, -1280);
}

#[test]
fn monitor_lookup_falls_back_instead_of_panicking() {
    // A config from another machine may name a monitor that is not attached.
    let all = vec![r(-1920, 0, 0, 1080), r(0, 0, 1920, 1080)];
    let weird = monitor_rect(&all, 99);
    assert!(weird.right > weird.left);
    assert_eq!(weird, all[0]);
    let primary = monitor_rect(&all, -1);
    assert_eq!(primary, all[1]);
    assert_eq!(primary_index(&all), 1);
}

#[test]
fn sorting_is_stable_for_equal_origins() {
    let mut v = vec![r(0, 0, 10, 10), r(0, 0, 20, 20), r(-5, 3, 0, 9)];
    sort_monitors(&mut v);
    assert_eq!(v, vec![r(-5, 3, 0, 9), r(0, 0, 10, 10), r(0, 0, 20, 20)]);
}

#[test]
fn points_find_their_monitor() {
    let all = vec![r(-1920, 0, 0, 1080), r(0, 0, 1920, 1080)];
    assert_eq!(monitor_at(&all, -5, 10), 0);
    assert_eq!(monitor_at(&all, 1919, 1079), 1);
    assert_eq!(monitor_at(&all, 5000, 5000), 0, "outside every monitor means the first");
}

#[test]
fn card_sits_where_the_anchor_says() {
    let area = r(0, 0, 1920, 1040);
    assert_eq!(card_origin(area, "top-left", 340, 10, 24), (10, 24));
    assert_eq!(card_origin(area, "free", 340, 100, 200), (100, 200));
    assert_eq!(card_origin(area, "top-right", 340, 10, 24), (1920 - 340 - 10, 24));
    assert_eq!(card_origin(area, "top-center", 340, 0, 24), (790, 24));
}

#[test]
fn monitors_with_the_same_origin_keep_their_order() {
    let big = Rect { left: 0, top: 0, right: 2560, bottom: 1440 };
    let small = Rect { left: 0, top: 0, right: 1920, bottom: 1080 };
    let left = Rect { left: -1920, top: 0, right: 0, bottom: 1080 };
    let mut v = vec![big, left, small];
    sort_monitors(&mut v);
    assert_eq!(v, vec![left, big, small]);
    let mut w = vec![small, left, big];
    sort_monitors(&mut w);
    assert_eq!(w, vec![left, small, big]);
    assert_eq!(arrange_monitors(vec![small, big], left), vec![small, big]);
}
