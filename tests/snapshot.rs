use media_remote::{
    extrapolate_elapsed, replace_if_changed, replace_if_changed_given, same_cover, same_info,
    same_info_given, BridgeCell, NowPlayingInfo, BRIDGE_TIMEOUT_MS,
};

fn playing_at(elapsed: i64, taken: u64) -> NowPlayingInfo {
    let mut info = NowPlayingInfo::unknown();
    info.is_playing = Some(true);
    info.elapsed_time = Some(elapsed);
    info.info_update_time = Some(taken);
    info
}

#[test]
fn reads_while_playing_advance_the_position() {
    let mut slot = Some(playing_at(10_000, 1_000));
    extrapolate_elapsed(&mut slot, 3_500);
    let info = slot.as_ref().unwrap();
    assert_eq!(info.elapsed_time, Some(12_500));
    assert_eq!(info.info_update_time, Some(3_500));

    extrapolate_elapsed(&mut slot, 4_000);
    assert_eq!(slot.as_ref().unwrap().elapsed_time, Some(13_000));
}

#[test]
fn reads_while_playing_never_go_backwards() {
    let mut slot = Some(playing_at(10_000, 5_000));
    let mut last = 10_000;
    for now in [5_000, 4_000, 6_000, 6_000, 9_000] {
        extrapolate_elapsed(&mut slot, now);
        let e = slot.as_ref().unwrap().elapsed_time.unwrap();
        assert!(e >= last);
        last = e;
    }
    assert_eq!(last, 14_000);
}

#[test]
fn reads_without_time_passing_agree() {
    let mut slot = Some(playing_at(100, 50));
    extrapolate_elapsed(&mut slot, 80);
    extrapolate_elapsed(&mut slot, 80);
    assert_eq!(slot.as_ref().unwrap().elapsed_time, Some(130));
}

#[test]
fn reads_while_paused_change_nothing() {
    let mut info = playing_at(10_000, 1_000);
    info.is_playing = Some(false);
    let mut slot = Some(info);
    extrapolate_elapsed(&mut slot, 9_000);
    extrapolate_elapsed(&mut slot, 20_000);
    let info = slot.as_ref().unwrap();
    assert_eq!(info.elapsed_time, Some(10_000));
    assert_eq!(info.info_update_time, Some(1_000));

    let mut unknown = NowPlayingInfo::unknown();
    unknown.elapsed_time = Some(5);
    unknown.info_update_time = Some(1);
    let mut slot = Some(unknown);
    extrapolate_elapsed(&mut slot, 100);
    assert_eq!(slot.unwrap().elapsed_time, Some(5));

    let mut empty: Option<NowPlayingInfo> = None;
    extrapolate_elapsed(&mut empty, 100);
    assert!(empty.is_none());
}

#[test]
fn position_saturates_at_the_largest_value() {
    let mut slot = Some(playing_at(i64::MAX - 1, 0));
    extrapolate_elapsed(&mut slot, 10);
    assert_eq!(slot.unwrap().elapsed_time, Some(i64::MAX));
}

#[test]
fn bridge_without_callback_times_out_empty() {
    assert_eq!(BRIDGE_TIMEOUT_MS, 5_000);
    let cell: BridgeCell<bool> = BridgeCell::new();
    assert!(!cell.is_delivered());
    assert_eq!(cell.outcome(true), None);
}

#[test]
fn bridge_callback_in_time_delivers() {
    let mut cell = BridgeCell::new();
    cell.deliver(Some(true));
    assert!(cell.is_delivered());
    assert_eq!(cell.outcome(false), Some(true));

    let mut late = BridgeCell::new();
    late.deliver(Some(7u32));
    assert_eq!(late.outcome(true), None);

    let mut invalid: BridgeCell<u32> = BridgeCell::new();
    invalid.deliver(None);
    assert_eq!(invalid.outcome(false), None);
}

#[test]
fn polled_snapshot_replaces_only_when_changed() {
    let mut slot: Option<NowPlayingInfo> = None;
    assert!(replace_if_changed(&mut slot, playing_at(1, 2)));
    assert!(!replace_if_changed(&mut slot, playing_at(1, 2)));
    assert!(replace_if_changed(&mut slot, playing_at(1, 3)));
    assert_eq!(slot.unwrap().info_update_time, Some(3));
}

#[test]
fn polled_snapshot_with_images_uses_the_image_answers() {
    let mut stored = playing_at(1, 2);
    stored.bundle_icon = Some(image::DynamicImage::new_rgb8(1, 1));
    let mut slot = Some(stored);

    let mut polled = playing_at(1, 2);
    polled.bundle_icon = Some(image::DynamicImage::new_rgb8(1, 1));
    assert!(!replace_if_changed_given(&mut slot, polled, true, true));
    assert!(slot.as_ref().unwrap().bundle_icon.is_some());

    let mut polled = playing_at(1, 2);
    polled.bundle_icon = Some(image::DynamicImage::new_rgb8(2, 2));
    assert!(replace_if_changed_given(&mut slot, polled, true, false));
    assert_eq!(slot.as_ref().unwrap().bundle_icon.as_ref().unwrap().width(), 2);

    let mut polled = playing_at(1, 2);
    polled.bundle_icon = Some(image::DynamicImage::new_rgb8(2, 2));
    assert!(!replace_if_changed(&mut slot, polled));

    let mut polled = playing_at(1, 2);
    polled.bundle_icon = Some(image::DynamicImage::new_rgb8(3, 3));
    assert!(replace_if_changed(&mut slot, polled));

    let mut empty: Option<NowPlayingInfo> = None;
    assert!(replace_if_changed_given(&mut empty, playing_at(1, 2), true, true));
}

#[test]
fn snapshots_compare_field_by_field() {
    let a = playing_at(5, 6);
    let b = playing_at(5, 6);
    assert!(same_info(&a, &b));
    assert!(same_info_given(&a, &b, true, true));
    assert!(!same_info_given(&a, &b, false, true));
    assert!(!same_info(&a, &playing_at(5, 7)));

    let mut with_cover = playing_at(5, 6);
    with_cover.album_cover = Some(image::DynamicImage::new_rgb8(1, 1));
    assert!(!same_info(&a, &with_cover));

    let one = Some(image::DynamicImage::new_rgb8(1, 1));
    let other = Some(image::DynamicImage::new_rgb8(1, 2));
    assert!(same_cover(&None, &None));
    assert!(!same_cover(&one, &None));
    assert!(same_cover(&one, &one.clone()));
    assert!(!same_cover(&one, &other));
}
