use media_remote::{
    artwork_of, polled_info, streamed_info, streamed_info_decoded, strip_newlines, BundleInfo,
    SourceRecord,
};

const ONE_PIXEL_PNG: &str =
    "iVBORw0KGgoAAAANSUhEUgAAAAEAAAABCAYAAAAfFcSJAAAADUlEQVR42mNkYPhfDwAChwGA60e6kgAAAABJRU5ErkJggg==";

fn record() -> SourceRecord {
    SourceRecord {
        is_playing: Some(true),
        title: Some("Song".to_string()),
        artist: Some("Band".to_string()),
        album: None,
        elapsed_time: Some(1_500),
        duration: Some(180_000),
        timestamp: None,
        bundle_id: Some("com.example.client".to_string()),
        parent_bundle_id: None,
        artwork_base64: None,
    }
}

fn bundle(name: &str) -> BundleInfo {
    BundleInfo {
        name: name.to_string(),
        icon: image::DynamicImage::new_rgb8(1, 1),
    }
}

#[test]
fn newlines_are_dropped() {
    assert_eq!(strip_newlines(b"ab\ncd\n\n"), b"abcd".to_vec());
    assert_eq!(strip_newlines(b""), Vec::<u8>::new());
    assert_eq!(strip_newlines(b"a\rb"), b"a\rb".to_vec());
}

#[test]
fn streamed_record_keeps_its_fields() {
    let mut rec = record();
    rec.timestamp = Some(9);
    let info = streamed_info(rec, Some(bundle("Client")));
    assert_eq!(info.is_playing, Some(true));
    assert_eq!(info.title, Some("Song".to_string()));
    assert_eq!(info.album, None);
    assert_eq!(info.elapsed_time, Some(1_500));
    assert_eq!(info.duration, Some(180_000));
    assert_eq!(info.info_update_time, Some(9));
    assert_eq!(info.bundle_id, Some("com.example.client".to_string()));
    assert_eq!(info.bundle_name, Some("Client".to_string()));
    assert!(info.album_cover.is_none());
}

#[test]
fn streamed_record_without_bundle_has_no_name() {
    let mut rec = record();
    rec.bundle_id = None;
    let info = streamed_info(rec, Some(bundle("Ignored")));
    assert_eq!(info.bundle_name, None);
    assert!(info.bundle_icon.is_none());
    assert_eq!(info.info_update_time, None);
}

#[test]
fn streamed_artwork_is_decoded_across_line_breaks() {
    let mut rec = record();
    let (a, b) = ONE_PIXEL_PNG.split_at(40);
    rec.artwork_base64 = Some(format!("{}\n{}\n", a, b));
    let info = streamed_info(rec, None);
    let cover = info.album_cover.expect("artwork decodes");
    assert_eq!((cover.width(), cover.height()), (1, 1));

    let mut bad = record();
    bad.artwork_base64 = Some("not base64!".to_string());
    assert!(streamed_info(bad, None).album_cover.is_none());
}

#[test]
fn polled_record_needs_a_resolved_bundle() {
    assert!(polled_info(record(), None, 5).is_none());
    let mut nameless = record();
    nameless.bundle_id = None;
    assert!(polled_info(nameless, Some(bundle("X")), 5).is_none());

    let info = polled_info(record(), Some(bundle("Client")), 5).unwrap();
    assert_eq!(info.bundle_id, Some("com.example.client".to_string()));
    assert_eq!(info.bundle_name, Some("Client".to_string()));
    assert_eq!(info.info_update_time, Some(5));
}

#[test]
fn polled_record_prefers_parent_and_own_timestamp() {
    let mut rec = record();
    rec.parent_bundle_id = Some("com.example.parent".to_string());
    rec.timestamp = Some(1_700_000_000_000);
    let info = polled_info(rec, Some(bundle("Parent")), 5).unwrap();
    assert_eq!(info.bundle_id, Some("com.example.parent".to_string()));
    assert_eq!(info.info_update_time, Some(1_700_000_000_000));
    assert_eq!(info.title, Some("Song".to_string()));
}

#[test]
fn streamed_artwork_bytes_are_base64_decoded() {
    let mut rec = record();
    rec.artwork_base64 = Some("aGVs\nbG8=".to_string());
    assert_eq!(artwork_of(&rec), Some(b"hello".to_vec()));
    rec.artwork_base64 = Some("%%%".to_string());
    assert_eq!(artwork_of(&rec), None);
    assert_eq!(artwork_of(&record()), None);
}

#[test]
fn streamed_record_takes_the_decoded_cover() {
    let info = streamed_info_decoded(record(), None, Some(image::DynamicImage::new_rgb8(3, 1)));
    assert_eq!(info.album_cover.as_ref().unwrap().width(), 3);
    assert_eq!(info.title, Some("Song".to_string()));
    assert!(streamed_info_decoded(record(), None, None).album_cover.is_none());
}
