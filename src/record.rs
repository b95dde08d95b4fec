use vstd::prelude::*;
use vstd::utf8::encode_utf8;

use crate::artwork::{base64_decoded, decode_base64, decode_image};
use crate::pipeline::{choose_bundle_id, chosen_bundle_id};
use crate::snapshot::{BundleInfo, NowPlayingInfo};

verus! {

/// A now-playing record produced by an external-process source, with its
/// fields already taken out of the JSON. Times are milliseconds, as in
/// `NowPlayingInfo`; `artwork_base64` is base64 text, possibly broken into
/// lines.
#[derive(Debug, Clone)]
pub struct SourceRecord {
    pub is_playing: Option<bool>,
    pub title: Option<String>,
    pub artist: Option<String>,
    pub album: Option<String>,
    pub elapsed_time: Option<i64>,
    pub duration: Option<i64>,
    pub timestamp: Option<u64>,
    pub bundle_id: Option<String>,
    pub parent_bundle_id: Option<String>,
    pub artwork_base64: Option<String>,
}

/// `s` without its line-feed bytes.
pub open spec fn without_newlines(s: Seq<u8>) -> Seq<u8>
    decreases s.len(),
{
    if s.len() == 0 {
        Seq::empty()
    } else if s.last() == 10u8 {
        without_newlines(s.drop_last())
    } else {
        without_newlines(s.drop_last()).push(s.last())
    }
}

/// Drops every line-feed byte of `s`.
pub fn strip_newlines(s: &[u8]) -> (r: Vec<u8>)
    ensures
        r@ == without_newlines(s@),
{
    let mut r: Vec<u8> = Vec::new();
    let mut i: usize = 0;
    while i < s.len()
        invariant
            0 <= i <= s@.len(),
            r@ == without_newlines(s@.subrange(0, i as int)),
        decreases s@.len() - i,
    {
        assert(s@.subrange(0, i as int + 1).drop_last() =~= s@.subrange(0, i as int));
        if s[i] != 10u8 {
            r.push(s[i]);
        }
        i = i + 1;
    }
    assert(s@.subrange(0, s@.len() as int) =~= s@);
    r
}

/// The bytes that base64 text `text` decodes to once its line breaks are
/// dropped, if it decodes.
pub open spec fn artwork_bytes(text: String) -> Option<Seq<u8>> {
    base64_decoded(without_newlines(encode_utf8(text@)))
}

/// The artwork bytes that a record carries, if its base64 text decodes.
pub open spec fn record_artwork(rec: SourceRecord) -> Option<Seq<u8>> {
    match rec.artwork_base64 {
        Some(a) => artwork_bytes(a),
        None => None,
    }
}

/// Decodes the record's base64 artwork text, line breaks dropped.
pub fn artwork_of(rec: &SourceRecord) -> (r: Option<Vec<u8>>)
    ensures
        match r {
            Some(v) => record_artwork(*rec) == Some(v@),
            None => record_artwork(*rec) is None,
        },
{
    match &rec.artwork_base64 {
        Some(text) => {
            let clean = strip_newlines(text.as_str().as_bytes());
            decode_base64(&clean)
        },
        None => None,
    }
}

/// `r` holds the record's fields as they stand (the timestamp too, with no
/// fallback), and the name and icon of `bundle` where the record names a
/// bundle.
pub open spec fn streamed_fields(rec: SourceRecord, bundle: Option<BundleInfo>, r: NowPlayingInfo) -> bool {
    &&& r.is_playing == rec.is_playing
    &&& r.title == rec.title
    &&& r.artist == rec.artist
    &&& r.album == rec.album
    &&& r.elapsed_time == rec.elapsed_time
    &&& r.duration == rec.duration
    &&& r.info_update_time == rec.timestamp
    &&& r.bundle_id == rec.bundle_id
    &&& r.bundle_name == (match (rec.bundle_id, bundle) {
        (Some(_), Some(b)) => Some(b.name),
        _ => None,
    })
    &&& r.bundle_icon == (match (rec.bundle_id, bundle) {
        (Some(_), Some(b)) => Some(b.icon),
        _ => None,
    })
}

/// The snapshot for a record of the streaming source, given `cover`, the
/// image that its artwork decodes to.
pub fn streamed_info_decoded(
    rec: SourceRecord,
    bundle: Option<BundleInfo>,
    cover: Option<image::DynamicImage>,
) -> (r: NowPlayingInfo)
    ensures
        streamed_fields(rec, bundle, r),
        r.album_cover == cover,
{
    let (name, icon) = match (&rec.bundle_id, bundle) {
        (Some(_), Some(b)) => (Some(b.name), Some(b.icon)),
        _ => (None, None),
    };
    NowPlayingInfo {
        is_playing: rec.is_playing,
        title: rec.title,
        artist: rec.artist,
        album: rec.album,
        album_cover: cover,
        elapsed_time: rec.elapsed_time,
        duration: rec.duration,
        info_update_time: rec.timestamp,
        bundle_id: rec.bundle_id,
        bundle_name: name,
        bundle_icon: icon,
    }
}

/// The snapshot for a record of the streaming source: its artwork bytes, if
/// any, are decoded into an image and `streamed_info_decoded` builds the
/// snapshot with it.
pub fn streamed_info(rec: SourceRecord, bundle: Option<BundleInfo>) -> (r: NowPlayingInfo)
    ensures
        streamed_fields(rec, bundle, r),
        r.album_cover is Some ==> record_artwork(rec) is Some,
{
    let cover = match artwork_of(&rec) {
        Some(bytes) => decode_image(&bytes),
        None => None,
    };
    streamed_info_decoded(rec, bundle, cover)
}

/// The snapshot for a record of the polling source, or `None` where the
/// record names no usable bundle or `bundle`, its resolution, is missing.
/// The bundle is the parent application's, else the client's; the update
/// instant is the record's timestamp, else `polled_at`; there is no
/// artwork.
pub fn polled_info(rec: SourceRecord, bundle: Option<BundleInfo>, polled_at: u64) -> (r: Option<
    NowPlayingInfo,
>)
    ensures
        r is Some <== (chosen_bundle_id(rec.parent_bundle_id, rec.bundle_id) is Some
            && bundle is Some),
        r is Some ==> (chosen_bundle_id(rec.parent_bundle_id, rec.bundle_id) is Some
            && bundle is Some),
        r matches Some(info) ==> {
            &&& info.is_playing == rec.is_playing
            &&& info.title == rec.title
            &&& info.artist == rec.artist
            &&& info.album == rec.album
            &&& info.album_cover is None
            &&& info.elapsed_time == rec.elapsed_time
            &&& info.duration == rec.duration
            &&& info.info_update_time == Some(
                match rec.timestamp {
                    Some(t) => t,
                    None => polled_at,
                },
            )
            &&& info.bundle_id == chosen_bundle_id(rec.parent_bundle_id, rec.bundle_id)
            &&& info.bundle_name == Some(bundle->0.name)
            &&& info.bundle_icon == Some(bundle->0.icon)
        },
{
    let id = choose_bundle_id(rec.parent_bundle_id, rec.bundle_id);
    match (id, bundle) {
        (Some(id), Some(b)) => Some(
            NowPlayingInfo {
                is_playing: rec.is_playing,
                title: rec.title,
                artist: rec.artist,
                album: rec.album,
                album_cover: None,
                elapsed_time: rec.elapsed_time,
                duration: rec.duration,
                info_update_time: Some(
                    match rec.timestamp {
                        Some(t) => t,
                        None => polled_at,
                    },
                ),
                bundle_id: Some(id),
                bundle_name: Some(b.name),
                bundle_icon: Some(b.icon),
            },
        ),
        _ => None,
    }
}

} // verus!
