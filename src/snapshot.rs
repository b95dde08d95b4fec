use vstd::prelude::*;

use crate::artwork::{decode_image, same_image};

verus! {

/// The name and icon of the application behind a bundle identifier.
#[derive(Debug, Clone)]
pub struct BundleInfo {
    pub name: String,
    pub icon: image::DynamicImage,
}

/// The bundle information for an application whose display name and
/// encoded icon were read from the application registry; `None` where the
/// icon does not decode.
pub fn bundle_info_from(name: String, icon: &Vec<u8>) -> (r: Option<BundleInfo>)
    ensures
        r matches Some(b) ==> b.name == name,
{
    match decode_image(icon) {
        Some(img) => Some(BundleInfo { name, icon: img }),
        None => None,
    }
}

/// The now-playing snapshot. Every field may be unknown (`None`), which is
/// not the same as false or zero. Times are milliseconds: `elapsed_time`
/// and `duration` of playback, `info_update_time` since the Unix epoch.
#[derive(Debug, Clone)]
pub struct NowPlayingInfo {
    pub is_playing: Option<bool>,
    pub title: Option<String>,
    pub artist: Option<String>,
    pub album: Option<String>,
    pub album_cover: Option<image::DynamicImage>,
    pub elapsed_time: Option<i64>,
    pub duration: Option<i64>,
    pub info_update_time: Option<u64>,
    pub bundle_id: Option<String>,
    pub bundle_name: Option<String>,
    pub bundle_icon: Option<image::DynamicImage>,
}

/// The snapshot in which nothing is known yet.
pub open spec fn unknown_info() -> NowPlayingInfo {
    NowPlayingInfo {
        is_playing: None,
        title: None,
        artist: None,
        album: None,
        album_cover: None,
        elapsed_time: None,
        duration: None,
        info_update_time: None,
        bundle_id: None,
        bundle_name: None,
        bundle_icon: None,
    }
}

/// `a + b`, held at the largest `i64`.
pub open spec fn saturating_sum(a: i64, b: u64) -> i64 {
    if a + b > i64::MAX {
        i64::MAX
    } else {
        (a + b) as i64
    }
}

/// Whether a read at `now` advances the playback position: the media plays
/// and the position and the instant it was taken are known, no later than
/// `now`.
pub open spec fn advances(info: NowPlayingInfo, now: u64) -> bool {
    &&& info.is_playing == Some(true)
    &&& info.elapsed_time is Some
    &&& info.info_update_time is Some
    &&& info.info_update_time->0 <= now
}

/// The snapshot as a read at `now` sees it: while the media plays, the
/// position moves on by the time passed since it was taken, and that time
/// becomes `now`.
pub open spec fn extrapolated(info: NowPlayingInfo, now: u64) -> NowPlayingInfo {
    if advances(info, now) {
        NowPlayingInfo {
            elapsed_time: Some(
                saturating_sum(info.elapsed_time->0, (now - info.info_update_time->0) as u64),
            ),
            info_update_time: Some(now),
            ..info
        }
    } else {
        info
    }
}

/// The stored snapshot, if any, as a read at `now` sees it.
pub open spec fn read_at(slot: Option<NowPlayingInfo>, now: u64) -> Option<NowPlayingInfo> {
    match slot {
        Some(info) => Some(extrapolated(info, now)),
        None => None,
    }
}

impl NowPlayingInfo {
    /// A snapshot in which nothing is known yet.
    pub fn unknown() -> (r: NowPlayingInfo)
        ensures
            r == unknown_info(),
    {
        NowPlayingInfo {
            is_playing: None,
            title: None,
            artist: None,
            album: None,
            album_cover: None,
            elapsed_time: None,
            duration: None,
            info_update_time: None,
            bundle_id: None,
            bundle_name: None,
            bundle_icon: None,
        }
    }
}

fn saturating_add(a: i64, b: u64) -> (r: i64)
    ensures
        r == saturating_sum(a, b),
{
    let sum: i128 = a as i128 + b as i128;
    if sum > i64::MAX as i128 {
        i64::MAX
    } else {
        sum as i64
    }
}

/// Brings the stored snapshot up to the instant `now` before it is read:
/// while the media plays, the known position moves on by the time passed
/// since it was taken.
pub fn extrapolate_elapsed(slot: &mut Option<NowPlayingInfo>, now: u64)
    ensures
        *final(slot) == read_at(*old(slot), now),
{
    if let Some(info) = slot {
        if info.is_playing == Some(true) {
            if let (Some(elapsed), Some(taken)) = (info.elapsed_time, info.info_update_time) {
                if taken <= now {
                    info.elapsed_time = Some(saturating_add(elapsed, now - taken));
                    info.info_update_time = Some(now);
                }
            }
        }
    }
}

/// The characters of an optional text.
pub open spec fn text_view(t: Option<String>) -> Option<Seq<char>> {
    match t {
        Some(s) => Some(s@),
        None => None,
    }
}

/// The fields of the two snapshots other than the images are equal, texts
/// by their characters.
pub open spec fn same_plain_fields(a: NowPlayingInfo, b: NowPlayingInfo) -> bool {
    &&& a.is_playing == b.is_playing
    &&& text_view(a.title) == text_view(b.title)
    &&& text_view(a.artist) == text_view(b.artist)
    &&& text_view(a.album) == text_view(b.album)
    &&& a.elapsed_time == b.elapsed_time
    &&& a.duration == b.duration
    &&& a.info_update_time == b.info_update_time
    &&& text_view(a.bundle_id) == text_view(b.bundle_id)
    &&& text_view(a.bundle_name) == text_view(b.bundle_name)
}

fn same_text(a: &Option<String>, b: &Option<String>) -> (r: bool)
    ensures
        r == (text_view(*a) == text_view(*b)),
{
    match (a, b) {
        (Some(x), Some(y)) => *x == *y,
        (None, None) => true,
        _ => false,
    }
}

/// Whether two optional images are the same: both absent, or both present
/// and equal pixel for pixel. Whether present images are equal is not
/// stated, so the contract covers presence alone.
pub fn same_cover(a: &Option<image::DynamicImage>, b: &Option<image::DynamicImage>) -> (r: bool)
    ensures
        a is None && b is None ==> r,
        (a is None) != (b is None) ==> !r,
{
    match (a, b) {
        (Some(x), Some(y)) => same_image(x, y),
        (None, None) => true,
        _ => false,
    }
}

/// Whether two snapshots are equal, given whether their covers are the same
/// and whether their icons are.
pub fn same_info_given(a: &NowPlayingInfo, b: &NowPlayingInfo, covers_same: bool, icons_same: bool) -> (r: bool)
    ensures
        r == (same_plain_fields(*a, *b) && covers_same && icons_same),
{
    a.is_playing == b.is_playing && same_text(&a.title, &b.title) && same_text(&a.artist, &b.artist)
        && same_text(&a.album, &b.album) && a.elapsed_time == b.elapsed_time && a.duration
        == b.duration && a.info_update_time == b.info_update_time && same_text(
        &a.bundle_id,
        &b.bundle_id,
    ) && same_text(&a.bundle_name, &b.bundle_name) && covers_same && icons_same
}

/// Whether the images of two snapshots are all absent.
pub open spec fn without_images(a: NowPlayingInfo, b: NowPlayingInfo) -> bool {
    &&& a.album_cover is None
    &&& b.album_cover is None
    &&& a.bundle_icon is None
    &&& b.bundle_icon is None
}

/// Whether the images of two snapshots differ in presence.
pub open spec fn images_differ_in_presence(a: NowPlayingInfo, b: NowPlayingInfo) -> bool {
    ||| (a.album_cover is None) != (b.album_cover is None)
    ||| (a.bundle_icon is None) != (b.bundle_icon is None)
}

/// Whether two snapshots are equal; images compare by their pixels.
pub fn same_info(a: &NowPlayingInfo, b: &NowPlayingInfo) -> (r: bool)
    ensures
        r ==> same_plain_fields(*a, *b),
        same_plain_fields(*a, *b) && without_images(*a, *b) ==> r,
        images_differ_in_presence(*a, *b) ==> !r,
{
    let covers_same = same_cover(&a.album_cover, &b.album_cover);
    let icons_same = same_cover(&a.bundle_icon, &b.bundle_icon);
    same_info_given(a, b, covers_same, icons_same)
}

/// Whether a poll brings nothing new: a snapshot is stored, its plain
/// fields equal the polled ones, and so do its cover and its icon.
pub open spec fn unchanged_poll(
    slot: Option<NowPlayingInfo>,
    polled: NowPlayingInfo,
    covers_same: bool,
    icons_same: bool,
) -> bool {
    slot matches Some(cur) && same_plain_fields(cur, polled) && covers_same && icons_same
}

/// A polled snapshot replaces the stored one unless the poll brings nothing
/// new, given whether the stored and polled covers are the same and whether
/// their icons are. The result says whether it replaced the snapshot, and
/// listeners are due a notification exactly then.
pub fn replace_if_changed_given(
    slot: &mut Option<NowPlayingInfo>,
    polled: NowPlayingInfo,
    covers_same: bool,
    icons_same: bool,
) -> (r: bool)
    ensures
        r == !unchanged_poll(*old(slot), polled, covers_same, icons_same),
        r ==> *final(slot) == Some(polled),
        !r ==> *final(slot) == *old(slot),
{
    let changed = match slot {
        Some(cur) => !same_info_given(cur, &polled, covers_same, icons_same),
        None => true,
    };
    if changed {
        *slot = Some(polled);
    }
    changed
}

/// A polled snapshot replaces the stored one only where it differs, images
/// compared by their pixels; the result says whether it did, and listeners
/// are due a notification then.
pub fn replace_if_changed(slot: &mut Option<NowPlayingInfo>, polled: NowPlayingInfo) -> (r: bool)
    ensures
        r ==> *final(slot) == Some(polled),
        !r ==> *final(slot) == *old(slot),
        (*old(slot) matches Some(cur) ==> !same_plain_fields(cur, polled)) ==> r,
        (*old(slot) matches Some(cur) ==> images_differ_in_presence(cur, polled)) ==> r,
        (*old(slot) matches Some(cur) && same_plain_fields(cur, polled) && without_images(
            cur,
            polled,
        )) ==> !r,
{
    let (covers_same, icons_same) = match slot {
        Some(cur) => (
            same_cover(&cur.album_cover, &polled.album_cover),
            same_cover(&cur.bundle_icon, &polled.bundle_icon),
        ),
        None => (false, false),
    };
    replace_if_changed_given(slot, polled, covers_same, icons_same)
}

/// While the media plays, reads never move the position backwards: a read
/// at `t2` after a read at `t1` shows at least the position the first one
/// showed, and no less than the stored one.
pub proof fn lemma_extrapolation_monotonic(info: NowPlayingInfo, t1: u64, t2: u64)
    requires
        info.is_playing == Some(true),
        info.elapsed_time is Some,
        t1 <= t2,
    ensures
        info.elapsed_time->0 <= extrapolated(info, t1).elapsed_time->0,
        extrapolated(info, t1).elapsed_time->0 <= extrapolated(
            extrapolated(info, t1),
            t2,
        ).elapsed_time->0,
{
}

/// While the media does not play, reads change nothing: every read shows
/// the stored snapshot, so two reads show equal values.
pub proof fn lemma_extrapolation_idle(info: NowPlayingInfo, t1: u64, t2: u64)
    requires
        info.is_playing != Some(true),
    ensures
        extrapolated(info, t1) == info,
        extrapolated(extrapolated(info, t1), t2) == extrapolated(info, t1),
{
}

/// Two reads with no time passing between them show equal values.
pub proof fn lemma_extrapolation_idempotent(info: NowPlayingInfo, t: u64)
    ensures
        extrapolated(extrapolated(info, t), t) == extrapolated(info, t),
{
}

/// Reads do not drift: a read at `t1` followed by one at `t2` leaves the
/// snapshot a single read at `t2` would leave.
pub proof fn lemma_extrapolation_composes(info: NowPlayingInfo, t1: u64, t2: u64)
    requires
        info.info_update_time is Some ==> info.info_update_time->0 <= t1,
        t1 <= t2,
    ensures
        extrapolated(extrapolated(info, t1), t2) == extrapolated(info, t2),
{
}

} // verus!
