use vstd::prelude::*;

use crate::artwork::decode_image;
use crate::snapshot::{unknown_info, BundleInfo, NowPlayingInfo};
use crate::types::{InfoTypes, Notification, Number};

verus! {

/// One of the three partial updaters, each owning a group of fields.
#[derive(Debug, Clone, Copy, PartialEq, Eq, Structural)]
pub enum Updater {
    /// Owns `is_playing`.
    PlaybackState,
    /// Owns the `bundle_*` fields.
    Application,
    /// Owns title, artist, album, artwork, times and duration.
    Metadata,
}

/// The fields of `info` that updater `u` owns; the others read as unknown.
pub open spec fn part(u: Updater, info: NowPlayingInfo) -> NowPlayingInfo {
    match u {
        Updater::PlaybackState => NowPlayingInfo { is_playing: info.is_playing, ..unknown_info() },
        Updater::Application => NowPlayingInfo {
            bundle_id: info.bundle_id,
            bundle_name: info.bundle_name,
            bundle_icon: info.bundle_icon,
            ..unknown_info()
        },
        Updater::Metadata => NowPlayingInfo {
            is_playing: None,
            bundle_id: None,
            bundle_name: None,
            bundle_icon: None,
            ..info
        },
    }
}

/// Going from `before` to `after` changed no field that `u` does not own.
pub open spec fn only_touches(u: Updater, before: NowPlayingInfo, after: NowPlayingInfo) -> bool {
    forall|g: Updater| g != u ==> #[trigger] part(g, after) == part(g, before)
}

/// All three updaters, in the order a full pass runs them.
pub open spec fn full_pass() -> Seq<Updater> {
    seq![Updater::PlaybackState, Updater::Application, Updater::Metadata]
}

/// The updater that a native event runs, for the events that are wired.
pub open spec fn updater_of(n: Notification) -> Option<Updater> {
    match n {
        Notification::NowPlayingApplicationIsPlayingDidChange => Some(Updater::PlaybackState),
        Notification::NowPlayingApplicationDidChange => Some(Updater::Application),
        Notification::NowPlayingInfoDidChange => Some(Updater::Metadata),
        _ => None,
    }
}

/// The native events that a session observes, in the order it registers them.
pub open spec fn observed() -> Seq<Notification> {
    seq![
        Notification::NowPlayingApplicationDidChange,
        Notification::NowPlayingInfoDidChange,
        Notification::NowPlayingApplicationIsPlayingDidChange,
    ]
}

/// The updater that runs when native event `n` arrives, if it is wired.
pub fn updater_for(n: Notification) -> (r: Option<Updater>)
    ensures
        r == updater_of(n),
{
    match n {
        Notification::NowPlayingApplicationIsPlayingDidChange => Some(Updater::PlaybackState),
        Notification::NowPlayingApplicationDidChange => Some(Updater::Application),
        Notification::NowPlayingInfoDidChange => Some(Updater::Metadata),
        _ => None,
    }
}

/// The native events that a session registers an observer for.
pub fn observed_notifications() -> (r: Vec<Notification>)
    ensures
        r@ == observed(),
        forall|i: int| 0 <= i < r@.len() ==> updater_of(#[trigger] r@[i]) is Some,
{
    let r = vec![
        Notification::NowPlayingApplicationDidChange,
        Notification::NowPlayingInfoDidChange,
        Notification::NowPlayingApplicationIsPlayingDidChange,
    ];
    assert(r@ =~= observed());
    r
}

/// Self-healing: before updater `kind` runs on the shared slot, an empty
/// slot is reset to the all-unknown snapshot and all three updaters are to
/// run; otherwise the slot stays and `kind` alone runs. The result lists the
/// updaters to run, in order.
pub fn plan_update(slot: &mut Option<NowPlayingInfo>, kind: Updater) -> (r: Vec<Updater>)
    ensures
        *old(slot) is None ==> *final(slot) == Some(unknown_info()) && r@ == full_pass(),
        *old(slot) is Some ==> *final(slot) == *old(slot) && r@ == seq![kind],
{
    if slot.is_none() {
        *slot = Some(NowPlayingInfo::unknown());
        let r = vec![Updater::PlaybackState, Updater::Application, Updater::Metadata];
        assert(r@ =~= full_pass());
        r
    } else {
        let r = vec![kind];
        assert(r@ =~= seq![kind]);
        r
    }
}

/// The playback-state updater: a known state replaces `is_playing`; an
/// unknown one (the query failed) changes nothing.
pub fn merge_state(info: &mut NowPlayingInfo, fetched: Option<bool>)
    ensures
        *final(info) == (match fetched {
            Some(p) => NowPlayingInfo { is_playing: Some(p), ..*old(info) },
            None => *old(info),
        }),
        only_touches(Updater::PlaybackState, *old(info), *final(info)),
{
    if let Some(p) = fetched {
        info.is_playing = Some(p);
    }
}

/// The bundle identifier to resolve: the parent application's where it is
/// known, else the client's own, and only if it is not empty.
pub open spec fn chosen_bundle_id(parent: Option<String>, client: Option<String>) -> Option<String> {
    let id = if parent is Some {
        parent
    } else {
        client
    };
    match id {
        Some(s) => if s@.len() > 0 {
            Some(s)
        } else {
            None
        },
        None => None,
    }
}

/// Picks the bundle identifier that the application updater resolves.
pub fn choose_bundle_id(parent: Option<String>, client: Option<String>) -> (r: Option<String>)
    ensures
        r == chosen_bundle_id(parent, client),
{
    let id = if parent.is_some() {
        parent
    } else {
        client
    };
    match id {
        Some(s) => if s.as_str().is_empty() {
            None
        } else {
            Some(s)
        },
        None => None,
    }
}

/// The application updater: where a non-empty identifier was obtained and
/// resolved, the identifier, display name and icon replace the `bundle_*`
/// fields together; otherwise nothing changes.
pub fn merge_app(info: &mut NowPlayingInfo, id: Option<String>, bundle: Option<BundleInfo>)
    ensures
        *final(info) == (match (id, bundle) {
            (Some(i), Some(b)) => if i@.len() > 0 {
                NowPlayingInfo {
                    bundle_id: Some(i),
                    bundle_name: Some(b.name),
                    bundle_icon: Some(b.icon),
                    ..*old(info)
                }
            } else {
                *old(info)
            },
            _ => *old(info),
        }),
        only_touches(Updater::Application, *old(info), *final(info)),
{
    if let (Some(i), Some(b)) = (id, bundle) {
        if !i.as_str().is_empty() {
            info.bundle_id = Some(i);
            info.bundle_name = Some(b.name);
            info.bundle_icon = Some(b.icon);
        }
    }
}

/// The value stored under `key` in the dictionary entries from index `i`
/// on: the first entry with that key.
pub open spec fn lookup_from(entries: Seq<(String, InfoTypes)>, key: Seq<char>, i: int) -> Option<
    InfoTypes,
>
    decreases entries.len() - i,
{
    if i < 0 || i >= entries.len() {
        None
    } else if entries[i].0@ == key {
        Some(entries[i].1)
    } else {
        lookup_from(entries, key, i + 1)
    }
}

/// The value stored under `key` in the native info dictionary.
pub open spec fn lookup(entries: Seq<(String, InfoTypes)>, key: Seq<char>) -> Option<InfoTypes> {
    lookup_from(entries, key, 0)
}

/// Finds the value stored under `key` in the native info dictionary.
pub fn find_entry<'a>(entries: &'a Vec<(String, InfoTypes)>, key: &String) -> (r: Option<
    &'a InfoTypes,
>)
    ensures
        match r {
            Some(v) => lookup(entries@, key@) == Some(*v),
            None => lookup(entries@, key@) is None,
        },
{
    let mut i: usize = 0;
    while i < entries.len()
        invariant
            0 <= i <= entries@.len(),
            lookup(entries@, key@) == lookup_from(entries@, key@, i as int),
        decreases entries@.len() - i,
    {
        if entries[i].0 == *key {
            return Some(&entries[i].1);
        }
        i = i + 1;
    }
    None
}

pub open spec fn title_key() -> Seq<char> {
    "kMRMediaRemoteNowPlayingInfoTitle"@
}

pub open spec fn artist_key() -> Seq<char> {
    "kMRMediaRemoteNowPlayingInfoArtist"@
}

pub open spec fn album_key() -> Seq<char> {
    "kMRMediaRemoteNowPlayingInfoAlbum"@
}

pub open spec fn duration_key() -> Seq<char> {
    "kMRMediaRemoteNowPlayingInfoDuration"@
}

pub open spec fn elapsed_key() -> Seq<char> {
    "kMRMediaRemoteNowPlayingInfoElapsedTime"@
}

pub open spec fn artwork_key() -> Seq<char> {
    "kMRMediaRemoteNowPlayingInfoArtworkData"@
}

pub open spec fn timestamp_key() -> Seq<char> {
    "kMRMediaRemoteNowPlayingInfoTimestamp"@
}

/// A text field after the merge: only a non-empty string replaces it.
pub open spec fn text_after(current: Option<String>, found: Option<InfoTypes>) -> Option<String> {
    match found {
        Some(InfoTypes::String(s)) => if s@.len() > 0 {
            Some(s)
        } else {
            current
        },
        _ => current,
    }
}

/// A time field after the merge: any floating value replaces it, zero too.
pub open spec fn number_after(current: Option<i64>, found: Option<InfoTypes>) -> Option<i64> {
    match found {
        Some(InfoTypes::Number(Number::Floating(f))) => Some(f),
        _ => current,
    }
}

/// The instant of the update: the source's own timestamp, else the instant
/// the dictionary was fetched.
pub open spec fn stamp_after(found: Option<InfoTypes>, fetched_at: u64) -> Option<u64> {
    match found {
        Some(InfoTypes::SystemTime(t)) => Some(t),
        _ => Some(fetched_at),
    }
}

/// Whether the dictionary carries artwork bytes.
pub open spec fn has_artwork(entries: Seq<(String, InfoTypes)>) -> bool {
    lookup(entries, artwork_key()) matches Some(InfoTypes::Data(_))
}

/// The metadata merge of dictionary `d` into `before`, the artwork aside.
pub open spec fn metadata_merged(
    before: NowPlayingInfo,
    after: NowPlayingInfo,
    d: Seq<(String, InfoTypes)>,
    fetched_at: u64,
) -> bool {
    &&& after.title == text_after(before.title, lookup(d, title_key()))
    &&& after.artist == text_after(before.artist, lookup(d, artist_key()))
    &&& after.album == text_after(before.album, lookup(d, album_key()))
    &&& after.duration == number_after(before.duration, lookup(d, duration_key()))
    &&& after.elapsed_time == number_after(before.elapsed_time, lookup(d, elapsed_key()))
    &&& after.info_update_time == stamp_after(lookup(d, timestamp_key()), fetched_at)
    &&& !has_artwork(d) ==> after.album_cover == before.album_cover
}

fn merge_text(field: &mut Option<String>, entries: &Vec<(String, InfoTypes)>, key: &String)
    ensures
        *final(field) == text_after(*old(field), lookup(entries@, key@)),
{
    if let Some(InfoTypes::String(s)) = find_entry(entries, key) {
        if !s.as_str().is_empty() {
            *field = Some(s.clone());
        }
    }
}

fn merge_number(field: &mut Option<i64>, entries: &Vec<(String, InfoTypes)>, key: &String)
    ensures
        *final(field) == number_after(*old(field), lookup(entries@, key@)),
{
    if let Some(InfoTypes::Number(Number::Floating(f))) = find_entry(entries, key) {
        *field = Some(*f);
    }
}

/// The artwork bytes of the dictionary, if it carries any.
pub fn artwork_data(entries: &Vec<(String, InfoTypes)>) -> (r: Option<&Vec<u8>>)
    ensures
        match r {
            Some(b) => lookup(entries@, artwork_key()) == Some(InfoTypes::Data(*b)),
            None => !has_artwork(entries@),
        },
{
    let artwork = "kMRMediaRemoteNowPlayingInfoArtworkData".to_owned();
    match find_entry(entries, &artwork) {
        Some(InfoTypes::Data(bytes)) => Some(bytes),
        _ => None,
    }
}

/// The metadata merge of dictionary `d`, given `cover`, the image that its
/// artwork bytes decode to (`None` where they do not). Title, artist and
/// album take a non-empty string found under their keys; duration and
/// elapsed time take any floating value found; the cover is replaced where
/// the dictionary carries artwork bytes; and the update instant is the
/// source's timestamp, else `fetched_at`, the instant of the query.
pub fn merge_info_decoded(
    info: &mut NowPlayingInfo,
    d: &Vec<(String, InfoTypes)>,
    fetched_at: u64,
    cover: Option<image::DynamicImage>,
)
    ensures
        metadata_merged(*old(info), *final(info), d@, fetched_at),
        has_artwork(d@) ==> final(info).album_cover == cover,
        only_touches(Updater::Metadata, *old(info), *final(info)),
{
    let title = "kMRMediaRemoteNowPlayingInfoTitle".to_owned();
    let artist = "kMRMediaRemoteNowPlayingInfoArtist".to_owned();
    let album = "kMRMediaRemoteNowPlayingInfoAlbum".to_owned();
    let duration = "kMRMediaRemoteNowPlayingInfoDuration".to_owned();
    let elapsed = "kMRMediaRemoteNowPlayingInfoElapsedTime".to_owned();
    let timestamp = "kMRMediaRemoteNowPlayingInfoTimestamp".to_owned();

    merge_text(&mut info.title, d, &title);
    merge_text(&mut info.artist, d, &artist);
    merge_text(&mut info.album, d, &album);
    merge_number(&mut info.duration, d, &duration);
    merge_number(&mut info.elapsed_time, d, &elapsed);

    if artwork_data(d).is_some() {
        info.album_cover = cover;
    }
    info.info_update_time = match find_entry(d, &timestamp) {
        Some(InfoTypes::SystemTime(t)) => Some(*t),
        _ => Some(fetched_at),
    };
}

/// The metadata updater. With no dictionary (the query failed or timed out)
/// nothing changes. Otherwise the artwork bytes, if any, are decoded and
/// `merge_info_decoded` merges the dictionary with the result.
pub fn merge_info(info: &mut NowPlayingInfo, fetched: Option<Vec<(String, InfoTypes)>>, fetched_at: u64)
    ensures
        fetched is None ==> *final(info) == *old(info),
        fetched matches Some(d) ==> metadata_merged(*old(info), *final(info), d@, fetched_at),
        only_touches(Updater::Metadata, *old(info), *final(info)),
{
    if let Some(d) = fetched {
        let cover = match artwork_data(&d) {
            Some(bytes) => decode_image(bytes),
            None => None,
        };
        merge_info_decoded(info, &d, fetched_at, cover);
    }
}

/// What the native side returned for one updater pass.
pub enum Fetched {
    /// The playing state, if the query answered.
    PlaybackState(Option<bool>),
    /// The identifier picked by `choose_bundle_id`, and what resolving it gave.
    Application(Option<String>, Option<BundleInfo>),
    /// The info dictionary, if the query answered, and the instant of the query.
    Metadata(Option<Vec<(String, InfoTypes)>>, u64),
}

/// The updater that a fetched result is for.
pub open spec fn pass_of(f: Fetched) -> Updater {
    match f {
        Fetched::PlaybackState(_) => Updater::PlaybackState,
        Fetched::Application(..) => Updater::Application,
        Fetched::Metadata(..) => Updater::Metadata,
    }
}

/// Runs the updater that `f` is for on `info`.
pub fn apply_fetched(info: &mut NowPlayingInfo, f: Fetched)
    ensures
        only_touches(pass_of(f), *old(info), *final(info)),
        f matches Fetched::PlaybackState(p) ==> *final(info) == (match p {
            Some(p) => NowPlayingInfo { is_playing: Some(p), ..*old(info) },
            None => *old(info),
        }),
        f matches Fetched::Application(id, b) ==> *final(info) == (match (id, b) {
            (Some(i), Some(b)) => if i@.len() > 0 {
                NowPlayingInfo {
                    bundle_id: Some(i),
                    bundle_name: Some(b.name),
                    bundle_icon: Some(b.icon),
                    ..*old(info)
                }
            } else {
                *old(info)
            },
            _ => *old(info),
        }),
        f matches Fetched::Metadata(d, at) ==> (match d {
            Some(d) => metadata_merged(*old(info), *final(info), d@, at),
            None => *final(info) == *old(info),
        }),
{
    match f {
        Fetched::PlaybackState(p) => merge_state(info, p),
        Fetched::Application(id, b) => merge_app(info, id, b),
        Fetched::Metadata(d, at) => merge_info(info, d, at),
    }
}

/// Field isolation: along any sequence of updater passes, each of which
/// changes only the fields it owns, a field group that no pass owns keeps
/// its value from the first snapshot to the last.
pub proof fn lemma_untargeted_fields_kept(
    states: Seq<NowPlayingInfo>,
    passes: Seq<Updater>,
    g: Updater,
)
    requires
        states.len() == passes.len() + 1,
        forall|i: int|
            0 <= i < passes.len() ==> only_touches(#[trigger] passes[i], states[i], states[i + 1]),
        forall|i: int| 0 <= i < passes.len() ==> #[trigger] passes[i] != g,
    ensures
        part(g, states.last()) == part(g, states[0]),
    decreases passes.len(),
{
    if passes.len() > 0 {
        let n = passes.len() - 1;
        lemma_untargeted_fields_kept(states.drop_last(), passes.drop_last(), g);
        assert(only_touches(passes[n], states[n], states[n + 1]));
        assert(part(g, states[n + 1]) == part(g, states[n]));
    }
}

} // verus!
