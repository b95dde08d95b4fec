//! A live "now playing" media snapshot: the verified core of the session
//! logic. Native calls, locks and threads stay with the caller; this crate
//! decides what each update merges, how reads extrapolate the playback
//! position, which listeners are notified and when commands may be sent.

pub mod artwork;
pub mod bridge;
pub mod controller;
pub mod pipeline;
pub mod record;
pub mod snapshot;
pub mod subscription;
pub mod text;
pub mod types;

pub use bridge::{BridgeCell, BRIDGE_TIMEOUT_MS};
pub use controller::{gated_code, Controller};
pub use pipeline::{
    apply_fetched, artwork_data, choose_bundle_id, find_entry, merge_app, merge_info,
    merge_info_decoded, merge_state,
    observed_notifications, plan_update, updater_for, Fetched, Updater,
};
pub use record::{
    artwork_of, polled_info, streamed_info, streamed_info_decoded, strip_newlines, SourceRecord,
};
pub use snapshot::{
    bundle_info_from, extrapolate_elapsed, replace_if_changed, replace_if_changed_given,
    same_cover, same_info, same_info_given, BundleInfo, NowPlayingInfo,
};
pub use subscription::{ListenerToken, Listeners, ListenersView};
pub use types::{Command, InfoTypes, Notification, Number};
