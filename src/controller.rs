use vstd::prelude::*;

use crate::types::Command;

verus! {

/// The code to hand to the native command sink for `command`, or `None`
/// while the session has no snapshot yet: then nothing is sent.
pub fn gated_code(has_snapshot: bool, command: Command) -> (r: Option<i32>)
    ensures
        r == (if has_snapshot {
            Some(command.spec_code())
        } else {
            None::<i32>
        }),
{
    if has_snapshot {
        Some(command.code())
    } else {
        None
    }
}

/// Playback commands, gated on whether the session has observed a snapshot
/// yet. An implementor says whether a snapshot exists (`has_snapshot` and
/// `is_info_some` give the same answer) and forwards a code to the native
/// command sink; the provided methods reach the sink only through
/// `gated_code`, so they send nothing and return `false` while no snapshot
/// exists, and otherwise return what the sink answered.
pub trait Controller {
    /// Whether the session holds a snapshot.
    spec fn has_snapshot(&self) -> bool;

    /// Whether the session holds a snapshot.
    fn is_info_some(&self) -> (r: bool)
        ensures
            r == self.has_snapshot(),
    ;

    /// Hands `code` to the native command sink; whether the sink accepted it.
    fn send_command(&self, code: i32) -> bool;

    /// Sends `command` if a snapshot exists.
    fn send_gated(&self, command: Command) -> (r: bool)
        ensures
            r ==> self.has_snapshot(),
    {
        match gated_code(self.is_info_some(), command) {
            Some(code) => self.send_command(code),
            None => false,
        }
    }

    /// Toggles between play and pause.
    fn toggle(&self) -> (r: bool)
        ensures
            r ==> self.has_snapshot(),
    {
        self.send_gated(Command::TogglePlayPause)
    }

    /// Plays the current media.
    fn play(&self) -> (r: bool)
        ensures
            r ==> self.has_snapshot(),
    {
        self.send_gated(Command::Play)
    }

    /// Pauses the current media.
    fn pause(&self) -> (r: bool)
        ensures
            r ==> self.has_snapshot(),
    {
        self.send_gated(Command::Pause)
    }

    /// Skips to the next track.
    fn next(&self) -> (r: bool)
        ensures
            r ==> self.has_snapshot(),
    {
        self.send_gated(Command::NextTrack)
    }

    /// Returns to the previous track.
    fn previous(&self) -> (r: bool)
        ensures
            r ==> self.has_snapshot(),
    {
        self.send_gated(Command::PreviousTrack)
    }
}

} // verus!
