//! The watch loop, as a state machine.
//!
//! Whoever runs the loop waits for file-system events with a timeout of one
//! second and hands each event, or the timeout, to [`WatchState::step`]. The
//! state machine coalesces bursts of changes: a rebuild is due once the
//! source tree has been quiet for the debounce window.

use vstd::prelude::*;
use vstd::string::*;
use crate::text::{lowercase_text, same_text, to_lowercase};
use crate::utils::{extension_of, path_extension};

verus! {

/// How long the source tree has to be quiet before a rebuild, in
/// milliseconds.
pub const DEBOUNCE_MS: u64 = 1000;

/// How long a change stays worth a rebuild, in milliseconds.
pub const EXPIRY_MS: u64 = 10000;

/// What happened to the paths of an event.
#[derive(Clone, Copy, Debug, PartialEq, Eq, Structural)]
pub enum ChangeKind {
    Create,
    Modify,
    Remove,
    Access,
    Other,
}

/// One path of an event.
#[derive(Clone, Debug)]
pub struct ChangedPath {
    pub path: String,
    pub is_dir: bool,
}

/// What the loop met at one turn.
#[derive(Clone, Debug)]
pub enum WatchEvent {
    /// The file system reported a change.
    Changed { kind: ChangeKind, paths: Vec<ChangedPath> },
    /// Nothing happened for a second.
    Timeout,
    /// The event source is gone.
    Disconnected,
}

/// What the loop has to do after one turn.
#[derive(Clone, Copy, Debug, PartialEq, Eq, Structural)]
pub struct WatchAction {
    /// Load the content anew and generate the site.
    pub regenerate: bool,
    /// Leave the loop.
    pub stop: bool,
}

/// The state of the loop: since when there is a change waiting for a rebuild.
#[derive(Clone, Copy, Debug, PartialEq, Eq, Structural)]
pub struct WatchState {
    pub pending_since: Option<u64>,
}

/// Whether an extension, in lower case, marks a file whose change matters.
pub open spec fn relevant_extension(extension: Seq<char>) -> bool {
    extension == "md"@ || extension == "markdown"@ || extension == "yml"@ || extension == "yaml"@
        || extension == "html"@ || extension == "css"@ || extension == "js"@
}

/// Whether a change of this path matters: the path is a directory, or a file
/// with a relevant extension, whatever its case. The site configuration is
/// among these by its extension.
pub open spec fn relevant_path(path: Seq<char>, is_dir: bool) -> bool {
    is_dir || match path_extension(path) {
        Some(extension) => relevant_extension(lowercase_text(extension)),
        None => false,
    }
}

/// Whether one of the first `n` paths matters.
pub open spec fn any_relevant(paths: Seq<ChangedPath>, n: int) -> bool {
    exists|k: int| 0 <= k < n && relevant_path((#[trigger] paths[k]).path@, paths[k].is_dir)
}

/// Whether an event calls for a rebuild: something was created, modified or
/// removed, and one of its paths matters.
pub open spec fn relevant_change(kind: ChangeKind, paths: Seq<ChangedPath>) -> bool {
    (kind == ChangeKind::Create || kind == ChangeKind::Modify || kind == ChangeKind::Remove)
        && any_relevant(paths, paths.len() as int)
}

/// Whether a rebuild is due at `now`: a change is pending, the tree has been
/// quiet for the debounce window, and the change has not expired.
pub open spec fn rebuild_due(state: WatchState, now: u64) -> bool {
    state.pending_since matches Some(since) && since <= now && DEBOUNCE_MS <= now - since
        < EXPIRY_MS
}

/// Whether the pending change is dropped at a timeout at `now`: it was acted
/// on or it has expired.
pub open spec fn settled(state: WatchState, now: u64) -> bool {
    state.pending_since matches Some(since) && since <= now && DEBOUNCE_MS <= now - since
}

/// The state after one turn of the loop.
pub open spec fn next_state(state: WatchState, event: WatchEvent, now: u64) -> WatchState {
    match event {
        WatchEvent::Changed { kind, paths } => if relevant_change(kind, paths@) {
            WatchState { pending_since: Some(now) }
        } else {
            state
        },
        WatchEvent::Timeout => if settled(state, now) {
            WatchState { pending_since: None }
        } else {
            state
        },
        WatchEvent::Disconnected => state,
    }
}

/// What is to be done after one turn of the loop. The loop is left when the
/// event source is gone, or at a timeout after the watch was called off.
pub open spec fn next_action(
    state: WatchState,
    event: WatchEvent,
    now: u64,
    watching: bool,
) -> WatchAction {
    match event {
        WatchEvent::Changed { .. } => WatchAction { regenerate: false, stop: false },
        WatchEvent::Timeout => WatchAction { regenerate: rebuild_due(state, now), stop: !watching },
        WatchEvent::Disconnected => WatchAction { regenerate: false, stop: true },
    }
}

fn is_relevant_extension(extension: &str) -> (r: bool)
    ensures
        r == relevant_extension(extension@),
{
    same_text(extension, "md") || same_text(extension, "markdown") || same_text(extension, "yml")
        || same_text(extension, "yaml") || same_text(extension, "html") || same_text(
        extension,
        "css",
    ) || same_text(extension, "js")
}

/// Tells whether a change of this path matters.
pub fn is_relevant_path(path: &str, is_dir: bool) -> (r: bool)
    ensures
        r == relevant_path(path@, is_dir),
{
    if is_dir {
        return true;
    }
    match extension_of(path) {
        Some(extension) => {
            let lowered = to_lowercase(extension.as_str());
            is_relevant_extension(lowered.as_str())
        },
        None => false,
    }
}

/// Tells whether an event calls for a rebuild.
pub fn is_relevant_change(kind: ChangeKind, paths: &Vec<ChangedPath>) -> (r: bool)
    ensures
        r == relevant_change(kind, paths@),
{
    match kind {
        ChangeKind::Create | ChangeKind::Modify | ChangeKind::Remove => {},
        _ => {
            return false;
        },
    }
    let mut i: usize = 0;
    while i < paths.len()
        invariant
            i <= paths.len(),
            kind == ChangeKind::Create || kind == ChangeKind::Modify || kind == ChangeKind::Remove,
            !any_relevant(paths@, i as int),
        decreases paths.len() - i,
    {
        if is_relevant_path(paths[i].path.as_str(), paths[i].is_dir) {
            assert(any_relevant(paths@, paths@.len() as int)) by {
                assert(relevant_path(paths@[i as int].path@, paths@[i as int].is_dir));
            }
            return true;
        }
        assert(!any_relevant(paths@, i + 1)) by {
            if any_relevant(paths@, i + 1) {
                let k = choose|k: int|
                    0 <= k < i + 1 && relevant_path((#[trigger] paths@[k]).path@, paths@[k].is_dir);
                assert(k < i ==> any_relevant(paths@, i as int));
            }
        }
        i = i + 1;
    }
    false
}

impl WatchState {
    /// The state of a loop that starts at `now`. The start counts as a
    /// change, so that the first quiet second brings a first rebuild.
    pub fn start(now: u64) -> (r: WatchState)
        ensures
            r.pending_since == Some(now),
    {
        WatchState { pending_since: Some(now) }
    }

    /// Takes one turn of the loop: the event met at `now`, on a clock that
    /// counts milliseconds and never runs backwards.
    pub fn step(&mut self, event: &WatchEvent, now: u64, watching: bool) -> (action: WatchAction)
        ensures
            *final(self) == next_state(*old(self), *event, now),
            action == next_action(*old(self), *event, now, watching),
    {
        match event {
            WatchEvent::Changed { kind, paths } => {
                if is_relevant_change(*kind, paths) {
                    self.pending_since = Some(now);
                }
                WatchAction { regenerate: false, stop: false }
            },
            WatchEvent::Timeout => {
                let mut regenerate = false;
                match self.pending_since {
                    Some(since) => {
                        if since <= now && now - since >= DEBOUNCE_MS {
                            regenerate = now - since < EXPIRY_MS;
                            self.pending_since = None;
                        }
                    },
                    None => {},
                }
                WatchAction { regenerate, stop: !watching }
            },
            WatchEvent::Disconnected => WatchAction { regenerate: false, stop: true },
        }
    }
}

/// A burst of changes brings one rebuild: after a rebuild nothing is pending,
/// and no further timeout brings another until a relevant change arrives.
pub proof fn lemma_one_rebuild_per_burst(state: WatchState, now: u64, later: u64, watching: bool)
    requires
        rebuild_due(state, now),
    ensures
        next_state(state, WatchEvent::Timeout, now).pending_since is None,
        !next_action(
            next_state(state, WatchEvent::Timeout, now),
            WatchEvent::Timeout,
            later,
            watching,
        ).regenerate,
{
}

/// No rebuild before the tree has been quiet for the debounce window.
pub proof fn lemma_no_rebuild_within_window(
    state: WatchState,
    kind: ChangeKind,
    paths: Vec<ChangedPath>,
    at: u64,
    now: u64,
    watching: bool,
)
    requires
        relevant_change(kind, paths@),
        at <= now < at + DEBOUNCE_MS,
    ensures
        !next_action(
            next_state(state, WatchEvent::Changed { kind, paths }, at),
            WatchEvent::Timeout,
            now,
            watching,
        ).regenerate,
{
}

} // verus!
