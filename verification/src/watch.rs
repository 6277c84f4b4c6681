//! The Change Detector: which file-system notifications count, and what
//! the detector does with each flush of the debouncer.

use vstd::prelude::*;
use crate::event::SyncEvent;

verus! {

/// The quiet period of the debouncer, in seconds.
pub const DEBOUNCE_WINDOW_SECS: u64 = 10;

/// What kind of modification a notification reports.
#[derive(Clone, Copy, Debug, PartialEq, Eq)]
pub enum ModifyKind {
    /// Unknown.
    Any,
    /// The content changed.
    Data,
    /// Only metadata changed.
    Metadata,
    /// The name changed.
    Name,
    /// None of these.
    Other,
}

/// The kind of a file-system notification.
#[derive(Clone, Copy, Debug, PartialEq, Eq)]
pub enum FsEventKind {
    /// Unknown.
    Any,
    Access,
    Create,
    Modify(ModifyKind),
    Remove,
    /// None of these.
    Other,
}

/// Whether a notification counts as a change: creations, removals, and
/// modifications other than renames and changes of metadata alone.
pub open spec fn relevant(kind: FsEventKind) -> bool {
    match kind {
        FsEventKind::Create => true,
        FsEventKind::Remove => true,
        FsEventKind::Modify(ModifyKind::Metadata) => false,
        FsEventKind::Modify(ModifyKind::Name) => false,
        FsEventKind::Modify(_) => true,
        _ => false,
    }
}

/// Whether a notification counts as a change.
pub fn is_relevant(kind: FsEventKind) -> (r: bool)
    ensures
        r == relevant(kind),
{
    match kind {
        FsEventKind::Create => true,
        FsEventKind::Remove => true,
        FsEventKind::Modify(ModifyKind::Metadata) => false,
        FsEventKind::Modify(ModifyKind::Name) => false,
        FsEventKind::Modify(_) => true,
        _ => false,
    }
}

/// What a flushed batch puts on the bus: one file change if any of its
/// notifications counts, and nothing otherwise.
pub open spec fn signal(batch: Seq<FsEventKind>) -> Option<SyncEvent> {
    if exists|i: int| 0 <= i < batch.len() && relevant(#[trigger] batch[i]) {
        Some(SyncEvent::FileChange)
    } else {
        None
    }
}

/// What a flushed batch puts on the bus.
pub fn flush_signal(batch: &Vec<FsEventKind>) -> (s: Option<SyncEvent>)
    ensures
        s == signal(batch@),
{
    let mut i: usize = 0;
    while i < batch.len()
        invariant
            i <= batch.len(),
            forall|j: int| 0 <= j < i ==> !relevant(#[trigger] batch@[j]),
        decreases batch.len() - i,
    {
        if is_relevant(batch[i]) {
            return Some(SyncEvent::FileChange);
        }
        i += 1;
    }
    None
}

/// Why the detector cannot go on.
#[derive(Clone, Copy, Debug, PartialEq, Eq)]
pub enum WatchError {
    /// The watch on the directory could not be set up.
    Setup,
    /// The watch failed after it was set up.
    Lost,
}

/// The state of the Change Detector.
#[derive(Clone, Copy, Debug, PartialEq, Eq)]
pub enum ChangeDetector {
    /// The watch is being set up.
    Starting,
    /// The detector waits for the debouncer to flush.
    Watching,
    /// A file change is being put on the bus.
    Sending,
    /// The bus is closed.
    Closed,
    /// The detector cannot go on, and neither can the daemon.
    Failed(WatchError),
}

/// What the host reports to the detector.
#[derive(Debug, PartialEq, Eq)]
pub enum DetectorInput {
    /// The watch is set up.
    Started,
    /// The debouncer flushed these notifications.
    Flush(Vec<FsEventKind>),
    /// The watch reported an error.
    Failure,
    /// The event was put on the bus.
    Delivered,
    /// The event could not be put on the bus: the consumer is gone.
    Undeliverable,
}

/// What the detector wants of the host next.
#[derive(Clone, Copy, Debug, PartialEq, Eq)]
pub enum DetectorAction {
    /// Watch the directory, with or without what lies below it, behind a
    /// debouncer with this quiet period.
    Watch { debounce_secs: u64, recursive: bool },
    /// Wait for the debouncer to flush.
    AwaitFlush,
    /// Put the event on the bus.
    Send(SyncEvent),
    /// End the detector's thread quietly.
    Exit,
    /// Bring the daemon down with this error.
    Abort(WatchError),
}

/// What the detector wants in a state.
pub open spec fn detector_action(s: ChangeDetector) -> DetectorAction {
    match s {
        ChangeDetector::Starting => DetectorAction::Watch {
            debounce_secs: DEBOUNCE_WINDOW_SECS,
            recursive: true,
        },
        ChangeDetector::Watching => DetectorAction::AwaitFlush,
        ChangeDetector::Sending => DetectorAction::Send(SyncEvent::FileChange),
        ChangeDetector::Closed => DetectorAction::Exit,
        ChangeDetector::Failed(e) => DetectorAction::Abort(e),
    }
}

/// The state that follows `s` on an input.
///
/// A flush puts at most one event on the bus, however many notifications it
/// holds, and none if none of them counts.  An error of the watch is final,
/// and so is a closed bus.  An input that does not answer what the detector
/// wants leaves it as it is.
pub open spec fn detector_step(s: ChangeDetector, input: DetectorInput) -> ChangeDetector {
    match s {
        ChangeDetector::Starting => match input {
            DetectorInput::Started => ChangeDetector::Watching,
            DetectorInput::Failure => ChangeDetector::Failed(WatchError::Setup),
            _ => s,
        },
        ChangeDetector::Watching => match input {
            DetectorInput::Flush(batch) => if signal(batch@) is Some {
                ChangeDetector::Sending
            } else {
                ChangeDetector::Watching
            },
            DetectorInput::Failure => ChangeDetector::Failed(WatchError::Lost),
            _ => s,
        },
        ChangeDetector::Sending => match input {
            DetectorInput::Delivered => ChangeDetector::Watching,
            DetectorInput::Undeliverable => ChangeDetector::Closed,
            _ => s,
        },
        _ => s,
    }
}

impl ChangeDetector {
    /// A detector at its beginning: the watch is being set up.
    pub fn start() -> (d: ChangeDetector)
        ensures
            d == ChangeDetector::Starting,
    {
        ChangeDetector::Starting
    }

    /// What the host has to do next.
    pub fn action(&self) -> (a: DetectorAction)
        ensures
            a == detector_action(*self),
    {
        match self {
            ChangeDetector::Starting => DetectorAction::Watch {
                debounce_secs: DEBOUNCE_WINDOW_SECS,
                recursive: true,
            },
            ChangeDetector::Watching => DetectorAction::AwaitFlush,
            ChangeDetector::Sending => DetectorAction::Send(SyncEvent::FileChange),
            ChangeDetector::Closed => DetectorAction::Exit,
            ChangeDetector::Failed(e) => DetectorAction::Abort(*e),
        }
    }

    /// Advances the detector by an input.
    pub fn step(self, input: DetectorInput) -> (next: ChangeDetector)
        ensures
            next == detector_step(self, input),
    {
        match self {
            ChangeDetector::Starting => match input {
                DetectorInput::Started => ChangeDetector::Watching,
                DetectorInput::Failure => ChangeDetector::Failed(WatchError::Setup),
                _ => self,
            },
            ChangeDetector::Watching => match input {
                DetectorInput::Flush(batch) => match flush_signal(&batch) {
                    Some(_) => ChangeDetector::Sending,
                    None => ChangeDetector::Watching,
                },
                DetectorInput::Failure => ChangeDetector::Failed(WatchError::Lost),
                _ => self,
            },
            ChangeDetector::Sending => match input {
                DetectorInput::Delivered => ChangeDetector::Watching,
                DetectorInput::Undeliverable => ChangeDetector::Closed,
                _ => self,
            },
            _ => self,
        }
    }
}

/// Debouncing, as far as the detector decides it: the notifications of one
/// flush, however many, put exactly one file change on the bus if any of
/// them counts, after which the detector waits for the next flush; and they
/// put nothing on the bus if none of them counts.
pub proof fn theorem_one_signal_per_flush(batch: Vec<FsEventKind>)
    ensures
        ({
            let flushed = detector_step(ChangeDetector::Watching, DetectorInput::Flush(batch));
            if exists|i: int| 0 <= i < batch@.len() && relevant(#[trigger] batch@[i]) {
                &&& detector_action(flushed) == DetectorAction::Send(SyncEvent::FileChange)
                &&& detector_action(detector_step(flushed, DetectorInput::Delivered))
                    == DetectorAction::AwaitFlush
            } else {
                detector_action(flushed) == DetectorAction::AwaitFlush
            }
        }),
{
}

} // verus!
