//! The periodic reload as a state machine: the caller sleeps and reads the
//! source, and each turn here decides what comes next.

use crate::artifact::{after_update, get_data, loads_as, Artifact};
use crate::error::ArtifactError;
use vstd::prelude::*;

verus! {

/// Where a watch task stands: waiting for its timer, waiting for the source
/// to be read, or ended by a failed load.
#[derive(Clone, Copy, Debug, PartialEq, Eq, Structural)]
pub enum WatchPhase {
    Waiting,
    Reloading,
    Failed,
}

/// What happened outside since the last action.
pub enum WatchEvent {
    /// The sleep is over.
    TimerFired,
    /// The source was read, or could not be.
    SourceRead(Result<String, std::io::Error>),
}

/// What the caller does next.
#[derive(Debug)]
pub enum WatchAction {
    /// Sleep for this many seconds, then report `TimerFired`.
    Sleep(u64),
    /// Read the source, then report `SourceRead`.
    Reload,
    /// End the task with this error.
    Stop(ArtifactError),
}

pub struct WatchTask {
    pub interval_secs: u64,
    pub phase: WatchPhase,
}

/// The slot after a reload whose load gave `loaded`: the new value, or the
/// value it held where the load failed.
pub open spec fn after_reload<T>(before: Option<T>, loaded: Result<T, ArtifactError>) -> Option<T> {
    match loaded {
        Ok(value) => after_update(before, value),
        Err(_) => before,
    }
}

/// The phase that follows a reload whose load gave `loaded`.
pub open spec fn phase_after_reload<T>(loaded: Result<T, ArtifactError>) -> WatchPhase {
    match loaded {
        Ok(_) => WatchPhase::Waiting,
        Err(_) => WatchPhase::Failed,
    }
}

/// `action` is what follows a reload whose load gave `loaded`: the next
/// sleep, or a stop with the load's failure wrapped as a watch error of the
/// same kind, with the failure's text.
pub open spec fn reload_answers<T>(
    interval_secs: u64,
    loaded: Result<T, ArtifactError>,
    action: WatchAction,
) -> bool {
    match loaded {
        Ok(_) => action == WatchAction::Sleep(interval_secs),
        Err(cause) => action matches WatchAction::Stop(ArtifactError::WatchError(kind, text))
            && Some(kind) == cause.kind() && cause.renders_as(text@),
    }
}

impl WatchTask {
    /// Whether the task, in its phase, waits for `event`.
    pub open spec fn expects(self, event: WatchEvent) -> bool {
        match (self.phase, event) {
            (WatchPhase::Waiting, WatchEvent::TimerFired) => true,
            (WatchPhase::Reloading, WatchEvent::SourceRead(_)) => true,
            _ => false,
        }
    }

    /// A task that reloads every `interval_secs` seconds, before its first sleep.
    pub fn new(interval_secs: u64) -> (task: Self)
        ensures
            task.interval_secs == interval_secs,
            task.phase == WatchPhase::Waiting,
    {
        WatchTask { interval_secs, phase: WatchPhase::Waiting }
    }

    /// The action that a new task begins with: its first sleep.
    pub fn start(&self) -> (action: WatchAction)
        ensures
            action == WatchAction::Sleep(self.interval_secs),
    {
        WatchAction::Sleep(self.interval_secs)
    }

    pub fn awaits(&self, event: &WatchEvent) -> (expected: bool)
        ensures
            expected == self.expects(*event),
    {
        match self.phase {
            WatchPhase::Waiting => match event {
                WatchEvent::TimerFired => true,
                WatchEvent::SourceRead(_) => false,
            },
            WatchPhase::Reloading => match event {
                WatchEvent::TimerFired => false,
                WatchEvent::SourceRead(_) => true,
            },
            WatchPhase::Failed => false,
        }
    }
}

impl<T> Artifact<T> {
    /// Ends a reload with the result of the load. A loaded value replaces
    /// the stored one and the task sleeps again; a failed load leaves the
    /// stored value as it was and ends the task.
    pub fn reload(&mut self, task: &mut WatchTask, loaded: Result<T, ArtifactError>) -> (action:
        WatchAction)
        requires
            old(self)@ is Some,
            old(task).phase == WatchPhase::Reloading,
            loaded matches Err(e) ==> e.is_load_failure(),
        ensures
            final(self)@ == after_reload(old(self)@, loaded),
            final(task).interval_secs == old(task).interval_secs,
            final(task).phase == phase_after_reload(loaded),
            reload_answers(old(task).interval_secs, loaded, action),
    {
        match loaded {
            Ok(new_data) => {
                match self.update(new_data) {
                    Ok(()) => {
                        task.phase = WatchPhase::Waiting;
                        WatchAction::Sleep(task.interval_secs)
                    },
                    Err(e) => {
                        task.phase = WatchPhase::Failed;
                        WatchAction::Stop(ArtifactError::UpdateError(e.message()))
                    },
                }
            },
            Err(cause) => {
                task.phase = WatchPhase::Failed;
                WatchAction::Stop(ArtifactError::reload_failure(&cause))
            },
        }
    }

    /// One turn of the watch loop. When the timer has fired the source is to
    /// be read; when it has been read, its content is decoded and the reload
    /// ends as `reload` says.
    pub fn watch<F: FnOnce(String) -> Result<T, serde_json::Error>>(
        &mut self,
        task: &mut WatchTask,
        event: WatchEvent,
        decode: F,
    ) -> (action: WatchAction)
        requires
            old(self)@ is Some,
            old(task).expects(event),
            event matches WatchEvent::SourceRead(Ok(content)) ==> decode.requires((content,)),
        ensures
            final(task).interval_secs == old(task).interval_secs,
            event is TimerFired ==> final(self)@ == old(self)@ && final(task).phase
                == WatchPhase::Reloading && action == WatchAction::Reload,
            event matches WatchEvent::SourceRead(read) ==> exists|loaded: Result<T, ArtifactError>|
                #[trigger] loads_as(read, decode, loaded) && final(self)@ == after_reload(
                    old(self)@,
                    loaded,
                ) && final(task).phase == phase_after_reload(loaded) && reload_answers(
                    old(task).interval_secs,
                    loaded,
                    action,
                ),
    {
        match event {
            WatchEvent::TimerFired => {
                task.phase = WatchPhase::Reloading;
                WatchAction::Reload
            },
            WatchEvent::SourceRead(read) => {
                let loaded = get_data(read, decode);
                let ghost kept = loaded;
                let action = self.reload(task, loaded);
                assert(loads_as(read, decode, kept));
                action
            },
        }
    }
}

} // verus!
