//! A streaming install session: the verified state machine behind an
//! install whose output is delivered line by line. The caller spawns
//! the planned command, drains its two output streams concurrently —
//! the interleaving between the streams is not specified, the order
//! within each stream is whatever order the caller drains it in — and
//! fires the terminal completion signal exactly once, after both
//! streams are done. A refused plan means no session ever exists, so
//! nothing can be delivered for it.

use vstd::prelude::*;

use crate::errors::AppError;
use crate::platform::Platform;
use crate::shell::CommandSpec;
use crate::tool_service::install_plan;
use crate::tool_service::ToolService;

verus! {

/// One event delivered to the subscriber.
#[derive(Debug, PartialEq)]
pub enum InstallEvent {
    /// One line of captured output.
    Line(String),
    /// The terminal completion signal, carrying the overall success
    /// flag derived from the process exit status.
    Done(bool),
}

/// The mathematical model of an event.
pub enum InstallEventModel {
    Line(Seq<char>),
    Done(bool),
}

impl View for InstallEvent {
    type V = InstallEventModel;

    open spec fn view(&self) -> InstallEventModel {
        match self {
            InstallEvent::Line(s) => InstallEventModel::Line(s@),
            InstallEvent::Done(b) => InstallEventModel::Done(*b),
        }
    }
}

/// The model of an event list.
pub open spec fn events_view(s: Seq<InstallEvent>) -> Seq<InstallEventModel> {
    Seq::new(s.len(), |i: int| s[i]@)
}

/// A streaming install session: the planned command, the events
/// delivered so far, and whether the terminal signal has fired.
pub struct InstallStream {
    pub command: CommandSpec,
    pub events: Vec<InstallEvent>,
    pub finished: bool,
}

impl InstallStream {
    /// Session discipline: until the session finishes every event is a
    /// line; once it finishes, the one terminal signal stands at the
    /// end and nothing follows it.
    pub open spec fn wf(&self) -> bool {
        &&& !self.finished ==> forall|i: int|
            0 <= i < self.events@.len() ==> (#[trigger] events_view(self.events@)[i]) is Line
        &&& self.finished ==> self.events@.len() > 0 && events_view(self.events@).last() is Done
            && forall|i: int|
            0 <= i < self.events@.len() - 1 ==> (#[trigger] events_view(self.events@)[i]) is Line
    }

    /// Opens a session for installing `tool` via `method` on
    /// `platform`. A pair the planner refuses is refused here with the
    /// same error, before any session exists: no event can ever be
    /// delivered for it. An opened session carries the planned
    /// command and has delivered nothing.
    pub fn start(tool: &str, method: &str, platform: Platform) -> (r: Result<
        InstallStream,
        AppError,
    >)
        ensures
            match install_plan(tool@, method@, platform) {
                Ok(c) => r matches Ok(s) && s.command@ == c && s.events@.len() == 0 && !s.finished
                    && s.wf(),
                Err(e) => r matches Err(x) && x@ == e,
            },
    {
        match ToolService::install(tool, method, platform) {
            Ok(command) => Ok(InstallStream { command, events: Vec::new(), finished: false }),
            Err(e) => Err(e),
        }
    }

    /// Delivers one line of output to the subscriber. Only an
    /// unfinished session accepts lines; everything delivered before
    /// stays exactly as it was, in order.
    pub fn on_line(&mut self, line: String)
        requires
            !old(self).finished,
            old(self).wf(),
        ensures
            final(self).wf(),
            !final(self).finished,
            final(self).command == old(self).command,
            final(self).events@ == old(self).events@.push(InstallEvent::Line(line)),
    {
        self.events.push(InstallEvent::Line(line));
        proof {
            assert(forall|i: int|
                0 <= i < old(self).events@.len() ==> events_view(self.events@)[i] == events_view(
                    old(self).events@,
                )[i]);
        }
    }

    /// Fires the terminal completion signal, carrying the overall
    /// success flag. It fires once: the session is finished afterwards
    /// and accepts nothing further; every line delivered before stays
    /// exactly as it was, in order, ahead of the signal.
    pub fn finish(&mut self, success: bool)
        requires
            !old(self).finished,
            old(self).wf(),
        ensures
            final(self).wf(),
            final(self).finished,
            final(self).command == old(self).command,
            final(self).events@ == old(self).events@.push(InstallEvent::Done(success)),
    {
        self.events.push(InstallEvent::Done(success));
        self.finished = true;
        proof {
            assert(forall|i: int|
                0 <= i < old(self).events@.len() ==> events_view(self.events@)[i] == events_view(
                    old(self).events@,
                )[i]);
            assert(events_view(self.events@).last() is Done);
        }
    }
}

} // verus!
