//! The background job's toggle state.
//!
//! A small switch the HTTP routes flip: whether the periodic effectuation
//! job runs, and how long it sleeps between rounds. The surrounding loop
//! and its timer live outside this crate; the state transitions are
//! verified here.

use vstd::prelude::*;
use vstd::string::*;
use crate::jsonenc::{append_u64, dec_str};

verus! {

/// Whether the background job is running.
#[derive(Clone, Copy, Debug, PartialEq, Eq, Structural)]
pub enum State {
    Stopped,
    Started,
}

impl Default for State {
    /// The job starts out stopped.
    fn default() -> (r: State)
        ensures
            r == State::Stopped,
    {
        State::Stopped
    }
}

/// The job's toggle and its sleep interval in milliseconds.
#[derive(Clone, Copy, Debug, PartialEq, Eq, Structural)]
pub struct JobState {
    pub state: State,
    pub sleep_ms: u64,
}

impl Default for JobState {
    /// A stopped job that would sleep one second between rounds.
    fn default() -> (r: JobState)
        ensures
            r.state == State::Stopped,
            r.sleep_ms == 1000,
    {
        JobState { state: State::Stopped, sleep_ms: 1000 }
    }
}

/// The display name of a job state.
pub open spec fn spec_state_name(s: State) -> Seq<char> {
    match s {
        State::Stopped => "Stopped"@,
        State::Started => "Started"@,
    }
}

impl JobState {
    /// Starts the job.
    pub fn start(&mut self)
        ensures
            final(self).state == State::Started,
            final(self).sleep_ms == old(self).sleep_ms,
    {
        self.state = State::Started;
    }

    /// Stops the job.
    pub fn stop(&mut self)
        ensures
            final(self).state == State::Stopped,
            final(self).sleep_ms == old(self).sleep_ms,
    {
        self.state = State::Stopped;
    }

    /// Sets the sleep interval between rounds.
    pub fn set_sleep_ms(&mut self, ms: u64)
        ensures
            final(self).state == old(self).state,
            final(self).sleep_ms == ms,
    {
        self.sleep_ms = ms;
    }

    /// Whether a round of the job should run now.
    pub fn should_run(&self) -> (r: bool)
        ensures
            r == (self.state == State::Started),
    {
        match self.state {
            State::Started => true,
            State::Stopped => false,
        }
    }

    /// A one-line description of the state, as the debug route reports it.
    pub fn describe(&self) -> (r: String)
        ensures
            r@ == "state: "@ + spec_state_name(self.state) + " sleep_ms: "@ + dec_str(
                self.sleep_ms as int,
            ),
    {
        let mut out = String::new();
        out.append("state: ");
        match self.state {
            State::Stopped => out.append("Stopped"),
            State::Started => out.append("Started"),
        }
        out.append(" sleep_ms: ");
        append_u64(&mut out, self.sleep_ms);
        assert(out@ =~= "state: "@ + spec_state_name(self.state) + " sleep_ms: "@ + dec_str(
            self.sleep_ms as int,
        ));
        out
    }
}

} // verus!
