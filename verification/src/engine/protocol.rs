//! What the engine is told and what it asks for.
//!
//! The engine never touches a socket, a file or a timer. Each step takes one
//! [`Input`], the answer to the command before, and gives one [`Output`]: the
//! observability events to emit and the next [`Command`] to perform.

use crate::error::{Error, ErrorView};
use crate::ip::IpAddress;
use crate::traits::{IpChangeEvent, StateRecord, StateRecordView, UpdateResult};
use vstd::prelude::*;

verus! {

/// An observability record of the engine.
#[derive(Debug, PartialEq, Eq)]
pub enum EngineEvent {
    /// A change of address reached an enabled, supported record.
    IpChangeDetected { record_name: String, new_ip: IpAddress },
    /// The provider is about to be called.
    UpdateStarted { record_name: String, new_ip: IpAddress },
    /// The provider applied the address.
    UpdateSucceeded { record_name: String, new_ip: IpAddress, previous_ip: Option<IpAddress> },
    /// No provider call was needed or allowed.
    UpdateSkipped { record_name: String, current_ip: IpAddress },
    /// Every attempt failed.
    UpdateFailed { record_name: String, error: String, retry_count: usize },
    /// The engine started.
    Started { records_count: usize },
    /// The engine is about to stop.
    Stopped { reason: String },
}

/// An [`EngineEvent`] with its texts as character sequences.
pub enum EngineEventView {
    IpChangeDetected { record_name: Seq<char>, new_ip: IpAddress },
    UpdateStarted { record_name: Seq<char>, new_ip: IpAddress },
    UpdateSucceeded { record_name: Seq<char>, new_ip: IpAddress, previous_ip: Option<IpAddress> },
    UpdateSkipped { record_name: Seq<char>, current_ip: IpAddress },
    UpdateFailed { record_name: Seq<char>, error: Seq<char>, retry_count: nat },
    Started { records_count: nat },
    Stopped { reason: Seq<char> },
}

impl View for EngineEvent {
    type V = EngineEventView;

    open spec fn view(&self) -> EngineEventView {
        match self {
            EngineEvent::IpChangeDetected { record_name, new_ip } => {
                EngineEventView::IpChangeDetected { record_name: record_name@, new_ip: *new_ip }
            },
            EngineEvent::UpdateStarted { record_name, new_ip } => EngineEventView::UpdateStarted {
                record_name: record_name@,
                new_ip: *new_ip,
            },
            EngineEvent::UpdateSucceeded { record_name, new_ip, previous_ip } => {
                EngineEventView::UpdateSucceeded {
                    record_name: record_name@,
                    new_ip: *new_ip,
                    previous_ip: *previous_ip,
                }
            },
            EngineEvent::UpdateSkipped { record_name, current_ip } => {
                EngineEventView::UpdateSkipped { record_name: record_name@, current_ip: *current_ip }
            },
            EngineEvent::UpdateFailed { record_name, error, retry_count } => {
                EngineEventView::UpdateFailed {
                    record_name: record_name@,
                    error: error@,
                    retry_count: *retry_count as nat,
                }
            },
            EngineEvent::Started { records_count } => EngineEventView::Started {
                records_count: *records_count as nat,
            },
            EngineEvent::Stopped { reason } => EngineEventView::Stopped { reason: reason@ },
        }
    }
}

impl Clone for EngineEvent {
    fn clone(&self) -> (e: EngineEvent)
        ensures
            e == *self,
    {
        match self {
            EngineEvent::IpChangeDetected { record_name, new_ip } => EngineEvent::IpChangeDetected {
                record_name: record_name.clone(),
                new_ip: *new_ip,
            },
            EngineEvent::UpdateStarted { record_name, new_ip } => EngineEvent::UpdateStarted {
                record_name: record_name.clone(),
                new_ip: *new_ip,
            },
            EngineEvent::UpdateSucceeded { record_name, new_ip, previous_ip } => {
                EngineEvent::UpdateSucceeded {
                    record_name: record_name.clone(),
                    new_ip: *new_ip,
                    previous_ip: *previous_ip,
                }
            },
            EngineEvent::UpdateSkipped { record_name, current_ip } => EngineEvent::UpdateSkipped {
                record_name: record_name.clone(),
                current_ip: *current_ip,
            },
            EngineEvent::UpdateFailed { record_name, error, retry_count } => {
                EngineEvent::UpdateFailed {
                    record_name: record_name.clone(),
                    error: error.clone(),
                    retry_count: *retry_count,
                }
            },
            EngineEvent::Started { records_count } => EngineEvent::Started {
                records_count: *records_count,
            },
            EngineEvent::Stopped { reason } => EngineEvent::Stopped { reason: reason.clone() },
        }
    }
}

/// The one thing the engine wants done next.
#[derive(Debug, PartialEq, Eq)]
pub enum Command {
    /// Sleep for `secs` seconds, then answer [`Input::Slept`].
    Sleep { secs: u64 },
    /// Ask the IP source for the current address; answer [`Input::CurrentIp`].
    ProbeCurrent,
    /// Obtain the source's sequence of changes, then wait as for [`Command::NextEvent`].
    Watch,
    /// Wait for the next change or for cancellation, whichever comes first;
    /// answer [`Input::IpChanged`] or [`Input::Shutdown`].
    NextEvent,
    /// Ask the provider whether it supports the record; answer [`Input::Supported`].
    SupportsRecord { record_name: String },
    /// Read the record's last address from the store; answer [`Input::LastIp`].
    GetLastIp { record_name: String },
    /// Read the record's state from the store; answer [`Input::Record`].
    GetRecord { record_name: String },
    /// Call the provider once; answer [`Input::Updated`].
    UpdateRecord { record_name: String, new_ip: IpAddress },
    /// Write the address to the store; answer [`Input::Stored`].
    SetLastIp { record_name: String, ip: IpAddress },
    /// Flush the store; answer [`Input::Flushed`].
    Flush,
    /// The run is over, with this result. Nothing is answered.
    Finish(Result<(), Error>),
    /// The input was not the answer to the pending command. Nothing has changed.
    Unexpected,
}

/// A [`Command`] with its texts as character sequences.
pub enum CommandView {
    Sleep { secs: u64 },
    ProbeCurrent,
    Watch,
    NextEvent,
    SupportsRecord { record_name: Seq<char> },
    GetLastIp { record_name: Seq<char> },
    GetRecord { record_name: Seq<char> },
    UpdateRecord { record_name: Seq<char>, new_ip: IpAddress },
    SetLastIp { record_name: Seq<char>, ip: IpAddress },
    Flush,
    Finish(Result<(), ErrorView>),
    Unexpected,
}

/// The view of a result whose error is an [`Error`].
pub open spec fn unit_result_view(r: Result<(), Error>) -> Result<(), ErrorView> {
    match r {
        Ok(_) => Ok(()),
        Err(e) => Err(e@),
    }
}

impl View for Command {
    type V = CommandView;

    open spec fn view(&self) -> CommandView {
        match self {
            Command::Sleep { secs } => CommandView::Sleep { secs: *secs },
            Command::ProbeCurrent => CommandView::ProbeCurrent,
            Command::Watch => CommandView::Watch,
            Command::NextEvent => CommandView::NextEvent,
            Command::SupportsRecord { record_name } => CommandView::SupportsRecord {
                record_name: record_name@,
            },
            Command::GetLastIp { record_name } => CommandView::GetLastIp {
                record_name: record_name@,
            },
            Command::GetRecord { record_name } => CommandView::GetRecord {
                record_name: record_name@,
            },
            Command::UpdateRecord { record_name, new_ip } => CommandView::UpdateRecord {
                record_name: record_name@,
                new_ip: *new_ip,
            },
            Command::SetLastIp { record_name, ip } => CommandView::SetLastIp {
                record_name: record_name@,
                ip: *ip,
            },
            Command::Flush => CommandView::Flush,
            Command::Finish(r) => CommandView::Finish(unit_result_view(*r)),
            Command::Unexpected => CommandView::Unexpected,
        }
    }
}

/// The answer to the command before.
#[derive(Debug)]
pub enum Input {
    /// Begin the run.
    Start,
    /// The sleep is over.
    Slept,
    /// What the source's `current()` returned.
    CurrentIp(Result<IpAddress, Error>),
    /// The source reported a change.
    IpChanged(IpChangeEvent),
    /// Cancellation was signalled.
    Shutdown,
    /// What the provider's `supports_record` returned.
    Supported(bool),
    /// What the store's `get_last_ip` returned.
    LastIp(Result<Option<IpAddress>, Error>),
    /// What the store's `get_record` returned.
    Record(Result<Option<StateRecord>, Error>),
    /// What the provider's `update_record` returned.
    Updated(Result<UpdateResult, Error>),
    /// What the store's `set_last_ip` returned.
    Stored(Result<(), Error>),
    /// What the store's `flush` returned.
    Flushed(Result<(), Error>),
}

/// An [`Input`] with its texts as character sequences.
pub enum InputView {
    Start,
    Slept,
    CurrentIp(Result<IpAddress, ErrorView>),
    IpChanged(IpChangeEvent),
    Shutdown,
    Supported(bool),
    LastIp(Result<Option<IpAddress>, ErrorView>),
    Record(Result<Option<StateRecordView>, ErrorView>),
    Updated(Result<UpdateResult, ErrorView>),
    Stored(Result<(), ErrorView>),
    Flushed(Result<(), ErrorView>),
}

impl View for Input {
    type V = InputView;

    open spec fn view(&self) -> InputView {
        match self {
            Input::Start => InputView::Start,
            Input::Slept => InputView::Slept,
            Input::CurrentIp(r) => InputView::CurrentIp(
                match r {
                    Ok(ip) => Ok(*ip),
                    Err(e) => Err(e@),
                },
            ),
            Input::IpChanged(e) => InputView::IpChanged(*e),
            Input::Shutdown => InputView::Shutdown,
            Input::Supported(b) => InputView::Supported(*b),
            Input::LastIp(r) => InputView::LastIp(
                match r {
                    Ok(ip) => Ok(*ip),
                    Err(e) => Err(e@),
                },
            ),
            Input::Record(r) => InputView::Record(
                match r {
                    Ok(Some(record)) => Ok(Some(record@)),
                    Ok(None) => Ok(None),
                    Err(e) => Err(e@),
                },
            ),
            Input::Updated(r) => InputView::Updated(
                match r {
                    Ok(u) => Ok(*u),
                    Err(e) => Err(e@),
                },
            ),
            Input::Stored(r) => InputView::Stored(unit_result_view(*r)),
            Input::Flushed(r) => InputView::Flushed(unit_result_view(*r)),
        }
    }
}

/// What one step of the engine hands out.
#[derive(Debug)]
pub struct Output {
    /// The events to offer to the observability channel, in order. The channel is
    /// bounded: an event that does not fit is dropped, and the engine never waits.
    pub events: Vec<EngineEvent>,
    /// How the update of one record ended, if one ended in this step.
    pub finished: Option<Result<(), Error>>,
    /// What to do next.
    pub command: Command,
}

/// An [`Output`] with its texts as character sequences.
pub struct OutputView {
    pub events: Seq<EngineEventView>,
    pub finished: Option<Result<(), ErrorView>>,
    pub command: CommandView,
}

impl View for Output {
    type V = OutputView;

    open spec fn view(&self) -> OutputView {
        OutputView {
            events: Seq::new(self.events@.len(), |i: int| self.events@[i]@),
            finished: match self.finished {
                Some(r) => Some(unit_result_view(r)),
                None => None,
            },
            command: self.command@,
        }
    }
}

} // verus!
