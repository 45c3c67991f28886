//! The engine as a mathematical state machine.
//!
//! [`step`] is the whole behaviour of the engine: the executable engine is proved
//! to follow it step by step, and the laws are proved of it.

use crate::config::RecordConfigView;
use crate::engine::protocol::{CommandView, EngineEventView, InputView, OutputView};
use crate::error::ErrorView;
use crate::ip::IpAddress;
use crate::time::Timestamp;
use crate::traits::UpdateResult;
use vstd::prelude::*;

verus! {

/// Where the engine stands, and which answer it is waiting for.
#[derive(Clone, Copy, Debug, PartialEq, Eq, Structural)]
pub enum Phase {
    /// Built, not started. Waits for `Start`.
    Constructed,
    /// The startup delay runs. Waits for `Slept`.
    Delaying,
    /// The source is asked for the current address. Waits for `CurrentIp`.
    Probing,
    /// Nothing to do until the source reports a change. Waits for `IpChanged` or `Shutdown`.
    Watching,
    /// The provider is asked whether it supports a record. Waits for `Supported`.
    CheckingSupport { record: usize, ip: IpAddress },
    /// The idempotency gate reads the store. Waits for `LastIp`.
    ReadingLastIp { record: usize, ip: IpAddress },
    /// The rate-limit gate reads the store. Waits for `Record`.
    ReadingRecord { record: usize, ip: IpAddress },
    /// The provider is called; `attempt` counts the calls before this one. Waits for `Updated`.
    Attempting { record: usize, ip: IpAddress, attempt: usize },
    /// The delay after the failed call number `attempt` runs. Waits for `Slept`.
    Backoff { record: usize, ip: IpAddress, attempt: usize },
    /// The confirmed address is written to the store. Waits for `Stored`.
    Writing { record: usize, ip: IpAddress },
    /// The store is flushed before the engine stops. Waits for `Flushed`.
    Draining,
    /// The run is over.
    Stopped,
}

/// The four states of an engine's life.
#[derive(Clone, Copy, Debug, PartialEq, Eq, Structural)]
pub enum Lifecycle {
    Constructed,
    Running,
    Draining,
    Stopped,
}

impl Phase {
    /// The state of the engine's life that a phase belongs to.
    pub open spec fn spec_lifecycle(&self) -> Lifecycle {
        match self {
            Phase::Constructed => Lifecycle::Constructed,
            Phase::Draining => Lifecycle::Draining,
            Phase::Stopped => Lifecycle::Stopped,
            _ => Lifecycle::Running,
        }
    }

    /// The state of the engine's life that a phase belongs to.
    #[verifier::when_used_as_spec(spec_lifecycle)]
    pub fn lifecycle(&self) -> (l: Lifecycle)
        ensures
            l == self.spec_lifecycle(),
    {
        match self {
            Phase::Constructed => Lifecycle::Constructed,
            Phase::Draining => Lifecycle::Draining,
            Phase::Stopped => Lifecycle::Stopped,
            _ => Lifecycle::Running,
        }
    }

    /// The record that the phase works on, if it works on one.
    pub open spec fn record(&self) -> Option<usize> {
        match self {
            Phase::CheckingSupport { record, .. } => Some(*record),
            Phase::ReadingLastIp { record, .. } => Some(*record),
            Phase::ReadingRecord { record, .. } => Some(*record),
            Phase::Attempting { record, .. } => Some(*record),
            Phase::Backoff { record, .. } => Some(*record),
            Phase::Writing { record, .. } => Some(*record),
            _ => None,
        }
    }
}

/// The engine's state: its configuration and its phase.
pub struct EngineModel {
    /// The managed records, in declaration order.
    pub records: Seq<RecordConfigView>,
    /// The name that provider errors are attributed to.
    pub provider_name: Seq<char>,
    /// How often a failed update is tried again.
    pub max_retries: usize,
    /// Seconds between two attempts.
    pub retry_delay_secs: u64,
    /// Seconds before the first probe.
    pub startup_delay_secs: u64,
    /// Least seconds between two updates of one record; 0 disables the limit.
    pub min_update_interval_secs: u64,
    /// Where the engine stands.
    pub phase: Phase,
}

/// The reason given when the engine stops on cancellation.
pub open spec fn shutdown_reason() -> Seq<char> {
    "Shutdown signal"@
}

/// The first enabled record at or after `from`; the number of records if there is none.
pub open spec fn next_enabled(records: Seq<RecordConfigView>, from: int) -> int
    decreases records.len() - from,
{
    if from < 0 || from >= records.len() {
        records.len() as int
    } else if records[from].enabled {
        from
    } else {
        next_enabled(records, from + 1)
    }
}

/// Whether the rate limit holds an update back: the limit is on, the store has
/// the record, and less than the minimum interval has passed since it was written.
pub open spec fn rate_limited(
    min_update_interval_secs: u64,
    found: Result<Option<crate::traits::StateRecordView>, ErrorView>,
    now: Timestamp,
) -> bool {
    &&& min_update_interval_secs > 0
    &&& found matches Ok(Some(record))
    &&& now.nanos_since(record.last_updated) < min_update_interval_secs as int * 1_000_000_000
}

impl EngineModel {
    /// The same engine in another phase.
    pub open spec fn at(self, phase: Phase) -> EngineModel {
        EngineModel { phase, ..self }
    }

    /// The name of the record with index `i`.
    pub open spec fn name(self, i: int) -> Seq<char> {
        self.records[i].name
    }

    /// Whether the phase names an enabled record and an attempt within the budget.
    pub open spec fn wf(self) -> bool {
        &&& self.records.len() <= usize::MAX
        &&& self.phase.record() matches Some(i) ==> i < self.records.len() && self.records[i as int].enabled
        &&& self.phase matches Phase::Attempting { attempt, .. } ==> attempt <= self.max_retries
        &&& self.phase matches Phase::Backoff { attempt, .. } ==> attempt < self.max_retries
    }

    /// The error that a failed provider call is reported as: attributed to the
    /// provider, with the provider's own error as the message.
    pub open spec fn attributed(self, e: ErrorView) -> ErrorView {
        ErrorView::Provider { provider: self.provider_name, message: e.text() }
    }

    /// Goes on with the first enabled record at or after `from`, or back to
    /// watching when there is none, handing out `events` and `finished`.
    pub open spec fn proceed(
        self,
        from: int,
        ip: IpAddress,
        events: Seq<EngineEventView>,
        finished: Option<Result<(), ErrorView>>,
    ) -> (EngineModel, OutputView) {
        let j = next_enabled(self.records, from);
        if j < self.records.len() {
            (
                self.at(Phase::CheckingSupport { record: j as usize, ip }),
                OutputView {
                    events,
                    finished,
                    command: CommandView::SupportsRecord { record_name: self.name(j) },
                },
            )
        } else {
            (self.at(Phase::Watching), OutputView { events, finished, command: CommandView::NextEvent })
        }
    }

    /// Begins the attempts for record `i`: announces the update and calls the provider.
    pub open spec fn begin_attempts(self, i: usize, ip: IpAddress) -> (EngineModel, OutputView) {
        (
            self.at(Phase::Attempting { record: i, ip, attempt: 0 }),
            OutputView {
                events: seq![
                    EngineEventView::UpdateStarted { record_name: self.name(i as int), new_ip: ip },
                ],
                finished: None,
                command: CommandView::UpdateRecord { record_name: self.name(i as int), new_ip: ip },
            },
        )
    }

    /// Skips the update of record `i` and goes on with the next record.
    pub open spec fn skip(self, i: usize, ip: IpAddress) -> (EngineModel, OutputView) {
        self.proceed(
            i + 1,
            ip,
            seq![EngineEventView::UpdateSkipped { record_name: self.name(i as int), current_ip: ip }],
            Some(Ok(())),
        )
    }

    /// The input leaves the engine as it is.
    pub open spec fn refuse(self) -> (EngineModel, OutputView) {
        (self, OutputView { events: seq![], finished: None, command: CommandView::Unexpected })
    }

    /// The events that a successful provider call is announced with: one
    /// `UpdateSucceeded` for a change or a creation, none where nothing changed.
    pub open spec fn success_events(self, i: usize, ip: IpAddress, result: UpdateResult) -> Seq<
        EngineEventView,
    > {
        match result {
            UpdateResult::Updated { previous_ip, .. } => seq![
                EngineEventView::UpdateSucceeded {
                    record_name: self.name(i as int),
                    new_ip: ip,
                    previous_ip,
                },
            ],
            UpdateResult::Created { .. } => seq![
                EngineEventView::UpdateSucceeded {
                    record_name: self.name(i as int),
                    new_ip: ip,
                    previous_ip: None,
                },
            ],
            UpdateResult::Unchanged { .. } => seq![],
        }
    }

    /// One step: the state after `input`, and what is handed out.
    ///
    /// `now` is the time of the step; only the rate-limit gate reads it.
    pub open spec fn step(self, input: InputView, now: Timestamp) -> (EngineModel, OutputView) {
        match (self.phase, input) {
            (Phase::Constructed, InputView::Start) => {
                let events = seq![
                    EngineEventView::Started { records_count: self.records.len() },
                ];
                if self.startup_delay_secs > 0 {
                    (
                        self.at(Phase::Delaying),
                        OutputView {
                            events,
                            finished: None,
                            command: CommandView::Sleep { secs: self.startup_delay_secs },
                        },
                    )
                } else {
                    (
                        self.at(Phase::Probing),
                        OutputView { events, finished: None, command: CommandView::ProbeCurrent },
                    )
                }
            },
            (Phase::Delaying, InputView::Slept) => (
                self.at(Phase::Probing),
                OutputView { events: seq![], finished: None, command: CommandView::ProbeCurrent },
            ),
            (Phase::Probing, InputView::CurrentIp(Ok(_))) => (
                self.at(Phase::Watching),
                OutputView { events: seq![], finished: None, command: CommandView::Watch },
            ),
            (Phase::Probing, InputView::CurrentIp(Err(e))) => (
                self.at(Phase::Stopped),
                OutputView { events: seq![], finished: None, command: CommandView::Finish(Err(e)) },
            ),
            (Phase::Watching, InputView::IpChanged(event)) => self.proceed(
                0,
                event.new_ip,
                seq![],
                None,
            ),
            (Phase::Watching, InputView::Shutdown) => (
                self.at(Phase::Draining),
                OutputView {
                    events: seq![EngineEventView::Stopped { reason: shutdown_reason() }],
                    finished: None,
                    command: CommandView::Flush,
                },
            ),
            (Phase::CheckingSupport { record, ip }, InputView::Supported(supported)) => {
                if supported {
                    (
                        self.at(Phase::ReadingLastIp { record, ip }),
                        OutputView {
                            events: seq![
                                EngineEventView::IpChangeDetected {
                                    record_name: self.name(record as int),
                                    new_ip: ip,
                                },
                            ],
                            finished: None,
                            command: CommandView::GetLastIp { record_name: self.name(record as int) },
                        },
                    )
                } else {
                    self.proceed(record + 1, ip, seq![], None)
                }
            },
            (Phase::ReadingLastIp { record, ip }, InputView::LastIp(last)) => {
                if last == Ok::<Option<IpAddress>, ErrorView>(Some(ip)) {
                    self.skip(record, ip)
                } else if self.min_update_interval_secs > 0 {
                    (
                        self.at(Phase::ReadingRecord { record, ip }),
                        OutputView {
                            events: seq![],
                            finished: None,
                            command: CommandView::GetRecord { record_name: self.name(record as int) },
                        },
                    )
                } else {
                    self.begin_attempts(record, ip)
                }
            },
            (Phase::ReadingRecord { record, ip }, InputView::Record(found)) => {
                if rate_limited(self.min_update_interval_secs, found, now) {
                    self.skip(record, ip)
                } else {
                    self.begin_attempts(record, ip)
                }
            },
            (Phase::Attempting { record, ip, attempt }, InputView::Updated(Ok(result))) => (
                self.at(Phase::Writing { record, ip }),
                OutputView {
                    events: self.success_events(record, ip, result),
                    finished: None,
                    command: CommandView::SetLastIp { record_name: self.name(record as int), ip },
                },
            ),
            (Phase::Attempting { record, ip, attempt }, InputView::Updated(Err(e))) => {
                if attempt < self.max_retries {
                    (
                        self.at(Phase::Backoff { record, ip, attempt }),
                        OutputView {
                            events: seq![],
                            finished: None,
                            command: CommandView::Sleep { secs: self.retry_delay_secs },
                        },
                    )
                } else {
                    self.proceed(
                        record + 1,
                        ip,
                        seq![
                            EngineEventView::UpdateFailed {
                                record_name: self.name(record as int),
                                error: self.attributed(e).text(),
                                retry_count: self.max_retries as nat,
                            },
                        ],
                        Some(Err(self.attributed(e))),
                    )
                }
            },
            (Phase::Backoff { record, ip, attempt }, InputView::Slept) => (
                self.at(Phase::Attempting { record, ip, attempt: (attempt + 1) as usize }),
                OutputView {
                    events: seq![],
                    finished: None,
                    command: CommandView::UpdateRecord {
                        record_name: self.name(record as int),
                        new_ip: ip,
                    },
                },
            ),
            (Phase::Writing { record, ip }, InputView::Stored(written)) => self.proceed(
                record + 1,
                ip,
                seq![],
                Some(written),
            ),
            (Phase::Draining, InputView::Flushed(flushed)) => (
                self.at(Phase::Stopped),
                OutputView { events: seq![], finished: None, command: CommandView::Finish(flushed) },
            ),
            _ => self.refuse(),
        }
    }
}

} // verus!
