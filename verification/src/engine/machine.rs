//! The executable engine.

use crate::config::{DdnsConfig, RecordConfig, RecordConfigView};
use crate::engine::model::{next_enabled, EngineModel, Lifecycle, Phase};
use crate::engine::protocol::{Command, EngineEvent, Input, Output};
use crate::error::{Error, ErrorView};
use crate::ip::IpAddress;
use crate::time::{now, Timestamp, NANOS_PER_SEC};
use crate::traits::UpdateResult;
use vstd::prelude::*;

verus! {

/// The records of a configuration as the model sees them.
pub open spec fn records_view(records: Seq<RecordConfig>) -> Seq<RecordConfigView> {
    Seq::new(records.len(), |i: int| records[i]@)
}

/// The engine that reconciles the configured records with the observed address.
///
/// It is built from a validated configuration and then stepped: see
/// [`DdnsEngine::step`]. Its view is the [`EngineModel`] it stands for.
#[derive(Debug)]
pub struct DdnsEngine {
    records: Vec<RecordConfig>,
    provider_name: String,
    max_retries: usize,
    retry_delay_secs: u64,
    startup_delay_secs: u64,
    min_update_interval_secs: u64,
    event_channel_capacity: usize,
    phase: Phase,
}

impl View for DdnsEngine {
    type V = EngineModel;

    closed spec fn view(&self) -> EngineModel {
        EngineModel {
            records: records_view(self.records@),
            provider_name: self.provider_name@,
            max_retries: self.max_retries,
            retry_delay_secs: self.retry_delay_secs,
            startup_delay_secs: self.startup_delay_secs,
            min_update_interval_secs: self.min_update_interval_secs,
            phase: self.phase,
        }
    }
}

/// The output with these parts.
fn output(events: Vec<EngineEvent>, finished: Option<Result<(), Error>>, command: Command) -> (out:
    Output)
    ensures
        out.events == events,
        out.finished == finished,
        out.command == command,
{
    Output { events, finished, command }
}

/// No events.
fn no_events() -> (events: Vec<EngineEvent>)
    ensures
        events@.len() == 0,
{
    Vec::new()
}

/// The one event `event`.
fn one_event(event: EngineEvent) -> (events: Vec<EngineEvent>)
    ensures
        events@ == seq![event],
{
    let mut events: Vec<EngineEvent> = Vec::new();
    events.push(event);
    assert(events@ =~= seq![event]);
    events
}

impl DdnsEngine {
    #[verifier::type_invariant]
    spec fn well_formed(&self) -> bool {
        self@.wf()
    }

    /// The capacity that the observability channel is to be built with.
    pub closed spec fn spec_event_channel_capacity(&self) -> usize {
        self.event_channel_capacity
    }

    /// Builds an engine for `config`, attributing provider errors to `provider_name`.
    ///
    /// The configuration is validated first: an engine is built if and only if
    /// the configuration is accepted, and it then stands at the start of its life
    /// with the configuration's records and policies.
    pub fn new(config: DdnsConfig, provider_name: &str) -> (r: Result<DdnsEngine, Error>)
        ensures
            r is Ok <==> config.rejection() is None,
            r is Err ==> r->Err_0@ == ErrorView::Config(config.rejection()->0),
            r is Ok ==> r->Ok_0@ == (EngineModel {
                records: records_view(config.records@),
                provider_name: provider_name@,
                max_retries: config.engine.max_retries,
                retry_delay_secs: config.engine.retry_delay_secs,
                startup_delay_secs: config.engine.startup_delay_secs,
                min_update_interval_secs: config.engine.min_update_interval_secs,
                phase: Phase::Constructed,
            }),
            r is Ok ==> r->Ok_0.spec_event_channel_capacity()
                == config.engine.event_channel_capacity,
            r is Ok ==> r->Ok_0@.wf(),
    {
        match config.validate() {
            Err(e) => {
                return Err(e);
            },
            Ok(_) => {},
        }
        let count = config.records.len();
        assert(records_view(config.records@).len() == count);
        Ok(
            DdnsEngine {
                records: config.records,
                provider_name: String::from_str(provider_name),
                max_retries: config.engine.max_retries,
                retry_delay_secs: config.engine.retry_delay_secs,
                startup_delay_secs: config.engine.startup_delay_secs,
                min_update_interval_secs: config.engine.min_update_interval_secs,
                event_channel_capacity: config.engine.event_channel_capacity,
                phase: Phase::Constructed,
            },
        )
    }

    /// The capacity that the observability channel is to be built with.
    #[verifier::when_used_as_spec(spec_event_channel_capacity)]
    pub fn event_channel_capacity(&self) -> (n: usize)
        ensures
            n == self.spec_event_channel_capacity(),
    {
        self.event_channel_capacity
    }

    /// Where the engine stands.
    pub fn phase(&self) -> (p: Phase)
        ensures
            p == self@.phase,
    {
        self.phase
    }

    /// The state of the engine's life.
    pub fn lifecycle(&self) -> (l: Lifecycle)
        ensures
            l == self@.phase.spec_lifecycle(),
    {
        self.phase.lifecycle()
    }

    /// How many records the engine manages.
    pub fn records_count(&self) -> (n: usize)
        ensures
            n == self@.records.len(),
    {
        self.records.len()
    }

    /// The first enabled record at or after `from`; the number of records if there is none.
    fn find_enabled(&self, from: usize) -> (j: usize)
        ensures
            j == next_enabled(self@.records, from as int),
            from <= j || j == self@.records.len(),
            j <= self@.records.len(),
            j < self@.records.len() ==> self@.records[j as int].enabled,
    {
        let n = self.records.len();
        let mut j: usize = from;
        while j < n && !self.records[j].enabled
            invariant
                n == self.records@.len(),
                from <= j,
                j <= n || from >= n,
                next_enabled(self@.records, from as int) == next_enabled(self@.records, j as int),
            decreases n - j,
        {
            j += 1;
        }
        if j >= n {
            n
        } else {
            j
        }
    }

    /// The index after `i`.
    fn after(&self, i: usize) -> (j: usize)
        requires
            i < self@.records.len(),
        ensures
            j == i + 1,
    {
        let n = self.records.len();
        i + 1
    }

    /// Goes on with the first enabled record at or after `from`, or back to watching.
    fn proceed(
        &mut self,
        from: usize,
        ip: IpAddress,
        events: Vec<EngineEvent>,
        finished: Option<Result<(), Error>>,
    ) -> (out: Output)
        ensures
            final(self)@ == old(self)@.proceed(from as int, ip, out@.events, out@.finished).0,
            out@ == old(self)@.proceed(from as int, ip, out@.events, out@.finished).1,
            out.events == events,
            out.finished == finished,
            final(self).spec_event_channel_capacity() == old(self).spec_event_channel_capacity(),
    {
        let j = self.find_enabled(from);
        if j < self.records.len() {
            let record_name = self.records[j].name.clone();
            self.phase = Phase::CheckingSupport { record: j, ip };
            output(events, finished, Command::SupportsRecord { record_name })
        } else {
            self.phase = Phase::Watching;
            output(events, finished, Command::NextEvent)
        }
    }

    /// Skips the update of record `i` and goes on with the next record.
    fn skip(&mut self, i: usize, ip: IpAddress) -> (out: Output)
        requires
            i < old(self)@.records.len(),
        ensures
            (final(self)@, out@) == old(self)@.skip(i, ip),
            final(self).spec_event_channel_capacity() == old(self).spec_event_channel_capacity(),
    {
        let event = EngineEvent::UpdateSkipped {
            record_name: self.records[i].name.clone(),
            current_ip: ip,
        };
        let ghost expected = seq![
            crate::engine::protocol::EngineEventView::UpdateSkipped {
                record_name: self@.name(i as int),
                current_ip: ip,
            },
        ];
        let next = self.after(i);
        let out = self.proceed(next, ip, one_event(event), Some(Ok(())));
        assert(out@.events =~= expected);
        out
    }

    /// Begins the attempts for record `i`.
    fn begin_attempts(&mut self, i: usize, ip: IpAddress) -> (out: Output)
        requires
            i < old(self)@.records.len(),
            old(self)@.records[i as int].enabled,
        ensures
            (final(self)@, out@) == old(self)@.begin_attempts(i, ip),
            final(self).spec_event_channel_capacity() == old(self).spec_event_channel_capacity(),
    {
        proof {
            use_type_invariant(&*self);
        }
        let event = EngineEvent::UpdateStarted {
            record_name: self.records[i].name.clone(),
            new_ip: ip,
        };
        let command = Command::UpdateRecord {
            record_name: self.records[i].name.clone(),
            new_ip: ip,
        };
        self.phase = Phase::Attempting { record: i, ip, attempt: 0 };
        let out = output(one_event(event), None, command);
        assert(out@.events =~= old(self)@.begin_attempts(i, ip).1.events);
        out
    }

    /// The input leaves the engine as it is.
    fn refuse(&self) -> (out: Output)
        ensures
            out@ == self@.refuse().1,
    {
        let out = output(no_events(), None, Command::Unexpected);
        assert(out@.events =~= seq![]);
        out
    }

    /// The output with the command `command` and nothing else.
    fn only(command: Command) -> (out: Output)
        ensures
            out@.events == Seq::<crate::engine::protocol::EngineEventView>::empty(),
            out@.finished is None,
            out.command == command,
    {
        let out = output(no_events(), None, command);
        assert(out@.events =~= seq![]);
        out
    }

    /// The events that a successful provider call is announced with.
    fn success_events(&self, i: usize, ip: IpAddress, result: UpdateResult) -> (events: Vec<
        EngineEvent,
    >)
        requires
            i < self@.records.len(),
        ensures
            Seq::new(events@.len(), |k: int| events@[k]@) == self@.success_events(i, ip, result),
    {
        let events = match result {
            UpdateResult::Updated { previous_ip, .. } => one_event(
                EngineEvent::UpdateSucceeded {
                    record_name: self.records[i].name.clone(),
                    new_ip: ip,
                    previous_ip,
                },
            ),
            UpdateResult::Created { .. } => one_event(
                EngineEvent::UpdateSucceeded {
                    record_name: self.records[i].name.clone(),
                    new_ip: ip,
                    previous_ip: None,
                },
            ),
            UpdateResult::Unchanged { .. } => no_events(),
        };
        assert(Seq::new(events@.len(), |k: int| events@[k]@) =~= self@.success_events(
            i,
            ip,
            result,
        ));
        events
    }

    /// One step at the time `now`: takes the answer to the command before and
    /// hands out the events to emit and the next command.
    ///
    /// The engine follows [`EngineModel::step`] exactly.
    #[verifier::rlimit(40)]
    pub fn step_at(&mut self, input: Input, now: Timestamp) -> (out: Output)
        ensures
            (final(self)@, out@) == old(self)@.step(input@, now),
            final(self).spec_event_channel_capacity() == old(self).spec_event_channel_capacity(),
            old(self)@.wf(),
            final(self)@.wf(),
    {
        proof {
            use_type_invariant(&*self);
            crate::engine::laws::lemma_step_keeps_wf(self@, input@, now);
        }
        match self.phase {
            Phase::Constructed => match input {
                Input::Start => {
                    let events = one_event(
                        EngineEvent::Started { records_count: self.records.len() },
                    );
                    let out = if self.startup_delay_secs > 0 {
                        self.phase = Phase::Delaying;
                        output(events, None, Command::Sleep { secs: self.startup_delay_secs })
                    } else {
                        self.phase = Phase::Probing;
                        output(events, None, Command::ProbeCurrent)
                    };
                    assert(out@.events =~= old(self)@.step(input@, now).1.events);
                    out
                },
                _ => self.refuse(),
            },
            Phase::Delaying => match input {
                Input::Slept => {
                    self.phase = Phase::Probing;
                    Self::only(Command::ProbeCurrent)
                },
                _ => self.refuse(),
            },
            Phase::Probing => match input {
                Input::CurrentIp(Ok(_)) => {
                    self.phase = Phase::Watching;
                    Self::only(Command::Watch)
                },
                Input::CurrentIp(Err(e)) => {
                    self.phase = Phase::Stopped;
                    Self::only(Command::Finish(Err(e)))
                },
                _ => self.refuse(),
            },
            Phase::Watching => match input {
                Input::IpChanged(event) => {
                    let out = self.proceed(0, event.new_ip, no_events(), None);
                    assert(out@.events =~= seq![]);
                    out
                },
                Input::Shutdown => {
                    let events = one_event(
                        EngineEvent::Stopped { reason: String::from_str("Shutdown signal") },
                    );
                    self.phase = Phase::Draining;
                    let out = output(events, None, Command::Flush);
                    assert(out@.events =~= old(self)@.step(input@, now).1.events);
                    out
                },
                _ => self.refuse(),
            },
            Phase::CheckingSupport { record, ip } => match input {
                Input::Supported(supported) => {
                    if supported {
                        let events = one_event(
                            EngineEvent::IpChangeDetected {
                                record_name: self.records[record].name.clone(),
                                new_ip: ip,
                            },
                        );
                        let command = Command::GetLastIp {
                            record_name: self.records[record].name.clone(),
                        };
                        self.phase = Phase::ReadingLastIp { record, ip };
                        let out = output(events, None, command);
                        assert(out@.events =~= old(self)@.step(input@, now).1.events);
                        out
                    } else {
                        let next = self.after(record);
                        let out = self.proceed(next, ip, no_events(), None);
                        assert(out@.events =~= seq![]);
                        out
                    }
                },
                _ => self.refuse(),
            },
            Phase::ReadingLastIp { record, ip } => match input {
                Input::LastIp(last) => {
                    let same = match last {
                        Ok(Some(stored)) => stored == ip,
                        _ => false,
                    };
                    if same {
                        self.skip(record, ip)
                    } else if self.min_update_interval_secs > 0 {
                        let command = Command::GetRecord {
                            record_name: self.records[record].name.clone(),
                        };
                        self.phase = Phase::ReadingRecord { record, ip };
                        Self::only(command)
                    } else {
                        self.begin_attempts(record, ip)
                    }
                },
                _ => self.refuse(),
            },
            Phase::ReadingRecord { record, ip } => match input {
                Input::Record(found) => {
                    let limited = self.min_update_interval_secs > 0 && match &found {
                        Ok(Some(stored)) => now.within_secs_of(
                            &stored.last_updated,
                            self.min_update_interval_secs,
                        ),
                        _ => false,
                    };
                    if limited {
                        self.skip(record, ip)
                    } else {
                        self.begin_attempts(record, ip)
                    }
                },
                _ => self.refuse(),
            },
            Phase::Attempting { record, ip, attempt } => match input {
                Input::Updated(Ok(result)) => {
                    let events = self.success_events(record, ip, result);
                    let command = Command::SetLastIp {
                        record_name: self.records[record].name.clone(),
                        ip,
                    };
                    self.phase = Phase::Writing { record, ip };
                    output(events, None, command)
                },
                Input::Updated(Err(e)) => {
                    if attempt < self.max_retries {
                        self.phase = Phase::Backoff { record, ip, attempt };
                        Self::only(Command::Sleep { secs: self.retry_delay_secs })
                    } else {
                        let attributed = Error::provider(
                            self.provider_name.as_str(),
                            e.to_text().as_str(),
                        );
                        let events = one_event(
                            EngineEvent::UpdateFailed {
                                record_name: self.records[record].name.clone(),
                                error: attributed.to_text(),
                                retry_count: self.max_retries,
                            },
                        );
                        let ghost expected = old(self)@.step(input@, now).1.events;
                        let next = self.after(record);
                        let out = self.proceed(next, ip, events, Some(Err(attributed)));
                        assert(out@.events =~= expected);
                        out
                    }
                },
                _ => self.refuse(),
            },
            Phase::Backoff { record, ip, attempt } => match input {
                Input::Slept => {
                    let command = Command::UpdateRecord {
                        record_name: self.records[record].name.clone(),
                        new_ip: ip,
                    };
                    self.phase = Phase::Attempting { record, ip, attempt: attempt + 1 };
                    Self::only(command)
                },
                _ => self.refuse(),
            },
            Phase::Writing { record, ip } => match input {
                Input::Stored(written) => {
                    let next = self.after(record);
                    let out = self.proceed(next, ip, no_events(), Some(written));
                    assert(out@.events =~= seq![]);
                    out
                },
                _ => self.refuse(),
            },
            Phase::Draining => match input {
                Input::Flushed(flushed) => {
                    self.phase = Phase::Stopped;
                    Self::only(Command::Finish(flushed))
                },
                _ => self.refuse(),
            },
            Phase::Stopped => self.refuse(),
        }
    }

    /// One step at the current time.
    ///
    /// The clock is read once; the step is that of [`DdnsEngine::step_at`] at the
    /// time that was read, whatever it was.
    pub fn step(&mut self, input: Input) -> (out: Output)
        ensures
            exists|at: Timestamp|
                at.secs >= 0 && at.nanos < NANOS_PER_SEC && (final(self)@, out@)
                    == #[trigger] old(self)@.step(input@, at),
            final(self).spec_event_channel_capacity() == old(self).spec_event_channel_capacity(),
            old(self)@.wf(),
            final(self)@.wf(),
    {
        let at = now();
        self.step_at(input, at)
    }
}

} // verus!
