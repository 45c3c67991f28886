//! What holds of every run of the engine.
//!
//! A run is the engine's model stepped over a sequence of inputs, each with the
//! time at which it arrives. The laws count the commands that a run hands out.

use crate::engine::model::{next_enabled, EngineModel, Lifecycle, Phase};
use crate::engine::protocol::{CommandView, EngineEventView, InputView, OutputView};
use crate::config::RecordConfigView;
use crate::error::ErrorView;
use crate::ip::IpAddress;
use crate::time::Timestamp;
use vstd::prelude::*;

verus! {

/// One input and the time at which the engine takes it.
pub struct Arrival {
    pub input: InputView,
    pub at: Timestamp,
}

/// The state of the engine after the inputs `arrivals`, taken in order.
pub open spec fn state_after(start: EngineModel, arrivals: Seq<Arrival>) -> EngineModel
    decreases arrivals.len(),
{
    if arrivals.len() == 0 {
        start
    } else {
        state_after(start, arrivals.drop_last()).step(arrivals.last().input, arrivals.last().at).0
    }
}

/// What the engine hands out on the last of the inputs `arrivals`.
pub open spec fn last_output(start: EngineModel, arrivals: Seq<Arrival>) -> OutputView
    recommends
        arrivals.len() > 0,
{
    state_after(start, arrivals.drop_last()).step(arrivals.last().input, arrivals.last().at).1
}

/// How many of the steps over `arrivals` hand out a command that `wanted` holds of.
pub open spec fn commands(
    start: EngineModel,
    arrivals: Seq<Arrival>,
    wanted: spec_fn(CommandView) -> bool,
) -> nat
    decreases arrivals.len(),
{
    if arrivals.len() == 0 {
        0
    } else {
        commands(start, arrivals.drop_last(), wanted) + if wanted(
            last_output(start, arrivals).command,
        ) {
            1nat
        } else {
            0nat
        }
    }
}

/// How many of the inputs `arrivals` are a cancellation that the engine accepts,
/// that is, one that reaches it while it waits for the source.
pub open spec fn accepted_shutdowns(start: EngineModel, arrivals: Seq<Arrival>) -> nat
    decreases arrivals.len(),
{
    if arrivals.len() == 0 {
        0
    } else {
        accepted_shutdowns(start, arrivals.drop_last()) + if state_after(
            start,
            arrivals.drop_last(),
        ).phase == Phase::Watching && arrivals.last().input == InputView::Shutdown {
            1nat
        } else {
            0nat
        }
    }
}

/// How many provider calls the update in progress has made, the pending one included;
/// the count starts anew whenever the attempts for a record begin.
pub open spec fn calls_of_update(start: EngineModel, arrivals: Seq<Arrival>) -> nat
    decreases arrivals.len(),
{
    if arrivals.len() == 0 {
        0
    } else {
        let out = last_output(start, arrivals);
        if !(out.command is UpdateRecord) {
            calls_of_update(start, arrivals.drop_last())
        } else if out.events.len() == 1 && out.events[0] is UpdateStarted {
            1
        } else {
            calls_of_update(start, arrivals.drop_last()) + 1
        }
    }
}

/// Whether no input of the run reports a change of address.
pub open spec fn idle(arrivals: Seq<Arrival>) -> bool {
    forall|k: int| 0 <= k < arrivals.len() ==> !(#[trigger] arrivals[k].input is IpChanged)
}

pub open spec fn is_flush(c: CommandView) -> bool {
    c is Flush
}

pub open spec fn is_watch(c: CommandView) -> bool {
    c is Watch
}

pub open spec fn is_probe(c: CommandView) -> bool {
    c is ProbeCurrent
}

pub open spec fn is_next_event(c: CommandView) -> bool {
    c is NextEvent
}

pub open spec fn is_provider_call(c: CommandView) -> bool {
    c is UpdateRecord
}

pub open spec fn is_store_write(c: CommandView) -> bool {
    c is SetLastIp
}

/// The first enabled record at or after `from` lies at or after `from` and is
/// enabled, or there is none and the answer is the number of records.
pub proof fn lemma_next_enabled(records: Seq<RecordConfigView>, from: int)
    requires
        0 <= from,
    ensures
        from <= next_enabled(records, from) || next_enabled(records, from) == records.len(),
        next_enabled(records, from) <= records.len(),
        next_enabled(records, from) < records.len() ==> records[next_enabled(
            records,
            from,
        )].enabled,
        forall|k: int| from <= k < next_enabled(records, from) ==> !(#[trigger] records[k]).enabled,
    decreases records.len() - from,
{
    if from < records.len() && !records[from].enabled {
        lemma_next_enabled(records, from + 1);
    }
}

/// A step keeps the engine well formed: the phase names an enabled record and an
/// attempt within the budget.
#[verifier::rlimit(40)]
pub proof fn lemma_step_keeps_wf(m: EngineModel, input: InputView, at: Timestamp)
    requires
        m.wf(),
    ensures
        m.step(input, at).0.wf(),
        m.step(input, at).0 == m.at(m.step(input, at).0.phase),
{
    lemma_next_enabled(m.records, 0);
    if let Some(i) = m.phase.record() {
        lemma_next_enabled(m.records, i + 1);
    }
}

/// Every state of a run that starts well formed is well formed, and a run changes
/// nothing of the engine but its phase.
pub proof fn lemma_run_keeps_wf(start: EngineModel, arrivals: Seq<Arrival>)
    requires
        start.wf(),
    ensures
        state_after(start, arrivals).wf(),
        state_after(start, arrivals) == start.at(state_after(start, arrivals).phase),
    decreases arrivals.len(),
{
    if arrivals.len() > 0 {
        lemma_run_keeps_wf(start, arrivals.drop_last());
        lemma_step_keeps_wf(
            state_after(start, arrivals.drop_last()),
            arrivals.last().input,
            arrivals.last().at,
        );
    }
}

/// The store is written only on a confirmed success, and with the confirmed address.
///
/// A step commands `SetLastIp` if and only if it takes a successful answer of the
/// provider while an attempt is pending; the write then names the record and the
/// address of that very attempt. No other step writes, so on a provider failure
/// the state is not advanced.
#[verifier::rlimit(40)]
pub proof fn law_write_only_after_success(m: EngineModel, input: InputView, at: Timestamp)
    requires
        m.wf(),
    ensures
        m.step(input, at).1.command is SetLastIp <==> (m.phase is Attempting && input matches InputView::Updated(
            Ok(_),
        )),
        m.step(input, at).1.command matches CommandView::SetLastIp { record_name, ip } ==> {
            &&& m.phase matches Phase::Attempting { record, ip: attempted, .. }
            &&& record_name == m.name(record as int)
            &&& ip == attempted
        },
{
    lemma_next_enabled(m.records, 0);
    if let Some(i) = m.phase.record() {
        lemma_next_enabled(m.records, i + 1);
    }
}

/// A duplicate is skipped before any provider call.
///
/// When the store answers the idempotency gate with the very address of the
/// event, the step emits `UpdateSkipped` for the record, reports the update as
/// done, and goes on to the next record or back to waiting: it never calls the
/// provider and never writes.
pub proof fn law_duplicate_is_skipped(m: EngineModel, record: usize, ip: IpAddress, at: Timestamp)
    requires
        m.wf(),
        m.phase == (Phase::ReadingLastIp { record, ip }),
    ensures
        ({
            let (next, out) = m.step(InputView::LastIp(Ok(Some(ip))), at);
            &&& out.events == seq![
                EngineEventView::UpdateSkipped { record_name: m.name(record as int), current_ip: ip },
            ]
            &&& out.finished == Some(Ok::<(), ErrorView>(()))
            &&& (out.command is SupportsRecord || out.command is NextEvent)
            &&& (next.phase is CheckingSupport || next.phase is Watching)
        }),
{
    lemma_next_enabled(m.records, record + 1);
}

/// The provider is called only for an enabled record that it supports, after both
/// checks have let the update pass, or again after the delay that follows a failure.
#[verifier::rlimit(40)]
pub proof fn law_calls_follow_both_checks(m: EngineModel, input: InputView, at: Timestamp)
    requires
        m.wf(),
    ensures
        m.step(input, at).1.command matches CommandView::UpdateRecord { record_name, new_ip }
            ==> match m.phase {
            Phase::ReadingLastIp { record, ip } => {
                &&& record_name == m.name(record as int)
                &&& new_ip == ip
                &&& input is LastIp
                &&& input != InputView::LastIp(Ok(Some(ip)))
                &&& m.min_update_interval_secs == 0
            },
            Phase::ReadingRecord { record, ip } => {
                &&& record_name == m.name(record as int)
                &&& new_ip == ip
                &&& input matches InputView::Record(found)
                &&& !crate::engine::model::rate_limited(m.min_update_interval_secs, found, at)
            },
            Phase::Backoff { record, ip, attempt } => {
                &&& record_name == m.name(record as int)
                &&& new_ip == ip
                &&& input is Slept
                &&& attempt < m.max_retries
            },
            _ => false,
        },
{
    lemma_next_enabled(m.records, 0);
    if let Some(i) = m.phase.record() {
        lemma_next_enabled(m.records, i + 1);
    }
}

/// When the last attempt fails, the update fails with the retries counted.
///
/// A failure of the provider in the attempt number `max_retries` is not followed
/// by another call: the step emits `UpdateFailed` for the record with the error
/// attributed to the provider and a retry count of `max_retries`, reports that
/// error as the result of the update, and goes on to the next record or back to
/// waiting. The store is not written.
pub proof fn law_exhausted_retries_fail(
    m: EngineModel,
    record: usize,
    ip: IpAddress,
    e: ErrorView,
    at: Timestamp,
)
    requires
        m.wf(),
        m.phase == (Phase::Attempting { record, ip, attempt: m.max_retries }),
    ensures
        ({
            let (next, out) = m.step(InputView::Updated(Err(e)), at);
            &&& out.events == seq![
                EngineEventView::UpdateFailed {
                    record_name: m.name(record as int),
                    error: m.attributed(e).text(),
                    retry_count: m.max_retries as nat,
                },
            ]
            &&& out.finished == Some(Err::<(), ErrorView>(m.attributed(e)))
            &&& (out.command is SupportsRecord || out.command is NextEvent)
            &&& (next.phase is CheckingSupport || next.phase is Watching)
        }),
{
    lemma_next_enabled(m.records, record + 1);
}

/// A failure before the last attempt is followed by the retry delay and one more call.
pub proof fn law_failure_is_retried(
    m: EngineModel,
    record: usize,
    ip: IpAddress,
    attempt: usize,
    e: ErrorView,
    at: Timestamp,
    later: Timestamp,
)
    requires
        m.wf(),
        m.phase == (Phase::Attempting { record, ip, attempt }),
        attempt < m.max_retries,
    ensures
        ({
            let (waiting, sleep) = m.step(InputView::Updated(Err(e)), at);
            let (next, call) = waiting.step(InputView::Slept, later);
            &&& sleep.command == (CommandView::Sleep { secs: m.retry_delay_secs })
            &&& sleep.events.len() == 0
            &&& sleep.finished is None
            &&& call.command == (CommandView::UpdateRecord {
                record_name: m.name(record as int),
                new_ip: ip,
            })
            &&& next.phase == (Phase::Attempting { record, ip, attempt: (attempt + 1) as usize })
        }),
{
}

/// How far a state of the engine's life lies from its start.
pub open spec fn life_rank(l: Lifecycle) -> int {
    match l {
        Lifecycle::Constructed => 0,
        Lifecycle::Running => 1,
        Lifecycle::Draining => 2,
        Lifecycle::Stopped => 3,
    }
}

/// The engine's life moves forward only.
///
/// A step never takes the engine back: from constructed to running, from running
/// to draining on cancellation or straight to stopped on a fatal error, from
/// draining to stopped. A stopped engine stays stopped and hands out nothing.
pub proof fn law_life_moves_forward(m: EngineModel, input: InputView, at: Timestamp)
    requires
        m.wf(),
    ensures
        life_rank(m.phase.spec_lifecycle()) <= life_rank(
            m.step(input, at).0.phase.spec_lifecycle(),
        ),
        m.phase.spec_lifecycle() == Lifecycle::Constructed ==> m.step(
            input,
            at,
        ).0.phase.spec_lifecycle() != Lifecycle::Draining && m.step(
            input,
            at,
        ).0.phase.spec_lifecycle() != Lifecycle::Stopped,
        m.phase == Phase::Stopped ==> m.step(input, at) == m.refuse(),
{
    lemma_next_enabled(m.records, 0);
    if let Some(i) = m.phase.record() {
        lemma_next_enabled(m.records, i + 1);
    }
}

/// A failing record does not stop the engine.
///
/// While a change is being handled, whatever the provider and the store answer,
/// the engine neither stops nor drains: it goes on with the record, with a later
/// record, or back to waiting for the source.
pub proof fn law_record_failures_are_survived(m: EngineModel, input: InputView, at: Timestamp)
    requires
        m.wf(),
        m.phase.record() is Some,
    ensures
        m.step(input, at).0.phase.record() is Some || m.step(input, at).0.phase == Phase::Watching,
        !(m.step(input, at).1.command is Finish),
        !(m.step(input, at).1.command is Flush),
{
    lemma_next_enabled(m.records, m.phase.record()->0 + 1);
}

/// The records of one change are taken in declaration order.
///
/// While a change is being handled, a step either stays with the record it is
/// working on or moves to a later one. The record it works on is enabled, and
/// every record that it passes over on the way is disabled.
#[verifier::rlimit(40)]
pub proof fn law_records_in_declaration_order(m: EngineModel, input: InputView, at: Timestamp)
    requires
        m.wf(),
    ensures
        (m.phase.record() matches Some(i) && m.step(input, at).0.phase.record() matches Some(j))
            ==> m.phase.record()->0 <= m.step(input, at).0.phase.record()->0,
        (m.phase.record() matches Some(i) && m.step(input, at).0.phase.record() matches Some(j))
            ==> forall|k: int|
            m.phase.record()->0 < k < m.step(input, at).0.phase.record()->0 ==> !(
            #[trigger] m.records[k]).enabled,
{
    lemma_next_enabled(m.records, 0);
    if let Some(i) = m.phase.record() {
        lemma_next_enabled(m.records, i + 1);
    }
}

/// The retry budget is honoured: no update makes more than `max_retries + 1`
/// provider calls.
///
/// While an attempt is pending, the calls of the update in progress number one
/// more than the failed attempts before it; during the delay after a failure they
/// number the failed attempts.
#[verifier::rlimit(40)]
pub proof fn law_retry_budget(start: EngineModel, arrivals: Seq<Arrival>)
    requires
        start.wf(),
        start.phase == Phase::Constructed,
    ensures
        state_after(start, arrivals).phase matches Phase::Attempting { attempt, .. }
            ==> calls_of_update(start, arrivals) == attempt + 1,
        state_after(start, arrivals).phase matches Phase::Backoff { attempt, .. }
            ==> calls_of_update(start, arrivals) == attempt + 1,
        state_after(start, arrivals).phase is Attempting || state_after(
            start,
            arrivals,
        ).phase is Backoff ==> calls_of_update(start, arrivals) <= start.max_retries + 1,
    decreases arrivals.len(),
{
    if arrivals.len() > 0 {
        let before = state_after(start, arrivals.drop_last());
        law_retry_budget(start, arrivals.drop_last());
        lemma_run_keeps_wf(start, arrivals.drop_last());
        lemma_run_keeps_wf(start, arrivals);
        lemma_next_enabled(before.records, 0);
        if let Some(i) = before.phase.record() {
            lemma_next_enabled(before.records, i + 1);
        }
    }
}

/// The store is flushed exactly once on a shutdown by cancellation, and never otherwise.
///
/// In every run from a fresh engine the number of `Flush` commands equals the
/// number of accepted cancellations, which is at most one: once a cancellation is
/// accepted the engine drains and stops, and takes no further one.
#[verifier::rlimit(40)]
pub proof fn law_flush_once(start: EngineModel, arrivals: Seq<Arrival>)
    requires
        start.wf(),
        start.phase == Phase::Constructed,
    ensures
        commands(start, arrivals, |c: CommandView| is_flush(c)) == accepted_shutdowns(
            start,
            arrivals,
        ),
        accepted_shutdowns(start, arrivals) <= 1,
        accepted_shutdowns(start, arrivals) == 1 ==> (state_after(start, arrivals).phase
            == Phase::Draining || state_after(start, arrivals).phase == Phase::Stopped),
        state_after(start, arrivals).phase == Phase::Draining ==> accepted_shutdowns(
            start,
            arrivals,
        ) == 1,
    decreases arrivals.len(),
{
    if arrivals.len() > 0 {
        let before = state_after(start, arrivals.drop_last());
        law_flush_once(start, arrivals.drop_last());
        lemma_run_keeps_wf(start, arrivals.drop_last());
        lemma_next_enabled(before.records, 0);
        if let Some(i) = before.phase.record() {
            lemma_next_enabled(before.records, i + 1);
        }
    }
}

/// The source is probed once and watched once, whatever happens.
///
/// In every run from a fresh engine, `ProbeCurrent` and `Watch` are each commanded
/// at most once, and exactly once as soon as the engine waits for changes.
#[verifier::rlimit(40)]
pub proof fn law_probe_and_watch_once(start: EngineModel, arrivals: Seq<Arrival>)
    requires
        start.wf(),
        start.phase == Phase::Constructed,
    ensures
        commands(start, arrivals, |c: CommandView| is_probe(c)) <= 1,
        commands(start, arrivals, |c: CommandView| is_watch(c)) <= 1,
        state_after(start, arrivals).phase is Constructed || state_after(
            start,
            arrivals,
        ).phase is Delaying <==> commands(start, arrivals, |c: CommandView| is_probe(c)) == 0,
        state_after(start, arrivals).phase is Constructed || state_after(
            start,
            arrivals,
        ).phase is Delaying || state_after(start, arrivals).phase is Probing ==> commands(
            start,
            arrivals,
            |c: CommandView| is_watch(c),
        ) == 0,
        !(state_after(start, arrivals).phase is Constructed || state_after(
            start,
            arrivals,
        ).phase is Delaying || state_after(start, arrivals).phase is Probing || state_after(
            start,
            arrivals,
        ).phase is Stopped) ==> commands(start, arrivals, |c: CommandView| is_watch(c)) == 1,
    decreases arrivals.len(),
{
    if arrivals.len() > 0 {
        let before = state_after(start, arrivals.drop_last());
        law_probe_and_watch_once(start, arrivals.drop_last());
        lemma_run_keeps_wf(start, arrivals.drop_last());
        lemma_next_enabled(before.records, 0);
        if let Some(i) = before.phase.record() {
            lemma_next_enabled(before.records, i + 1);
        }
    }
}

/// A session that ends by cancellation has probed once, watched once and
/// flushed once.
#[verifier::rlimit(40)]
pub proof fn law_cancelled_session(start: EngineModel, arrivals: Seq<Arrival>)
    requires
        start.wf(),
        start.phase == Phase::Constructed,
        accepted_shutdowns(start, arrivals) == 1,
    ensures
        commands(start, arrivals, |c: CommandView| is_probe(c)) == 1,
        commands(start, arrivals, |c: CommandView| is_watch(c)) == 1,
        commands(start, arrivals, |c: CommandView| is_flush(c)) == 1,
    decreases arrivals.len(),
{
    law_flush_once(start, arrivals);
    if arrivals.len() > 0 {
        let earlier = arrivals.drop_last();
        let before = state_after(start, earlier);
        law_flush_once(start, earlier);
        law_probe_and_watch_once(start, earlier);
        lemma_run_keeps_wf(start, earlier);
        lemma_next_enabled(before.records, 0);
        if let Some(i) = before.phase.record() {
            lemma_next_enabled(before.records, i + 1);
        }
        if accepted_shutdowns(start, earlier) == 1 {
            law_cancelled_session(start, earlier);
        }
    }
}

/// Whether `events` holds an event that `wanted` holds of.
pub open spec fn emits(events: Seq<EngineEventView>, wanted: spec_fn(EngineEventView) -> bool) -> bool {
    exists|k: int| 0 <= k < events.len() && wanted(#[trigger] events[k])
}

/// The events of a record come in causal order.
///
/// Each kind of event is emitted in one place of an update only: the detection
/// when the provider has said that it supports the record, the start and the
/// skip while the store is read, the success and the failure when the provider
/// has answered an attempt. An update passes these places in this order, so a
/// record's events are detection, then start, then success or failure, or
/// detection and then a skip without a start.
#[verifier::rlimit(40)]
pub proof fn law_events_in_causal_order(m: EngineModel, input: InputView, at: Timestamp)
    requires
        m.wf(),
    ensures
        emits(m.step(input, at).1.events, |e: EngineEventView| e is IpChangeDetected)
            ==> m.phase is CheckingSupport && input == InputView::Supported(true)
            && m.step(input, at).0.phase is ReadingLastIp,
        emits(m.step(input, at).1.events, |e: EngineEventView| e is UpdateStarted) ==> (m.phase
            is ReadingLastIp || m.phase is ReadingRecord) && m.step(input, at).0.phase
            is Attempting,
        emits(m.step(input, at).1.events, |e: EngineEventView| e is UpdateSkipped) ==> m.phase
            is ReadingLastIp || m.phase is ReadingRecord,
        emits(m.step(input, at).1.events, |e: EngineEventView| e is UpdateSucceeded) ==> m.phase
            is Attempting && m.step(input, at).0.phase is Writing,
        emits(m.step(input, at).1.events, |e: EngineEventView| e is UpdateFailed) ==> m.phase
            is Attempting && m.step(input, at).1.finished is Some,
        m.step(input, at).0.phase is ReadingLastIp ==> m.phase is CheckingSupport || m.phase
            is ReadingLastIp,
        m.step(input, at).0.phase is ReadingRecord ==> m.phase is ReadingLastIp || m.phase
            is ReadingRecord,
        m.step(input, at).0.phase is Attempting ==> m.phase is ReadingLastIp || m.phase
            is ReadingRecord || m.phase is Backoff || m.phase is Attempting,
        m.step(input, at).0.phase is Writing ==> m.phase is Attempting || m.phase is Writing,
{
    lemma_next_enabled(m.records, 0);
    if let Some(i) = m.phase.record() {
        lemma_next_enabled(m.records, i + 1);
    }
}

/// An idle engine does nothing.
///
/// In a run from a fresh engine in which the source reports no change, the
/// provider is never called, the store is never written, the engine never asks
/// for a next event, and it only ever starts, waits, drains or stops.
#[verifier::rlimit(40)]
pub proof fn law_no_polling(start: EngineModel, arrivals: Seq<Arrival>)
    requires
        start.wf(),
        start.phase == Phase::Constructed,
        idle(arrivals),
    ensures
        commands(start, arrivals, |c: CommandView| is_provider_call(c)) == 0,
        commands(start, arrivals, |c: CommandView| is_store_write(c)) == 0,
        commands(start, arrivals, |c: CommandView| is_next_event(c)) == 0,
        state_after(start, arrivals).phase.record() is None,
    decreases arrivals.len(),
{
    if arrivals.len() > 0 {
        let earlier = arrivals.drop_last();
        assert(idle(earlier)) by {
            assert forall|k: int| 0 <= k < earlier.len() implies !(#[trigger] earlier[k].input
                is IpChanged) by {
                assert(earlier[k] == arrivals[k]);
            }
        }
        assert(!(arrivals[arrivals.len() - 1].input is IpChanged));
        law_no_polling(start, earlier);
    }
}

} // verus!
