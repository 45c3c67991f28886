//! The engine together with a store that keeps what it is told.
//!
//! A session is a run of the engine in which the store answers faithfully: it
//! returns what was last written and its writes succeed. The provider may answer
//! anything. The laws here relate what the store holds to what the provider
//! confirmed, and the provider calls to the changes that were observed.

use crate::engine::laws::{lemma_next_enabled, lemma_run_keeps_wf, state_after, Arrival};
use crate::engine::model::{EngineModel, Phase};
use crate::engine::protocol::InputView;
use crate::ip::IpAddress;
use crate::state::records::Records;
use crate::state::memory::stamped_record;
use crate::time::Timestamp;
use vstd::prelude::*;

verus! {

/// What lies outside the engine: the store's records, and for each record the
/// address of the provider's most recent success.
pub struct World {
    /// What the store holds.
    pub store: Records,
    /// The address that the provider last confirmed for each record.
    pub confirmed: Map<Seq<char>, IpAddress>,
}

/// The address that the store holds for `name`, if it holds the record.
pub open spec fn stored_ip(store: Records, name: Seq<char>) -> Option<IpAddress> {
    if store.dom().contains(name) {
        Some(store[name].last_ip)
    } else {
        None
    }
}

/// The record that the store holds for `name`, if it holds one.
pub open spec fn stored_record(store: Records, name: Seq<char>) -> Option<
    crate::traits::StateRecordView,
> {
    if store.dom().contains(name) {
        Some(store[name])
    } else {
        None
    }
}

/// The world after the engine in state `m` has taken `input` at the time `at`:
/// a success of the provider is noted as confirmed, a write that succeeded is in the store.
pub open spec fn observe(m: EngineModel, w: World, input: InputView, at: Timestamp) -> World {
    match (m.phase, input) {
        (Phase::Attempting { record, ip, .. }, InputView::Updated(Ok(_))) => World {
            confirmed: w.confirmed.insert(m.name(record as int), ip),
            ..w
        },
        (Phase::Writing { record, ip }, InputView::Stored(Ok(_))) => World {
            store: w.store.insert(m.name(record as int), stamped_record(ip, at)),
            ..w
        },
        _ => w,
    }
}

/// Whether `input` is what a faithful store answers to the engine in state `m`:
/// reads return what the store holds, and writes succeed.
pub open spec fn faithful(m: EngineModel, w: World, input: InputView) -> bool {
    match (m.phase, input) {
        (Phase::ReadingLastIp { record, .. }, InputView::LastIp(last)) => last == Ok::<
            Option<IpAddress>,
            crate::error::ErrorView,
        >(stored_ip(w.store, m.name(record as int))),
        (Phase::ReadingRecord { record, .. }, InputView::Record(found)) => found == Ok::<
            Option<crate::traits::StateRecordView>,
            crate::error::ErrorView,
        >(stored_record(w.store, m.name(record as int))),
        (Phase::Writing { .. }, InputView::Stored(written)) => written is Ok,
        _ => true,
    }
}

/// The world after the inputs `arrivals`, taken in order, beginning with `w`.
pub open spec fn world_after(start: EngineModel, w: World, arrivals: Seq<Arrival>) -> World
    decreases arrivals.len(),
{
    if arrivals.len() == 0 {
        w
    } else {
        observe(
            state_after(start, arrivals.drop_last()),
            world_after(start, w, arrivals.drop_last()),
            arrivals.last().input,
            arrivals.last().at,
        )
    }
}

/// Whether the store answers faithfully throughout the run.
pub open spec fn faithful_session(start: EngineModel, w: World, arrivals: Seq<Arrival>) -> bool
    decreases arrivals.len(),
{
    arrivals.len() > 0 ==> {
        &&& faithful_session(start, w, arrivals.drop_last())
        &&& faithful(
            state_after(start, arrivals.drop_last()),
            world_after(start, w, arrivals.drop_last()),
            arrivals.last().input,
        )
    }
}

/// Whether the provider never fails in the run.
pub open spec fn reliable_provider(arrivals: Seq<Arrival>) -> bool {
    forall|k: int|
        0 <= k < arrivals.len() ==> !((#[trigger] arrivals[k]).input matches InputView::Updated(
            Err(_),
        ))
}

/// Whether every change that the source reports in the run carries the address `ip`.
pub open spec fn only_address(arrivals: Seq<Arrival>, ip: IpAddress) -> bool {
    forall|k: int|
        0 <= k < arrivals.len() ==> ((#[trigger] arrivals[k]).input matches InputView::IpChanged(e)
            ==> e.new_ip == ip)
}

/// The address of the last change that the engine took up, if it took up any.
pub open spec fn last_observed(start: EngineModel, arrivals: Seq<Arrival>) -> Option<IpAddress>
    decreases arrivals.len(),
{
    if arrivals.len() == 0 {
        None
    } else if state_after(start, arrivals.drop_last()).phase == Phase::Watching {
        match arrivals.last().input {
            InputView::IpChanged(e) => Some(e.new_ip),
            _ => last_observed(start, arrivals.drop_last()),
        }
    } else {
        last_observed(start, arrivals.drop_last())
    }
}

/// How many times the observed address changed: the changes that the engine took
/// up whose address differs from that of the change before, the first one included.
pub open spec fn transitions(start: EngineModel, arrivals: Seq<Arrival>) -> nat
    decreases arrivals.len(),
{
    if arrivals.len() == 0 {
        0
    } else {
        let before = transitions(start, arrivals.drop_last());
        if state_after(start, arrivals.drop_last()).phase == Phase::Watching {
            match arrivals.last().input {
                InputView::IpChanged(e) => if last_observed(start, arrivals.drop_last()) == Some(
                    e.new_ip,
                ) {
                    before
                } else {
                    before + 1
                },
                _ => before,
            }
        } else {
            before
        }
    }
}

/// How many times the run calls the provider for the record `name`.
pub open spec fn calls_for(start: EngineModel, arrivals: Seq<Arrival>, name: Seq<char>) -> nat
    decreases arrivals.len(),
{
    if arrivals.len() == 0 {
        0
    } else {
        let out = state_after(start, arrivals.drop_last()).step(
            arrivals.last().input,
            arrivals.last().at,
        ).1;
        calls_for(start, arrivals.drop_last(), name) + if out.command matches crate::engine::protocol::CommandView::UpdateRecord {
            record_name,
            ..
        } && record_name == name {
            1nat
        } else {
            0nat
        }
    }
}

/// How many times the provider reports success for the record `name` in the run.
pub open spec fn successes_for(start: EngineModel, arrivals: Seq<Arrival>, name: Seq<char>) -> nat
    decreases arrivals.len(),
{
    if arrivals.len() == 0 {
        0
    } else {
        let before = state_after(start, arrivals.drop_last());
        successes_for(start, arrivals.drop_last(), name) + if before.phase matches Phase::Attempting {
            record,
            ..
        } && before.name(record as int) == name && arrivals.last().input matches InputView::Updated(
            Ok(_),
        ) {
            1nat
        } else {
            0nat
        }
    }
}

/// Whether the step of the engine in state `m` on `input` is an answer of the
/// provider that it has changed the record `name`.
pub open spec fn is_mutation_for(m: EngineModel, input: InputView, name: Seq<char>) -> bool {
    &&& m.phase matches Phase::Attempting { record, .. }
    &&& m.name(record as int) == name
    &&& input matches InputView::Updated(Ok(result))
    &&& result.spec_is_mutation()
}

/// How many times the provider changes the record `name` in the run: its
/// successes that are no `Unchanged`.
pub open spec fn mutations_for(start: EngineModel, arrivals: Seq<Arrival>, name: Seq<char>) -> nat
    decreases arrivals.len(),
{
    if arrivals.len() == 0 {
        0
    } else {
        let before = state_after(start, arrivals.drop_last());
        mutations_for(start, arrivals.drop_last(), name) + if is_mutation_for(
            before,
            arrivals.last().input,
            name,
        ) {
            1nat
        } else {
            0nat
        }
    }
}

/// A mutation is a success.
pub proof fn lemma_mutations_are_successes(start: EngineModel, arrivals: Seq<Arrival>, name: Seq<char>)
    ensures
        mutations_for(start, arrivals, name) <= successes_for(start, arrivals, name),
    decreases arrivals.len(),
{
    if arrivals.len() > 0 {
        lemma_mutations_are_successes(start, arrivals.drop_last(), name);
    }
}

/// Whether the store agrees with the provider: every record that the store holds
/// was confirmed by the provider with the address that the store holds, but for
/// the record whose confirmed address is just being written.
pub open spec fn store_agrees(m: EngineModel, w: World) -> bool {
    &&& forall|name: Seq<char>| #[trigger]
        w.store.dom().contains(name) ==> {
            &&& w.confirmed.dom().contains(name)
            &&& (w.confirmed[name] == w.store[name].last_ip || (m.phase matches Phase::Writing {
                record,
                ..
            } && m.name(record as int) == name))
        }
    &&& m.phase matches Phase::Writing { record, ip } ==> {
        &&& w.confirmed.dom().contains(m.name(record as int))
        &&& w.confirmed[m.name(record as int)] == ip
    }
}

/// One step keeps the store in agreement with the provider.
#[verifier::rlimit(40)]
proof fn lemma_agreement_step(m: EngineModel, w: World, input: InputView, at: Timestamp)
    requires
        m.wf(),
        store_agrees(m, w),
        faithful(m, w, input),
    ensures
        store_agrees(m.step(input, at).0, observe(m, w, input, at)),
{
    let next = m.step(input, at).0;
    let after = observe(m, w, input, at);
    lemma_next_enabled(m.records, 0);
    match m.phase {
        Phase::Attempting { record, ip, attempt } => {
            lemma_next_enabled(m.records, record + 1);
            match input {
                InputView::Updated(Ok(_)) => {
                    assert(next.phase == (Phase::Writing { record, ip }));
                    assert(after.confirmed == w.confirmed.insert(m.name(record as int), ip));
                    assert(after.store == w.store);
                    assert(store_agrees(next, after));
                },
                _ => {
                    assert(after == w);
                    assert(!(next.phase is Writing));
                    assert(store_agrees(next, after));
                },
            }
        },
        Phase::Writing { record, ip } => {
            lemma_next_enabled(m.records, record + 1);
            match input {
                InputView::Stored(Ok(_)) => {
                    assert(!(next.phase is Writing));
                    assert(after.store == w.store.insert(
                        m.name(record as int),
                        stamped_record(ip, at),
                    ));
                    assert(after.confirmed == w.confirmed);
                    assert(store_agrees(next, after));
                },
                InputView::Stored(Err(_)) => {
                },
                _ => {
                    assert(next == m);
                    assert(after == w);
                },
            }
        },
        _ => {
            if let Some(i) = m.phase.record() {
                lemma_next_enabled(m.records, i + 1);
            }
            assert(after == w);
            assert(!(next.phase is Writing));
            assert(store_agrees(next, after));
        },
    }
}

/// State integrity: the store never holds an address that the provider has not
/// confirmed, and what it holds is the most recent confirmation.
///
/// Take a world in which every record of the store was confirmed with the address
/// it holds, and a session from a fresh engine. After every step, each record of
/// the store holds the address of the provider's most recent success for it; the
/// one exception is the record whose success has just arrived and is on its way
/// to the store. Once the engine waits for changes again there is no exception.
pub proof fn law_state_integrity(start: EngineModel, w: World, arrivals: Seq<Arrival>)
    requires
        start.wf(),
        start.phase == Phase::Constructed,
        store_agrees(start, w),
        faithful_session(start, w, arrivals),
    ensures
        store_agrees(state_after(start, arrivals), world_after(start, w, arrivals)),
        !(state_after(start, arrivals).phase is Writing) ==> forall|name: Seq<char>| #[trigger]
            world_after(start, w, arrivals).store.dom().contains(name) ==> stored_ip(
                world_after(start, w, arrivals).store,
                name,
            ) == Some(world_after(start, w, arrivals).confirmed[name]),
    decreases arrivals.len(),
{
    if arrivals.len() > 0 {
        let earlier = arrivals.drop_last();
        law_state_integrity(start, w, earlier);
        lemma_run_keeps_wf(start, earlier);
        lemma_agreement_step(
            state_after(start, earlier),
            world_after(start, w, earlier),
            arrivals.last().input,
            arrivals.last().at,
        );
    }
}

/// What holds of one record while every change carries the same address.
pub open spec fn settled(m: EngineModel, w: World, successes: nat, name: Seq<char>, ip: IpAddress) -> bool {
    &&& successes <= 1
    &&& successes == 1 ==> (stored_ip(w.store, name) == Some(ip) || (m.phase matches Phase::Writing {
        record,
        ..
    } && m.name(record as int) == name))
    &&& match m.phase {
        Phase::CheckingSupport { ip: pending, .. } => pending == ip,
        Phase::ReadingLastIp { ip: pending, .. } => pending == ip,
        Phase::ReadingRecord { record, ip: pending } => pending == ip && (m.name(record as int)
            == name ==> stored_ip(w.store, name) != Some(ip)),
        Phase::Attempting { record, ip: pending, .. } => pending == ip && (m.name(record as int)
            == name ==> stored_ip(w.store, name) != Some(ip)),
        Phase::Backoff { record, ip: pending, .. } => pending == ip && (m.name(record as int)
            == name ==> stored_ip(w.store, name) != Some(ip)),
        Phase::Writing { ip: pending, .. } => pending == ip,
        _ => true,
    }
}

/// Whether the step of the engine in state `m` on `input` is a success of the
/// provider for the record `name`.
pub open spec fn is_success_for(m: EngineModel, input: InputView, name: Seq<char>) -> bool {
    &&& m.phase matches Phase::Attempting { record, .. }
    &&& m.name(record as int) == name
    &&& input matches InputView::Updated(Ok(_))
}

/// One step keeps a record settled.
#[verifier::rlimit(40)]
proof fn lemma_settled_step(
    m: EngineModel,
    w: World,
    successes: nat,
    name: Seq<char>,
    ip: IpAddress,
    input: InputView,
    at: Timestamp,
)
    requires
        m.wf(),
        settled(m, w, successes, name, ip),
        faithful(m, w, input),
        input matches InputView::IpChanged(e) ==> e.new_ip == ip,
    ensures
        settled(
            m.step(input, at).0,
            observe(m, w, input, at),
            successes + if is_success_for(m, input, name) {
                1nat
            } else {
                0nat
            },
            name,
            ip,
        ),
{
    let next = m.step(input, at).0;
    let after = observe(m, w, input, at);
    lemma_next_enabled(m.records, 0);
    match m.phase {
        Phase::Attempting { record, ip: pending, attempt } => {
            lemma_next_enabled(m.records, record + 1);
            match input {
                InputView::Updated(Ok(_)) => {
                    assert(next.phase == (Phase::Writing { record, ip: pending }));
                    assert(after.store == w.store);
                },
                InputView::Updated(Err(_)) => {
                    assert(after == w);
                },
                _ => {
                    assert(next == m);
                    assert(after == w);
                },
            }
        },
        Phase::Writing { record, ip: pending } => {
            lemma_next_enabled(m.records, record + 1);
            match input {
                InputView::Stored(Ok(_)) => {
                    assert(after.store == w.store.insert(
                        m.name(record as int),
                        stamped_record(pending, at),
                    ));
                    assert(stored_ip(after.store, m.name(record as int)) == Some(pending));
                },
                InputView::Stored(Err(_)) => {
                },
                _ => {
                    assert(next == m);
                    assert(after == w);
                },
            }
        },
        Phase::ReadingLastIp { record, ip: pending } => {
            lemma_next_enabled(m.records, record + 1);
            assert(after == w);
        },
        Phase::ReadingRecord { record, ip: pending } => {
            lemma_next_enabled(m.records, record + 1);
            assert(after == w);
        },
        Phase::CheckingSupport { record, ip: pending } => {
            lemma_next_enabled(m.records, record + 1);
            assert(after == w);
        },
        Phase::Backoff { record, ip: pending, attempt } => {
            assert(after == w);
        },
        _ => {
            assert(after == w);
        },
    }
}

/// Updating twice applies once.
///
/// In a session from a fresh engine in which every reported change carries the
/// address `ip`, however many there are, the provider succeeds at most once for
/// each record: after the first success the store holds `ip`, and every later
/// update of the record is skipped before the provider is called. At most one
/// mutation is therefore applied at the provider.
pub proof fn law_update_is_idempotent(
    start: EngineModel,
    w: World,
    arrivals: Seq<Arrival>,
    name: Seq<char>,
    ip: IpAddress,
)
    requires
        start.wf(),
        start.phase == Phase::Constructed,
        faithful_session(start, w, arrivals),
        only_address(arrivals, ip),
    ensures
        successes_for(start, arrivals, name) <= 1,
        mutations_for(start, arrivals, name) <= 1,
        settled(
            state_after(start, arrivals),
            world_after(start, w, arrivals),
            successes_for(start, arrivals, name),
            name,
            ip,
        ),
    decreases arrivals.len(),
{
    lemma_mutations_are_successes(start, arrivals, name);
    if arrivals.len() > 0 {
        let earlier = arrivals.drop_last();
        assert(only_address(earlier, ip)) by {
            assert forall|k: int| 0 <= k < earlier.len() implies ((
            #[trigger] earlier[k]).input matches InputView::IpChanged(e) ==> e.new_ip == ip) by {
                assert(earlier[k] == arrivals[k]);
            }
        }
        assert(arrivals[arrivals.len() - 1].input matches InputView::IpChanged(e) ==> e.new_ip == ip);
        law_update_is_idempotent(start, w, earlier, name, ip);
        lemma_run_keeps_wf(start, earlier);
        lemma_settled_step(
            state_after(start, earlier),
            world_after(start, w, earlier),
            successes_for(start, earlier, name),
            name,
            ip,
            arrivals.last().input,
            arrivals.last().at,
        );
    }
}

/// What holds of the calls for one record while the provider never fails.
pub open spec fn accounted(
    m: EngineModel,
    w: World,
    calls: nat,
    changes: nat,
    last: Option<IpAddress>,
    name: Seq<char>,
) -> bool {
    let owed: nat = if last is Some && stored_ip(w.store, name) != last {
        1
    } else {
        0
    };
    &&& match m.phase {
        Phase::CheckingSupport { ip, .. } => last == Some(ip) && calls + owed <= changes,
        Phase::ReadingLastIp { ip, .. } => last == Some(ip) && calls + owed <= changes,
        Phase::ReadingRecord { record, ip } => last == Some(ip) && calls + owed <= changes && (
        m.name(record as int) == name ==> owed == 1),
        Phase::Attempting { record, ip, attempt } => last == Some(ip) && attempt == 0 && if m.name(
            record as int,
        ) == name {
            calls <= changes
        } else {
            calls + owed <= changes
        },
        Phase::Backoff { .. } => false,
        Phase::Writing { record, ip } => last == Some(ip) && if m.name(record as int) == name {
            calls <= changes
        } else {
            calls + owed <= changes
        },
        _ => calls + owed <= changes,
    }
}

/// Whether the step of the engine in state `m` on `input` calls the provider for
/// the record `name`.
pub open spec fn is_call_for(m: EngineModel, input: InputView, at: Timestamp, name: Seq<char>) -> bool {
    m.step(input, at).1.command matches crate::engine::protocol::CommandView::UpdateRecord {
        record_name,
        ..
    } && record_name == name
}

/// The changes counted after the engine in state `m` has taken `input`.
pub open spec fn changes_after(m: EngineModel, input: InputView, last: Option<IpAddress>, changes: nat) -> nat {
    if m.phase == Phase::Watching {
        match input {
            InputView::IpChanged(e) => if last == Some(e.new_ip) {
                changes
            } else {
                changes + 1
            },
            _ => changes,
        }
    } else {
        changes
    }
}

/// The address last taken up after the engine in state `m` has taken `input`.
pub open spec fn observed_after(m: EngineModel, input: InputView, last: Option<IpAddress>) -> Option<
    IpAddress,
> {
    if m.phase == Phase::Watching {
        match input {
            InputView::IpChanged(e) => Some(e.new_ip),
            _ => last,
        }
    } else {
        last
    }
}

/// One step keeps the calls for a record accounted for.
#[verifier::rlimit(40)]
proof fn lemma_accounted_step(
    m: EngineModel,
    w: World,
    calls: nat,
    changes: nat,
    last: Option<IpAddress>,
    name: Seq<char>,
    input: InputView,
    at: Timestamp,
)
    requires
        m.wf(),
        accounted(m, w, calls, changes, last, name),
        faithful(m, w, input),
        !(input matches InputView::Updated(Err(_))),
    ensures
        accounted(
            m.step(input, at).0,
            observe(m, w, input, at),
            calls + if is_call_for(m, input, at, name) {
                1nat
            } else {
                0nat
            },
            changes_after(m, input, last, changes),
            observed_after(m, input, last),
            name,
        ),
{
    let next = m.step(input, at).0;
    let after = observe(m, w, input, at);
    lemma_next_enabled(m.records, 0);
    match m.phase {
        Phase::Attempting { record, ip, attempt } => {
            lemma_next_enabled(m.records, record + 1);
            match input {
                InputView::Updated(Ok(_)) => {
                    assert(next.phase == (Phase::Writing { record, ip }));
                    assert(after.store == w.store);
                },
                _ => {
                    assert(next == m);
                    assert(after == w);
                },
            }
        },
        Phase::Writing { record, ip } => {
            lemma_next_enabled(m.records, record + 1);
            match input {
                InputView::Stored(Ok(_)) => {
                    assert(after.store == w.store.insert(
                        m.name(record as int),
                        stamped_record(ip, at),
                    ));
                    assert(stored_ip(after.store, m.name(record as int)) == Some(ip));
                    assert(m.name(record as int) != name ==> stored_ip(after.store, name)
                        == stored_ip(w.store, name));
                },
                InputView::Stored(Err(_)) => {
                },
                _ => {
                    assert(next == m);
                    assert(after == w);
                },
            }
        },
        Phase::ReadingLastIp { record, ip } => {
            lemma_next_enabled(m.records, record + 1);
            assert(after == w);
        },
        Phase::ReadingRecord { record, ip } => {
            lemma_next_enabled(m.records, record + 1);
            assert(after == w);
        },
        Phase::CheckingSupport { record, ip } => {
            lemma_next_enabled(m.records, record + 1);
            assert(after == w);
        },
        Phase::Backoff { .. } => {
        },
        _ => {
            assert(after == w);
        },
    }
}

/// Idempotency: the provider is called no more often than the address changed.
///
/// In a session from a fresh engine in which the provider never fails, the calls
/// for each record number at most the changes of the observed address: a change
/// to the address that the store already holds is skipped, and so is a repeated
/// report of the same address.
pub proof fn law_calls_bounded_by_changes(
    start: EngineModel,
    w: World,
    arrivals: Seq<Arrival>,
    name: Seq<char>,
)
    requires
        start.wf(),
        start.phase == Phase::Constructed,
        faithful_session(start, w, arrivals),
        reliable_provider(arrivals),
    ensures
        calls_for(start, arrivals, name) <= transitions(start, arrivals),
        accounted(
            state_after(start, arrivals),
            world_after(start, w, arrivals),
            calls_for(start, arrivals, name),
            transitions(start, arrivals),
            last_observed(start, arrivals),
            name,
        ),
    decreases arrivals.len(),
{
    if arrivals.len() > 0 {
        let earlier = arrivals.drop_last();
        assert(reliable_provider(earlier)) by {
            assert forall|k: int| 0 <= k < earlier.len() implies !((
            #[trigger] earlier[k]).input matches InputView::Updated(Err(_))) by {
                assert(earlier[k] == arrivals[k]);
            }
        }
        assert(!(arrivals[arrivals.len() - 1].input matches InputView::Updated(Err(_))));
        law_calls_bounded_by_changes(start, w, earlier, name);
        lemma_run_keeps_wf(start, earlier);
        lemma_accounted_step(
            state_after(start, earlier),
            world_after(start, w, earlier),
            calls_for(start, earlier, name),
            transitions(start, earlier),
            last_observed(start, earlier),
            name,
            arrivals.last().input,
            arrivals.last().at,
        );
    }
}

} // verus!
