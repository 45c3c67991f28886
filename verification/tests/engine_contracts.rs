use ddns_core::config::{
    DdnsConfig, EngineConfig, IpSourceConfig, ProviderConfig, RecordConfig, StateStoreConfig,
};
use ddns_core::engine::{Command, DdnsEngine, EngineEvent, Input, Lifecycle, Phase};
use ddns_core::error::Error;
use ddns_core::ip::IpAddress;
use ddns_core::state::MemoryStateStore;
use ddns_core::time::Timestamp;
use ddns_core::traits::{IpChangeEvent, StateRecord, UpdateResult};

fn minimal_config(record_name: &str) -> DdnsConfig {
    DdnsConfig {
        ip_source: IpSourceConfig::Netlink { interface: None, version: None },
        provider: ProviderConfig::Cloudflare {
            api_token: "test-token".to_string(),
            zone_id: None,
            account_id: None,
        },
        state_store: StateStoreConfig::Memory,
        records: vec![RecordConfig::new(record_name)],
        engine: EngineConfig {
            max_retries: 3,
            retry_delay_secs: 1,
            startup_delay_secs: 0,
            min_update_interval_secs: 0,
            event_channel_capacity: 100,
            metadata: Vec::new(),
        },
    }
}

#[derive(Clone)]
enum Provider {
    Updates,
    Creates,
    Unchanged,
    AlwaysFails(&'static str),
    FailsFirst(usize),
}

struct Session {
    engine: DdnsEngine,
    store: MemoryStateStore,
    provider: Provider,
    supports: bool,
    current: Result<IpAddress, Error>,
    store_write: Result<(), Error>,
    last_ip_read: Option<Error>,
    flush: Result<(), Error>,
    now: Timestamp,
    update_calls: Vec<(String, IpAddress)>,
    set_calls: Vec<(String, IpAddress)>,
    flush_calls: usize,
    current_calls: usize,
    watch_calls: usize,
    next_event_calls: usize,
    sleeps: Vec<u64>,
    events: Vec<EngineEvent>,
    finished: Vec<Result<(), Error>>,
}

impl Session {
    fn new(config: DdnsConfig, provider: Provider, store: MemoryStateStore) -> Session {
        let engine = DdnsEngine::new(config, "test").expect("engine construction succeeds");
        Session {
            engine,
            store,
            provider,
            supports: true,
            current: Ok(IpAddress::from_octets(192, 168, 1, 1)),
            store_write: Ok(()),
            last_ip_read: None,
            flush: Ok(()),
            now: Timestamp::new(1_700_000_000, 0),
            update_calls: Vec::new(),
            set_calls: Vec::new(),
            flush_calls: 0,
            current_calls: 0,
            watch_calls: 0,
            next_event_calls: 0,
            sleeps: Vec::new(),
            events: Vec::new(),
            finished: Vec::new(),
        }
    }

    fn answer(&mut self, record_name: &str, ip: IpAddress) -> Result<UpdateResult, Error> {
        let call = self.update_calls.len();
        self.update_calls.push((record_name.to_string(), ip));
        match self.provider {
            Provider::Updates => Ok(UpdateResult::Updated { previous_ip: None, new_ip: ip }),
            Provider::Creates => Ok(UpdateResult::Created { new_ip: ip }),
            Provider::Unchanged => Ok(UpdateResult::Unchanged { current_ip: ip }),
            Provider::AlwaysFails(message) => Err(Error::other(message)),
            Provider::FailsFirst(n) => {
                if call < n {
                    Err(Error::other("Provider unavailable"))
                } else {
                    Ok(UpdateResult::Updated { previous_ip: None, new_ip: ip })
                }
            }
        }
    }

    /// Hands `input` to the engine and performs what it commands, until it waits
    /// for the source or the run is over.
    fn drive(&mut self, input: Input) -> Option<Result<(), Error>> {
        let mut input = input;
        loop {
            let out = self.engine.step_at(input, self.now);
            self.events.extend(out.events);
            if let Some(result) = out.finished {
                self.finished.push(result);
            }
            input = match out.command {
                Command::Sleep { secs } => {
                    self.sleeps.push(secs);
                    Input::Slept
                }
                Command::ProbeCurrent => {
                    self.current_calls += 1;
                    Input::CurrentIp(self.current.clone())
                }
                Command::Watch => {
                    self.watch_calls += 1;
                    return None;
                }
                Command::NextEvent => {
                    self.next_event_calls += 1;
                    return None;
                }
                Command::SupportsRecord { record_name: _ } => Input::Supported(self.supports),
                Command::GetLastIp { record_name } => match &self.last_ip_read {
                    Some(e) => Input::LastIp(Err(e.clone())),
                    None => Input::LastIp(self.store.get_last_ip(&record_name)),
                },
                Command::GetRecord { record_name } => {
                    Input::Record(self.store.get_record(&record_name))
                }
                Command::UpdateRecord { record_name, new_ip } => {
                    Input::Updated(self.answer(&record_name, new_ip))
                }
                Command::SetLastIp { record_name, ip } => {
                    self.set_calls.push((record_name.clone(), ip));
                    match &self.store_write {
                        Ok(()) => Input::Stored(self.store.set_last_ip_at(&record_name, ip, self.now)),
                        Err(e) => Input::Stored(Err(e.clone())),
                    }
                }
                Command::Flush => {
                    self.flush_calls += 1;
                    Input::Flushed(self.flush.clone())
                }
                Command::Finish(result) => return Some(result),
                Command::Unexpected => panic!("the engine refused an input"),
            };
        }
    }

    fn start(&mut self) {
        assert!(self.drive(Input::Start).is_none());
    }

    fn change(&mut self, new_ip: IpAddress, previous: Option<IpAddress>) {
        assert!(self.drive(Input::IpChanged(IpChangeEvent::new(new_ip, previous))).is_none());
    }

    fn shutdown(&mut self) -> Result<(), Error> {
        self.drive(Input::Shutdown).expect("the run ends")
    }
}

fn session(provider: Provider) -> Session {
    Session::new(minimal_config("example.com"), provider, MemoryStateStore::new())
}

#[test]
fn one_ip_change_triggers_exactly_one_dns_update() {
    let initial_ip = IpAddress::from_octets(192, 168, 1, 1);
    let mut s = session(Provider::Updates);
    s.start();
    let new_ip = IpAddress::from_octets(10, 0, 0, 1);
    s.change(new_ip, Some(initial_ip));
    s.shutdown().unwrap();
    assert_eq!(s.update_calls.len(), 1, "Expected exactly 1 DNS update for 1 IP event");
    assert_eq!(s.update_calls[0], ("example.com".to_string(), new_ip));
    assert_eq!(s.set_calls, vec![("example.com".to_string(), new_ip)]);
    assert_eq!(s.store.get_last_ip("example.com").unwrap(), Some(new_ip));
}

#[test]
fn multiple_ip_changes_trigger_multiple_updates() {
    let mut s = session(Provider::Updates);
    s.start();
    for i in 1..=3u8 {
        s.change(IpAddress::from_octets(10, 0, 0, i), None);
    }
    s.shutdown().unwrap();
    assert_eq!(s.update_calls.len(), 3, "Expected 3 updates for 3 IP events");
}

#[test]
fn same_ip_does_not_trigger_update() {
    let initial_ip = IpAddress::from_octets(192, 168, 1, 1);
    let mut s = session(Provider::Updates);
    s.start();
    s.change(initial_ip, None);
    s.change(initial_ip, None);
    s.shutdown().unwrap();
    assert_eq!(s.update_calls.len(), 1, "Expected 1 update for 2 identical IP events");
}

#[test]
fn no_polling_between_events() {
    let initial_ip = IpAddress::from_octets(192, 168, 1, 1);
    let mut s = session(Provider::Updates);
    s.start();
    s.change(initial_ip, None);
    s.shutdown().unwrap();
    assert_eq!(s.update_calls.len(), 1, "Expected 1 update without polling");
    assert_eq!(s.watch_calls, 1);
    assert_eq!(s.next_event_calls, 1);
    assert_eq!(s.current_calls, 1);
}

#[test]
fn duplicate_ip_does_not_trigger_dns_update() {
    let initial_ip = IpAddress::from_octets(192, 168, 1, 1);
    let mut s = session(Provider::Updates);
    s.start();
    s.change(initial_ip, None);
    s.change(initial_ip, None);
    s.shutdown().unwrap();
    assert_eq!(s.update_calls.len(), 1, "Expected 1 update for 2 identical IP events");
    let skipped = EngineEvent::UpdateSkipped {
        record_name: "example.com".to_string(),
        current_ip: initial_ip,
    };
    assert_eq!(s.events.iter().filter(|e| **e == skipped).count(), 1);
}

#[test]
fn restart_simulation_no_duplicate_updates() {
    let initial_ip = IpAddress::from_octets(192, 168, 1, 1);
    let mut first = session(Provider::Updates);
    first.start();
    first.change(initial_ip, None);
    first.shutdown().unwrap();
    assert_eq!(
        first.store.get_last_ip("example.com").unwrap(),
        Some(initial_ip),
        "State should persist last IP"
    );
    assert_eq!(first.update_calls.len(), 1, "First run should update DNS once");

    let mut second = Session::new(minimal_config("example.com"), Provider::Updates, first.store);
    second.start();
    second.change(initial_ip, None);
    second.shutdown().unwrap();
    assert_eq!(second.update_calls.len(), 0, "Second run should skip update (state exists)");
}

#[test]
fn ip_change_after_restart_triggers_update() {
    let initial_ip = IpAddress::from_octets(192, 168, 1, 1);
    let new_ip = IpAddress::from_octets(10, 0, 0, 1);
    let mut first = session(Provider::Updates);
    first.start();
    first.change(initial_ip, None);
    first.shutdown().unwrap();

    let mut second = Session::new(minimal_config("example.com"), Provider::Updates, first.store);
    second.start();
    second.change(new_ip, Some(initial_ip));
    second.shutdown().unwrap();
    assert_eq!(second.update_calls.len(), 1, "Second run with new IP should update DNS");
    assert_eq!(
        second.store.get_last_ip("example.com").unwrap(),
        Some(new_ip),
        "State should reflect new IP"
    );
}

#[test]
fn restart_then_same_then_new_address() {
    let first_ip = IpAddress::from_octets(192, 168, 1, 1);
    let mut round1 = session(Provider::Updates);
    round1.start();
    round1.change(first_ip, None);
    round1.shutdown().unwrap();
    assert_eq!(round1.update_calls.len(), 1);

    let mut round2 = Session::new(minimal_config("example.com"), Provider::Updates, round1.store);
    round2.start();
    round2.change(first_ip, None);
    assert_eq!(round2.update_calls.len(), 0);
    let next_ip = IpAddress::from_octets(10, 0, 0, 1);
    round2.change(next_ip, Some(first_ip));
    assert_eq!(round2.update_calls, vec![("example.com".to_string(), next_ip)]);
    assert_eq!(round2.store.get_last_ip("example.com").unwrap(), Some(next_ip));
}

#[test]
fn idle_no_dns_updates_without_ip_events() {
    let mut s = session(Provider::Updates);
    s.start();
    let result = s.shutdown();
    assert!(result.is_ok(), "engine shuts down cleanly");
    assert_eq!(s.update_calls.len(), 0);
}

#[test]
fn idle_no_background_polling() {
    let mut s = session(Provider::Updates);
    s.start();
    s.shutdown().unwrap();
    assert_eq!(s.current_calls, 1, "current() should be called exactly once at startup");
    assert_eq!(s.watch_calls, 1, "watch() should be called exactly once at startup");
}

#[test]
fn idle_no_periodic_wakeups() {
    let mut s = session(Provider::Updates);
    s.start();
    assert_eq!(s.engine.phase(), Phase::Watching);
    s.shutdown().unwrap();
    assert_eq!(s.next_event_calls, 0, "Stream should not be polled repeatedly");
    assert!(s.sleeps.is_empty());
}

#[test]
fn retries_can_be_disabled_via_config() {
    let initial_ip = IpAddress::from_octets(192, 168, 1, 1);
    let mut config = minimal_config("example.com");
    config.engine.max_retries = 0;
    let mut s = Session::new(config, Provider::AlwaysFails("Provider unavailable"), MemoryStateStore::new());
    s.start();
    let new_ip = IpAddress::from_octets(10, 0, 0, 1);
    s.change(new_ip, Some(initial_ip));
    s.shutdown().unwrap();
    assert_eq!(
        s.update_calls.len(),
        1,
        "Expected exactly 1 DNS update attempt with max_retries=0"
    );
    let failures: Vec<&EngineEvent> =
        s.events.iter().filter(|e| matches!(e, EngineEvent::UpdateFailed { .. })).collect();
    assert_eq!(failures.len(), 1);
    assert!(s.sleeps.is_empty());
}

#[test]
fn retries_honor_explicit_configuration() {
    let initial_ip = IpAddress::from_octets(192, 168, 1, 1);
    let mut config = minimal_config("example.com");
    config.engine.max_retries = 2;
    config.engine.retry_delay_secs = 0;
    let mut s = Session::new(config, Provider::AlwaysFails("Provider unavailable"), MemoryStateStore::new());
    s.start();
    let new_ip = IpAddress::from_octets(10, 0, 0, 1);
    s.change(new_ip, Some(initial_ip));
    s.shutdown().unwrap();
    assert_eq!(
        s.update_calls.len(),
        3,
        "Expected 3 attempts (1 initial + 2 retries) with max_retries=2"
    );
    assert_eq!(s.sleeps, vec![0, 0]);
    assert_eq!(
        s.events.last_chunk::<2>().unwrap()[0],
        EngineEvent::UpdateFailed {
            record_name: "example.com".to_string(),
            error: "Provider error (test): Provider unavailable".to_string(),
            retry_count: 2,
        }
    );
    assert_eq!(
        s.finished,
        vec![Err(Error::provider("test", "Provider unavailable"))]
    );
    assert_eq!(s.store.get_last_ip("example.com").unwrap(), None);
    assert!(s.set_calls.is_empty());
}

#[test]
fn shutdown_signal_terminates_engine() {
    let mut s = session(Provider::Updates);
    s.start();
    assert_eq!(s.engine.lifecycle(), Lifecycle::Running);
    let result = s.shutdown();
    assert!(result.is_ok(), "Engine should shut down successfully: {:?}", result);
    assert_eq!(s.engine.lifecycle(), Lifecycle::Stopped);
    assert_eq!(
        s.events.last(),
        Some(&EngineEvent::Stopped { reason: "Shutdown signal".to_string() })
    );
}

#[test]
fn shutdown_flushes_state() {
    let mut s = session(Provider::Updates);
    s.start();
    s.shutdown().unwrap();
    assert_eq!(
        s.flush_calls, 1,
        "StateStore::flush() should be called exactly once on shutdown"
    );
}

#[test]
fn shutdown_during_ip_update() {
    let mut s = session(Provider::Updates);
    s.start();
    let out = s.engine.step_at(
        Input::IpChanged(IpChangeEvent::new(IpAddress::from_octets(10, 0, 0, 1), None)),
        s.now,
    );
    assert!(matches!(out.command, Command::SupportsRecord { .. }));
    let refused = s.engine.step_at(Input::Shutdown, s.now);
    assert_eq!(refused.command, Command::Unexpected);
    assert!(refused.events.is_empty());
    assert!(matches!(s.engine.phase(), Phase::CheckingSupport { record: 0, .. }));
    assert!(s.drive(Input::Supported(true)).is_none());
    assert_eq!(s.update_calls.len(), 1);
    assert!(s.shutdown().is_ok(), "Engine should terminate even after an update");
    assert_eq!(s.flush_calls, 1);
}

#[test]
fn no_future_leaks_after_shutdown() {
    let mut s = session(Provider::Updates);
    s.start();
    s.shutdown().unwrap();
    assert_eq!(s.engine.phase(), Phase::Stopped);
    let after = s.engine.step_at(
        Input::IpChanged(IpChangeEvent::new(IpAddress::from_octets(10, 0, 0, 1), None)),
        s.now,
    );
    assert_eq!(after.command, Command::Unexpected);
    assert!(after.events.is_empty());
    assert_eq!(s.engine.phase(), Phase::Stopped);
    assert_eq!(s.watch_calls, 1);
}

#[test]
fn multiple_shutdown_calls_are_safe() {
    let mut s = session(Provider::Updates);
    s.start();
    let result = s.shutdown();
    assert!(result.is_ok(), "Multiple shutdown signals should not cause issues");
    let again = s.engine.step_at(Input::Shutdown, s.now);
    assert_eq!(again.command, Command::Unexpected);
    assert_eq!(s.flush_calls, 1);
}

#[test]
fn events_come_in_causal_order() {
    let ip = IpAddress::from_octets(10, 0, 0, 1);
    let mut s = session(Provider::Updates);
    s.start();
    s.change(ip, None);
    s.shutdown().unwrap();
    let name = "example.com".to_string();
    assert_eq!(
        s.events,
        vec![
            EngineEvent::Started { records_count: 1 },
            EngineEvent::IpChangeDetected { record_name: name.clone(), new_ip: ip },
            EngineEvent::UpdateStarted { record_name: name.clone(), new_ip: ip },
            EngineEvent::UpdateSucceeded { record_name: name.clone(), new_ip: ip, previous_ip: None },
            EngineEvent::Stopped { reason: "Shutdown signal".to_string() },
        ]
    );
    assert_eq!(s.finished, vec![Ok(())]);
}

#[test]
fn created_record_reports_success_without_previous_ip() {
    let ip = IpAddress::from_octets(10, 0, 0, 1);
    let mut s = session(Provider::Creates);
    s.start();
    s.change(ip, Some(IpAddress::from_octets(192, 168, 1, 1)));
    assert!(s.events.contains(&EngineEvent::UpdateSucceeded {
        record_name: "example.com".to_string(),
        new_ip: ip,
        previous_ip: None,
    }));
    assert_eq!(s.store.get_last_ip("example.com").unwrap(), Some(ip));
}

#[test]
fn unchanged_answer_writes_state_without_success_event() {
    let ip = IpAddress::from_octets(10, 0, 0, 1);
    let mut s = session(Provider::Unchanged);
    s.start();
    s.change(ip, None);
    assert!(!s.events.iter().any(|e| matches!(e, EngineEvent::UpdateSucceeded { .. })));
    assert_eq!(s.set_calls, vec![("example.com".to_string(), ip)]);
    assert_eq!(s.store.get_last_ip("example.com").unwrap(), Some(ip));
    assert_eq!(s.finished, vec![Ok(())]);
}

#[test]
fn retry_succeeds_after_failures() {
    let ip = IpAddress::from_octets(10, 0, 0, 1);
    let mut s = session(Provider::FailsFirst(2));
    s.start();
    s.change(ip, None);
    assert_eq!(s.update_calls.len(), 3);
    assert_eq!(s.sleeps, vec![1, 1]);
    assert_eq!(s.store.get_last_ip("example.com").unwrap(), Some(ip));
    assert!(!s.events.iter().any(|e| matches!(e, EngineEvent::UpdateFailed { .. })));
    assert_eq!(s.finished, vec![Ok(())]);
}

#[test]
fn rate_limit_skips_an_update_that_comes_too_soon() {
    let mut config = minimal_config("example.com");
    config.engine.min_update_interval_secs = 60;
    let mut s = Session::new(config, Provider::Updates, MemoryStateStore::new());
    s.start();
    let first = IpAddress::from_octets(10, 0, 0, 1);
    let second = IpAddress::from_octets(10, 0, 0, 2);
    s.change(first, None);
    assert_eq!(s.update_calls.len(), 1);
    s.now = Timestamp::new(1_700_000_059, 999_999_999);
    s.change(second, Some(first));
    assert_eq!(s.update_calls.len(), 1);
    assert_eq!(
        s.events.last(),
        Some(&EngineEvent::UpdateSkipped { record_name: "example.com".to_string(), current_ip: second })
    );
    assert_eq!(s.store.get_last_ip("example.com").unwrap(), Some(first));
    s.now = Timestamp::new(1_700_000_060, 0);
    s.change(second, Some(first));
    assert_eq!(s.update_calls.len(), 2);
    assert_eq!(s.store.get_last_ip("example.com").unwrap(), Some(second));
}

#[test]
fn disabled_and_unsupported_records_are_passed_over() {
    let mut config = minimal_config("a.example.com");
    config.records.push(RecordConfig::new("b.example.com").with_enabled(false));
    config.records.push(RecordConfig::new("c.example.com"));
    let mut s = Session::new(config, Provider::Updates, MemoryStateStore::new());
    s.start();
    let ip = IpAddress::from_octets(10, 0, 0, 1);
    s.change(ip, None);
    assert_eq!(
        s.update_calls,
        vec![("a.example.com".to_string(), ip), ("c.example.com".to_string(), ip)]
    );
    assert_eq!(s.events[0], EngineEvent::Started { records_count: 3 });

    let mut t = session(Provider::Updates);
    t.supports = false;
    t.start();
    t.change(ip, None);
    assert!(t.update_calls.is_empty());
    assert_eq!(t.events, vec![EngineEvent::Started { records_count: 1 }]);
}

#[test]
fn failed_probe_is_fatal() {
    let mut s = session(Provider::Updates);
    s.current = Err(Error::ip_source("no address"));
    let result = s.drive(Input::Start).expect("the run ends");
    assert_eq!(result, Err(Error::ip_source("no address")));
    assert_eq!(s.engine.phase(), Phase::Stopped);
    assert_eq!(s.flush_calls, 0);
    assert_eq!(s.watch_calls, 0);
}

#[test]
fn flush_error_is_returned_from_the_run() {
    let mut s = session(Provider::Updates);
    s.flush = Err(Error::state_store("disk full"));
    s.start();
    assert_eq!(s.shutdown(), Err(Error::state_store("disk full")));
    assert_eq!(s.flush_calls, 1);
}

#[test]
fn store_read_error_counts_as_no_prior_state() {
    let ip = IpAddress::from_octets(10, 0, 0, 1);
    let mut s = session(Provider::Updates);
    s.last_ip_read = Some(Error::state_store("unreadable"));
    s.start();
    s.change(ip, None);
    assert_eq!(s.update_calls.len(), 1);
    assert_eq!(s.finished, vec![Ok(())]);
}

#[test]
fn store_write_error_is_the_result_of_the_update() {
    let ip = IpAddress::from_octets(10, 0, 0, 1);
    let mut s = session(Provider::Updates);
    s.store_write = Err(Error::state_store("read-only"));
    s.start();
    s.change(ip, None);
    assert_eq!(s.finished, vec![Err(Error::state_store("read-only"))]);
    assert_eq!(s.engine.phase(), Phase::Watching);
    s.change(ip, None);
    assert_eq!(s.update_calls.len(), 2);
}

#[test]
fn startup_delay_sleeps_before_the_probe() {
    let mut config = minimal_config("example.com");
    config.engine.startup_delay_secs = 7;
    let mut engine = DdnsEngine::new(config, "test").unwrap();
    let out = engine.step_at(Input::Start, Timestamp::new(0, 0));
    assert_eq!(out.command, Command::Sleep { secs: 7 });
    assert_eq!(out.events, vec![EngineEvent::Started { records_count: 1 }]);
    assert_eq!(engine.phase(), Phase::Delaying);
    let out = engine.step_at(Input::Slept, Timestamp::new(7, 0));
    assert_eq!(out.command, Command::ProbeCurrent);
}

#[test]
fn engine_is_not_built_from_an_invalid_configuration() {
    let mut config = minimal_config("example.com");
    config.records.clear();
    assert_eq!(
        DdnsEngine::new(config, "test").err(),
        Some(Error::config("No records configured"))
    );
    let engine = DdnsEngine::new(minimal_config("example.com"), "test").unwrap();
    assert_eq!(engine.event_channel_capacity(), 100);
    assert_eq!(engine.records_count(), 1);
    assert_eq!(engine.lifecycle(), Lifecycle::Constructed);
}

#[test]
fn step_reads_the_clock_for_the_rate_limit() {
    let mut config = minimal_config("example.com");
    config.engine.min_update_interval_secs = 3600;
    let mut engine = DdnsEngine::new(config, "test").unwrap();
    let ip = IpAddress::from_octets(10, 0, 0, 1);
    engine.step(Input::Start);
    engine.step(Input::CurrentIp(Ok(ip)));
    engine.step(Input::IpChanged(IpChangeEvent::new(ip, None)));
    engine.step(Input::Supported(true));
    let out = engine.step(Input::LastIp(Ok(None)));
    assert_eq!(out.command, Command::GetRecord { record_name: "example.com".to_string() });
    let long_ago = StateRecord::stamped(IpAddress::from_octets(10, 0, 0, 9), Timestamp::new(1_000, 0));
    let out = engine.step(Input::Record(Ok(Some(long_ago))));
    assert_eq!(
        out.command,
        Command::UpdateRecord { record_name: "example.com".to_string(), new_ip: ip }
    );
}

#[test]
fn test_engine_event_serialization() {
    let event = EngineEvent::IpChangeDetected {
        record_name: "example.com".to_string(),
        new_ip: IpAddress::from_octets(1, 2, 3, 4),
    };
    let _ = event.clone();
    assert_eq!(event.clone(), event);
}
