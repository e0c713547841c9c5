use fastjob_worker::collaborators::{Clock, Dispatcher, Store, Transport};
use fastjob_worker::digits::u64_to_string;
use fastjob_worker::error::{DispatchFailure, StorageFailure, WorkerError};
use fastjob_worker::mem_store::MemStore as ReferenceStore;
use fastjob_worker::model::{AppOwnership, ComponentStatus, ElectionLock, WorkerManagerConfig};
use fastjob_worker::registry::{registry_contains, registry_len};
use fastjob_worker::worker_manager::{TickOutcome, WorkerManager, WorkerManagerBuilder};

struct MemStore {
    recs: Vec<AppOwnership>,
    lock_granted: bool,
    lock_attempts: usize,
    reads: usize,
}

impl MemStore {
    fn new(recs: Vec<AppOwnership>) -> MemStore {
        MemStore { recs, lock_granted: true, lock_attempts: 0, reads: 0 }
    }
}

impl Store for MemStore {
    fn fetch_ownership(&mut self, app_id: u64) -> Result<Option<AppOwnership>, StorageFailure> {
        self.reads += 1;
        Ok(self.recs.iter().find(|r| r.app_id == app_id).cloned())
    }

    fn app_name_registered(&mut self, app_name: &str) -> Result<bool, StorageFailure> {
        self.reads += 1;
        Ok(self.recs.iter().any(|r| r.app_name == app_name))
    }

    fn save_ownership(&mut self, rec: AppOwnership) -> Result<(), StorageFailure> {
        match self.recs.iter_mut().find(|r| r.app_id == rec.app_id) {
            Some(slot) => *slot = rec,
            None => self.recs.push(rec),
        }
        Ok(())
    }

    fn try_lock(&mut self, _lock: ElectionLock) -> bool {
        self.lock_attempts += 1;
        self.lock_granted
    }

    fn find_owned(&mut self, address: &str) -> Result<Option<Vec<AppOwnership>>, StorageFailure> {
        self.reads += 1;
        let v: Vec<AppOwnership> =
            self.recs.iter().filter(|r| r.current_server == address).cloned().collect();
        if v.is_empty() {
            Ok(None)
        } else {
            Ok(Some(v))
        }
    }
}

/// A store whose every operation fails at the backend.
struct FailingStore {}

impl Store for FailingStore {
    fn fetch_ownership(&mut self, _app_id: u64) -> Result<Option<AppOwnership>, StorageFailure> {
        Err(StorageFailure { message: String::from("backend down") })
    }

    fn app_name_registered(&mut self, _app_name: &str) -> Result<bool, StorageFailure> {
        Err(StorageFailure { message: String::from("backend down") })
    }

    fn save_ownership(&mut self, _rec: AppOwnership) -> Result<(), StorageFailure> {
        Err(StorageFailure { message: String::from("backend down") })
    }

    fn try_lock(&mut self, _lock: ElectionLock) -> bool {
        false
    }

    fn find_owned(&mut self, _address: &str) -> Result<Option<Vec<AppOwnership>>, StorageFailure> {
        Err(StorageFailure { message: String::from("backend down") })
    }
}

/// A store that panics on any access: it proves a code path touched no store.
struct UntouchableStore {}

impl Store for UntouchableStore {
    fn fetch_ownership(&mut self, _app_id: u64) -> Result<Option<AppOwnership>, StorageFailure> {
        panic!("the store must not be read");
    }

    fn app_name_registered(&mut self, _app_name: &str) -> Result<bool, StorageFailure> {
        panic!("the store must not be read");
    }

    fn save_ownership(&mut self, _rec: AppOwnership) -> Result<(), StorageFailure> {
        panic!("the store must not be written");
    }

    fn try_lock(&mut self, _lock: ElectionLock) -> bool {
        panic!("the store must not be locked");
    }

    fn find_owned(&mut self, _address: &str) -> Result<Option<Vec<AppOwnership>>, StorageFailure> {
        panic!("the store must not be read");
    }
}

struct ScriptedTransport {
    alive: Vec<String>,
    pings: usize,
    backoffs: usize,
    backoff_millis_total: u64,
}

impl ScriptedTransport {
    fn new(alive: Vec<String>) -> ScriptedTransport {
        ScriptedTransport { alive, pings: 0, backoffs: 0, backoff_millis_total: 0 }
    }
}

impl Transport for ScriptedTransport {
    fn ping(&mut self, address: &str) -> Option<u64> {
        self.pings += 1;
        if self.alive.iter().any(|a| a == address) {
            Some(200)
        } else {
            Some(503)
        }
    }

    fn backoff(&mut self, millis: u64) {
        self.backoffs += 1;
        self.backoff_millis_total += millis;
    }
}

struct FakeClock {
    now: i64,
    step: i64,
}

impl Clock for FakeClock {
    fn now_millis(&mut self) -> i64 {
        let t = self.now;
        self.now += self.step;
        t
    }
}

struct CountingDispatcher {
    cron: usize,
    workflow: usize,
    frequent: usize,
    shutdowns: usize,
    fail_cron: bool,
    fail_workflow: bool,
    fail_frequent: bool,
}

impl CountingDispatcher {
    fn new() -> CountingDispatcher {
        CountingDispatcher {
            cron: 0,
            workflow: 0,
            frequent: 0,
            shutdowns: 0,
            fail_cron: false,
            fail_workflow: false,
            fail_frequent: false,
        }
    }
}

impl Dispatcher for CountingDispatcher {
    fn schedule_cron_job(&mut self, _ids: &Vec<u64>) -> Result<(), DispatchFailure> {
        self.cron += 1;
        if self.fail_cron {
            Err(DispatchFailure { message: String::from("cron phase failed") })
        } else {
            Ok(())
        }
    }

    fn schedule_worker_flow(&mut self, _ids: &Vec<u64>) -> Result<(), DispatchFailure> {
        self.workflow += 1;
        if self.fail_workflow {
            Err(DispatchFailure { message: String::from("workflow phase failed") })
        } else {
            Ok(())
        }
    }

    fn schedule_frequent_job(&mut self, _ids: &Vec<u64>) -> Result<(), DispatchFailure> {
        self.frequent += 1;
        if self.fail_frequent {
            Err(DispatchFailure { message: String::from("frequent phase failed") })
        } else {
            Ok(())
        }
    }

    fn shutdown(&mut self) {
        self.shutdowns += 1;
    }
}

fn ownership(app_id: u64, app_name: &str, server: &str) -> AppOwnership {
    AppOwnership {
        app_id,
        app_name: String::from(app_name),
        current_server: String::from(server),
        last_modified: 0,
    }
}

fn manager<S: Store>(storage: S) -> WorkerManager<S> {
    WorkerManagerBuilder::builder(WorkerManagerConfig {}, storage)
        .id(1)
        .address(String::from("SELF"))
        .build()
}

#[test]
fn t_sched() {}

#[test]
fn lookup_absent_app_reports_not_registered() {
    let mut mgr = manager(MemStore::new(vec![]));
    let mut transport = ScriptedTransport::new(vec![]);
    let mut clock = FakeClock { now: 0, step: 0 };
    let r = mgr.lookup(&mut transport, &mut clock, "S2", 7);
    assert_eq!(
        r,
        Err(WorkerError::WorkerNotRegistered { app_name_or_id: String::from("7") })
    );
    assert_eq!(transport.pings, 0);
}

#[test]
fn lookup_for_own_address_touches_no_store() {
    let mut mgr = manager(UntouchableStore {});
    let mut transport = ScriptedTransport::new(vec![]);
    let mut clock = FakeClock { now: 0, step: 0 };
    let r = mgr.lookup(&mut transport, &mut clock, "SELF", 42);
    assert_eq!(r, Ok(String::from("SELF")));
    assert_eq!(transport.pings, 0);
}

#[test]
fn lookup_keeps_active_owner_without_lock_attempt() {
    let mut mgr = manager(MemStore::new(vec![ownership(3, "app-three", "S1")]));
    let mut transport = ScriptedTransport::new(vec![String::from("S1")]);
    let mut clock = FakeClock { now: 0, step: 0 };
    let r = mgr.lookup(&mut transport, &mut clock, "S2", 3);
    assert_eq!(r, Ok(String::from("S1")));
    assert_eq!(mgr.storage.lock_attempts, 0);
}

#[test]
fn usurpation_is_observed_by_later_lookup() {
    let mut mgr = manager(MemStore::new(vec![ownership(9, "app-nine", "S1")]));
    let mut transport = ScriptedTransport::new(vec![String::from("S2"), String::from("S3")]);
    let mut clock = FakeClock { now: 12345, step: 0 };

    // S1 is dead, so server B usurps the ownership of app 9
    let r = mgr.lookup(&mut transport, &mut clock, "S2", 9);
    assert_eq!(r, Ok(String::from("S2")));

    // the store now records B; a lookup on behalf of server C observes it
    let r2 = mgr.lookup(&mut transport, &mut clock, "S3", 9);
    assert_eq!(r2, Ok(String::from("S2")));

    let rec = mgr.storage.recs.iter().find(|r| r.app_id == 9).cloned().unwrap();
    assert_eq!(rec.current_server, "S2");
    assert_eq!(rec.app_name, "app-nine");
    assert_eq!(rec.last_modified, 12345);
    // the negative-probe cache: one probe per lookup (S1 dead, then S2 alive)
    assert_eq!(transport.pings, 2);
}

#[test]
fn lookup_exhausts_retries_with_three_backoffs() {
    let mut store = MemStore::new(vec![ownership(5, "app-five", "S1")]);
    store.lock_granted = false;
    let mut mgr = manager(store);
    let mut transport = ScriptedTransport::new(vec![]);
    let mut clock = FakeClock { now: 0, step: 0 };
    let r = mgr.lookup(&mut transport, &mut clock, "S2", 5);
    assert_eq!(r, Err(WorkerError::LookupFail { server_ip: String::from("SELF") }));
    // one backoff of ELECTION_BACKOFF_MILLIS per failed attempt
    assert_eq!(transport.backoffs, 3);
    assert_eq!(transport.backoff_millis_total, 1500);
    assert_eq!(mgr.storage.lock_attempts, 3);
    // the negative-probe cache kept S1 from being pinged again
    assert_eq!(transport.pings, 1);
}

#[test]
fn lookup_surfaces_backend_failure() {
    let mut mgr = manager(FailingStore {});
    let mut transport = ScriptedTransport::new(vec![]);
    let mut clock = FakeClock { now: 0, step: 0 };
    let r = mgr.lookup(&mut transport, &mut clock, "S2", 5);
    assert_eq!(
        r,
        Err(WorkerError::WorkerStorageError {
            source: StorageFailure { message: String::from("backend down") }
        })
    );
}

#[test]
fn validate_worker_accepts_registered_name() {
    let mut mgr = manager(MemStore::new(vec![ownership(1, "app-one", "S1")]));
    assert_eq!(mgr.validate_worker("app-one"), Ok(()));
}

#[test]
fn validate_worker_rejects_unknown_name() {
    let mut mgr = manager(MemStore::new(vec![ownership(1, "app-one", "S1")]));
    assert_eq!(
        mgr.validate_worker("app-two"),
        Err(WorkerError::WorkerNotRegistered { app_name_or_id: String::from("app-two") })
    );
}

#[test]
fn prune_keeps_exactly_the_active_keys() {
    let mut mgr = manager(MemStore::new(vec![]));
    mgr.connect("a").unwrap();
    mgr.connect("b").unwrap();
    mgr.connect("c").unwrap();
    // connecting an address twice keeps one entry
    mgr.connect("b").unwrap();
    assert_eq!(registry_len(&mgr.workers), 3);

    mgr.clean_useless_worker(&vec![String::from("b"), String::from("d")]);
    assert_eq!(registry_len(&mgr.workers), 1);
    assert!(registry_contains(&mgr.workers, "b"));
    assert!(!registry_contains(&mgr.workers, "a"));
    assert!(!registry_contains(&mgr.workers, "c"));
    assert!(!registry_contains(&mgr.workers, "d"));
}

#[test]
fn empty_tick_invokes_no_dispatcher() {
    let mut mgr = manager(MemStore::new(vec![ownership(4, "app-four", "ELSEWHERE")]));
    let mut dispatcher = CountingDispatcher::new();
    let mut clock = FakeClock { now: 0, step: 1 };
    let r = mgr.manual_sched(&mut dispatcher, &mut clock);
    assert_eq!(r, Ok(TickOutcome::NoJobs));
    assert_eq!(dispatcher.cron, 0);
    assert_eq!(dispatcher.workflow, 0);
    assert_eq!(dispatcher.frequent, 0);
}

#[test]
fn cron_failure_aborts_tick_and_next_tick_recovers() {
    let mut mgr = manager(MemStore::new(vec![ownership(4, "app-four", "SELF")]));
    let mut dispatcher = CountingDispatcher::new();
    dispatcher.fail_cron = true;
    let mut clock = FakeClock { now: 0, step: 1 };

    let r = mgr.manual_sched(&mut dispatcher, &mut clock);
    assert_eq!(
        r,
        Err(WorkerError::SchedulerFailed {
            source: DispatchFailure { message: String::from("cron phase failed") }
        })
    );
    assert_eq!(dispatcher.cron, 1);
    assert_eq!(dispatcher.workflow, 0);
    assert_eq!(dispatcher.frequent, 0);

    // no failure state carries over: the next tick runs all three phases
    dispatcher.fail_cron = false;
    let r2 = mgr.manual_sched(&mut dispatcher, &mut clock);
    assert!(matches!(r2, Ok(TickOutcome::Completed { .. })));
    assert_eq!(dispatcher.cron, 2);
    assert_eq!(dispatcher.workflow, 1);
    assert_eq!(dispatcher.frequent, 1);
}

#[test]
fn tick_prunes_registry_to_owned_ids() {
    let mut mgr = manager(MemStore::new(vec![ownership(21, "app", "SELF")]));
    mgr.connect("21").unwrap();
    mgr.connect("99").unwrap();
    let mut dispatcher = CountingDispatcher::new();
    let mut clock = FakeClock { now: 0, step: 1 };
    let r = mgr.manual_sched(&mut dispatcher, &mut clock);
    assert!(matches!(r, Ok(TickOutcome::Completed { .. })));
    assert_eq!(registry_len(&mgr.workers), 1);
    assert!(registry_contains(&mgr.workers, "21"));
    assert!(!registry_contains(&mgr.workers, "99"));
}

#[test]
fn tick_measures_costs_and_flags_overrun() {
    let mut mgr = manager(MemStore::new(vec![ownership(4, "app-four", "SELF")]));
    let mut dispatcher = CountingDispatcher::new();
    // each clock sample advances 6 seconds: three phases overrun the
    // ten-second cadence
    let mut clock = FakeClock { now: 0, step: 6000 };
    let r = mgr.manual_sched(&mut dispatcher, &mut clock);
    assert_eq!(
        r,
        Ok(TickOutcome::Completed {
            cron_cost_ms: 6000,
            workflow_cost_ms: 6000,
            frequent_cost_ms: 6000,
            total_cost_ms: 18000,
            overrun: true,
        })
    );

    let mut fast_clock = FakeClock { now: 0, step: 100 };
    let r2 = mgr.manual_sched(&mut dispatcher, &mut fast_clock);
    assert_eq!(
        r2,
        Ok(TickOutcome::Completed {
            cron_cost_ms: 100,
            workflow_cost_ms: 100,
            frequent_cost_ms: 100,
            total_cost_ms: 300,
            overrun: false,
        })
    );
}

#[test]
fn tick_surfaces_store_failure_distinctly() {
    let mut mgr = manager(FailingStore {});
    let mut dispatcher = CountingDispatcher::new();
    let mut clock = FakeClock { now: 0, step: 1 };
    let r = mgr.manual_sched(&mut dispatcher, &mut clock);
    assert_eq!(
        r,
        Err(WorkerError::WorkerStorageError {
            source: StorageFailure { message: String::from("backend down") }
        })
    );
    assert_eq!(dispatcher.cron, 0);
}

#[test]
fn lifecycle_status_transitions() {
    let mut mgr = manager(MemStore::new(vec![]));
    assert_eq!(mgr.get_status(), ComponentStatus::Starting);
    mgr.start();
    assert_eq!(mgr.get_status(), ComponentStatus::Running);
    let mut dispatcher = CountingDispatcher::new();
    mgr.stop(&mut dispatcher);
    assert_eq!(mgr.get_status(), ComponentStatus::Stopped);
    assert_eq!(dispatcher.shutdowns, 1);
}

#[test]
fn builder_sets_identity_and_address() {
    let mgr = manager(MemStore::new(vec![]));
    assert_eq!(mgr.id, 1);
    assert_eq!(mgr.address, "SELF");
    assert_eq!(registry_len(&mgr.workers), 0);
}

#[test]
fn decimal_rendering_is_exact() {
    assert_eq!(u64_to_string(0), "0");
    assert_eq!(u64_to_string(9), "9");
    assert_eq!(u64_to_string(10), "10");
    assert_eq!(u64_to_string(1234567890), "1234567890");
    assert_eq!(u64_to_string(u64::MAX), "18446744073709551615");
}

#[test]
fn usurpation_through_reference_store() {
    let mut store = ReferenceStore::new();
    store.save_ownership(ownership(9, "app-nine", "S1")).unwrap();
    let mut mgr = WorkerManagerBuilder::builder(WorkerManagerConfig {}, store)
        .id(2)
        .address(String::from("SELF"))
        .build();
    let mut transport = ScriptedTransport::new(vec![String::from("S2")]);
    let mut clock = FakeClock { now: 77, step: 0 };

    let r = mgr.lookup(&mut transport, &mut clock, "S2", 9);
    assert_eq!(r, Ok(String::from("S2")));

    let rec = mgr.storage.fetch_ownership(9).unwrap().unwrap();
    assert_eq!(rec.current_server, "S2");
    assert_eq!(rec.app_name, "app-nine");
    assert_eq!(rec.last_modified, 77);
}

#[test]
fn tick_through_reference_store() {
    let mut store = ReferenceStore::new();
    store.save_ownership(ownership(21, "app-tick", "SELF")).unwrap();
    store.save_ownership(ownership(22, "app-idle", "ELSEWHERE")).unwrap();
    let mut mgr = WorkerManagerBuilder::builder(WorkerManagerConfig {}, store)
        .id(3)
        .address(String::from("SELF"))
        .build();
    let mut dispatcher = CountingDispatcher::new();
    let mut clock = FakeClock { now: 0, step: 1 };
    let r = mgr.manual_sched(&mut dispatcher, &mut clock);
    assert!(matches!(r, Ok(TickOutcome::Completed { .. })));
    assert_eq!(dispatcher.cron, 1);
    assert_eq!(dispatcher.workflow, 1);
    assert_eq!(dispatcher.frequent, 1);

    assert_eq!(
        mgr.validate_worker("app-tick"),
        Ok(())
    );
    assert_eq!(
        mgr.validate_worker("app-absent"),
        Err(WorkerError::WorkerNotRegistered { app_name_or_id: String::from("app-absent") })
    );
}
