//! The worker manager: app-ownership election, the periodic scheduling
//! tick, the worker registry, and lifecycle wiring.

use vstd::prelude::*;

use crate::collaborators::{
    reply_active, spec_name_registered, spec_no_owned, spec_reply_active, Clock, Dispatcher,
    Store, Transport,
};
use crate::digits::{spec_u64_digits, u64_to_string};
use crate::error::WorkerError;
use crate::model::{AppOwnership, ComponentStatus, ElectionLock, WorkerHandle, WorkerManagerConfig};
use crate::registry::{
    registry_insert, registry_new, registry_retain_active, registry_view, spec_empty_registry_view,
    spec_string_set, vec_contains_string,
};

verus! {

/// Size of the dedicated worker pool the tick timer runs on.
pub const WORKER_MANAGER_SCHED_POOL_NUM_SIZE: usize = 2;

/// Delay before the first tick, in milliseconds.
pub const WORKER_MANAGER_FETCH_INIT_MILLIS: u64 = 2000;

/// Fixed period between ticks, in milliseconds; a tick that runs longer
/// than this has overrun its cadence.
pub const WORKER_MANAGER_FETCH_FIXED_MILLIS: u64 = 10000;

/// How many election attempts one lookup makes before giving up.
pub const RETRY_TIMES: u32 = 3;

/// Time-to-live recorded on an election lock, in milliseconds.
pub const ELECTION_LOCK_TTL_MILLIS: u64 = 30000;

/// Backoff slept after a failed lock acquisition, in milliseconds.
pub const ELECTION_BACKOFF_MILLIS: u64 = 500;

/// The app ids that `address` owns in `m`.
pub open spec fn spec_owned_ids(m: Map<u64, AppOwnership>, address: Seq<char>) -> Set<u64> {
    Set::new(|id: u64| m.contains_key(id) && m[id].current_server@ == address)
}

/// The decimal names of the app ids that `address` owns in `m`.
pub open spec fn spec_owned_id_names(m: Map<u64, AppOwnership>, address: Seq<char>) -> Set<
    Seq<char>,
> {
    Set::new(
        |s: Seq<char>|
            exists|id: u64|
                #[trigger] m.contains_key(id) && m[id].current_server@ == address && s
                    == spec_u64_digits(id as nat),
    )
}

/// The set of ids occurring in a list.
pub open spec fn spec_id_set(ids: Seq<u64>) -> Set<u64> {
    Set::new(|x: u64| exists|j: int| 0 <= j < ids.len() && ids[j] == x)
}

/// Elapsed milliseconds between two wall-clock samples, clamped at zero so
/// that a clock stepping backwards cannot underflow a cost.
pub open spec fn spec_clamp_elapsed(start: i64, end: i64) -> u64 {
    if end >= start {
        (end - start) as u64
    } else {
        0u64
    }
}

fn clamp_elapsed(start: i64, end: i64) -> (r: u64)
    ensures
        r == spec_clamp_elapsed(start, end),
{
    if end >= start {
        let d: i128 = (end as i128) - (start as i128);
        proof {
            assert(0 <= d <= u64::MAX);
        }
        d as u64
    } else {
        0
    }
}

/// What one scheduling tick did.
#[derive(Clone, Copy, Debug, PartialEq, Eq, Structural)]
pub enum TickOutcome {
    /// The store listed no app owned by this node; no phase was dispatched.
    NoJobs,
    /// All three phases ran, in order, with their measured costs.
    Completed {
        cron_cost_ms: u64,
        workflow_cost_ms: u64,
        frequent_cost_ms: u64,
        total_cost_ms: u64,
        overrun: bool,
    },
}

/// Law (read-after-write through the store): a successful non-fast-path
/// lookup answers exactly the owner its final store view records for the
/// app (`lookup`'s success clause), and a fetch of that app against the
/// same view returns that very record (`Store::fetch_ownership`'s
/// contract) — so the next node to look the app up observes the new owner.
pub proof fn lemma_lookup_read_after_write(
    post: Map<u64, AppOwnership>,
    app_id: u64,
    answered: Seq<char>,
    fetched: AppOwnership,
)
    requires
        post.contains_key(app_id),
        post[app_id].current_server@ == answered,
        fetched == post[app_id],
    ensures
        fetched.current_server@ == answered,
{
}

/// The control-plane manager of one cluster node.
#[derive(Debug)]
pub struct WorkerManager<S: Store> {
    pub id: i64,
    pub address: String,
    pub storage: S,
    pub workers: dashmap::DashMap<String, WorkerHandle>,
    pub status: ComponentStatus,
}

/// Builder for a `WorkerManager`.
#[derive(Debug)]
pub struct WorkerManagerBuilder<S: Store> {
    pub id: i64,
    pub config: WorkerManagerConfig,
    pub storage: S,
    pub address: String,
}

impl<S: Store> WorkerManagerBuilder<S> {
    /// Starts a builder over the given settings and store.
    pub fn builder(config: WorkerManagerConfig, storage: S) -> (r: Self)
        ensures
            r.id == 0,
            r.config == config,
            r.storage == storage,
            r.address@ == Seq::<char>::empty(),
    {
        WorkerManagerBuilder { id: 0, config, storage, address: String::new() }
    }

    /// Sets the manager's id.
    pub fn id(self, id: i64) -> (r: Self)
        ensures
            r.id == id,
            r.config == self.config,
            r.storage == self.storage,
            r.address == self.address,
    {
        WorkerManagerBuilder { id, ..self }
    }

    /// Sets this node's own address, the one `lookup`'s fast path compares
    /// against.
    pub fn address(self, address: String) -> (r: Self)
        ensures
            r.address == address,
            r.id == self.id,
            r.config == self.config,
            r.storage == self.storage,
    {
        WorkerManagerBuilder { address, ..self }
    }

    /// Builds the manager: empty registry, starting status.
    pub fn build(self) -> (r: WorkerManager<S>)
        ensures
            r.id == self.id,
            r.address == self.address,
            r.storage == self.storage,
            registry_view(r.workers) == spec_empty_registry_view(),
            r.status == ComponentStatus::Starting,
    {
        WorkerManager {
            id: self.id,
            address: self.address,
            storage: self.storage,
            workers: registry_new(),
            status: ComponentStatus::Starting,
        }
    }
}

impl<S: Store> WorkerManager<S> {
    /// Moves the manager into its running state. Arming the fixed-rate tick
    /// timer (first fire after `WORKER_MANAGER_FETCH_INIT_MILLIS`, then
    /// every `WORKER_MANAGER_FETCH_FIXED_MILLIS`, on the manager's dedicated
    /// pool) is runtime plumbing and lives with the caller.
    pub fn start(&mut self)
        ensures
            final(self).status == ComponentStatus::Running,
            final(self).id == old(self).id,
            final(self).address == old(self).address,
            final(self).storage == old(self).storage,
            final(self).workers == old(self).workers,
    {
        self.status = ComponentStatus::Running;
    }

    /// Stops the dispatch sub-systems and leaves the manager stopped. The
    /// caller halts the tick timer; no further tick starts once this has
    /// begun.
    pub fn stop<D: Dispatcher>(&mut self, scheduler: &mut D)
        ensures
            final(self).status == ComponentStatus::Stopped,
            final(self).id == old(self).id,
            final(self).address == old(self).address,
            final(self).storage == old(self).storage,
            final(self).workers == old(self).workers,
            final(scheduler).shutdown_calls() == old(scheduler).shutdown_calls() + 1,
            final(scheduler).cron_log() == old(scheduler).cron_log(),
            final(scheduler).workflow_log() == old(scheduler).workflow_log(),
            final(scheduler).frequent_log() == old(scheduler).frequent_log(),
    {
        scheduler.shutdown();
        self.status = ComponentStatus::Stopped;
    }

    /// Returns the status of the manager.
    pub fn get_status(&self) -> (r: ComponentStatus)
        ensures
            r == self.status,
    {
        self.status
    }

    /// Idempotent upsert of a worker handle for `addr`: the registry
    /// afterwards maps `addr` to a handle carrying `addr` itself.
    pub fn connect(&mut self, addr: &str) -> (r: Result<(), WorkerError>)
        ensures
            (r matches Ok(_)),
            registry_view(final(self).workers) == registry_view(old(self).workers).insert(
                addr@,
                addr@,
            ),
            final(self).storage == old(self).storage,
            final(self).id == old(self).id,
            final(self).address == old(self).address,
            final(self).status == old(self).status,
    {
        let key: String = addr.to_owned();
        let handle = WorkerHandle { address: addr.to_owned() };
        registry_insert(&mut self.workers, key, handle);
        Ok(())
    }

    /// Existence check of `app_name` against the store's app registry:
    /// succeeds exactly on a registered name, fails with `WorkerNotRegistered`
    /// on an unknown one, and surfaces a backend failure distinctly, its
    /// cause wrapped.
    pub fn validate_worker(&mut self, app_name: &str) -> (r: Result<(), WorkerError>)
        ensures
            final(self).storage.ownerships() == old(self).storage.ownerships(),
            final(self).storage.locks() == old(self).storage.locks(),
            final(self).id == old(self).id,
            final(self).address == old(self).address,
            final(self).status == old(self).status,
            final(self).workers == old(self).workers,
            (r matches Ok(_) ==> spec_name_registered(old(self).storage.ownerships(), app_name@)
                && final(self).storage.failures() == old(self).storage.failures()),
            (r matches Err(WorkerError::WorkerStorageError { .. }) ==> final(self).storage.failures() == old(self).storage.failures() + 1),
            (r matches Err(e) ==> (e matches WorkerError::WorkerStorageError { .. } || (
            e matches WorkerError::WorkerNotRegistered { app_name_or_id } && app_name_or_id@
                == app_name@ && !spec_name_registered(old(self).storage.ownerships(), app_name@)))),
    {
        match self.storage.app_name_registered(app_name) {
            Err(e) => Err(WorkerError::WorkerStorageError { source: e }),
            Ok(true) => Ok(()),
            Ok(false) => Err(
                WorkerError::WorkerNotRegistered { app_name_or_id: app_name.to_owned() },
            ),
        }
    }

    /// Health-check of `target_server` through the transport's ping, with a
    /// per-lookup negative-probe cache: a server already recorded dead in
    /// `cache` is not probed again, and a negative probe records the server
    /// in the cache. An uncached probe's verdict is exactly the observed
    /// reply's: active on status 200, inactive on any other code or a
    /// transport failure.
    fn is_active<T: Transport>(
        &self,
        transport: &mut T,
        target_server: &str,
        cache: &mut Vec<String>,
    ) -> (r: bool)
        ensures
            (spec_string_set(old(cache)@).contains(target_server@) ==> !r && final(transport).pings() == old(transport).pings() && final(cache)@ == old(cache)@),
            (!spec_string_set(old(cache)@).contains(target_server@) ==> (final(transport).pings().len() == old(transport).pings().len() + 1 && final(transport).pings().drop_last() == old(transport).pings() && final(transport).pings().last().0
                == target_server@ && r == spec_reply_active(final(transport).pings().last().1))),
            final(transport).backoffs() == old(transport).backoffs(),
            (r ==> final(cache)@ == old(cache)@),
            (!r ==> spec_string_set(final(cache)@) == spec_string_set(old(cache)@).insert(
                target_server@,
            )),
    {
        let probe: String = target_server.to_owned();
        if vec_contains_string(cache, &probe) {
            proof {
                assert(spec_string_set(cache@) =~= spec_string_set(cache@).insert(
                    target_server@,
                ));
            }
            return false;
        }
        let ghost pings_before = transport.pings();
        let reply = transport.ping(target_server);
        proof {
            assert(transport.pings().drop_last() =~= pings_before);
        }
        let active: bool = reply_active(reply);
        if !active {
            let ghost before = cache@;
            cache.push(probe);
            proof {
                assert forall|s: Seq<char>|
                    spec_string_set(cache@).contains(s) == spec_string_set(before).insert(
                        target_server@,
                    ).contains(s) by {
                    if spec_string_set(cache@).contains(s) {
                        let i = choose|i: int| 0 <= i < cache@.len() && cache@[i]@ == s;
                        if i < before.len() {
                            assert(before[i]@ == s);
                        } else {
                            assert(s == target_server@);
                        }
                    }
                    if spec_string_set(before).contains(s) {
                        let i = choose|i: int| 0 <= i < before.len() && before[i]@ == s;
                        assert(cache@[i]@ == s);
                    }
                    if s == target_server@ {
                        assert(cache@[before.len() as int]@ == s);
                    }
                }
                assert(spec_string_set(cache@) =~= spec_string_set(before).insert(
                    target_server@,
                ));
            }
        }
        active
    }

    /// Tries to create the advisory election lock for a contested app.
    fn lock(&mut self, lock: ElectionLock) -> (r: bool)
        ensures
            final(self).storage.ownerships() == old(self).storage.ownerships(),
            final(self).storage.reads() == old(self).storage.reads(),
            final(self).storage.failures() == old(self).storage.failures(),
            (r ==> final(self).storage.locks() == old(self).storage.locks().insert(
                lock.resource_id,
                lock,
            ) && final(self).storage.lock_refusals() == old(self).storage.lock_refusals()),
            (!r ==> final(self).storage.locks() == old(self).storage.locks() && final(self).storage.lock_refusals() == old(self).storage.lock_refusals() + 1),
            final(self).id == old(self).id,
            final(self).address == old(self).address,
            final(self).status == old(self).status,
            final(self).workers == old(self).workers,
    {
        self.storage.try_lock(lock)
    }

    /// Selects the server that owns `app_id`'s scheduling rights, repairing
    /// ownership when the recorded server is dead.
    ///
    /// The fast path answers `current_server` itself without touching the
    /// store, the transport or the clock. Otherwise, for up to `RETRY_TIMES`
    /// attempts: fetch the record (absent means the app was never
    /// registered); answer the recorded server if its probe replies healthy;
    /// otherwise contend on the advisory lock (backing off
    /// `ELECTION_BACKOFF_MILLIS` and retrying when it cannot be taken),
    /// re-check the possibly re-elected owner, and finally usurp: persist
    /// `current_server` as the new owner, stamped with the clock's sample,
    /// and answer it.
    ///
    /// This election is optimistic and not linearizable: between the re-check
    /// and the save, another node can observe the same dead owner and also
    /// usurp; the store's write order then decides the final winner and the
    /// loser is not told. The advisory lock narrows but does not close that
    /// window. A successful answer does come with read-after-write force:
    /// the store's record for `app_id` names the returned server.
    pub fn lookup<T: Transport, C: Clock>(
        &mut self,
        transport: &mut T,
        clock: &mut C,
        current_server: &str,
        app_id: u64,
    ) -> (r: Result<String, WorkerError>)
        ensures
            final(self).id == old(self).id,
            final(self).address == old(self).address,
            final(self).status == old(self).status,
            final(self).workers == old(self).workers,
            // the fast path answers the caller itself: no store operation,
            // no ping, no backoff, no clock sample
            (current_server@ == old(self).address@ ==> ((r matches Ok(a) && a@
                == current_server@) && final(self).storage == old(self).storage && final(transport).pings() == old(transport).pings() && final(transport).backoffs() == old(transport).backoffs() && final(clock).samples() == old(clock).samples())),
            // an unregistered app is reported as such, with its decimal id,
            // before any ping, lock attempt or write
            (r matches Err(WorkerError::WorkerNotRegistered { app_name_or_id }) ==> (!old(self).storage.ownerships().contains_key(app_id) && app_name_or_id@ == spec_u64_digits(
                app_id as nat,
            ) && final(self).storage.ownerships() == old(self).storage.ownerships() && final(self).storage.locks() == old(self).storage.locks() && final(self).storage.lock_refusals()
                == old(self).storage.lock_refusals() && final(transport).pings() == old(transport).pings() && final(transport).backoffs() == old(transport).backoffs() && final(clock).samples() == old(clock).samples())),
            ((current_server@ != old(self).address@ && !old(self).storage.ownerships().contains_key(app_id)) ==> (r matches Err(
                WorkerError::WorkerNotRegistered { .. },
            ) || r matches Err(WorkerError::WorkerStorageError { .. }))),
            // the first probe this lookup sends goes to the recorded owner
            ((current_server@ != old(self).address@ && final(transport).pings().len() > old(transport).pings().len()) ==> (old(self).storage.ownerships().contains_key(app_id) && final(transport).pings()[old(transport).pings().len() as int].0 == old(self).storage.ownerships()[app_id].current_server@)),
            // and a healthy first probe settles the lookup at once: the
            // probed owner is answered unchanged, with no further probe, no
            // lock attempt, no write, no backoff and no clock sample
            ((current_server@ != old(self).address@ && final(transport).pings().len() > old(transport).pings().len() && spec_reply_active(
                final(transport).pings()[old(transport).pings().len() as int].1,
            )) ==> ((r matches Ok(a) && a@ == final(transport).pings()[old(transport).pings().len() as int].0) && final(transport).pings().len() == old(transport).pings().len() + 1 && final(transport).backoffs() == old(transport).backoffs()
                && final(self).storage.ownerships() == old(self).storage.ownerships() && final(self).storage.locks() == old(self).storage.locks() && final(self).storage.lock_refusals()
                == old(self).storage.lock_refusals() && final(clock).samples() == old(clock).samples())),
            // success is either the still-healthy recorded owner, with
            // nothing written and no clock sample, or a usurpation by the
            // caller — persisted, stamped with the clock's one sample, and
            // taken only after the one probe of the recorded owner came
            // back dead
            (current_server@ != old(self).address@ ==> (r matches Ok(a) ==> (old(self).storage.ownerships().contains_key(app_id) && final(self).storage.ownerships().contains_key(app_id) && final(self).storage.ownerships()[app_id].current_server@ == a@ && final(self).storage.ownerships()[app_id].app_name@ == old(self).storage.ownerships()[app_id].app_name@ && ((a@ == old(self).storage.ownerships()[app_id].current_server@ && final(self).storage.ownerships()
                == old(self).storage.ownerships() && final(clock).samples() == old(clock).samples()) || (a@ == current_server@ && final(clock).samples() == old(clock).samples().push(final(self).storage.ownerships()[app_id].last_modified) && final(transport).pings().len() == old(transport).pings().len() + 1 && !spec_reply_active(
                final(transport).pings()[old(transport).pings().len() as int].1,
            )))))),
            // exhausted retries: each of the three attempts found the owner
            // dead (or cached dead), was refused the lock, and backed off
            // for the fixed pause; nothing was written
            (r matches Err(WorkerError::LookupFail { server_ip }) ==> (server_ip@ == old(self).address@ && current_server@ != old(self).address@ && final(self).storage.ownerships() == old(self).storage.ownerships() && final(self).storage.lock_refusals() == old(self).storage.lock_refusals() + RETRY_TIMES && final(transport).backoffs() == old(transport).backoffs() + seq![
                ELECTION_BACKOFF_MILLIS,
                ELECTION_BACKOFF_MILLIS,
                ELECTION_BACKOFF_MILLIS,
            ] && final(clock).samples() == old(clock).samples())),
            // a backend failure aborts the lookup at its first failed
            // operation, with the ownership table unchanged
            (r matches Err(WorkerError::WorkerStorageError { .. }) ==> (final(self).storage.failures() == old(self).storage.failures() + 1 && final(self).storage.ownerships() == old(self).storage.ownerships())),
            (r matches Ok(_) ==> final(self).storage.failures() == old(self).storage.failures()),
            (r matches Err(e) ==> (e matches WorkerError::WorkerStorageError { .. } || e matches
                WorkerError::WorkerNotRegistered { .. } || e matches WorkerError::LookupFail {
                ..
            })),
            // the negative-probe cache holds: one lookup probes at most
            // once, whatever it returns
            final(transport).pings().len() <= old(transport).pings().len() + 1,
            // no record other than this app's is touched, and the only lock
            // that may be created is this app's, held for the caller with
            // the fixed ttl
            final(self).storage.ownerships().remove(app_id) == old(self).storage.ownerships().remove(app_id),
            (final(self).storage.locks() == old(self).storage.locks() || (final(self).storage.locks().contains_key(app_id) && final(self).storage.locks()[app_id].resource_id == app_id && final(self).storage.locks()[app_id].ttl_millis == ELECTION_LOCK_TTL_MILLIS && final(self).storage.locks()[app_id].holder@ == current_server@ && final(self).storage.locks().remove(app_id) == old(self).storage.locks().remove(app_id))),
    {
        let mut cache: Vec<String> = Vec::new();
        let own: String = current_server.to_owned();
        if self.address == own {
            return Ok(own);
        }
        let mut attempt: u32 = 0;
        proof {
            assert(transport.backoffs() =~= old(transport).backoffs() + Seq::new(
                0nat,
                |q: int| ELECTION_BACKOFF_MILLIS,
            ));
        }
        while attempt < RETRY_TIMES
            invariant
                attempt <= RETRY_TIMES,
                current_server@ != old(self).address@,
                self.id == old(self).id,
                self.address == old(self).address,
                self.status == old(self).status,
                self.workers == old(self).workers,
                self.storage.ownerships() == old(self).storage.ownerships(),
                self.storage.failures() == old(self).storage.failures(),
                self.storage.lock_refusals() == old(self).storage.lock_refusals() + attempt,
                (self.storage.locks() == old(self).storage.locks() || (
                self.storage.locks().contains_key(app_id)
                    && self.storage.locks()[app_id].resource_id == app_id
                    && self.storage.locks()[app_id].ttl_millis == ELECTION_LOCK_TTL_MILLIS
                    && self.storage.locks()[app_id].holder@ == current_server@
                    && self.storage.locks().remove(app_id) == old(self).storage.locks().remove(
                    app_id,
                ))),
                clock.samples() == old(clock).samples(),
                transport.backoffs() == old(transport).backoffs() + Seq::new(
                    attempt as nat,
                    |q: int| ELECTION_BACKOFF_MILLIS,
                ),
                (attempt == 0 ==> transport.pings() == old(transport).pings() && cache@
                    == Seq::<String>::empty() && self.storage.locks() == old(self).storage.locks()),
                (attempt > 0 ==> old(self).storage.ownerships().contains_key(app_id)
                    && transport.pings().len() == old(transport).pings().len() + 1
                    && transport.pings()[old(transport).pings().len() as int].0 == old(self).storage.ownerships()[app_id].current_server@ && !spec_reply_active(
                    transport.pings()[old(transport).pings().len() as int].1,
                ) && spec_string_set(cache@).contains(
                    old(self).storage.ownerships()[app_id].current_server@,
                )),
            decreases RETRY_TIMES - attempt,
        {
            let rec = match self.storage.fetch_ownership(app_id) {
                Err(e) => {
                    return Err(WorkerError::WorkerStorageError { source: e });
                },
                Ok(None) => {
                    proof {
                        assert(transport.backoffs() =~= old(transport).backoffs());
                    }
                    return Err(
                        WorkerError::WorkerNotRegistered {
                            app_name_or_id: u64_to_string(app_id),
                        },
                    );
                },
                Ok(Some(rec)) => rec,
            };
            if self.is_active(transport, rec.current_server.as_str(), &mut cache) {
                proof {
                    assert(transport.backoffs() =~= old(transport).backoffs());
                }
                return Ok(rec.current_server);
            }
            // the recorded server is dead: contend for the right to usurp
            let lock_rec = ElectionLock::new(
                app_id,
                ELECTION_LOCK_TTL_MILLIS,
                current_server.to_owned(),
            );
            if !self.lock(lock_rec) {
                transport.backoff(ELECTION_BACKOFF_MILLIS);
                proof {
                    assert(transport.backoffs() =~= old(transport).backoffs() + Seq::new(
                        (attempt + 1) as nat,
                        |q: int| ELECTION_BACKOFF_MILLIS,
                    ));
                }
                attempt = attempt + 1;
                continue;
            }
            proof {
                assert(self.storage.locks().remove(app_id) =~= old(self).storage.locks().remove(app_id));
            }
            // another node may have completed the election meanwhile
            let rec2 = match self.storage.fetch_ownership(app_id) {
                Err(e) => {
                    return Err(WorkerError::WorkerStorageError { source: e });
                },
                // the record cannot have vanished: it was fetched above and
                // this core never deletes one
                Ok(None) => vstd::pervasive::unreached(),
                Ok(Some(rec2)) => rec2,
            };
            if self.is_active(transport, rec2.current_server.as_str(), &mut cache) {
                return Ok(rec2.current_server);
            }
            // usurpation: the calling server becomes the owner
            let now: i64 = clock.now_millis();
            let usurped = AppOwnership {
                app_id,
                app_name: rec2.app_name,
                current_server: current_server.to_owned(),
                last_modified: now,
            };
            match self.storage.save_ownership(usurped) {
                Err(e) => {
                    return Err(WorkerError::WorkerStorageError { source: e });
                },
                Ok(_) => {
                    proof {
                        assert(self.storage.ownerships().remove(app_id) =~= old(self).storage.ownerships().remove(app_id));
                    }
                    return Ok(current_server.to_owned());
                },
            }
        }
        proof {
            assert(transport.backoffs() =~= old(transport).backoffs() + seq![
                ELECTION_BACKOFF_MILLIS,
                ELECTION_BACKOFF_MILLIS,
                ELECTION_BACKOFF_MILLIS,
            ]);
        }
        Err(WorkerError::LookupFail { server_ip: self.address.clone() })
    }

    /// Evicts every registry entry whose key is not among `active`: the
    /// registry afterwards holds exactly those of its entries keyed in
    /// `active` — no more, no fewer — with their handles untouched.
    pub fn clean_useless_worker(&mut self, active: &Vec<String>)
        ensures
            registry_view(final(self).workers) == registry_view(old(self).workers).restrict(
                spec_string_set(active@),
            ),
            final(self).storage == old(self).storage,
            final(self).id == old(self).id,
            final(self).address == old(self).address,
            final(self).status == old(self).status,
    {
        registry_retain_active(&mut self.workers, active);
    }

    /// One scheduling tick: query the apps this node owns; with none, report
    /// `NoJobs` without invoking any dispatcher; otherwise prune the
    /// registry to the owned set and run the three dispatch phases strictly
    /// in order — cron, workflow, frequent — each handed the owned ids,
    /// aborting the tick's remaining phases on the first failure. Costs are
    /// measured per phase from the clock's samples, and a tick longer than
    /// its fixed period is marked as overrun (observability only, not
    /// backpressure). A failed tick leaves no state behind: the next one
    /// proceeds independently.
    fn sched<D: Dispatcher, C: Clock>(&mut self, scheduler: &mut D, clock: &mut C) -> (r: Result<
        TickOutcome,
        WorkerError,
    >)
        ensures
            final(self).id == old(self).id,
            final(self).address == old(self).address,
            final(self).status == old(self).status,
            final(self).storage.ownerships() == old(self).storage.ownerships(),
            final(self).storage.locks() == old(self).storage.locks(),
            final(scheduler).shutdown_calls() == old(scheduler).shutdown_calls(),
            // a tick that found no owned app dispatches nothing and prunes
            // nothing
            (r matches Ok(TickOutcome::NoJobs) ==> (spec_no_owned(
                old(self).storage.ownerships(),
                old(self).address@,
            ) && final(scheduler).cron_log() == old(scheduler).cron_log() && final(scheduler).workflow_log() == old(scheduler).workflow_log() && final(scheduler).frequent_log()
                == old(scheduler).frequent_log() && final(self).workers == old(self).workers)),
            (spec_no_owned(old(self).storage.ownerships(), old(self).address@) ==> (r matches Ok(
                TickOutcome::NoJobs,
            ) || r matches Err(WorkerError::WorkerStorageError { .. }))),
            // a store failure is surfaced, cause wrapped, at the one failed
            // operation, before anything is dispatched
            (r matches Err(WorkerError::WorkerStorageError { .. }) ==> (final(self).storage.failures() == old(self).storage.failures() + 1 && final(scheduler).cron_log()
                == old(scheduler).cron_log() && final(scheduler).workflow_log() == old(scheduler).workflow_log() && final(scheduler).frequent_log() == old(scheduler).frequent_log()
                && final(self).workers == old(self).workers)),
            (!(r matches Err(WorkerError::WorkerStorageError { .. })) ==> final(self).storage.failures() == old(self).storage.failures()),
            // the cron phase, when invoked, is handed exactly the ids of
            // the apps this node owns
            (final(scheduler).cron_log() != old(scheduler).cron_log() ==> (final(scheduler).cron_log().len() == old(scheduler).cron_log().len() + 1 && spec_id_set(
                final(scheduler).cron_log().last().0,
            ) == spec_owned_ids(old(self).storage.ownerships(), old(self).address@)
                && !spec_no_owned(old(self).storage.ownerships(), old(self).address@))),
            // a later phase runs only after its predecessor succeeded, and
            // with the very same id list
            (final(scheduler).workflow_log() != old(scheduler).workflow_log() ==> (final(scheduler).workflow_log().len() == old(scheduler).workflow_log().len() + 1 && final(scheduler).cron_log().len() == old(scheduler).cron_log().len() + 1 && final(scheduler).cron_log().last().1 && final(scheduler).workflow_log().last().0 == final(scheduler).cron_log().last().0)),
            (final(scheduler).frequent_log() != old(scheduler).frequent_log() ==> (final(scheduler).frequent_log().len() == old(scheduler).frequent_log().len() + 1 && final(scheduler).workflow_log().len() == old(scheduler).workflow_log().len() + 1 && final(scheduler).workflow_log().last().1 && final(scheduler).frequent_log().last().0 == final(scheduler).cron_log().last().0)),
            // a phase failure aborts the tick: the cron phase ran, and the
            // last phase invoked is the one that failed
            (r matches Err(WorkerError::SchedulerFailed { .. }) ==> (final(scheduler).cron_log().len()
                == old(scheduler).cron_log().len() + 1 && !spec_no_owned(
                old(self).storage.ownerships(),
                old(self).address@,
            ) && (!final(scheduler).cron_log().last().1 || (final(scheduler).workflow_log().len()
                == old(scheduler).workflow_log().len() + 1 && !final(scheduler).workflow_log().last().1) || (final(scheduler).frequent_log().len() == old(scheduler).frequent_log().len() + 1 && !final(scheduler).frequent_log().last().1)))),
            // a completed tick ran all three phases successfully
            (r matches Ok(TickOutcome::Completed { .. }) ==> (final(scheduler).cron_log().len()
                == old(scheduler).cron_log().len() + 1 && final(scheduler).cron_log().last().1
                && final(scheduler).workflow_log().len() == old(scheduler).workflow_log().len() + 1
                && final(scheduler).workflow_log().last().1 && final(scheduler).frequent_log().len()
                == old(scheduler).frequent_log().len() + 1 && final(scheduler).frequent_log().last().1 && !spec_no_owned(
                old(self).storage.ownerships(),
                old(self).address@,
            ))),
            // a completed tick's costs are intervals of the clock's own
            // four samples, and the overrun flag is their fixed comparison
            (r matches Ok(TickOutcome::Completed {
                cron_cost_ms,
                workflow_cost_ms,
                frequent_cost_ms,
                total_cost_ms,
                overrun,
            }) ==> (final(clock).samples().len() == old(clock).samples().len() + 4 && cron_cost_ms
                == spec_clamp_elapsed(
                final(clock).samples()[old(clock).samples().len() as int],
                final(clock).samples()[old(clock).samples().len() as int + 1],
            ) && workflow_cost_ms == spec_clamp_elapsed(
                final(clock).samples()[old(clock).samples().len() as int + 1],
                final(clock).samples()[old(clock).samples().len() as int + 2],
            ) && frequent_cost_ms == spec_clamp_elapsed(
                final(clock).samples()[old(clock).samples().len() as int + 2],
                final(clock).samples()[old(clock).samples().len() as int + 3],
            ) && total_cost_ms == spec_clamp_elapsed(
                final(clock).samples()[old(clock).samples().len() as int],
                final(clock).samples()[old(clock).samples().len() as int + 3],
            ) && overrun == (total_cost_ms > WORKER_MANAGER_FETCH_FIXED_MILLIS))),
            (r matches Err(e) ==> (e matches WorkerError::WorkerStorageError { .. } || e matches
                WorkerError::SchedulerFailed { .. })),
            // once apps were found, the registry was pruned to exactly the
            // owned set's decimal names, handles untouched
            ((r matches Ok(TickOutcome::Completed { .. }) || r matches Err(
                WorkerError::SchedulerFailed { .. },
            )) ==> registry_view(final(self).workers) == registry_view(old(self).workers).restrict(
                spec_owned_id_names(old(self).storage.ownerships(), old(self).address@),
            )),
    {
        let ghost samples0 = clock.samples();
        let t0: i64 = clock.now_millis();
        let ghost m0 = self.storage.ownerships();
        let ghost addr0 = self.address@;
        let recs = match self.storage.find_owned(self.address.as_str()) {
            Err(e) => {
                return Err(WorkerError::WorkerStorageError { source: e });
            },
            Ok(None) => {
                return Ok(TickOutcome::NoJobs);
            },
            Ok(Some(v)) => v,
        };
        if recs.len() == 0 {
            proof {
                assert forall|id: u64| #[trigger] m0.contains_key(id) implies m0[id].current_server@
                    != addr0 by {
                    if m0[id].current_server@ == addr0 {
                        let i = choose|i: int| 0 <= i < recs@.len() && recs@[i].app_id == id;
                        assert(false);
                    }
                }
            }
            return Ok(TickOutcome::NoJobs);
        }
        proof {
            assert(recs@[0].current_server@ == addr0);
            assert(m0.contains_key(recs@[0].app_id));
            assert(!spec_no_owned(m0, addr0));
        }
        let mut ids: Vec<u64> = Vec::new();
        let mut id_names: Vec<String> = Vec::new();
        let mut i: usize = 0;
        while i < recs.len()
            invariant
                i <= recs.len(),
                ids@.len() == i as int,
                id_names@.len() == i as int,
                forall|j: int| 0 <= j < i ==> ids@[j] == recs@[j].app_id,
                forall|j: int|
                    0 <= j < i ==> id_names@[j]@ == spec_u64_digits(recs@[j].app_id as nat),
            decreases recs.len() - i,
        {
            let id = recs[i].app_id;
            ids.push(id);
            id_names.push(u64_to_string(id));
            i = i + 1;
        }
        proof {
            assert forall|s: Seq<char>| spec_string_set(id_names@).contains(s) implies
                spec_owned_id_names(m0, addr0).contains(s) by {
                let j = choose|j: int| 0 <= j < id_names@.len() && id_names@[j]@ == s;
                assert(recs@[j].current_server@ == addr0);
                assert(m0.contains_key(recs@[j].app_id));
                assert(s == spec_u64_digits(recs@[j].app_id as nat));
            }
            assert forall|s: Seq<char>| spec_owned_id_names(m0, addr0).contains(s) implies
                spec_string_set(id_names@).contains(s) by {
                let id = choose|id: u64|
                    m0.contains_key(id) && m0[id].current_server@ == addr0 && s == spec_u64_digits(
                        id as nat,
                    );
                let k = choose|k: int| 0 <= k < recs@.len() && recs@[k].app_id == id;
                assert(id_names@[k]@ == s);
            }
            assert(spec_string_set(id_names@) =~= spec_owned_id_names(m0, addr0));
            assert forall|x: u64| spec_id_set(ids@).contains(x) implies spec_owned_ids(
                m0,
                addr0,
            ).contains(x) by {
                let j = choose|j: int| 0 <= j < ids@.len() && ids@[j] == x;
                assert(recs@[j].current_server@ == addr0);
                assert(m0.contains_key(recs@[j].app_id));
            }
            assert forall|x: u64| spec_owned_ids(m0, addr0).contains(x) implies spec_id_set(
                ids@,
            ).contains(x) by {
                assert(m0.contains_key(x) && m0[x].current_server@ == addr0);
                let k = choose|k: int| 0 <= k < recs@.len() && recs@[k].app_id == x;
                assert(ids@[k] == x);
            }
            assert(spec_id_set(ids@) =~= spec_owned_ids(m0, addr0));
        }
        self.clean_useless_worker(&id_names);
        match scheduler.schedule_cron_job(&ids) {
            Err(e) => {
                return Err(WorkerError::SchedulerFailed { source: e });
            },
            Ok(_) => {},
        }
        let t1: i64 = clock.now_millis();
        let cron_cost: u64 = clamp_elapsed(t0, t1);
        match scheduler.schedule_worker_flow(&ids) {
            Err(e) => {
                return Err(WorkerError::SchedulerFailed { source: e });
            },
            Ok(_) => {},
        }
        let t2: i64 = clock.now_millis();
        let workflow_cost: u64 = clamp_elapsed(t1, t2);
        match scheduler.schedule_frequent_job(&ids) {
            Err(e) => {
                return Err(WorkerError::SchedulerFailed { source: e });
            },
            Ok(_) => {},
        }
        let t3: i64 = clock.now_millis();
        let frequent_cost: u64 = clamp_elapsed(t2, t3);
        let total_cost: u64 = clamp_elapsed(t0, t3);
        let overrun: bool = total_cost > WORKER_MANAGER_FETCH_FIXED_MILLIS;
        proof {
            assert(clock.samples() =~= samples0.push(t0).push(t1).push(t2).push(t3));
            assert(clock.samples()[samples0.len() as int] == t0);
            assert(clock.samples()[samples0.len() as int + 1] == t1);
            assert(clock.samples()[samples0.len() as int + 2] == t2);
            assert(clock.samples()[samples0.len() as int + 3] == t3);
        }
        Ok(
            TickOutcome::Completed {
                cron_cost_ms: cron_cost,
                workflow_cost_ms: workflow_cost,
                frequent_cost_ms: frequent_cost,
                total_cost_ms: total_cost,
                overrun,
            },
        )
    }

    /// Synchronously runs one tick outside the timer and returns its result,
    /// where a timer-driven tick's result is only reported.
    pub fn manual_sched<D: Dispatcher, C: Clock>(
        &mut self,
        scheduler: &mut D,
        clock: &mut C,
    ) -> (r: Result<TickOutcome, WorkerError>)
        ensures
            final(self).id == old(self).id,
            final(self).address == old(self).address,
            final(self).status == old(self).status,
            final(self).storage.ownerships() == old(self).storage.ownerships(),
            final(self).storage.locks() == old(self).storage.locks(),
            final(scheduler).shutdown_calls() == old(scheduler).shutdown_calls(),
            // a tick that found no owned app dispatches nothing and prunes
            // nothing
            (r matches Ok(TickOutcome::NoJobs) ==> (spec_no_owned(
                old(self).storage.ownerships(),
                old(self).address@,
            ) && final(scheduler).cron_log() == old(scheduler).cron_log() && final(scheduler).workflow_log() == old(scheduler).workflow_log() && final(scheduler).frequent_log()
                == old(scheduler).frequent_log() && final(self).workers == old(self).workers)),
            (spec_no_owned(old(self).storage.ownerships(), old(self).address@) ==> (r matches Ok(
                TickOutcome::NoJobs,
            ) || r matches Err(WorkerError::WorkerStorageError { .. }))),
            // a store failure is surfaced, cause wrapped, at the one failed
            // operation, before anything is dispatched
            (r matches Err(WorkerError::WorkerStorageError { .. }) ==> (final(self).storage.failures() == old(self).storage.failures() + 1 && final(scheduler).cron_log()
                == old(scheduler).cron_log() && final(scheduler).workflow_log() == old(scheduler).workflow_log() && final(scheduler).frequent_log() == old(scheduler).frequent_log()
                && final(self).workers == old(self).workers)),
            (!(r matches Err(WorkerError::WorkerStorageError { .. })) ==> final(self).storage.failures() == old(self).storage.failures()),
            // the cron phase, when invoked, is handed exactly the ids of
            // the apps this node owns
            (final(scheduler).cron_log() != old(scheduler).cron_log() ==> (final(scheduler).cron_log().len() == old(scheduler).cron_log().len() + 1 && spec_id_set(
                final(scheduler).cron_log().last().0,
            ) == spec_owned_ids(old(self).storage.ownerships(), old(self).address@)
                && !spec_no_owned(old(self).storage.ownerships(), old(self).address@))),
            // a later phase runs only after its predecessor succeeded, and
            // with the very same id list
            (final(scheduler).workflow_log() != old(scheduler).workflow_log() ==> (final(scheduler).workflow_log().len() == old(scheduler).workflow_log().len() + 1 && final(scheduler).cron_log().len() == old(scheduler).cron_log().len() + 1 && final(scheduler).cron_log().last().1 && final(scheduler).workflow_log().last().0 == final(scheduler).cron_log().last().0)),
            (final(scheduler).frequent_log() != old(scheduler).frequent_log() ==> (final(scheduler).frequent_log().len() == old(scheduler).frequent_log().len() + 1 && final(scheduler).workflow_log().len() == old(scheduler).workflow_log().len() + 1 && final(scheduler).workflow_log().last().1 && final(scheduler).frequent_log().last().0 == final(scheduler).cron_log().last().0)),
            // a phase failure aborts the tick: the cron phase ran, and the
            // last phase invoked is the one that failed
            (r matches Err(WorkerError::SchedulerFailed { .. }) ==> (final(scheduler).cron_log().len()
                == old(scheduler).cron_log().len() + 1 && !spec_no_owned(
                old(self).storage.ownerships(),
                old(self).address@,
            ) && (!final(scheduler).cron_log().last().1 || (final(scheduler).workflow_log().len()
                == old(scheduler).workflow_log().len() + 1 && !final(scheduler).workflow_log().last().1) || (final(scheduler).frequent_log().len() == old(scheduler).frequent_log().len() + 1 && !final(scheduler).frequent_log().last().1)))),
            // a completed tick ran all three phases successfully
            (r matches Ok(TickOutcome::Completed { .. }) ==> (final(scheduler).cron_log().len()
                == old(scheduler).cron_log().len() + 1 && final(scheduler).cron_log().last().1
                && final(scheduler).workflow_log().len() == old(scheduler).workflow_log().len() + 1
                && final(scheduler).workflow_log().last().1 && final(scheduler).frequent_log().len()
                == old(scheduler).frequent_log().len() + 1 && final(scheduler).frequent_log().last().1 && !spec_no_owned(
                old(self).storage.ownerships(),
                old(self).address@,
            ))),
            // a completed tick's costs are intervals of the clock's own
            // four samples, and the overrun flag is their fixed comparison
            (r matches Ok(TickOutcome::Completed {
                cron_cost_ms,
                workflow_cost_ms,
                frequent_cost_ms,
                total_cost_ms,
                overrun,
            }) ==> (final(clock).samples().len() == old(clock).samples().len() + 4 && cron_cost_ms
                == spec_clamp_elapsed(
                final(clock).samples()[old(clock).samples().len() as int],
                final(clock).samples()[old(clock).samples().len() as int + 1],
            ) && workflow_cost_ms == spec_clamp_elapsed(
                final(clock).samples()[old(clock).samples().len() as int + 1],
                final(clock).samples()[old(clock).samples().len() as int + 2],
            ) && frequent_cost_ms == spec_clamp_elapsed(
                final(clock).samples()[old(clock).samples().len() as int + 2],
                final(clock).samples()[old(clock).samples().len() as int + 3],
            ) && total_cost_ms == spec_clamp_elapsed(
                final(clock).samples()[old(clock).samples().len() as int],
                final(clock).samples()[old(clock).samples().len() as int + 3],
            ) && overrun == (total_cost_ms > WORKER_MANAGER_FETCH_FIXED_MILLIS))),
            (r matches Err(e) ==> (e matches WorkerError::WorkerStorageError { .. } || e matches
                WorkerError::SchedulerFailed { .. })),
            // once apps were found, the registry was pruned to exactly the
            // owned set's decimal names, handles untouched
            ((r matches Ok(TickOutcome::Completed { .. }) || r matches Err(
                WorkerError::SchedulerFailed { .. },
            )) ==> registry_view(final(self).workers) == registry_view(old(self).workers).restrict(
                spec_owned_id_names(old(self).storage.ownerships(), old(self).address@),
            )),
    {
        self.sched(scheduler, clock)
    }
}

} // verus!
