//! The abstract collaborators the manager is built against.
//!
//! The persistence backend, the dispatch sub-systems, the wire transport and
//! the clock are consumed through these traits. Each trait carries, besides
//! its executable methods, a ghost observation surface — the store's table
//! views and failure counts, the transport's ping and backoff logs, the
//! dispatcher's invocation log, the clock's sample log — so that a caller's
//! contract can tie what it returns to what it observed and to what it
//! handed on.

use vstd::prelude::*;

use crate::error::{DispatchFailure, StorageFailure};
use crate::model::{AppOwnership, ElectionLock};

verus! {

/// Whether some record in `m` carries the app name `name`.
pub open spec fn spec_name_registered(m: Map<u64, AppOwnership>, name: Seq<char>) -> bool {
    exists|id: u64| #[trigger] m.contains_key(id) && m[id].app_name@ == name
}

/// Whether no record in `m` names `address` as its current server.
pub open spec fn spec_no_owned(m: Map<u64, AppOwnership>, address: Seq<char>) -> bool {
    forall|id: u64| #[trigger] m.contains_key(id) ==> m[id].current_server@ != address
}

/// Whether `v` covers every app that `m` records as owned by `address`.
pub open spec fn spec_covers_owned(
    m: Map<u64, AppOwnership>,
    address: Seq<char>,
    v: Seq<AppOwnership>,
) -> bool {
    forall|id: u64|
        (#[trigger] m.contains_key(id)) && m[id].current_server@ == address ==> exists|i: int|
            0 <= i < v.len() && v[i].app_id == id
}

/// Whether a ping reply marks the probed server active: a completed
/// transport round trip whose status code is 200. Any other code, and any
/// transport failure, marks it inactive.
pub open spec fn spec_reply_active(reply: Option<u64>) -> bool {
    reply matches Some(code) && code == 200
}

/// The reply-to-health table of the ping probe, verified against
/// `spec_reply_active`.
pub fn reply_active(reply: Option<u64>) -> (r: bool)
    ensures
        r == spec_reply_active(reply),
{
    match reply {
        Some(code) => code == 200,
        None => false,
    }
}

/// The persistence backend: fetch, save and find-by-owner over the
/// AppOwnership table, plus creation of advisory election locks.
///
/// Every read or write may also fail with a `StorageFailure`; the contracts
/// say what each outcome means for the store's view. `reads()` counts the
/// read operations served, `failures()` the operations answered with a
/// failure, and `lock_refusals()` the lock creations turned down, so that a
/// caller can promise it read nothing, or that it reported a failure only
/// when one happened.
pub trait Store: Sized {
    /// The AppOwnership table, keyed by app id.
    open spec fn ownerships(&self) -> Map<u64, AppOwnership> {
        Map::empty()
    }

    /// The advisory election locks, keyed by the contested app id.
    open spec fn locks(&self) -> Map<u64, ElectionLock> {
        Map::empty()
    }

    /// How many read operations this store has served.
    open spec fn reads(&self) -> nat {
        0
    }

    /// How many operations this store has answered with a failure.
    open spec fn failures(&self) -> nat {
        0
    }

    /// How many lock creations this store has refused.
    open spec fn lock_refusals(&self) -> nat {
        0
    }

    /// Fetches the ownership record keyed by `app_id`, if any.
    fn fetch_ownership(&mut self, app_id: u64) -> (r: Result<Option<AppOwnership>, StorageFailure>)
        ensures
            final(self).ownerships() == old(self).ownerships(),
            final(self).locks() == old(self).locks(),
            final(self).reads() == old(self).reads() + 1,
            final(self).lock_refusals() == old(self).lock_refusals(),
            (r matches Ok(_) ==> final(self).failures() == old(self).failures()),
            (r matches Err(_) ==> final(self).failures() == old(self).failures() + 1),
            (r matches Ok(Some(rec)) ==> old(self).ownerships().contains_key(app_id)
                && rec == old(self).ownerships()[app_id]),
            (r matches Ok(None) ==> !old(self).ownerships().contains_key(app_id)),
    ;

    /// Whether any record carries the app name `app_name`.
    fn app_name_registered(&mut self, app_name: &str) -> (r: Result<bool, StorageFailure>)
        ensures
            final(self).ownerships() == old(self).ownerships(),
            final(self).locks() == old(self).locks(),
            final(self).reads() == old(self).reads() + 1,
            final(self).lock_refusals() == old(self).lock_refusals(),
            (r matches Ok(_) ==> final(self).failures() == old(self).failures()),
            (r matches Err(_) ==> final(self).failures() == old(self).failures() + 1),
            (r matches Ok(b) ==> b == spec_name_registered(old(self).ownerships(), app_name@)),
    ;

    /// Persists `rec`, keyed by its app id.
    fn save_ownership(&mut self, rec: AppOwnership) -> (r: Result<(), StorageFailure>)
        ensures
            final(self).locks() == old(self).locks(),
            final(self).reads() == old(self).reads(),
            final(self).lock_refusals() == old(self).lock_refusals(),
            (r matches Ok(_) ==> final(self).failures() == old(self).failures()),
            (r matches Err(_) ==> final(self).failures() == old(self).failures() + 1),
            (r matches Ok(_) ==> final(self).ownerships()
                == old(self).ownerships().insert(rec.app_id, rec)),
            (r matches Err(_) ==> final(self).ownerships() == old(self).ownerships()),
    ;

    /// Tries to create the advisory election lock `lock`. Success is not
    /// owed: another node may hold the resource, or the write may fail.
    fn try_lock(&mut self, lock: ElectionLock) -> (r: bool)
        ensures
            final(self).ownerships() == old(self).ownerships(),
            final(self).reads() == old(self).reads(),
            final(self).failures() == old(self).failures(),
            (r ==> final(self).locks() == old(self).locks().insert(lock.resource_id, lock)
                && final(self).lock_refusals() == old(self).lock_refusals()),
            (!r ==> final(self).locks() == old(self).locks() && final(self).lock_refusals()
                == old(self).lock_refusals() + 1),
    ;

    /// Finds every ownership record whose current server is `address`.
    fn find_owned(&mut self, address: &str) -> (r: Result<
        Option<Vec<AppOwnership>>,
        StorageFailure,
    >)
        ensures
            final(self).ownerships() == old(self).ownerships(),
            final(self).locks() == old(self).locks(),
            final(self).reads() == old(self).reads() + 1,
            final(self).lock_refusals() == old(self).lock_refusals(),
            (r matches Ok(_) ==> final(self).failures() == old(self).failures()),
            (r matches Err(_) ==> final(self).failures() == old(self).failures() + 1),
            (r matches Ok(Some(v)) ==> (forall|i: int|
                0 <= i < v@.len() ==> (#[trigger] v@[i]).current_server@ == address@
                    && old(self).ownerships().contains_key(v@[i].app_id)
                    && v@[i] == old(self).ownerships()[v@[i].app_id])),
            (r matches Ok(Some(v)) ==> spec_covers_owned(old(self).ownerships(), address@, v@)),
            (r matches Ok(None) ==> spec_no_owned(old(self).ownerships(), address@)),
    ;
}

/// The three opaque dispatch sub-systems and their shutdown hook.
///
/// Each phase's ghost log records every invocation: the id list the phase
/// was handed, and whether it succeeded. A caller's contract can then say
/// which phases a tick ran, in what dependency order, and with what ids.
pub trait Dispatcher: Sized {
    open spec fn cron_log(&self) -> Seq<(Seq<u64>, bool)> {
        Seq::empty()
    }

    open spec fn workflow_log(&self) -> Seq<(Seq<u64>, bool)> {
        Seq::empty()
    }

    open spec fn frequent_log(&self) -> Seq<(Seq<u64>, bool)> {
        Seq::empty()
    }

    open spec fn shutdown_calls(&self) -> nat {
        0
    }

    /// Dispatches the cron-job phase for the given owned apps.
    fn schedule_cron_job(&mut self, ids: &Vec<u64>) -> (r: Result<(), DispatchFailure>)
        ensures
            final(self).cron_log() == old(self).cron_log().push((ids@, r is Ok)),
            final(self).workflow_log() == old(self).workflow_log(),
            final(self).frequent_log() == old(self).frequent_log(),
            final(self).shutdown_calls() == old(self).shutdown_calls(),
    ;

    /// Dispatches the workflow phase for the given owned apps.
    fn schedule_worker_flow(&mut self, ids: &Vec<u64>) -> (r: Result<(), DispatchFailure>)
        ensures
            final(self).cron_log() == old(self).cron_log(),
            final(self).workflow_log() == old(self).workflow_log().push((ids@, r is Ok)),
            final(self).frequent_log() == old(self).frequent_log(),
            final(self).shutdown_calls() == old(self).shutdown_calls(),
    ;

    /// Dispatches the frequent-job phase for the given owned apps.
    fn schedule_frequent_job(&mut self, ids: &Vec<u64>) -> (r: Result<(), DispatchFailure>)
        ensures
            final(self).cron_log() == old(self).cron_log(),
            final(self).workflow_log() == old(self).workflow_log(),
            final(self).frequent_log() == old(self).frequent_log().push((ids@, r is Ok)),
            final(self).shutdown_calls() == old(self).shutdown_calls(),
    ;

    /// Stops the dispatch sub-systems.
    fn shutdown(&mut self)
        ensures
            final(self).cron_log() == old(self).cron_log(),
            final(self).workflow_log() == old(self).workflow_log(),
            final(self).frequent_log() == old(self).frequent_log(),
            final(self).shutdown_calls() == old(self).shutdown_calls() + 1,
    ;
}

/// The wire transport: a ping-style health check, and the backoff pause the
/// election loop takes between contested retries. Nothing is promised of a
/// ping's outcome — the network decides — but every probe is logged with
/// the address it went to and the reply it observed, and every backoff with
/// its requested duration.
pub trait Transport: Sized {
    /// The log of pings sent: each probed address with its observed reply.
    open spec fn pings(&self) -> Seq<(Seq<char>, Option<u64>)> {
        Seq::empty()
    }

    /// The log of backoff pauses taken, by requested duration.
    open spec fn backoffs(&self) -> Seq<u64> {
        Seq::empty()
    }

    /// Pings `address`; `Some(code)` is the peer's status code, `None` a
    /// transport failure.
    fn ping(&mut self, address: &str) -> (r: Option<u64>)
        ensures
            final(self).pings() == old(self).pings().push((address@, r)),
            final(self).backoffs() == old(self).backoffs(),
    ;

    /// Pauses the calling worker for `millis` between contested election
    /// retries.
    fn backoff(&mut self, millis: u64)
        ensures
            final(self).pings() == old(self).pings(),
            final(self).backoffs() == old(self).backoffs().push(millis),
    ;
}

/// A source of wall-clock timestamps in milliseconds. Nothing is promised
/// of the values — time is the machine's — but every sample handed out is
/// logged, so a caller can tie what it stored or measured to what it saw.
pub trait Clock: Sized {
    /// The log of samples handed out.
    open spec fn samples(&self) -> Seq<i64> {
        Seq::empty()
    }

    fn now_millis(&mut self) -> (r: i64)
        ensures
            final(self).samples() == old(self).samples().push(r),
    ;
}

/// The process clock.
pub struct SystemClock {
    samples_taken: Ghost<Seq<i64>>,
}

impl SystemClock {
    pub fn new() -> (r: SystemClock)
        ensures
            r.samples() == Seq::<i64>::empty(),
    {
        SystemClock { samples_taken: Ghost(Seq::empty()) }
    }
}

impl Clock for SystemClock {
    closed spec fn samples(&self) -> Seq<i64> {
        self.samples_taken@
    }

    fn now_millis(&mut self) -> (r: i64) {
        let t = wall_clock_millis();
        self.samples_taken = Ghost(self.samples_taken@.push(t));
        t
    }
}

/// Relies on chrono's `Local::now` and `DateTime::timestamp_millis`: the
/// current wall-clock time as milliseconds since the epoch. Nothing is
/// promised of the value. chrono panics if the machine clock reads before
/// the Unix epoch — an environment condition no input can exclude.
#[verifier::external_body]
fn wall_clock_millis() -> i64 {
    chrono::Local::now().timestamp_millis()
}

} // verus!
