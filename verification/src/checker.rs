//! The probing side of the monitor: the reachability states, the status
//! table that remembers the last observed state of every service, the
//! mapping from a probe's outcome to a state, the decision whether a
//! completed probe is a transition, and the tick schedule of the per-service
//! timers.
//!
//! Everything here is the decision logic alone. Issuing the HTTP probe,
//! the timers and the actor loop that drains check events live outside the
//! library and hand their results in as plain values.

use crate::config::Service;
use crate::notifier::NotifierMsg;
use crate::registry::contains_key;
use crate::registry::find_index;
use crate::registry::lemma_contains_same_keys;
use crate::registry::lemma_lookup_constant;
use crate::registry::lemma_lookup_store_other;
use crate::registry::lemma_lookup_store_same;
use crate::registry::lemma_store_is_update;
use crate::registry::lemma_store_keeps_names;
use crate::registry::spec_lookup;
use crate::registry::spec_store;
use vstd::prelude::*;

verus! {

/// The last known reachability of a service. Equality is the only operation
/// the monitor needs on it.
#[derive(Clone, Copy, PartialEq, Eq, Structural, Debug)]
pub enum Status {
    Up,
    Down,
}

/// The state a probe outcome maps to: an OK response is `Up`, every other
/// response and every transport failure is `Down`.
pub open spec fn spec_outcome_status(outcome: Option<u16>) -> Status {
    if outcome == Some(200u16) {
        Status::Up
    } else {
        Status::Down
    }
}

/// Maps the outcome of one probe to a reachability state: `Some(code)` is a
/// response with that HTTP status, `None` a transport failure. Only a 200
/// counts as `Up`; the mapping is deliberately coarse.
pub fn outcome_status(outcome: Option<u16>) -> (s: Status)
    ensures
        s == spec_outcome_status(outcome),
{
    match outcome {
        Some(code) if code == 200 => Status::Up,
        _ => Status::Down,
    }
}

/// Whether the timer with period `interval` fires at second `t`. The first
/// tick is at zero: every service is checked as soon as monitoring starts.
pub open spec fn spec_tick_due(interval: int, t: int) -> bool {
    t % interval == 0
}

/// Whether a service with the given check interval is due at second `t`.
pub fn tick_due(interval: u64, t: u64) -> (r: bool)
    requires
        1 <= interval,
    ensures
        r == spec_tick_due(interval as int, t as int),
{
    t % interval == 0
}

/// Each service's timer runs on its own period, untouched by the others: a
/// timer with period `interval` fires exactly at the multiples of that
/// period, starting at zero, and at no moment in between.
pub proof fn lemma_tick_schedule(interval: int, k: int)
    requires
        1 <= interval,
        0 <= k,
    ensures
        spec_tick_due(interval, k * interval),
        forall|t: int| k * interval < t < (k + 1) * interval ==> !spec_tick_due(interval, t),
{
    vstd::arithmetic::div_mod::lemma_mod_multiples_basic(k, interval);
    assert forall|t: int| k * interval < t < (k + 1) * interval implies !spec_tick_due(
        interval,
        t,
    ) by {
        if t % interval == 0 {
            vstd::arithmetic::div_mod::lemma_fundamental_div_mod(t, interval);
            let q = t / interval;
            assert(k < q < k + 1) by (nonlinear_arith)
                requires
                    1 <= interval,
                    t == interval * q,
                    k * interval < t < (k + 1) * interval,
            ;
        }
    }
}

/// The number of seconds in `0 ..= t` at which the timer with period
/// `interval` fires.
pub open spec fn spec_due_count(interval: int, t: int) -> int
    decreases t + 1,
{
    if t < 0 {
        0
    } else {
        spec_due_count(interval, t - 1) + if spec_tick_due(interval, t) {
            1int
        } else {
            0int
        }
    }
}

/// A service with check interval `interval` is probed once every full
/// period, starting right away: by second `t` its timer has fired exactly
/// `t / interval + 1` times.
pub proof fn lemma_due_count(interval: int, t: int)
    requires
        1 <= interval,
        0 <= t,
    ensures
        spec_due_count(interval, t) == t / interval + 1,
    decreases t,
{
    vstd::arithmetic::div_mod::lemma_fundamental_div_mod(t, interval);
    vstd::arithmetic::div_mod::lemma_mod_bound(t, interval);
    let q = t / interval;
    let r = t % interval;
    if t == 0 {
        assert(spec_due_count(interval, -1) == 0);
        vstd::arithmetic::div_mod::lemma_fundamental_div_mod_converse_div(0, interval, 0, 0);
        vstd::arithmetic::div_mod::lemma_fundamental_div_mod_converse_mod(0, interval, 0, 0);
    } else {
        lemma_due_count(interval, t - 1);
        if r == 0 {
            assert(t - 1 == (q - 1) * interval + (interval - 1)) by (nonlinear_arith)
                requires
                    t == interval * q + r,
                    r == 0,
            ;
            vstd::arithmetic::div_mod::lemma_fundamental_div_mod_converse_div(
                t - 1,
                interval,
                q - 1,
                interval - 1,
            );
        } else {
            assert(t - 1 == q * interval + (r - 1)) by (nonlinear_arith)
                requires
                    t == interval * q + r,
            ;
            vstd::arithmetic::div_mod::lemma_fundamental_div_mod_converse_div(
                t - 1,
                interval,
                q,
                r - 1,
            );
        }
    }
}

/// The status table: the last known state of every registered service, one
/// entry per service, keyed by the service's name.
pub struct StatusTable {
    pub entries: Vec<(String, Status)>,
}

/// What one completed probe does to the status table: if the observed state
/// differs from the stored one, the entry is replaced and the new state is
/// handed out for notification; if it is the same, nothing changes and
/// nothing is handed out.
pub open spec fn spec_check(table: Seq<(String, Status)>, name: Seq<char>, observed: Status) -> (
    Seq<(String, Status)>,
    Option<Status>,
) {
    match spec_lookup(table, name) {
        Some(current) => if observed == current {
            (table, None)
        } else {
            (spec_store(table, name, observed), Some(observed))
        },
        None => (table, None),
    }
}

/// A notification is produced if and only if the newly observed state
/// differs from the immediately preceding stored state, and it carries
/// exactly the observed state.
pub proof fn lemma_event_iff_change(table: Seq<(String, Status)>, name: Seq<char>, observed: Status)
    requires
        contains_key(table, name),
    ensures
        spec_check(table, name, observed).1 is Some <==> Some(observed) != spec_lookup(table, name),
        spec_check(table, name, observed).1 is Some ==> spec_check(table, name, observed).1
            == Some(observed),
{
}

/// A probe that observes the stored state leaves the table exactly as it
/// was and produces no notification; since the table is unchanged, any run
/// of probes with the same outcome is in the same position, so no
/// notification is produced however many such probes complete.
pub proof fn lemma_no_change_no_event(table: Seq<(String, Status)>, name: Seq<char>, s: Status)
    requires
        spec_lookup(table, name) == Some(s),
    ensures
        spec_check(table, name, s) == (table, None::<Status>),
{
}

/// The table and the number of notifications after a whole run of probes
/// for one service completes in order, each applied as `spec_check` does.
pub open spec fn spec_run(
    table: Seq<(String, Status)>,
    name: Seq<char>,
    observations: Seq<Status>,
) -> (Seq<(String, Status)>, int)
    decreases observations.len(),
{
    if observations.len() == 0 {
        (table, 0)
    } else {
        let first = spec_check(table, name, observations[0]);
        let rest = spec_run(first.0, name, observations.drop_first());
        (rest.0, (if first.1 is Some { 1int } else { 0int }) + rest.1)
    }
}

/// The number of state changes a run of observations goes through, starting
/// from `current`: one for each observation that differs from the state
/// standing immediately before it.
pub open spec fn spec_change_count(current: Status, observations: Seq<Status>) -> int
    decreases observations.len(),
{
    if observations.len() == 0 {
        0
    } else if observations[0] == current {
        spec_change_count(current, observations.drop_first())
    } else {
        1 + spec_change_count(observations[0], observations.drop_first())
    }
}

/// A service whose state does not change is never notified about: however
/// many probes run, as long as each observes the stored state, the table
/// stays exactly as it was and not one notification is produced.
pub proof fn lemma_steady_state_never_notifies(
    table: Seq<(String, Status)>,
    name: Seq<char>,
    s: Status,
    observations: Seq<Status>,
)
    requires
        spec_lookup(table, name) == Some(s),
        forall|i: int| 0 <= i < observations.len() ==> observations[i] == s,
    ensures
        spec_run(table, name, observations) == (table, 0int),
    decreases observations.len(),
{
    if observations.len() > 0 {
        lemma_no_change_no_event(table, name, s);
        lemma_steady_state_never_notifies(table, name, s, observations.drop_first());
    }
}

/// One notification per actual flip: a run of probes produces exactly as
/// many notifications as there are changes of state among its
/// observations, never one per probe.
pub proof fn lemma_one_event_per_flip(
    table: Seq<(String, Status)>,
    name: Seq<char>,
    observations: Seq<Status>,
)
    requires
        contains_key(table, name),
    ensures
        spec_run(table, name, observations).1 == spec_change_count(
            spec_lookup(table, name).unwrap(),
            observations,
        ),
    decreases observations.len(),
{
    if observations.len() > 0 {
        let current = spec_lookup(table, name).unwrap();
        let first = spec_check(table, name, observations[0]);
        if observations[0] == current {
            lemma_one_event_per_flip(table, name, observations.drop_first());
        } else {
            lemma_lookup_store_same(table, name, observations[0]);
            lemma_one_event_per_flip(first.0, name, observations.drop_first());
        }
    }
}

/// After a completed probe the table holds exactly the observed state for
/// that service, and every other service's entry is untouched.
pub proof fn lemma_check_stores_outcome(
    table: Seq<(String, Status)>,
    name: Seq<char>,
    observed: Status,
)
    requires
        contains_key(table, name),
    ensures
        spec_lookup(spec_check(table, name, observed).0, name) == Some(observed),
        forall|k: Seq<char>|
            k != name ==> spec_lookup(#[trigger] spec_check(table, name, observed).0, k)
                == spec_lookup(table, k),
{
    if Some(observed) != spec_lookup(table, name) {
        lemma_lookup_store_same(table, name, observed);
        assert forall|k: Seq<char>| k != name implies spec_lookup(
            #[trigger] spec_check(table, name, observed).0,
            k,
        ) == spec_lookup(table, k) by {
            lemma_lookup_store_other(table, name, observed, k);
        }
    }
}

impl StatusTable {
    /// The stored state of the service named `name`, or `None` when the
    /// table has no entry for it.
    pub open spec fn status_of(self, name: Seq<char>) -> Option<Status> {
        spec_lookup(self.entries@, name)
    }

    /// Whether the table has an entry for `name`.
    pub open spec fn contains(self, name: Seq<char>) -> bool {
        contains_key(self.entries@, name)
    }

    /// Reads the stored state of one service.
    pub fn get(&self, name: &String) -> (r: Option<Status>)
        ensures
            r == self.status_of(name@),
    {
        match find_index(&self.entries, name) {
            Some(i) => Some(self.entries[i].1),
            None => None,
        }
    }

    /// The read-modify-write at the heart of the monitor: compares `status`
    /// against the stored entry and replaces the entry only when they
    /// differ. Returns whether a transition occurred. The caller must hold
    /// this table exclusively for the whole call; the entry is read and
    /// written with no other access in between.
    pub fn set_status(&mut self, name: &String, status: Status) -> (changed: bool)
        requires
            old(self).contains(name@),
        ensures
            changed == (old(self).status_of(name@) != Some(status)),
            final(self).entries@ == spec_check(old(self).entries@, name@, status).0,
            final(self).status_of(name@) == Some(status),
            forall|k: Seq<char>|
                k != name@ ==> final(self).status_of(k) == old(self).status_of(k),
            final(self).entries@.len() == old(self).entries@.len(),
            forall|i: int|
                0 <= i < old(self).entries@.len() ==> #[trigger] final(self).entries@[i].0 == old(
                    self,
                ).entries@[i].0,
    {
        let i = match find_index(&self.entries, name) {
            Some(i) => i,
            None => unreached(),
        };
        let current = self.entries[i].1;
        if current == status {
            return false;
        }
        let key = self.entries[i].0.clone();
        proof {
            lemma_store_is_update(self.entries@, name@, status, i as int);
            lemma_lookup_store_same(self.entries@, name@, status);
            assert forall|k: Seq<char>| k != name@ implies spec_lookup(
                spec_store(self.entries@, name@, status),
                k,
            ) == spec_lookup(self.entries@, k) by {
                lemma_lookup_store_other(self.entries@, name@, status, k);
            }
            lemma_store_keeps_names(self.entries@, name@, status);
        }
        self.entries.set(i, (key, status));
        true
    }
}

/// The prober's state: the service registry and the status table it owns.
/// It alone decides whether a completed probe is a transition.
pub struct Checker {
    pub services: Vec<(String, Service)>,
    pub statuses: StatusTable,
}

impl Checker {
    /// The table mirrors the registry: one entry per registered service,
    /// in registry order, under the service's name.
    pub open spec fn wf(self) -> bool {
        &&& self.statuses.entries@.len() == self.services@.len()
        &&& forall|i: int|
            0 <= i < self.services@.len() ==> (#[trigger] self.statuses.entries@[i].0)@
                == self.services@[i].0@
    }

    /// Builds the prober over its registry. Every service starts as `Up`,
    /// the optimistic default that stands until its first probe completes.
    pub fn new(services: Vec<(String, Service)>) -> (r: Checker)
        ensures
            r.wf(),
            r.services == services,
            r.statuses.entries@.len() == services@.len(),
            forall|i: int|
                0 <= i < services@.len() ==> #[trigger] r.statuses.entries@[i] == (
                    services@[i].0,
                    Status::Up,
                ),
            forall|n: Seq<char>|
                contains_key(services@, n) ==> r.statuses.status_of(n) == Some(Status::Up),
    {
        let n = services.len();
        let mut entries: Vec<(String, Status)> = Vec::new();
        let mut i: usize = 0;
        while i < n
            invariant
                n == services@.len(),
                i <= n,
                entries@.len() == i,
                forall|j: int|
                    0 <= j < i ==> #[trigger] entries@[j] == (services@[j].0, Status::Up),
            decreases n - i,
        {
            entries.push((services[i].0.clone(), Status::Up));
            i = i + 1;
        }
        let r = Checker { services, statuses: StatusTable { entries } };
        proof {
            assert forall|name: Seq<char>| contains_key(r.services@, name) implies r.statuses.status_of(
                name,
            ) == Some(Status::Up) by {
                lemma_contains_same_keys(r.services@, r.statuses.entries@, name);
                lemma_lookup_constant(r.statuses.entries@, Status::Up, name);
            }
        }
        r
    }

    /// Resolves the probe target of one service: the URL its liveness
    /// endpoint answers on.
    pub fn probe_target<'a>(&'a self, name: &String) -> (r: Option<&'a String>)
        ensures
            match r {
                Some(u) => spec_lookup(self.services@, name@) is Some && *u == spec_lookup(
                    self.services@,
                    name@,
                ).unwrap().url,
                None => !contains_key(self.services@, name@),
            },
    {
        match find_index(&self.services, name) {
            Some(i) => Some(&self.services[i].1.url),
            None => None,
        }
    }

    /// Handles one completed probe for the named service: maps the probe's
    /// outcome to a state, compares it against the stored entry, replaces
    /// the entry when they differ, and produces the one notify event the
    /// transition calls for — or none when the state did not change.
    ///
    /// The caller must hold the checker exclusively for the whole call, so
    /// that the compare and the write are one atomically observed step per
    /// service; two overlapping completions for one service could otherwise
    /// both see the pre-transition entry and both decide a transition
    /// occurred.
    pub fn check_service(&mut self, name: &String, outcome: Option<u16>) -> (r: Option<
        NotifierMsg,
    >)
        requires
            old(self).wf(),
            contains_key(old(self).services@, name@),
        ensures
            final(self).wf(),
            final(self).services == old(self).services,
            final(self).statuses.entries@ == spec_check(
                old(self).statuses.entries@,
                name@,
                spec_outcome_status(outcome),
            ).0,
            r == match spec_check(
                old(self).statuses.entries@,
                name@,
                spec_outcome_status(outcome),
            ).1 {
                Some(s) => Some(NotifierMsg::Notify { name: *name, status: s }),
                None => None::<NotifierMsg>,
            },
            final(self).statuses.status_of(name@) == Some(spec_outcome_status(outcome)),
            forall|k: Seq<char>|
                k != name@ ==> final(self).statuses.status_of(k) == old(self).statuses.status_of(
                    k,
                ),
            r is Some <==> old(self).statuses.status_of(name@) != Some(
                spec_outcome_status(outcome),
            ),
    {
        let observed = outcome_status(outcome);
        proof {
            lemma_contains_same_keys(self.services@, self.statuses.entries@, name@);
        }
        let changed = self.statuses.set_status(name, observed);
        if changed {
            Some(NotifierMsg::Notify { name: name.clone(), status: observed })
        } else {
            None
        }
    }
}

} // verus!
