//! The dispatching side of the monitor: given a detected transition, decide
//! which outbound sends it fans out to.
//!
//! The dispatcher owns read-only views of both registries. For one notify
//! event it resolves the service's configured channel names and produces one
//! send per channel, each carrying the same service name and new state. The
//! sends themselves are outbound HTTP calls and happen outside the library;
//! their outcomes are neither awaited nor aggregated here.

use crate::checker::Status;
use crate::config::spec_references_valid;
use crate::config::spec_service_valid;
use crate::config::Service;
use crate::notifications::Notification;
use crate::registry::contains_key;
use crate::registry::find_index;
use crate::registry::spec_lookup;
use vstd::prelude::*;

verus! {

/// A request to announce that a service moved to a new state. Carries the
/// state at the moment of the transition, not a re-read.
#[derive(Debug, PartialEq)]
pub enum NotifierMsg {
    Notify { name: String, status: Status },
}

/// One outbound send the dispatcher decided on: the channel to call, and
/// the service name and new state the message announces.
#[derive(Debug, PartialEq)]
pub struct SendTask {
    pub notification: Notification,
    pub name: String,
    pub status: Status,
}

/// The dispatcher's state: the two registries, read-only after startup.
pub struct Notifier {
    pub services: Vec<(String, Service)>,
    pub notifications: Vec<(String, Notification)>,
}

impl Notifier {
    /// The invariant validation established: every channel name any
    /// service refers to names a configured channel.
    pub open spec fn wf(self) -> bool {
        spec_references_valid(self.services@, self.notifications@)
    }

    /// Builds the dispatcher over a validated pair of registries.
    pub fn new(
        services: Vec<(String, Service)>,
        notifications: Vec<(String, Notification)>,
    ) -> (r: Notifier)
        requires
            spec_references_valid(services@, notifications@),
        ensures
            r.services == services,
            r.notifications == notifications,
            r.wf(),
    {
        Notifier { services, notifications }
    }

    /// Fans a transition out: one send per channel configured for the
    /// service, in configuration order, each carrying the same name and
    /// state. A send's failure is its transport's concern; nothing here
    /// depends on any send's outcome, so one failing channel cannot touch
    /// the others.
    pub fn handle_notification(&self, name: &String, status: Status) -> (sends: Vec<SendTask>)
        requires
            self.wf(),
            contains_key(self.services@, name@),
        ensures
            ({
                let svc = spec_lookup(self.services@, name@).unwrap();
                &&& sends@.len() == svc.notifications@.len()
                &&& forall|i: int|
                    0 <= i < sends@.len() ==> {
                        &&& (#[trigger] sends@[i]).notification == spec_lookup(
                            self.notifications@,
                            svc.notifications@[i]@,
                        ).unwrap()
                        &&& sends@[i].name == *name
                        &&& sends@[i].status == status
                    }
            }),
    {
        let svc_i = match find_index(&self.services, name) {
            Some(i) => i,
            None => unreached(),
        };
        let m = self.services[svc_i].1.notifications.len();
        let mut sends: Vec<SendTask> = Vec::new();
        let mut j: usize = 0;
        while j < m
            invariant
                self.wf(),
                svc_i < self.services@.len(),
                spec_lookup(self.services@, name@) == Some(self.services@[svc_i as int].1),
                m == self.services@[svc_i as int].1.notifications@.len(),
                j <= m,
                sends@.len() == j,
                forall|t: int|
                    0 <= t < j ==> {
                        &&& (#[trigger] sends@[t]).notification == spec_lookup(
                            self.notifications@,
                            self.services@[svc_i as int].1.notifications@[t]@,
                        ).unwrap()
                        &&& sends@[t].name == *name
                        &&& sends@[t].status == status
                    },
            decreases m - j,
        {
            let notif_name = &self.services[svc_i].1.notifications[j];
            proof {
                assert(spec_service_valid(self.services@[svc_i as int].1, self.notifications@));
            }
            let k = match find_index(&self.notifications, notif_name) {
                Some(k) => k,
                None => unreached(),
            };
            let notification = self.notifications[k].1.clone();
            sends.push(SendTask { notification, name: name.clone(), status });
            j = j + 1;
        }
        sends
    }
}

} // verus!
