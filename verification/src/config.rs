//! The validated configuration the monitor runs on: the service registry
//! and the notification registry, both immutable after startup.
//!
//! Reading and deserializing a configuration file happens outside the
//! library; what arrives here are plain lists of named services and named
//! channels. Validation checks the one cross-registry invariant the rest of
//! the monitor relies on: every channel name a service refers to names a
//! configured channel.

use crate::notifications::Notification;
use crate::registry::contains_key;
use crate::registry::find_index;
use vstd::prelude::*;

verus! {

/// One monitored service: the URL of its liveness endpoint, the check
/// interval in seconds, and the names of the channels to notify when its
/// reachability changes.
#[derive(Debug, PartialEq)]
pub struct Service {
    pub url: String,
    pub interval: u64,
    pub notifications: Vec<String>,
}

impl Clone for Service {
    /// Cloning keeps the descriptor: the target, the interval and the
    /// channel names all read back unchanged.
    fn clone(&self) -> (res: Self)
        ensures
            res.url == self.url,
            res.interval == self.interval,
            res.notifications@ == self.notifications@,
    {
        let notifications = self.notifications.clone();
        proof {
            assert forall|i: int| 0 <= i < notifications@.len() implies notifications@[i]
                == self.notifications@[i] by {
            }
            assert(notifications@ =~= self.notifications@);
        }
        Service { url: self.url.clone(), interval: self.interval, notifications }
    }
}

/// A validated configuration: every channel name any service refers to is
/// present in `notifications`.
#[derive(Debug)]
pub struct Config {
    pub services: Vec<(String, Service)>,
    pub notifications: Vec<(String, Notification)>,
}

/// Why a configuration was rejected.
#[derive(Debug, PartialEq)]
pub enum ConfigError {
    /// A service refers to a channel name that no configured channel has.
    UndefinedNotification { service: String },
}

/// The message text of a configuration error.
pub open spec fn spec_error_message(e: ConfigError) -> Seq<char> {
    match e {
        ConfigError::UndefinedNotification { service } => "Service: "@ + service@
            + " has undefined notification"@,
    }
}

impl ConfigError {
    /// Renders the error for an operator.
    pub fn message(&self) -> (r: String)
        ensures
            r@ == spec_error_message(*self),
    {
        match self {
            ConfigError::UndefinedNotification { service } => {
                let mut text = String::new();
                text.append("Service: ");
                text.append(service.as_str());
                text.append(" has undefined notification");
                proof {
                    assert(text@ =~= spec_error_message(*self));
                }
                text
            },
        }
    }
}

/// Whether every channel name of one service names a configured channel.
pub open spec fn spec_service_valid(
    service: Service,
    notifications: Seq<(String, Notification)>,
) -> bool {
    forall|j: int|
        0 <= j < service.notifications@.len() ==> contains_key(
            notifications,
            #[trigger] service.notifications@[j]@,
        )
}

/// Whether every service's channel references resolve: the invariant the
/// dispatcher relies on.
pub open spec fn spec_references_valid(
    services: Seq<(String, Service)>,
    notifications: Seq<(String, Notification)>,
) -> bool {
    forall|i: int|
        0 <= i < services.len() ==> spec_service_valid(#[trigger] services[i].1, notifications)
}

impl Config {
    /// Validates an as-read configuration. Accepts it unchanged when every
    /// channel reference resolves; rejects it naming the first service, in
    /// list order, that refers to an undefined channel.
    pub fn parse(
        services: Vec<(String, Service)>,
        notifications: Vec<(String, Notification)>,
    ) -> (r: Result<Config, ConfigError>)
        ensures
            match r {
                Ok(c) => {
                    &&& c.services == services
                    &&& c.notifications == notifications
                    &&& spec_references_valid(services@, notifications@)
                },
                Err(e) => {
                    &&& !spec_references_valid(services@, notifications@)
                    &&& exists|i: int|
                        {
                            &&& 0 <= i < services@.len()
                            &&& !spec_service_valid(#[trigger] services@[i].1, notifications@)
                            &&& forall|j: int|
                                0 <= j < i ==> spec_service_valid(
                                    #[trigger] services@[j].1,
                                    notifications@,
                                )
                            &&& e == (ConfigError::UndefinedNotification {
                                service: services@[i].0,
                            })
                        }
                },
            },
    {
        let n = services.len();
        let mut i: usize = 0;
        while i < n
            invariant
                n == services@.len(),
                i <= n,
                forall|j: int|
                    0 <= j < i ==> spec_service_valid(#[trigger] services@[j].1, notifications@),
            decreases n - i,
        {
            let m = services[i].1.notifications.len();
            let mut j: usize = 0;
            while j < m
                invariant
                    n == services@.len(),
                    i < n,
                    m == services@[i as int].1.notifications@.len(),
                    j <= m,
                    forall|s: int|
                        0 <= s < i ==> spec_service_valid(
                            #[trigger] services@[s].1,
                            notifications@,
                        ),
                    forall|t: int|
                        0 <= t < j ==> contains_key(
                            notifications@,
                            #[trigger] services@[i as int].1.notifications@[t]@,
                        ),
                decreases m - j,
            {
                if find_index(&notifications, &services[i].1.notifications[j]).is_none() {
                    proof {
                        assert(!spec_service_valid(services@[i as int].1, notifications@));
                    }
                    return Err(
                        ConfigError::UndefinedNotification { service: services[i].0.clone() },
                    );
                }
                j = j + 1;
            }
            i = i + 1;
        }
        Ok(Config { services, notifications })
    }
}

} // verus!
