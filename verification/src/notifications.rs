//! The notification channels a transition can be sent to. Only the message
//! content is decided here; the outbound HTTP call that delivers it is the
//! transport's concern and lives outside the library.

use crate::checker::Status;
use vstd::prelude::*;

verus! {

/// A Slack-style webhook channel: one destination URL to post to.
#[derive(Debug, PartialEq)]
pub struct SlackNotification {
    pub url: String,
}

/// A configured outbound channel. Slack webhooks are the only kind so far.
#[derive(Debug, PartialEq)]
pub enum Notification {
    Slack(SlackNotification),
}

/// The text a Slack message carries: the service's name followed by a
/// fixed phrase for the state it moved to.
pub open spec fn spec_payload_text(name: Seq<char>, status: Status) -> Seq<char> {
    if status == Status::Up {
        name + " is up :thumbsup:"@
    } else {
        name + " is down :thumbsdown:"@
    }
}

impl Clone for SlackNotification {
    /// Cloning keeps the destination.
    fn clone(&self) -> (res: Self)
        ensures
            res == *self,
    {
        SlackNotification { url: self.url.clone() }
    }
}

impl Clone for Notification {
    /// Cloning keeps the channel's configuration.
    fn clone(&self) -> (res: Self)
        ensures
            res == *self,
    {
        match self {
            Notification::Slack(slack) => Notification::Slack(slack.clone()),
        }
    }
}

impl SlackNotification {
    /// Builds the text of the message announcing that `name` moved to
    /// `status`.
    pub fn build_payload(&self, name: &str, status: Status) -> (text: String)
        ensures
            text@ == spec_payload_text(name@, status),
    {
        let mut text = String::new();
        text.append(name);
        match status {
            Status::Up => text.append(" is up :thumbsup:"),
            Status::Down => text.append(" is down :thumbsdown:"),
        }
        proof {
            assert(text@ =~= spec_payload_text(name@, status));
        }
        text
    }
}

} // verus!
