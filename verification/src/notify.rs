//! A one-slot notification: a message shown to the user, visible for a
//! fixed span and then expired. Time comes in as milliseconds from the
//! caller's clock.

use vstd::prelude::*;
use vstd::string::StringExecFns;
use crate::player::elapsed_ms;

verus! {

/// How long a notification stays visible, in milliseconds.
pub const NOTIFICATION_TIMEOUT_MS: u64 = 3000;

/// The notification slot: at most one message, with the time it was shown.
pub struct NotificationSystem {
    /// The visible message and the time it was shown, if any.
    pub notification: Option<(String, u64)>,
}

impl NotificationSystem {
    /// Whether a notification is showing and not yet expired at `now_ms`.
    pub open spec fn spec_active(self, now_ms: u64) -> bool {
        match self.notification {
            Some(p) => elapsed_ms(p.1, now_ms) < NOTIFICATION_TIMEOUT_MS,
            None => false,
        }
    }

    /// An empty notification slot.
    pub fn new() -> (r: NotificationSystem)
        ensures
            r.notification is None,
    {
        NotificationSystem { notification: None }
    }

    /// Shows a message, replacing whatever was showing, stamped `now_ms`.
    pub fn show_notification(&mut self, message: &str, now_ms: u64)
        ensures
            final(self).notification matches Some(p) && p.0@ == message@ && p.1 == now_ms,
    {
        self.notification = Some((message.to_owned(), now_ms));
    }

    /// Whether a notification is visible at `now_ms`: it exists and less
    /// than the timeout has elapsed since it was shown.
    pub fn has_active_notification(&self, now_ms: u64) -> (r: bool)
        ensures
            r == self.spec_active(now_ms),
    {
        match &self.notification {
            Some(p) => now_ms.saturating_sub(p.1) < NOTIFICATION_TIMEOUT_MS,
            None => false,
        }
    }

    /// The text of the notification in the slot, expired or not.
    pub fn get_notification_text(&self) -> (r: Option<String>)
        ensures
            r == match self.notification {
                Some(p) => Some(p.0),
                None => None::<String>,
            },
    {
        match &self.notification {
            Some(p) => Some(p.0.clone()),
            None => None,
        }
    }

    /// Clears the slot once the timeout has elapsed; an active
    /// notification is left showing.
    pub fn update(&mut self, now_ms: u64)
        ensures
            final(self).notification == if old(self).spec_active(now_ms) {
                old(self).notification
            } else {
                None::<(String, u64)>
            },
    {
        let clear = match &self.notification {
            Some(p) => now_ms.saturating_sub(p.1) >= NOTIFICATION_TIMEOUT_MS,
            None => false,
        };
        if clear {
            self.notification = None;
        }
    }
}

} // verus!
