use vstd::prelude::*;

use crate::subscribers::{Broadcast, Subscribers};

verus! {

#[derive(Clone, Copy, Debug, PartialEq, Eq, Structural)]
pub enum NotificationLevel {
    Success,
    Info,
    Warning,
    Error,
}

/// A message for the user.
#[derive(Clone, Debug)]
pub struct Notification {
    pub text: String,
    pub level: NotificationLevel,
}

#[derive(Clone, Debug)]
pub enum NotificationRequest {
    New(Notification),
}

/// The request that shows `text` to the user at `level`.
pub fn notification(level: NotificationLevel, text: String) -> (r: NotificationRequest)
    ensures
        r == NotificationRequest::New(Notification { text, level }),
{
    NotificationRequest::New(Notification { text, level })
}

/// Hands every notification to every listener.
pub struct NotificationBus {
    subscribers: Subscribers,
}

impl NotificationBus {
    pub closed spec fn subscribers(&self) -> Seq<u64> {
        self.subscribers@
    }

    pub fn create() -> (r: Self)
        ensures
            r.subscribers() == Seq::<u64>::empty(),
    {
        NotificationBus { subscribers: Subscribers::new() }
    }

    /// Registers a subscriber; registering one twice changes nothing.
    pub fn connected(&mut self, id: u64)
        ensures
            old(self).subscribers().contains(id) ==> final(self).subscribers() == old(
                self,
            ).subscribers(),
            !old(self).subscribers().contains(id) ==> final(self).subscribers() == old(
                self,
            ).subscribers().push(id),
    {
        self.subscribers.add(id);
    }

    pub fn disconnected(&mut self, id: u64)
        ensures
            !final(self).subscribers().contains(id),
            final(self).subscribers().to_set() == old(self).subscribers().to_set().remove(id),
    {
        self.subscribers.remove(id);
    }

    /// The broadcast of `msg` to every listener.
    pub fn handle_input(&self, msg: NotificationRequest) -> (r: Broadcast<NotificationRequest>)
        ensures
            r.to@ == self.subscribers(),
            r.to@.no_duplicates(),
            r.response == msg,
    {
        Broadcast { to: self.subscribers.recipients(), response: msg }
    }
}

} // verus!
