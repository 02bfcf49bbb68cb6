//! The set of configured notification channels, in configuration order.
use vstd::prelude::*;
use crate::error::AppError;
use crate::text::{concat, push_str, str_eq, views};

verus! {

/// The names of the configured channels, in the order they were configured.
/// The senders themselves run with the caller, one per name, in this order.
pub struct NotificationDispatcher {
    channels: Vec<String>,
}

impl NotificationDispatcher {
    /// The channel names, in configuration order.
    pub closed spec fn channels(&self) -> Seq<Seq<char>> {
        views(self.channels@)
    }

    pub fn new(channels: Vec<String>) -> (r: Self)
        ensures
            r.channels() == views(channels@),
    {
        NotificationDispatcher { channels }
    }

    pub fn channel_names(&self) -> (r: Vec<String>)
        ensures
            views(r@) == self.channels(),
    {
        let r = self.channels.clone();
        assert(views(r@) =~= views(self.channels@));
        r
    }

    pub fn is_empty(&self) -> (r: bool)
        ensures
            r == (self.channels().len() == 0),
    {
        self.channels.len() == 0
    }

    /// The position of the first channel with this name; the error for an
    /// unknown name is `NotFound("notifier '<name>' not configured")`.
    pub fn find_channel(&self, channel: &str) -> (r: Result<usize, AppError>)
        ensures
            r matches Ok(i) ==> i < self.channels().len() && self.channels()[i as int]
                == channel@ && forall|j: int| 0 <= j < i ==> self.channels()[j] != channel@,
            r is Err <==> !self.channels().contains(channel@),
            r matches Err(e) ==> e matches AppError::NotFound(m) && m@ == "notifier '"@
                + channel@ + "' not configured"@,
    {
        let mut i: usize = 0;
        while i < self.channels.len()
            invariant
                0 <= i <= self.channels@.len(),
                forall|j: int| 0 <= j < i ==> self.channels()[j] != channel@,
            decreases self.channels@.len() - i,
        {
            if str_eq(self.channels[i].as_str(), channel) {
                assert(self.channels()[i as int] == channel@);
                return Ok(i);
            }
            i = i + 1;
        }
        let mut m = concat("notifier '", channel);
        push_str(&mut m, "' not configured");
        Err(AppError::NotFound(m))
    }
}

} // verus!
