use vstd::prelude::*;

verus! {

/// Ghost state of the notification sink: the visible message, if any, and
/// the count of `show` calls so far. Each `show` hands out the new count as
/// the expiry token for its time to live; only a matching token may clear
/// the message.
pub struct NotifyState {
    pub message: Option<Seq<char>>,
    pub shown: nat,
}

/// Effect of `show`: the message becomes visible, superseding any earlier
/// one, and a fresh expiry token is handed out.
pub open spec fn spec_show(s: NotifyState, message: Seq<char>) -> (NotifyState, nat) {
    (NotifyState { message: Some(message), shown: s.shown + 1 }, s.shown + 1)
}

/// Effect of a timer expiry carrying `token`: hides the message only when
/// the token is the one handed out by the most recent `show`; a stale
/// timer changes nothing.
pub open spec fn spec_expire(s: NotifyState, token: nat) -> NotifyState {
    if token == s.shown {
        NotifyState { message: None, shown: s.shown }
    } else {
        s
    }
}

/// A later `show` supersedes an earlier one: after two shows, the second
/// show's expiry hides the sink, the first show's late timer is a no-op
/// both before and after that, and the first message is never visible
/// again once the second `show` has run.
pub proof fn lemma_last_show_wins(s: NotifyState, first: Seq<char>, second: Seq<char>)
    ensures
        ({
            let (s1, t1) = spec_show(s, first);
            let (s2, t2) = spec_show(s1, second);
            let hidden = spec_expire(s2, t2);
            &&& s2.message == Some(second)
            &&& spec_expire(s2, t1) == s2
            &&& hidden.message is None
            &&& spec_expire(hidden, t1) == hidden
        }),
{
}

/// Surfaces a transient, auto-expiring message to the operator. The host
/// schedules a timer for the message's time to live and calls `expire`
/// with the token when it fires; a later `show` invalidates the pending
/// token, so a late timer can neither clear nor resurrect anything.
pub struct NotificationSink {
    message: Option<String>,
    shown: u64,
}

impl View for NotificationSink {
    type V = NotifyState;

    closed spec fn view(&self) -> NotifyState {
        NotifyState {
            message: match self.message {
                Some(m) => Some(m@),
                None => None,
            },
            shown: self.shown as nat,
        }
    }
}

impl NotificationSink {
    /// A sink with nothing visible.
    pub fn new() -> (s: Self)
        ensures
            s@.message is None,
            s@.shown == 0,
    {
        NotificationSink { message: None, shown: 0 }
    }

    /// Displays `message` and hands out the token that the expiry timer for
    /// its time to live must present.
    pub fn show(&mut self, message: String) -> (token: u64)
        requires
            old(self)@.shown < u64::MAX,
        ensures
            final(self)@ == spec_show(old(self)@, message@).0,
            token as nat == spec_show(old(self)@, message@).1,
    {
        self.shown = self.shown + 1;
        self.message = Some(message);
        self.shown
    }

    /// Applies a timer expiry. The message is cleared only when `token`
    /// belongs to the most recent `show`; stale timers are discarded.
    pub fn expire(&mut self, token: u64)
        ensures
            final(self)@ == spec_expire(old(self)@, token as nat),
    {
        if token == self.shown {
            self.message = None;
        }
    }

    /// The currently visible message, if any.
    pub fn current(&self) -> (m: Option<&String>)
        ensures
            match m {
                Some(s) => self@.message == Some(s@),
                None => self@.message is None,
            },
    {
        self.message.as_ref()
    }
}

} // verus!
