//! A supervisor that keeps a network link up: it notices when the link drops,
//! asks for a reconnection at most once per window, and says when the status
//! shown to the user must change. The caller queries the network driver and
//! the clock, and carries out what the supervisor asks for.
use vstd::prelude::*;

verus! {

/// Time that must be exceeded between two reconnection requests while the
/// link stays down, in seconds.
pub const RECONNECT_WINDOW_SECS: u64 = 30;

/// Milliseconds in a second.
pub const MS_PER_SEC: u64 = 1000;

/// Status to show to the user.
#[derive(Debug, Clone, Copy, PartialEq, Eq, Structural)]
pub enum LinkStatus {
    Connected,
    Disconnected,
}

/// What the supervisor believes about the link.
#[derive(Debug, Clone, Copy, PartialEq, Eq, Structural)]
pub enum Link {
    Connected,
    /// The link was last seen lost, or a reconnection last asked for, at
    /// `lost_at` (milliseconds on the caller's monotonic clock).
    Disconnected { lost_at: u64 },
}

/// What the caller must do after a decision of the supervisor.
#[derive(Debug, Clone, Copy, PartialEq, Eq)]
pub struct PollAction {
    /// Status to show, when it must change.
    pub status: Option<LinkStatus>,
    /// Whether to ask the network driver to connect.
    pub connect: bool,
}

/// Whether more than the reconnection window has passed from `since` to
/// `now` (milliseconds); never if the clock reads earlier.
pub open spec fn window_expired(since: u64, now: u64) -> bool {
    now > since && now - since > RECONNECT_WINDOW_SECS * MS_PER_SEC
}

/// The belief about the link after a poll at `now` that found the link up
/// (`linked`) or down.
pub open spec fn poll_next(s: Link, now: u64, linked: bool) -> Link {
    if linked {
        Link::Connected
    } else {
        match s {
            Link::Connected => Link::Disconnected { lost_at: now },
            Link::Disconnected { lost_at } => if window_expired(lost_at, now) {
                Link::Disconnected { lost_at: now }
            } else {
                s
            },
        }
    }
}

/// What a poll at `now` from belief `s` asks of the caller.
pub open spec fn poll_action(s: Link, now: u64, linked: bool) -> PollAction {
    if linked {
        PollAction {
            status: if s is Connected {
                None
            } else {
                Some(LinkStatus::Connected)
            },
            connect: false,
        }
    } else if s is Connected || window_expired(s->lost_at, now) {
        PollAction { status: Some(LinkStatus::Disconnected), connect: true }
    } else {
        PollAction { status: None, connect: false }
    }
}

/// The belief after successive polls at `times`, the link down at each.
pub open spec fn after_polls_down(s: Link, times: Seq<u64>) -> Link
    decreases times.len(),
{
    if times.len() == 0 {
        s
    } else {
        after_polls_down(poll_next(s, times[0], false), times.drop_first())
    }
}

/// Number of reconnection requests made by successive polls at `times`, the
/// link down at each.
pub open spec fn connects_down(s: Link, times: Seq<u64>) -> nat
    decreases times.len(),
{
    if times.len() == 0 {
        0
    } else {
        (if poll_action(s, times[0], false).connect {
            1nat
        } else {
            0nat
        }) + connects_down(poll_next(s, times[0], false), times.drop_first())
    }
}

/// While the link stays down, a reconnection request opens a window in which
/// no poll, however many, asks again; the first poll after the window asks
/// exactly once more.
pub proof fn lemma_one_connect_per_window(s: Link, t: u64, times: Seq<u64>, later: u64)
    requires
        poll_action(s, t, false).connect,
        forall|i: int|
            0 <= i < times.len() ==> !window_expired(t, #[trigger] times[i]),
        window_expired(t, later),
    ensures
        poll_next(s, t, false) == (Link::Disconnected { lost_at: t }),
        connects_down(poll_next(s, t, false), times) == 0,
        after_polls_down(poll_next(s, t, false), times) == poll_next(s, t, false),
        poll_action(after_polls_down(poll_next(s, t, false), times), later, false).connect,
{
    lemma_quiet_window(t, times);
}

/// Polls inside the window of a request leave the belief as it is and ask
/// for nothing.
proof fn lemma_quiet_window(t: u64, times: Seq<u64>)
    requires
        forall|i: int|
            0 <= i < times.len() ==> !window_expired(t, #[trigger] times[i]),
    ensures
        connects_down(Link::Disconnected { lost_at: t }, times) == 0,
        after_polls_down(Link::Disconnected { lost_at: t }, times) == (Link::Disconnected {
            lost_at: t,
        }),
    decreases times.len(),
{
    if times.len() > 0 {
        let rest = times.drop_first();
        assert(!window_expired(t, times[0]));
        assert forall|i: int| 0 <= i < rest.len() implies !window_expired(t, #[trigger] rest[i]) by {
            assert(rest[i] == times[i + 1]);
        }
        lemma_quiet_window(t, rest);
    }
}

/// When the link comes back after a loss, the next poll reports it connected,
/// once: a further poll with the link up reports nothing.
pub proof fn lemma_reconnect_reported_once(s: Link, t: u64, later: u64)
    requires
        s is Disconnected,
    ensures
        poll_next(s, t, true) == Link::Connected,
        poll_action(s, t, true) == (PollAction {
            status: Some(LinkStatus::Connected),
            connect: false,
        }),
        poll_action(poll_next(s, t, true), later, true) == (PollAction {
            status: None,
            connect: false,
        }),
{
}

/// Supervises the link of a station that joins a single access point.
pub struct Wifi {
    link: Link,
}

impl View for Wifi {
    type V = Link;

    closed spec fn view(&self) -> Link {
        self.link
    }
}

impl Wifi {
    /// A supervisor that starts out pessimistic: disconnected since `now_ms`.
    /// The status to show comes with it.
    pub fn init(now_ms: u64) -> (r: (Wifi, LinkStatus))
        ensures
            r.0@ == (Link::Disconnected { lost_at: now_ms }),
            r.1 == LinkStatus::Disconnected,
    {
        let mut wifi = Wifi { link: Link::Connected };
        let status = wifi.set_connection(false, now_ms);
        (wifi, status)
    }

    /// Records the link as up, or as lost at `now_ms`; returns the status to
    /// show.
    pub fn set_connection(&mut self, is_connected: bool, now_ms: u64) -> (r: LinkStatus)
        ensures
            is_connected ==> final(self)@ == Link::Connected && r == LinkStatus::Connected,
            !is_connected ==> final(self)@ == (Link::Disconnected { lost_at: now_ms }) && r
                == LinkStatus::Disconnected,
    {
        if is_connected {
            self.link = Link::Connected;
            LinkStatus::Connected
        } else {
            self.link = Link::Disconnected { lost_at: now_ms };
            LinkStatus::Disconnected
        }
    }

    /// First step of the blocking start-up: with the link already up
    /// (`linked`) there is nothing to do; otherwise the caller asks the driver
    /// to connect, waits for the interface, and hands the outcome to
    /// `connect_step`, as long as that asks for another attempt.
    pub fn wait_for_connection(&self, linked: bool) -> (r: PollAction)
        ensures
            r == (PollAction { status: None, connect: !linked }),
    {
        PollAction { status: None, connect: !linked }
    }

    /// One round of the blocking start-up, after a connection request: with
    /// the interface up (`netif_up`) the link is recorded as up and reported
    /// connected; otherwise the caller must ask the driver to connect again.
    pub fn connect_step(&mut self, netif_up: bool, now_ms: u64) -> (r: PollAction)
        ensures
            netif_up ==> final(self)@ == Link::Connected && r == (PollAction {
                status: Some(LinkStatus::Connected),
                connect: false,
            }),
            !netif_up ==> final(self)@ == old(self)@ && r == (PollAction {
                status: None,
                connect: true,
            }),
    {
        if netif_up {
            let status = self.set_connection(true, now_ms);
            PollAction { status: Some(status), connect: false }
        } else {
            PollAction { status: None, connect: true }
        }
    }

    /// One round of supervision at `now_ms`, the link found up (`linked`) or
    /// down: a link that came back is reported connected; a link just lost,
    /// or still down more than the window after the last request, is reported
    /// disconnected and a reconnection is asked for; otherwise nothing.
    pub fn poll(&mut self, now_ms: u64, linked: bool) -> (r: PollAction)
        ensures
            final(self)@ == poll_next(old(self)@, now_ms, linked),
            r == poll_action(old(self)@, now_ms, linked),
    {
        if linked {
            match self.link {
                Link::Connected => PollAction { status: None, connect: false },
                Link::Disconnected { .. } => {
                    let status = self.set_connection(true, now_ms);
                    PollAction { status: Some(status), connect: false }
                },
            }
        } else {
            let expired = match self.link {
                Link::Connected => true,
                Link::Disconnected { lost_at } => now_ms > lost_at && now_ms - lost_at
                    > RECONNECT_WINDOW_SECS * MS_PER_SEC,
            };
            if expired {
                let status = self.set_connection(false, now_ms);
                PollAction { status: Some(status), connect: true }
            } else {
                PollAction { status: None, connect: false }
            }
        }
    }

    /// Whether the link is usable: associated with the access point and the
    /// network interface up. A query that failed (`None`) counts as down.
    pub fn is_up(associated: Option<bool>, netif_up: Option<bool>) -> (r: bool)
        ensures
            r == (associated == Some(true) && netif_up == Some(true)),
    {
        let a = match associated {
            Some(v) => v,
            None => false,
        };
        let u = match netif_up {
            Some(v) => v,
            None => false,
        };
        a && u
    }
}

} // verus!
