//! When a group process has been idle long enough to exit.

use vstd::prelude::*;

verus! {

/// How often a group process checks whether it has been idle too long, in seconds.
pub const IDLE_CHECK_INTERVAL_SECS: u64 = 5;

/// Whether a group process with `active` open WebSockets, last active at `last`,
/// should exit at `now`: no socket is open and at least `idle_secs` seconds have
/// passed (a clock that went backwards counts as no time passed).
pub open spec fn idle_expired(active: usize, last: u64, now: u64, idle_secs: u64) -> bool {
    active == 0 && (if now >= last { (now - last) as u64 } else { 0u64 }) >= idle_secs
}

/// The activity a group process keeps track of.
pub struct ActivityTracker {
    /// When the last request or message arrived, in seconds since the Unix epoch.
    pub last_activity: u64,
    /// How many WebSockets are open.
    pub active_sockets: usize,
}

impl ActivityTracker {
    /// A tracker for a process that started at `now`.
    pub fn new(now: u64) -> (t: ActivityTracker)
        ensures
            t.last_activity == now,
            t.active_sockets == 0,
    {
        ActivityTracker { last_activity: now, active_sockets: 0 }
    }

    /// Records activity at `now`.
    pub fn touch(&mut self, now: u64)
        ensures
            final(self).last_activity == now,
            final(self).active_sockets == old(self).active_sockets,
    {
        self.last_activity = now;
    }

    /// Records that a WebSocket opened (the count wraps around, as an atomic
    /// counter does).
    pub fn socket_opened(&mut self)
        ensures
            final(self).active_sockets == old(self).active_sockets.wrapping_add(1),
            final(self).last_activity == old(self).last_activity,
    {
        self.active_sockets = self.active_sockets.wrapping_add(1);
    }

    /// Records that a WebSocket closed (the count wraps around, as an atomic
    /// counter does).
    pub fn socket_closed(&mut self)
        ensures
            final(self).active_sockets == old(self).active_sockets.wrapping_sub(1),
            final(self).last_activity == old(self).last_activity,
    {
        self.active_sockets = self.active_sockets.wrapping_sub(1);
    }

    /// Whether the process should exit at `now`, with the idle timeout `idle_secs`.
    pub fn should_exit(&self, now: u64, idle_secs: u64) -> (b: bool)
        ensures
            b == idle_expired(self.active_sockets, self.last_activity, now, idle_secs),
    {
        if self.active_sockets > 0 {
            return false;
        }
        now.saturating_sub(self.last_activity) >= idle_secs
    }
}

/// A process with an open WebSocket never exits for idleness.
pub proof fn law_open_socket_keeps_alive(t: ActivityTracker, now: u64, idle_secs: u64)
    requires
        t.active_sockets > 0,
    ensures
        !idle_expired(t.active_sockets, t.last_activity, now, idle_secs),
{
}

/// Opening and then closing a WebSocket leaves the count of open sockets as it
/// was.
pub proof fn law_open_close_restores(count: usize)
    ensures
        count.wrapping_add(1).wrapping_sub(1) == count,
{

}

/// Activity at `now` keeps the process alive at `now`, whenever the timeout is
/// positive.
pub proof fn law_touch_defers_exit(active: usize, now: u64, idle_secs: u64)
    requires
        idle_secs > 0,
    ensures
        !idle_expired(active, now, now, idle_secs),
{
}

/// Without new activity, a process that may exit at some time may also exit at
/// every later time.
pub proof fn law_expiry_is_monotone(active: usize, last: u64, now: u64, later: u64, idle_secs: u64)
    requires
        idle_expired(active, last, now, idle_secs),
        now <= later,
    ensures
        idle_expired(active, last, later, idle_secs),
{
}

/// With no socket open, a process exits at `now` exactly when at least
/// `idle_secs` seconds have passed since its last activity (no time counts as
/// passed when the clock reads earlier than that activity), for every timeout.
pub proof fn law_exit_exactly_after_timeout(last: u64, now: u64, idle_secs: u64)
    ensures
        idle_expired(0, last, now, idle_secs) <==> ((now >= last && now - last >= idle_secs) || (now < last
            && idle_secs == 0)),
{
}

/// With a timeout of `t > 0` seconds, a process idle since `last` is still
/// running one second before `last + t` and exits at `last + t`.
pub proof fn law_timeout_is_not_shortened(last: u64, t: u64)
    requires
        t > 0,
        last + t <= u64::MAX,
    ensures
        !idle_expired(0, last, (last + t - 1) as u64, t),
        idle_expired(0, last, (last + t) as u64, t),
{
}

} // verus!
