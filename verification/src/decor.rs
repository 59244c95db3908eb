//! The decor watcher of the main window.
//!
//! The platform resizes a window by its outer size, title bar included,
//! while callers ask for an inner size. The title-bar height (the decor) is
//! only an estimate until the layout converges, so a resize sent early can
//! miss. Each main window keeps one watcher that tracks the last resize it
//! sent and, while that resize is active and the decor estimate grows,
//! sends the corrected outer height again. It stops tracking when the decor
//! shrinks (the content area grows by itself), when someone else resized
//! the window, when a newer resize replaces it, or when its own resize
//! never lands within its recheck budget.

use vstd::prelude::*;

verus! {

/// Rechecks allowed for a resize that has not landed yet.
pub const ACTIVE_RESIZE_RECHECKS: u32 = 60;

/// Milliseconds to wait before a recheck.
pub const RECHECK_DELAY_MS: u64 = 500;

/// The resize that a watcher tracks: the outer width, the requested inner
/// height, the outer height last sent, the window height before it was
/// sent, the decor estimate it was computed with, and the rechecks left.
#[derive(Clone, Copy, Debug, PartialEq, Eq, Structural)]
pub struct ActiveResize {
    pub w: i64,
    pub req_h: i64,
    pub outer_h: i64,
    pub pre_h: i64,
    pub decor_used: i32,
    pub rechecks_left: u32,
}

/// What the host must do after the watcher handled a message.
#[derive(Clone, Copy, Debug, PartialEq, Eq, Structural)]
pub enum DecorAction {
    Nothing,
    /// Send a recheck after `RECHECK_DELAY_MS`.
    ScheduleRecheck,
    /// Send this corrected outer size; if sending fails, report it with
    /// `resize_failed`.
    Resize { width: i64, height: i64 },
}

/// `a + b`, saturating at the bounds of `i64`.
pub open spec fn sat_add(a: i64, b: i64) -> i64 {
    if a + b > i64::MAX {
        i64::MAX
    } else if a + b < i64::MIN {
        i64::MIN
    } else {
        (a + b) as i64
    }
}

fn saturating_add_i64(a: i64, b: i64) -> (r: i64)
    ensures
        r == sat_add(a, b),
{
    if b >= 0 {
        if a > i64::MAX - b {
            i64::MAX
        } else {
            a + b
        }
    } else {
        if a < i64::MIN - b {
            i64::MIN
        } else {
            a + b
        }
    }
}

/// The tracked resize after a decor observation, and what to do. With none
/// tracked, nothing. An unchanged estimate changes nothing. A smaller one
/// ends the tracking. A larger one: if the window still has its height from
/// before the resize, the resize has not landed and a recheck is scheduled;
/// if it has a height that is neither that nor the one sent, someone else
/// resized it and the tracking ends; else the corrected outer height (the
/// requested height plus the new estimate) is sent and tracked, with a
/// fresh recheck budget.
pub open spec fn observation(active: Option<ActiveResize>, decor_now: i32, current_height: i32) -> (Option<ActiveResize>, DecorAction) {
    match active {
        None => (None, DecorAction::Nothing),
        Some(a) => if decor_now == a.decor_used {
            (active, DecorAction::Nothing)
        } else if decor_now < a.decor_used {
            (None, DecorAction::Nothing)
        } else if current_height == a.pre_h {
            (active, DecorAction::ScheduleRecheck)
        } else if current_height != a.outer_h {
            (None, DecorAction::Nothing)
        } else {
            let corrected = sat_add(a.req_h, decor_now as i64);
            (
                Some(
                    ActiveResize {
                        pre_h: a.outer_h,
                        outer_h: corrected,
                        decor_used: decor_now,
                        rechecks_left: ACTIVE_RESIZE_RECHECKS,
                        ..a
                    },
                ),
                DecorAction::Resize { width: a.w, height: corrected },
            )
        },
    }
}

/// The tracked resize after a recheck: one whose budget is spent is given
/// up; otherwise the budget drops by one and the decor is observed again.
pub open spec fn recheck_result(active: Option<ActiveResize>, decor_now: i32, current_height: i32) -> (Option<ActiveResize>, DecorAction) {
    match active {
        Some(a) => if a.rechecks_left == 0 {
            (None, DecorAction::Nothing)
        } else {
            observation(
                Some(ActiveResize { rechecks_left: (a.rechecks_left - 1) as u32, ..a }),
                decor_now,
                current_height,
            )
        },
        None => (None, DecorAction::Nothing),
    }
}

/// The resize that a new dispatch tracks. A dispatch that does not change
/// the height has nothing to land, so its height-before is `i64::MIN`,
/// which no window height equals.
pub open spec fn dispatched(w: i64, req_h: i64, outer_h: i64, pre_h: i64, decor_used: i32) -> ActiveResize {
    ActiveResize {
        w,
        req_h,
        outer_h,
        pre_h: if outer_h == pre_h {
            i64::MIN
        } else {
            pre_h
        },
        decor_used,
        rechecks_left: ACTIVE_RESIZE_RECHECKS,
    }
}

/// The watcher of one main window.
#[derive(Clone, Copy, Debug, PartialEq, Eq, Structural)]
pub struct DecorWatch {
    /// The resize it tracks, if any.
    pub active: Option<ActiveResize>,
}

impl DecorWatch {
    /// A watcher that tracks nothing.
    pub fn new() -> (d: DecorWatch)
        ensures
            d.active is None,
    {
        DecorWatch { active: None }
    }

    /// A new resize replaces the tracked one. Returns the outer size to send.
    pub fn dispatch(&mut self, w: i64, req_h: i64, outer_h: i64, pre_h: i64, decor_used: i32) -> (size: (i64, i64))
        ensures
            final(self).active == Some(dispatched(w, req_h, outer_h, pre_h, decor_used)),
            size == (w, outer_h),
    {
        let pre_h = if outer_h == pre_h {
            i64::MIN
        } else {
            pre_h
        };
        self.active = Some(
            ActiveResize { w, req_h, outer_h, pre_h, decor_used, rechecks_left: ACTIVE_RESIZE_RECHECKS },
        );
        (w, outer_h)
    }

    /// Handles a new decor estimate, given the window's current height.
    pub fn observe(&mut self, decor_now: i32, current_height: i32) -> (act: DecorAction)
        ensures
            (final(self).active, act) == observation(old(self).active, decor_now, current_height),
    {
        match self.active {
            None => DecorAction::Nothing,
            Some(a) => {
                if decor_now == a.decor_used {
                    DecorAction::Nothing
                } else if decor_now < a.decor_used {
                    self.active = None;
                    DecorAction::Nothing
                } else if current_height as i64 == a.pre_h {
                    DecorAction::ScheduleRecheck
                } else if current_height as i64 != a.outer_h {
                    self.active = None;
                    DecorAction::Nothing
                } else {
                    let corrected = saturating_add_i64(a.req_h, decor_now as i64);
                    self.active = Some(
                        ActiveResize {
                            w: a.w,
                            req_h: a.req_h,
                            outer_h: corrected,
                            pre_h: a.outer_h,
                            decor_used: decor_now,
                            rechecks_left: ACTIVE_RESIZE_RECHECKS,
                        },
                    );
                    DecorAction::Resize { width: a.w, height: corrected }
                }
            },
        }
    }

    /// Handles a recheck, given a fresh decor estimate and the window's
    /// current height.
    pub fn recheck(&mut self, decor_now: i32, current_height: i32) -> (act: DecorAction)
        ensures
            (final(self).active, act) == recheck_result(old(self).active, decor_now, current_height),
    {
        match self.active {
            Some(a) => {
                if a.rechecks_left == 0 {
                    self.active = None;
                    DecorAction::Nothing
                } else {
                    self.active = Some(ActiveResize { rechecks_left: a.rechecks_left - 1, ..a });
                    self.observe(decor_now, current_height)
                }
            },
            None => DecorAction::Nothing,
        }
    }

    /// A corrected resize could not be sent: the tracking ends.
    pub fn resize_failed(&mut self)
        ensures
            final(self).active is None,
    {
        self.active = None;
    }
}

/// An estimate equal to the one a tracked resize was computed with changes
/// nothing, so after a correction the same estimate arriving again sends
/// no second resize.
pub proof fn law_correction_settles(a: ActiveResize, decor_now: i32, h1: i32, h2: i32)
    ensures
        observation(Some(a), a.decor_used, h1) == (Some(a), DecorAction::Nothing),
        ({
            let (next, act) = observation(Some(a), decor_now, h1);
            act is Resize ==> observation(next, decor_now, h2) == (next, DecorAction::Nothing)
        }),
{
}

/// The watcher never stomps a resize made by someone else: once the window
/// has a height that is neither its height before the tracked resize nor
/// the height sent, a larger estimate ends the tracking and sends nothing.
pub proof fn law_no_stomp(a: ActiveResize, decor_now: i32, current_height: i32)
    requires
        decor_now > a.decor_used,
        current_height != a.pre_h,
        current_height != a.outer_h,
    ensures
        observation(Some(a), decor_now, current_height) == (None::<ActiveResize>, DecorAction::Nothing),
{
}

/// The state after `n` rechecks, each seeing the same estimate and height.
pub open spec fn rechecks(active: Option<ActiveResize>, n: nat, decor_now: i32, current_height: i32) -> Option<ActiveResize>
    decreases n,
{
    if n == 0 {
        active
    } else {
        rechecks(recheck_result(active, decor_now, current_height).0, (n - 1) as nat, decor_now, current_height)
    }
}

/// A resize that never lands is given up: while the window keeps its
/// height from before the resize and the estimate stays above the one
/// used, `rechecks_left + 1` rechecks end the tracking.
pub proof fn law_recheck_budget(a: ActiveResize, decor_now: i32, current_height: i32)
    requires
        decor_now > a.decor_used,
        current_height == a.pre_h,
    ensures
        rechecks(Some(a), (a.rechecks_left + 1) as nat, decor_now, current_height) is None,
    decreases a.rechecks_left,
{
    if a.rechecks_left == 0 {
        assert(rechecks(None, 0, decor_now, current_height) is None);
    } else {
        let b = ActiveResize { rechecks_left: (a.rechecks_left - 1) as u32, ..a };
        assert(recheck_result(Some(a), decor_now, current_height).0 == Some(b));
        law_recheck_budget(b, decor_now, current_height);
    }
}

} // verus!
