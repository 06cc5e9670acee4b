//! Pure display state for whichever action is running: the current
//! byte/total counters and an optional caption. `update` overwrites both
//! counters in one step, so a reader never sees a half-updated pair; the
//! reporter is reset to the hidden, indeterminate state between actions.

use vstd::prelude::*;

verus! {

/// The percentage shown for a `(current, total)` pair: indeterminate
/// progress has none, an empty artifact counts as done, and the value is
/// capped at 100 when a resumed file overshoots its estimate.
pub open spec fn spec_percent(current: u64, total: Option<u64>) -> Option<u64> {
    match total {
        None => None,
        Some(t) => if t == 0 {
            Some(100u64)
        } else if 100 * (current as int) / (t as int) > 100 {
            Some(100u64)
        } else {
            Some((100 * (current as int) / (t as int)) as u64)
        },
    }
}

/// Current progress of the one running action.
#[derive(Debug)]
pub struct ProgressReporter {
    /// Bytes done so far.
    pub current: u64,
    /// Bytes expected in total; `None` while the total is unknown
    /// (indeterminate pulse).
    pub total: Option<u64>,
    /// The caption shown next to the counters.
    pub caption: Option<String>,
    /// Whether anything was reported since the last reset; hidden otherwise.
    pub active: bool,
}

impl ProgressReporter {
    /// A fresh reporter: hidden, indeterminate, no caption.
    pub fn new() -> (r: ProgressReporter)
        ensures
            r.current == 0,
            r.total is None,
            r.caption is None,
            !r.active,
    {
        ProgressReporter { current: 0, total: None, caption: None, active: false }
    }

    /// Overwrites both counters in one step, as one progress event arrives.
    pub fn update(&mut self, current: u64, total: u64)
        ensures
            final(self).current == current,
            final(self).total == Some(total),
            final(self).caption == old(self).caption,
            final(self).active,
    {
        self.current = current;
        self.total = Some(total);
        self.active = true;
    }

    /// An indeterminate pulse: work is happening but the total is unknown.
    pub fn pulse(&mut self)
        ensures
            final(self).current == old(self).current,
            final(self).total is None,
            final(self).caption == old(self).caption,
            final(self).active,
    {
        self.total = None;
        self.active = true;
    }

    /// Replaces the caption, leaving the counters alone.
    pub fn set_caption(&mut self, caption: Option<String>)
        ensures
            final(self).current == old(self).current,
            final(self).total == old(self).total,
            final(self).caption == caption,
            final(self).active == old(self).active,
    {
        self.caption = caption;
    }

    /// Back to the hidden, indeterminate state, between actions.
    pub fn reset(&mut self)
        ensures
            final(self).current == 0,
            final(self).total is None,
            final(self).caption is None,
            !final(self).active,
    {
        self.current = 0;
        self.total = None;
        self.caption = None;
        self.active = false;
    }

    /// The percentage to display, per [`spec_percent`].
    pub fn percent(&self) -> (r: Option<u64>)
        ensures
            r == spec_percent(self.current, self.total),
    {
        match self.total {
            None => None,
            Some(t) => {
                if t == 0 {
                    Some(100)
                } else {
                    let scaled: u128 = self.current as u128 * 100 / t as u128;
                    if scaled > 100 {
                        Some(100)
                    } else {
                        Some(scaled as u64)
                    }
                }
            },
        }
    }
}

} // verus!
