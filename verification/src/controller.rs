//! The control loop's own state: what the shell around the core tracks
//! between events. Resolution and actions run on workers and report back as
//! discrete events; this type makes the decisions — what the controls
//! reflect, whether a freshly resolved state is acted on at once, and that
//! a failed resolution keeps the last known state on display while offering
//! no action on it.

use vstd::prelude::*;

use crate::controls::{spec_auto_perform, spec_opt_state};
use crate::state::LauncherState;

verus! {

/// What the control thread owns: the last resolved state and the display
/// flags the shell binds its controls to.
#[derive(Debug)]
pub struct Controller {
    /// The last successfully resolved state, if any.
    pub state: Option<LauncherState>,
    /// Whether the last resolution attempt failed since that state was
    /// resolved: the state stays on display, but no action is offered on it
    /// until a later attempt succeeds.
    pub stale: bool,
    /// Whether the status page is shown while resolution runs.
    pub loading: bool,
    /// Whether a download is in flight (the progress area replaces the
    /// controls).
    pub downloading: bool,
    /// Whether the controls are blocked while resolution runs without the
    /// status page.
    pub disabled_buttons: bool,
}

impl Controller {
    /// Before the first resolution: nothing resolved, loading.
    pub fn new() -> (r: Controller)
        ensures
            r.state is None,
            !r.stale,
            r.loading,
            !r.downloading,
            !r.disabled_buttons,
    {
        Controller { state: None, stale: false, loading: true, downloading: false, disabled_buttons: false }
    }

    /// A resolution attempt starts: either the status page covers the
    /// window, or the controls are blocked in place — an action is never
    /// dispatched against a state older than the resolution under way.
    pub fn begin_resolution(&mut self, show_status_page: bool)
        ensures
            final(self).loading == (old(self).loading || show_status_page),
            final(self).disabled_buttons == (old(self).disabled_buttons || !show_status_page),
            final(self).state == old(self).state,
            final(self).stale == old(self).stale,
            final(self).downloading == old(self).downloading,
    {
        if show_status_page {
            self.loading = true;
        } else {
            self.disabled_buttons = true;
        }
    }

    /// Resolution succeeded: the new state replaces the old one, the
    /// controls come back, and the caller is told whether to act on the
    /// state at once (chained downloads, patching through).
    pub fn state_resolved(
        &mut self,
        state: LauncherState,
        perform_on_download_needed: bool,
        apply_patch_if_needed: bool,
    ) -> (perform_now: bool)
        ensures
            final(self).state == Some(state),
            !final(self).stale,
            !final(self).loading,
            !final(self).disabled_buttons,
            final(self).downloading == old(self).downloading,
            perform_now == spec_auto_perform(
                state@,
                perform_on_download_needed,
                apply_patch_if_needed,
            ),
    {
        let perform_now = crate::controls::auto_perform(
            &state,
            perform_on_download_needed,
            apply_patch_if_needed,
        );
        self.state = Some(state);
        self.stale = false;
        self.loading = false;
        self.disabled_buttons = false;
        perform_now
    }

    /// Resolution failed: the last known state stays on display, marked
    /// stale so nothing is offered on it, and the controls come back so the
    /// user can retry; the caller surfaces the error message.
    pub fn resolution_failed(&mut self)
        ensures
            final(self).state == old(self).state,
            final(self).stale,
            !final(self).loading,
            !final(self).disabled_buttons,
            final(self).downloading == old(self).downloading,
    {
        self.stale = true;
        self.loading = false;
        self.disabled_buttons = false;
    }

    /// The state an action may be planned against: none while no resolution
    /// succeeded, and none while the last attempt failed — a stale state is
    /// display only.
    pub fn actionable_state(&self) -> (r: &Option<LauncherState>)
        ensures
            spec_opt_state(*r) == if self.stale {
                None
            } else {
                spec_opt_state(self.state)
            },
    {
        if self.stale {
            &None
        } else {
            &self.state
        }
    }

    /// A download began or ended: the progress area swaps with the controls.
    pub fn set_downloading(&mut self, downloading: bool)
        ensures
            final(self).downloading == downloading,
            final(self).state == old(self).state,
            final(self).stale == old(self).stale,
            final(self).loading == old(self).loading,
            final(self).disabled_buttons == old(self).disabled_buttons,
    {
        self.downloading = downloading;
    }
}

} // verus!
