//! What the window loop decides each frame: which settings to apply,
//! whether to toggle the settings panel, open the file picker, pause,
//! mute, reset or go fullscreen, and whether to run the emulator
//! forward (at normal or fast-forward speed, saving a snapshot after
//! the frame) or rewind it by one saved frame. The frontend performs
//! the actions.

use vstd::prelude::*;
use crate::region::Region;

verus! {

/// Settings and modes already in effect in the window loop.
#[derive(Debug, Clone, Copy, PartialEq, Eq, Structural)]
pub struct Applied {
    /// Target frame rate (0 = uncapped).
    pub fps: i32,
    /// V-Sync on.
    pub vsync: bool,
    /// TV region the frame rate was last set for.
    pub region: Region,
    /// Emulation paused (P).
    pub paused: bool,
    /// Audio muted (M).
    pub muted: bool,
}

/// What the frontend observed at the start of a frame.
#[derive(Debug, Clone, Copy, PartialEq, Eq, Structural)]
pub struct FrameInput {
    /// Whether the settings panel was open when the frame began.
    pub panel_visible: bool,
    /// Frame rate chosen in the panel.
    pub requested_fps: i32,
    /// V-Sync chosen in the panel.
    pub requested_vsync: bool,
    /// The emulator's current TV region.
    pub region: Region,
    /// F1 was pressed: toggle the panel.
    pub toggle_panel: bool,
    /// F3 was pressed: open the file picker.
    pub open_picker: bool,
    /// F5 was pressed: soft reset.
    pub reset: bool,
    /// F11 was pressed: toggle fullscreen.
    pub toggle_fullscreen: bool,
    /// P was pressed: pause or resume.
    pub toggle_pause: bool,
    /// M was pressed: mute or unmute.
    pub toggle_mute: bool,
    /// R is held: rewind.
    pub rewind_held: bool,
    /// Tab is held: fast-forward.
    pub fast_forward_held: bool,
}

/// What the frontend is to do this frame.
#[derive(Debug, Clone, Copy, PartialEq, Eq, Structural)]
pub struct FrameActions {
    /// New target frame rate to set (and to show in the panel), if it changed.
    pub set_fps: Option<i32>,
    /// New V-Sync state to set, if it changed.
    pub set_vsync: Option<bool>,
    /// Apply the volume and sprite-limit settings.
    pub apply_settings: bool,
    /// Toggle the settings panel.
    pub toggle_panel: bool,
    /// Open the file picker.
    pub open_picker: bool,
    /// Soft-reset the emulator and drop the rewind history.
    pub reset: bool,
    /// Toggle fullscreen.
    pub toggle_fullscreen: bool,
    /// Run the emulator for the elapsed time times `speed`.
    pub emulate: bool,
    /// How many times the elapsed time to emulate.
    pub speed: u8,
    /// Save a snapshot after the frame.
    pub save_snapshot: bool,
    /// Restore the newest saved snapshot instead of emulating.
    pub rewind: bool,
    /// Play the audio at the set volume (silent otherwise).
    pub audible: bool,
}

/// Fast-forward speed: this many times the elapsed time.
pub const FAST_FORWARD: u8 = 4;

/// Whether the emulator moves this frame: the panel is closed after the
/// toggle and emulation is not paused.
pub open spec fn running(input: FrameInput, paused: bool) -> bool {
    input.panel_visible == input.toggle_panel && !paused
}

/// The decisions of one frame. When the region changed, the target
/// frame rate becomes the region's (60 NTSC, 50 PAL); otherwise, with
/// the panel closed, changed settings are applied. F1 toggles the
/// panel, F3 opens the picker, F5 resets, F11 toggles fullscreen, P
/// toggles the pause and M the mute. While the panel is closed after
/// the toggle and emulation is not paused, holding R rewinds one saved
/// frame; otherwise the emulator runs (four times the elapsed time
/// while Tab is held) and the frame is saved for rewinding. Audio plays
/// unless muted or rewinding.
pub open spec fn plan_spec(applied: Applied, input: FrameInput) -> (Applied, FrameActions) {
    let closed = !input.panel_visible;
    let region_changed = input.region != applied.region;
    let new_fps = region_changed || (closed && input.requested_fps != applied.fps);
    let fps = if region_changed {
        input.region.spec_fps()
    } else {
        input.requested_fps
    };
    let new_vsync = closed && input.requested_vsync != applied.vsync;
    let paused = applied.paused != input.toggle_pause;
    let muted = applied.muted != input.toggle_mute;
    let go = running(input, paused);
    (
        Applied {
            fps: if new_fps { fps } else { applied.fps },
            vsync: if new_vsync { input.requested_vsync } else { applied.vsync },
            region: input.region,
            paused,
            muted,
        },
        FrameActions {
            set_fps: if new_fps { Some(fps) } else { None },
            set_vsync: if new_vsync { Some(input.requested_vsync) } else { None },
            apply_settings: closed,
            toggle_panel: input.toggle_panel,
            open_picker: input.open_picker,
            reset: input.reset,
            toggle_fullscreen: input.toggle_fullscreen,
            emulate: go && !input.rewind_held,
            speed: if input.fast_forward_held { FAST_FORWARD } else { 1 },
            save_snapshot: go && !input.rewind_held,
            rewind: go && input.rewind_held,
            audible: !muted && !(go && input.rewind_held),
        },
    )
}

/// Decides what one frame of the window loop does.
pub fn plan_frame(applied: Applied, input: FrameInput) -> (r: (Applied, FrameActions))
    ensures
        r == plan_spec(applied, input),
{
    let closed = !input.panel_visible;
    let region_changed = input.region != applied.region;
    let mut next = applied;
    let mut set_fps = None;
    let mut set_vsync = None;
    if region_changed {
        let fps = input.region.fps();
        next.fps = fps;
        set_fps = Some(fps);
    } else if closed && input.requested_fps != applied.fps {
        next.fps = input.requested_fps;
        set_fps = Some(input.requested_fps);
    }
    if closed && input.requested_vsync != applied.vsync {
        next.vsync = input.requested_vsync;
        set_vsync = Some(input.requested_vsync);
    }
    next.region = input.region;
    next.paused = applied.paused != input.toggle_pause;
    next.muted = applied.muted != input.toggle_mute;
    let go = input.panel_visible == input.toggle_panel && !next.paused;
    let rewind = go && input.rewind_held;
    (
        next,
        FrameActions {
            set_fps,
            set_vsync,
            apply_settings: closed,
            toggle_panel: input.toggle_panel,
            open_picker: input.open_picker,
            reset: input.reset,
            toggle_fullscreen: input.toggle_fullscreen,
            emulate: go && !input.rewind_held,
            speed: if input.fast_forward_held {
                FAST_FORWARD
            } else {
                1
            },
            save_snapshot: go && !input.rewind_held,
            rewind,
            audible: !next.muted && !rewind,
        },
    )
}

/// Once applied, a setting is not applied again: with the panel closed,
/// planning the next frame with the same requests (the frame rate read
/// back as applied) changes no setting.
pub proof fn lemma_settings_applied_once(applied: Applied, input: FrameInput)
    requires
        !input.panel_visible,
    ensures
        ({
            let (a1, _) = plan_spec(applied, input);
            let (a2, actions) = plan_spec(a1, FrameInput { requested_fps: a1.fps, ..input });
            &&& a2.fps == a1.fps
            &&& a2.vsync == a1.vsync
            &&& a2.region == a1.region
            &&& actions.set_fps is None
            &&& actions.set_vsync is None
        }),
{
}

/// A change of region sets the target frame rate to the region's: 60
/// frames per second on NTSC, 50 on PAL.
pub proof fn lemma_region_sets_frame_rate(applied: Applied, input: FrameInput)
    requires
        input.region != applied.region,
    ensures
        plan_spec(applied, input).0.fps == input.region.spec_fps(),
        plan_spec(applied, input).1.set_fps == Some(input.region.spec_fps()),
        input.region == Region::Ntsc ==> plan_spec(applied, input).0.fps == 60,
        input.region == Region::Pal ==> plan_spec(applied, input).0.fps == 50,
{
}

/// P and M are toggles: pressing one on two frames in a row restores
/// the pause (or mute) state, and a frame without the key keeps it.
pub proof fn lemma_pause_and_mute_toggle(applied: Applied, i1: FrameInput, i2: FrameInput)
    ensures
        ({
            let (a1, _) = plan_spec(applied, i1);
            let (a2, _) = plan_spec(a1, i2);
            &&& (i1.toggle_pause && i2.toggle_pause) ==> a2.paused == applied.paused
            &&& (i1.toggle_mute && i2.toggle_mute) ==> a2.muted == applied.muted
            &&& !i1.toggle_pause ==> a1.paused == applied.paused
            &&& !i1.toggle_mute ==> a1.muted == applied.muted
        }),
{
}

/// A frame never both runs and rewinds the emulator, does neither while
/// the settings panel stays open or emulation is paused, saves a
/// snapshot exactly when it runs forward, and is silent while muted or
/// rewinding.
pub proof fn lemma_one_direction_per_frame(applied: Applied, input: FrameInput)
    ensures
        ({
            let (next, a) = plan_spec(applied, input);
            &&& !(a.emulate && a.rewind)
            &&& (input.panel_visible && !input.toggle_panel) ==> !a.emulate && !a.rewind
            &&& next.paused ==> !a.emulate && !a.rewind
            &&& a.save_snapshot == a.emulate
            &&& a.speed >= 1
            &&& (next.muted || a.rewind) ==> !a.audible
        }),
{
}

} // verus!
