use nes_rs::audio_ring::{Ring, RING_CAP};
use nes_rs::controller::{
    Buttons, BUTTON_A, BUTTON_B, BUTTON_DOWN, BUTTON_LEFT, BUTTON_SELECT, BUTTON_START, BUTTON_UP,
};
use nes_rs::input::{
    gamepad_buttons, panel_buttons, GamepadState, Keyboard, ScaleMode, KEY_ESCAPE, KEY_F1, KEY_X,
    KEY_Z,
};
use nes_rs::region::Region;
use nes_rs::rewind::{History, REWIND_CAPACITY};
use nes_rs::session::{plan_frame, Applied, FrameInput, FAST_FORWARD};
use nes_rs::stub::StubEmulator;

#[test]
fn ring_is_first_in_first_out() {
    let mut ring = Ring::new();
    ring.push(&[1, 2, 3]);
    ring.push(&[4]);
    let mut dst = vec![0i16; 2];
    assert_eq!(ring.pop_into(&mut dst, 0), 2);
    assert_eq!(dst, vec![1, 2]);
    let mut dst = vec![9i16; 2];
    assert_eq!(ring.pop_into(&mut dst, 0), 2);
    assert_eq!(dst, vec![3, 4]);
}

#[test]
fn ring_underrun_fills_the_rest() {
    let mut ring = Ring::new();
    ring.push(&[7, 8]);
    let mut dst = vec![1i16; 5];
    assert_eq!(ring.pop_into(&mut dst, -3), 2);
    assert_eq!(dst, vec![7, 8, -3, -3, -3]);
    let mut dst = vec![1i16; 3];
    assert_eq!(ring.pop_into(&mut dst, 0), 0);
    assert_eq!(dst, vec![0, 0, 0]);
}

#[test]
fn ring_wraps_around_its_slots() {
    let mut ring = Ring::new();
    let filler = vec![5i16; RING_CAP - 1];
    ring.push(&filler);
    let mut sink = vec![0i16; RING_CAP - 1];
    assert_eq!(ring.pop_into(&mut sink, 0), RING_CAP - 1);
    ring.push(&[10, 11, 12]);
    let mut dst = vec![0i16; 3];
    assert_eq!(ring.pop_into(&mut dst, 0), 3);
    assert_eq!(dst, vec![10, 11, 12]);
    assert_eq!(ring.write, RING_CAP + 2);
}

#[test]
fn ring_positions_wrap_around_usize() {
    let mut ring = Ring::new();
    ring.write = usize::MAX;
    ring.read = usize::MAX;
    ring.push(&[1, 2]);
    assert_eq!(ring.write, 1);
    let mut dst = vec![0i16; 2];
    assert_eq!(ring.pop_into(&mut dst, 0), 2);
    assert_eq!(dst, vec![1, 2]);
}

#[test]
fn keyboard_default_bindings() {
    let k = Keyboard::new();
    assert_eq!(k.keys[0], KEY_Z);
    assert_eq!(k.keys[1], KEY_X);
    let mut down = [false; 8];
    down[0] = true;
    down[3] = true;
    down[4] = true;
    assert_eq!(k.poll(down).bits, BUTTON_A | BUTTON_START | BUTTON_UP);
}

#[test]
fn muted_keyboard_reports_nothing() {
    let mut k = Keyboard::new();
    k.visible = true;
    assert_eq!(k.poll([true; 8]).bits, 0);
}

#[test]
fn rebinding_takes_the_next_key_unless_cancelled() {
    let mut k = Keyboard::new();
    k.listen(2);
    k.capture(None);
    assert_eq!(k.listening, Some(2));
    k.capture(Some(65));
    assert_eq!(k.keys[2], 65);
    assert_eq!(k.listening, None);
    k.listen(2);
    k.capture(Some(KEY_ESCAPE));
    assert_eq!(k.keys[2], 65);
    k.listen(2);
    k.capture(Some(KEY_F1));
    assert_eq!(k.keys[2], 65);
    assert_eq!(k.listening, None);
    k.listen(1);
    k.close();
    k.capture(Some(66));
    assert_eq!(k.keys[1], KEY_X);
}

fn idle_pad() -> GamepadState {
    GamepadState {
        face_down: false,
        face_right: false,
        start: false,
        back: false,
        dpad_up: false,
        dpad_down: false,
        dpad_left: false,
        dpad_right: false,
        stick_left: false,
        stick_right: false,
        stick_up: false,
        stick_down: false,
    }
}

#[test]
fn gamepad_layout() {
    let mut g = idle_pad();
    g.face_down = true;
    g.face_right = true;
    g.back = true;
    assert_eq!(gamepad_buttons(true, g).bits, BUTTON_B | BUTTON_A | BUTTON_SELECT);
    let mut g = idle_pad();
    g.stick_left = true;
    g.dpad_down = true;
    assert_eq!(gamepad_buttons(true, g).bits, BUTTON_LEFT | BUTTON_DOWN);
    assert_eq!(gamepad_buttons(false, g).bits, 0);
}

#[test]
fn panel_mutes_both_devices() {
    let k = Buttons::from_bits(BUTTON_A);
    let p = Buttons::from_bits(BUTTON_B);
    assert_eq!(panel_buttons(false, k, p).bits, BUTTON_A | BUTTON_B);
    assert_eq!(panel_buttons(true, k, p).bits, 0);
}

#[test]
fn scale_mode_indices() {
    for m in [ScaleMode::Centered, ScaleMode::AspectFit, ScaleMode::Stretch] {
        assert_eq!(ScaleMode::from_index(m.to_index()), m);
    }
    assert_eq!(ScaleMode::AspectFit.to_index(), 1);
    assert_eq!(ScaleMode::from_index(7), ScaleMode::Stretch);
    assert_eq!(ScaleMode::from_index(-1), ScaleMode::Stretch);
}

fn pixel(stub: &StubEmulator, x: usize, y: usize) -> [u8; 4] {
    let b = stub.framebuffer().as_bytes();
    let o = (y * 256 + x) * 4;
    [b[o], b[o + 1], b[o + 2], b[o + 3]]
}

#[test]
fn stub_draws_scrolling_color_bars() {
    let mut stub = StubEmulator::new();
    stub.update();
    assert_eq!(stub.frame_count, 1);
    assert_eq!(pixel(&stub, 0, 0), [255, 255, 255, 255]);
    assert_eq!(pixel(&stub, 32, 0), [255, 255, 0, 255]);
    assert_eq!(pixel(&stub, 255, 0), [0, 0, 0, 255]);
    // Middle third at 192/255, bottom third at 128/255.
    assert_eq!(pixel(&stub, 64, 100), [0, 192, 192, 255]);
    assert_eq!(pixel(&stub, 160, 239), [128, 0, 0, 255]);
    // The next frame shifts the bars one pixel.
    stub.update();
    assert_eq!(pixel(&stub, 31, 0), [255, 255, 0, 255]);
}

#[test]
fn stub_frame_counter_wraps() {
    let mut stub = StubEmulator::new();
    stub.frame_count = u32::MAX;
    stub.update();
    assert_eq!(stub.frame_count, 0);
}

fn applied_ntsc() -> Applied {
    Applied { fps: 60, vsync: true, region: Region::Ntsc, paused: false, muted: false }
}

fn quiet_input() -> FrameInput {
    FrameInput {
        panel_visible: false,
        requested_fps: 60,
        requested_vsync: true,
        region: Region::Ntsc,
        toggle_panel: false,
        open_picker: false,
        reset: false,
        toggle_fullscreen: false,
        toggle_pause: false,
        toggle_mute: false,
        rewind_held: false,
        fast_forward_held: false,
    }
}

#[test]
fn frame_plan_applies_changed_settings_once() {
    let applied = applied_ntsc();
    let input = FrameInput { requested_fps: 30, ..quiet_input() };
    let (a1, actions) = plan_frame(applied, input);
    assert_eq!(actions.set_fps, Some(30));
    assert_eq!(actions.set_vsync, None);
    assert!(actions.apply_settings);
    assert!(actions.emulate);
    assert!(actions.audible);
    let (a2, again) = plan_frame(a1, input);
    assert_eq!(a2, a1);
    assert_eq!(again.set_fps, None);
}

#[test]
fn frame_plan_pauses_while_the_panel_is_open() {
    let applied = applied_ntsc();
    let open = FrameInput {
        panel_visible: true,
        requested_fps: 0,
        requested_vsync: false,
        open_picker: true,
        ..quiet_input()
    };
    let (a1, actions) = plan_frame(applied, open);
    assert_eq!(a1, applied);
    assert!(!actions.apply_settings);
    assert!(!actions.emulate);
    assert!(actions.open_picker);
    // Pressing F1 while open closes the panel and emulation resumes.
    let closing = FrameInput { toggle_panel: true, ..open };
    assert!(plan_frame(applied, closing).1.emulate);
    // Pressing F1 while closed opens it and pauses at once.
    let opening = FrameInput { panel_visible: false, toggle_panel: true, ..open };
    assert!(!plan_frame(applied, opening).1.emulate);
}

#[test]
fn frame_plan_rewinds_or_fast_forwards() {
    let applied = applied_ntsc();
    let base = quiet_input();
    let normal = plan_frame(applied, base).1;
    assert!(normal.emulate && normal.save_snapshot && !normal.rewind);
    assert_eq!(normal.speed, 1);
    let fast = plan_frame(applied, FrameInput { fast_forward_held: true, ..base }).1;
    assert_eq!(fast.speed, FAST_FORWARD);
    assert_eq!(FAST_FORWARD, 4);
    let back = plan_frame(applied, FrameInput { rewind_held: true, ..base }).1;
    assert!(back.rewind && !back.emulate && !back.save_snapshot);
    assert!(!back.audible);
}

#[test]
fn frame_plan_pause_key_stops_and_resumes() {
    let applied = applied_ntsc();
    let press = FrameInput { toggle_pause: true, ..quiet_input() };
    let (paused, actions) = plan_frame(applied, press);
    assert!(paused.paused);
    assert!(!actions.emulate && !actions.rewind && !actions.save_snapshot);
    let (still, held) = plan_frame(paused, FrameInput { rewind_held: true, ..quiet_input() });
    assert!(still.paused);
    assert!(!held.rewind && !held.emulate);
    let (resumed, actions) = plan_frame(still, press);
    assert!(!resumed.paused);
    assert!(actions.emulate);
}

#[test]
fn frame_plan_mute_key_silences_audio() {
    let applied = applied_ntsc();
    let press = FrameInput { toggle_mute: true, ..quiet_input() };
    let (muted, actions) = plan_frame(applied, press);
    assert!(muted.muted);
    assert!(!actions.audible);
    assert!(actions.emulate);
    let (unmuted, actions) = plan_frame(muted, press);
    assert!(!unmuted.muted);
    assert!(actions.audible);
}

#[test]
fn frame_plan_passes_on_reset_and_fullscreen() {
    let applied = applied_ntsc();
    let keys = FrameInput { reset: true, toggle_fullscreen: true, ..quiet_input() };
    let actions = plan_frame(applied, keys).1;
    assert!(actions.reset);
    assert!(actions.toggle_fullscreen);
    let quiet = plan_frame(applied, quiet_input()).1;
    assert!(!quiet.reset && !quiet.toggle_fullscreen);
}

#[test]
fn frame_plan_follows_the_region_frame_rate() {
    let applied = applied_ntsc();
    let (pal, actions) = plan_frame(applied, FrameInput { region: Region::Pal, ..quiet_input() });
    assert_eq!(actions.set_fps, Some(50));
    assert_eq!(pal.fps, 50);
    assert_eq!(pal.region, Region::Pal);
    let (again, actions) =
        plan_frame(pal, FrameInput { region: Region::Pal, requested_fps: 50, ..quiet_input() });
    assert_eq!(actions.set_fps, None);
    assert_eq!(again.fps, 50);
    let (ntsc, actions) = plan_frame(again, FrameInput { requested_fps: 50, ..quiet_input() });
    assert_eq!(actions.set_fps, Some(60));
    assert_eq!(ntsc.fps, 60);
}

#[test]
fn history_keeps_the_newest_and_pops_newest_first() {
    let mut h: History<u32> = History::new(3);
    for i in 1..=5 {
        h.push(i);
    }
    assert_eq!(h.len(), 3);
    assert_eq!(h.pop(), Some(5));
    assert_eq!(h.pop(), Some(4));
    assert_eq!(h.pop(), Some(3));
    assert_eq!(h.pop(), None);
    let mut none: History<u32> = History::new(0);
    none.push(1);
    assert_eq!(none.len(), 0);
    assert_eq!(REWIND_CAPACITY, 600);
}
