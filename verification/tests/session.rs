use render_harness::events::{
    handle_key_event, process_events, run_session, Key, KeyAction, WindowState,
};
use render_harness::pixel::noise_pixels;
use render_harness::render::RenderState;
use render_harness::texture::TextureError;

#[test]
fn escape_press_marks_the_window_for_closing() {
    let mut w = WindowState::new(600, 600);
    handle_key_event(&mut w, Key::Space, KeyAction::Press);
    assert!(!w.should_close);
    handle_key_event(&mut w, Key::Escape, KeyAction::Release);
    assert!(!w.should_close);
    handle_key_event(&mut w, Key::Escape, KeyAction::Press);
    assert!(w.should_close);
    // The flag latches: later events do not clear it.
    handle_key_event(&mut w, Key::Other, KeyAction::Repeat);
    assert!(w.should_close);
}

#[test]
fn a_batch_without_exit_leaves_the_window_open() {
    let mut w = WindowState::new(600, 600);
    let batch = vec![
        (Key::Space, KeyAction::Press),
        (Key::Escape, KeyAction::Repeat),
        (Key::Other, KeyAction::Release),
    ];
    process_events(&mut w, &batch);
    assert!(!w.should_close);
}

#[test]
fn session_exits_on_injected_escape() {
    let noise = noise_pixels(42, 360000);
    let script = vec![vec![(Key::Escape, KeyAction::Press)]];
    let rep = run_session(&script, &noise).expect("session must run");
    assert!(rep.window.should_close);
    assert_eq!(rep.iterations, 1);
    assert!(rep.device.joined);
    assert_eq!(rep.device.render.state, RenderState::Finished);
}

#[test]
fn session_runs_frames_then_exits() {
    let noise = noise_pixels(43, 360000);
    let script = vec![
        Vec::new(),
        vec![(Key::Space, KeyAction::Press)],
        Vec::new(),
        Vec::new(),
        vec![(Key::Escape, KeyAction::Press)],
    ];
    let rep = run_session(&script, &noise).expect("session must run");
    assert!(rep.window.should_close);
    assert_eq!(rep.iterations, 5);
    assert!(rep.device.joined);
    assert_eq!(rep.device.render.state, RenderState::Finished);
    // Five pumps carry the loop through at least one whole frame.
    assert!(rep.device.render.frames_presented >= 1);
    assert!(rep.device.surface.draw_count >= 1);
}

#[test]
fn session_without_exit_runs_the_whole_script() {
    let noise = noise_pixels(44, 360000);
    let script = vec![Vec::new(), Vec::new(), Vec::new()];
    let rep = run_session(&script, &noise).expect("session must run");
    assert!(!rep.window.should_close);
    assert_eq!(rep.iterations, 3);
    assert!(rep.device.joined);
    assert_eq!(rep.device.render.state, RenderState::Finished);
}

#[test]
fn session_rejects_bad_noise() {
    let noise: Vec<u32> = vec![0; 10];
    let script = vec![vec![(Key::Escape, KeyAction::Press)]];
    assert_eq!(run_session(&script, &noise).err(), Some(TextureError::SizeMismatch));
}
