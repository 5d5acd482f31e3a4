use render_harness::channel::{CommandChannel, FramePacket, SendOutcome, QUEUE_DEPTH};
use render_harness::device::Device;
use render_harness::pixel::{noise_pixels, Color};
use render_harness::render::RenderState;
use render_harness::renderer::{ClearData, Command, DeviceError, Frame, Renderer};
use render_harness::texture::TextureError;

fn clear_packet(tag: u8) -> FramePacket {
    FramePacket {
        commands: vec![Command::Clear(
            ClearData {
                color: Some(Color { r: tag, g: 0, b: 0, a: 255 }),
                depth: None,
                stencil: None,
            },
            Frame { width: 600, height: 600 },
        )],
    }
}

#[test]
fn channel_holds_at_most_two_packets() {
    let mut ch = CommandChannel::new();
    assert!(matches!(ch.send(clear_packet(1)), SendOutcome::Accepted));
    assert!(matches!(ch.send(clear_packet(2)), SendOutcome::Accepted));
    assert_eq!(ch.len(), QUEUE_DEPTH);
    // A full channel hands the packet back instead of dropping it.
    match ch.send(clear_packet(3)) {
        SendOutcome::Full(p) => {
            assert_eq!(p.commands.len(), 1);
            match &p.commands[0] {
                Command::Clear(data, _) => assert_eq!(data.color.unwrap().r, 3),
                Command::Draw(_) => panic!("wrong command came back"),
            }
        }
        SendOutcome::Accepted => panic!("a third packet must not be accepted"),
    }
    assert_eq!(ch.len(), QUEUE_DEPTH);
}

#[test]
fn channel_is_first_in_first_out() {
    let mut ch = CommandChannel::new();
    assert!(matches!(ch.send(clear_packet(1)), SendOutcome::Accepted));
    assert!(matches!(ch.send(clear_packet(2)), SendOutcome::Accepted));
    let first = ch.recv().expect("first packet");
    match &first.commands[0] {
        Command::Clear(data, _) => assert_eq!(data.color.unwrap().r, 1),
        Command::Draw(_) => panic!("wrong command"),
    }
    let second = ch.recv().expect("second packet");
    match &second.commands[0] {
        Command::Clear(data, _) => assert_eq!(data.color.unwrap().r, 2),
        Command::Draw(_) => panic!("wrong command"),
    }
    assert!(ch.recv().is_none());
}

#[test]
fn end_frame_waits_on_a_full_channel() {
    let mut ch = CommandChannel::new();
    assert!(matches!(ch.send(clear_packet(1)), SendOutcome::Accepted));
    assert!(matches!(ch.send(clear_packet(2)), SendOutcome::Accepted));
    let mut r = Renderer::new();
    r.clear(
        ClearData { color: None, depth: None, stencil: None },
        Frame::new(600, 600),
    );
    let outcome = r.end_frame(&mut ch);
    assert_eq!(outcome, render_harness::renderer::EndFrameOutcome::MustWait);
    // Nothing was dropped: the recording is still there for the retry.
    assert_eq!(r.commands.len(), 1);
    assert_eq!(ch.len(), 2);
}

#[test]
fn clear_touches_only_the_planes_it_names() {
    let mut surface = render_harness::device::SurfaceState::new();
    surface.stencil = 9;
    let packet = FramePacket {
        commands: vec![Command::Clear(
            ClearData { color: None, depth: Some(42), stencil: None },
            Frame { width: 600, height: 600 },
        )],
    };
    render_harness::device::apply_packet(&mut surface, &packet);
    // The named plane is cleared; the unnamed ones are left untouched.
    assert_eq!(surface.depth, 42);
    assert_eq!(surface.color, Color { r: 0, g: 0, b: 0, a: 255 });
    assert_eq!(surface.stencil, 9);
    assert_eq!(surface.draw_count, 0);
}

#[test]
fn errors_drain_once() {
    let mut r = Renderer::new();
    r.report_error(DeviceError::OutOfMemory);
    r.report_error(DeviceError::InvalidOperation);
    let drained = r.errors();
    assert_eq!(drained, vec![DeviceError::OutOfMemory, DeviceError::InvalidOperation]);
    assert!(r.errors().is_empty());
}

#[test]
fn device_spawn_rejects_short_noise() {
    let noise: Vec<u32> = vec![0; 100];
    match Device::spawn(&noise) {
        Err(TextureError::SizeMismatch) => {}
        Ok(_) => panic!("spawn must reject noise of the wrong size"),
    }
}

#[test]
fn device_presents_a_frame_after_three_pumps() {
    let noise = noise_pixels(99, 360000);
    let mut d = Device::spawn(&noise).expect("spawn must succeed");
    assert_eq!(d.surface.draw_count, 0);
    d.update(); // loop-top: records the clear
    d.update(); // records the draw
    d.update(); // presents; the device consumes and applies the packet
    assert_eq!(d.surface.color, Color { r: 77, g: 77, b: 77, a: 255 });
    assert_eq!(d.surface.draw_count, 1);
    assert_eq!(d.render.frames_presented, 1);
    d.update(); // drains deferred errors, back to loop-top
    assert_eq!(d.render.errors_seen, 0);
    d.close();
}

#[test]
fn close_is_idempotent_and_joins() {
    let noise = noise_pixels(5, 360000);
    let mut d = Device::spawn(&noise).expect("spawn must succeed");
    d.update();
    d.close();
    assert!(d.joined);
    assert_eq!(d.render.state, RenderState::Finished);
    // A second close changes nothing and must not hang or panic.
    d.close();
    assert!(d.joined);
    assert_eq!(d.render.state, RenderState::Finished);
}

#[test]
fn close_joins_mid_frame() {
    let noise = noise_pixels(6, 360000);
    let mut d = Device::spawn(&noise).expect("spawn must succeed");
    d.update();
    d.update(); // the loop is mid-frame now
    d.close();
    assert!(d.joined);
    assert_eq!(d.render.state, RenderState::Finished);
    assert_eq!(d.channel.len(), 0);
}
