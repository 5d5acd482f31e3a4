//! The device handle the event thread owns: it pumps the bounded channel,
//! applies consumed frame packets to the output surface, and joins the
//! render loop on close. This sequential model interleaves producer and
//! consumer one step at a time; `app/` deploys the same pieces on two
//! threads.

use vstd::prelude::*;
use crate::channel::{CommandChannel, FramePacket, QUEUE_DEPTH};
use crate::pixel::Color;
use crate::render::{RenderLoop, RenderState, next_render_state, saturating_inc};
use crate::renderer::Command;
use crate::texture::TextureError;

verus! {

/// The abstract content of the output surface: the last clear values, and
/// how many draws have reached it.
#[derive(Clone, Copy, PartialEq, Eq, Structural, Debug)]
pub struct SurfaceState {
    pub color: Color,
    pub depth: u32,
    pub stencil: u8,
    pub draw_count: u64,
}

impl SurfaceState {
    /// The surface before any frame: black and untouched.
    pub fn new() -> (r: SurfaceState)
        ensures
            r == (SurfaceState {
                color: Color { r: 0, g: 0, b: 0, a: 255 },
                depth: 0,
                stencil: 0,
                draw_count: 0,
            }),
    {
        SurfaceState { color: Color { r: 0, g: 0, b: 0, a: 255 }, depth: 0, stencil: 0, draw_count: 0 }
    }
}

/// What one command does to the surface: a clear overwrites exactly the
/// planes its descriptor holds values for, leaving `None` planes untouched;
/// a draw is counted.
pub open spec fn apply_command_spec(s: SurfaceState, c: Command) -> SurfaceState {
    match c {
        Command::Clear(data, _) => SurfaceState {
            color: match data.color { Some(col) => col, None => s.color },
            depth: match data.depth { Some(d) => d, None => s.depth },
            stencil: match data.stencil { Some(st) => st, None => s.stencil },
            draw_count: s.draw_count,
        },
        Command::Draw(_) => SurfaceState { draw_count: saturating_inc(s.draw_count), ..s },
    }
}

/// A packet's commands applied in order.
pub open spec fn apply_commands_spec(s: SurfaceState, cmds: Seq<Command>) -> SurfaceState
    decreases cmds.len(),
{
    if cmds.len() == 0 {
        s
    } else {
        apply_commands_spec(apply_command_spec(s, cmds[0]), cmds.drop_first())
    }
}

/// Appending one command applies it after the rest.
pub proof fn lemma_apply_commands_snoc(s: SurfaceState, cmds: Seq<Command>, c: Command)
    ensures
        apply_commands_spec(s, cmds.push(c)) == apply_command_spec(apply_commands_spec(s, cmds), c),
    decreases cmds.len(),
{
    if cmds.len() == 0 {
        assert(cmds.push(c)[0] == c);
        assert(cmds.push(c).drop_first() =~= Seq::<Command>::empty());
        assert(apply_commands_spec(s, cmds.push(c))
            == apply_commands_spec(apply_command_spec(s, c), Seq::<Command>::empty()));
    } else {
        assert(cmds.push(c)[0] == cmds[0]);
        assert(cmds.push(c).drop_first() =~= cmds.drop_first().push(c));
        assert(apply_commands_spec(s, cmds.push(c))
            == apply_commands_spec(apply_command_spec(s, cmds[0]), cmds.drop_first().push(c)));
        lemma_apply_commands_snoc(apply_command_spec(s, cmds[0]), cmds.drop_first(), c);
        assert(apply_commands_spec(s, cmds)
            == apply_commands_spec(apply_command_spec(s, cmds[0]), cmds.drop_first()));
    }
}

/// Apply one command to the surface.
pub fn apply_command(s: &mut SurfaceState, c: &Command)
    ensures
        *final(s) == apply_command_spec(*old(s), *c),
{
    match c {
        Command::Clear(data, _) => {
            match data.color {
                Some(col) => { s.color = col; },
                None => {},
            }
            match data.depth {
                Some(d) => { s.depth = d; },
                None => {},
            }
            match data.stencil {
                Some(st) => { s.stencil = st; },
                None => {},
            }
        },
        Command::Draw(_) => {
            if s.draw_count < u64::MAX {
                s.draw_count = s.draw_count + 1;
            }
        },
    }
}

/// Apply a whole frame packet to the surface, in command order.
pub fn apply_packet(s: &mut SurfaceState, packet: &FramePacket)
    ensures
        *final(s) == apply_commands_spec(*old(s), packet.commands@),
{
    let mut i: usize = 0;
    while i < packet.commands.len()
        invariant
            i <= packet.commands@.len(),
            *s == apply_commands_spec(*old(s), packet.commands@.subrange(0, i as int)),
        decreases packet.commands@.len() - i,
    {
        apply_command(s, &packet.commands[i]);
        proof {
            assert(packet.commands@.subrange(0, i + 1)
                =~= packet.commands@.subrange(0, i as int).push(packet.commands@[i as int]));
            lemma_apply_commands_snoc(
                *old(s), packet.commands@.subrange(0, i as int), packet.commands@[i as int]);
        }
        i = i + 1;
    }
    proof {
        assert(packet.commands@.subrange(0, packet.commands@.len() as int) =~= packet.commands@);
    }
}

/// The net effect of one whole frame on the surface: the packet the loop
/// presents holds the clear followed by the draw, so applying it leaves the
/// cleared planes at the descriptor's values, the others untouched, and one
/// more draw counted.
pub proof fn lemma_frame_packet_effect(
    s: SurfaceState, data: crate::renderer::ClearData, f: crate::renderer::Frame,
    call: crate::renderer::DrawCall,
)
    ensures
        apply_commands_spec(s, seq![Command::Clear(data, f), Command::Draw(call)])
            == (SurfaceState {
                color: match data.color { Some(col) => col, None => s.color },
                depth: match data.depth { Some(d) => d, None => s.depth },
                stencil: match data.stencil { Some(st) => st, None => s.stencil },
                draw_count: saturating_inc(s.draw_count),
            }),
{
    reveal_with_fuel(apply_commands_spec, 3);
    let cmds = seq![Command::Clear(data, f), Command::Draw(call)];
    let after_clear = apply_command_spec(s, cmds[0]);
    assert(cmds.drop_first() =~= seq![Command::Draw(call)]);
    assert(cmds.drop_first().drop_first() =~= Seq::<Command>::empty());
    assert(apply_commands_spec(s, cmds)
        == apply_commands_spec(after_clear, cmds.drop_first()));
    assert(apply_commands_spec(after_clear, cmds.drop_first())
        == apply_command_spec(after_clear, Command::Draw(call)));
}

/// The channel as it stands after the render loop's step but before the
/// device consumes: a step from `Drawing` with room pushes the frame packet.
pub open spec fn channel_after_step(d: Device) -> Seq<FramePacket> {
    if d.render.state == RenderState::Drawing && d.channel@.len() < QUEUE_DEPTH {
        d.channel@.push(FramePacket { commands: d.render.renderer.commands })
    } else {
        d.channel@
    }
}

/// The device handle: the render loop it spawned, the channel between them,
/// the output surface, and whether the render loop has been joined.
pub struct Device {
    pub render: RenderLoop,
    pub channel: CommandChannel,
    pub surface: SurfaceState,
    pub joined: bool,
}

impl Device {
    /// A device is always past construction and within channel bounds.
    pub open spec fn wf(self) -> bool {
        &&& self.render.wf()
        &&& self.render.state != RenderState::Uninitialized
        &&& self.channel.wf()
    }

    /// Start the render loop: build its scene from the supplied noise and
    /// stand ready to pump frames. Succeeds exactly when the noise holds
    /// one pixel per texel of the surface.
    pub fn spawn(noise: &Vec<u32>) -> (r: Result<Device, TextureError>)
        ensures
            r is Ok <==> noise@.len() == crate::render::SURFACE_PIXELS,
            r is Err ==> r == Err::<Device, TextureError>(TextureError::SizeMismatch),
            match r {
                Ok(d) => {
                    &&& d.wf()
                    &&& !d.joined
                    &&& d.render.state == RenderState::ResourcesBuilt
                    &&& !d.render.renderer.finish_requested
                    &&& d.render.frames_presented == 0
                    &&& d.channel@.len() == 0
                    &&& d.surface.draw_count == 0
                },
                Err(_) => true,
            },
    {
        let mut render = RenderLoop::new();
        match render.start(noise) {
            Ok(()) => Ok(Device {
                render,
                channel: CommandChannel::new(),
                surface: SurfaceState::new(),
                joined: false,
            }),
            Err(e) => Err(e),
        }
    }

    /// One pump of the device, called once per event-loop iteration: let
    /// the render loop take one step, then consume the oldest frame packet,
    /// if any, and apply it to the surface. A joined device does nothing.
    pub fn update(&mut self)
        requires
            old(self).wf(),
        ensures
            final(self).wf(),
            final(self).joined == old(self).joined,
            old(self).joined ==> *final(self) == *old(self),
            !old(self).joined ==> {
                &&& final(self).render.state == next_render_state(
                    old(self).render.state,
                    old(self).render.renderer.finish_requested,
                    old(self).channel@.len() < QUEUE_DEPTH,
                )
                &&& final(self).render.renderer.finish_requested
                    == old(self).render.renderer.finish_requested
                &&& final(self).render.scene == old(self).render.scene
                &&& (if channel_after_step(*old(self)).len() == 0 {
                    final(self).surface == old(self).surface
                        && final(self).channel@ == channel_after_step(*old(self))
                } else {
                    final(self).surface == apply_commands_spec(
                        old(self).surface, channel_after_step(*old(self))[0].commands@)
                        && final(self).channel@ == channel_after_step(*old(self)).drop_first()
                })
            },
    {
        if self.joined {
            return;
        }
        self.render.step(&mut self.channel);
        match self.channel.recv() {
            Some(packet) => {
                apply_packet(&mut self.surface, &packet);
            },
            None => {},
        }
    }

    /// How many steps the render loop still needs, once finish is requested
    /// and the channel is kept drained, to observe the request and stop.
    pub open spec fn steps_remaining(state: RenderState) -> nat {
        match state {
            RenderState::Uninitialized => 0,
            RenderState::Finished => 0,
            RenderState::ResourcesBuilt => 1,
            RenderState::Presenting => 2,
            RenderState::Drawing => 3,
            RenderState::Clearing => 4,
        }
    }

    /// Ask the render loop to finish and join it: drain the channel so the
    /// loop can never stall, step it until it observes the request, and
    /// mark it joined. Calling `close` on a joined device changes nothing,
    /// so a second call is harmless.
    pub fn close(&mut self)
        requires
            old(self).wf(),
        ensures
            final(self).wf(),
            final(self).joined,
            old(self).joined ==> *final(self) == *old(self),
            !old(self).joined ==> final(self).render.state == RenderState::Finished
                && final(self).channel@.len() == 0,
    {
        if self.joined {
            return;
        }
        self.render.renderer.request_finish();
        loop
            invariant
                self.wf(),
                self.render.renderer.finish_requested,
                self.joined == old(self).joined,
            ensures
                self.wf(),
                self.render.state == RenderState::Finished,
                self.channel@.len() == 0,
                self.joined == old(self).joined,
            decreases Device::steps_remaining(self.render.state),
        {
            let ghost render_snap = self.render;
            loop
                invariant
                    self.wf(),
                    self.render == render_snap,
                    self.render.renderer.finish_requested,
                    self.joined == old(self).joined,
                ensures
                    self.wf(),
                    self.render == render_snap,
                    self.channel@.len() == 0,
                decreases self.channel@.len(),
            {
                match self.channel.recv() {
                    Some(packet) => {
                        apply_packet(&mut self.surface, &packet);
                    },
                    None => {
                        break;
                    },
                }
            }
            if matches!(self.render.state, RenderState::Finished) {
                break;
            }
            self.render.step(&mut self.channel);
        }
        self.joined = true;
    }
}

} // verus!
