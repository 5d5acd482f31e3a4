//! The event-thread side: window state, key events, and the session driver
//! that pumps the device once per iteration until the window closes, then
//! joins the render loop.

use vstd::prelude::*;
use crate::device::Device;
use crate::render::{RenderState, SURFACE_SIZE};
use crate::texture::TextureError;

verus! {

/// The keys the harness distinguishes; everything else is `Other`.
#[derive(Clone, Copy, PartialEq, Eq, Structural, Debug)]
pub enum Key {
    Escape,
    Space,
    Other,
}

/// What happened to a key.
#[derive(Clone, Copy, PartialEq, Eq, Structural, Debug)]
pub enum KeyAction {
    Press,
    Release,
    Repeat,
}

/// The window as the event loop sees it: its size and its close flag.
#[derive(Clone, Copy, PartialEq, Eq, Structural, Debug)]
pub struct WindowState {
    pub width: u16,
    pub height: u16,
    pub should_close: bool,
}

impl WindowState {
    /// A freshly opened window; the close flag starts unset.
    pub fn new(width: u16, height: u16) -> (r: WindowState)
        ensures
            r.width == width,
            r.height == height,
            !r.should_close,
    {
        WindowState { width, height, should_close: false }
    }
}

/// An event requests exit exactly when it is a press of the escape key.
pub open spec fn is_exit_event(e: (Key, KeyAction)) -> bool {
    e.0 == Key::Escape && e.1 == KeyAction::Press
}

/// Some event in the batch requests exit.
pub open spec fn batch_has_exit(events: Seq<(Key, KeyAction)>) -> bool {
    exists|i: int| 0 <= i < events.len() && is_exit_event(#[trigger] events[i])
}

/// React to one key event: a press of the escape key marks the window for
/// closing; every other event leaves it alone.
pub fn handle_key_event(w: &mut WindowState, key: Key, action: KeyAction)
    ensures
        final(w).should_close == (old(w).should_close || is_exit_event((key, action))),
        final(w).width == old(w).width,
        final(w).height == old(w).height,
{
    match (key, action) {
        (Key::Escape, KeyAction::Press) => {
            w.should_close = true;
        },
        _ => {},
    }
}

/// React to one polled batch of key events: the window ends marked for
/// closing exactly when it already was or the batch holds an exit event.
pub fn process_events(w: &mut WindowState, events: &Vec<(Key, KeyAction)>)
    ensures
        final(w).should_close == (old(w).should_close || batch_has_exit(events@)),
        final(w).width == old(w).width,
        final(w).height == old(w).height,
{
    let mut i: usize = 0;
    while i < events.len()
        invariant
            i <= events@.len(),
            w.width == old(w).width,
            w.height == old(w).height,
            w.should_close == (old(w).should_close
                || exists|j: int| 0 <= j < i && is_exit_event(#[trigger] events@[j])),
        decreases events@.len() - i,
    {
        let (key, action) = events[i];
        handle_key_event(w, key, action);
        i = i + 1;
    }
}

/// What a finished session leaves behind: the window, the joined device,
/// and how many event batches the loop processed.
pub struct SessionReport {
    pub window: WindowState,
    pub device: Device,
    pub iterations: usize,
}

/// Run a whole session against a scripted event stream: spawn the device,
/// then once per iteration poll one batch of events and pump the device,
/// until the window is marked for closing or the script runs out; finally
/// close the device, joining the render loop. The window ends marked for
/// closing exactly when some processed batch held an exit event, and the
/// loop stops at the first such batch.
pub fn run_session(script: &Vec<Vec<(Key, KeyAction)>>, noise: &Vec<u32>) -> (r: Result<
    SessionReport,
    TextureError,
>)
    ensures
        r is Ok <==> noise@.len() == crate::render::SURFACE_PIXELS,
        match r {
            Ok(rep) => {
                &&& rep.device.joined
                &&& rep.device.render.state == RenderState::Finished
                &&& rep.iterations <= script@.len()
                &&& rep.window.should_close ==> rep.iterations >= 1
                    && batch_has_exit(script@[rep.iterations - 1]@)
                &&& !rep.window.should_close ==> rep.iterations == script@.len()
                &&& forall|j: int| 0 <= j < rep.iterations - 1
                    ==> !batch_has_exit(#[trigger] script@[j]@)
            },
            Err(e) => e == TextureError::SizeMismatch,
        },
{
    let mut device = match Device::spawn(noise) {
        Ok(d) => d,
        Err(e) => {
            return Err(e);
        },
    };
    let mut window = WindowState::new(SURFACE_SIZE, SURFACE_SIZE);
    let mut i: usize = 0;
    while !window.should_close && i < script.len()
        invariant
            i <= script@.len(),
            device.wf(),
            !device.joined,
            window.should_close ==> i >= 1 && batch_has_exit(script@[i - 1]@),
            forall|j: int| 0 <= j < i - 1 ==> !batch_has_exit(#[trigger] script@[j]@),
            !window.should_close ==> forall|j: int| 0 <= j < i
                ==> !batch_has_exit(#[trigger] script@[j]@),
        decreases script@.len() - i,
    {
        process_events(&mut window, &script[i]);
        device.update();
        i = i + 1;
    }
    device.close();
    Ok(SessionReport { window, device, iterations: i })
}

} // verus!
