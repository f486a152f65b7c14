//! What the frame loop decides: what an event does to the context and
//! what the game is told of it, and how a frame goes on after its update.

use vstd::prelude::*;

use crate::common::Float64;
use crate::framework::backend_sdl2::keys::{conv_scancode, engine_key};
use crate::framework::context::Context;
use crate::framework::keyboard::ScanCode;

verus! {

/// What the platform reports about the window.
#[derive(Debug, Clone, Copy, PartialEq, Eq, Structural)]
pub enum WindowEvent {
    Shown,
    Hidden,
    /// The window now has this width and height.
    SizeChanged(i32, i32),
    Other,
}

/// What the platform reports, as far as the backend reads it. A key comes
/// with its platform scancode, where the platform knows one.
#[derive(Debug, Clone, Copy, PartialEq, Eq, Structural)]
pub enum Event {
    Quit,
    Window(WindowEvent),
    KeyDown { scancode: Option<i32>, repeat: bool },
    KeyUp { scancode: Option<i32> },
    Other,
}

/// What the game is to be told after an event.
#[derive(Debug, Clone, Copy, PartialEq, Eq, Structural)]
pub enum EventAction {
    Nothing,
    /// The game is asked to shut down.
    Shutdown,
    /// The UI and the game are told the new size of the screen.
    Resize { width: u32, height: u32 },
    /// The game is told that a key went down.
    KeyDown { key: ScanCode, repeat: bool },
}

/// A width or height of the window as the context holds it: at least 1.
pub open spec fn screen_extent(extent: int) -> int {
    if extent >= 1 {
        extent
    } else {
        1
    }
}

/// The size of the screen after an event: only a change of the window's
/// size changes it.
pub open spec fn screen_size_after(screen_size: (u32, u32), event: Event) -> (u32, u32) {
    match event {
        Event::Window(WindowEvent::SizeChanged(width, height)) => (
            screen_extent(width as int) as u32,
            screen_extent(height as int) as u32,
        ),
        _ => screen_size,
    }
}

/// The key that an event says went down, if the engine knows it.
pub open spec fn key_down(event: Event) -> Option<ScanCode> {
    match event {
        Event::KeyDown { scancode: Some(code), repeat } => engine_key(code as int),
        _ => None,
    }
}

/// The key that an event says came up, if the engine knows it.
pub open spec fn key_up(event: Event) -> Option<ScanCode> {
    match event {
        Event::KeyUp { scancode: Some(code) } => engine_key(code as int),
        _ => None,
    }
}

/// The keys held down after an event.
pub open spec fn pressed_after(pressed: Set<ScanCode>, event: Event) -> Set<ScanCode> {
    match key_down(event) {
        Some(key) => pressed.insert(key),
        None => match key_up(event) {
            Some(key) => pressed.remove(key),
            None => pressed,
        },
    }
}

/// What the game is told after an event. A key that comes up is recorded
/// and not told.
pub open spec fn action_after(event: Event) -> EventAction {
    match event {
        Event::Quit => EventAction::Shutdown,
        Event::Window(WindowEvent::SizeChanged(width, height)) => EventAction::Resize {
            width: screen_extent(width as int) as u32,
            height: screen_extent(height as int) as u32,
        },
        Event::KeyDown { scancode: Some(code), repeat } => match engine_key(code as int) {
            Some(key) => EventAction::KeyDown { key, repeat },
            None => EventAction::Nothing,
        },
        _ => EventAction::Nothing,
    }
}

/// Takes in one event: brings the context up to date and says what the
/// game is to be told.
pub fn handle_event(ctx: &mut Context, event: Event) -> (action: EventAction)
    ensures
        final(ctx).screen_size == screen_size_after(old(ctx).screen_size, event),
        final(ctx).keyboard_context@ == pressed_after(old(ctx).keyboard_context@, event),
        action == action_after(event),
{
    match event {
        Event::Quit => EventAction::Shutdown,
        Event::Window(win_event) => match win_event {
            WindowEvent::Shown => EventAction::Nothing,
            WindowEvent::Hidden => EventAction::Nothing,
            WindowEvent::SizeChanged(width, height) => {
                let width: u32 = if width >= 1 {
                    width as u32
                } else {
                    1
                };
                let height: u32 = if height >= 1 {
                    height as u32
                } else {
                    1
                };
                ctx.screen_size = (width, height);
                EventAction::Resize { width, height }
            },
            WindowEvent::Other => EventAction::Nothing,
        },
        Event::KeyDown { scancode, repeat } => {
            if let Some(code) = scancode {
                if let Some(key) = conv_scancode(code) {
                    ctx.keyboard_context.set_key(key, true);
                    return EventAction::KeyDown { key, repeat };
                }
            }
            EventAction::Nothing
        },
        Event::KeyUp { scancode } => {
            if let Some(code) = scancode {
                if let Some(key) = conv_scancode(code) {
                    ctx.keyboard_context.set_key(key, false);
                }
            }
            EventAction::Nothing
        },
        Event::Other => EventAction::Nothing,
    }
}

/// Takes in the size that the window has when the loop starts, as an
/// event that changes the size would.
pub fn start_run(ctx: &mut Context, width: u32, height: u32) -> (action: EventAction)
    ensures
        final(ctx).screen_size == (
            screen_extent(width as int) as u32,
            screen_extent(height as int) as u32,
        ),
        final(ctx).keyboard_context@ == old(ctx).keyboard_context@,
        action == (EventAction::Resize {
            width: final(ctx).screen_size.0,
            height: final(ctx).screen_size.1,
        }),
{
    let width: u32 = if width >= 1 {
        width
    } else {
        1
    };
    let height: u32 = if height >= 1 {
        height
    } else {
        1
    };
    ctx.screen_size = (width, height);
    EventAction::Resize { width, height }
}

/// After an event that changes the size of the window, the context holds
/// the new size with each extent raised to at least 1, the UI is told that
/// same size, and the keys are as they were.
pub proof fn lemma_resize(screen_size: (u32, u32), pressed: Set<ScanCode>, width: i32, height: i32)
    ensures
        ({
            let event = Event::Window(WindowEvent::SizeChanged(width, height));
            let after = screen_size_after(screen_size, event);
            &&& after.0 == if width >= 1 {
                width as int
            } else {
                1
            }
            &&& after.1 == if height >= 1 {
                height as int
            } else {
                1
            }
            &&& action_after(event) == (EventAction::Resize { width: after.0, height: after.1 })
            &&& pressed_after(pressed, event) == pressed
        }),
{
}

/// No event leaves the screen without width or height, once it has both.
pub proof fn lemma_screen_never_empty(screen_size: (u32, u32), event: Event)
    requires
        screen_size.0 >= 1,
        screen_size.1 >= 1,
    ensures
        screen_size_after(screen_size, event).0 >= 1,
        screen_size_after(screen_size, event).1 >= 1,
{
}

/// What of the game the frame loop reads and writes between update and
/// draw. `S` is the game's scene.
pub struct SceneSlots<S> {
    /// The scene that is played.
    pub scene: Option<S>,
    /// The scene to play from the next frame on, if the game asked for one.
    pub next_scene: Option<S>,
    /// How many updates the frame has been given.
    pub loops: u64,
    /// How long the scene has run.
    pub frame_time: Float64,
    /// Whether the game was asked to shut down.
    pub shutdown: bool,
}

/// How a frame goes on after the update.
#[derive(Debug, Clone, Copy, PartialEq, Eq, Structural)]
pub enum FrameStep {
    /// The loop ends; nothing is drawn.
    Exit,
    /// A new scene was put in: it is initialised, then the frame is drawn.
    InitScene,
    /// The frame is drawn.
    Draw,
}

/// The slots after the update of a frame: a scene that waits is swapped
/// in and the counters start again, unless the game shuts down.
pub open spec fn slots_after_update<S>(slots: SceneSlots<S>) -> SceneSlots<S> {
    if !slots.shutdown && slots.next_scene is Some {
        SceneSlots {
            scene: slots.next_scene,
            next_scene: None,
            loops: 0,
            frame_time: Float64::zero(),
            shutdown: slots.shutdown,
        }
    } else {
        slots
    }
}

/// How the frame goes on after its update.
pub open spec fn step_after_update<S>(slots: SceneSlots<S>) -> FrameStep {
    if slots.shutdown {
        FrameStep::Exit
    } else if slots.next_scene is Some {
        FrameStep::InitScene
    } else {
        FrameStep::Draw
    }
}

/// Decides how a frame goes on after its update. A game that was asked to
/// shut down ends the loop. Else a scene that waits is swapped in, with the
/// count of updates and the scene's time set back to zero.
pub fn finish_update<S>(slots: &mut SceneSlots<S>) -> (step: FrameStep)
    ensures
        *final(slots) == slots_after_update(*old(slots)),
        step == step_after_update(*old(slots)),
{
    if slots.shutdown {
        return FrameStep::Exit;
    }
    if slots.next_scene.is_some() {
        slots.scene = slots.next_scene.take();
        slots.loops = 0;
        slots.frame_time = Float64::zero();
        return FrameStep::InitScene;
    }
    FrameStep::Draw
}

/// A scene is swapped in once: right after a swap no scene waits, so the
/// next frame is drawn without another swap.
pub proof fn lemma_scene_swapped_once<S>(slots: SceneSlots<S>)
    requires
        !slots.shutdown,
        slots.next_scene is Some,
    ensures
        step_after_update(slots) == FrameStep::InitScene,
        slots_after_update(slots).scene == slots.next_scene,
        slots_after_update(slots).next_scene is None,
        slots_after_update(slots).loops == 0,
        slots_after_update(slots).frame_time == Float64::zero(),
        step_after_update(slots_after_update(slots)) == FrameStep::Draw,
        slots_after_update(slots_after_update(slots)) == slots_after_update(slots),
{
}

} // verus!
