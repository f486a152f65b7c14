//! The backend over a 2D hardware-accelerated graphics library: the
//! session with the platform, the event loop, the renderer and its
//! textures.
//!
//! The library decides and plans; the handles of the graphics library stay
//! opaque to it, and the shell that owns them carries the plans out.

pub mod draw_list;
pub mod events;
pub mod keys;
pub mod pixels;
pub mod texture;

use std::collections::HashMap;
use vstd::prelude::*;

use crate::common::Color;
use crate::framework::backend::SpriteBatchCommand;
use crate::framework::backend_sdl2::draw_list::{
    command_ops, data_ops, list_ops, render_elements, size_of, RenderOp,
};
use crate::framework::backend_sdl2::texture::SDL2Texture;
use crate::framework::error::{driver_result, DriverCall, GameError, GameResult};
use crate::framework::graphics::BlendMode;
use crate::framework::ui::{DrawCmd, DrawData, DrawList};

verus! {

/// How the window is opened.
pub struct WindowSettings {
    pub title: String,
    pub width: u32,
    pub height: u32,
    pub centered: bool,
    pub resizable: bool,
    /// The presenter draws with the graphics hardware.
    pub accelerated: bool,
    /// The presenter waits for the vertical blank.
    pub vsync: bool,
    /// The hint that asks for a render driver, and the driver asked for.
    pub driver_hint: (String, String),
}

/// The session with the platform. `S` is the graphics library's handle.
pub struct SDL2Backend<S> {
    pub context: S,
}

impl<S> SDL2Backend<S> {
    /// The backend over a session that the platform opened, or the
    /// window error that says why it did not.
    pub fn new(session: Result<S, String>) -> (backend: GameResult<SDL2Backend<S>>)
        ensures
            backend == match session {
                Ok(context) => Ok::<SDL2Backend<S>, GameError>(SDL2Backend { context }),
                Err(message) => Err(GameError::WindowError(message)),
            },
    {
        match driver_result(DriverCall::PlatformInit, session) {
            Ok(context) => Ok(SDL2Backend { context }),
            Err(error) => Err(error),
        }
    }
}

/// The window's event pump with the drawing context. `P` is the graphics
/// library's pump, `R` the shell's handle to the context it shares out.
pub struct SDL2EventLoop<P, R> {
    pub event_pump: P,
    pub refs: R,
}

impl<P, R> SDL2EventLoop<P, R> {
    /// The event loop over a pump and a drawing context that were opened.
    pub fn new(event_pump: P, refs: R) -> (event_loop: SDL2EventLoop<P, R>)
        ensures
            event_loop.event_pump == event_pump,
            event_loop.refs == refs,
    {
        SDL2EventLoop { event_pump, refs }
    }

    /// How the game's window is opened: 640 by 480, centred, resizable,
    /// drawn with the graphics hardware in step with the display, over the
    /// driver for OpenGL ES 2 where there is one.
    pub fn window_settings() -> (settings: WindowSettings)
        ensures
            settings.title@ == "Cave Story (doukutsu-rs)"@,
            settings.width == 640,
            settings.height == 480,
            settings.centered,
            settings.resizable,
            settings.accelerated,
            settings.vsync,
            settings.driver_hint.0@ == "SDL_HINT_RENDER_DRIVER"@,
            settings.driver_hint.1@ == "opengles2"@,
    {
        WindowSettings {
            title: "Cave Story (doukutsu-rs)".to_owned(),
            width: 640,
            height: 480,
            centered: true,
            resizable: true,
            accelerated: true,
            vsync: true,
            driver_hint: ("SDL_HINT_RENDER_DRIVER".to_owned(), "opengles2".to_owned()),
        }
    }
}

/// The blend modes of the graphics library.
#[derive(Debug, Clone, Copy, PartialEq, Eq, Hash, Structural)]
pub enum NativeBlendMode {
    /// The source replaces the target: no blending.
    Replace,
    /// The source covers the target in proportion to its alpha.
    Blend,
    /// The source is added to the target.
    Add,
    /// The target is multiplied by the source.
    Mod,
}

/// The blend mode of the graphics library that does what `blend` asks for.
pub open spec fn spec_native_blend_mode(blend: BlendMode) -> NativeBlendMode {
    match blend {
        BlendMode::Add => NativeBlendMode::Add,
        BlendMode::Alpha => NativeBlendMode::Blend,
        BlendMode::Multiply => NativeBlendMode::Mod,
    }
}

#[verifier::when_used_as_spec(spec_native_blend_mode)]
pub fn native_blend_mode(blend: BlendMode) -> (native: NativeBlendMode)
    ensures
        native == spec_native_blend_mode(blend),
{
    match blend {
        BlendMode::Add => NativeBlendMode::Add,
        BlendMode::Alpha => NativeBlendMode::Blend,
        BlendMode::Multiply => NativeBlendMode::Mod,
    }
}

/// Each blend mode has a native mode of its own: no two share one, and
/// none maps to the mode that does not blend.
pub proof fn lemma_blend_modes_distinct(a: BlendMode, b: BlendMode)
    ensures
        native_blend_mode(a) == native_blend_mode(b) ==> a == b,
        native_blend_mode(a) != NativeBlendMode::Replace,
{
}

/// The colour as the graphics library takes it: red, green, blue, alpha.
pub fn to_sdl(color: Color) -> (native: (u8, u8, u8, u8))
    ensures
        native == (color.r, color.g, color.b, color.a),
{
    color.to_rgba()
}

/// What the event loop, the renderer and every texture draw with: the
/// canvas, the maker of textures, and the blend mode of the draws to come.
/// The first two belong to the graphics library and are only held here.
pub struct SDL2Context<C, T> {
    pub canvas: C,
    pub texture_creator: T,
    pub blend_mode: NativeBlendMode,
}

impl<C, T> SDL2Context<C, T> {
    /// A context that blends by alpha.
    pub fn new(canvas: C, texture_creator: T) -> (refs: SDL2Context<C, T>)
        ensures
            refs.canvas == canvas,
            refs.texture_creator == texture_creator,
            refs.blend_mode == NativeBlendMode::Blend,
    {
        SDL2Context { canvas, texture_creator, blend_mode: NativeBlendMode::Blend }
    }
}

/// The renderer's own state: the textures that the UI draws from, by the
/// id under which the UI knows them.
pub struct SDL2Renderer<H> {
    pub imgui_textures: HashMap<usize, SDL2Texture<H>>,
}

impl<H> SDL2Renderer<H> {
    /// Width and height of each registered texture.
    pub open spec fn texture_sizes(&self) -> Map<usize, (u16, u16)> {
        self.imgui_textures@.map_values(|texture: SDL2Texture<H>| texture.spec_dimensions())
    }

    /// A renderer that knows one texture, the UI's font atlas. The
    /// atlas's width and height are cut to 16 bits.
    pub fn new(
        font_texture_id: usize,
        font_texture: H,
        font_width: u32,
        font_height: u32,
    ) -> (renderer: SDL2Renderer<H>)
        ensures
            renderer.imgui_textures@.dom() == set![font_texture_id],
            renderer.imgui_textures@[font_texture_id].spec_texture() == Some(font_texture),
            renderer.imgui_textures@[font_texture_id].spec_dimensions() == (
                (font_width % 0x1_0000) as u16,
                (font_height % 0x1_0000) as u16,
            ),
            renderer.imgui_textures@[font_texture_id].spec_commands()
                == Seq::<SpriteBatchCommand>::empty(),
    {
        broadcast use vstd::std_specs::hash::group_hash_axioms;

        let mut imgui_textures: HashMap<usize, SDL2Texture<H>> = HashMap::new();
        let texture = SDL2Texture::new(
            font_texture,
            (font_width % 0x1_0000) as u16,
            (font_height % 0x1_0000) as u16,
        );
        imgui_textures.insert(font_texture_id, texture);
        assert(imgui_textures@.dom() =~= set![font_texture_id]);
        SDL2Renderer { imgui_textures }
    }

    /// Sets the blend mode of the draws to come.
    pub fn set_blend_mode<C, T>(
        &mut self,
        refs: &mut SDL2Context<C, T>,
        blend: BlendMode,
    ) -> (done: GameResult)
        ensures
            done is Ok,
            final(refs).blend_mode == native_blend_mode(blend),
            final(refs).canvas == old(refs).canvas,
            final(refs).texture_creator == old(refs).texture_creator,
            final(self).imgui_textures == old(self).imgui_textures,
    {
        refs.blend_mode = native_blend_mode(blend);
        Ok(())
    }

    /// The native texture that draws go to when `texture` is made the
    /// render target: its own, or `None` for the window, which is also the
    /// target where no texture is named or the named one was released.
    pub fn set_render_target<'a>(
        &mut self,
        texture: Option<&'a SDL2Texture<H>>,
    ) -> (target: Option<&'a H>)
        ensures
            target == match texture {
                Some(named) => match named.spec_texture() {
                    Some(handle) => Some(&handle),
                    None => None,
                },
                None => None,
            },
            final(self).imgui_textures == old(self).imgui_textures,
    {
        match texture {
            Some(named) => named.texture(),
            None => None,
        }
    }

    /// Width and height of the texture registered as `id`.
    fn registered_size(&self, id: usize) -> (size: Option<(u16, u16)>)
        ensures
            size == size_of(self.texture_sizes(), id),
    {
        broadcast use vstd::std_specs::hash::group_hash_axioms;

        match self.imgui_textures.get(&id) {
            Some(texture) => Some(texture.dimensions()),
            None => None,
        }
    }

    /// Draws one draw list: appends to `ops` what `list_ops` says.
    fn render_list(&self, list: &DrawList, l: usize, ops: &mut Vec<RenderOp>)
        requires
            list.wf(),
        ensures
            final(ops)@ == old(ops)@ + list_ops(
                list,
                self.texture_sizes(),
                l as int,
                list.commands@.len() as int,
            ),
    {
        let ghost sizes = self.texture_sizes();
        let mut c: usize = 0;
        assert(ops@ + list_ops(list, sizes, l as int, 0) =~= ops@);
        while c < list.commands.len()
            invariant
                list.wf(),
                sizes == self.texture_sizes(),
                c <= list.commands@.len(),
                ops@ == old(ops)@ + list_ops(list, sizes, l as int, c as int),
            decreases list.commands.len() - c,
        {
            let ghost before = ops@;
            match &list.commands[c] {
                DrawCmd::Elements { count, cmd_params } => {
                    let size = self.registered_size(cmd_params.texture_id);
                    assert(list.command_in_range(list.commands@[c as int]));
                    render_elements(list, *count, cmd_params, size, ops);
                },
                DrawCmd::ResetRenderState => {},
                DrawCmd::RawCallback => {
                    ops.push(RenderOp::RawCallback { draw_list: l, command: c });
                },
            }
            proof {
                let done = list_ops(list, sizes, l as int, c as int);
                let drawn = command_ops(list, sizes, l as int, c as int);
                assert(ops@ =~= before + drawn);
                assert((old(ops)@ + done) + drawn =~= old(ops)@ + (done + drawn));
            }
            c += 1;
        }
    }

    /// Turns the UI's draw data for a frame into what the canvas is to do,
    /// in order. Each run of triangles is clipped; two triangles that make
    /// up an axis-aligned rectangle become one copy from the run's
    /// texture, any other triangle is filled with the colour of its first
    /// vertex, and a run whose texture is not registered draws nothing.
    pub fn render_imgui(&self, draw_data: &DrawData) -> (ops: Vec<RenderOp>)
        requires
            draw_data.wf(),
        ensures
            ops@ == data_ops(draw_data, self.texture_sizes(), draw_data.draw_lists@.len() as int),
    {
        let ghost sizes = self.texture_sizes();
        let mut ops: Vec<RenderOp> = Vec::new();
        let mut l: usize = 0;
        while l < draw_data.draw_lists.len()
            invariant
                draw_data.wf(),
                sizes == self.texture_sizes(),
                l <= draw_data.draw_lists@.len(),
                ops@ == data_ops(draw_data, sizes, l as int),
            decreases draw_data.draw_lists.len() - l,
        {
            self.render_list(&draw_data.draw_lists[l], l, &mut ops);
            l += 1;
        }
        ops
    }
}

} // verus!
