//! A texture with its sprite batch: commands are collected, and a draw
//! turns them into copies for the canvas.

use vstd::prelude::*;

use crate::common::{Color, Float32, Rect};
use crate::framework::backend::SpriteBatchCommand;
use crate::framework::backend_sdl2::{NativeBlendMode, SDL2Context};

verus! {

/// One copy from a texture to the render target, ready for the canvas.
#[derive(Debug, Clone, Copy, PartialEq, Eq)]
pub struct Blit {
    /// Red, green and blue are multiplied into the colours of the texture,
    /// alpha into its alpha.
    pub color: Color,
    pub blend_mode: NativeBlendMode,
    pub src: Rect<Float32>,
    pub dest: Rect<Float32>,
}

/// The copy that a sprite-batch command asks for. An untinted one is
/// tinted opaque white.
pub open spec fn blit_of(command: SpriteBatchCommand, blend_mode: NativeBlendMode) -> Blit {
    match command {
        SpriteBatchCommand::DrawRect(src, dest) => Blit {
            color: Color::white(),
            blend_mode,
            src,
            dest,
        },
        SpriteBatchCommand::DrawRectTinted(src, dest, color) => Blit {
            color,
            blend_mode,
            src,
            dest,
        },
    }
}

/// What drawing a texture puts on the target: nothing where it has no
/// native texture, else one copy for each command, in their order.
pub open spec fn draw_plan(
    has_texture: bool,
    commands: Seq<SpriteBatchCommand>,
    blend_mode: NativeBlendMode,
) -> Seq<Blit> {
    if has_texture {
        commands.map_values(|command: SpriteBatchCommand| blit_of(command, blend_mode))
    } else {
        Seq::empty()
    }
}

/// A texture of the graphics library with the sprite batch that draws
/// from it. `H` is the library's handle.
pub struct SDL2Texture<H> {
    texture: Option<H>,
    width: u16,
    height: u16,
    commands: Vec<SpriteBatchCommand>,
}

impl<H> SDL2Texture<H> {
    /// The native texture, until it is released.
    pub closed spec fn spec_texture(&self) -> Option<H> {
        self.texture
    }

    /// Width and height in pixels.
    pub closed spec fn spec_dimensions(&self) -> (u16, u16) {
        (self.width, self.height)
    }

    /// The commands of the sprite batch, oldest first.
    pub closed spec fn spec_commands(&self) -> Seq<SpriteBatchCommand> {
        self.commands@
    }

    /// A texture of the given size with an empty sprite batch.
    pub fn new(texture: H, width: u16, height: u16) -> (made: SDL2Texture<H>)
        ensures
            made.spec_texture() == Some(texture),
            made.spec_dimensions() == (width, height),
            made.spec_commands() == Seq::<SpriteBatchCommand>::empty(),
    {
        SDL2Texture { texture: Some(texture), width, height, commands: Vec::new() }
    }

    /// Width and height in pixels.
    #[verifier::when_used_as_spec(spec_dimensions)]
    pub fn dimensions(&self) -> (size: (u16, u16))
        ensures
            size == self.spec_dimensions(),
    {
        (self.width, self.height)
    }

    /// The native texture, until it is released.
    pub fn texture(&self) -> (texture: Option<&H>)
        ensures
            texture == match self.spec_texture() {
                Some(handle) => Some(&handle),
                None => None,
            },
    {
        self.texture.as_ref()
    }

    /// The native texture, for the canvas to draw from or to.
    pub fn texture_mut(&mut self) -> (texture: Option<&mut H>)
        ensures
            final(self).spec_dimensions() == old(self).spec_dimensions(),
            final(self).spec_commands() == old(self).spec_commands(),
            match old(self).spec_texture() {
                Some(handle) => texture is Some && *texture.unwrap() == handle
                    && final(self).spec_texture() == Some(*final(texture.unwrap())),
                None => texture is None && final(self).spec_texture() is None,
            },
    {
        self.texture.as_mut()
    }

    /// The commands of the sprite batch, oldest first.
    pub fn commands(&self) -> (commands: &Vec<SpriteBatchCommand>)
        ensures
            commands@ == self.spec_commands(),
    {
        &self.commands
    }

    /// Puts a command at the end of the sprite batch. Nothing is drawn.
    pub fn add(&mut self, command: SpriteBatchCommand)
        ensures
            final(self).spec_commands() == old(self).spec_commands().push(command),
            final(self).spec_dimensions() == old(self).spec_dimensions(),
            final(self).spec_texture() == old(self).spec_texture(),
    {
        self.commands.push(command);
    }

    /// Empties the sprite batch.
    pub fn clear(&mut self)
        ensures
            final(self).spec_commands() == Seq::<SpriteBatchCommand>::empty(),
            final(self).spec_dimensions() == old(self).spec_dimensions(),
            final(self).spec_texture() == old(self).spec_texture(),
    {
        self.commands.clear();
    }

    /// The copies that draw the sprite batch with the context's blend
    /// mode. The batch stays as it is.
    pub fn draw<C, T>(&self, refs: &SDL2Context<C, T>) -> (blits: Vec<Blit>)
        ensures
            blits@ == draw_plan(self.spec_texture() is Some, self.spec_commands(), refs.blend_mode),
    {
        let mut blits: Vec<Blit> = Vec::new();
        if self.texture.is_none() {
            return blits;
        }
        let ghost blit = |command: SpriteBatchCommand| blit_of(command, refs.blend_mode);
        let mut i: usize = 0;
        while i < self.commands.len()
            invariant
                i <= self.commands@.len(),
                blit == |command: SpriteBatchCommand| blit_of(command, refs.blend_mode),
                blits@ == self.commands@.take(i as int).map_values(blit),
            decreases self.commands.len() - i,
        {
            let next = match self.commands[i] {
                SpriteBatchCommand::DrawRect(src, dest) => Blit {
                    color: Color { r: 255, g: 255, b: 255, a: 255 },
                    blend_mode: refs.blend_mode,
                    src,
                    dest,
                },
                SpriteBatchCommand::DrawRectTinted(src, dest, color) => Blit {
                    color,
                    blend_mode: refs.blend_mode,
                    src,
                    dest,
                },
            };
            blits.push(next);
            assert(self.commands@.take(i + 1).map_values(blit) =~= self.commands@.take(
                i as int,
            ).map_values(blit).push(blit(self.commands@[i as int])));
            i += 1;
        }
        assert(self.commands@.take(i as int) =~= self.commands@);
        blits
    }

    /// Gives up the native texture, for the caller to destroy. A texture
    /// that was released before gives `None`.
    pub fn release(&mut self) -> (texture: Option<H>)
        ensures
            texture == old(self).spec_texture(),
            final(self).spec_texture() is None,
            final(self).spec_dimensions() == old(self).spec_dimensions(),
            final(self).spec_commands() == old(self).spec_commands(),
    {
        self.texture.take()
    }
}

/// A command that is added to a batch is drawn after those that were in
/// it: the draw of the longer batch is the draw of the shorter one, then the
/// copy for the new command.
pub proof fn lemma_add_then_draw(
    commands: Seq<SpriteBatchCommand>,
    command: SpriteBatchCommand,
    blend_mode: NativeBlendMode,
)
    ensures
        draw_plan(true, commands.push(command), blend_mode) == draw_plan(
            true,
            commands,
            blend_mode,
        ).push(blit_of(command, blend_mode)),
{
    assert(draw_plan(true, commands.push(command), blend_mode) =~= draw_plan(
        true,
        commands,
        blend_mode,
    ).push(blit_of(command, blend_mode)));
}

/// Two adds to an empty batch and a draw give two copies in the order of
/// the adds. A draw of an empty batch, such as a clear leaves, gives none.
pub proof fn lemma_two_adds_then_draw(
    first: SpriteBatchCommand,
    second: SpriteBatchCommand,
    blend_mode: NativeBlendMode,
)
    ensures
        draw_plan(true, Seq::empty().push(first).push(second), blend_mode) == seq![
            blit_of(first, blend_mode),
            blit_of(second, blend_mode),
        ],
        draw_plan(true, Seq::empty(), blend_mode) == Seq::<Blit>::empty(),
{
    assert(draw_plan(true, Seq::empty().push(first).push(second), blend_mode) =~= seq![
        blit_of(first, blend_mode),
        blit_of(second, blend_mode),
    ]);
    assert(draw_plan(true, Seq::empty(), blend_mode) =~= Seq::<Blit>::empty());
}

} // verus!
