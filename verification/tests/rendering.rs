use doukutsu_rs::common::{Color, Float32, Point, Rect};
use doukutsu_rs::framework::backend::SpriteBatchCommand;
use doukutsu_rs::framework::backend_sdl2::draw_list::{
    forms_quad, render_elements, FilledTriangle, RenderOp, TexturedRect,
};
use doukutsu_rs::framework::backend_sdl2::pixels::{can_upload, upload_pixels};
use doukutsu_rs::framework::backend_sdl2::texture::{Blit, SDL2Texture};
use doukutsu_rs::framework::backend_sdl2::{
    native_blend_mode, NativeBlendMode, SDL2Context, SDL2Renderer,
};
use doukutsu_rs::framework::graphics::BlendMode;
use doukutsu_rs::framework::ui::{DrawCmd, DrawCmdParams, DrawData, DrawList, DrawVert};

fn carried(x: f32) -> Float32 {
    Float32::from_bits(x.to_bits())
}

fn value(x: Float32) -> f32 {
    f32::from_bits(x.to_bits())
}

fn rect(left: f32, top: f32, right: f32, bottom: f32) -> Rect<Float32> {
    Rect::new(carried(left), carried(top), carried(right), carried(bottom))
}

const WHITE: Color = Color { r: 255, g: 255, b: 255, a: 255 };

fn vertex(x: f32, y: f32, u: f32, v: f32, col: Color) -> DrawVert {
    DrawVert {
        pos: Point { x: carried(x), y: carried(y) },
        uv: Point { x: carried(u), y: carried(v) },
        col,
    }
}

/// The four corners of a square of side 20 at (x, y), with the whole
/// texture spread over it.
fn square(x: f32, y: f32, col: Color) -> Vec<DrawVert> {
    vec![
        vertex(x, y, 0.0, 0.0, col),
        vertex(x + 20.0, y, 1.0, 0.0, col),
        vertex(x + 20.0, y + 20.0, 1.0, 1.0, col),
        vertex(x, y + 20.0, 0.0, 1.0, col),
    ]
}

fn params(texture_id: usize) -> DrawCmdParams {
    DrawCmdParams {
        clip_rect: rect(0.0, 0.0, 640.0, 480.0),
        texture_id,
        vtx_offset: 0,
        idx_offset: 0,
    }
}

fn elements(count: usize, texture_id: usize) -> DrawCmd {
    DrawCmd::Elements { count, cmd_params: params(texture_id) }
}

fn renderer_with_font(id: usize, width: u32, height: u32) -> SDL2Renderer<u32> {
    SDL2Renderer::new(id, 7, width, height)
}

/// The source rectangle in pixels, as the canvas takes it.
fn source_pixels(copy: &TexturedRect) -> (i32, i32, u32, u32) {
    let width = copy.texture_size.0 as f32;
    let height = copy.texture_size.1 as f32;
    (
        (value(copy.uv.left) * width) as i32,
        (value(copy.uv.top) * height) as i32,
        ((value(copy.uv.right) - value(copy.uv.left)) * width) as u32,
        ((value(copy.uv.bottom) - value(copy.uv.top)) * height) as u32,
    )
}

/// The destination rectangle in pixels, as the canvas takes it.
fn dest_pixels(copy: &TexturedRect) -> (i32, i32, u32, u32) {
    (
        value(copy.dest.left) as i32,
        value(copy.dest.top) as i32,
        (value(copy.dest.right) - value(copy.dest.left)) as u32,
        (value(copy.dest.bottom) - value(copy.dest.top)) as u32,
    )
}

#[test]
fn two_triangles_of_a_square_become_one_copy() {
    let renderer = renderer_with_font(1, 32, 32);
    let list = DrawList {
        vtx_buffer: square(100.0, 50.0, WHITE),
        idx_buffer: vec![0, 1, 2, 0, 2, 3],
        commands: vec![elements(6, 1)],
    };
    let data = DrawData { draw_lists: vec![list] };
    assert!(data.is_well_formed());
    let ops = renderer.render_imgui(&data);
    assert_eq!(ops.len(), 3);
    assert_eq!(ops[0], RenderOp::SetClipRect(rect(0.0, 0.0, 640.0, 480.0)));
    assert_eq!(ops[2], RenderOp::ClearClipRect);
    let copy = match ops[1] {
        RenderOp::CopyRect(copy) => copy,
        other => panic!("not a copy: {:?}", other),
    };
    assert_eq!(copy.texture_id, 1);
    assert_eq!(copy.texture_size, (32, 32));
    assert_eq!(copy.uv, rect(0.0, 0.0, 1.0, 1.0));
    assert_eq!(copy.dest, rect(100.0, 50.0, 120.0, 70.0));
    assert_eq!(copy.color, WHITE);
    assert_eq!(source_pixels(&copy), (0, 0, 32, 32));
    assert_eq!(dest_pixels(&copy), (100, 50, 20, 20));
    assert!(ops.iter().all(|op| !matches!(op, RenderOp::FillTriangle(_))));
}

#[test]
fn a_lone_triangle_is_filled() {
    let renderer = renderer_with_font(1, 32, 32);
    let red = Color { r: 200, g: 10, b: 20, a: 255 };
    let list = DrawList {
        vtx_buffer: vec![
            vertex(10.0, 10.0, 0.0, 0.0, red),
            vertex(30.0, 10.0, 1.0, 0.0, WHITE),
            vertex(10.0, 30.0, 0.0, 1.0, WHITE),
        ],
        idx_buffer: vec![0, 1, 2],
        commands: vec![elements(3, 1)],
    };
    let ops = renderer.render_imgui(&DrawData { draw_lists: vec![list] });
    assert_eq!(ops.len(), 3);
    let triangle = match ops[1] {
        RenderOp::FillTriangle(triangle) => triangle,
        other => panic!("not a triangle: {:?}", other),
    };
    assert_eq!(
        triangle,
        FilledTriangle {
            a: Point { x: carried(10.0), y: carried(10.0) },
            b: Point { x: carried(30.0), y: carried(10.0) },
            c: Point { x: carried(10.0), y: carried(30.0) },
            color: red,
        }
    );
    let biased = [triangle.a, triangle.b, triangle.c]
        .iter()
        .map(|p| ((value(p.x) - 0.5) as i16, (value(p.y) - 0.5) as i16))
        .collect::<Vec<(i16, i16)>>();
    assert_eq!(biased, vec![(9, 9), (29, 9), (9, 29)]);
}

#[test]
fn two_triangles_that_are_no_rectangle_are_both_filled() {
    let renderer = renderer_with_font(1, 32, 32);
    let mut vertices = square(0.0, 0.0, WHITE);
    vertices[3] = vertex(5.0, 20.0, 0.0, 1.0, WHITE);
    let list = DrawList {
        vtx_buffer: vertices,
        idx_buffer: vec![0, 1, 2, 0, 2, 3],
        commands: vec![elements(6, 1)],
    };
    let ops = renderer.render_imgui(&DrawData { draw_lists: vec![list] });
    assert_eq!(ops.len(), 4);
    assert!(matches!(ops[1], RenderOp::FillTriangle(_)));
    assert!(matches!(ops[2], RenderOp::FillTriangle(_)));
    match (ops[1], ops[2]) {
        (RenderOp::FillTriangle(first), RenderOp::FillTriangle(second)) => {
            assert_eq!(first.c, Point { x: carried(20.0), y: carried(20.0) });
            assert_eq!(second.c, Point { x: carried(5.0), y: carried(20.0) });
        }
        _ => unreachable!(),
    }
}

#[test]
fn a_vertex_off_the_corners_in_the_first_triangle_prevents_the_copy() {
    let col = WHITE;
    let on = |x: f32, y: f32| vertex(x, y, 0.0, 0.0, col);
    assert!(forms_quad(
        on(0.0, 0.0),
        on(8.0, 0.0),
        on(8.0, 8.0),
        on(0.0, 0.0),
        on(8.0, 8.0),
        on(0.0, 8.0)
    ));
    assert!(!forms_quad(
        on(0.0, 0.0),
        on(8.0, 0.0),
        on(8.0, 8.0),
        on(0.0, 0.0),
        on(8.0, 8.0),
        on(0.0, 9.0)
    ));
    assert!(!forms_quad(
        on(0.0, 0.0),
        on(8.0, 0.0),
        on(8.0, 8.0),
        on(4.0, 0.0),
        on(8.0, 8.0),
        on(0.0, 8.0)
    ));
    assert!(!forms_quad(
        on(0.0, 0.0),
        on(8.0, 0.0),
        on(8.0, 8.0),
        on(0.0, 0.0),
        on(f32::NAN, 8.0),
        on(0.0, 8.0)
    ));
    // A triangle with a vertex inside its own box is no half of a rectangle.
    assert!(!forms_quad(
        on(0.0, 0.0),
        on(8.0, 4.0),
        on(4.0, 8.0),
        on(0.0, 0.0),
        on(8.0, 8.0),
        on(0.0, 8.0)
    ));
}

#[test]
fn squares_and_triangles_in_one_run_keep_their_order() {
    let renderer = renderer_with_font(3, 64, 16);
    let mut vertices = square(0.0, 0.0, WHITE);
    vertices.extend(vec![
        vertex(100.0, 100.0, 0.0, 0.0, WHITE),
        vertex(140.0, 110.0, 0.0, 0.0, WHITE),
        vertex(120.0, 150.0, 0.0, 0.0, WHITE),
    ]);
    vertices.extend(square(200.0, 0.0, WHITE));
    let list = DrawList {
        vtx_buffer: vertices,
        idx_buffer: vec![0, 1, 2, 0, 2, 3, 4, 5, 6, 7, 8, 9, 7, 9, 10],
        commands: vec![elements(15, 3)],
    };
    let data = DrawData { draw_lists: vec![list] };
    assert!(data.is_well_formed());
    let ops = renderer.render_imgui(&data);
    assert_eq!(ops.len(), 5);
    assert!(matches!(ops[0], RenderOp::SetClipRect(_)));
    match ops[1] {
        RenderOp::CopyRect(copy) => {
            assert_eq!(dest_pixels(&copy), (0, 0, 20, 20));
            assert_eq!(source_pixels(&copy), (0, 0, 64, 16));
        }
        other => panic!("not a copy: {:?}", other),
    }
    assert!(matches!(ops[2], RenderOp::FillTriangle(_)));
    match ops[3] {
        RenderOp::CopyRect(copy) => assert_eq!(dest_pixels(&copy), (200, 0, 20, 20)),
        other => panic!("not a copy: {:?}", other),
    }
    assert_eq!(ops[4], RenderOp::ClearClipRect);
}

#[test]
fn the_last_triangle_of_a_run_is_never_paired() {
    // Three triangles: the first two make a square, the third is the first
    // half of another square whose second half is missing.
    let renderer = renderer_with_font(1, 32, 32);
    let mut vertices = square(0.0, 0.0, WHITE);
    vertices.extend(square(50.0, 50.0, WHITE));
    let list = DrawList {
        vtx_buffer: vertices,
        idx_buffer: vec![0, 1, 2, 0, 2, 3, 4, 5, 6],
        commands: vec![elements(9, 1)],
    };
    let ops = renderer.render_imgui(&DrawData { draw_lists: vec![list] });
    assert_eq!(ops.len(), 4);
    assert!(matches!(ops[1], RenderOp::CopyRect(_)));
    assert!(matches!(ops[2], RenderOp::FillTriangle(_)));
}

#[test]
fn the_copy_is_tinted_with_the_colour_of_the_first_vertex() {
    let renderer = renderer_with_font(1, 32, 32);
    let mut vertices = square(0.0, 0.0, Color { r: 9, g: 9, b: 9, a: 9 });
    vertices[0].col = Color { r: 1, g: 2, b: 3, a: 4 };
    let list = DrawList {
        vtx_buffer: vertices,
        idx_buffer: vec![0, 1, 2, 0, 2, 3],
        commands: vec![elements(6, 1)],
    };
    let ops = renderer.render_imgui(&DrawData { draw_lists: vec![list] });
    match ops[1] {
        RenderOp::CopyRect(copy) => assert_eq!(copy.color, Color { r: 1, g: 2, b: 3, a: 4 }),
        other => panic!("not a copy: {:?}", other),
    }
}

#[test]
fn the_copy_takes_the_part_of_the_texture_that_the_first_triangle_spans() {
    let renderer = renderer_with_font(1, 512, 256);
    let list = DrawList {
        vtx_buffer: vec![
            vertex(10.0, 10.0, 0.25, 0.5, WHITE),
            vertex(18.0, 10.0, 0.5, 0.5, WHITE),
            vertex(18.0, 26.0, 0.5, 0.75, WHITE),
            vertex(10.0, 26.0, 0.25, 0.75, WHITE),
        ],
        idx_buffer: vec![0, 1, 2, 0, 2, 3],
        commands: vec![elements(6, 1)],
    };
    let ops = renderer.render_imgui(&DrawData { draw_lists: vec![list] });
    match ops[1] {
        RenderOp::CopyRect(copy) => {
            assert_eq!(copy.uv, rect(0.25, 0.5, 0.5, 0.75));
            assert_eq!(source_pixels(&copy), (128, 128, 128, 64));
            assert_eq!(dest_pixels(&copy), (10, 10, 8, 16));
        }
        other => panic!("not a copy: {:?}", other),
    }
}

#[test]
fn a_run_with_an_unknown_texture_is_clipped_and_draws_nothing() {
    let renderer = renderer_with_font(1, 32, 32);
    let list = DrawList {
        vtx_buffer: square(0.0, 0.0, WHITE),
        idx_buffer: vec![0, 1, 2, 0, 2, 3],
        commands: vec![elements(6, 2)],
    };
    let ops = renderer.render_imgui(&DrawData { draw_lists: vec![list] });
    assert_eq!(
        ops,
        vec![RenderOp::SetClipRect(rect(0.0, 0.0, 640.0, 480.0)), RenderOp::ClearClipRect]
    );
}

#[test]
fn an_empty_run_sets_and_clears_the_clip_rectangle() {
    let renderer = renderer_with_font(1, 32, 32);
    let list = DrawList { vtx_buffer: vec![], idx_buffer: vec![], commands: vec![elements(0, 1)] };
    let ops = renderer.render_imgui(&DrawData { draw_lists: vec![list] });
    assert_eq!(
        ops,
        vec![RenderOp::SetClipRect(rect(0.0, 0.0, 640.0, 480.0)), RenderOp::ClearClipRect]
    );
}

#[test]
fn no_draw_list_gives_no_step() {
    let renderer = renderer_with_font(1, 32, 32);
    assert_eq!(renderer.render_imgui(&DrawData { draw_lists: vec![] }), vec![]);
    let empty = DrawList { vtx_buffer: vec![], idx_buffer: vec![], commands: vec![] };
    assert_eq!(renderer.render_imgui(&DrawData { draw_lists: vec![empty] }), vec![]);
}

#[test]
fn callbacks_are_named_by_list_and_command() {
    let renderer = renderer_with_font(1, 32, 32);
    let first = DrawList {
        vtx_buffer: vec![],
        idx_buffer: vec![],
        commands: vec![DrawCmd::ResetRenderState, DrawCmd::RawCallback],
    };
    let second = DrawList {
        vtx_buffer: square(0.0, 0.0, WHITE),
        idx_buffer: vec![0, 1, 2, 0, 2, 3],
        commands: vec![DrawCmd::RawCallback, elements(6, 1), DrawCmd::RawCallback],
    };
    let ops = renderer.render_imgui(&DrawData { draw_lists: vec![first, second] });
    assert_eq!(ops.len(), 6);
    assert_eq!(ops[0], RenderOp::RawCallback { draw_list: 0, command: 1 });
    assert_eq!(ops[1], RenderOp::RawCallback { draw_list: 1, command: 0 });
    assert!(matches!(ops[2], RenderOp::SetClipRect(_)));
    assert!(matches!(ops[3], RenderOp::CopyRect(_)));
    assert_eq!(ops[4], RenderOp::ClearClipRect);
    assert_eq!(ops[5], RenderOp::RawCallback { draw_list: 1, command: 2 });
}

#[test]
fn offsets_shift_indices_and_vertices() {
    let mut vertices = vec![vertex(-1.0, -1.0, 0.0, 0.0, WHITE); 5];
    vertices.extend(square(30.0, 40.0, WHITE));
    let list = DrawList {
        vtx_buffer: vertices,
        idx_buffer: vec![9, 9, 9, 0, 1, 2, 0, 2, 3],
        commands: vec![],
    };
    let shifted =
        DrawCmdParams { clip_rect: rect(1.0, 2.0, 3.0, 4.0), texture_id: 8, vtx_offset: 5, idx_offset: 3 };
    let mut ops = vec![RenderOp::ClearClipRect];
    render_elements(&list, 6, &shifted, Some((16, 16)), &mut ops);
    assert_eq!(ops.len(), 4);
    assert_eq!(ops[0], RenderOp::ClearClipRect);
    assert_eq!(ops[1], RenderOp::SetClipRect(rect(1.0, 2.0, 3.0, 4.0)));
    match ops[2] {
        RenderOp::CopyRect(copy) => {
            assert_eq!(copy.texture_id, 8);
            assert_eq!(dest_pixels(&copy), (30, 40, 20, 20));
            assert_eq!(source_pixels(&copy), (0, 0, 16, 16));
        }
        other => panic!("not a copy: {:?}", other),
    }
    assert_eq!(ops[3], RenderOp::ClearClipRect);
}

#[test]
fn draw_lists_out_of_range_are_told_apart() {
    let good = DrawList {
        vtx_buffer: square(0.0, 0.0, WHITE),
        idx_buffer: vec![0, 1, 2, 0, 2, 3],
        commands: vec![elements(6, 1), DrawCmd::ResetRenderState, elements(3, 1), elements(0, 1)],
    };
    assert!(good.is_well_formed());

    let mut ragged = good.clone();
    ragged.commands = vec![elements(4, 1)];
    assert!(!ragged.is_well_formed());

    let mut too_long = good.clone();
    too_long.commands = vec![elements(9, 1)];
    assert!(!too_long.is_well_formed());

    let mut bad_index = good.clone();
    bad_index.idx_buffer[4] = 4;
    assert!(!bad_index.is_well_formed());

    let mut bad_offset = good.clone();
    bad_offset.commands = vec![DrawCmd::Elements {
        count: 3,
        cmd_params: DrawCmdParams { vtx_offset: 1, ..params(1) },
    }];
    assert!(bad_offset.is_well_formed());
    bad_offset.commands = vec![DrawCmd::Elements {
        count: 6,
        cmd_params: DrawCmdParams { vtx_offset: 1, ..params(1) },
    }];
    assert!(!bad_offset.is_well_formed());
    bad_offset.commands = vec![DrawCmd::Elements {
        count: 3,
        cmd_params: DrawCmdParams { idx_offset: usize::MAX, ..params(1) },
    }];
    assert!(!bad_offset.is_well_formed());
    bad_offset.commands = vec![DrawCmd::Elements {
        count: 3,
        cmd_params: DrawCmdParams { vtx_offset: usize::MAX, ..params(1) },
    }];
    assert!(!bad_offset.is_well_formed());

    // A run without triangles reads nothing, wherever it begins.
    let mut idle = good.clone();
    idle.commands = vec![DrawCmd::Elements {
        count: 0,
        cmd_params: DrawCmdParams { idx_offset: 99, vtx_offset: 99, ..params(1) },
    }];
    assert!(idle.is_well_formed());
    let renderer = renderer_with_font(1, 32, 32);
    assert_eq!(renderer.render_imgui(&DrawData { draw_lists: vec![idle] }).len(), 2);

    assert!(DrawData { draw_lists: vec![good.clone(), good.clone()] }.is_well_formed());
    assert!(!DrawData { draw_lists: vec![good, ragged] }.is_well_formed());
}

#[test]
fn the_font_atlas_is_registered_with_its_size_cut_to_16_bits() {
    let renderer: SDL2Renderer<u32> = SDL2Renderer::new(4, 99, 512, 64);
    assert_eq!(renderer.imgui_textures.len(), 1);
    let atlas = renderer.imgui_textures.get(&4).unwrap();
    assert_eq!(atlas.dimensions(), (512, 64));
    assert_eq!(atlas.texture(), Some(&99));
    assert!(atlas.commands().is_empty());

    let large: SDL2Renderer<u32> = SDL2Renderer::new(0, 1, 65536 + 300, 65535);
    assert_eq!(large.imgui_textures.get(&0).unwrap().dimensions(), (300, 65535));
}

#[test]
fn each_blend_mode_has_a_native_mode_of_its_own() {
    assert_eq!(native_blend_mode(BlendMode::Alpha), NativeBlendMode::Blend);
    assert_eq!(native_blend_mode(BlendMode::Add), NativeBlendMode::Add);
    assert_eq!(native_blend_mode(BlendMode::Multiply), NativeBlendMode::Mod);
}

#[test]
fn setting_the_blend_mode_changes_the_draws_to_come() {
    let mut renderer = renderer_with_font(1, 32, 32);
    let mut refs: SDL2Context<u8, u8> = SDL2Context::new(1, 2);
    assert_eq!(refs.blend_mode, NativeBlendMode::Blend);
    let mut texture: SDL2Texture<u32> = SDL2Texture::new(5, 16, 16);
    texture.add(SpriteBatchCommand::DrawRect(rect(0.0, 0.0, 16.0, 16.0), rect(0.0, 0.0, 16.0, 16.0)));
    assert_eq!(texture.draw(&refs)[0].blend_mode, NativeBlendMode::Blend);
    assert_eq!(renderer.set_blend_mode(&mut refs, BlendMode::Add), Ok(()));
    assert_eq!(refs.blend_mode, NativeBlendMode::Add);
    assert_eq!(texture.draw(&refs)[0].blend_mode, NativeBlendMode::Add);
    assert_eq!(renderer.set_blend_mode(&mut refs, BlendMode::Multiply), Ok(()));
    assert_eq!(texture.draw(&refs)[0].blend_mode, NativeBlendMode::Mod);
    assert_eq!(renderer.set_blend_mode(&mut refs, BlendMode::Alpha), Ok(()));
    assert_eq!(texture.draw(&refs)[0].blend_mode, NativeBlendMode::Blend);
    assert_eq!((refs.canvas, refs.texture_creator), (1, 2));
}

#[test]
fn a_tinted_copy_of_a_red_texture() {
    let refs: SDL2Context<u8, u8> = SDL2Context::new(0, 0);
    let mut texture: SDL2Texture<u32> = SDL2Texture::new(1, 16, 16);
    let tint = Color { r: 0, g: 255, b: 0, a: 128 };
    texture.add(SpriteBatchCommand::DrawRectTinted(
        rect(0.0, 0.0, 16.0, 16.0),
        rect(10.0, 10.0, 26.0, 26.0),
        tint,
    ));
    let blits = texture.draw(&refs);
    assert_eq!(
        blits,
        vec![Blit {
            color: tint,
            blend_mode: NativeBlendMode::Blend,
            src: rect(0.0, 0.0, 16.0, 16.0),
            dest: rect(10.0, 10.0, 26.0, 26.0),
        }]
    );
    let blit = blits[0];
    let rounded = (
        value(blit.dest.left).round() as i32,
        value(blit.dest.top).round() as i32,
        (value(blit.dest.right) - value(blit.dest.left)).round() as u32,
        (value(blit.dest.bottom) - value(blit.dest.top)).round() as u32,
    );
    assert_eq!(rounded, (10, 10, 16, 16));
    // The pixel (18, 18) is inside the copy and (0, 0) is not.
    assert!(18 >= rounded.0 && 18 < rounded.0 + rounded.2 as i32);
    assert!(0 < rounded.0);
}

#[test]
fn commands_are_drawn_in_the_order_of_their_adds() {
    let refs: SDL2Context<u8, u8> = SDL2Context::new(0, 0);
    let mut texture: SDL2Texture<u32> = SDL2Texture::new(1, 64, 64);
    let first = SpriteBatchCommand::DrawRect(rect(0.0, 0.0, 8.0, 8.0), rect(1.0, 1.0, 9.0, 9.0));
    let second = SpriteBatchCommand::DrawRectTinted(
        rect(8.0, 0.0, 16.0, 8.0),
        rect(20.0, 1.0, 28.0, 9.0),
        Color { r: 1, g: 2, b: 3, a: 4 },
    );
    texture.add(first);
    texture.add(second);
    assert_eq!(texture.commands().len(), 2);
    let blits = texture.draw(&refs);
    assert_eq!(blits.len(), 2);
    assert_eq!(blits[0].color, WHITE);
    assert_eq!(blits[0].src, rect(0.0, 0.0, 8.0, 8.0));
    assert_eq!(blits[0].dest, rect(1.0, 1.0, 9.0, 9.0));
    assert_eq!(blits[1].color, Color { r: 1, g: 2, b: 3, a: 4 });
    assert_eq!(blits[1].src, rect(8.0, 0.0, 16.0, 8.0));
    assert_eq!(blits[1].dest, rect(20.0, 1.0, 28.0, 9.0));
}

#[test]
fn a_draw_keeps_the_commands_and_a_clear_discards_them() {
    let refs: SDL2Context<u8, u8> = SDL2Context::new(0, 0);
    let mut texture: SDL2Texture<u32> = SDL2Texture::new(1, 64, 64);
    texture.add(SpriteBatchCommand::DrawRect(rect(0.0, 0.0, 8.0, 8.0), rect(1.0, 1.0, 9.0, 9.0)));
    texture.add(SpriteBatchCommand::DrawRect(rect(0.0, 0.0, 8.0, 8.0), rect(2.0, 2.0, 9.0, 9.0)));
    let once = texture.draw(&refs);
    let twice = texture.draw(&refs);
    assert_eq!(once.len(), 2);
    assert_eq!(once, twice);
    assert_eq!(texture.commands().len(), 2);
    texture.clear();
    assert_eq!(texture.commands().len(), 0);
    assert_eq!(texture.draw(&refs), vec![]);
    assert_eq!(texture.dimensions(), (64, 64));
    assert_eq!(texture.texture(), Some(&1));
}

#[test]
fn a_texture_is_released_once() {
    let refs: SDL2Context<u8, u8> = SDL2Context::new(0, 0);
    let mut texture: SDL2Texture<u32> = SDL2Texture::new(42, 320, 240);
    texture.add(SpriteBatchCommand::DrawRect(rect(0.0, 0.0, 8.0, 8.0), rect(1.0, 1.0, 9.0, 9.0)));
    assert_eq!(texture.dimensions(), (320, 240));
    assert_eq!(texture.release(), Some(42));
    assert_eq!(texture.texture(), None);
    assert_eq!(texture.release(), None);
    assert_eq!(texture.dimensions(), (320, 240));
    assert_eq!(texture.commands().len(), 1);
    // Without a native texture nothing is drawn, and nothing fails.
    assert_eq!(texture.draw(&refs), vec![]);
}

#[test]
fn the_native_texture_can_be_changed_in_place() {
    let mut texture: SDL2Texture<u32> = SDL2Texture::new(42, 8, 8);
    if let Some(handle) = texture.texture_mut() {
        *handle = 43;
    }
    assert_eq!(texture.texture(), Some(&43));
    texture.release();
    assert!(texture.texture_mut().is_none());
}

#[test]
fn the_render_target_is_the_texture_or_the_window() {
    let mut renderer = renderer_with_font(1, 32, 32);
    let mut texture: SDL2Texture<u32> = SDL2Texture::new(42, 8, 8);
    assert_eq!(renderer.set_render_target(Some(&texture)), Some(&42));
    assert_eq!(renderer.set_render_target(None), None);
    texture.release();
    assert_eq!(renderer.set_render_target(Some(&texture)), None);
}

/// The image that a buffer holds, read row by row from where the pitch
/// puts each row.
fn read_rows(buffer: &[u8], pitch: usize, width: usize, height: usize) -> Vec<u8> {
    let mut image = Vec::new();
    for y in 0..height {
        image.extend_from_slice(&buffer[y * pitch..y * pitch + 4 * width]);
    }
    image
}

#[test]
fn an_upload_honours_the_pitch() {
    let (width, height, pitch) = (3usize, 2usize, 16usize);
    let data: Vec<u8> = (1..=24).collect();
    let mut buffer = vec![0xeeu8; pitch * height];
    upload_pixels(&mut buffer, pitch, width, height, &data);
    assert_eq!(
        buffer,
        vec![
            1, 2, 3, 4, 5, 6, 7, 8, 9, 10, 11, 12, 0xee, 0xee, 0xee, 0xee, //
            13, 14, 15, 16, 17, 18, 19, 20, 21, 22, 23, 24, 0xee, 0xee, 0xee, 0xee,
        ]
    );
    assert_eq!(read_rows(&buffer, pitch, 3, 2), data);
}

#[test]
fn an_upload_with_rows_without_padding_is_a_plain_copy() {
    let data: Vec<u8> = (0..64).map(|i| (i * 3) as u8).collect();
    let mut buffer = vec![0u8; 64];
    upload_pixels(&mut buffer, 16, 4, 4, &data);
    assert_eq!(buffer, data);
}

#[test]
fn an_upload_leaves_the_rest_of_the_buffer_alone() {
    let data = vec![7u8; 4 * 2 * 2 + 5];
    let mut buffer = vec![1u8; 3 * 10 + 4];
    upload_pixels(&mut buffer, 10, 2, 2, &data);
    let mut expected = vec![1u8; 34];
    for i in 0..8 {
        expected[i] = 7;
        expected[10 + i] = 7;
    }
    assert_eq!(buffer, expected);
    assert_eq!(read_rows(&buffer, 10, 2, 2), vec![7u8; 16]);
}

#[test]
fn an_upload_of_an_image_without_pixels_changes_nothing() {
    let mut buffer = vec![5u8; 12];
    upload_pixels(&mut buffer, 4, 0, 3, &[]);
    assert_eq!(buffer, vec![5u8; 12]);
    upload_pixels(&mut buffer, 0, 0, 3, &[]);
    assert_eq!(buffer, vec![5u8; 12]);
    upload_pixels(&mut buffer, 4, 1, 0, &[]);
    assert_eq!(buffer, vec![5u8; 12]);
}

#[test]
fn a_red_texture_reads_back_red() {
    let (width, height, pitch) = (16usize, 16usize, 80usize);
    let mut data = Vec::new();
    for _ in 0..(16 * 16) {
        data.extend_from_slice(&[255, 0, 0, 255]);
    }
    let mut buffer = vec![0u8; pitch * 16];
    upload_pixels(&mut buffer, pitch, width, height, &data);
    assert_eq!(read_rows(&buffer, pitch, 16, 16), data);
    assert_eq!(&buffer[80 * 15 + 60..80 * 15 + 64], &[255, 0, 0, 255]);
    assert_eq!(&buffer[80 * 15 + 64..80 * 16], &[0u8; 16]);
}

#[test]
fn an_image_fits_when_each_of_its_rows_lies_in_the_buffer() {
    // Two rows of three pixels in rows of sixteen bytes.
    assert!(can_upload(32, 16, 3, 2, 24));
    // The last row of the buffer need not be whole.
    assert!(can_upload(28, 16, 3, 2, 24));
    assert!(can_upload(28, 16, 3, 2, 100));
    assert!(!can_upload(27, 16, 3, 2, 24));
    // A row of the buffer must hold a row of the image.
    assert!(can_upload(24, 12, 3, 2, 24));
    assert!(!can_upload(64, 11, 3, 2, 24));
    // The image must have four bytes for each pixel.
    assert!(!can_upload(32, 16, 3, 2, 23));
    // An image without pixels fits any buffer.
    assert!(can_upload(0, 0, 0, 5, 0));
    assert!(can_upload(0, 8, 2, 0, 0));
    assert!(!can_upload(0, 4, 2, 0, 0));
    // Sizes beyond the machine's numbers fit nothing.
    assert!(!can_upload(usize::MAX, usize::MAX, usize::MAX, 1, usize::MAX));
    assert!(!can_upload(usize::MAX, 4, 1, usize::MAX, usize::MAX));
    assert!(!can_upload(usize::MAX, usize::MAX, 1, 3, usize::MAX));
}

#[test]
fn an_upload_into_a_buffer_that_ends_with_the_image() {
    let data: Vec<u8> = (1..=24).collect();
    let mut buffer = vec![0u8; 28];
    assert!(can_upload(buffer.len(), 16, 3, 2, data.len()));
    upload_pixels(&mut buffer, 16, 3, 2, &data);
    assert_eq!(&buffer[0..12], &data[0..12]);
    assert_eq!(&buffer[12..16], &[0u8; 4]);
    assert_eq!(&buffer[16..28], &data[12..24]);
}
