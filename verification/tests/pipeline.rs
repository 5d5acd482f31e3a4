use render_harness::pixel::{force_opaque, noise_pixels};
use render_harness::program::{ParamEntry, ParamSet, ParamValue, UniformType};
use render_harness::render::{build_scene, quad_fragment_shader, quad_vertex_shader};
use render_harness::renderer::{
    ConnectedProgram, DrawError, DrawState, Frame, IndexSlice, ProgramHandle, Renderer,
};
use render_harness::texture::{
    ImageInfo, PixelFormat, Texture, TextureError, TextureInfo, TextureKind,
};

fn small_info(width: u16, height: u16) -> TextureInfo {
    TextureInfo {
        width,
        height,
        depth: 1,
        mip_min: 0,
        mip_max: -1,
        kind: TextureKind::Texture2D,
        format: PixelFormat::Rgba8,
    }
}

#[test]
fn force_opaque_sets_alpha_only() {
    assert_eq!(force_opaque(0x0012_3456), 0xFF12_3456);
    assert_eq!(force_opaque(0x8000_0000), 0xFF00_0000);
    assert_eq!(force_opaque(0xFFFF_FFFF), 0xFFFF_FFFF);
    assert_eq!(force_opaque(0), 0xFF00_0000);
}

#[test]
fn texture_upload_round_trips_with_opaque_alpha() {
    let info = small_info(2, 2);
    let mut tex = Texture::new(info);
    let img = tex.info.to_image_info();
    let data: Vec<u32> = vec![0x0012_3456, 0x80FF_EEDD, 0x0000_0000, 0x7F01_0203];
    assert!(tex.update(img, &data).is_ok());
    let back = tex.read_back();
    assert_eq!(back.len(), 4);
    for (b, d) in back.iter().zip(data.iter()) {
        assert_eq!(*b, *d | 0xFF00_0000);
        assert_eq!(*b >> 24, 0xFF);
        assert_eq!(*b & 0x00FF_FFFF, *d & 0x00FF_FFFF);
    }
}

#[test]
fn texture_upload_rejects_wrong_size() {
    let info = small_info(2, 2);
    let mut tex = Texture::new(info);
    let img = tex.info.to_image_info();
    let data: Vec<u32> = vec![1, 2, 3];
    assert_eq!(tex.update(img, &data), Err(TextureError::SizeMismatch));
    assert!(tex.read_back().is_empty());
}

#[test]
fn texture_zero_sized_accepts_empty_upload() {
    let info = small_info(0, 0);
    let mut tex = Texture::new(info);
    let img = tex.info.to_image_info();
    let data: Vec<u32> = Vec::new();
    assert!(tex.update(img, &data).is_ok());
    assert!(tex.read_back().is_empty());
}

#[test]
fn to_image_info_covers_whole_texture() {
    let info = small_info(600, 600);
    let img: ImageInfo = info.to_image_info();
    assert_eq!(img.xoffset, 0);
    assert_eq!(img.yoffset, 0);
    assert_eq!(img.width, 600);
    assert_eq!(img.height, 600);
    assert_eq!(img.mipmap, 0);
}

#[test]
fn noise_is_fully_opaque() {
    let noise = noise_pixels(12345, 1000);
    assert_eq!(noise.len(), 1000);
    for p in noise.iter() {
        assert_eq!(*p >> 24, 0xFF);
    }
}

fn tex_params(r: &mut Renderer) -> ParamSet {
    let info = small_info(2, 2);
    let tex = r.create_texture(info);
    ParamSet {
        entries: vec![ParamEntry {
            name: "tex".to_owned(),
            value: ParamValue::TextureSampler(tex, None),
        }],
    }
}

#[test]
fn connect_program_succeeds_with_matching_param() {
    let mut r = Renderer::new();
    let params = tex_params(&mut r);
    let prog = r.create_program(quad_vertex_shader(), quad_fragment_shader());
    let connected = r.connect_program(prog, params);
    assert!(connected.is_ok());
}

#[test]
fn connect_program_fails_without_tex_field() {
    let mut r = Renderer::new();
    let prog = r.create_program(quad_vertex_shader(), quad_fragment_shader());
    let params = ParamSet { entries: Vec::new() };
    let err = r.connect_program(prog, params).err().expect("connection must fail");
    assert_eq!(err.uniform, "tex");
}

#[test]
fn connect_program_fails_on_type_mismatch() {
    let mut r = Renderer::new();
    let prog = r.create_program(quad_vertex_shader(), quad_fragment_shader());
    let params = ParamSet {
        entries: vec![ParamEntry { name: "tex".to_owned(), value: ParamValue::Scalar(3) }],
    };
    let err = r.connect_program(prog, params).err().expect("connection must fail");
    assert_eq!(err.uniform, "tex");
}

#[test]
fn fragment_shader_declares_tex_sampler() {
    let frag = quad_fragment_shader();
    assert_eq!(frag.uniforms.len(), 1);
    assert_eq!(frag.uniforms[0].name, "tex");
    assert_eq!(frag.uniforms[0].ty, UniformType::Sampler2D);
    assert!(quad_vertex_shader().uniforms.is_empty());
}

fn quad_setup(r: &mut Renderer) -> (render_harness::renderer::MeshHandle, render_harness::renderer::BufferHandle, ConnectedProgram) {
    let mesh = r.create_mesh(render_harness::geom::quad_vertices());
    let buf = r.create_buffer(Some(render_harness::geom::quad_indices()));
    let params = tex_params(r);
    let prog = r.create_program(quad_vertex_shader(), quad_fragment_shader());
    let connected = r.connect_program(prog, params).expect("connection must succeed");
    (mesh, buf, connected)
}

#[test]
fn draw_rejects_slice_past_buffer_end() {
    let mut r = Renderer::new();
    let (mesh, buf, connected) = quad_setup(&mut r);
    let slice = IndexSlice { buffer: buf, start: 0, count: 7 };
    let frame = Frame::new(600, 600);
    let state = DrawState::new();
    let res = r.draw(mesh, slice, &frame, &connected, &state);
    assert_eq!(res, Err(DrawError::OutOfRange));
}

#[test]
fn draw_rejects_index_past_vertex_count() {
    let mut r = Renderer::new();
    let mesh = r.create_mesh(render_harness::geom::quad_vertices());
    let buf = r.create_buffer(Some(vec![0, 2, 9, 0, 3, 1]));
    let params = tex_params(&mut r);
    let prog = r.create_program(quad_vertex_shader(), quad_fragment_shader());
    let connected = r.connect_program(prog, params).expect("connection must succeed");
    let slice = IndexSlice { buffer: buf, start: 0, count: 6 };
    let res = r.draw(mesh, slice, &Frame::new(600, 600), &connected, &DrawState::new());
    assert_eq!(res, Err(DrawError::VertexOutOfBounds));
}

#[test]
fn draw_rejects_unconnected_program() {
    let mut r = Renderer::new();
    let mesh = r.create_mesh(render_harness::geom::quad_vertices());
    let buf = r.create_buffer(Some(render_harness::geom::quad_indices()));
    let _ = r.create_program(quad_vertex_shader(), quad_fragment_shader());
    let fake = ConnectedProgram {
        program: ProgramHandle { id: 0 },
        params: ParamSet { entries: Vec::new() },
    };
    let slice = IndexSlice { buffer: buf, start: 0, count: 6 };
    let res = r.draw(mesh, slice, &Frame::new(600, 600), &fake, &DrawState::new());
    assert_eq!(res, Err(DrawError::NotConnected));
}

#[test]
fn draw_records_one_command_on_success() {
    let mut r = Renderer::new();
    let (mesh, buf, connected) = quad_setup(&mut r);
    let slice = IndexSlice { buffer: buf, start: 0, count: 6 };
    assert_eq!(r.commands.len(), 0);
    let res = r.draw(mesh, slice, &Frame::new(600, 600), &connected, &DrawState::new());
    assert_eq!(res, Ok(()));
    assert_eq!(r.commands.len(), 1);
}

#[test]
fn build_scene_fills_texture_and_validates() {
    let mut r = Renderer::new();
    let noise = noise_pixels(7, 360000);
    let scene = build_scene(&mut r, &noise).expect("scene must build");
    assert_eq!(scene.slice.start, 0);
    assert_eq!(scene.slice.count, 6);
    assert_eq!(scene.frame.width, 600);
    assert_eq!(scene.frame.height, 600);
    let stored = r.textures[scene.texture.id].read_back();
    assert_eq!(stored.len(), 360000);
    assert_eq!(stored[0], noise[0] | 0xFF00_0000);
}

#[test]
fn build_scene_rejects_short_noise() {
    let mut r = Renderer::new();
    let noise: Vec<u32> = vec![1, 2, 3];
    assert_eq!(build_scene(&mut r, &noise).err(), Some(TextureError::SizeMismatch));
}
