use gl_toolkit::AttributeKind;
use gl_toolkit::BufferKind;
use gl_toolkit::BufferMode;
use gl_toolkit::DrawCall;
use gl_toolkit::Error;
use gl_toolkit::GlError;
use gl_toolkit::PrimitiveKind;
use gl_toolkit::ProgramState;
use gl_toolkit::Shader;
use gl_toolkit::Stage;
use gl_toolkit::StageKind;
use gl_toolkit::VBO;
use gl_toolkit::attribute_layout;
use gl_toolkit::basic_vertex_attrs;
use gl_toolkit::color_vertex_attrs;
use gl_toolkit::layout_stride;
use gl_toolkit::texture_vertex_attrs;
use gl_toolkit::truncate_log;
use gl_toolkit::write_span;

#[test]
fn packed_offsets_and_stride() {
    // three unnormalized floats, then four normalized bytes:
    // offsets 0 and 12, stride 16
    let attrs = vec![
        (false, 3usize, AttributeKind::Float),
        (true, 4usize, AttributeKind::UnsignedByte),
    ];
    let stride = layout_stride(&attrs);
    assert_eq!(stride, 16);
    let layout = attribute_layout(&attrs, stride);
    assert_eq!(layout.len(), 2);
    assert_eq!(layout[0].index, 0);
    assert_eq!(layout[0].offset, 0);
    assert_eq!(layout[0].count, 3);
    assert_eq!(layout[0].kind, AttributeKind::Float);
    assert!(!layout[0].normalized);
    assert_eq!(layout[0].stride, 16);
    assert_eq!(layout[1].index, 1);
    assert_eq!(layout[1].offset, 12);
    assert_eq!(layout[1].count, 4);
    assert_eq!(layout[1].kind, AttributeKind::UnsignedByte);
    assert!(layout[1].normalized);
    assert_eq!(layout[1].stride, 16);
}

#[test]
fn builtin_vertex_layouts() {
    assert_eq!(layout_stride(&basic_vertex_attrs()), 12);
    assert_eq!(layout_stride(&color_vertex_attrs()), 16);
    assert_eq!(layout_stride(&texture_vertex_attrs()), 20);
    let layout = attribute_layout(&texture_vertex_attrs(), 20);
    assert_eq!(layout[0].offset, 0);
    assert_eq!(layout[1].offset, 12);
}

#[test]
fn empty_attribute_list_has_zero_stride() {
    let attrs: Vec<(bool, usize, AttributeKind)> = Vec::new();
    assert_eq!(layout_stride(&attrs), 0);
    assert!(attribute_layout(&attrs, 0).is_empty());
}

#[test]
fn indexed_vbo_draws_index_count() {
    // four vertices and six indices: two triangles of a quad
    let vbo = VBO::new(BufferMode::StaticDraw, PrimitiveKind::Triangles, 4, 6, 1, 2, 3);
    assert_eq!(vbo.render(), DrawCall::Elements { mode: 0x0004, count: 6 });
    assert_eq!(vbo.vertex_count(), 4);
    assert_eq!(vbo.index_count(), 6);
}

#[test]
fn unindexed_vbo_draws_vertex_count() {
    // four vertices, no indices, triangle-fan topology
    let vbo = VBO::new(BufferMode::StaticDraw, PrimitiveKind::TriangleFan, 4, 0, 1, 2, 0);
    assert_eq!(vbo.render(), DrawCall::Arrays { mode: 0x0006, count: 4 });
}

#[test]
fn vbo_records_mode_and_handles() {
    let vbo = VBO::new(BufferMode::DynamicDraw, PrimitiveKind::Points, 8, 0, 5, 6, 7);
    assert_eq!(vbo.mode(), BufferMode::DynamicDraw);
    assert_eq!(vbo.handle(), 5);
    assert_eq!(vbo.get_buffer_handle(BufferKind::Vertex), 6);
    assert_eq!(vbo.get_buffer_handle(BufferKind::Index), 7);
}

#[test]
fn write_span_scales_elements_to_bytes() {
    // writing 3 elements of 20 bytes at element offset 2
    assert_eq!(write_span(20, 2, 3), Some((40, 60)));
    assert_eq!(write_span(2, 0, 6), Some((0, 12)));
    // a span that cannot be addressed is refused
    assert_eq!(write_span(usize::MAX, 2, 1), None);
}

#[test]
fn buffer_enumerants_match_the_driver() {
    assert_eq!(BufferKind::Vertex.to_raw_enum(), 0x8892);
    assert_eq!(BufferKind::Index.to_raw_enum(), 0x8893);
    assert_eq!(BufferMode::StaticDraw.to_raw_enum(), 0x88E4);
    assert_eq!(BufferMode::StreamCopy.to_raw_enum(), 0x88E2);
    assert_eq!(PrimitiveKind::Points.to_raw_enum(), 0x0000);
    assert_eq!(PrimitiveKind::Triangles.to_raw_enum(), 0x0004);
    assert_eq!(PrimitiveKind::TriangleFan.to_raw_enum(), 0x0006);
    assert_eq!(PrimitiveKind::TriangleStrip.to_raw_enum(), 0x0005);
    assert_eq!(AttributeKind::Float.to_raw_enum(), 0x1406);
    assert_eq!(AttributeKind::UnsignedByte.to_raw_enum(), 0x1401);
    assert_eq!(AttributeKind::Float.size(), 4);
    assert_eq!(AttributeKind::UnsignedByte.size(), 1);
    assert_eq!(AttributeKind::Double.size(), 8);
    assert_eq!(AttributeKind::Half.size(), 2);
}

#[test]
fn stage_kind_enumerants_match_the_driver() {
    assert_eq!(StageKind::Vertex.get_native(), 0x8B31);
    assert_eq!(StageKind::Geometry.get_native(), 0x8DD9);
    assert_eq!(StageKind::Fragment.get_native(), 0x8B30);
}

#[test]
fn failed_compile_carries_the_log() {
    let r = Stage::from_compile_status(3, false, String::from("bad token"));
    assert_eq!(r.unwrap_err(), Error::CompileShaderStageFailed(String::from("bad token")));
    let s = Stage::from_compile_status(3, true, String::new()).unwrap();
    assert_eq!(s.handle(), 3);
}

#[test]
fn failed_link_carries_the_log() {
    let r = Shader::from_link_status(4, false, String::from("missing main"));
    assert_eq!(r.unwrap_err(), Error::LinkShaderProgramFailed(String::from("missing main")));
    let s = Shader::from_link_status(4, true, String::new()).unwrap();
    assert_eq!(s.handle(), 4);
}

#[test]
fn shader_bind_elides_redundant_program_calls() {
    let mut programs = ProgramState::new();
    assert_eq!(programs.active_program(), 0);
    let shader = Shader::from_link_status(4, true, String::new()).unwrap();
    assert!(shader.bind(&mut programs));
    assert_eq!(programs.active_program(), 4);
    assert!(!shader.bind(&mut programs));
    let other = Shader::from_link_status(5, true, String::new()).unwrap();
    assert!(other.bind(&mut programs));
    assert!(shader.bind(&mut programs));
}

#[test]
fn logs_are_truncated_to_the_cap() {
    let short: Vec<u8> = vec![b'x'; 10];
    assert_eq!(truncate_log(&short), short);
    let exact: Vec<u8> = vec![b'y'; 511];
    assert_eq!(truncate_log(&exact).len(), 511);
    let long: Vec<u8> = vec![b'z'; 1000];
    let t = truncate_log(&long);
    assert_eq!(t.len(), 511);
    assert!(t.iter().all(|&c| c == b'z'));
}

#[test]
fn gl_error_codes_round_trip() {
    assert_eq!(GlError::new(0), GlError::NoError);
    assert_eq!(GlError::new(0x0500), GlError::InvalidEnum);
    assert_eq!(GlError::new(0x0505), GlError::OutOfMemory);
    assert_eq!(GlError::new(0xBEEF), GlError::Unknown(0xBEEF));
    assert_eq!(GlError::InvalidOperation.get_native(), 0x0502);
    assert_eq!(GlError::new(GlError::StackUnderflow.get_native()), GlError::StackUnderflow);
}

#[test]
fn toolkit_init_builds_every_mirror() {
    let toolkit = gl_toolkit::init(16).unwrap();
    assert!(toolkit.context.initialized());
    assert_eq!(toolkit.textures.len(), 16);
    assert_eq!(toolkit.textures.active_unit(), 0);
    assert_eq!(toolkit.programs.active_program(), 0);
}
