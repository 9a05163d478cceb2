pub mod builtin;
pub mod color;
pub mod context;
pub mod error;
pub mod shader;
pub mod texture;
pub mod vbo;

pub use color::Color;
pub use context::BlendComponent;
pub use context::ClearFlag;
pub use context::ClearFlags;
pub use context::Feature;
pub use context::clear;
pub use context::FrontFace;
pub use context::RenderContext;
pub use context::StateView;
pub use context::Viewport;
pub use builtin::SRC_BASIC_FRAGMENT;
pub use builtin::SRC_BASIC_VERTEX;
pub use builtin::SRC_COLOR_FRAGMENT;
pub use builtin::SRC_COLOR_VERTEX;
pub use builtin::SRC_TEXTURE_FRAGMENT;
pub use builtin::SRC_TEXTURE_VERTEX;
pub use builtin::basic_vertex_attrs;
pub use builtin::color_vertex_attrs;
pub use builtin::texture_vertex_attrs;
pub use error::Error;
pub use error::GlError;
pub use shader::MAX_LOG_BYTES;
pub use shader::ProgramState;
pub use shader::Shader;
pub use shader::Stage;
pub use shader::StageKind;
pub use shader::truncate_log;
pub use texture::BindCalls;
pub use texture::ClampMode;
pub use texture::MagFilter;
pub use texture::MinFilter;
pub use texture::Texture;
pub use texture::TextureUnit;
pub use texture::TextureUnits;
pub use texture::TextureUnitsView;
pub use texture::TextureView;
pub use texture::WrapCoord;
pub use vbo::AttributeKind;
pub use vbo::AttributePointer;
pub use vbo::BufferKind;
pub use vbo::BufferMode;
pub use vbo::DrawCall;
pub use vbo::PrimitiveKind;
pub use vbo::VBO;
pub use vbo::VboView;
pub use vbo::Vertex;
pub use vbo::attribute_layout;
pub use vbo::layout_stride;
pub use vbo::write_span;

use vstd::prelude::*;

verus! {

/// Everything the library mirrors of the driver's global state: the
/// render-state cache, the texture-unit table, and the active-program
/// mirror.
pub struct Toolkit {
    pub context: RenderContext,
    pub textures: TextureUnits,
    pub programs: ProgramState,
}

/// One-time setup of the library's state mirrors, for a driver with
/// `max_texture_units` texture units. The render-state cache is created and
/// marked initialized; the caller must reset the driver to match every
/// mirror's defaults: the cache's front face, viewport and blend function,
/// every texture unit unbound with unit zero active, and no program active.
pub fn init(max_texture_units: usize) -> (r: Result<Toolkit, Error>)
    ensures
        r matches Ok(t) && ({
            &&& t.context.wf()
            &&& t.context@ == (StateView {
                initialized: true,
                front: FrontFace::CounterClockwise,
                blend_src: BlendComponent::SrcAlpha,
                blend_dst: BlendComponent::OneMinusSrcAlpha,
                clear_color: Color { r: 0, g: 0, b: 0, a: 0 },
                viewport: Viewport { x: 0, y: 0, width: 0, height: 0 },
                features: Set::<Feature>::empty(),
            })
            &&& t.textures@.active_unit == 0
            &&& t.textures@.units.len() == max_texture_units
            &&& forall|i: int|
                0 <= i < max_texture_units ==> t.textures@.units[i] == (TextureUnit {
                    d1_handle: 0,
                    d2_handle: 0,
                    d3_handle: 0,
                })
            &&& t.programs@ == 0
        }),
{
    let mut context = RenderContext::new();
    match context.init() {
        Ok(_) => Ok(
            Toolkit { context, textures: TextureUnits::init(max_texture_units), programs: ProgramState::new() },
        ),
        Err(e) => Err(e),
    }
}

} // verus!
