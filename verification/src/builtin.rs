use vstd::prelude::*;

use crate::vbo::AttributeKind;

verus! {

/// Vertex-stage source of the flat-color builtin program: a position
/// attribute in slot zero, passed through.
pub const SRC_BASIC_VERTEX: &'static str = "
    #version 330 core

    layout (location = 0) in vec3 a_pos;

    void main() {
        gl_Position = vec4(a_pos.x, a_pos.y, a_pos.z, 1.0);
    }
";

/// Fragment-stage source of the flat-color builtin program: one uniform
/// color for every fragment.
pub const SRC_BASIC_FRAGMENT: &'static str = "
    #version 330 core

    uniform vec4 u_color;

    out vec4 out_color;

    void main() {
        out_color = u_color;
    }
";

/// Vertex-stage source of the per-vertex-color builtin program: position in
/// slot zero, color in slot one, color interpolated to the fragments.
pub const SRC_COLOR_VERTEX: &'static str = "
    #version 330 core

    layout (location = 0) in vec3 a_pos;
    layout (location = 1) in vec4 a_color;

    out vec4 v_color;

    void main() {
        v_color = a_color;
        gl_Position = vec4(a_pos.x, a_pos.y, a_pos.z, 1.0);
    }
";

/// Fragment-stage source of the per-vertex-color builtin program.
pub const SRC_COLOR_FRAGMENT: &'static str = "
    #version 330 core

    in vec4 v_color;

    out vec4 out_color;

    void main() {
        out_color = v_color;
    }
";

/// Vertex-stage source of the textured builtin program: position in slot
/// zero, texture coordinate in slot one.
pub const SRC_TEXTURE_VERTEX: &'static str = "
    #version 330 core

    layout (location = 0) in vec3 a_pos;
    layout (location = 1) in vec2 a_coord;

    out vec2 v_coord;

    void main() {
        v_coord = a_coord;
        gl_Position = vec4(a_pos.x, a_pos.y, a_pos.z, 1.0);
    }
";

/// Fragment-stage source of the textured builtin program: samples the bound
/// texture at the interpolated coordinate.
pub const SRC_TEXTURE_FRAGMENT: &'static str = "
    #version 330 core

    uniform sampler2D u_tex;

    in vec2 v_coord;

    out vec4 out_color;

    void main() {
        out_color = texture(u_tex, v_coord);
    }
";

/// The attribute descriptors of the position-only builtin vertex: three
/// unnormalized floats.
pub fn basic_vertex_attrs() -> (v: Vec<(bool, usize, AttributeKind)>)
    ensures
        v@ =~= seq![(false, 3usize, AttributeKind::Float)],
{
    let mut v: Vec<(bool, usize, AttributeKind)> = Vec::new();
    v.push((false, 3, AttributeKind::Float));
    v
}

/// The attribute descriptors of the position-and-color builtin vertex:
/// three unnormalized floats, then four normalized bytes.
pub fn color_vertex_attrs() -> (v: Vec<(bool, usize, AttributeKind)>)
    ensures
        v@ =~= seq![
            (false, 3usize, AttributeKind::Float),
            (true, 4usize, AttributeKind::UnsignedByte),
        ],
{
    let mut v: Vec<(bool, usize, AttributeKind)> = Vec::new();
    v.push((false, 3, AttributeKind::Float));
    v.push((true, 4, AttributeKind::UnsignedByte));
    v
}

/// The attribute descriptors of the textured builtin vertex: three
/// unnormalized floats of position, then two of texture coordinate.
pub fn texture_vertex_attrs() -> (v: Vec<(bool, usize, AttributeKind)>)
    ensures
        v@ =~= seq![
            (false, 3usize, AttributeKind::Float),
            (false, 2usize, AttributeKind::Float),
        ],
{
    let mut v: Vec<(bool, usize, AttributeKind)> = Vec::new();
    v.push((false, 3, AttributeKind::Float));
    v.push((false, 2, AttributeKind::Float));
    v
}

} // verus!
