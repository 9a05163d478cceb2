use vstd::prelude::*;

verus! {

/// Which of a vertex-buffer object's stores a write addresses.
#[derive(Debug, Copy, Clone, PartialEq, Eq, Structural)]
pub enum BufferKind {
    Vertex,
    Index,
}

impl BufferKind {
    /// The driver's buffer-target enumerant for this store.
    pub open spec fn native_spec(self) -> u32 {
        match self {
            BufferKind::Vertex => 0x8892,
            BufferKind::Index => 0x8893,
        }
    }

    /// The driver's buffer-target enumerant for this store.
    pub fn to_raw_enum(&self) -> (raw: u32)
        ensures
            raw == self.native_spec(),
    {
        match self {
            BufferKind::Vertex => 0x8892,
            BufferKind::Index => 0x8893,
        }
    }
}

/// The usage pattern a buffer is allocated for.
#[derive(Debug, Copy, Clone, PartialEq, Eq, Structural)]
pub enum BufferMode {
    StaticDraw,
    StaticRead,
    StaticCopy,
    DynamicDraw,
    DynamicRead,
    DynamicCopy,
    StreamDraw,
    StreamRead,
    StreamCopy,
}

impl BufferMode {
    /// The driver's usage enumerant for this mode.
    pub open spec fn native_spec(self) -> u32 {
        match self {
            BufferMode::StaticDraw => 0x88E4,
            BufferMode::StaticRead => 0x88E5,
            BufferMode::StaticCopy => 0x88E6,
            BufferMode::DynamicDraw => 0x88E8,
            BufferMode::DynamicRead => 0x88E9,
            BufferMode::DynamicCopy => 0x88EA,
            BufferMode::StreamDraw => 0x88E0,
            BufferMode::StreamRead => 0x88E1,
            BufferMode::StreamCopy => 0x88E2,
        }
    }

    /// The driver's usage enumerant for this mode.
    pub fn to_raw_enum(&self) -> (raw: u32)
        ensures
            raw == self.native_spec(),
    {
        match self {
            BufferMode::StaticDraw => 0x88E4,
            BufferMode::StaticRead => 0x88E5,
            BufferMode::StaticCopy => 0x88E6,
            BufferMode::DynamicDraw => 0x88E8,
            BufferMode::DynamicRead => 0x88E9,
            BufferMode::DynamicCopy => 0x88EA,
            BufferMode::StreamDraw => 0x88E0,
            BufferMode::StreamRead => 0x88E1,
            BufferMode::StreamCopy => 0x88E2,
        }
    }
}

/// The element kind of one vertex attribute.
#[derive(Debug, Copy, Clone, PartialEq, Eq, Structural)]
pub enum AttributeKind {
    Byte,
    Short,
    Int,
    UnsignedByte,
    UnsignedShort,
    UnsignedInt,
    Half,
    Float,
    Double,
    Fixed,
}

impl AttributeKind {
    /// The driver's element-kind enumerant.
    pub open spec fn native_spec(self) -> u32 {
        match self {
            AttributeKind::Byte => 0x1400,
            AttributeKind::Short => 0x1402,
            AttributeKind::Int => 0x1404,
            AttributeKind::UnsignedByte => 0x1401,
            AttributeKind::UnsignedShort => 0x1403,
            AttributeKind::UnsignedInt => 0x1405,
            AttributeKind::Half => 0x140B,
            AttributeKind::Float => 0x1406,
            AttributeKind::Double => 0x140A,
            AttributeKind::Fixed => 0x140C,
        }
    }

    /// One element's size in bytes.
    pub open spec fn size_spec(self) -> int {
        match self {
            AttributeKind::Byte => 1,
            AttributeKind::Short => 2,
            AttributeKind::Int => 4,
            AttributeKind::UnsignedByte => 1,
            AttributeKind::UnsignedShort => 2,
            AttributeKind::UnsignedInt => 4,
            AttributeKind::Half => 2,
            AttributeKind::Float => 4,
            AttributeKind::Double => 8,
            AttributeKind::Fixed => 4,
        }
    }

    /// The driver's element-kind enumerant.
    pub fn to_raw_enum(&self) -> (raw: u32)
        ensures
            raw == self.native_spec(),
    {
        match self {
            AttributeKind::Byte => 0x1400,
            AttributeKind::Short => 0x1402,
            AttributeKind::Int => 0x1404,
            AttributeKind::UnsignedByte => 0x1401,
            AttributeKind::UnsignedShort => 0x1403,
            AttributeKind::UnsignedInt => 0x1405,
            AttributeKind::Half => 0x140B,
            AttributeKind::Float => 0x1406,
            AttributeKind::Double => 0x140A,
            AttributeKind::Fixed => 0x140C,
        }
    }

    /// One element's size in bytes.
    pub fn size(&self) -> (n: usize)
        ensures
            n == self.size_spec(),
            1 <= n <= 8,
    {
        match self {
            AttributeKind::Byte => 1,
            AttributeKind::Short => 2,
            AttributeKind::Int => 4,
            AttributeKind::UnsignedByte => 1,
            AttributeKind::UnsignedShort => 2,
            AttributeKind::UnsignedInt => 4,
            AttributeKind::Half => 2,
            AttributeKind::Float => 4,
            AttributeKind::Double => 8,
            AttributeKind::Fixed => 4,
        }
    }
}

/// The primitive topology a draw call assembles.
#[derive(Debug, Copy, Clone, PartialEq, Eq, Structural)]
pub enum PrimitiveKind {
    Points,
    Triangles,
    TriangleFan,
    TriangleStrip,
}

impl PrimitiveKind {
    /// The driver's topology enumerant.
    pub open spec fn native_spec(self) -> u32 {
        match self {
            PrimitiveKind::Points => 0x0000,
            PrimitiveKind::Triangles => 0x0004,
            PrimitiveKind::TriangleFan => 0x0006,
            PrimitiveKind::TriangleStrip => 0x0005,
        }
    }

    /// The driver's topology enumerant.
    pub fn to_raw_enum(&self) -> (raw: u32)
        ensures
            raw == self.native_spec(),
    {
        match self {
            PrimitiveKind::Points => 0x0000,
            PrimitiveKind::Triangles => 0x0004,
            PrimitiveKind::TriangleFan => 0x0006,
            PrimitiveKind::TriangleStrip => 0x0005,
        }
    }
}

/// A vertex type that a buffer can be built from: an ordered list of
/// attribute descriptors — `(normalize, component count, element kind)`,
/// one per binding slot, in field order — and a default-valued constructor.
/// The descriptors must match the type's packed in-memory layout.
pub trait Vertex: Sized {
    /// The type's attribute descriptors, in binding-slot order.
    fn attrs() -> Vec<(bool, usize, AttributeKind)>;

    /// A default-valued vertex.
    fn new() -> Self;
}

/// The bytes one attribute descriptor occupies in a vertex:
/// component count times element size.
pub open spec fn attr_bytes(a: (bool, usize, AttributeKind)) -> int {
    a.1 * a.2.size_spec()
}

/// The byte offset of attribute `i` in a packed vertex: the sum of the bytes
/// of all attributes before it.
pub open spec fn offset_of(attrs: Seq<(bool, usize, AttributeKind)>, i: int) -> int
    decreases i,
{
    if i <= 0 {
        0
    } else {
        offset_of(attrs, i - 1) + attr_bytes(attrs[i - 1])
    }
}

/// The packed stride of a vertex: the sum of all its attributes' bytes.
pub open spec fn stride_spec(attrs: Seq<(bool, usize, AttributeKind)>) -> int {
    offset_of(attrs, attrs.len() as int)
}

/// Attribute offsets grow with the slot index: each step adds that
/// attribute's non-negative byte size, so every offset is at most the
/// stride.
pub proof fn lemma_offset_monotone(attrs: Seq<(bool, usize, AttributeKind)>, i: int, j: int)
    requires
        0 <= i <= j,
    ensures
        offset_of(attrs, i) <= offset_of(attrs, j),
    decreases j,
{
    if i < j {
        lemma_offset_monotone(attrs, i, j - 1);
        assert(attr_bytes(attrs[j - 1]) >= 0) by {
            assert(attrs[j - 1].1 >= 0);
            assert(attrs[j - 1].2.size_spec() >= 1);
        }
    }
}

/// One slot of a vertex layout, ready to hand to the driver's
/// attribute-pointer call.
#[derive(Debug, Copy, Clone, PartialEq, Eq, Structural)]
pub struct AttributePointer {
    /// The binding slot, equal to the descriptor's position.
    pub index: u32,
    /// The component count of the descriptor.
    pub count: usize,
    /// The element kind of the descriptor.
    pub kind: AttributeKind,
    /// Whether fixed-point values are normalized when read.
    pub normalized: bool,
    /// The byte distance between consecutive vertices.
    pub stride: usize,
    /// The attribute's byte offset inside one vertex.
    pub offset: usize,
}

/// The packed stride of a vertex with the given attribute descriptors.
pub fn layout_stride(attrs: &Vec<(bool, usize, AttributeKind)>) -> (n: usize)
    requires
        stride_spec(attrs@) <= usize::MAX,
    ensures
        n == stride_spec(attrs@),
{
    let mut n: usize = 0;
    let mut i: usize = 0;
    while i < attrs.len()
        invariant
            i <= attrs@.len(),
            n == offset_of(attrs@, i as int),
            stride_spec(attrs@) <= usize::MAX,
        decreases attrs@.len() - i,
    {
        let (_, count, kind) = attrs[i];
        proof {
            lemma_offset_monotone(attrs@, i + 1, attrs@.len() as int);
        }
        n = n + count * kind.size();
        i = i + 1;
    }
    n
}

/// Lays out the attribute descriptors of one vertex type: slot `i` gets
/// binding index `i`, the descriptor's count, kind and normalize flag, the
/// given stride, and the packed byte offset — the sum of the bytes of the
/// descriptors before it.
pub fn attribute_layout(attrs: &Vec<(bool, usize, AttributeKind)>, stride: usize) -> (layout: Vec<
    AttributePointer,
>)
    requires
        attrs@.len() <= u32::MAX,
        stride_spec(attrs@) <= usize::MAX,
    ensures
        layout@.len() == attrs@.len(),
        forall|i: int|
            0 <= i < attrs@.len() ==> layout@[i] == (AttributePointer {
                index: i as u32,
                count: attrs@[i].1,
                kind: attrs@[i].2,
                normalized: attrs@[i].0,
                stride,
                offset: offset_of(attrs@, i) as usize,
            }),
{
    let mut layout: Vec<AttributePointer> = Vec::new();
    let mut offset: usize = 0;
    let mut i: usize = 0;
    while i < attrs.len()
        invariant
            i <= attrs@.len(),
            attrs@.len() <= u32::MAX,
            stride_spec(attrs@) <= usize::MAX,
            offset == offset_of(attrs@, i as int),
            layout@.len() == i,
            forall|j: int|
                0 <= j < i ==> layout@[j] == (AttributePointer {
                    index: j as u32,
                    count: attrs@[j].1,
                    kind: attrs@[j].2,
                    normalized: attrs@[j].0,
                    stride,
                    offset: offset_of(attrs@, j) as usize,
                }),
        decreases attrs@.len() - i,
    {
        let (normalized, count, kind) = attrs[i];
        layout.push(
            AttributePointer { index: i as u32, count, kind, normalized, stride, offset },
        );
        proof {
            lemma_offset_monotone(attrs@, i + 1, attrs@.len() as int);
        }
        offset = offset + count * kind.size();
        i = i + 1;
    }
    layout
}

/// The draw call a vertex-buffer object asks its caller to issue: the
/// topology's driver enumerant and the element count, indexed or not.
#[derive(Debug, Copy, Clone, PartialEq, Eq, Structural)]
pub enum DrawCall {
    /// Draw `count` sixteen-bit indices from the index store, starting at
    /// offset zero.
    Elements { mode: u32, count: usize },
    /// Draw `count` vertices from the vertex store, starting at zero.
    Arrays { mode: u32, count: usize },
}

/// The mathematical content of a vertex-buffer object.
#[verifier::ext_equal]
pub struct VboView {
    pub mode: BufferMode,
    pub primitive_kind: PrimitiveKind,
    pub handle: u32,
    pub vbo_handle: u32,
    pub ibo_handle: u32,
    pub index_count: usize,
    pub vertex_count: usize,
}

/// A vertex-buffer object: the driver handles of its vertex-array, vertex
/// and optional index stores, and the element counts its draw call covers.
/// The vertex and index data themselves live driver-side; only counts and
/// handles are retained.
#[derive(Debug)]
pub struct VBO {
    mode: BufferMode,
    primitive_kind: PrimitiveKind,
    handle: u32,
    vbo_handle: u32,
    ibo_handle: u32,
    index_count: usize,
    vertex_count: usize,
}

impl View for VBO {
    type V = VboView;

    closed spec fn view(&self) -> VboView {
        VboView {
            mode: self.mode,
            primitive_kind: self.primitive_kind,
            handle: self.handle,
            vbo_handle: self.vbo_handle,
            ibo_handle: self.ibo_handle,
            index_count: self.index_count,
            vertex_count: self.vertex_count,
        }
    }
}

impl VBO {
    /// The record of a built vertex-buffer object. The caller has uploaded
    /// `vertex_count` vertices — a buffer is never built from an empty
    /// sequence — and `index_count` sixteen-bit indices, zero when no index
    /// store exists, and hands over the driver handles it was given.
    pub fn new(
        mode: BufferMode,
        primitive_kind: PrimitiveKind,
        vertex_count: usize,
        index_count: usize,
        handle: u32,
        vbo_handle: u32,
        ibo_handle: u32,
    ) -> (v: VBO)
        requires
            vertex_count > 0,
        ensures
            v@ == (VboView {
                mode,
                primitive_kind,
                handle,
                vbo_handle,
                ibo_handle,
                index_count,
                vertex_count,
            }),
    {
        VBO { mode, primitive_kind, handle, vbo_handle, ibo_handle, index_count, vertex_count }
    }

    /// The usage mode the buffers were allocated with.
    pub fn mode(&self) -> (m: BufferMode)
        ensures
            m == self@.mode,
    {
        self.mode
    }

    /// The vertex-array handle.
    pub fn handle(&self) -> (h: u32)
        ensures
            h == self@.handle,
    {
        self.handle
    }

    /// The driver handle of one of the stores.
    pub fn get_buffer_handle(&self, kind: BufferKind) -> (h: u32)
        ensures
            kind == BufferKind::Vertex ==> h == self@.vbo_handle,
            kind == BufferKind::Index ==> h == self@.ibo_handle,
    {
        match kind {
            BufferKind::Vertex => self.vbo_handle,
            BufferKind::Index => self.ibo_handle,
        }
    }

    /// How many vertices the vertex store holds.
    pub fn vertex_count(&self) -> (n: usize)
        ensures
            n == self@.vertex_count,
    {
        self.vertex_count
    }

    /// How many indices the index store holds; zero when there is none.
    pub fn index_count(&self) -> (n: usize)
        ensures
            n == self@.index_count,
    {
        self.index_count
    }

    /// The draw call this object stands for: with an index store, an indexed
    /// draw over all `index_count` indices; without one, a non-indexed draw
    /// over all `vertex_count` vertices. No partial range is ever drawn.
    pub fn render(&self) -> (call: DrawCall)
        ensures
            self@.index_count > 0 ==> call == (DrawCall::Elements {
                mode: self@.primitive_kind.native_spec(),
                count: self@.index_count,
            }),
            self@.index_count == 0 ==> call == (DrawCall::Arrays {
                mode: self@.primitive_kind.native_spec(),
                count: self@.vertex_count,
            }),
    {
        let mode = self.primitive_kind.to_raw_enum();
        if self.index_count > 0 {
            DrawCall::Elements { mode, count: self.index_count }
        } else {
            DrawCall::Arrays { mode, count: self.vertex_count }
        }
    }
}

/// The byte span a sub-range write covers, for elements of `elem_size`
/// bytes: the byte offset of element `offset`, and the byte length of
/// `count` elements. `None` when either product exceeds the address space —
/// the caller contract that the write stays inside the original allocation
/// is the driver's affair, but the byte arithmetic itself must not wrap.
pub fn write_span(elem_size: usize, offset: usize, count: usize) -> (r: Option<(usize, usize)>)
    ensures
        offset * elem_size <= usize::MAX && count * elem_size <= usize::MAX ==> r == Some(
            (((offset * elem_size) as usize), ((count * elem_size) as usize)),
        ),
        !(offset * elem_size <= usize::MAX && count * elem_size <= usize::MAX) ==> r is None,
{
    match (offset.checked_mul(elem_size), count.checked_mul(elem_size)) {
        (Some(byte_offset), Some(byte_len)) => Some((byte_offset, byte_len)),
        _ => None,
    }
}

} // verus!
