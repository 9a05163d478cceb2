use vstd::prelude::*;

use crate::color::Color;
use crate::error::Error;

verus! {

/// A driver capability that can be switched on and off.
#[derive(Debug, Copy, Clone, Eq, PartialEq, Structural)]
pub enum Feature {
    Blend,
    ColorLogicOp,
    CullFace,
    DepthClamp,
    DepthTest,
    Dither,
    FramebufferSrgb,
    LineSmooth,
    Multisample,
    PolygonOffsetFill,
    PolygonOffsetLine,
    PolygonOffsetPoint,
    PolygonSmooth,
    RasterizerDiscard,
    SampleAlphaToCoverage,
    SampleAlphaToOne,
    SampleCoverage,
    SampleShading,
    SampleMask,
    ScissorTest,
    StencilTest,
    TextureCubeMapSeamless,
    ProgramPointSize,
}

/// How many distinct features there are.
pub const FEATURE_COUNT: usize = 23;

impl Feature {
    /// The driver enumerant for this capability.
    pub open spec fn native_spec(self) -> u32 {
        match self {
            Feature::Blend => 0x0BE2,
            Feature::ColorLogicOp => 0x0BF2,
            Feature::CullFace => 0x0B44,
            Feature::DepthClamp => 0x864F,
            Feature::DepthTest => 0x0B71,
            Feature::Dither => 0x0BD0,
            Feature::FramebufferSrgb => 0x8DB9,
            Feature::LineSmooth => 0x0B20,
            Feature::Multisample => 0x809D,
            Feature::PolygonOffsetFill => 0x8037,
            Feature::PolygonOffsetLine => 0x2A02,
            Feature::PolygonOffsetPoint => 0x2A01,
            Feature::PolygonSmooth => 0x0B41,
            Feature::RasterizerDiscard => 0x8C89,
            Feature::SampleAlphaToCoverage => 0x809E,
            Feature::SampleAlphaToOne => 0x809F,
            Feature::SampleCoverage => 0x80A0,
            Feature::SampleShading => 0x8C36,
            Feature::SampleMask => 0x8E51,
            Feature::ScissorTest => 0x0C11,
            Feature::StencilTest => 0x0B90,
            Feature::TextureCubeMapSeamless => 0x884F,
            Feature::ProgramPointSize => 0x8642,
        }
    }

    /// A dense index for this feature, used by the enabled-feature table.
    pub open spec fn index_spec(self) -> int {
        match self {
            Feature::Blend => 0,
            Feature::ColorLogicOp => 1,
            Feature::CullFace => 2,
            Feature::DepthClamp => 3,
            Feature::DepthTest => 4,
            Feature::Dither => 5,
            Feature::FramebufferSrgb => 6,
            Feature::LineSmooth => 7,
            Feature::Multisample => 8,
            Feature::PolygonOffsetFill => 9,
            Feature::PolygonOffsetLine => 10,
            Feature::PolygonOffsetPoint => 11,
            Feature::PolygonSmooth => 12,
            Feature::RasterizerDiscard => 13,
            Feature::SampleAlphaToCoverage => 14,
            Feature::SampleAlphaToOne => 15,
            Feature::SampleCoverage => 16,
            Feature::SampleShading => 17,
            Feature::SampleMask => 18,
            Feature::ScissorTest => 19,
            Feature::StencilTest => 20,
            Feature::TextureCubeMapSeamless => 21,
            Feature::ProgramPointSize => 22,
        }
    }

    /// Distinct features occupy distinct slots of the enabled-feature table.
    pub proof fn lemma_index_injective(a: Feature, b: Feature)
        requires
            a != b,
        ensures
            a.index_spec() != b.index_spec(),
    {
    }

    /// The driver enumerant for this capability.
    pub fn get_native(&self) -> (raw: u32)
        ensures
            raw == self.native_spec(),
    {
        match self {
            Feature::Blend => 0x0BE2,
            Feature::ColorLogicOp => 0x0BF2,
            Feature::CullFace => 0x0B44,
            Feature::DepthClamp => 0x864F,
            Feature::DepthTest => 0x0B71,
            Feature::Dither => 0x0BD0,
            Feature::FramebufferSrgb => 0x8DB9,
            Feature::LineSmooth => 0x0B20,
            Feature::Multisample => 0x809D,
            Feature::PolygonOffsetFill => 0x8037,
            Feature::PolygonOffsetLine => 0x2A02,
            Feature::PolygonOffsetPoint => 0x2A01,
            Feature::PolygonSmooth => 0x0B41,
            Feature::RasterizerDiscard => 0x8C89,
            Feature::SampleAlphaToCoverage => 0x809E,
            Feature::SampleAlphaToOne => 0x809F,
            Feature::SampleCoverage => 0x80A0,
            Feature::SampleShading => 0x8C36,
            Feature::SampleMask => 0x8E51,
            Feature::ScissorTest => 0x0C11,
            Feature::StencilTest => 0x0B90,
            Feature::TextureCubeMapSeamless => 0x884F,
            Feature::ProgramPointSize => 0x8642,
        }
    }

    fn index(&self) -> (i: usize)
        ensures
            i == self.index_spec(),
            i < FEATURE_COUNT,
    {
        match self {
            Feature::Blend => 0,
            Feature::ColorLogicOp => 1,
            Feature::CullFace => 2,
            Feature::DepthClamp => 3,
            Feature::DepthTest => 4,
            Feature::Dither => 5,
            Feature::FramebufferSrgb => 6,
            Feature::LineSmooth => 7,
            Feature::Multisample => 8,
            Feature::PolygonOffsetFill => 9,
            Feature::PolygonOffsetLine => 10,
            Feature::PolygonOffsetPoint => 11,
            Feature::PolygonSmooth => 12,
            Feature::RasterizerDiscard => 13,
            Feature::SampleAlphaToCoverage => 14,
            Feature::SampleAlphaToOne => 15,
            Feature::SampleCoverage => 16,
            Feature::SampleShading => 17,
            Feature::SampleMask => 18,
            Feature::ScissorTest => 19,
            Feature::StencilTest => 20,
            Feature::TextureCubeMapSeamless => 21,
            Feature::ProgramPointSize => 22,
        }
    }
}

/// The winding order that counts as front-facing.
#[derive(Debug, Copy, Clone, PartialEq, Eq, Structural)]
pub enum FrontFace {
    Clockwise,
    CounterClockwise,
}

impl FrontFace {
    /// The driver enumerant for this winding order.
    pub open spec fn native_spec(self) -> u32 {
        match self {
            FrontFace::Clockwise => 0x0900,
            FrontFace::CounterClockwise => 0x0901,
        }
    }

    /// The driver enumerant for this winding order.
    pub fn get_native(&self) -> (raw: u32)
        ensures
            raw == self.native_spec(),
    {
        match self {
            FrontFace::Clockwise => 0x0900,
            FrontFace::CounterClockwise => 0x0901,
        }
    }
}

/// One factor of the blend function.
#[derive(Debug, Copy, Clone, PartialEq, Eq, Structural)]
pub enum BlendComponent {
    Zero,
    One,
    SrcColor,
    DstColor,
    SrcAlpha,
    DstAlpha,
    ConstColor,
    ConstAlpha,
    SrcAlphaSaturate,
    OneMinusSrcColor,
    OneMinusDstColor,
    OneMinusSrcAlpha,
    OneMinusDstAlpha,
    OneMinusConstColor,
    OneMinusConstAlpha,
}

impl BlendComponent {
    /// The driver enumerant for this blend factor.
    pub open spec fn native_spec(self) -> u32 {
        match self {
            BlendComponent::Zero => 0,
            BlendComponent::One => 1,
            BlendComponent::SrcColor => 0x0300,
            BlendComponent::DstColor => 0x0306,
            BlendComponent::SrcAlpha => 0x0302,
            BlendComponent::DstAlpha => 0x0304,
            BlendComponent::ConstColor => 0x8001,
            BlendComponent::ConstAlpha => 0x8003,
            BlendComponent::SrcAlphaSaturate => 0x0308,
            BlendComponent::OneMinusSrcColor => 0x0301,
            BlendComponent::OneMinusDstColor => 0x0307,
            BlendComponent::OneMinusSrcAlpha => 0x0303,
            BlendComponent::OneMinusDstAlpha => 0x0305,
            BlendComponent::OneMinusConstColor => 0x8002,
            BlendComponent::OneMinusConstAlpha => 0x8004,
        }
    }

    /// The driver enumerant for this blend factor.
    pub fn get_native(&self) -> (raw: u32)
        ensures
            raw == self.native_spec(),
    {
        match self {
            BlendComponent::Zero => 0,
            BlendComponent::One => 1,
            BlendComponent::SrcColor => 0x0300,
            BlendComponent::DstColor => 0x0306,
            BlendComponent::SrcAlpha => 0x0302,
            BlendComponent::DstAlpha => 0x0304,
            BlendComponent::ConstColor => 0x8001,
            BlendComponent::ConstAlpha => 0x8003,
            BlendComponent::SrcAlphaSaturate => 0x0308,
            BlendComponent::OneMinusSrcColor => 0x0301,
            BlendComponent::OneMinusDstColor => 0x0307,
            BlendComponent::OneMinusSrcAlpha => 0x0303,
            BlendComponent::OneMinusDstAlpha => 0x0305,
            BlendComponent::OneMinusConstColor => 0x8002,
            BlendComponent::OneMinusConstAlpha => 0x8004,
        }
    }
}

/// One buffer that a clear pass can touch.
#[derive(Debug, Copy, Clone, PartialEq, Eq, Structural)]
pub enum ClearFlag {
    Color,
    Depth,
    Stencil,
}

impl ClearFlag {
    /// The driver's bit for clearing this buffer.
    pub open spec fn native_spec(self) -> u32 {
        match self {
            ClearFlag::Color => 0x00004000,
            ClearFlag::Depth => 0x00000100,
            ClearFlag::Stencil => 0x00000400,
        }
    }

    /// The driver's bit for clearing this buffer.
    pub fn get_native(&self) -> (raw: u32)
        ensures
            raw == self.native_spec(),
    {
        match self {
            ClearFlag::Color => 0x00004000,
            ClearFlag::Depth => 0x00000100,
            ClearFlag::Stencil => 0x00000400,
        }
    }
}

/// A combination of buffers to clear in one pass.
#[derive(Debug, Copy, Clone, PartialEq, Eq, Structural)]
pub struct ClearFlags {
    pub color: bool,
    pub depth: bool,
    pub stencil: bool,
}

impl ClearFlags {
    /// The combination of the selected buffers' driver bits. The three bits
    /// are disjoint, so their bitwise-OR equals their sum.
    pub open spec fn bits_spec(self) -> u32 {
        ((if self.color { 0x00004000int } else { 0int }) + (if self.depth {
            0x00000100int
        } else {
            0int
        }) + (if self.stencil { 0x00000400int } else { 0int })) as u32
    }

    /// The combination of the selected buffers' driver bits.
    pub fn bits(&self) -> (raw: u32)
        ensures
            raw == self.bits_spec(),
    {
        let mut raw: u32 = 0;
        if self.color {
            raw = raw + 0x00004000;
        }
        if self.depth {
            raw = raw + 0x00000100;
        }
        if self.stencil {
            raw = raw + 0x00000400;
        }
        raw
    }
}

/// The drawable region, in pixels.
#[derive(Debug, Copy, Clone, PartialEq, Eq, Structural)]
pub struct Viewport {
    pub x: u32,
    pub y: u32,
    pub width: u32,
    pub height: u32,
}

impl Viewport {
    /// The zero-sized viewport at the origin.
    pub fn new() -> (v: Viewport)
        ensures
            v == (Viewport { x: 0, y: 0, width: 0, height: 0 }),
    {
        Viewport { x: 0, y: 0, width: 0, height: 0 }
    }
}

/// The mathematical content of the render-state cache.
#[verifier::ext_equal]
pub struct StateView {
    pub initialized: bool,
    pub front: FrontFace,
    pub blend_src: BlendComponent,
    pub blend_dst: BlendComponent,
    pub clear_color: Color,
    pub viewport: Viewport,
    pub features: Set<Feature>,
}

/// A user-space mirror of the driver's global state.
///
/// Every cached field holds the last value pushed to the driver; a setter
/// reports `true` exactly when the requested value differs from the cache, and
/// the caller must forward the change to the driver exactly in that case.
/// The cache stays truthful only while every driver-state change goes through
/// this object — a caller that issues raw driver calls breaks that contract.
#[derive(Debug)]
pub struct RenderContext {
    initialized: bool,
    front: FrontFace,
    blend_src: BlendComponent,
    blend_dst: BlendComponent,
    clear_color: Color,
    viewport: Viewport,
    features: Vec<bool>,
}

impl View for RenderContext {
    type V = StateView;

    closed spec fn view(&self) -> StateView {
        StateView {
            initialized: self.initialized,
            front: self.front,
            blend_src: self.blend_src,
            blend_dst: self.blend_dst,
            clear_color: self.clear_color,
            viewport: self.viewport,
            features: Set::new(|f: Feature| self.features@[f.index_spec()]),
        }
    }
}

impl RenderContext {
    /// The enabled-feature table has one slot per feature.
    pub closed spec fn wf(self) -> bool {
        self.features@.len() == FEATURE_COUNT
    }

    /// A fresh cache: not yet initialized, counter-clockwise front faces,
    /// source-alpha blending, transparent black clear color, zero viewport,
    /// and no feature enabled.
    pub fn new() -> (ctx: RenderContext)
        ensures
            ctx.wf(),
            ctx@ == (StateView {
                initialized: false,
                front: FrontFace::CounterClockwise,
                blend_src: BlendComponent::SrcAlpha,
                blend_dst: BlendComponent::OneMinusSrcAlpha,
                clear_color: Color { r: 0, g: 0, b: 0, a: 0 },
                viewport: Viewport { x: 0, y: 0, width: 0, height: 0 },
                features: Set::<Feature>::empty(),
            }),
    {
        let mut features: Vec<bool> = Vec::new();
        let mut i: usize = 0;
        while i < FEATURE_COUNT
            invariant
                i <= FEATURE_COUNT,
                features@.len() == i,
                forall|j: int| 0 <= j < i ==> !features@[j],
            decreases FEATURE_COUNT - i,
        {
            features.push(false);
            i = i + 1;
        }
        let ctx = RenderContext {
            initialized: false,
            front: FrontFace::CounterClockwise,
            blend_src: BlendComponent::SrcAlpha,
            blend_dst: BlendComponent::OneMinusSrcAlpha,
            clear_color: Color { r: 0, g: 0, b: 0, a: 0 },
            viewport: Viewport { x: 0, y: 0, width: 0, height: 0 },
            features,
        };
        proof {
            assert(ctx@.features =~= Set::<Feature>::empty());
        }
        ctx
    }

    /// Whether `enable(f)` from state `s` forwards a driver call: it does
    /// exactly when `f` is not yet enabled.
    pub open spec fn enable_forwards(s: StateView, f: Feature) -> bool {
        !s.features.contains(f)
    }

    /// Whether `disable(f)` from state `s` forwards a driver call: it does
    /// exactly when `f` is currently enabled.
    pub open spec fn disable_forwards(s: StateView, f: Feature) -> bool {
        s.features.contains(f)
    }

    /// Enables a capability. Reports `true` — the caller must issue the
    /// driver's enable call — exactly when the feature was newly inserted.
    pub fn enable(&mut self, feature: Feature) -> (changed: bool)
        requires
            old(self).wf(),
        ensures
            final(self).wf(),
            changed == Self::enable_forwards(old(self)@, feature),
            final(self)@ == (StateView { features: old(self)@.features.insert(feature), ..old(self)@ }),
    {
        let i = feature.index();
        let was = self.features[i];
        if !was {
            self.features.set(i, true);
        }
        proof {
            assert forall|g: Feature| #[trigger] self@.features.contains(g)
                == old(self)@.features.insert(feature).contains(g) by {
                if g != feature {
                    Feature::lemma_index_injective(g, feature);
                }
            }
            assert(self@.features =~= old(self)@.features.insert(feature));
            assert(self@ =~= (StateView {
                features: old(self)@.features.insert(feature),
                ..old(self)@
            }));
        }
        !was
    }

    /// Disables a capability. Reports `true` — the caller must issue the
    /// driver's disable call — exactly when the feature was actually removed.
    pub fn disable(&mut self, feature: Feature) -> (changed: bool)
        requires
            old(self).wf(),
        ensures
            final(self).wf(),
            changed == Self::disable_forwards(old(self)@, feature),
            final(self)@ == (StateView { features: old(self)@.features.remove(feature), ..old(self)@ }),
    {
        let i = feature.index();
        let was = self.features[i];
        if was {
            self.features.set(i, false);
        }
        proof {
            assert forall|g: Feature| #[trigger] self@.features.contains(g)
                == old(self)@.features.remove(feature).contains(g) by {
                if g != feature {
                    Feature::lemma_index_injective(g, feature);
                }
            }
            assert(self@.features =~= old(self)@.features.remove(feature));
            assert(self@ =~= (StateView {
                features: old(self)@.features.remove(feature),
                ..old(self)@
            }));
        }
        was
    }

    /// One-time driver setup. Fails with `AlreadyInitialized` on a second
    /// call and changes nothing then. On success the caller must push the
    /// cache's defaults to the driver: the front face, the zero viewport and
    /// the blend function that a fresh cache holds.
    pub fn init(&mut self) -> (r: Result<(), Error>)
        requires
            old(self).wf(),
        ensures
            final(self).wf(),
            old(self)@.initialized ==> r == Err::<(), Error>(Error::AlreadyInitialized)
                && final(self)@ == old(self)@,
            !old(self)@.initialized ==> r is Ok && final(self)@ == (StateView {
                initialized: true,
                ..old(self)@
            }),
    {
        if !self.initialized {
            self.initialized = true;
            proof {
                assert(self@ =~= (StateView { initialized: true, ..old(self)@ }));
            }
            Ok(())
        } else {
            proof {
                assert(self@ =~= old(self)@);
            }
            Err(Error::AlreadyInitialized)
        }
    }

    /// Whether `set_clear_color` from state `s` forwards a driver call: it
    /// does exactly when the requested color differs from the cached one.
    pub open spec fn clear_color_forwards(s: StateView, c: Color) -> bool {
        s.clear_color != c
    }

    /// Caches the clear color, given as the byte quad that stands for the
    /// four normalized channels. Reports `true` — the caller must issue the
    /// driver's clear-color call — exactly when the color changed.
    pub fn set_clear_color(&mut self, r: u8, g: u8, b: u8, a: u8) -> (changed: bool)
        requires
            old(self).wf(),
        ensures
            final(self).wf(),
            changed == Self::clear_color_forwards(old(self)@, Color { r, g, b, a }),
            final(self)@ == (StateView { clear_color: Color { r, g, b, a }, ..old(self)@ }),
    {
        let target = Color { r, g, b, a };
        let changed = !(self.clear_color == target);
        if changed {
            self.clear_color = target;
        }
        proof {
            assert(self@ =~= (StateView { clear_color: target, ..old(self)@ }));
        }
        changed
    }

    /// Whether `set_front_face` from state `s` forwards a driver call.
    pub open spec fn front_face_forwards(s: StateView, target: FrontFace) -> bool {
        s.front != target
    }

    /// Caches the front-face winding order. Reports `true` — the caller must
    /// issue the driver's front-face call — exactly when the order changed.
    pub fn set_front_face(&mut self, target: FrontFace) -> (changed: bool)
        requires
            old(self).wf(),
        ensures
            final(self).wf(),
            changed == Self::front_face_forwards(old(self)@, target),
            final(self)@ == (StateView { front: target, ..old(self)@ }),
    {
        let changed = !(self.front == target);
        if changed {
            self.front = target;
        }
        proof {
            assert(self@ =~= (StateView { front: target, ..old(self)@ }));
        }
        changed
    }

    /// Whether `set_blend_func` from state `s` forwards a driver call.
    pub open spec fn blend_func_forwards(
        s: StateView,
        src: BlendComponent,
        dst: BlendComponent,
    ) -> bool {
        s.blend_src != src || s.blend_dst != dst
    }

    /// Caches the blend function. Reports `true` — the caller must issue the
    /// driver's blend-function call — exactly when either factor changed.
    pub fn set_blend_func(&mut self, src: BlendComponent, dst: BlendComponent) -> (changed: bool)
        requires
            old(self).wf(),
        ensures
            final(self).wf(),
            changed == Self::blend_func_forwards(old(self)@, src, dst),
            final(self)@ == (StateView { blend_src: src, blend_dst: dst, ..old(self)@ }),
    {
        let changed = !(self.blend_src == src) || !(self.blend_dst == dst);
        if changed {
            self.blend_src = src;
            self.blend_dst = dst;
        }
        proof {
            assert(self@ =~= (StateView { blend_src: src, blend_dst: dst, ..old(self)@ }));
        }
        changed
    }

    /// Whether `set_viewport` from state `s` forwards a driver call: it does
    /// exactly when the requested tuple differs from the cached one.
    pub open spec fn viewport_forwards(s: StateView, v: Viewport) -> bool {
        s.viewport != v
    }

    /// Caches the viewport. Reports `true` — the caller must issue the
    /// driver's viewport call — exactly when any of the four components
    /// changed.
    pub fn set_viewport(&mut self, x: u32, y: u32, width: u32, height: u32) -> (changed: bool)
        requires
            old(self).wf(),
        ensures
            final(self).wf(),
            changed == Self::viewport_forwards(old(self)@, Viewport { x, y, width, height }),
            final(self)@ == (StateView { viewport: Viewport { x, y, width, height }, ..old(self)@ }),
    {
        let target = Viewport { x, y, width, height };
        let changed = !(self.viewport == target);
        if changed {
            self.viewport = target;
        }
        proof {
            assert(self@ =~= (StateView { viewport: target, ..old(self)@ }));
        }
        changed
    }

    /// Whether the one-time setup ran.
    pub fn initialized(&self) -> (r: bool)
        ensures
            r == self@.initialized,
    {
        self.initialized
    }

    /// Whether a capability is currently enabled.
    pub fn is_enabled(&self, feature: Feature) -> (r: bool)
        requires
            self.wf(),
        ensures
            r == self@.features.contains(feature),
    {
        let i = feature.index();
        self.features[i]
    }

    /// The cached front-face winding order.
    pub fn front_face(&self) -> (r: FrontFace)
        ensures
            r == self@.front,
    {
        self.front
    }

    /// The cached blend function, source factor first.
    pub fn blend_func(&self) -> (r: (BlendComponent, BlendComponent))
        ensures
            r.0 == self@.blend_src,
            r.1 == self@.blend_dst,
    {
        (self.blend_src, self.blend_dst)
    }

    /// The cached clear color.
    pub fn clear_color(&self) -> (r: Color)
        ensures
            r == self@.clear_color,
    {
        self.clear_color
    }

    /// The cached viewport.
    pub fn viewport(&self) -> (r: Viewport)
        ensures
            r == self@.viewport,
    {
        self.viewport
    }
}

/// The driver bits for one clear pass. Clearing is not cached: the result is
/// forwarded to the driver unconditionally.
pub fn clear(flags: ClearFlags) -> (raw: u32)
    ensures
        raw == flags.bits_spec(),
{
    flags.bits()
}

/// Only the first `enable` of a feature in a run forwards to the driver:
/// enabling forwards exactly when the feature is not yet in the enabled set,
/// and it leaves the feature in the set, so from the state any `enable`
/// leaves behind, a repeated `enable` of the same feature forwards nothing
/// and reports `false`.
pub proof fn lemma_enable_forwards_only_first(s: StateView, f: Feature)
    ensures
        RenderContext::enable_forwards(s, f) == !s.features.contains(f),
        !RenderContext::enable_forwards(
            (StateView { features: s.features.insert(f), ..s }),
            f,
        ),
{
}

/// `set_viewport` with the cached tuple forwards nothing; a request that
/// differs in any one of the four components forwards exactly one driver
/// call, and the state it leaves behind caches the new tuple, so repeating
/// the request forwards nothing.
pub proof fn lemma_viewport_forwards_on_change_only(s: StateView, v: Viewport)
    ensures
        RenderContext::viewport_forwards(s, v) <==> (s.viewport.x != v.x || s.viewport.y != v.y
            || s.viewport.width != v.width || s.viewport.height != v.height),
        !RenderContext::viewport_forwards((StateView { viewport: v, ..s }), v),
{
}

} // verus!
