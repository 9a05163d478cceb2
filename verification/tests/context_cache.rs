use gl_toolkit::BlendComponent;
use gl_toolkit::ClearFlag;
use gl_toolkit::ClearFlags;
use gl_toolkit::Color;
use gl_toolkit::Error;
use gl_toolkit::Feature;
use gl_toolkit::FrontFace;
use gl_toolkit::RenderContext;
use gl_toolkit::Viewport;
use gl_toolkit::clear;

#[test]
fn fresh_context_defaults() {
    let ctx = RenderContext::new();
    assert!(!ctx.initialized());
    assert_eq!(ctx.front_face(), FrontFace::CounterClockwise);
    assert_eq!(
        ctx.blend_func(),
        (BlendComponent::SrcAlpha, BlendComponent::OneMinusSrcAlpha)
    );
    assert_eq!(ctx.clear_color(), Color::make(0, 0, 0, 0));
    assert_eq!(ctx.viewport(), Viewport { x: 0, y: 0, width: 0, height: 0 });
    assert!(!ctx.is_enabled(Feature::Blend));
    assert!(!ctx.is_enabled(Feature::DepthTest));
}

#[test]
fn init_succeeds_once_then_already_initialized() {
    let mut ctx = RenderContext::new();
    assert!(ctx.init().is_ok());
    assert!(ctx.initialized());
    assert_eq!(ctx.init(), Err(Error::AlreadyInitialized));
    assert!(ctx.initialized());
}

#[test]
fn enable_forwards_only_first_in_a_run() {
    let mut ctx = RenderContext::new();
    assert!(ctx.enable(Feature::Blend));
    assert!(!ctx.enable(Feature::Blend));
    assert!(!ctx.enable(Feature::Blend));
    assert!(ctx.is_enabled(Feature::Blend));
    // other features are untouched
    assert!(!ctx.is_enabled(Feature::CullFace));
    assert!(ctx.enable(Feature::CullFace));
}

#[test]
fn disable_forwards_only_when_enabled() {
    let mut ctx = RenderContext::new();
    assert!(!ctx.disable(Feature::ScissorTest));
    assert!(ctx.enable(Feature::ScissorTest));
    assert!(ctx.disable(Feature::ScissorTest));
    assert!(!ctx.disable(Feature::ScissorTest));
    assert!(!ctx.is_enabled(Feature::ScissorTest));
    // a feature can be newly inserted again after removal
    assert!(ctx.enable(Feature::ScissorTest));
}

#[test]
fn set_viewport_elides_unchanged_tuple() {
    let mut ctx = RenderContext::new();
    assert!(ctx.set_viewport(0, 0, 640, 480));
    assert!(!ctx.set_viewport(0, 0, 640, 480));
    assert_eq!(ctx.viewport(), Viewport { x: 0, y: 0, width: 640, height: 480 });
    // changing any one component forwards exactly one call each time
    assert!(ctx.set_viewport(1, 0, 640, 480));
    assert!(ctx.set_viewport(1, 2, 640, 480));
    assert!(ctx.set_viewport(1, 2, 641, 480));
    assert!(ctx.set_viewport(1, 2, 641, 481));
    assert_eq!(ctx.viewport(), Viewport { x: 1, y: 2, width: 641, height: 481 });
    assert!(!ctx.set_viewport(1, 2, 641, 481));
}

#[test]
fn set_front_face_elides_unchanged_value() {
    let mut ctx = RenderContext::new();
    assert!(!ctx.set_front_face(FrontFace::CounterClockwise));
    assert!(ctx.set_front_face(FrontFace::Clockwise));
    assert!(!ctx.set_front_face(FrontFace::Clockwise));
    assert_eq!(ctx.front_face(), FrontFace::Clockwise);
}

#[test]
fn set_blend_func_elides_unchanged_pair() {
    let mut ctx = RenderContext::new();
    assert!(!ctx.set_blend_func(
        BlendComponent::SrcAlpha,
        BlendComponent::OneMinusSrcAlpha
    ));
    assert!(ctx.set_blend_func(
        BlendComponent::OneMinusSrcAlpha,
        BlendComponent::SrcAlpha
    ));
    assert!(ctx.set_blend_func(BlendComponent::OneMinusSrcAlpha, BlendComponent::One));
    assert!(!ctx.set_blend_func(BlendComponent::OneMinusSrcAlpha, BlendComponent::One));
    assert_eq!(
        ctx.blend_func(),
        (BlendComponent::OneMinusSrcAlpha, BlendComponent::One)
    );
}

#[test]
fn set_clear_color_round_trips_within_quantization() {
    let mut ctx = RenderContext::new();
    let (r, g, b, a) = (0.2f32, 0.3f32, 0.3f32, 1.0f32);
    let changed = ctx.set_clear_color(
        (r * 255.0) as u8,
        (g * 255.0) as u8,
        (b * 255.0) as u8,
        (a * 255.0) as u8,
    );
    assert!(changed);
    let c = ctx.clear_color();
    assert!((c.r as f32 / 255.0 - r).abs() <= 1.0 / 255.0);
    assert!((c.g as f32 / 255.0 - g).abs() <= 1.0 / 255.0);
    assert!((c.b as f32 / 255.0 - b).abs() <= 1.0 / 255.0);
    assert!((c.a as f32 / 255.0 - a).abs() <= 1.0 / 255.0);
    // the same byte quad again is a pure no-op
    assert!(!ctx.set_clear_color(
        (r * 255.0) as u8,
        (g * 255.0) as u8,
        (b * 255.0) as u8,
        (a * 255.0) as u8,
    ));
}

#[test]
fn clear_combines_disjoint_buffer_bits() {
    assert_eq!(ClearFlag::Color.get_native(), 0x0000_4000);
    assert_eq!(ClearFlag::Depth.get_native(), 0x0000_0100);
    assert_eq!(ClearFlag::Stencil.get_native(), 0x0000_0400);
    let both = ClearFlags { color: true, depth: true, stencil: false };
    assert_eq!(clear(both), 0x0000_4100);
    let none = ClearFlags { color: false, depth: false, stencil: false };
    assert_eq!(clear(none), 0);
    let all = ClearFlags { color: true, depth: true, stencil: true };
    assert_eq!(clear(all), 0x0000_4500);
}

#[test]
fn feature_enumerants_match_the_driver() {
    assert_eq!(Feature::Blend.get_native(), 0x0BE2);
    assert_eq!(Feature::CullFace.get_native(), 0x0B44);
    assert_eq!(Feature::DepthTest.get_native(), 0x0B71);
    assert_eq!(Feature::ScissorTest.get_native(), 0x0C11);
    assert_eq!(Feature::ProgramPointSize.get_native(), 0x8642);
}

#[test]
fn blend_component_enumerants_are_distinct() {
    // each factor has its own enumerant; in particular the two
    // one-minus-destination factors differ
    assert_eq!(BlendComponent::OneMinusDstColor.get_native(), 0x0307);
    assert_eq!(BlendComponent::OneMinusDstAlpha.get_native(), 0x0305);
    assert_eq!(BlendComponent::Zero.get_native(), 0);
    assert_eq!(BlendComponent::One.get_native(), 1);
    assert_eq!(BlendComponent::SrcAlpha.get_native(), 0x0302);
}

#[test]
fn front_face_enumerants_match_the_driver() {
    assert_eq!(FrontFace::Clockwise.get_native(), 0x0900);
    assert_eq!(FrontFace::CounterClockwise.get_native(), 0x0901);
}
