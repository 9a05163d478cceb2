use gl_toolkit::ClampMode;
use gl_toolkit::Error;
use gl_toolkit::MagFilter;
use gl_toolkit::MinFilter;
use gl_toolkit::Texture;
use gl_toolkit::TextureUnits;
use gl_toolkit::WrapCoord;

#[test]
fn make_rejects_wrong_buffer_length() {
    // 2x2 RGBA needs 16 bytes; one short
    let buf: Vec<u8> = vec![0; 15];
    assert!(matches!(Texture::make(&buf, 2, 2, false), Err(Error::InvalidTextureDimensions)));
    // and one long
    let buf: Vec<u8> = vec![0; 17];
    assert!(matches!(Texture::make(&buf, 2, 2, false), Err(Error::InvalidTextureDimensions)));
    // an empty buffer only fits zero-area dimensions
    let buf: Vec<u8> = Vec::new();
    assert!(Texture::make(&buf, 2, 2, true).is_err());
    assert!(Texture::make(&buf, 0, 0, false).is_ok());
}

#[test]
fn make_accepts_matching_buffer_length() {
    let buf: Vec<u8> = vec![255; 16];
    let t = Texture::make(&buf, 2, 2, false).unwrap();
    assert_eq!(t.width(), 2);
    assert_eq!(t.height(), 2);
    assert!(!t.mipmaps());
    assert_eq!(t.handle(), 0);
    assert_eq!(t.min_filter(), MinFilter::Nearest);
    assert_eq!(t.mag_filter(), MagFilter::Nearest);
    assert_eq!(t.clamp(WrapCoord::S), ClampMode::Edge);
    assert_eq!(t.clamp(WrapCoord::T), ClampMode::Edge);
}

#[test]
fn zero_filled_texture_has_no_failure_path() {
    let t = Texture::new(64, 32);
    assert_eq!(t.width(), 64);
    assert_eq!(t.height(), 32);
    assert!(!t.mipmaps());
}

#[test]
fn mipmap_filter_needs_mipmaps() {
    let buf: Vec<u8> = vec![0; 16];
    let mut plain = Texture::make(&buf, 2, 2, false).unwrap();
    assert_eq!(plain.set_min_filter(MinFilter::LinearMipmapLinear), Err(Error::NoMipmaps));
    // the texture keeps its prior filter
    assert_eq!(plain.min_filter(), MinFilter::Nearest);

    let mut mipped = Texture::make(&buf, 2, 2, true).unwrap();
    assert!(mipped.set_min_filter(MinFilter::LinearMipmapLinear).is_ok());
    assert_eq!(mipped.min_filter(), MinFilter::LinearMipmapLinear);
}

#[test]
fn non_mipmap_filter_always_succeeds() {
    let buf: Vec<u8> = vec![0; 4];
    let mut t = Texture::make(&buf, 1, 1, false).unwrap();
    assert!(t.set_min_filter(MinFilter::Linear).is_ok());
    assert_eq!(t.min_filter(), MinFilter::Linear);
    assert!(t.set_min_filter(MinFilter::Nearest).is_ok());
    assert_eq!(t.min_filter(), MinFilter::Nearest);
}

#[test]
fn mag_filter_and_clamp_update_the_cache() {
    let mut t = Texture::new(4, 4);
    t.set_mag_filter(MagFilter::Linear);
    assert_eq!(t.mag_filter(), MagFilter::Linear);
    t.set_clamp(WrapCoord::S, ClampMode::Repeat);
    assert_eq!(t.clamp(WrapCoord::S), ClampMode::Repeat);
    assert_eq!(t.clamp(WrapCoord::T), ClampMode::Edge);
    t.set_clamp(WrapCoord::T, ClampMode::RepeatMirrored);
    assert_eq!(t.clamp(WrapCoord::T), ClampMode::RepeatMirrored);
}

#[test]
fn set_handle_records_the_driver_handle() {
    let mut t = Texture::new(2, 2);
    t.set_handle(7);
    assert_eq!(t.handle(), 7);
    assert_eq!(t.width(), 2);
}

#[test]
fn bind_elides_redundant_unit_and_image_calls() {
    let mut units = TextureUnits::init(4);
    assert_eq!(units.len(), 4);
    assert_eq!(units.active_unit(), 0);

    let mut t = Texture::new(2, 2);
    t.set_handle(9);

    // unit 0 is already active, image 9 is not bound yet
    let calls = t.bind(&mut units, 0);
    assert!(!calls.activate);
    assert!(calls.bind);

    // both are now current: nothing to issue
    let calls = t.bind(&mut units, 0);
    assert!(!calls.activate);
    assert!(!calls.bind);

    // a different unit must be activated and have the image bound
    let calls = t.bind(&mut units, 2);
    assert!(calls.activate);
    assert!(calls.bind);
    assert_eq!(units.active_unit(), 2);

    // coming back, the unit still holds the image
    let calls = t.bind(&mut units, 0);
    assert!(calls.activate);
    assert!(!calls.bind);
}

#[test]
fn sampler_enumerants_match_the_driver() {
    assert_eq!(WrapCoord::S.get_native(), 0x2802);
    assert_eq!(WrapCoord::T.get_native(), 0x2803);
    assert_eq!(ClampMode::Edge.get_native(), 0x812F);
    assert_eq!(ClampMode::Repeat.get_native(), 0x2901);
    assert_eq!(ClampMode::RepeatMirrored.get_native(), 0x8370);
    assert_eq!(MinFilter::Nearest.get_native(), 0x2600);
    assert_eq!(MinFilter::LinearMipmapNearest.get_native(), 0x2701);
    assert_eq!(MinFilter::LinearMipmapLinear.get_native(), 0x2703);
    assert_eq!(MagFilter::Nearest.get_native(), 0x2600);
    assert_eq!(MagFilter::Linear.get_native(), 0x2601);
}
