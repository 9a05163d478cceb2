use vstd::prelude::*;

use crate::error::Error;

verus! {

/// One axis of texture-coordinate wrapping.
#[derive(Debug, Copy, Clone, PartialEq, Eq, Structural)]
pub enum WrapCoord {
    S,
    T,
}

impl WrapCoord {
    /// The driver enumerant for this wrap axis.
    pub open spec fn native_spec(self) -> u32 {
        match self {
            WrapCoord::S => 0x2802,
            WrapCoord::T => 0x2803,
        }
    }

    /// The driver enumerant for this wrap axis.
    pub fn get_native(&self) -> (raw: u32)
        ensures
            raw == self.native_spec(),
    {
        match self {
            WrapCoord::S => 0x2802,
            WrapCoord::T => 0x2803,
        }
    }
}

/// How texture coordinates outside `[0, 1]` behave on one axis.
#[derive(Debug, Copy, Clone, PartialEq, Eq, Structural)]
pub enum ClampMode {
    Edge,
    Repeat,
    RepeatMirrored,
}

impl ClampMode {
    /// The driver enumerant for this wrap behavior.
    pub open spec fn native_spec(self) -> u32 {
        match self {
            ClampMode::Edge => 0x812F,
            ClampMode::Repeat => 0x2901,
            ClampMode::RepeatMirrored => 0x8370,
        }
    }

    /// The driver enumerant for this wrap behavior.
    pub fn get_native(&self) -> (raw: u32)
        ensures
            raw == self.native_spec(),
    {
        match self {
            ClampMode::Edge => 0x812F,
            ClampMode::Repeat => 0x2901,
            ClampMode::RepeatMirrored => 0x8370,
        }
    }
}

/// The minification filter of a texture sampler.
#[derive(Debug, Copy, Clone, PartialEq, Eq, Structural)]
pub enum MinFilter {
    Nearest,
    Linear,
    NearestMipmapNearest,
    NearestMipmapLinear,
    LinearMipmapNearest,
    LinearMipmapLinear,
}

impl MinFilter {
    /// The driver enumerant for this minification filter.
    pub open spec fn native_spec(self) -> u32 {
        match self {
            MinFilter::Nearest => 0x2600,
            MinFilter::Linear => 0x2601,
            MinFilter::NearestMipmapNearest => 0x2700,
            MinFilter::NearestMipmapLinear => 0x2702,
            MinFilter::LinearMipmapNearest => 0x2701,
            MinFilter::LinearMipmapLinear => 0x2703,
        }
    }

    /// Whether this filter samples from mipmap levels.
    pub open spec fn needs_mipmaps_spec(self) -> bool {
        match self {
            MinFilter::Nearest => false,
            MinFilter::Linear => false,
            MinFilter::NearestMipmapNearest => true,
            MinFilter::NearestMipmapLinear => true,
            MinFilter::LinearMipmapNearest => true,
            MinFilter::LinearMipmapLinear => true,
        }
    }

    /// The driver enumerant for this minification filter.
    pub fn get_native(&self) -> (raw: u32)
        ensures
            raw == self.native_spec(),
    {
        match self {
            MinFilter::Nearest => 0x2600,
            MinFilter::Linear => 0x2601,
            MinFilter::NearestMipmapNearest => 0x2700,
            MinFilter::NearestMipmapLinear => 0x2702,
            MinFilter::LinearMipmapNearest => 0x2701,
            MinFilter::LinearMipmapLinear => 0x2703,
        }
    }

    /// Whether this filter samples from mipmap levels.
    pub fn needs_mipmaps(&self) -> (r: bool)
        ensures
            r == self.needs_mipmaps_spec(),
    {
        match self {
            MinFilter::Nearest => false,
            MinFilter::Linear => false,
            MinFilter::NearestMipmapNearest => true,
            MinFilter::NearestMipmapLinear => true,
            MinFilter::LinearMipmapNearest => true,
            MinFilter::LinearMipmapLinear => true,
        }
    }
}

/// The magnification filter of a texture sampler.
#[derive(Debug, Copy, Clone, PartialEq, Eq, Structural)]
pub enum MagFilter {
    Nearest,
    Linear,
}

impl MagFilter {
    /// The driver enumerant for this magnification filter.
    pub open spec fn native_spec(self) -> u32 {
        match self {
            MagFilter::Nearest => 0x2600,
            MagFilter::Linear => 0x2601,
        }
    }

    /// The driver enumerant for this magnification filter.
    pub fn get_native(&self) -> (raw: u32)
        ensures
            raw == self.native_spec(),
    {
        match self {
            MagFilter::Nearest => 0x2600,
            MagFilter::Linear => 0x2601,
        }
    }
}

/// The images bound to one texture unit, one handle per texture dimension.
#[derive(Debug, Copy, Clone, PartialEq, Eq, Structural)]
pub struct TextureUnit {
    pub d1_handle: u32,
    pub d2_handle: u32,
    pub d3_handle: u32,
}

impl TextureUnit {
    /// A unit with nothing bound.
    pub fn new() -> (u: TextureUnit)
        ensures
            u == (TextureUnit { d1_handle: 0, d2_handle: 0, d3_handle: 0 }),
    {
        TextureUnit { d1_handle: 0, d2_handle: 0, d3_handle: 0 }
    }
}

/// The mathematical content of the texture-unit table.
#[verifier::ext_equal]
pub struct TextureUnitsView {
    pub active_unit: u32,
    pub units: Seq<TextureUnit>,
}

/// A user-space mirror of the driver's texture-unit bindings: which unit is
/// active and which image each unit holds. Like the render-state cache, it
/// stays truthful only while every texture bind goes through it.
#[derive(Debug)]
pub struct TextureUnits {
    active_unit: u32,
    units: Vec<TextureUnit>,
}

impl View for TextureUnits {
    type V = TextureUnitsView;

    closed spec fn view(&self) -> TextureUnitsView {
        TextureUnitsView { active_unit: self.active_unit, units: self.units@ }
    }
}

impl TextureUnits {
    /// A fresh table of `max_units` empty units, with unit zero active. The
    /// caller must have reset the driver to match: every unit unbound and
    /// unit zero active.
    pub fn init(max_units: usize) -> (t: TextureUnits)
        ensures
            t@.active_unit == 0,
            t@.units.len() == max_units,
            forall|i: int|
                0 <= i < max_units ==> t@.units[i] == (TextureUnit {
                    d1_handle: 0,
                    d2_handle: 0,
                    d3_handle: 0,
                }),
    {
        let mut units: Vec<TextureUnit> = Vec::new();
        let mut i: usize = 0;
        while i < max_units
            invariant
                i <= max_units,
                units@.len() == i,
                forall|j: int|
                    0 <= j < i ==> units@[j] == (TextureUnit {
                        d1_handle: 0,
                        d2_handle: 0,
                        d3_handle: 0,
                    }),
            decreases max_units - i,
        {
            units.push(TextureUnit::new());
            i = i + 1;
        }
        TextureUnits { active_unit: 0, units }
    }

    /// How many texture units the table mirrors.
    pub fn len(&self) -> (n: usize)
        ensures
            n == self@.units.len(),
    {
        self.units.len()
    }

    /// The active unit's index.
    pub fn active_unit(&self) -> (r: u32)
        ensures
            r == self@.active_unit,
    {
        self.active_unit
    }
}

/// The driver calls a texture bind asks its caller to issue: activating the
/// requested unit, and binding the image to it.
#[derive(Debug, Copy, Clone, PartialEq, Eq, Structural)]
pub struct BindCalls {
    pub activate: bool,
    pub bind: bool,
}

/// The mathematical content of a texture: its driver handle, its cached
/// sampler parameters, and its fixed dimensions.
#[verifier::ext_equal]
pub struct TextureView {
    pub mipmaps: bool,
    pub handle: u32,
    pub s_clamp: ClampMode,
    pub t_clamp: ClampMode,
    pub min_filter: MinFilter,
    pub mag_filter: MagFilter,
    pub width: usize,
    pub height: usize,
}

/// A two-dimensional image resource with configurable sampling.
///
/// The record mirrors the driver-side object: the driver handle the caller
/// recorded, the sampler parameters last pushed, and the immutable
/// dimensions.
#[derive(Debug)]
pub struct Texture {
    mipmaps: bool,
    handle: u32,
    s_clamp: ClampMode,
    t_clamp: ClampMode,
    min_filter: MinFilter,
    mag_filter: MagFilter,
    width: usize,
    height: usize,
}

impl View for Texture {
    type V = TextureView;

    closed spec fn view(&self) -> TextureView {
        TextureView {
            mipmaps: self.mipmaps,
            handle: self.handle,
            s_clamp: self.s_clamp,
            t_clamp: self.t_clamp,
            min_filter: self.min_filter,
            mag_filter: self.mag_filter,
            width: self.width,
            height: self.height,
        }
    }
}

/// The sampler state every fresh texture starts with: clamp to edge on both
/// axes and nearest filtering, matching the parameters the constructor's
/// caller pushes to the driver.
pub open spec fn fresh_texture(mipmaps: bool, width: usize, height: usize) -> TextureView {
    TextureView {
        mipmaps,
        handle: 0,
        s_clamp: ClampMode::Edge,
        t_clamp: ClampMode::Edge,
        min_filter: MinFilter::Nearest,
        mag_filter: MagFilter::Nearest,
        width,
        height,
    }
}

impl Texture {
    /// A texture record for a zero-filled image of the given dimensions.
    /// The dimensions are trusted; there is no failure path.
    pub fn new(width: usize, height: usize) -> (t: Texture)
        ensures
            t@ == fresh_texture(false, width, height),
    {
        Texture {
            mipmaps: false,
            handle: 0,
            s_clamp: ClampMode::Edge,
            t_clamp: ClampMode::Edge,
            min_filter: MinFilter::Nearest,
            mag_filter: MagFilter::Nearest,
            width,
            height,
        }
    }

    /// Validates a pixel buffer against the given dimensions and builds the
    /// texture record. Four bytes per pixel are required: the buffer's length
    /// must equal `width * height * 4`, else the construction fails with
    /// `InvalidTextureDimensions` — and only after it succeeds may the caller
    /// create the driver-side image, so a failed construction leaves no
    /// driver-visible resource behind.
    pub fn make(buf: &Vec<u8>, width: usize, height: usize, mipmaps: bool) -> (r: Result<
        Texture,
        Error,
    >)
        ensures
            buf@.len() == width * height * 4 ==> (r matches Ok(t) && t@ == fresh_texture(
                mipmaps,
                width,
                height,
            )),
            buf@.len() != width * height * 4 ==> r == Err::<Texture, Error>(
                Error::InvalidTextureDimensions,
            ),
    {
        let n_buf = buf.len();
        // a product too large for usize exceeds every possible buffer length
        let valid = match width.checked_mul(height) {
            Some(p) => match p.checked_mul(4) {
                Some(n) => n_buf == n,
                None => false,
            },
            None => false,
        };
        if valid {
            Ok(
                Texture {
                    mipmaps,
                    handle: 0,
                    s_clamp: ClampMode::Edge,
                    t_clamp: ClampMode::Edge,
                    min_filter: MinFilter::Nearest,
                    mag_filter: MagFilter::Nearest,
                    width,
                    height,
                },
            )
        } else {
            Err(Error::InvalidTextureDimensions)
        }
    }

    /// Records the driver handle of the image this texture stands for.
    pub fn set_handle(&mut self, handle: u32)
        ensures
            final(self)@ == (TextureView { handle, ..old(self)@ }),
    {
        self.handle = handle;
        proof {
            assert(self@ =~= (TextureView { handle, ..old(self)@ }));
        }
    }

    /// Makes this texture's image current on the given unit. Reports which
    /// driver calls the caller must issue: activating the unit exactly when
    /// it is not the active one, and binding the image exactly when the unit
    /// holds a different one. The table is updated to mirror both.
    pub fn bind(&self, units: &mut TextureUnits, unit: u32) -> (calls: BindCalls)
        requires
            unit < old(units)@.units.len(),
        ensures
            calls.activate == (old(units)@.active_unit != unit),
            calls.bind == (old(units)@.units[unit as int].d2_handle != self@.handle),
            final(units)@ == (TextureUnitsView {
                active_unit: unit,
                units: old(units)@.units.update(
                    unit as int,
                    (TextureUnit { d2_handle: self@.handle, ..old(units)@.units[unit as int] }),
                ),
            }),
    {
        let activate = units.active_unit != unit;
        if activate {
            units.active_unit = unit;
        }
        let slot = units.units[unit as usize];
        let bind = slot.d2_handle != self.handle;
        if bind {
            units.units.set(
                unit as usize,
                TextureUnit {
                    d1_handle: slot.d1_handle,
                    d2_handle: self.handle,
                    d3_handle: slot.d3_handle,
                },
            );
        }
        proof {
            assert(units@.units =~= old(units)@.units.update(
                unit as int,
                (TextureUnit { d2_handle: self@.handle, ..old(units)@.units[unit as int] }),
            ));
            assert(units@ =~= (TextureUnitsView {
                active_unit: unit,
                units: old(units)@.units.update(
                    unit as int,
                    (TextureUnit { d2_handle: self@.handle, ..old(units)@.units[unit as int] }),
                ),
            }));
        }
        BindCalls { activate, bind }
    }

    /// Caches the wrap behavior of one axis; the caller forwards it to the
    /// driver unconditionally.
    pub fn set_clamp(&mut self, coord: WrapCoord, mode: ClampMode)
        ensures
            coord == WrapCoord::S ==> final(self)@ == (TextureView {
                s_clamp: mode,
                ..old(self)@
            }),
            coord == WrapCoord::T ==> final(self)@ == (TextureView {
                t_clamp: mode,
                ..old(self)@
            }),
    {
        match coord {
            WrapCoord::S => self.s_clamp = mode,
            WrapCoord::T => self.t_clamp = mode,
        }
        proof {
            if coord == WrapCoord::S {
                assert(self@ =~= (TextureView { s_clamp: mode, ..old(self)@ }));
            } else {
                assert(self@ =~= (TextureView { t_clamp: mode, ..old(self)@ }));
            }
        }
    }

    /// Caches the minification filter. A mipmap-dependent filter on a
    /// texture built without mipmaps fails with `NoMipmaps` and leaves the
    /// prior filter in place; any other request succeeds, and the caller
    /// forwards the accepted filter to the driver.
    pub fn set_min_filter(&mut self, filter: MinFilter) -> (r: Result<(), Error>)
        ensures
            filter.needs_mipmaps_spec() && !old(self)@.mipmaps ==> r == Err::<(), Error>(
                Error::NoMipmaps,
            ) && final(self)@ == old(self)@,
            !(filter.needs_mipmaps_spec() && !old(self)@.mipmaps) ==> r is Ok && final(self)@
                == (TextureView { min_filter: filter, ..old(self)@ }),
    {
        if filter.needs_mipmaps() && !self.mipmaps {
            proof {
                assert(self@ =~= old(self)@);
            }
            return Err(Error::NoMipmaps);
        }
        self.min_filter = filter;
        proof {
            assert(self@ =~= (TextureView { min_filter: filter, ..old(self)@ }));
        }
        Ok(())
    }

    /// Caches the magnification filter; the caller forwards it to the driver
    /// unconditionally. No magnification filter depends on mipmaps, so there
    /// is no failure path.
    pub fn set_mag_filter(&mut self, filter: MagFilter)
        ensures
            final(self)@ == (TextureView { mag_filter: filter, ..old(self)@ }),
    {
        self.mag_filter = filter;
        proof {
            assert(self@ =~= (TextureView { mag_filter: filter, ..old(self)@ }));
        }
    }

    /// The recorded driver handle.
    pub fn handle(&self) -> (r: u32)
        ensures
            r == self@.handle,
    {
        self.handle
    }

    /// The image's width in pixels, fixed at construction.
    pub fn width(&self) -> (r: usize)
        ensures
            r == self@.width,
    {
        self.width
    }

    /// The image's height in pixels, fixed at construction.
    pub fn height(&self) -> (r: usize)
        ensures
            r == self@.height,
    {
        self.height
    }

    /// Whether mipmaps were generated at construction.
    pub fn mipmaps(&self) -> (r: bool)
        ensures
            r == self@.mipmaps,
    {
        self.mipmaps
    }

    /// The cached minification filter.
    pub fn min_filter(&self) -> (r: MinFilter)
        ensures
            r == self@.min_filter,
    {
        self.min_filter
    }

    /// The cached magnification filter.
    pub fn mag_filter(&self) -> (r: MagFilter)
        ensures
            r == self@.mag_filter,
    {
        self.mag_filter
    }

    /// The cached wrap behavior of one axis.
    pub fn clamp(&self, coord: WrapCoord) -> (r: ClampMode)
        ensures
            coord == WrapCoord::S ==> r == self@.s_clamp,
            coord == WrapCoord::T ==> r == self@.t_clamp,
    {
        match coord {
            WrapCoord::S => self.s_clamp,
            WrapCoord::T => self.t_clamp,
        }
    }
}

} // verus!
