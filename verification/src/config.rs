//! Render configuration and its resolution into concrete values.
//!
//! The aspect ratio is kept as an exact ratio of two integers: the
//! `aspect_width`/`aspect_height` pair of the configuration file is such a
//! ratio already, and the default of 16:9 is one too.  A derived image
//! height is the rounded quotient `width / aspect`, computed exactly.

use vstd::prelude::*;

verus! {

pub const DEFAULT_WIDTH: u32 = 400;
pub const DEFAULT_ASPECT_NUM: u32 = 16;
pub const DEFAULT_ASPECT_DEN: u32 = 9;
pub const DEFAULT_SAMPLES_PER_PIXEL: u32 = 100;
pub const DEFAULT_MAX_DEPTH: u32 = 50;

/// An aspect ratio `num : den`, e.g. 16:9 for a widescreen image.
#[derive(Clone, Copy, Debug, PartialEq, Eq, Structural)]
pub struct AspectRatio {
    /// Horizontal part of the ratio.
    pub num: u32,
    /// Vertical part of the ratio.
    pub den: u32,
}

/// Raw image settings, as a configuration file provides them.
#[derive(Clone, Debug)]
pub struct ImageConfig {
    /// Output width in pixels.
    pub width: u32,
    /// Output height in pixels; if absent it is derived from the aspect ratio.
    pub height: Option<u32>,
    /// Aspect ratio given directly.
    pub aspect_ratio: Option<AspectRatio>,
    /// Horizontal part of an aspect ratio given as a pair.
    pub aspect_width: Option<u32>,
    /// Vertical part of an aspect ratio given as a pair.
    pub aspect_height: Option<u32>,
    /// Where the encoded image is written.
    pub output_path: String,
}

/// Sampling settings for the renderer.
#[derive(Clone, Copy, Debug, PartialEq, Eq, Structural)]
pub struct RenderConfig {
    /// The number of samples per pixel, which governs image quality.
    pub samples_per_pixel: u32,
    /// The maximum depth of the ray-tracing recursion.
    pub max_depth: u32,
}

/// The whole configuration surface the renderer consumes.
#[derive(Clone, Debug)]
pub struct Config {
    /// Image settings.
    pub image: ImageConfig,
    /// Render settings.
    pub render: RenderConfig,
}

/// Image settings resolved to concrete values.
#[derive(Clone, Debug)]
pub struct ResolvedImage {
    /// The width of the output image.
    pub width: u32,
    /// The height of the output image.
    pub height: u32,
    /// The aspect ratio of the output image.
    pub aspect_ratio: AspectRatio,
    /// The path the image is saved to.
    pub output_path: String,
}

/// The whole configuration resolved to concrete values.
#[derive(Clone, Debug)]
pub struct ResolvedConfig {
    /// The resolved image settings.
    pub image: ResolvedImage,
    /// The number of samples per pixel.
    pub samples_per_pixel: u32,
    /// The maximum depth of the ray-tracing recursion.
    pub max_depth: u32,
}

pub fn default_width() -> (r: u32)
    ensures
        r == DEFAULT_WIDTH,
{
    DEFAULT_WIDTH
}

pub fn default_output_path() -> (r: String)
    ensures
        r@ == "output/image.ppm"@,
{
    String::from_str("output/image.ppm")
}

pub fn default_samples_per_pixel() -> (r: u32)
    ensures
        r == DEFAULT_SAMPLES_PER_PIXEL,
{
    DEFAULT_SAMPLES_PER_PIXEL
}

pub fn default_max_depth() -> (r: u32)
    ensures
        r == DEFAULT_MAX_DEPTH,
{
    DEFAULT_MAX_DEPTH
}

impl Default for ImageConfig {
    fn default() -> (r: Self)
        ensures
            r.width == DEFAULT_WIDTH,
            r.height is None,
            r.aspect_ratio is None,
            r.aspect_width is None,
            r.aspect_height is None,
            r.output_path@ == "output/image.ppm"@,
    {
        ImageConfig {
            width: DEFAULT_WIDTH,
            height: None,
            aspect_ratio: None,
            aspect_width: None,
            aspect_height: None,
            output_path: default_output_path(),
        }
    }
}

impl Default for RenderConfig {
    fn default() -> (r: Self)
        ensures
            r.samples_per_pixel == DEFAULT_SAMPLES_PER_PIXEL,
            r.max_depth == DEFAULT_MAX_DEPTH,
    {
        RenderConfig {
            samples_per_pixel: DEFAULT_SAMPLES_PER_PIXEL,
            max_depth: DEFAULT_MAX_DEPTH,
        }
    }
}

impl ImageConfig {
    /// The aspect ratio this configuration selects: the one given directly,
    /// else the `aspect_width : aspect_height` pair when both are present and
    /// the height part is non-zero, else the 16:9 default.
    pub open spec fn chosen_aspect(&self) -> AspectRatio {
        match self.aspect_ratio {
            Some(a) => a,
            None => match (self.aspect_width, self.aspect_height) {
                (Some(w), Some(h)) => if h != 0 {
                    AspectRatio { num: w, den: h }
                } else {
                    AspectRatio { num: DEFAULT_ASPECT_NUM, den: DEFAULT_ASPECT_DEN }
                },
                _ => AspectRatio { num: DEFAULT_ASPECT_NUM, den: DEFAULT_ASPECT_DEN },
            },
        }
    }

    /// The height derived from a width and an aspect ratio: the quotient
    /// `width * den / num` rounded half up, saturated at `u32::MAX`.  A zero
    /// `num` stands for an arbitrarily wide ratio, giving the saturated value.
    pub open spec fn derived_height(width: int, a: AspectRatio) -> int {
        if a.num == 0 {
            u32::MAX as int
        } else {
            let q = (2 * width * a.den + a.num) / (2 * a.num);
            if q > u32::MAX as int {
                u32::MAX as int
            } else {
                q
            }
        }
    }

    /// The height `resolved` settles on: the explicit one when present, else
    /// the derived one.
    pub open spec fn resolved_height(&self) -> int {
        match self.height {
            Some(h) => h as int,
            None => Self::derived_height(self.width as int, self.chosen_aspect()),
        }
    }

    /// Compute the derived height for a width and an aspect ratio.
    pub fn height_for(width: u32, a: AspectRatio) -> (h: u32)
        ensures
            h as int == Self::derived_height(width as int, a),
    {
        if a.num == 0 {
            u32::MAX
        } else {
            proof {
                assert((2 * (width as int) * (a.den as int) + a.num as int)
                    <= 2 * 0xffff_ffff * 0xffff_ffff + 0xffff_ffff) by (nonlinear_arith)
                    requires
                        width <= 0xffff_ffffu32,
                        a.den <= 0xffff_ffffu32,
                        a.num <= 0xffff_ffffu32,
                ;
            }
            let n: u128 = 2 * (width as u128) * (a.den as u128) + (a.num as u128);
            let q: u128 = n / (2 * (a.num as u128));
            if q > u32::MAX as u128 {
                u32::MAX
            } else {
                q as u32
            }
        }
    }

    /// Resolve the image configuration into concrete values.
    pub fn resolved(&self) -> (r: ResolvedImage)
        ensures
            r.width == self.width,
            r.aspect_ratio == self.chosen_aspect(),
            r.height as int == self.resolved_height(),
            r.output_path@ == self.output_path@,
    {
        let aspect = match self.aspect_ratio {
            Some(a) => a,
            None => match (self.aspect_width, self.aspect_height) {
                (Some(w), Some(h)) => if h != 0 {
                    AspectRatio { num: w, den: h }
                } else {
                    AspectRatio { num: DEFAULT_ASPECT_NUM, den: DEFAULT_ASPECT_DEN }
                },
                _ => AspectRatio { num: DEFAULT_ASPECT_NUM, den: DEFAULT_ASPECT_DEN },
            },
        };

        let height = match self.height {
            Some(h) => h,
            None => Self::height_for(self.width, aspect),
        };

        ResolvedImage {
            width: self.width,
            height,
            aspect_ratio: aspect,
            output_path: String::from_str(self.output_path.as_str()),
        }
    }
}

impl Default for Config {
    fn default() -> (r: Self)
        ensures
            r.image.width == DEFAULT_WIDTH,
            r.image.height is None,
            r.image.aspect_ratio is None,
            r.image.aspect_width is None,
            r.image.aspect_height is None,
            r.image.output_path@ == "output/image.ppm"@,
            r.render == (RenderConfig {
                samples_per_pixel: DEFAULT_SAMPLES_PER_PIXEL,
                max_depth: DEFAULT_MAX_DEPTH,
            }),
    {
        Config { image: Default::default(), render: Default::default() }
    }
}

impl Config {
    /// Resolve the whole configuration into concrete values.
    pub fn resolve(&self) -> (r: ResolvedConfig)
        ensures
            r.image.width == self.image.width,
            r.image.aspect_ratio == self.image.chosen_aspect(),
            r.image.height as int == self.image.resolved_height(),
            r.image.output_path@ == self.image.output_path@,
            r.samples_per_pixel == self.render.samples_per_pixel,
            r.max_depth == self.render.max_depth,
    {
        ResolvedConfig {
            image: self.image.resolved(),
            samples_per_pixel: self.render.samples_per_pixel,
            max_depth: self.render.max_depth,
        }
    }
}

} // verus!
