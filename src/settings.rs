use vstd::prelude::*;

verus! {

/// Why a set of render settings was rejected.
#[derive(Debug, Clone, Copy, PartialEq, Eq, Structural)]
pub enum ConfigError {
    /// The image has no columns.
    ZeroWidth,
    /// The image has no rows.
    ZeroHeight,
    /// No camera ray would be drawn for a pixel.
    ZeroSamples,
    /// The RGBA framebuffer would not fit in memory addresses.
    FrameTooLarge,
}

/// Bytes per pixel in the framebuffer: red, green, blue, alpha.
pub const CHANNELS: usize = 4;

/// Settings of one render; `valid` tells whether a render can start from them.
#[derive(Debug, Clone, Copy)]
pub struct RenderSettings {
    /// Columns of the image.
    pub image_width: u32,
    /// Rows of the image.
    pub image_height: u32,
    /// Camera rays averaged for each pixel.
    pub samples_per_pixel: u32,
    /// Scatter events followed before a path is cut off.
    pub max_depth: u32,
    /// Base seed of every pixel's random stream.
    pub random_seed: u64,
}

/// The number of bytes of a `width` by `height` RGBA framebuffer.
pub open spec fn frame_len_spec(width: int, height: int) -> int {
    width * height * CHANNELS as int
}

impl RenderSettings {
    /// Settings that a render can start from.
    pub open spec fn valid(&self) -> bool {
        &&& self.image_width > 0
        &&& self.image_height > 0
        &&& self.samples_per_pixel > 0
        &&& frame_len_spec(self.image_width as int, self.image_height as int) <= usize::MAX
    }

    /// Checks the settings of a render. The checks run in the order of the
    /// parameters, and the first that fails names the error.
    pub fn new(
        image_width: u32,
        image_height: u32,
        samples_per_pixel: u32,
        max_depth: u32,
        random_seed: u64,
    ) -> (r: Result<RenderSettings, ConfigError>)
        ensures
            (r matches Err(ConfigError::ZeroWidth)) <==> image_width == 0,
            (r matches Err(ConfigError::ZeroHeight)) <==> image_width > 0 && image_height == 0,
            (r matches Err(ConfigError::ZeroSamples)) <==> image_width > 0 && image_height > 0
                && samples_per_pixel == 0,
            (r matches Err(ConfigError::FrameTooLarge)) <==> image_width > 0 && image_height > 0
                && samples_per_pixel > 0 && frame_len_spec(image_width as int, image_height as int)
                > usize::MAX,
            r matches Ok(s) ==> s.valid() && s == (RenderSettings {
                image_width,
                image_height,
                samples_per_pixel,
                max_depth,
                random_seed,
            }),
    {
        if image_width == 0 {
            return Err(ConfigError::ZeroWidth);
        }
        if image_height == 0 {
            return Err(ConfigError::ZeroHeight);
        }
        if samples_per_pixel == 0 {
            return Err(ConfigError::ZeroSamples);
        }
        let w = image_width as u64;
        let h = image_height as u64;
        assert(w * h <= u32::MAX as u64 * u32::MAX as u64) by (nonlinear_arith)
            requires
                w <= u32::MAX,
                h <= u32::MAX,
        ;
        let pixels: u64 = w * h;
        if pixels > (usize::MAX / CHANNELS) as u64 {
            return Err(ConfigError::FrameTooLarge);
        }
        Ok(RenderSettings { image_width, image_height, samples_per_pixel, max_depth, random_seed })
    }

    /// The stream of pixel `(i, j)`'s random generator, whose seed is
    /// `random_seed`: the pixel's index in a bottom-up, row by row listing.
    /// Every sample of the pixel draws from that one generator in turn, so
    /// what a pixel draws depends on the seed, the pixel and the sample alone.
    pub fn pixel_stream(&self, i: u32, j: u32) -> (r: u64)
        requires
            self.valid(),
            i < self.image_width,
            j < self.image_height,
        ensures
            r == j * self.image_width + i,
    {
        let w = self.image_width as u64;
        assert(j * w + i < u32::MAX * u32::MAX) by (nonlinear_arith)
            requires
                j < u32::MAX,
                i < w,
                w <= u32::MAX,
        ;
        j as u64 * w + i as u64
    }

    /// The number of bytes of the RGBA framebuffer these settings describe.
    pub fn frame_len(&self) -> (r: usize)
        requires
            self.valid(),
        ensures
            r == frame_len_spec(self.image_width as int, self.image_height as int),
    {
        let w = self.image_width as usize;
        let h = self.image_height as usize;
        assert(w * h * CHANNELS <= usize::MAX);
        w * h * CHANNELS
    }

}

/// Different pixels of one image never share a random stream.
pub proof fn lemma_pixel_streams_distinct(width: int, i1: int, j1: int, i2: int, j2: int)
    requires
        0 <= i1 < width,
        0 <= i2 < width,
        0 <= j1,
        0 <= j2,
        i1 != i2 || j1 != j2,
    ensures
        j1 * width + i1 != j2 * width + i2,
{
    if j1 < j2 {
        assert(j1 * width + i1 < j2 * width + i2) by (nonlinear_arith)
            requires
                j1 + 1 <= j2,
                0 <= i1 < width,
                0 <= i2,
        ;
    } else if j2 < j1 {
        assert(j2 * width + i2 < j1 * width + i1) by (nonlinear_arith)
            requires
                j2 + 1 <= j1,
                0 <= i2 < width,
                0 <= i1,
        ;
    }
}

} // verus!
