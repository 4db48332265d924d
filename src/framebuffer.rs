use vstd::prelude::*;

use crate::settings::{frame_len_spec, RenderSettings, CHANNELS};

verus! {

/// One displayable colour, a byte per channel.
#[derive(Debug, Clone, Copy, PartialEq, Eq, Structural)]
pub struct Rgb {
    pub r: u8,
    pub g: u8,
    pub b: u8,
}

/// What a framebuffer holds: its size and its bytes, top row first.
pub struct FrameModel {
    pub width: nat,
    pub height: nat,
    pub bytes: Seq<u8>,
}

/// The first byte of pixel `(i, j)`. `j` counts rows upward from the bottom
/// of the image, as the camera's `v` axis does, while the bytes hold the rows
/// from the top down: row `j` is stored as row `height - 1 - j`.
pub open spec fn slot(width: int, height: int, i: int, j: int) -> int {
    ((height - 1 - j) * width + i) * CHANNELS as int
}

/// The colour stored for pixel `(i, j)`.
pub open spec fn pixel_of(m: FrameModel, i: int, j: int) -> Rgb {
    let s = slot(m.width as int, m.height as int, i, j);
    Rgb { r: m.bytes[s], g: m.bytes[s + 1], b: m.bytes[s + 2] }
}

/// The alpha byte stored for pixel `(i, j)`.
pub open spec fn alpha_of(m: FrameModel, i: int, j: int) -> u8 {
    m.bytes[slot(m.width as int, m.height as int, i, j) + 3]
}

/// Where a pixel of `colours` (listed row by row from the bottom of the image)
/// lies in that list.
pub open spec fn pixel_index(width: int, i: int, j: int) -> int {
    j * width + i
}

/// A pixel's slot lies inside the frame, and its place in a bottom-up pixel
/// list lies inside the list.
pub proof fn lemma_slot_bounds(width: int, height: int, i: int, j: int)
    requires
        0 <= i < width,
        0 <= j < height,
    ensures
        0 <= slot(width, height, i, j),
        slot(width, height, i, j) + CHANNELS as int <= frame_len_spec(width, height),
        0 <= pixel_index(width, i, j) < width * height,
{
    let r = height - 1 - j;
    assert(0 <= r * width + i < width * height) by (nonlinear_arith)
        requires
            0 <= r < height,
            0 <= i < width,
    ;
    assert(0 <= j * width + i < width * height) by (nonlinear_arith)
        requires
            0 <= j < height,
            0 <= i < width,
    ;
    assert(width * height * 4 == (width * height) * 4) by (nonlinear_arith);
}

/// Two different pixels never share a byte: every pixel of a frame is
/// written in a place of its own.
pub proof fn lemma_slots_disjoint(width: int, height: int, i1: int, j1: int, i2: int, j2: int)
    requires
        0 <= i1 < width,
        0 <= j1 < height,
        0 <= i2 < width,
        0 <= j2 < height,
        i1 != i2 || j1 != j2,
    ensures
        slot(width, height, i1, j1) + CHANNELS as int <= slot(width, height, i2, j2) || slot(
            width,
            height,
            i2,
            j2,
        ) + CHANNELS as int <= slot(width, height, i1, j1),
{
    let r1 = height - 1 - j1;
    let r2 = height - 1 - j2;
    if r1 < r2 {
        assert(r1 * width + i1 < r2 * width + i2) by (nonlinear_arith)
            requires
                r1 + 1 <= r2,
                0 <= i1 < width,
                0 <= i2,
        ;
    } else if r2 < r1 {
        assert(r2 * width + i2 < r1 * width + i1) by (nonlinear_arith)
            requires
                r2 + 1 <= r1,
                0 <= i2 < width,
                0 <= i1,
        ;
    }
}

/// Every byte of a frame belongs to a pixel: the pixels' slots cover the
/// frame.
pub proof fn lemma_byte_in_slot(width: int, height: int, k: int)
    requires
        width > 0,
        height > 0,
        0 <= k < frame_len_spec(width, height),
    ensures
        ({
            let i = (k / CHANNELS as int) % width;
            let j = height - 1 - (k / CHANNELS as int) / width;
            &&& 0 <= i < width
            &&& 0 <= j < height
            &&& slot(width, height, i, j) <= k < slot(width, height, i, j) + CHANNELS as int
        }),
{
    let p = k / 4;
    let q = p / width;
    let i = p % width;
    assert(k == p * 4 + k % 4);
    vstd::arithmetic::div_mod::lemma_fundamental_div_mod(p, width);
    assert(p < width * height) by (nonlinear_arith)
        requires
            k < width * height * 4,
            k == p * 4 + k % 4,
            0 <= k % 4,
    ;
    assert(q < height) by (nonlinear_arith)
        requires
            p == width * q + i,
            0 <= i,
            p < width * height,
            width > 0,
    ;
    assert(0 <= q) by (nonlinear_arith)
        requires
            p == width * q + i,
            i < width,
            p >= 0,
            width > 0,
    ;
    assert(q * width == width * q) by (nonlinear_arith);
}

/// Two frames of one size that agree on every pixel's colour and alpha are
/// byte-identical.
pub proof fn lemma_frame_determined_by_pixels(a: FrameModel, b: FrameModel)
    requires
        a.width == b.width,
        a.height == b.height,
        a.width > 0,
        a.height > 0,
        a.bytes.len() == frame_len_spec(a.width as int, a.height as int),
        b.bytes.len() == frame_len_spec(b.width as int, b.height as int),
        forall|i: int, j: int|
            0 <= i < a.width && 0 <= j < a.height ==> #[trigger] pixel_of(a, i, j) == pixel_of(
                b,
                i,
                j,
            ) && alpha_of(a, i, j) == alpha_of(b, i, j),
    ensures
        a.bytes == b.bytes,
{
    assert forall|k: int| 0 <= k < a.bytes.len() implies a.bytes[k] == b.bytes[k] by {
        lemma_byte_in_slot(a.width as int, a.height as int, k);
        let i = (k / CHANNELS as int) % a.width as int;
        let j = a.height - 1 - (k / CHANNELS as int) / a.width as int;
        assert(pixel_of(a, i, j) == pixel_of(b, i, j));
    }
    assert(a.bytes =~= b.bytes);
}

/// An RGBA framebuffer whose rows run from the top of the image down.
pub struct Framebuffer {
    width: usize,
    height: usize,
    data: Vec<u8>,
}

impl View for Framebuffer {
    type V = FrameModel;

    closed spec fn view(&self) -> FrameModel {
        FrameModel { width: self.width as nat, height: self.height as nat, bytes: self.data@ }
    }
}

impl Framebuffer {
    /// The size is not zero and the bytes are exactly one slot per pixel.
    pub open spec fn wf(&self) -> bool {
        &&& self@.width > 0
        &&& self@.height > 0
        &&& frame_len_spec(self@.width as int, self@.height as int) <= usize::MAX
        &&& self@.bytes.len() == frame_len_spec(self@.width as int, self@.height as int)
    }

    /// A frame of the size that `settings` give, every byte zero.
    pub fn new(settings: &RenderSettings) -> (r: Framebuffer)
        requires
            settings.valid(),
        ensures
            r.wf(),
            r@.width == settings.image_width,
            r@.height == settings.image_height,
            r@.bytes == Seq::new(r@.bytes.len(), |k: int| 0u8),
    {
        let len = settings.frame_len();
        let mut data: Vec<u8> = Vec::with_capacity(len);
        let mut k: usize = 0;
        while k < len
            invariant
                k <= len,
                data@ == Seq::new(k as nat, |x: int| 0u8),
            decreases len - k,
        {
            data.push(0u8);
            k += 1;
            assert(data@ =~= Seq::new(k as nat, |x: int| 0u8));
        }
        Framebuffer {
            width: settings.image_width as usize,
            height: settings.image_height as usize,
            data,
        }
    }

    /// Columns of the frame.
    pub fn width(&self) -> (r: usize)
        ensures
            r == self@.width,
    {
        self.width
    }

    /// Rows of the frame.
    pub fn height(&self) -> (r: usize)
        ensures
            r == self@.height,
    {
        self.height
    }

    /// The index of the first byte of pixel `(i, j)`, `j` counted from the
    /// bottom row.
    pub fn pixel_offset(&self, i: usize, j: usize) -> (r: usize)
        requires
            self.wf(),
            i < self@.width,
            j < self@.height,
        ensures
            r == slot(self@.width as int, self@.height as int, i as int, j as int),
            r + CHANNELS <= self@.bytes.len(),
    {
        proof {
            lemma_slot_bounds(self.width as int, self.height as int, i as int, j as int);
        }
        let row = self.height - 1 - j;
        assert(row * self.width + i <= self.width * self.height) by (nonlinear_arith)
            requires
                row < self.height,
                i < self.width,
        ;
        (row * self.width + i) * CHANNELS
    }

    /// The colour stored for pixel `(i, j)`.
    pub fn pixel(&self, i: usize, j: usize) -> (r: Rgb)
        requires
            self.wf(),
            i < self@.width,
            j < self@.height,
        ensures
            r == pixel_of(self@, i as int, j as int),
    {
        let o = self.pixel_offset(i, j);
        Rgb { r: self.data[o], g: self.data[o + 1], b: self.data[o + 2] }
    }

    /// Stores colour `c` for pixel `(i, j)`, fully opaque, and changes no
    /// other byte.
    pub fn set_pixel(&mut self, i: usize, j: usize, c: Rgb)
        requires
            old(self).wf(),
            i < old(self)@.width,
            j < old(self)@.height,
        ensures
            final(self).wf(),
            final(self)@.width == old(self)@.width,
            final(self)@.height == old(self)@.height,
            final(self)@.bytes == ({
                let s = slot(old(self)@.width as int, old(self)@.height as int, i as int, j as int);
                old(self)@.bytes.update(s, c.r).update(s + 1, c.g).update(s + 2, c.b).update(
                    s + 3,
                    255u8,
                )
            }),
    {
        let o = self.pixel_offset(i, j);
        self.data.set(o, c.r);
        self.data.set(o + 1, c.g);
        self.data.set(o + 2, c.b);
        self.data.set(o + 3, 255u8);
    }

    /// The frame of `settings`' size whose pixel `(i, j)` has colour
    /// `colours[j * width + i]` (`colours` lists the rows from the bottom of
    /// the image up) and full alpha. Each pixel is written once.
    pub fn from_pixels(settings: &RenderSettings, colours: &Vec<Rgb>) -> (r: Framebuffer)
        requires
            settings.valid(),
            colours@.len() == settings.image_width * settings.image_height,
        ensures
            r.wf(),
            r@.width == settings.image_width,
            r@.height == settings.image_height,
            forall|i: int, j: int|
                0 <= i < r@.width && 0 <= j < r@.height ==> #[trigger] pixel_of(r@, i, j)
                    == colours@[pixel_index(r@.width as int, i, j)] && alpha_of(r@, i, j) == 255,
    {
        let mut frame = Framebuffer::new(settings);
        let w = frame.width;
        let h = frame.height;
        let mut j: usize = 0;
        while j < h
            invariant
                frame.wf(),
                frame@.width == w,
                frame@.height == h,
                w == settings.image_width,
                h == settings.image_height,
                colours@.len() == w * h,
                j <= h,
                forall|i2: int, j2: int|
                    0 <= i2 < w && 0 <= j2 < j ==> #[trigger] pixel_of(frame@, i2, j2)
                        == colours@[pixel_index(w as int, i2, j2)] && alpha_of(frame@, i2, j2)
                        == 255,
            decreases h - j,
        {
            let mut i: usize = 0;
            while i < w
                invariant
                    frame.wf(),
                    frame@.width == w,
                    frame@.height == h,
                    colours@.len() == w * h,
                    j < h,
                    i <= w,
                    forall|i2: int, j2: int|
                        0 <= i2 < w && (0 <= j2 < j || (j2 == j && i2 < i)) ==> #[trigger] pixel_of(
                            frame@,
                            i2,
                            j2,
                        ) == colours@[pixel_index(w as int, i2, j2)] && alpha_of(frame@, i2, j2)
                            == 255,
                decreases w - i,
            {
                proof {
                    lemma_slot_bounds(w as int, h as int, i as int, j as int);
                }
                let idx = j * w + i;
                let c = colours[idx];
                let ghost before = frame@;
                frame.set_pixel(i, j, c);
                proof {
                    assert forall|i2: int, j2: int|
                        0 <= i2 < w && (0 <= j2 < j || (j2 == j && i2 < i + 1)) implies
                        #[trigger] pixel_of(frame@, i2, j2) == colours@[pixel_index(
                            w as int,
                            i2,
                            j2,
                        )] && alpha_of(frame@, i2, j2) == 255 by {
                        lemma_slot_bounds(w as int, h as int, i2, j2);
                        if i2 != i || j2 != j {
                            lemma_slots_disjoint(w as int, h as int, i2, j2, i as int, j as int);
                            assert(pixel_of(before, i2, j2) == colours@[pixel_index(
                                w as int,
                                i2,
                                j2,
                            )]);
                        }
                    }
                }
                i += 1;
            }
            j += 1;
        }
        frame
    }

    /// The bytes of the frame, top row first, four per pixel.
    pub fn into_bytes(self) -> (r: Vec<u8>)
        ensures
            r@ == self@.bytes,
    {
        self.data
    }
}

} // verus!
