use vstd::prelude::*;

use tiny_skia::{Color, Pixmap};

verus! {

#[verifier::external_type_specification]
#[verifier::external_body]
pub struct ExPixmap(Pixmap);

/// The bytes that a `tiny_skia::Pixmap` holds: premultiplied RGBA, four
/// bytes per pixel, rows one after another.
pub uninterp spec fn pixmap_data(p: Pixmap) -> Seq<u8>;

/// The width and height that a `tiny_skia::Pixmap` was made with.
pub uninterp spec fn pixmap_size(p: Pixmap) -> (u32, u32);

/// Whether `Pixmap::new(w, h)` succeeds: both sides are non-zero, a row of
/// `4 * w` bytes fits in an `i32`, and the `4 * w * h` bytes fit in a `usize`.
pub open spec fn pixmap_size_ok(w: u32, h: u32) -> bool {
    &&& w > 0
    &&& h > 0
    &&& 4 * w <= i32::MAX
    &&& 4 * w * h <= usize::MAX
}

/// `n` transparent pixels: every byte zero.
pub open spec fn transparent_bytes(n: nat) -> Seq<u8> {
    Seq::new(n, |i: int| 0u8)
}

/// Whether `p` is a fresh transparent pixmap of `w` by `h` pixels.
pub open spec fn is_blank_pixmap(p: Pixmap, w: u32, h: u32) -> bool {
    &&& pixmap_size(p) == (w, h)
    &&& pixmap_data(p) == transparent_bytes(4 * w as nat * h as nat)
}

/// `tiny_skia::Pixmap::new`: returns a pixmap of the given size, filled with
/// transparent black, exactly when the size is accepted (see
/// `pixmap_size_ok`); `None` otherwise.
#[verifier::external_body]
fn new_pixmap(w: u32, h: u32) -> (p: Option<Pixmap>)
    ensures
        p is Some <==> pixmap_size_ok(w, h),
        p matches Some(pm) ==> is_blank_pixmap(pm, w, h),
{
    Pixmap::new(w, h)
}

/// `tiny_skia::Pixmap::width`: the width the pixmap was made with.
#[verifier::external_body]
fn pixmap_width(p: &Pixmap) -> (w: u32)
    ensures
        w == pixmap_size(*p).0,
{
    p.width()
}

/// `tiny_skia::Pixmap::height`: the height the pixmap was made with.
#[verifier::external_body]
fn pixmap_height(p: &Pixmap) -> (h: u32)
    ensures
        h == pixmap_size(*p).1,
{
    p.height()
}

/// `tiny_skia::Pixmap::data`: the pixmap's bytes.
#[verifier::external_body]
fn pixmap_bytes(p: &Pixmap) -> (d: &[u8])
    ensures
        d@ == pixmap_data(*p),
{
    p.data()
}

/// `tiny_skia::Pixmap::fill` with `Color::TRANSPARENT`: every pixel becomes
/// transparent black (premultiplied, all four bytes zero); the size stays.
#[verifier::external_body]
fn fill_transparent(p: &mut Pixmap)
    ensures
        pixmap_size(*final(p)) == pixmap_size(*old(p)),
        pixmap_data(*final(p)) == transparent_bytes(pixmap_data(*old(p)).len()),
{
    p.fill(Color::TRANSPARENT)
}

/// What resizing to `w` by `h` makes of the pixmap `before`: a fresh
/// transparent pixmap when the size differs and is accepted, `before`
/// itself otherwise.
pub open spec fn resized(before: Pixmap, after: Pixmap, w: u32, h: u32) -> bool {
    if pixmap_size(before) != (w, h) && pixmap_size_ok(w, h) {
        is_blank_pixmap(after, w, h)
    } else {
        after == before
    }
}

/// The 32-bit word `0xAARRGGBB` for one pixel.
pub open spec fn argb(r: u8, g: u8, b: u8, a: u8) -> u32 {
    (a as int * 0x1000000 + r as int * 0x10000 + g as int * 0x100 + b as int) as u32
}

/// The ARGB word of pixel `i` of the RGBA bytes `data`.
pub open spec fn argb_of_pixel(data: Seq<u8>, i: int) -> u32 {
    argb(data[4 * i], data[4 * i + 1], data[4 * i + 2], data[4 * i + 3])
}

/// The number of pixels copied into a buffer of `buffer_len` words from
/// `data`: as many as both hold.
pub open spec fn copied_pixels(buffer_len: nat, data: Seq<u8>) -> nat {
    if buffer_len <= data.len() / 4 {
        buffer_len
    } else {
        data.len() / 4
    }
}

/// Draws the overlay into an RGBA pixmap.
pub struct Renderer {
    pub pixmap: Pixmap,
}

impl Renderer {
    /// A renderer with a transparent `w` by `h` pixmap, or `None` when the
    /// size is not accepted.
    pub fn new(w: u32, h: u32) -> (r: Option<Self>)
        ensures
            r is Some <==> pixmap_size_ok(w, h),
            r matches Some(rr) ==> is_blank_pixmap(rr.pixmap, w, h),
    {
        match new_pixmap(w, h) {
            Some(pixmap) => Some(Renderer { pixmap }),
            None => None,
        }
    }

    /// Adapts the pixmap to a new window size. The pixmap is replaced by a
    /// fresh transparent one when the size differs and is accepted; it stays
    /// as it is otherwise.
    pub fn resize(&mut self, w: u32, h: u32)
        ensures
            resized(old(self).pixmap, final(self).pixmap, w, h),
    {
        if pixmap_width(&self.pixmap) != w || pixmap_height(&self.pixmap) != h {
            if let Some(p) = new_pixmap(w, h) {
                self.pixmap = p;
            }
        }
    }

    /// Makes every pixel transparent.
    pub fn clear(&mut self)
        ensures
            pixmap_size(final(self).pixmap) == pixmap_size(old(self).pixmap),
            pixmap_data(final(self).pixmap) == transparent_bytes(
                pixmap_data(old(self).pixmap).len(),
            ),
    {
        fill_transparent(&mut self.pixmap);
    }

    /// Copies the pixmap into a window buffer of `0xAARRGGBB` words, pixel by
    /// pixel, as far as both reach. Words past the copied pixels stay as they were.
    pub fn to_argb_buffer(&self, buffer: &mut [u32])
        ensures
            final(buffer)@.len() == old(buffer)@.len(),
            forall|i: int|
                0 <= i < copied_pixels(old(buffer)@.len(), pixmap_data(self.pixmap))
                    ==> #[trigger] final(buffer)@[i] == argb_of_pixel(pixmap_data(self.pixmap), i),
            forall|i: int|
                copied_pixels(old(buffer)@.len(), pixmap_data(self.pixmap)) <= i < old(buffer)@.len()
                    ==> #[trigger] final(buffer)@[i] == old(buffer)@[i],
    {
        let data = pixmap_bytes(&self.pixmap);
        let quads = data.len() / 4;
        let len = if buffer.len() <= quads { buffer.len() } else { quads };
        let mut i: usize = 0;
        while i < len
            invariant
                data@ == pixmap_data(self.pixmap),
                quads == data@.len() / 4,
                data@.len() <= usize::MAX,
                len == copied_pixels(old(buffer)@.len(), data@),
                i <= len,
                buffer@.len() == old(buffer)@.len(),
                forall|j: int| 0 <= j < i ==> #[trigger] buffer@[j] == argb_of_pixel(data@, j),
                forall|j: int| i <= j < buffer@.len() ==> #[trigger] buffer@[j] == old(buffer)@[j],
            decreases len - i,
        {
            assert(4 * i + 3 < data@.len()) by (nonlinear_arith)
                requires
                    i < quads,
                    quads == data@.len() / 4,
            ;
            let r = data[4 * i] as u32;
            let g = data[4 * i + 1] as u32;
            let b = data[4 * i + 2] as u32;
            let a = data[4 * i + 3] as u32;
            let word = (a << 24) | (r << 16) | (g << 8) | b;
            assert(word == argb(data@[4 * i as int], data@[4 * i + 1], data@[4 * i + 2], data@[4 * i + 3])) by {
                lemma_pack_argb(r, g, b, a);
            }
            buffer[i] = word;
            i = i + 1;
        }
    }
}

/// Packing four bytes with shifts and ors is the same as weighting them by
/// powers of 256.
proof fn lemma_pack_argb(r: u32, g: u32, b: u32, a: u32)
    requires
        r < 256,
        g < 256,
        b < 256,
        a < 256,
    ensures
        (a << 24) | (r << 16) | (g << 8) | b == a * 0x1000000 + r * 0x10000 + g * 0x100 + b,
{
    assert((a << 24) | (r << 16) | (g << 8) | b == a * 0x1000000 + r * 0x10000 + g * 0x100 + b)
        by (bit_vector)
        requires
            r < 256,
            g < 256,
            b < 256,
            a < 256,
    ;
}

} // verus!
