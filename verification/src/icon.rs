//! The window icon: a decoded RGBA bitmap taken from the packaged file, or a
//! solid-colour placeholder where the file is missing or unusable.

use vstd::prelude::*;

verus! {

/// Edge length of the placeholder icon, in pixels.
pub const FALLBACK_SIZE: u32 = 32;

/// Colour of the placeholder icon: a translucent purple.
pub const FALLBACK_RED: u8 = 147;

pub const FALLBACK_GREEN: u8 = 51;

pub const FALLBACK_BLUE: u8 = 255;

pub const FALLBACK_ALPHA: u8 = 200;

/// A bitmap of 32-bit RGBA pixels, row by row.
#[derive(Debug)]
pub struct IconBitmap {
    pub rgba: Vec<u8>,
    pub width: u32,
    pub height: u32,
}

/// Four bytes for each of `width * height` pixels: what a window system
/// accepts as an icon.
pub open spec fn fits(rgba: Seq<u8>, width: u32, height: u32) -> bool {
    rgba.len() == 4 * (width * height)
}

/// The bytes of a `width` by `height` bitmap whose pixels all have one colour.
pub open spec fn solid(width: u32, height: u32, r: u8, g: u8, b: u8, a: u8) -> Seq<u8> {
    Seq::new(
        (4 * (width * height)) as nat,
        |i: int|
            if i % 4 == 0 {
                r
            } else if i % 4 == 1 {
                g
            } else if i % 4 == 2 {
                b
            } else {
                a
            },
    )
}

/// What the placeholder icon holds.
pub open spec fn fallback_pixels() -> Seq<u8> {
    solid(
        FALLBACK_SIZE,
        FALLBACK_SIZE,
        FALLBACK_RED,
        FALLBACK_GREEN,
        FALLBACK_BLUE,
        FALLBACK_ALPHA,
    )
}

/// What decoding `bytes` as a PNG image and converting the image to 8-bit
/// RGBA gives: the raw pixel buffer with the image's width and height, or
/// `None` where the decoder rejects the bytes.
pub uninterp spec fn png_rgba(bytes: Seq<u8>) -> Option<(Seq<u8>, u32, u32)>;

/// Decodes with `image::load_from_memory_with_format` in the PNG format, then
/// takes the image as RGBA (`DynamicImage::into_rgba8`) apart into its raw
/// buffer (`ImageBuffer::into_raw`) and its `dimensions`. Nothing is claimed
/// about the buffer's length: callers check it.
#[verifier::external_body]
fn decode_png(bytes: &[u8]) -> (r: Option<(Vec<u8>, u32, u32)>)
    ensures
        match r {
            Some((rgba, width, height)) => png_rgba(bytes@) == Some((rgba@, width, height)),
            None => png_rgba(bytes@) is None,
        },
{
    match image::load_from_memory_with_format(bytes, image::ImageFormat::Png) {
        Ok(decoded) => {
            let buffer = decoded.into_rgba8();
            let (width, height) = buffer.dimensions();
            Some((buffer.into_raw(), width, height))
        },
        Err(_) => None,
    }
}

/// The bitmap that a decoded image yields, if its buffer fits its dimensions.
pub open spec fn usable(decoded: Option<(Seq<u8>, u32, u32)>) -> Option<(Seq<u8>, u32, u32)> {
    match decoded {
        Some((rgba, width, height)) if fits(rgba, width, height) => decoded,
        _ => None,
    }
}

/// The icon that is shown, given the packaged file's bytes if it could be
/// read: the file's image where it decodes to a fitting bitmap, the
/// placeholder otherwise.
pub open spec fn chosen_icon(file: Option<Seq<u8>>) -> (Seq<u8>, u32, u32) {
    match file {
        Some(bytes) => match usable(png_rgba(bytes)) {
            Some(bitmap) => bitmap,
            None => (fallback_pixels(), FALLBACK_SIZE, FALLBACK_SIZE),
        },
        None => (fallback_pixels(), FALLBACK_SIZE, FALLBACK_SIZE),
    }
}

impl View for IconBitmap {
    type V = (Seq<u8>, u32, u32);

    open spec fn view(&self) -> (Seq<u8>, u32, u32) {
        (self.rgba@, self.width, self.height)
    }
}

impl IconBitmap {
    /// The buffer holds exactly the pixels that the dimensions announce.
    pub open spec fn wf(&self) -> bool {
        fits(self.rgba@, self.width, self.height)
    }

    /// Accepts a pixel buffer with its dimensions if they fit together.
    pub fn from_rgba(rgba: Vec<u8>, width: u32, height: u32) -> (r: Option<IconBitmap>)
        ensures
            match r {
                Some(icon) => fits(rgba@, width, height) && icon@ == (rgba@, width, height),
                None => !fits(rgba@, width, height),
            },
    {
        assert(width * height <= 0xffff_ffff * 0xffff_ffff) by (nonlinear_arith)
            requires
                0 <= width <= 0xffff_ffff,
                0 <= height <= 0xffff_ffff,
        ;
        let pixels: u64 = (width as u64) * (height as u64);
        let len: usize = rgba.len();
        if len % 4 == 0 && (len / 4) as u64 == pixels {
            Some(IconBitmap { rgba, width, height })
        } else {
            None
        }
    }

    /// The placeholder: a square of [`FALLBACK_SIZE`] pixels in one colour.
    pub fn fallback() -> (icon: IconBitmap)
        ensures
            icon.wf(),
            icon@ == (fallback_pixels(), FALLBACK_SIZE, FALLBACK_SIZE),
    {
        let count: usize = 1024;
        let mut rgba: Vec<u8> = Vec::new();
        let mut i: usize = 0;
        while i < count
            invariant
                count == 1024,
                i <= count,
                rgba@.len() == 4 * i,
                forall|j: int| 0 <= j < 4 * i ==> rgba@[j] == fallback_pixels()[j],
            decreases count - i,
        {
            rgba.push(FALLBACK_RED);
            rgba.push(FALLBACK_GREEN);
            rgba.push(FALLBACK_BLUE);
            rgba.push(FALLBACK_ALPHA);
            i = i + 1;
        }
        assert(rgba@ =~= fallback_pixels());
        IconBitmap { rgba, width: FALLBACK_SIZE, height: FALLBACK_SIZE }
    }

    /// Picks the bitmap for a decoded image, or the placeholder where there
    /// is none or its buffer does not fit its dimensions.
    pub fn from_decoded(decoded: Option<(Vec<u8>, u32, u32)>) -> (icon: IconBitmap)
        ensures
            icon.wf(),
            icon@ == match usable(
                match decoded {
                    Some((rgba, width, height)) => Some((rgba@, width, height)),
                    None => None,
                },
            ) {
                Some(bitmap) => bitmap,
                None => (fallback_pixels(), FALLBACK_SIZE, FALLBACK_SIZE),
            },
    {
        match decoded {
            Some((rgba, width, height)) => match IconBitmap::from_rgba(rgba, width, height) {
                Some(icon) => icon,
                None => IconBitmap::fallback(),
            },
            None => IconBitmap::fallback(),
        }
    }

    /// Chooses the window icon at startup. `file` holds the bytes of the
    /// packaged icon where it could be read.
    pub fn select(file: Option<&[u8]>) -> (icon: IconBitmap)
        ensures
            icon.wf(),
            icon@ == chosen_icon(
                match file {
                    Some(bytes) => Some(bytes@),
                    None => None,
                },
            ),
    {
        match file {
            Some(bytes) => IconBitmap::from_decoded(decode_png(bytes)),
            None => IconBitmap::fallback(),
        }
    }
}

} // verus!
