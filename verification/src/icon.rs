//! Icons as the discovery engine sees them: a reference that is still to be
//! resolved to a file, and the small bitmap that a resolved file is rendered to.

use vstd::prelude::*;

verus! {

/// The edge, in pixels, of the square that icons are looked up and rendered for.
pub const ICON_SIZE: u32 = 64;

/// Bytes per pixel of a [`Bitmap`]: red, green, blue, alpha.
pub const BYTES_PER_PIXEL: u32 = 4;

/// An icon reference as the application registry hands it out, reduced to what
/// resolution reads: its canonical text, where it has one. The text is either
/// the path of an image file or a symbolic name for the icon theme.
#[derive(Debug, PartialEq, Eq)]
pub enum IconRef {
    Text(String),
    Opaque,
}

impl View for IconRef {
    type V = Option<Seq<char>>;

    open spec fn view(&self) -> Option<Seq<char>> {
        match self {
            IconRef::Text(s) => Some(s@),
            IconRef::Opaque => None,
        }
    }
}

/// The text of an icon reference, empty where it has none.
pub open spec fn icon_text(icon: Option<Seq<char>>) -> Seq<char> {
    match icon {
        Some(text) => text,
        None => Seq::empty(),
    }
}

/// What a bitmap holds: its size in pixels and its pixel bytes, row by row.
pub struct BitmapView {
    pub width: nat,
    pub height: nat,
    pub pixels: Seq<u8>,
}

impl BitmapView {
    /// A bitmap fits the icon canvas, is not empty, and has four bytes for
    /// each of its pixels.
    pub open spec fn well_formed(self) -> bool {
        &&& 1 <= self.width <= ICON_SIZE
        &&& 1 <= self.height <= ICON_SIZE
        &&& self.pixels.len() == self.width * self.height * BYTES_PER_PIXEL
    }
}

/// An icon rendered for the canvas of `ICON_SIZE` by `ICON_SIZE` pixels. The
/// image keeps its aspect ratio, so either edge may be shorter than the canvas.
#[derive(Debug, PartialEq, Eq)]
pub struct Bitmap {
    width: u32,
    height: u32,
    pixels: Vec<u8>,
}

impl View for Bitmap {
    type V = BitmapView;

    closed spec fn view(&self) -> BitmapView {
        BitmapView { width: self.width as nat, height: self.height as nat, pixels: self.pixels@ }
    }
}

/// What an optional bitmap holds.
pub open spec fn bitmap_view(bitmap: Option<Bitmap>) -> Option<BitmapView> {
    match bitmap {
        Some(b) => Some(b@),
        None => None,
    }
}

impl Bitmap {
    #[verifier::type_invariant]
    spec fn fits_canvas(self) -> bool {
        self@.well_formed()
    }

    /// Takes rendered pixels in. The bitmap is accepted if and only if it is
    /// well formed: `None` tells that it is not.
    pub fn new(width: u32, height: u32, pixels: Vec<u8>) -> (bitmap: Option<Bitmap>)
        ensures
            bitmap is Some <==> (BitmapView {
                width: width as nat,
                height: height as nat,
                pixels: pixels@,
            }).well_formed(),
            bitmap matches Some(b) ==> b@ == (BitmapView {
                width: width as nat,
                height: height as nat,
                pixels: pixels@,
            }),
    {
        if width < 1 || width > ICON_SIZE || height < 1 || height > ICON_SIZE {
            return None;
        }
        assert(width * height * BYTES_PER_PIXEL <= 64 * 64 * 4) by (nonlinear_arith)
            requires
                1 <= width <= 64,
                1 <= height <= 64,
                BYTES_PER_PIXEL == 4,
        ;
        let expected: u32 = width * height * BYTES_PER_PIXEL;
        if pixels.len() != expected as usize {
            return None;
        }
        Some(Bitmap { width, height, pixels })
    }

    /// Width in pixels.
    pub fn width(&self) -> (w: u32)
        ensures
            w == self@.width,
            self@.well_formed(),
    {
        proof {
            use_type_invariant(self);
        }
        self.width
    }

    /// Height in pixels.
    pub fn height(&self) -> (h: u32)
        ensures
            h == self@.height,
            self@.well_formed(),
    {
        proof {
            use_type_invariant(self);
        }
        self.height
    }

    /// The pixel bytes, row by row, four bytes to the pixel.
    pub fn pixels(&self) -> (p: &Vec<u8>)
        ensures
            p@ == self@.pixels,
            self@.well_formed(),
    {
        proof {
            use_type_invariant(self);
        }
        &self.pixels
    }
}

} // verus!
