//! Decoded images, and the calls into the image codec and the transform set.
//!
//! The codec and the transforms are those of the `photon_rs` crate. What they
//! compute is not modelled here: each result is given a name, and the
//! contracts of this module say which named result a function returns.

use vstd::prelude::*;
use photon_rs::PhotonImage;
use crate::model::StorageError;
use crate::registry::{is_registry_name, Transform};

verus! {

/// A decoded image as a mathematical value: RGBA samples, row by row, and the
/// dimensions.
pub struct BitmapView {
    pub pixels: Seq<u8>,
    pub width: u32,
    pub height: u32,
}

/// The shape every [`Bitmap`] has: neither dimension is zero, the number of
/// pixels stays below `u32::MAX` (the transforms count pixels in 32 bits), and
/// there are exactly four samples per pixel.
pub open spec fn well_formed(b: BitmapView) -> bool {
    &&& b.width >= 1
    &&& b.height >= 1
    &&& b.width * b.height < u32::MAX
    &&& b.pixels.len() == 4 * (b.width * b.height)
}

/// A decoded image. Every value of this type is [`well_formed`].
#[derive(Debug)]
pub struct Bitmap {
    pixels: Vec<u8>,
    width: u32,
    height: u32,
}

impl View for Bitmap {
    type V = BitmapView;

    closed spec fn view(&self) -> BitmapView {
        BitmapView { pixels: self.pixels@, width: self.width, height: self.height }
    }
}

/// What `photon_rs::native::open_image_from_bytes` returns for the given
/// bytes: the RGBA samples, the width and the height, or `None` where it
/// reports an error.
pub uninterp spec fn decoded_image(bytes: Seq<u8>) -> Option<(Seq<u8>, u32, u32)>;

/// The samples that `photon_rs::filters::filter` leaves in an image of the
/// given samples and dimensions when called with the given filter name.
pub uninterp spec fn filtered_pixels(pixels: Seq<u8>, width: u32, height: u32, filter: Seq<char>) -> Seq<u8>;

/// The PNG stream that `photon_rs::PhotonImage::get_bytes` returns for an
/// image of the given samples and dimensions.
pub uninterp spec fn encoded_png(pixels: Seq<u8>, width: u32, height: u32) -> Seq<u8>;

/// The bitmap that the given bytes decode to, where they decode to a
/// well-formed one.
pub open spec fn decoded_bitmap(bytes: Seq<u8>) -> Option<BitmapView> {
    match decoded_image(bytes) {
        Some((pixels, width, height)) => {
            let b = BitmapView { pixels, width, height };
            if well_formed(b) {
                Some(b)
            } else {
                None
            }
        },
        None => None,
    }
}

/// The bitmap that a transform makes of a bitmap: same dimensions, filtered
/// samples.
pub open spec fn transformed(b: BitmapView, transform: Transform) -> BitmapView {
    BitmapView {
        pixels: filtered_pixels(b.pixels, b.width, b.height, transform.name_view()),
        width: b.width,
        height: b.height,
    }
}

/// The encoded form of a bitmap.
pub open spec fn encoded(b: BitmapView) -> Seq<u8> {
    encoded_png(b.pixels, b.width, b.height)
}

/// The error type of the codec.
#[verifier::external_type_specification]
#[verifier::external_body]
pub struct ExCodecError(photon_rs::native::Error);

/// Calls `photon_rs::native::open_image_from_bytes`, which guesses the format
/// from the bytes, decodes them and converts the picture to RGBA samples.
/// Trusted: the outcome is the one named [`decoded_image`], an error being
/// `None`. Nothing is claimed about the samples or the dimensions themselves.
#[verifier::external_body]
fn open_image_from_bytes(bytes: &[u8]) -> (r: Result<(Vec<u8>, u32, u32), photon_rs::native::Error>)
    ensures
        match r {
            Ok((pixels, width, height)) => decoded_image(bytes@) == Some((pixels@, width, height)),
            Err(_) => decoded_image(bytes@) is None,
        },
{
    match photon_rs::native::open_image_from_bytes(bytes) {
        Ok(img) => Ok((img.get_raw_pixels(), img.get_width(), img.get_height())),
        Err(e) => Err(e),
    }
}

/// Calls `photon_rs::filters::filter` on an image built from the given
/// samples, with the name of a filter of the registry. Trusted: the samples
/// it leaves are those named [`filtered_pixels`], and there are as many as
/// before (each filter of the registry rewrites the samples of an image of
/// unchanged dimensions). The precondition keeps the call away from the
/// inputs on which these filters index past the samples or overflow their
/// 32-bit pixel counter.
#[verifier::external_body]
fn filter(pixels: &[u8], width: u32, height: u32, name: &str) -> (r: Vec<u8>)
    requires
        well_formed(BitmapView { pixels: pixels@, width, height }),
        is_registry_name(name@),
    ensures
        r@ == filtered_pixels(pixels@, width, height, name@),
        r@.len() == pixels@.len(),
{
    let mut img = PhotonImage::new(pixels.to_vec(), width, height);
    photon_rs::filters::filter(&mut img, name);
    img.get_raw_pixels()
}

/// Calls `photon_rs::PhotonImage::get_bytes`, which encodes the image as PNG.
/// Trusted: the stream is the one named [`encoded_png`]. The precondition
/// keeps the call away from the inputs it panics on: too few samples for the
/// dimensions, or a dimension of zero.
#[verifier::external_body]
fn get_bytes(pixels: &[u8], width: u32, height: u32) -> (r: Vec<u8>)
    requires
        well_formed(BitmapView { pixels: pixels@, width, height }),
    ensures
        r@ == encoded_png(pixels@, width, height),
{
    PhotonImage::new(pixels.to_vec(), width, height).get_bytes()
}

impl Bitmap {
    #[verifier::type_invariant]
    spec fn shape_holds(&self) -> bool {
        well_formed(self@)
    }

    /// A bitmap of the given samples and dimensions, where these are
    /// [`well_formed`]; `None` otherwise.
    pub fn new(pixels: Vec<u8>, width: u32, height: u32) -> (r: Option<Bitmap>)
        ensures
            r is Some <==> well_formed(BitmapView { pixels: pixels@, width, height }),
            r matches Some(b) ==> b@ == (BitmapView { pixels: pixels@, width, height }),
    {
        if width == 0 || height == 0 {
            return None;
        }
        assert(width * height <= 0xffff_ffff * 0xffff_ffff) by (nonlinear_arith)
            requires
                width <= 0xffff_ffff,
                height <= 0xffff_ffff,
        ;
        let count: u64 = (width as u64) * (height as u64);
        if count >= u32::MAX as u64 {
            return None;
        }
        if pixels.len() as u64 != 4 * count {
            return None;
        }
        Some(Bitmap { pixels, width, height })
    }

    /// Width in pixels.
    pub fn width(&self) -> (w: u32)
        ensures
            w == self@.width,
            well_formed(self@),
    {
        proof {
            use_type_invariant(self);
        }
        self.width
    }

    /// Height in pixels.
    pub fn height(&self) -> (h: u32)
        ensures
            h == self@.height,
            well_formed(self@),
    {
        proof {
            use_type_invariant(self);
        }
        self.height
    }

    /// The RGBA samples, row by row.
    pub fn pixels(&self) -> (p: &Vec<u8>)
        ensures
            p@ == self@.pixels,
            well_formed(self@),
    {
        proof {
            use_type_invariant(self);
        }
        &self.pixels
    }
}

/// Decodes an encoded image. Fails with `DecodeFault` where the codec rejects
/// the bytes, or where what it produced is not a well-formed bitmap.
pub fn decode(bytes: &[u8]) -> (r: Result<Bitmap, StorageError>)
    ensures
        match r {
            Ok(b) => decoded_bitmap(bytes@) == Some(b@),
            Err(e) => e == StorageError::DecodeFault && decoded_bitmap(bytes@) is None,
        },
{
    match open_image_from_bytes(bytes) {
        Ok((pixels, width, height)) => match Bitmap::new(pixels, width, height) {
            Some(b) => Ok(b),
            None => Err(StorageError::DecodeFault),
        },
        Err(_) => Err(StorageError::DecodeFault),
    }
}

/// Applies a transform of the registry to a bitmap.
pub fn apply(bitmap: &Bitmap, transform: Transform) -> (r: Bitmap)
    ensures
        r@ == transformed(bitmap@, transform),
        well_formed(r@),
{
    proof {
        use_type_invariant(bitmap);
        assert(is_registry_name(transform.name_view()));
    }
    let pixels = filter(bitmap.pixels.as_slice(), bitmap.width, bitmap.height, transform.name());
    Bitmap { pixels, width: bitmap.width, height: bitmap.height }
}

/// Encodes a bitmap.
pub fn encode(bitmap: &Bitmap) -> (r: Vec<u8>)
    ensures
        r@ == encoded(bitmap@),
{
    proof {
        use_type_invariant(bitmap);
    }
    get_bytes(bitmap.pixels.as_slice(), bitmap.width, bitmap.height)
}

} // verus!
