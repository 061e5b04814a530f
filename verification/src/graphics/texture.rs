use image::ImageError;
use vstd::prelude::*;

verus! {

/// Declares `image::ImageError`, the decoder's error, so that it can be carried through.
#[verifier::external_type_specification]
#[verifier::external_body]
pub struct ExImageError(ImageError);

/// The width, height and 8-bit RGBA pixel bytes of the image that `encoded` holds, as
/// the `image` crate's built-in decoders read it (format recognised from the leading
/// signature bytes, decoded, then converted to RGBA with eight bits per channel), or
/// `None` when the format is not recognised or the bytes do not decode.
pub uninterp spec fn decoded_rgba8(encoded: Seq<u8>) -> Option<(u32, u32, Seq<u8>)>;

/// The pixels of a texture: width and height in texels, and four bytes (red, green,
/// blue, alpha) per texel, row by row. It always holds exactly `4 * width * height`
/// bytes.
pub struct TextureData {
    width: u32,
    height: u32,
    pixels: Vec<u8>,
}

impl View for TextureData {
    type V = (u32, u32, Seq<u8>);

    /// Width, height and pixel bytes.
    closed spec fn view(&self) -> (u32, u32, Seq<u8>) {
        (self.width, self.height, self.pixels@)
    }
}

/// `t` is the data of a texture: four bytes per texel of a `t.0` by `t.1` image.
pub open spec fn is_rgba8_image(t: (u32, u32, Seq<u8>)) -> bool {
    t.2.len() == 4 * t.0 * t.1
}

/// Why a texture could not be made.
#[derive(Debug)]
pub enum TextureError {
    /// The bytes are not an image the decoder understands.
    Decode(ImageError),
}

/// Decodes with the `image` crate's built-in formats only: `image::guess_format` picks
/// the format from the signature table compiled into the crate, and
/// `image::load_from_memory_with_format` decodes with that built-in format (it sets the
/// format on the reader, so the run-time registrable format hooks are never consulted);
/// the image is then converted to 8-bit RGBA with `DynamicImage::to_rgba8` and handed out
/// as its `width()`, `height()` and `into_raw()` bytes, which are exactly
/// `4 * width * height` (the decoders fill a buffer of the decoder's default
/// `total_bytes`, width times height times bytes per pixel, and the conversion either
/// clones such an RGBA8 buffer or builds one of exactly that length). The contract names the outcome
/// of that whole decode-and-convert (`decoded_rgba8`) and claims that it depends on the
/// bytes alone (the decoders' machine-specific vector paths compute in integers with
/// the same coefficients as their scalar paths, and zune-jpeg's source states that its
/// vector IDCT gives bit-identical results); what the decoders compute is not stated.
#[verifier::external_body]
fn load_rgba8(encoded: &[u8]) -> (r: Result<TextureData, ImageError>)
    ensures
        r is Ok <==> decoded_rgba8(encoded@) is Some,
        r matches Ok(t) ==> decoded_rgba8(encoded@) == Some(t@),
        r matches Ok(t) ==> is_rgba8_image(t@),
{
    let format = image::guess_format(encoded)?;
    let rgba = image::load_from_memory_with_format(encoded, format)?.to_rgba8();
    Ok(TextureData { width: rgba.width(), height: rgba.height(), pixels: rgba.into_raw() })
}

impl TextureData {
    #[verifier::type_invariant]
    closed spec fn holds_every_texel(&self) -> bool {
        is_rgba8_image(self@)
    }

    /// Decodes an encoded image (PNG, JPEG, ...) into RGBA texels; fails exactly when
    /// the decoder cannot read the bytes.
    pub fn from_bytes(bytes: &[u8]) -> (r: Result<TextureData, TextureError>)
        ensures
            r is Ok <==> decoded_rgba8(bytes@) is Some,
            r matches Ok(t) ==> decoded_rgba8(bytes@) == Some(t@),
            r matches Ok(t) ==> is_rgba8_image(t@),
    {
        match load_rgba8(bytes) {
            Ok(t) => Ok(t),
            Err(e) => Err(TextureError::Decode(e)),
        }
    }

    /// The texture drawn where no image is wanted: a single opaque white texel.
    pub fn from_null() -> (t: TextureData)
        ensures
            t@ == (1u32, 1u32, seq![255u8, 255u8, 255u8, 255u8]),
            is_rgba8_image(t@),
    {
        TextureData { width: 1, height: 1, pixels: vec![255u8, 255u8, 255u8, 255u8] }
    }

    /// Width in texels.
    pub fn width(&self) -> (w: u32)
        ensures
            w == self@.0,
    {
        self.width
    }

    /// Height in texels.
    pub fn height(&self) -> (h: u32)
        ensures
            h == self@.1,
    {
        self.height
    }

    /// The pixel bytes, four per texel, row by row.
    pub fn pixels(&self) -> (p: &Vec<u8>)
        ensures
            p@ == self@.2,
            is_rgba8_image(self@),
    {
        proof {
            use_type_invariant(self);
        }
        &self.pixels
    }

    /// How the texels are laid out for the copy to the GPU: `4 * width` bytes per row
    /// and `height` rows per image, which together cover the pixel bytes exactly;
    /// `None` when the row length does not fit in 32 bits.
    pub fn copy_layout(&self) -> (layout: Option<(u32, u32)>)
        ensures
            layout is None <==> 4 * self@.0 > u32::MAX,
            layout matches Some(l) ==> l.0 == 4 * self@.0 && l.1 == self@.1,
            layout matches Some(l) ==> l.0 * l.1 == self@.2.len(),
    {
        proof {
            use_type_invariant(self);
        }
        match 4u32.checked_mul(self.width) {
            Some(bytes_per_row) => Some((bytes_per_row, self.height)),
            None => None,
        }
    }
}

} // verus!
