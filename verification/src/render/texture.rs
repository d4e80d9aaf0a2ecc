//! Pixel formats and textures.

use vstd::prelude::*;
use crate::render::command::{handle_after, GpuCommand, GpuCommandView};
use crate::render::{lemma_issue_twice, Renderer, RendererView};

verus! {

/// A pixel format as the device layer names it: a code that identifies the
/// format, and whether the device layer flags it as sRGB-encoded.
#[derive(Clone, Copy, PartialEq, Eq, Structural, Hash, Debug)]
pub struct TextureFormat {
    pub code: u32,
    pub srgb: bool,
}

impl TextureFormat {
    pub fn new(code: u32, srgb: bool) -> (f: Self)
        ensures
            f == (TextureFormat { code, srgb }),
    {
        TextureFormat { code, srgb }
    }

    /// Whether the format is flagged as sRGB-encoded.
    pub fn is_srgb(&self) -> (r: bool)
        ensures
            r == self.srgb,
    {
        self.srgb
    }
}

/// The bit of [`TextureUsages`] for a texture that is copied from.
pub const TEXTURE_COPY_SRC: u32 = 1;

/// The bit of [`TextureUsages`] for a texture that is copied into.
pub const TEXTURE_COPY_DST: u32 = 2;

/// The bit of [`TextureUsages`] for a texture that a bind group binds.
pub const TEXTURE_BINDING: u32 = 4;

/// The bit of [`TextureUsages`] for a texture bound as storage.
pub const TEXTURE_STORAGE_BINDING: u32 = 8;

/// The bit of [`TextureUsages`] for a texture that a render pass draws into.
pub const TEXTURE_RENDER_ATTACHMENT: u32 = 16;

/// Ways in which a texture may be used, combinable bit by bit.
#[derive(Clone, Copy, PartialEq, Eq, Structural, Hash, Debug)]
pub struct TextureUsages {
    pub bits: u32,
}

impl TextureUsages {
    pub fn from_bits(bits: u32) -> (u: Self)
        ensures
            u.bits == bits,
    {
        TextureUsages { bits }
    }

    /// The usage of a texture that a render pass draws into.
    pub fn render_attachment() -> (u: Self)
        ensures
            u.bits == TEXTURE_RENDER_ATTACHMENT,
    {
        TextureUsages { bits: TEXTURE_RENDER_ATTACHMENT }
    }
}

/// Why the decoder of the `image` crate gave up on its input.
#[verifier::external_type_specification]
#[verifier::external_body]
pub struct ExImageError(image::ImageError);

/// An image as the `image` crate holds it, in whatever pixel format it was
/// decoded to.
#[verifier::external_type_specification]
#[verifier::external_body]
pub struct ExDynamicImage(image::DynamicImage);

/// An image of 8-bit RGBA pixels, row after row from the top.
#[derive(Clone, Debug, PartialEq, Eq)]
pub struct RawImage {
    pub width: u32,
    pub height: u32,
    pub pixels: Vec<u8>,
}

impl RawImage {
    /// Whether the image holds four bytes for each of its pixels, no more
    /// and no fewer.
    pub open spec fn complete(&self) -> bool {
        self.pixels@.len() == 4 * self.width * self.height
    }

    /// Whether the image holds four bytes for each of its pixels, no more
    /// and no fewer.
    pub fn is_complete(&self) -> (r: bool)
        ensures
            r == self.complete(),
    {
        let width: u128 = self.width as u128;
        let height: u128 = self.height as u128;
        assert(width * height <= 0xffff_ffff * 0xffff_ffff) by (nonlinear_arith)
            requires
                width <= 0xffff_ffff,
                height <= 0xffff_ffff,
        ;
        let area: u128 = width * height;
        let bytes: u128 = 4 * area;
        assert(bytes == 4 * self.width * self.height) by (nonlinear_arith)
            requires
                bytes == 4 * (width * height),
                width == self.width,
                height == self.height,
        ;
        self.pixels.len() as u128 == bytes
    }
}

/// Why no texture was made.
#[derive(Clone, PartialEq, Eq, Debug)]
pub enum TextureError {
    /// The bytes are no image that the decoder reads; the decoder's reason
    /// is handed on.
    Decode(String),
    /// The image does not hold four bytes for each of its pixels.
    InvalidSize,
}

/// A texture with a view of it and a sampler for it, each named by the
/// handle of the device object.
#[derive(Clone, Copy, PartialEq, Eq, Structural, Hash, Debug)]
pub struct Texture {
    pub texture: u64,
    pub view: u64,
    pub sampler: u64,
}

/// Decodes an encoded image with `image::load_from_memory`, which guesses
/// the format from the bytes. Nothing is claimed of the outcome: which
/// bytes the decoder reads, and what it makes of them, is the decoder's
/// business.
#[verifier::external_body]
fn load_image(bytes: &[u8]) -> Result<image::DynamicImage, image::ImageError> {
    image::load_from_memory(bytes)
}

/// Turns an image into 8-bit RGBA with `DynamicImage::to_rgba8`, and takes
/// the width, the height and the pixels out of the result. Nothing is
/// claimed of them.
#[verifier::external_body]
fn rgba8_of(img: &image::DynamicImage) -> RawImage {
    let rgba = img.to_rgba8();
    let (width, height) = rgba.dimensions();
    RawImage { width, height, pixels: rgba.into_raw() }
}

/// The decoder's reason in words, as `ImageError` displays it. Nothing is
/// claimed of the words.
#[verifier::external_body]
fn reason_of(error: &image::ImageError) -> String {
    error.to_string()
}

/// The texture whose three device objects take the handles from `handle` on.
pub open spec fn texture_at(handle: u64) -> Texture {
    Texture {
        texture: handle,
        view: handle_after(handle, 1),
        sampler: handle_after(handle, 2),
    }
}

/// The command that creates `texture` from an image.
pub open spec fn texture_command(texture: Texture, width: u32, height: u32, pixels: Seq<u8>)
    -> GpuCommandView {
    GpuCommandView::CreateTexture {
        texture: texture.texture,
        view: texture.view,
        sampler: texture.sampler,
        width,
        height,
        pixels,
    }
}

/// What making a texture of an image returns: the texture, or the reason
/// why the image is refused.
pub open spec fn texture_result(renderer: RendererView, width: u32, height: u32, pixels: Seq<u8>)
    -> Result<Texture, TextureError> {
    if pixels.len() == 4 * width * height {
        Ok(texture_at(renderer.next_handle))
    } else {
        Err(TextureError::InvalidSize)
    }
}

/// The device context after a texture was made of an image, or was refused.
pub open spec fn texture_effect(renderer: RendererView, width: u32, height: u32, pixels: Seq<u8>)
    -> RendererView {
    if pixels.len() == 4 * width * height {
        renderer.issue(
            seq![texture_command(texture_at(renderer.next_handle), width, height, pixels)],
            3,
        )
    } else {
        renderer
    }
}

/// What a decoder made of encoded bytes, in plain values: the width, the
/// height and the pixels, or the decoder's reason for giving up.
pub open spec fn decoded_view(decoded: Result<RawImage, String>) -> Result<
    (u32, u32, Seq<u8>),
    String,
> {
    match decoded {
        Ok(img) => Ok((img.width, img.height, img.pixels@)),
        Err(reason) => Err(reason),
    }
}

/// What making a texture of encoded bytes returns, given what the decoder
/// made of the bytes.
pub open spec fn decoded_result(
    renderer: RendererView,
    decoded: Result<(u32, u32, Seq<u8>), String>,
) -> Result<Texture, TextureError> {
    match decoded {
        Ok((width, height, pixels)) => texture_result(renderer, width, height, pixels),
        Err(reason) => Err(TextureError::Decode(reason)),
    }
}

/// The device context after a texture was made of encoded bytes, given
/// what the decoder made of the bytes.
pub open spec fn decoded_effect(
    renderer: RendererView,
    decoded: Result<(u32, u32, Seq<u8>), String>,
) -> RendererView {
    match decoded {
        Ok((width, height, pixels)) => texture_effect(renderer, width, height, pixels),
        Err(_) => renderer,
    }
}

impl Texture {
    /// Makes a texture of 8-bit RGBA pixels. An image that does not hold
    /// four bytes for each of its pixels is refused, and nothing is
    /// recorded.
    pub fn from_raw(renderer: &mut Renderer, img: RawImage) -> (texture: Result<
        Texture,
        TextureError,
    >)
        ensures
            final(renderer).wf() == old(renderer).wf(),
            texture == texture_result(old(renderer)@, img.width, img.height, img.pixels@),
            final(renderer)@ == texture_effect(old(renderer)@, img.width, img.height, img.pixels@),
    {
        if !img.is_complete() {
            return Err(TextureError::InvalidSize);
        }
        let ghost start = renderer@;
        let texture = renderer.allocate_handle();
        let view = renderer.allocate_handle();
        let sampler = renderer.allocate_handle();
        let made = Texture { texture, view, sampler };
        let ghost command = texture_command(made, img.width, img.height, img.pixels@);
        renderer.record(
            GpuCommand::CreateTexture {
                texture,
                view,
                sampler,
                width: img.width,
                height: img.height,
                pixels: img.pixels,
            },
        );
        proof {
            lemma_issue_twice(start, Seq::empty(), 1, Seq::empty(), 1);
            lemma_issue_twice(start, Seq::empty() + Seq::empty(), 2, Seq::empty(), 1);
            lemma_issue_twice(
                start,
                Seq::empty() + Seq::empty() + Seq::empty(),
                3,
                seq![command],
                0,
            );
            assert(Seq::<GpuCommandView>::empty() + Seq::empty() + Seq::empty() + seq![command]
                =~= seq![command]);
        }
        Ok(made)
    }

    /// Makes a texture of an image: of the 8-bit RGBA pixels that the
    /// `image` crate turns it into, as [`Texture::from_raw`] says for
    /// them.
    pub fn from_image(renderer: &mut Renderer, img: &image::DynamicImage) -> (texture: Result<
        Texture,
        TextureError,
    >)
        ensures
            final(renderer).wf() == old(renderer).wf(),
            exists|raw: RawImage|
                {
                    &&& #[trigger] texture_result(
                        old(renderer)@,
                        raw.width,
                        raw.height,
                        raw.pixels@,
                    ) == texture
                    &&& final(renderer)@ == texture_effect(
                        old(renderer)@,
                        raw.width,
                        raw.height,
                        raw.pixels@,
                    )
                },
    {
        let raw = rgba8_of(img);
        let ghost seen = raw;
        let texture = Texture::from_raw(renderer, raw);
        proof {
            assert(texture_result(old(renderer)@, seen.width, seen.height, seen.pixels@)
                == texture);
        }
        texture
    }

    /// Makes a texture of what a decoder made of encoded bytes: of the
    /// image where there is one, as [`Texture::from_raw`] says for it; and
    /// where the decoder gave up, nothing is recorded and its reason is
    /// handed on.
    pub fn from_decoded(renderer: &mut Renderer, decoded: Result<RawImage, String>) -> (texture:
        Result<Texture, TextureError>)
        ensures
            final(renderer).wf() == old(renderer).wf(),
            texture == decoded_result(old(renderer)@, decoded_view(decoded)),
            final(renderer)@ == decoded_effect(old(renderer)@, decoded_view(decoded)),
    {
        match decoded {
            Ok(img) => Texture::from_raw(renderer, img),
            Err(reason) => Err(TextureError::Decode(reason)),
        }
    }

    /// Makes a texture of an encoded image: of whatever the decoder makes
    /// of the bytes, as [`Texture::from_decoded`] says for it.
    pub fn from_bytes(renderer: &mut Renderer, bytes: &[u8]) -> (texture: Result<
        Texture,
        TextureError,
    >)
        ensures
            final(renderer).wf() == old(renderer).wf(),
            exists|decoded: Result<RawImage, String>|
                {
                    &&& #[trigger] decoded_result(old(renderer)@, decoded_view(decoded))
                        == texture
                    &&& final(renderer)@ == decoded_effect(old(renderer)@, decoded_view(decoded))
                },
    {
        let decoded = match load_image(bytes) {
            Ok(img) => Ok(rgba8_of(&img)),
            Err(error) => Err(reason_of(&error)),
        };
        let ghost seen = decoded;
        let texture = Texture::from_decoded(renderer, decoded);
        proof {
            assert(decoded_result(old(renderer)@, decoded_view(seen)) == texture);
        }
        texture
    }
}

} // verus!
