//! The video encoder: frames go in one by one, in order, and each adds a chunk to the stream.
//!
//! The encoder is the `openh264` crate's. It keeps state from frame to frame, so what a
//! frame adds depends on the frames before it; nothing is said here of the bytes of a
//! chunk, only that chunks are appended and never reordered.

use crate::frame::RgbImage;
use crate::RendererError;
use vstd::prelude::*;
use vstd::string::*;

verus! {

/// The `openh264` encoder.
#[verifier::external_type_specification]
#[verifier::external_body]
pub struct ExEncoder(openh264::encoder::Encoder);

/// The `openh264` buffer of a frame in planar luma and chroma.
#[verifier::external_type_specification]
#[verifier::external_body]
pub struct ExYuvBuffer(openh264::formats::YUVBuffer);

/// The `openh264` error.
#[verifier::external_type_specification]
#[verifier::external_body]
pub struct ExCodecError(openh264::Error);

/// The width and height that an encoder was started for.
pub uninterp spec fn encoder_extent(encoder: openh264::encoder::Encoder) -> (int, int);

/// The width and height of a planar buffer.
pub uninterp spec fn yuv_extent(image: openh264::formats::YUVBuffer) -> (int, int);

/// Calls `openh264::encoder::Encoder::with_config` on `EncoderConfig::new(width, height)`.
///
/// Believed of it: an encoder that it returns is set to exactly this width and height.
#[verifier::external_body]
pub(crate) fn start_encoder(width: u32, height: u32) -> (made: Result<
    openh264::encoder::Encoder,
    openh264::Error,
>)
    requires
        width <= i32::MAX,
        height <= i32::MAX,
    ensures
        made matches Ok(encoder) ==> encoder_extent(encoder) == (width as int, height as int),
{
    openh264::encoder::Encoder::with_config(openh264::encoder::EncoderConfig::new(width, height))
}

/// Calls `openh264::formats::YUVBuffer::with_rgb`.
///
/// Believed of it: the buffer it returns has the given width and height. The routine
/// panics on an odd width or height and on a buffer of any other length than three bytes
/// per pixel, so those are kept from it.
#[verifier::external_body]
pub(crate) fn to_yuv(width: usize, height: usize, rgb: &Vec<u8>) -> (image:
    openh264::formats::YUVBuffer)
    requires
        width % 2 == 0,
        height % 2 == 0,
        width <= i32::MAX,
        height <= i32::MAX,
        rgb@.len() == width * height * 3,
    ensures
        yuv_extent(image) == (width as int, height as int),
{
    openh264::formats::YUVBuffer::with_rgb(width, height, rgb)
}

/// Calls `openh264::encoder::Encoder::encode` and, where that succeeds,
/// `EncodedBitStream::write_vec` on `stream`.
///
/// Believed of it: the encoder stays set to its width and height; on success the bytes of
/// the new chunk are appended to `stream`, which keeps all it held; on failure `stream` is
/// not touched. The routine panics on an image of another size than the encoder's, so
/// that is kept from it.
#[verifier::external_body]
pub(crate) fn encode_into(
    encoder: &mut openh264::encoder::Encoder,
    image: &openh264::formats::YUVBuffer,
    stream: &mut Vec<u8>,
) -> (outcome: Result<(), openh264::Error>)
    requires
        encoder_extent(*old(encoder)) == yuv_extent(*image),
    ensures
        encoder_extent(*final(encoder)) == encoder_extent(*old(encoder)),
        outcome.is_ok() ==> old(stream)@.is_prefix_of(final(stream)@),
        outcome.is_err() ==> final(stream)@ == old(stream)@,
{
    match encoder.encode(image) {
        Ok(bits) => {
            bits.write_vec(stream);
            Ok(())
        },
        Err(error) => Err(error),
    }
}

/// Calls `to_string` on an `openh264::Error`: the text that the error displays.
#[verifier::external_body]
pub(crate) fn error_text(error: &openh264::Error) -> (text: String) {
    error.to_string()
}

/// An encoder together with the frame size it was started for.
pub struct FrameEncoder {
    pub width: u32,
    pub height: u32,
    pub encoder: openh264::encoder::Encoder,
}

impl FrameEncoder {
    /// The encoder is set to the size that is recorded beside it.
    pub open spec fn wf(&self) -> bool {
        &&& self.width <= i32::MAX
        &&& self.height <= i32::MAX
        &&& encoder_extent(self.encoder) == (self.width as int, self.height as int)
    }

    /// What becomes of a freshly started encoder: it is kept with its size, and a refusal
    /// to start is the error of a failed start.
    pub fn from_start(
        width: u32,
        height: u32,
        made: Result<openh264::encoder::Encoder, openh264::Error>,
    ) -> (started: Result<FrameEncoder, RendererError>)
        ensures
            started.is_ok() <==> made.is_ok(),
            started matches Ok(e) ==> e.width == width && e.height == height && Ok::<
                openh264::encoder::Encoder,
                openh264::Error,
            >(e.encoder) == made,
            started matches Err(e) ==> e is EncoderInit,
    {
        match made {
            Ok(encoder) => Ok(FrameEncoder { width, height, encoder }),
            Err(error) => Err(RendererError::EncoderInit(error_text(&error))),
        }
    }

    /// Starts an encoder for frames of `width` by `height` pixels. Whether it starts is
    /// the encoder's to say; if it does not, the error is that of a failed start.
    pub fn start(width: u32, height: u32) -> (started: Result<FrameEncoder, RendererError>)
        requires
            width <= i32::MAX,
            height <= i32::MAX,
        ensures
            started matches Ok(e) ==> e.wf() && e.width == width && e.height == height,
            started matches Err(e) ==> e is EncoderInit,
    {
        FrameEncoder::from_start(width, height, start_encoder(width, height))
    }

    /// Whether the encoder can take `image`: it has the encoder's size, and both extents
    /// are even.
    pub open spec fn takes(&self, image: RgbImage) -> bool {
        &&& image.width == self.width
        &&& image.height == self.height
        &&& self.width % 2 == 0
        &&& self.height % 2 == 0
    }

    /// What becomes of an attempt to encode one frame: success stays success, and a
    /// failure is the error of a failed encode.
    pub fn from_encode(outcome: Result<(), openh264::Error>) -> (done: Result<(), RendererError>)
        ensures
            done.is_ok() <==> outcome.is_ok(),
            done matches Err(e) ==> e is EncodeFailure,
    {
        match outcome {
            Ok(()) => Ok(()),
            Err(error) => Err(RendererError::EncodeFailure(error_text(&error))),
        }
    }

    /// Encodes one frame and appends its chunk to `stream`.
    ///
    /// An image that the encoder cannot take is refused before the encoder sees it.
    /// Otherwise the encoder decides. In every case `stream` keeps what it held, and
    /// only a success adds to it.
    pub fn encode(&mut self, image: &RgbImage, stream: &mut Vec<u8>) -> (done: Result<
        (),
        RendererError,
    >)
        requires
            old(self).wf(),
            image.wf(),
        ensures
            final(self).wf(),
            final(self).width == old(self).width,
            final(self).height == old(self).height,
            !old(self).takes(*image) ==> done.is_err(),
            done matches Err(e) ==> e is EncodeFailure,
            done.is_ok() ==> old(stream)@.is_prefix_of(final(stream)@),
            done.is_err() ==> final(stream)@ == old(stream)@,
    {
        if image.width != self.width || image.height != self.height {
            return Err(
                RendererError::EncodeFailure(
                    String::from_str("frame size differs from the encoder's"),
                ),
            );
        }
        if self.width % 2 != 0 || self.height % 2 != 0 {
            return Err(
                RendererError::EncodeFailure(
                    String::from_str("frame width and height must be even"),
                ),
            );
        }
        let planar = to_yuv(self.width as usize, self.height as usize, image.as_raw());
        FrameEncoder::from_encode(encode_into(&mut self.encoder, &planar, stream))
    }
}

} // verus!
