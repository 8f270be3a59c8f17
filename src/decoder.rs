//! The JPEG decoding facade: probing, pixel-format normalization, error
//! translation and the two ways of taking the decoded samples.
use crate::convert::{cmyk_to_rgb, cmyk_to_rgb_spec};
use crate::reader::{drained, JpegReader};
use std::io::Read;
use vstd::prelude::*;

verus! {

#[verifier::external_type_specification]
#[verifier::external_body]
#[verifier::reject_recursive_types(R)]
pub struct ExJpegDecoder<R>(jpeg_decoder::Decoder<R>);

#[verifier::external_type_specification]
#[verifier::external_body]
pub struct ExJpegError(jpeg_decoder::Error);

#[verifier::external_type_specification]
#[verifier::external_body]
pub struct ExIoError(std::io::Error);

/// The pixel formats that the bitstream decoder reports.
#[derive(Clone, Copy, Debug, PartialEq, Eq, Structural)]
pub enum PixelFormat {
    /// One 8-bit luminance channel.
    L8,
    /// Three 8-bit additive channels.
    RGB24,
    /// Four 8-bit ink coverage channels.
    CMYK32,
}

/// What probing the headers tells of an image.
#[derive(Clone, Copy, Debug, PartialEq, Eq, Structural)]
pub struct ImageInfo {
    pub width: u16,
    pub height: u16,
    pub pixel_format: PixelFormat,
}

/// The colour types that callers see: never the ink-based one.
#[derive(Clone, Copy, Debug, PartialEq, Eq, Structural)]
pub enum ColorType {
    L8,
    Rgb8,
}

/// The image formats an error can be tagged with.
#[derive(Clone, Copy, Debug, PartialEq, Eq, Structural)]
pub enum ImageFormat {
    Jpeg,
}

/// A malformed or inconsistent bitstream.
#[derive(Debug)]
pub struct DecodingError {
    pub format: ImageFormat,
    pub message: String,
}

#[derive(Debug)]
pub enum UnsupportedErrorKind {
    /// A feature of the format that is recognized but not implemented.
    GenericFeature(String),
}

/// A recognized feature that cannot be decoded.
#[derive(Debug)]
pub struct UnsupportedError {
    pub format: ImageFormat,
    pub kind: UnsupportedErrorKind,
}

/// The errors that decoding reports to its caller.
#[derive(Debug)]
pub enum ImageError {
    Decoding(DecodingError),
    Unsupported(UnsupportedError),
    IoError(std::io::Error),
}

pub type ImageResult<T> = Result<T, ImageError>;

/// The bitstream decoder's error kinds, with what each carries as plain values.
#[derive(Debug)]
pub enum JpegFault {
    /// The bitstream is malformed; the description says how.
    Format(String),
    /// A feature that the bitstream decoder does not implement, described.
    Unsupported(String),
    /// Reading the underlying stream failed.
    Io(std::io::Error),
    /// An internal failure of the bitstream decoder, described.
    Internal(String),
}

/// The error that a bitstream decoder fault becomes.
pub open spec fn translated(f: JpegFault) -> ImageError {
    match f {
        JpegFault::Format(m) => ImageError::Decoding(
            DecodingError { format: ImageFormat::Jpeg, message: m },
        ),
        JpegFault::Unsupported(d) => ImageError::Unsupported(
            UnsupportedError {
                format: ImageFormat::Jpeg,
                kind: UnsupportedErrorKind::GenericFeature(d),
            },
        ),
        JpegFault::Io(e) => ImageError::IoError(e),
        JpegFault::Internal(m) => ImageError::Decoding(
            DecodingError { format: ImageFormat::Jpeg, message: m },
        ),
    }
}

/// Relies on jpeg_decoder::Error: tells its four variants apart, keeping the
/// format description, the unsupported feature's debug text, the I/O error and
/// the internal error's text.
#[verifier::external_body]
fn jpeg_fault(err: jpeg_decoder::Error) -> JpegFault {
    match err {
        jpeg_decoder::Error::Format(m) => JpegFault::Format(m),
        jpeg_decoder::Error::Unsupported(f) => JpegFault::Unsupported(format!("{:?}", f)),
        jpeg_decoder::Error::Io(e) => JpegFault::Io(e),
        jpeg_decoder::Error::Internal(e) => JpegFault::Internal(e.to_string()),
    }
}

impl ImageError {
    /// Maps a bitstream decoder fault onto the host error kinds, tagged with
    /// the JPEG format; an I/O error passes through unchanged.
    pub fn from_fault(f: JpegFault) -> (r: ImageError)
        ensures
            r == translated(f),
    {
        match f {
            JpegFault::Format(m) => ImageError::Decoding(
                DecodingError { format: ImageFormat::Jpeg, message: m },
            ),
            JpegFault::Unsupported(d) => ImageError::Unsupported(
                UnsupportedError {
                    format: ImageFormat::Jpeg,
                    kind: UnsupportedErrorKind::GenericFeature(d),
                },
            ),
            JpegFault::Io(e) => ImageError::IoError(e),
            JpegFault::Internal(m) => ImageError::Decoding(
                DecodingError { format: ImageFormat::Jpeg, message: m },
            ),
        }
    }

    fn from_jpeg(err: jpeg_decoder::Error) -> (r: ImageError)
        ensures
            exists|f: JpegFault| r == translated(f),
    {
        let f = jpeg_fault(err);
        let ghost g = f;
        let r = ImageError::from_fault(f);
        assert(r == translated(g));
        r
    }
}

/// The format that callers see for a reported one: the ink-based format
/// becomes the additive three-channel one, any other stays.
pub open spec fn normalized_format(f: PixelFormat) -> PixelFormat {
    if f == PixelFormat::CMYK32 {
        PixelFormat::RGB24
    } else {
        f
    }
}

pub open spec fn normalized_info(info: ImageInfo) -> ImageInfo {
    ImageInfo {
        width: info.width,
        height: info.height,
        pixel_format: normalized_format(info.pixel_format),
    }
}

/// Rewrites the ink-based pixel format to the additive one; the size and any
/// other format pass through.
pub fn normalize_info(info: ImageInfo) -> (r: ImageInfo)
    ensures
        r == normalized_info(info),
        r.pixel_format != PixelFormat::CMYK32,
{
    let pixel_format = match info.pixel_format {
        PixelFormat::CMYK32 => PixelFormat::RGB24,
        other => other,
    };
    ImageInfo { width: info.width, height: info.height, pixel_format }
}

pub open spec fn color_type_of(f: PixelFormat) -> ColorType {
    match f {
        PixelFormat::L8 => ColorType::L8,
        _ => ColorType::Rgb8,
    }
}

impl ColorType {
    /// The colour type of a normalized pixel format. The ink-based format is
    /// never normalized, so it is no input.
    pub fn from_jpeg(pixel_format: PixelFormat) -> (r: ColorType)
        requires
            pixel_format != PixelFormat::CMYK32,
        ensures
            r == color_type_of(pixel_format),
    {
        match pixel_format {
            PixelFormat::L8 => ColorType::L8,
            _ => ColorType::Rgb8,
        }
    }

    pub open spec fn channels(self) -> nat {
        match self {
            ColorType::L8 => 1,
            ColorType::Rgb8 => 3,
        }
    }

    /// Bytes per pixel of this colour type.
    pub fn bytes_per_pixel(&self) -> (r: u8)
        ensures
            r == self.channels(),
    {
        match self {
            ColorType::L8 => 1,
            ColorType::Rgb8 => 3,
        }
    }
}

/// The samples that callers get from the bitstream decoder's output: converted
/// to RGB where the decoder produced ink-based samples, untouched otherwise.
pub open spec fn decoded_samples(raw: Seq<u8>, format: PixelFormat) -> Seq<u8> {
    if format == PixelFormat::CMYK32 {
        cmyk_to_rgb_spec(raw)
    } else {
        raw
    }
}

/// Applies the colour conversion to the decoder's output where its format is
/// the ink-based one; other output is handed back without a copy.
pub fn convert_decoded(data: Vec<u8>, format: PixelFormat) -> (r: Vec<u8>)
    ensures
        r@ == decoded_samples(data@, format),
{
    match format {
        PixelFormat::CMYK32 => cmyk_to_rgb(data.as_slice()),
        _ => data,
    }
}

/// Copies decoded samples into the caller's buffer, byte for byte. Fails with
/// a decoding error, leaving the buffer as it was, when the lengths differ.
pub fn copy_samples(data: &[u8], buf: &mut [u8]) -> (r: ImageResult<()>)
    ensures
        r is Ok <==> data@.len() == old(buf)@.len(),
        r is Ok ==> final(buf)@ == data@,
        r is Err ==> final(buf)@ == old(buf)@ && r->Err_0 is Decoding,
{
    if data.len() != buf.len() {
        return Err(
            ImageError::Decoding(
                DecodingError {
                    format: ImageFormat::Jpeg,
                    message: String::from_str("decoded image size differs from the buffer"),
                },
            ),
        );
    }
    let mut i: usize = 0;
    while i < data.len()
        invariant
            data@.len() == buf@.len(),
            i <= data@.len(),
            forall|j: int| 0 <= j < i ==> buf@[j] == data@[j],
        decreases data@.len() - i,
    {
        buf[i] = data[i];
        i = i + 1;
    }
    assert(buf@ =~= data@);
    Ok(())
}

impl PixelFormat {
    /// Bytes per pixel of the bitstream decoder's output in this format.
    pub open spec fn pixel_bytes(self) -> nat {
        match self {
            PixelFormat::L8 => 1,
            PixelFormat::RGB24 => 3,
            PixelFormat::CMYK32 => 4,
        }
    }
}

/// The length of the bitstream decoder's output for a frame.
pub open spec fn frame_bytes(info: ImageInfo) -> nat {
    (info.width * info.height * info.pixel_format.pixel_bytes()) as nat
}

/// The length of the samples that callers get for an image with this
/// (normalized) metadata.
pub open spec fn image_bytes(info: ImageInfo) -> nat {
    (info.width * info.height * color_type_of(info.pixel_format).channels()) as nat
}

/// The bitstream decoder, with the frame it has read so far.
#[verifier::reject_recursive_types(R)]
pub struct FrameDecoder<R> {
    inner: jpeg_decoder::Decoder<R>,
    frame: Ghost<Option<ImageInfo>>,
}

impl<R> FrameDecoder<R> {
    /// The frame read from the stream's headers, once there is one.
    pub closed spec fn frame(self) -> Option<ImageInfo> {
        self.frame@
    }
}

impl<R: Read> FrameDecoder<R> {
    /// Relies on jpeg_decoder::Decoder::new: a decoder over `r` that has read
    /// nothing yet, so it knows no frame.
    #[verifier::external_body]
    fn new(r: R) -> (d: Self)
        ensures
            d.frame() is None,
    {
        FrameDecoder { inner: jpeg_decoder::Decoder::new(r), frame: Ghost(None) }
    }

    /// Relies on jpeg_decoder::Decoder::read_info: on success a frame is
    /// known; a frame once read is never replaced.
    #[verifier::external_body]
    fn read_info(&mut self) -> (r: Result<(), jpeg_decoder::Error>)
        ensures
            r is Ok ==> final(self).frame() is Some,
            old(self).frame() is Some ==> final(self).frame() == old(self).frame(),
    {
        self.inner.read_info()
    }

    /// Relies on jpeg_decoder::Decoder::info: the frame's size and pixel
    /// format, `None` while no frame was read.
    #[verifier::external_body]
    fn info(&self) -> (r: Option<ImageInfo>)
        ensures
            r == self.frame(),
    {
        match self.inner.info() {
            Some(i) => Some(ImageInfo {
                width: i.width,
                height: i.height,
                pixel_format: match i.pixel_format {
                    jpeg_decoder::PixelFormat::L8 => PixelFormat::L8,
                    jpeg_decoder::PixelFormat::RGB24 => PixelFormat::RGB24,
                    jpeg_decoder::PixelFormat::CMYK32 => PixelFormat::CMYK32,
                },
            }),
            None => None,
        }
    }

    /// Relies on jpeg_decoder::Decoder::decode: on success the frame is known,
    /// an earlier one is kept, and the samples are width times height times
    /// the format's bytes per pixel.
    #[verifier::external_body]
    fn decode(&mut self) -> (r: Result<Vec<u8>, jpeg_decoder::Error>)
        ensures
            r is Ok ==> final(self).frame() is Some,
            r is Ok && old(self).frame() is Some ==> final(self).frame() == old(self).frame(),
            r is Ok ==> r->Ok_0@.len() == frame_bytes(final(self).frame()->Some_0),
    {
        self.inner.decode()
    }
}

/// Decoded samples of a frame's size come out, after conversion, at the size
/// that the normalized metadata gives.
pub proof fn lemma_samples_len(probed: ImageInfo, raw: Seq<u8>)
    requires
        raw.len() == frame_bytes(probed),
    ensures
        decoded_samples(raw, probed.pixel_format).len() == image_bytes(normalized_info(probed)),
{
    let n = probed.width * probed.height;
    assert(probed.width * probed.height * 4 == n * 4);
    assert(probed.width * probed.height * 3 == n * 3);
    assert((n * 4) / 4 == n);
}

/// A JPEG decoder that has probed its stream's headers. Callers see the
/// normalized metadata; the probed format stays inside for the decode step.
#[verifier::reject_recursive_types(R)]
pub struct JpegDecoder<R> {
    decoder: FrameDecoder<R>,
    metadata: ImageInfo,
    probed: ImageInfo,
}

impl<R> JpegDecoder<R> {
    #[verifier::type_invariant]
    spec fn inv(self) -> bool {
        &&& self.metadata == normalized_info(self.probed)
        &&& self.decoder.frame() == Some(self.probed)
    }

    /// The metadata that callers see.
    pub closed spec fn info(self) -> ImageInfo {
        self.metadata
    }

    /// The metadata as the headers reported it.
    pub closed spec fn probed_info(self) -> ImageInfo {
        self.probed
    }

    pub open spec fn total_bytes_spec(self) -> nat {
        image_bytes(self.info())
    }

    /// Width and height in pixels.
    pub fn dimensions(&self) -> (r: (u32, u32))
        ensures
            r == (self.info().width as u32, self.info().height as u32),
    {
        (self.metadata.width as u32, self.metadata.height as u32)
    }

    /// The colour type of the decoded samples: the additive one whenever the
    /// headers reported ink-based samples.
    pub fn color_type(&self) -> (r: ColorType)
        ensures
            r == color_type_of(self.info().pixel_format),
            self.probed_info().pixel_format == PixelFormat::CMYK32 ==> r == ColorType::Rgb8,
            self.info().pixel_format != PixelFormat::CMYK32,
            self.info() == normalized_info(self.probed_info()),
    {
        proof {
            use_type_invariant(self);
        }
        ColorType::from_jpeg(self.metadata.pixel_format)
    }

    /// The number of bytes that the decoded image takes.
    pub fn total_bytes(&self) -> (r: u64)
        ensures
            r == self.total_bytes_spec(),
    {
        proof {
            use_type_invariant(self);
        }
        let w: u64 = self.metadata.width as u64;
        let h: u64 = self.metadata.height as u64;
        let c: u64 = self.color_type().bytes_per_pixel() as u64;
        assert(w * h <= 65535 * 65535) by (nonlinear_arith)
            requires
                w <= 65535,
                h <= 65535,
        ;
        assert(w * h * c <= 65535 * 65535 * 3) by (nonlinear_arith)
            requires
                w * h <= 65535 * 65535,
                c <= 3,
        ;
        w * h * c
    }
}

impl<R: Read> JpegDecoder<R> {
    /// Makes a decoder over the stream `r` and probes its headers. The ink-based
    /// pixel format is reported as the additive one from here on. A failed
    /// probe gives the translation of the bitstream decoder's fault.
    pub fn new(r: R) -> (res: ImageResult<JpegDecoder<R>>)
        ensures
            res is Ok ==> res->Ok_0.info() == normalized_info(res->Ok_0.probed_info()),
            res is Ok ==> res->Ok_0.info().pixel_format != PixelFormat::CMYK32,
            res is Err ==> exists|f: JpegFault| res->Err_0 == translated(f),
    {
        let mut decoder = FrameDecoder::new(r);
        match decoder.read_info() {
            Ok(()) => {},
            Err(e) => return Err(ImageError::from_jpeg(e)),
        }
        let probed = decoder.info().unwrap();
        let metadata = normalize_info(probed);
        Ok(JpegDecoder { decoder, metadata, probed })
    }

    /// Decodes the image, consuming the decoder, and returns a reader over the
    /// samples, converted to RGB where the headers reported ink-based ones.
    pub fn into_reader(self) -> (r: ImageResult<JpegReader<R>>)
        ensures
            r is Ok ==> exists|raw: Seq<u8>|
                #![trigger decoded_samples(raw, self.probed_info().pixel_format)]
                raw.len() == frame_bytes(self.probed_info()) && r->Ok_0@ == decoded_samples(
                    raw,
                    self.probed_info().pixel_format,
                ),
            r is Ok ==> r->Ok_0@.len() == self.total_bytes_spec(),
            r is Err ==> exists|f: JpegFault| r->Err_0 == translated(f),
    {
        proof {
            use_type_invariant(&self);
        }
        let JpegDecoder { mut decoder, probed, .. } = self;
        match decoder.decode() {
            Ok(raw) => {
                let ghost raw_v = raw@;
                proof {
                    lemma_samples_len(probed, raw_v);
                }
                let data = convert_decoded(raw, probed.pixel_format);
                Ok(JpegReader::new(data))
            },
            Err(e) => Err(ImageError::from_jpeg(e)),
        }
    }

    /// Decodes the image, consuming the decoder, into `buf`, which must hold
    /// exactly `total_bytes` bytes. On a failure the buffer is left as it was.
    pub fn read_image(self, buf: &mut [u8]) -> (r: ImageResult<()>)
        requires
            old(buf)@.len() == self.total_bytes_spec(),
        ensures
            r is Ok ==> exists|raw: Seq<u8>|
                #![trigger decoded_samples(raw, self.probed_info().pixel_format)]
                raw.len() == frame_bytes(self.probed_info()) && final(buf)@ == decoded_samples(
                    raw,
                    self.probed_info().pixel_format,
                ),
            r is Err ==> final(buf)@ == old(buf)@,
            r is Err ==> exists|f: JpegFault| r->Err_0 == translated(f),
    {
        proof {
            use_type_invariant(&self);
        }
        let JpegDecoder { mut decoder, probed, .. } = self;
        match decoder.decode() {
            Ok(raw) => {
                let ghost raw_v = raw@;
                proof {
                    lemma_samples_len(probed, raw_v);
                }
                let data = convert_decoded(raw, probed.pixel_format);
                copy_samples(data.as_slice(), buf)
            },
            Err(e) => Err(ImageError::from_jpeg(e)),
        }
    }
}

/// Both ways of taking the samples give the same bytes. For decoder output
/// `raw` of the size the probed frame calls for, `into_reader` holds and
/// `read_image` writes `decoded_samples(raw, probed.pixel_format)`: draining
/// that reader by reads of any sizes, then `read_to_end`, hands out exactly
/// those bytes, and there are as many as the normalized metadata gives, so a
/// buffer of `total_bytes` takes them all.
pub proof fn lemma_paths_agree(probed: ImageInfo, raw: Seq<u8>, sizes: Seq<nat>)
    requires
        raw.len() == frame_bytes(probed),
    ensures
        drained(decoded_samples(raw, probed.pixel_format), sizes) == decoded_samples(
            raw,
            probed.pixel_format,
        ),
        decoded_samples(raw, probed.pixel_format).len() == image_bytes(normalized_info(probed)),
{
    crate::reader::lemma_drained(decoded_samples(raw, probed.pixel_format), sizes);
    lemma_samples_len(probed, raw);
}

} // verus!
