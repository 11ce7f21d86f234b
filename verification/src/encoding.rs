//! The decisions of the YUV-to-VVC conversion: how FFmpeg is asked for raw
//! frames, how the encoder is configured, how large its buffers are, which
//! frames are encoded, and what is reported on the way.
use vstd::prelude::*;
use crate::text::{concat2, concat3, decimal_i32, signed_decimal_text};
use crate::tools::texts;

verus! {

/// The arguments that make `ffmpeg` decode `input` into raw YUV 4:2:0 frames on its output.
pub open spec fn decoder_args_spec(input: Seq<char>) -> Seq<Seq<char>> {
    seq!["-i"@, input, "-pix_fmt"@, "yuv420p"@, "-f"@, "rawvideo"@, "-"@]
}

/// The arguments that make `ffmpeg` decode `input` into raw YUV 4:2:0 frames on its output.
pub fn decoder_args(input: &str) -> (r: Vec<String>)
    ensures
        texts(r@) == decoder_args_spec(input@),
{
    let mut r: Vec<String> = Vec::new();
    r.push(String::from_str("-i"));
    r.push(String::from_str(input));
    r.push(String::from_str("-pix_fmt"));
    r.push(String::from_str("yuv420p"));
    r.push(String::from_str("-f"));
    r.push(String::from_str("rawvideo"));
    r.push(String::from_str("-"));
    assert(texts(r@) =~= decoder_args_spec(input@));
    r
}

/// The chroma subsampling formats of the encoder.
#[derive(Clone, Copy, Debug, PartialEq, Eq, Structural)]
pub enum ChromaFormat {
    Yuv400,
    Yuv420,
    Yuv422,
    Yuv444,
}

/// The encoder's number for a chroma format.
pub open spec fn chroma_code_spec(c: ChromaFormat) -> nat {
    match c {
        ChromaFormat::Yuv400 => 0,
        ChromaFormat::Yuv420 => 1,
        ChromaFormat::Yuv422 => 2,
        ChromaFormat::Yuv444 => 3,
    }
}

impl ChromaFormat {
    /// The encoder's number for this chroma format.
    pub fn code(self) -> (r: usize)
        ensures
            r == chroma_code_spec(self),
    {
        match self {
            ChromaFormat::Yuv400 => 0,
            ChromaFormat::Yuv420 => 1,
            ChromaFormat::Yuv422 => 2,
            ChromaFormat::Yuv444 => 3,
        }
    }
}

/// The encoder's speed presets.
#[derive(Clone, Copy, Debug, PartialEq, Eq, Structural)]
pub enum EncoderPreset {
    Faster,
    Fast,
    Medium,
    Slow,
    Slower,
}

/// The encoder's high-dynamic-range modes.
#[derive(Clone, Copy, Debug, PartialEq, Eq, Structural)]
pub enum HdrMode {
    Off,
    Pq,
    PqBt2020,
    Hlg,
    HlgBt2020,
}

/// Everything the conversion sets in the encoder's configuration.
#[derive(Clone, Copy, Debug, PartialEq, Eq, Structural)]
pub struct EncoderSettings {
    /// Picture width and height, given to the default initialisation and as source size.
    pub width: i32,
    pub height: i32,
    /// The whole frames per second given to the default initialisation.
    pub init_frame_rate: i32,
    pub bitrate: i32,
    /// The quantisation parameter.
    pub qp: i32,
    pub preset: EncoderPreset,
    /// Input, internal and output bit depth of both luma and chroma.
    pub bit_depth: i32,
    pub chroma_format: ChromaFormat,
    pub hdr_mode: HdrMode,
    pub threads: i32,
    /// The exact frame rate, `frame_rate / frame_scale`.
    pub frame_rate: i32,
    pub frame_scale: i32,
}

/// Division that rounds toward zero, as Rust's integer `/` does.
pub open spec fn div_toward_zero(a: int, b: int) -> int {
    if a >= 0 && b > 0 {
        a / b
    } else if a < 0 && b < 0 {
        (-a) / (-b)
    } else if a >= 0 && b < 0 {
        -(a / (-b))
    } else {
        -((-a) / b)
    }
}

/// Division toward zero leaves a remainder smaller than the divisor and of
/// the dividend's sign: `a == q * b + r` with `|r| < |b|`, and `r` is zero
/// or has the sign of `a`.
pub proof fn lemma_div_toward_zero(a: int, b: int)
    requires
        b != 0,
    ensures
        ({
            let q = div_toward_zero(a, b);
            let r = a - q * b;
            &&& (r >= 0 ==> r < (if b > 0 { b } else { -b }))
            &&& (r < 0 ==> -r < (if b > 0 { b } else { -b }))
            &&& (r == 0 || (r > 0) == (a > 0))
        }),
{
    let q = div_toward_zero(a, b);
    if a >= 0 && b > 0 {
        assert(0 <= a - (a / b) * b < b) by (nonlinear_arith)
            requires
                a >= 0,
                b > 0,
        ;
    } else if a < 0 && b < 0 {
        assert(0 <= (-a) - ((-a) / (-b)) * (-b) < -b) by (nonlinear_arith)
            requires
                a < 0,
                b < 0,
        ;
        assert(a - q * b == -((-a) - ((-a) / (-b)) * (-b))) by (nonlinear_arith)
            requires
                q == (-a) / (-b),
        ;
    } else if a >= 0 && b < 0 {
        assert(0 <= a - (a / (-b)) * (-b) < -b) by (nonlinear_arith)
            requires
                a >= 0,
                b < 0,
        ;
        assert(a - q * b == a - (a / (-b)) * (-b)) by (nonlinear_arith)
            requires
                q == -(a / (-b)),
        ;
    } else {
        assert(0 <= (-a) - ((-a) / b) * b < b) by (nonlinear_arith)
            requires
                a < 0,
                b > 0,
        ;
        assert(a - q * b == -((-a) - ((-a) / b) * b)) by (nonlinear_arith)
            requires
                q == -((-a) / b),
        ;
    }
}

/// The encoder configuration of the conversion: quality 36, the faster
/// preset, 8-bit 4:2:0 without HDR, at the given size, rate and threads.
pub open spec fn encoder_settings_spec(
    width: i32,
    height: i32,
    bitrate: i32,
    frame_rate: i32,
    frame_scale: i32,
    threads: i32,
) -> EncoderSettings {
    EncoderSettings {
        width,
        height,
        init_frame_rate: div_toward_zero(frame_rate as int, frame_scale as int) as i32,
        bitrate,
        qp: 36,
        preset: EncoderPreset::Faster,
        bit_depth: 8,
        chroma_format: ChromaFormat::Yuv420,
        hdr_mode: HdrMode::Off,
        threads,
        frame_rate,
        frame_scale,
    }
}

fn div_i32(a: i32, b: i32) -> (r: i32)
    requires
        b != 0,
        !(a == i32::MIN && b == -1),
    ensures
        r as int == div_toward_zero(a as int, b as int),
{
    let aa: i64 = a as i64;
    let bb: i64 = b as i64;
    let ua: i64 = if aa < 0 { -aa } else { aa };
    let ub: i64 = if bb < 0 { -bb } else { bb };
    let q: i64 = ua / ub;
    let r: i64 = if (aa < 0) == (bb < 0) { q } else { -q };
    assert(q <= ua) by (nonlinear_arith)
        requires
            ua >= 0,
            ub >= 1,
            q == ua / ub,
    ;
    assert(r <= i32::MAX) by {
        if ub == 1 {
            assert(q == ua) by (nonlinear_arith)
                requires
                    ub == 1,
                    q == ua / ub,
            ;
        } else {
            assert(q <= ua / 2) by (nonlinear_arith)
                requires
                    ua >= 0,
                    ub >= 2,
                    q == ua / ub,
            ;
        }
    }
    r as i32
}

/// The encoder configuration for a conversion; `frame_scale` must not be
/// zero, as the original divides by it.
pub fn encoder_settings(
    width: i32,
    height: i32,
    bitrate: i32,
    frame_rate: i32,
    frame_scale: i32,
    threads: i32,
) -> (r: EncoderSettings)
    requires
        frame_scale != 0,
        !(frame_rate == i32::MIN && frame_scale == -1),
    ensures
        r == encoder_settings_spec(width, height, bitrate, frame_rate, frame_scale, threads),
{
    EncoderSettings {
        width,
        height,
        init_frame_rate: div_i32(frame_rate, frame_scale),
        bitrate,
        qp: 36,
        preset: EncoderPreset::Faster,
        bit_depth: 8,
        chroma_format: ChromaFormat::Yuv420,
        hdr_mode: HdrMode::Off,
        threads,
        frame_rate,
        frame_scale,
    }
}

/// The bytes of one raw 8-bit YUV 4:2:0 frame: `width * height * 3 / 2`,
/// each dimension taken as `usize`.
pub fn frame_buffer_len(width: i32, height: i32) -> (r: usize)
    requires
        (width as usize) * (height as usize) <= usize::MAX,
        (width as usize) * (height as usize) * 3 <= usize::MAX,
    ensures
        r == (width as usize) * (height as usize) * 3 / 2,
{
    let w = width as usize;
    let h = height as usize;
    w * h * 3 / 2
}

/// The room reserved for one encoded access unit: the chroma format's
/// number times the picture size, plus 1024 bytes; it must fit an `i32`,
/// as the original unwraps that conversion.
pub fn payload_capacity(chroma: ChromaFormat, width: i32, height: i32) -> (r: i32)
    requires
        chroma_code_spec(chroma) * (width as usize) <= usize::MAX,
        chroma_code_spec(chroma) * (width as usize) * (height as usize) + 1024 <= i32::MAX,
    ensures
        r == chroma_code_spec(chroma) * (width as usize) * (height as usize) + 1024,
{
    let c = chroma.code();
    let w = width as usize;
    let h = height as usize;
    let total = c * w * h + 1024;
    total as i32
}

/// The samples of one plane: `width * height`, computed in `i32` and taken as `usize`.
pub fn plane_sample_count(width: i32, height: i32) -> (r: usize)
    requires
        i32::MIN <= width * height <= i32::MAX,
    ensures
        r == (width * height) as usize,
{
    let n: i32 = width * height;
    n as usize
}

/// The 16-bit samples the encoder takes for 8-bit input bytes.
pub fn widen_samples(bytes: &[u8]) -> (r: Vec<i16>)
    ensures
        r.len() == bytes.len(),
        forall|i: int| 0 <= i < bytes.len() ==> #[trigger] r@[i] == bytes@[i] as i16,
{
    let mut r: Vec<i16> = Vec::new();
    let n = bytes.len();
    let mut i: usize = 0;
    while i < n
        invariant
            n == bytes.len(),
            i <= n,
            r.len() == i,
            forall|j: int| 0 <= j < i ==> #[trigger] r@[j] == bytes@[j] as i16,
        decreases n - i,
    {
        r.push(bytes[i] as i16);
        i = i + 1;
    }
    r
}

/// Whether the frame just read is handed to the encoder: every frame but the last one.
pub fn encodes_frame(frame_index: i32, frames: i32) -> (r: bool)
    requires
        0 <= frame_index < frames,
    ensures
        r == (frame_index != frames - 1),
{
    frame_index != frames - 1
}

/// The payload bytes to write after an encoder call: none unless the used size is positive.
pub open spec fn payload_spec(used_size: i32) -> Option<usize> {
    if used_size > 0 {
        Some(used_size as usize)
    } else {
        None
    }
}

/// How many payload bytes the encoder left to write: none unless the used size is positive.
pub fn payload_to_write(used_size: i32) -> (r: Option<usize>)
    ensures
        r == payload_spec(used_size),
{
    if used_size > 0 {
        Some(used_size as usize)
    } else {
        None
    }
}

/// What follows one call of the encoder.
#[derive(Clone, Copy, Debug, PartialEq, Eq, Structural)]
pub enum EncodeStep {
    /// The call failed: report the encoder's last error.
    Fail,
    /// Write this many payload bytes, if any, and call the encoder again.
    Continue(Option<usize>),
    /// Write this many payload bytes, if any; the encoder is done.
    Finish(Option<usize>),
}

/// The step after an encoder call that returned `status_ok`, left
/// `used_size` payload bytes and reported `done`: a failed call stops
/// everything; otherwise the payload is written, and flushing goes on until
/// the encoder is done.
pub open spec fn encode_step_spec(status_ok: bool, used_size: i32, done: bool) -> EncodeStep {
    if !status_ok {
        EncodeStep::Fail
    } else if done {
        EncodeStep::Finish(payload_spec(used_size))
    } else {
        EncodeStep::Continue(payload_spec(used_size))
    }
}

/// After an encoder call, a failed call is reported and nothing written;
/// otherwise exactly the used payload bytes are written (none unless there
/// are some), and the loop goes on exactly while the encoder is not done.
pub proof fn lemma_encode_step(status_ok: bool, used_size: i32, done: bool)
    ensures
        encode_step_spec(status_ok, used_size, done) is Fail <==> !status_ok,
        encode_step_spec(status_ok, used_size, done) is Finish <==> status_ok && done,
        encode_step_spec(status_ok, used_size, done) is Continue <==> status_ok && !done,
        encode_step_spec(status_ok, used_size, done) matches EncodeStep::Continue(w) ==> (w is Some
            <==> used_size > 0) && (w matches Some(n) ==> n == used_size),
        encode_step_spec(status_ok, used_size, done) matches EncodeStep::Finish(w) ==> (w is Some
            <==> used_size > 0) && (w matches Some(n) ==> n == used_size),
{
}

/// What to do after one call of the encoder.
pub fn encode_step(status_ok: bool, used_size: i32, done: bool) -> (r: EncodeStep)
    ensures
        r == encode_step_spec(status_ok, used_size, done),
{
    if !status_ok {
        EncodeStep::Fail
    } else if done {
        EncodeStep::Finish(payload_to_write(used_size))
    } else {
        EncodeStep::Continue(payload_to_write(used_size))
    }
}

/// The error when the encoder cannot be opened.
pub fn encoder_open_error() -> (r: String)
    ensures
        r@ == "Unable to open encoder"@,
{
    String::from_str("Unable to open encoder")
}

/// The error when the picture buffer cannot be reached.
pub fn picture_buffer_error() -> (r: String)
    ensures
        r@ == "Failed to get mutable YUV buffer"@,
{
    String::from_str("Failed to get mutable YUV buffer")
}

/// What is logged when encoding begins.
pub fn begin_encoding_message() -> (r: String)
    ensures
        r@ == "Begin Encoding.."@,
{
    String::from_str("Begin Encoding..")
}

/// What is logged before encoding: `Encoding {frames} frames`.
pub fn encoding_frames_message(frames: i32) -> (r: String)
    ensures
        r@ == "Encoding "@ + signed_decimal_text(frames as int) + " frames"@,
{
    let n = decimal_i32(frames);
    concat3("Encoding ", n.as_str(), " frames")
}

/// The stages of the conversion whose failures are reported with a cause.
#[derive(Clone, Copy, Debug, PartialEq, Eq, Structural)]
pub enum ConversionFailure {
    StartDecoder,
    CreateOutput,
    ReadFrame,
    Encode,
    EncodeFlush,
    WriteOutput,
    WriteOutputFlush,
}

/// The leading words of the report of each failure.
pub open spec fn failure_prefix(f: ConversionFailure) -> Seq<char> {
    match f {
        ConversionFailure::StartDecoder => "Failed to start ffmpeg process: "@,
        ConversionFailure::CreateOutput => "Cannot create output file: "@,
        ConversionFailure::ReadFrame => "Failed to read ffmpeg output: "@,
        ConversionFailure::Encode => "Encode error: "@,
        ConversionFailure::EncodeFlush => "Encode error during flushing: "@,
        ConversionFailure::WriteOutput => "Error writing to file: "@,
        ConversionFailure::WriteOutputFlush => "Error writing to file during flushing: "@,
    }
}

/// The report of a failure of the conversion, given its cause.
pub fn failure_message(failure: ConversionFailure, cause: &str) -> (r: String)
    ensures
        r@ == failure_prefix(failure) + cause@,
{
    let prefix = match failure {
        ConversionFailure::StartDecoder => "Failed to start ffmpeg process: ",
        ConversionFailure::CreateOutput => "Cannot create output file: ",
        ConversionFailure::ReadFrame => "Failed to read ffmpeg output: ",
        ConversionFailure::Encode => "Encode error: ",
        ConversionFailure::EncodeFlush => "Encode error during flushing: ",
        ConversionFailure::WriteOutput => "Error writing to file: ",
        ConversionFailure::WriteOutputFlush => "Error writing to file during flushing: ",
    };
    concat2(prefix, cause)
}

} // verus!
