use vvconvert::encoding::{
    decoder_args, encoder_settings, encodes_frame, encoding_frames_message, failure_message,
    frame_buffer_len, payload_capacity, payload_to_write, plane_sample_count, widen_samples,
    encode_step, encoder_open_error, picture_buffer_error, begin_encoding_message,
    ChromaFormat, ConversionFailure, EncodeStep, EncoderPreset, HdrMode,
};

#[test]
fn decoder_arguments() {
    assert_eq!(
        decoder_args("in.mp4"),
        vec!["-i", "in.mp4", "-pix_fmt", "yuv420p", "-f", "rawvideo", "-"]
    );
}

#[test]
fn encoder_configuration() {
    let s = encoder_settings(1920, 1080, 2_000_000, 30000, 1001, 4);
    assert_eq!(s.width, 1920);
    assert_eq!(s.height, 1080);
    assert_eq!(s.init_frame_rate, 29);
    assert_eq!(s.bitrate, 2_000_000);
    assert_eq!(s.qp, 36);
    assert_eq!(s.preset, EncoderPreset::Faster);
    assert_eq!(s.bit_depth, 8);
    assert_eq!(s.chroma_format, ChromaFormat::Yuv420);
    assert_eq!(s.hdr_mode, HdrMode::Off);
    assert_eq!(s.threads, 4);
    assert_eq!(s.frame_rate, 30000);
    assert_eq!(s.frame_scale, 1001);
}

#[test]
fn frame_rate_division_truncates_toward_zero() {
    assert_eq!(encoder_settings(1, 1, 1, -7, 2, 1).init_frame_rate, -3);
    assert_eq!(encoder_settings(1, 1, 1, 7, -2, 1).init_frame_rate, -3);
    assert_eq!(encoder_settings(1, 1, 1, -7, -2, 1).init_frame_rate, 3);
    assert_eq!(encoder_settings(1, 1, 1, i32::MIN, 1, 1).init_frame_rate, i32::MIN);
    assert_eq!(encoder_settings(1, 1, 1, 25, 1, 1).init_frame_rate, 25);
}

#[test]
fn buffer_sizes() {
    assert_eq!(frame_buffer_len(1920, 1080), 3_110_400);
    assert_eq!(frame_buffer_len(3, 3), 13);
    assert_eq!(payload_capacity(ChromaFormat::Yuv420, 1920, 1080), 1920 * 1080 + 1024);
    assert_eq!(payload_capacity(ChromaFormat::Yuv444, 10, 10), 3 * 100 + 1024);
    assert_eq!(payload_capacity(ChromaFormat::Yuv400, 10, 10), 1024);
    assert_eq!(plane_sample_count(960, 540), 518_400);
    assert_eq!(ChromaFormat::Yuv422.code(), 2);
}

#[test]
fn samples_are_widened() {
    assert_eq!(widen_samples(&[0, 1, 128, 255]), vec![0i16, 1, 128, 255]);
    assert!(widen_samples(&[]).is_empty());
}

#[test]
fn last_frame_is_read_but_not_encoded() {
    let frames = 4;
    let encoded: Vec<i32> = (0..frames).filter(|&i| encodes_frame(i, frames)).collect();
    assert_eq!(encoded, vec![0, 1, 2]);
    assert!(!encodes_frame(0, 1));
}

#[test]
fn payload_writes() {
    assert_eq!(payload_to_write(0), None);
    assert_eq!(payload_to_write(-3), None);
    assert_eq!(payload_to_write(512), Some(512));
}

#[test]
fn conversion_messages() {
    assert_eq!(encoding_frames_message(120), "Encoding 120 frames");
    assert_eq!(encoding_frames_message(-1), "Encoding -1 frames");
    assert_eq!(failure_message(ConversionFailure::Encode, "oops"), "Encode error: oops");
    assert_eq!(
        failure_message(ConversionFailure::EncodeFlush, "oops"),
        "Encode error during flushing: oops"
    );
    assert_eq!(
        failure_message(ConversionFailure::WriteOutput, "disk full"),
        "Error writing to file: disk full"
    );
    assert_eq!(
        failure_message(ConversionFailure::WriteOutputFlush, "disk full"),
        "Error writing to file during flushing: disk full"
    );
    assert_eq!(
        failure_message(ConversionFailure::StartDecoder, "no such file"),
        "Failed to start ffmpeg process: no such file"
    );
    assert_eq!(
        failure_message(ConversionFailure::CreateOutput, "denied"),
        "Cannot create output file: denied"
    );
    assert_eq!(
        failure_message(ConversionFailure::ReadFrame, "eof"),
        "Failed to read ffmpeg output: eof"
    );
}

#[test]
fn encoder_call_steps() {
    assert_eq!(encode_step(false, 100, false), EncodeStep::Fail);
    assert_eq!(encode_step(false, 100, true), EncodeStep::Fail);
    assert_eq!(encode_step(true, 100, false), EncodeStep::Continue(Some(100)));
    assert_eq!(encode_step(true, 0, false), EncodeStep::Continue(None));
    assert_eq!(encode_step(true, 7, true), EncodeStep::Finish(Some(7)));
    assert_eq!(encode_step(true, -1, true), EncodeStep::Finish(None));
}

#[test]
fn fixed_conversion_texts() {
    assert_eq!(encoder_open_error(), "Unable to open encoder");
    assert_eq!(picture_buffer_error(), "Failed to get mutable YUV buffer");
    assert_eq!(begin_encoding_message(), "Begin Encoding..");
}
