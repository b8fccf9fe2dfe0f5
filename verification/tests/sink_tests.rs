use ndi_sink::audiosink::{AudioInfo, NdiAudioSink};
use ndi_sink::send::{
    create_ndi_send_audio_frame, create_ndi_send_video_frame, create_send_instance, BuildError,
    FourCC, FrameFormatType, SendCreateError, VideoFormat, SEND_TIMECODE_SYNTHESIZE,
};
use ndi_sink::videosink::{NdiVideoSink, VideoInfo};
use ndi_sink::FlowError;

fn build_frame(format: VideoFormat) -> Result<ndi_sink::send::NDISendVideoFrame, BuildError> {
    create_ndi_send_video_frame(2, 1, FrameFormatType::Progressive)
        .with_format(format)
        .with_data(vec![1, 2, 3, 4, 5, 6, 7, 8], 8)
        .build()
}

#[test]
fn payload_exact_length_is_copied_verbatim() {
    let frame = create_ndi_send_video_frame(2, 1, FrameFormatType::Progressive)
        .with_format(VideoFormat::Rgba)
        .with_data(vec![9, 8, 7, 6, 5, 4, 3, 2], 8)
        .build()
        .unwrap();
    assert_eq!(frame.data, vec![9, 8, 7, 6, 5, 4, 3, 2]);
    assert_eq!(frame.line_stride_in_bytes, 8);
    assert_eq!(frame.timecode, SEND_TIMECODE_SYNTHESIZE);
    assert_eq!(frame.frame_rate_n, 0);
    assert_eq!(frame.frame_rate_d, 0);
}

#[test]
fn payload_short_input_is_zero_padded() {
    let frame = create_ndi_send_video_frame(2, 2, FrameFormatType::Progressive)
        .with_format(VideoFormat::Rgba)
        .with_data(vec![0xAA; 4], 8)
        .build()
        .unwrap();
    assert_eq!(frame.data.len(), 16);
    assert_eq!(
        frame.data,
        vec![0xAA, 0xAA, 0xAA, 0xAA, 0, 0, 0, 0, 0, 0, 0, 0, 0, 0, 0, 0]
    );
}

#[test]
fn payload_long_input_is_truncated() {
    let frame = create_ndi_send_video_frame(2, 1, FrameFormatType::Progressive)
        .with_format(VideoFormat::Rgba)
        .with_data(vec![7; 20], 8)
        .build()
        .unwrap();
    assert_eq!(frame.data, vec![7; 8]);
}

#[test]
fn translation_table_maps_all_eight_formats() {
    let cases = [
        (VideoFormat::Uyvy, FourCC::Uyvy),
        (VideoFormat::I420, FourCC::Yv12),
        (VideoFormat::Nv12, FourCC::Nv12),
        (VideoFormat::Yv12, FourCC::I420),
        (VideoFormat::Bgra, FourCC::Bgra),
        (VideoFormat::Bgrx, FourCC::Bgrx),
        (VideoFormat::Rgba, FourCC::Rgba),
        (VideoFormat::Rgbx, FourCC::Rgbx),
    ];
    for (format, code) in cases {
        let frame = build_frame(format).unwrap();
        assert_eq!(frame.four_cc, code);
        // Same input format, same output code on a second run.
        assert_eq!(build_frame(format).unwrap().four_cc, code);
    }
}

#[test]
fn unsupported_format_fails_build() {
    let r = build_frame(VideoFormat::Unknown);
    assert!(matches!(r, Err(BuildError::UnsupportedFormat)));
}

#[test]
fn audio_frame_keeps_payload_length() {
    let frame = create_ndi_send_audio_frame(48000, 2)
        .with_data(vec![1, 2, 3, 4, 5])
        .build();
    assert_eq!(frame.sample_rate, 48000);
    assert_eq!(frame.channels, 2);
    assert_eq!(frame.data, vec![1, 2, 3, 4, 5]);
}

#[test]
fn create_send_instance_rejects_embedded_nul() {
    let r = create_send_instance("bad\0name".to_string(), false, false);
    assert!(matches!(r, Err(SendCreateError::InvalidName)));
}

#[test]
fn create_send_instance_binds_name() {
    let inst = create_send_instance("Front Camera".to_string(), false, false).unwrap();
    assert_eq!(inst.ndi_name, "Front Camera");
    assert!(!inst.clock_video);
    assert!(!inst.clock_audio);
    assert_eq!(inst.sent_video.len(), 0);
    assert_eq!(inst.sent_audio.len(), 0);
}

#[test]
fn default_name_is_the_process_wide_constant() {
    let sink = NdiVideoSink::new();
    assert_eq!(sink.get_property(), "GStreamer NDI Sink");
    let audio = NdiAudioSink::new();
    assert_eq!(audio.get_property(), "GStreamer NDI Sink");
}

#[test]
fn unset_property_falls_back_to_default() {
    let mut sink = NdiVideoSink::new();
    sink.set_property(Some("Test".to_string()));
    assert_eq!(sink.get_property(), "Test");
    sink.set_property(None);
    assert_eq!(sink.get_property(), "GStreamer NDI Sink");
}

#[test]
fn start_stop_round_trip_restarts() {
    let mut sink = NdiVideoSink::new();
    for _ in 0..5 {
        assert!(sink.start().is_ok());
        assert!(sink.state.sender.is_some());
        sink.stop();
        assert!(sink.state.sender.is_none());
    }
    assert!(sink.start().is_ok());
    assert!(sink.state.sender.is_some());
}

#[test]
fn start_is_idempotent_and_keeps_the_connection() {
    let mut sink = NdiVideoSink::new();
    sink.set_property(Some("First".to_string()));
    assert!(sink.start().is_ok());
    assert!(sink.start().is_ok());
    let conn = sink.state.sender.as_ref().unwrap();
    assert_eq!(conn.ndi_name, "First");
}

#[test]
fn start_with_invalid_name_fails_and_stays_stopped() {
    let mut sink = NdiVideoSink::new();
    sink.set_property(Some("bad\0name".to_string()));
    let r = sink.start();
    assert!(matches!(r, Err(SendCreateError::InvalidName)));
    assert!(sink.state.sender.is_none());
}

#[test]
fn render_before_start_returns_not_started() {
    let mut sink = NdiVideoSink::new();
    sink.set_caps(Some(VideoInfo {
        width: 2,
        height: 1,
        format: VideoFormat::Rgba,
        stride: 8,
    }));
    let r = sink.render(&vec![0xFF; 8]);
    assert!(matches!(r, Err(FlowError::NotStarted)));
    assert!(sink.state.sender.is_none());
}

#[test]
fn render_after_stop_returns_not_started() {
    let mut sink = NdiVideoSink::new();
    sink.start().unwrap();
    sink.stop();
    let r = sink.render(&vec![0xFF; 8]);
    assert!(matches!(r, Err(FlowError::NotStarted)));
}

#[test]
fn name_change_after_start_takes_effect_only_on_restart() {
    let mut sink = NdiVideoSink::new();
    sink.set_property(Some("Old".to_string()));
    sink.start().unwrap();
    sink.set_property(Some("New".to_string()));
    assert_eq!(sink.state.sender.as_ref().unwrap().ndi_name, "Old");
    sink.start().unwrap();
    assert_eq!(sink.state.sender.as_ref().unwrap().ndi_name, "Old");
    sink.stop();
    sink.start().unwrap();
    assert_eq!(sink.state.sender.as_ref().unwrap().ndi_name, "New");
}

#[test]
fn video_end_to_end_transmits_one_exact_frame() {
    let mut sink = NdiVideoSink::new();
    sink.set_property(Some("Test".to_string()));
    sink.start().unwrap();
    sink.set_caps(Some(VideoInfo {
        width: 2,
        height: 1,
        format: VideoFormat::Rgba,
        stride: 8,
    }));
    let r = sink.render(&vec![0xFF; 8]);
    assert!(r.is_ok());
    let conn = sink.state.sender.as_ref().unwrap();
    assert_eq!(conn.sent_video.len(), 1);
    let frame = &conn.sent_video[0];
    assert_eq!(frame.data.len(), 8);
    assert_eq!(frame.data, vec![0xFF; 8]);
    assert_eq!(frame.four_cc, FourCC::Rgba);
    assert_eq!(frame.xres, 2);
    assert_eq!(frame.yres, 1);
    assert_eq!(frame.line_stride_in_bytes, 8);
    assert_eq!(frame.frame_format_type, FrameFormatType::Progressive);
}

#[test]
fn video_end_to_end_zero_pads_short_buffer() {
    let mut sink = NdiVideoSink::new();
    sink.start().unwrap();
    sink.set_caps(Some(VideoInfo {
        width: 2,
        height: 2,
        format: VideoFormat::Rgba,
        stride: 8,
    }));
    sink.render(&vec![0xAA; 4]).unwrap();
    let conn = sink.state.sender.as_ref().unwrap();
    assert_eq!(
        conn.sent_video[0].data,
        vec![0xAA, 0xAA, 0xAA, 0xAA, 0, 0, 0, 0, 0, 0, 0, 0, 0, 0, 0, 0]
    );
}

#[test]
fn render_without_negotiated_format_drops_buffer() {
    let mut sink = NdiVideoSink::new();
    sink.start().unwrap();
    let r = sink.render(&vec![0xFF; 8]);
    assert!(r.is_ok());
    assert_eq!(sink.state.sender.as_ref().unwrap().sent_video.len(), 0);
}

#[test]
fn render_with_unsupported_format_sends_nothing() {
    let mut sink = NdiVideoSink::new();
    sink.start().unwrap();
    sink.set_caps(Some(VideoInfo {
        width: 2,
        height: 1,
        format: VideoFormat::Unknown,
        stride: 8,
    }));
    let r = sink.render(&vec![0xFF; 8]);
    assert!(matches!(r, Err(FlowError::UnsupportedFormat)));
    assert_eq!(sink.state.sender.as_ref().unwrap().sent_video.len(), 0);
}

#[test]
fn renegotiation_replaces_the_committed_format() {
    let mut sink = NdiVideoSink::new();
    sink.start().unwrap();
    sink.set_caps(Some(VideoInfo {
        width: 4,
        height: 4,
        format: VideoFormat::Bgra,
        stride: 16,
    }));
    sink.set_caps(Some(VideoInfo {
        width: 2,
        height: 1,
        format: VideoFormat::Uyvy,
        stride: 4,
    }));
    sink.render(&vec![1, 2, 3, 4]).unwrap();
    let frame = &sink.state.sender.as_ref().unwrap().sent_video[0];
    assert_eq!(frame.four_cc, FourCC::Uyvy);
    assert_eq!(frame.xres, 2);
    assert_eq!(frame.data, vec![1, 2, 3, 4]);
}

#[test]
fn repeated_render_appends_in_delivery_order() {
    let mut sink = NdiVideoSink::new();
    sink.start().unwrap();
    sink.set_caps(Some(VideoInfo {
        width: 1,
        height: 1,
        format: VideoFormat::Rgba,
        stride: 4,
    }));
    sink.render(&vec![1; 4]).unwrap();
    sink.render(&vec![2; 4]).unwrap();
    sink.render(&vec![3; 4]).unwrap();
    let conn = sink.state.sender.as_ref().unwrap();
    assert_eq!(conn.sent_video.len(), 3);
    assert_eq!(conn.sent_video[0].data, vec![1; 4]);
    assert_eq!(conn.sent_video[1].data, vec![2; 4]);
    assert_eq!(conn.sent_video[2].data, vec![3; 4]);
}

#[test]
fn audio_render_before_start_returns_not_started() {
    let mut sink = NdiAudioSink::new();
    sink.set_caps(Some(AudioInfo { rate: 44100, channels: 2 }));
    let r = sink.render(&vec![1, 2, 3, 4]);
    assert!(matches!(r, Err(FlowError::NotStarted)));
}

#[test]
fn audio_render_without_format_drops_buffer() {
    let mut sink = NdiAudioSink::new();
    sink.start().unwrap();
    let r = sink.render(&vec![1, 2, 3, 4]);
    assert!(r.is_ok());
    assert_eq!(sink.state.sender.as_ref().unwrap().sent_audio.len(), 0);
}

#[test]
fn audio_end_to_end_transmits_exact_payload() {
    let mut sink = NdiAudioSink::new();
    sink.set_property(Some("Mic".to_string()));
    sink.start().unwrap();
    sink.set_caps(Some(AudioInfo { rate: 44100, channels: 2 }));
    sink.render(&vec![10, 20, 30, 40, 50, 60]).unwrap();
    let conn = sink.state.sender.as_ref().unwrap();
    assert_eq!(conn.ndi_name, "Mic");
    assert_eq!(conn.sent_audio.len(), 1);
    let frame = &conn.sent_audio[0];
    assert_eq!(frame.sample_rate, 44100);
    assert_eq!(frame.channels, 2);
    assert_eq!(frame.data, vec![10, 20, 30, 40, 50, 60]);
}

#[test]
fn audio_start_stop_round_trip_restarts() {
    let mut sink = NdiAudioSink::new();
    assert!(sink.start().is_ok());
    sink.stop();
    assert!(sink.state.sender.is_none());
    assert!(sink.start().is_ok());
    assert!(sink.state.sender.is_some());
}

#[test]
fn audio_name_change_after_start_is_deferred() {
    let mut sink = NdiAudioSink::new();
    sink.set_property(Some("Old".to_string()));
    sink.start().unwrap();
    sink.set_property(Some("New".to_string()));
    assert_eq!(sink.state.sender.as_ref().unwrap().ndi_name, "Old");
    sink.stop();
    sink.start().unwrap();
    assert_eq!(sink.state.sender.as_ref().unwrap().ndi_name, "New");
}
