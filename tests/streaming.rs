use fluxreel::errors::FluxError;
use fluxreel::streaming::{
    create_rtmp_url, validate_rtmp_url, RTMPStreamer, Streamer, StreamingConfig, StreamingProtocol,
    StreamingQuality,
};

#[test]
fn frames_need_a_live_stream() {
    let mut s = Streamer::new(StreamingConfig::new("host".to_string(), "SECRET-REDACTED".to_string()));
    assert!(matches!(s.send_frame(&[1, 2, 3]), Err(FluxError::InvalidState { .. })));
    assert_eq!(s.get_stats(), (0, false, 0, 0));
    s.start().unwrap();
    s.send_frame(&[1]).unwrap();
    s.send_frame(&[2]).unwrap();
    assert_eq!(s.get_stats(), (2, true, 0, 0));
    s.stop().unwrap();
    assert!(s.send_frame(&[3]).is_err());
    assert_eq!(s.frame_count, 2);
}

#[test]
fn protocol_names_are_checked() {
    let mut c = StreamingConfig::new("u".to_string(), "k".to_string());
    assert_eq!(c.protocol, StreamingProtocol::RTMP);
    c.set_protocol("hls").unwrap();
    assert_eq!(c.protocol, StreamingProtocol::HLS);
    assert_eq!(c.set_protocol("carrier_pigeon"), Err(FluxError::InvalidEnum { value: "carrier_pigeon".to_string() }));
    assert_eq!(c.protocol, StreamingProtocol::HLS);
    c.set_quality("low");
    assert_eq!(c.quality, StreamingQuality::Low);
    c.set_quality("extreme");
    assert_eq!(c.quality, StreamingQuality::High);
    c.set_custom_quality(3000, 1280, 720, 30);
    assert_eq!(c.quality, StreamingQuality::Custom { bitrate: 3000, resolution: (1280, 720), fps: 30 });
}

#[test]
fn rtmp_addresses() {
    assert_eq!(create_rtmp_url("a.tv", "live", "key"), "rtmp://a.tv/live/key");
    assert!(validate_rtmp_url("rtmp://x"));
    assert!(validate_rtmp_url("rtmps://x"));
    assert!(!validate_rtmp_url("http://x"));
    assert!(!validate_rtmp_url("rtmp:/"));
    let r = RTMPStreamer::new("srv".to_string(), "k".to_string());
    assert_eq!(r.connect_url(), "rtmp://srv/live");
    assert_eq!(r.config.protocol, StreamingProtocol::RTMP);
}

#[test]
fn failed_settings_leave_the_rest_alone() {
    let mut c = StreamingConfig::new("u".to_string(), "k".to_string());
    c.reconnect_delay = 9;
    assert!(c.set_protocol("bogus").is_err());
    assert_eq!((c.stream_key.as_str(), c.reconnect, c.reconnect_delay), ("k", true, 9));
    let mut s = Streamer::new(c);
    s.start().unwrap();
    s.send_frame(&[0]).unwrap();
    assert_eq!(s.config.reconnect_delay, 9);
}
