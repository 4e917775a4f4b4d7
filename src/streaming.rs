//! Live-streaming settings and the state of a stream; the transport itself
//! belongs to the network side.
use crate::errors::FluxError;
use crate::text::{starts_with, str_eq};
use vstd::prelude::*;

verus! {

#[derive(Clone, Copy, Debug, PartialEq, Eq, Structural)]
pub enum StreamingProtocol {
    RTMP,
    RTSP,
    SRT,
    WebRTC,
    HLS,
}

#[derive(Clone, Copy, Debug, PartialEq, Eq)]
pub enum StreamingQuality {
    /// 480p at 1 Mbps.
    Low,
    /// 720p at 2.5 Mbps.
    Medium,
    /// 1080p at 5 Mbps.
    High,
    /// 1080p60 at 8 Mbps.
    Ultra,
    Custom { bitrate: u32, resolution: (u32, u32), fps: u32 },
}

/// The protocol a name selects, if any.
pub open spec fn protocol_of(name: Seq<char>) -> Option<StreamingProtocol> {
    if name == "rtmp"@ {
        Some(StreamingProtocol::RTMP)
    } else if name == "rtsp"@ {
        Some(StreamingProtocol::RTSP)
    } else if name == "srt"@ {
        Some(StreamingProtocol::SRT)
    } else if name == "webrtc"@ {
        Some(StreamingProtocol::WebRTC)
    } else if name == "hls"@ {
        Some(StreamingProtocol::HLS)
    } else {
        None
    }
}

/// The preset a name selects; unknown names select `High`.
pub open spec fn quality_of(name: Seq<char>) -> StreamingQuality {
    if name == "low"@ {
        StreamingQuality::Low
    } else if name == "medium"@ {
        StreamingQuality::Medium
    } else if name == "high"@ {
        StreamingQuality::High
    } else if name == "ultra"@ {
        StreamingQuality::Ultra
    } else {
        StreamingQuality::High
    }
}

#[derive(Debug)]
pub struct StreamingConfig {
    pub protocol: StreamingProtocol,
    pub quality: StreamingQuality,
    pub url: String,
    pub stream_key: String,
    pub reconnect: bool,
    /// Seconds between reconnection attempts.
    pub reconnect_delay: u32,
}

impl StreamingConfig {
    /// RTMP at high quality, reconnecting every five seconds.
    pub fn new(url: String, stream_key: String) -> (r: StreamingConfig)
        ensures
            r.protocol == StreamingProtocol::RTMP,
            r.quality == StreamingQuality::High,
            r.url@ == url@,
            r.stream_key@ == stream_key@,
            r.reconnect,
            r.reconnect_delay == 5,
    {
        StreamingConfig {
            protocol: StreamingProtocol::RTMP,
            quality: StreamingQuality::High,
            url,
            stream_key,
            reconnect: true,
            reconnect_delay: 5,
        }
    }

    /// Sets the protocol by name; an unknown name fails with `InvalidEnum`
    /// and changes nothing.
    pub fn set_protocol(&mut self, protocol: &str) -> (r: Result<(), FluxError>)
        ensures
            protocol_of(protocol@) is Some ==> r is Ok && final(self).protocol == protocol_of(
                protocol@,
            )->0,
            protocol_of(protocol@) is None ==> (r matches Err(FluxError::InvalidEnum { value })
                && value@ == protocol@) && final(self).protocol == old(self).protocol,
            final(self).quality == old(self).quality,
            final(self).url == old(self).url,
            final(self).stream_key == old(self).stream_key,
            final(self).reconnect == old(self).reconnect,
            final(self).reconnect_delay == old(self).reconnect_delay,
    {
        let p = if str_eq(protocol, "rtmp") {
            StreamingProtocol::RTMP
        } else if str_eq(protocol, "rtsp") {
            StreamingProtocol::RTSP
        } else if str_eq(protocol, "srt") {
            StreamingProtocol::SRT
        } else if str_eq(protocol, "webrtc") {
            StreamingProtocol::WebRTC
        } else if str_eq(protocol, "hls") {
            StreamingProtocol::HLS
        } else {
            return Err(FluxError::invalid_enum(protocol));
        };
        self.protocol = p;
        Ok(())
    }

    /// Sets a quality preset by name; unknown names select `High`.
    pub fn set_quality(&mut self, quality: &str)
        ensures
            final(self).quality == quality_of(quality@),
            final(self).protocol == old(self).protocol,
            final(self).stream_key == old(self).stream_key,
            final(self).reconnect == old(self).reconnect,
            final(self).reconnect_delay == old(self).reconnect_delay,
            final(self).url == old(self).url,
    {
        self.quality = if str_eq(quality, "low") {
            StreamingQuality::Low
        } else if str_eq(quality, "medium") {
            StreamingQuality::Medium
        } else if str_eq(quality, "high") {
            StreamingQuality::High
        } else if str_eq(quality, "ultra") {
            StreamingQuality::Ultra
        } else {
            StreamingQuality::High
        };
    }

    pub fn set_custom_quality(&mut self, bitrate: u32, width: u32, height: u32, fps: u32)
        ensures
            final(self).quality == (StreamingQuality::Custom {
                bitrate,
                resolution: (width, height),
                fps,
            }),
            final(self).protocol == old(self).protocol,
            final(self).stream_key == old(self).stream_key,
            final(self).reconnect == old(self).reconnect,
            final(self).reconnect_delay == old(self).reconnect_delay,
            final(self).url == old(self).url,
    {
        self.quality = StreamingQuality::Custom { bitrate, resolution: (width, height), fps };
    }
}

/// A stream: whether it is live and how many frames it has taken.
#[derive(Debug)]
pub struct Streamer {
    pub config: StreamingConfig,
    pub is_streaming: bool,
    pub frame_count: u64,
}

impl Streamer {
    pub fn new(config: StreamingConfig) -> (r: Streamer)
        ensures
            !r.is_streaming,
            r.frame_count == 0,
    {
        Streamer { config, is_streaming: false, frame_count: 0 }
    }

    /// Goes live with a fresh frame count.
    pub fn start(&mut self) -> (r: Result<(), FluxError>)
        ensures
            r is Ok,
            final(self).is_streaming,
            final(self).frame_count == 0,
            final(self).config == old(self).config,
    {
        self.is_streaming = true;
        self.frame_count = 0;
        Ok(())
    }

    /// Stops the stream; the count is kept.
    pub fn stop(&mut self) -> (r: Result<(), FluxError>)
        ensures
            r is Ok,
            !final(self).is_streaming,
            final(self).frame_count == old(self).frame_count,
            final(self).config == old(self).config,
    {
        self.is_streaming = false;
        Ok(())
    }

    /// Takes one frame; fails with `InvalidState`, counting nothing, when the
    /// stream is not live. The count saturates.
    pub fn send_frame(&mut self, frame_data: &[u8]) -> (r: Result<(), FluxError>)
        ensures
            old(self).is_streaming ==> r is Ok && final(self).frame_count == if old(self).frame_count
                == u64::MAX {
                u64::MAX
            } else {
                (old(self).frame_count + 1) as u64
            },
            !old(self).is_streaming ==> (r matches Err(FluxError::InvalidState { .. })) && final(self).frame_count == old(self).frame_count,
            final(self).is_streaming == old(self).is_streaming,
            final(self).config == old(self).config,
    {
        if !self.is_streaming {
            return Err(FluxError::invalid_state("stream is not active"));
        }
        if self.frame_count < u64::MAX {
            self.frame_count = self.frame_count + 1;
        }
        Ok(())
    }

    /// Frames sent, whether live, bitrate and dropped frames (the last two
    /// are measured by the transport and read `0` here).
    pub fn get_stats(&self) -> (r: (u64, bool, u32, u64))
        ensures
            r == (self.frame_count, self.is_streaming, 0u32, 0u64),
    {
        (self.frame_count, self.is_streaming, 0, 0)
    }
}

/// A stream to an RTMP server.
#[derive(Debug)]
pub struct RTMPStreamer {
    pub config: StreamingConfig,
    pub server_url: String,
    pub app_name: String,
}

impl RTMPStreamer {
    /// An RTMP stream to application `live` on `server_url`.
    pub fn new(server_url: String, stream_key: String) -> (r: RTMPStreamer)
        ensures
            r.config.protocol == StreamingProtocol::RTMP,
            r.config.url@ == server_url@,
            r.config.stream_key@ == stream_key@,
            r.server_url@ == server_url@,
            r.app_name@ == "live"@,
    {
        let config = StreamingConfig::new(server_url.clone(), stream_key);
        RTMPStreamer { config, server_url, app_name: String::from_str("live") }
    }

    /// The address `connect` dials: `rtmp://<server>/<app>`.
    pub fn connect_url(&self) -> (r: String)
        ensures
            r@ == "rtmp://"@ + self.server_url@ + "/"@ + self.app_name@,
    {
        let mut s = String::from_str("rtmp://");
        s.append(self.server_url.as_str());
        s.append("/");
        s.append(self.app_name.as_str());
        s
    }
}

/// `rtmp://<server>/<app>/<stream_key>`.
pub fn create_rtmp_url(server: &str, app: &str, stream_key: &str) -> (r: String)
    ensures
        r@ == "rtmp://"@ + server@ + "/"@ + app@ + "/"@ + stream_key@,
{
    let mut s = String::from_str("rtmp://");
    s.append(server);
    s.append("/");
    s.append(app);
    s.append("/");
    s.append(stream_key);
    s
}

/// Whether `url` starts with `rtmp://` or `rtmps://`.
pub fn validate_rtmp_url(url: &str) -> (r: bool)
    ensures
        r == ((url@.len() >= 7 && url@.subrange(0, 7) == "rtmp://"@) || (url@.len() >= 8
            && url@.subrange(0, 8) == "rtmps://"@)),
{
    proof {
        reveal_strlit("rtmp://");
        reveal_strlit("rtmps://");
    }
    starts_with(url, "rtmp://") || starts_with(url, "rtmps://")
}

} // verus!
