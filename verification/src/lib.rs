//! A SIP user-agent bootstrap library: digest-authenticated REGISTER,
//! SDP media endpoint discovery, RTP framing and mu-law transcoding.

pub mod audio;
pub mod codec;
pub mod config;
pub mod digest;
pub mod rtp;
pub mod sdp;
pub mod session;
pub mod sip;
pub mod text;
