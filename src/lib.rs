//! Single-session microphone recorder: the decisions of a capture session,
//! the negotiation of the output container's format, and the choice of a
//! capture device, each with a verified contract.

pub mod device;
pub mod error;
pub mod format;
pub mod lifecycle;
pub mod naming;
pub mod session;

pub use device::{find_device, resolve_device, wants_default_device, DeviceChoice};
pub use error::RecordingError;
pub use format::{
    capture_format, plan_capture, sample_format, sample_size, wav_spec_from_config, CaptureFormat,
    CapturePlan, NativeFormat, StreamConfig,
};
pub use lifecycle::ControlCall;
pub use naming::{numbered_file_name, recording_file_name, recording_stamp};
pub use session::{Session, SessionView};
