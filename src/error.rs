use vstd::prelude::*;

verus! {

/// Every way a start or a stop of a recording can fail.
///
/// Variants that carry a `String` hold the message of the failure that the
/// audio platform or the file system reported.
#[derive(Debug, Clone, PartialEq, Eq)]
pub enum RecordingError {
    /// `start` was called while a recording is in progress.
    AlreadyRecording,
    /// `stop` was called while no recording is in progress.
    NotRecording,
    /// No input device carries the requested name.
    DeviceNotFound(String),
    /// No device was named and the platform has no default input device.
    NoDefaultDevice,
    /// The device reports no input configuration.
    ConfigUnavailable(String),
    /// The device delivers samples in a representation that is not captured.
    UnsupportedFormat,
    /// The destination directory could not be resolved or created.
    StorageUnavailable(String),
    /// The container file could not be created.
    WriterInitFailed(String),
    /// The platform refused to build the input stream.
    StreamBuildFailed(String),
    /// The platform refused to start the input stream.
    StreamStartFailed(String),
    /// The container could not be finalized.
    FinalizeFailed(String),
    /// A recording was active without a destination path.
    MissingPath,
}

} // verus!
