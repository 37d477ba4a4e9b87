use vstd::prelude::*;

verus! {

/// Failures of device selection, configuration negotiation and stream setup.
#[derive(Clone, Copy, Debug, PartialEq, Eq, Structural)]
pub enum AudioError {
    /// The host could not enumerate its devices at all.
    DeviceEnumeration,
    /// No device matched and the host has no default input device.
    NoInputDevice,
    /// The device reported no configuration at all.
    NoCompatibleConfig,
    /// The device is busy or refused the configuration.
    StreamCreation,
}

/// Failures of the transcription worker's setup and of a single pass.
#[derive(Clone, Copy, Debug, PartialEq, Eq, Structural)]
pub enum TranscribeError {
    /// The model path does not lead to a model file.
    ModelNotFound,
    /// The engine refused the model file.
    ModelLoad,
    /// Processing was asked for before a model was loaded.
    ModelNotLoaded,
    /// One inference pass failed; the worker goes on.
    Inference,
}

} // verus!
