//! The library's error type: one variant per failure source, each carrying a
//! human-readable message.
use vstd::prelude::*;

verus! {

#[derive(Debug, Clone)]
pub enum Error {
    BackendSpecificError(String),
    BuildStreamError(String),
    DefaultStreamConfigError(String),
    DeviceNameError(String),
    DevicesError(String),
    PauseStreamError(String),
    PlayStreamError(String),
    StreamError(String),
    RandomError(String),
    RuntimeError(String),
    SupportedStreamConfigsError(String),
}

pub type Result<T> = core::result::Result<T, Error>;

impl Error {
    /// The message carried by the error, whatever its kind.
    pub open spec fn message_spec(&self) -> Seq<char> {
        match self {
            Error::BackendSpecificError(m) => m@,
            Error::BuildStreamError(m) => m@,
            Error::DefaultStreamConfigError(m) => m@,
            Error::DeviceNameError(m) => m@,
            Error::DevicesError(m) => m@,
            Error::PauseStreamError(m) => m@,
            Error::PlayStreamError(m) => m@,
            Error::StreamError(m) => m@,
            Error::RandomError(m) => m@,
            Error::RuntimeError(m) => m@,
            Error::SupportedStreamConfigsError(m) => m@,
        }
    }

    /// The text shown to a user for this error: its message alone.
    pub fn message(&self) -> (r: String)
        ensures
            r@ == self.message_spec(),
    {
        match self {
            Error::BackendSpecificError(m) => m.clone(),
            Error::BuildStreamError(m) => m.clone(),
            Error::DefaultStreamConfigError(m) => m.clone(),
            Error::DeviceNameError(m) => m.clone(),
            Error::DevicesError(m) => m.clone(),
            Error::PauseStreamError(m) => m.clone(),
            Error::PlayStreamError(m) => m.clone(),
            Error::StreamError(m) => m.clone(),
            Error::RandomError(m) => m.clone(),
            Error::RuntimeError(m) => m.clone(),
            Error::SupportedStreamConfigsError(m) => m.clone(),
        }
    }
}

} // verus!
