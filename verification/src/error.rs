//! What can go wrong when a session is configured or a frame is converted.

use vstd::prelude::*;

verus! {

/// Why a pair of capability descriptors could not be taken as a session's
/// geometry.
#[derive(Clone, Copy, Debug, PartialEq, Eq, Structural)]
pub enum ConfigurationError {
    /// The input descriptor holds no concrete width.
    NoWidth,
    /// The input descriptor holds no concrete height.
    NoHeight,
    /// The output descriptor does not describe a frame the converter can
    /// produce.
    BadOutput,
}

/// Why a frame was not converted.
#[derive(Clone, Copy, Debug, PartialEq, Eq, Structural)]
pub enum TransformError {
    /// No geometry has been configured yet.
    NotConfigured,
    /// The configured output layout is none of the three supported ones.
    UnsupportedFormat,
    /// The frame buffers do not fit the geometry, or the conversion itself
    /// failed.
    ConversionFailure,
}

/// How a failed frame is reported to the pipeline.
#[derive(Clone, Copy, Debug, PartialEq, Eq, Structural)]
pub enum FlowError {
    NotNegotiated,
    Error,
}

impl ConfigurationError {
    /// The text under which the failure is logged.
    pub open spec fn spec_message(self) -> Seq<char> {
        match self {
            ConfigurationError::NoWidth => "No width in caps"@,
            ConfigurationError::NoHeight => "No height in caps"@,
            ConfigurationError::BadOutput => "Failed to parse output caps"@,
        }
    }

    /// The text under which the failure is logged.
    pub fn message(self) -> (text: &'static str)
        ensures
            text@ == self.spec_message(),
    {
        match self {
            ConfigurationError::NoWidth => "No width in caps",
            ConfigurationError::NoHeight => "No height in caps",
            ConfigurationError::BadOutput => "Failed to parse output caps",
        }
    }
}

impl TransformError {
    /// The flow error the pipeline sees.
    pub open spec fn spec_flow(self) -> FlowError {
        match self {
            TransformError::NotConfigured => FlowError::NotNegotiated,
            TransformError::UnsupportedFormat => FlowError::NotNegotiated,
            TransformError::ConversionFailure => FlowError::Error,
        }
    }

    /// The flow error the pipeline sees: a missing or unusable negotiation is
    /// reported as such, everything else as a plain error.
    pub fn flow(self) -> (flow: FlowError)
        ensures
            flow == self.spec_flow(),
    {
        match self {
            TransformError::NotConfigured => FlowError::NotNegotiated,
            TransformError::UnsupportedFormat => FlowError::NotNegotiated,
            TransformError::ConversionFailure => FlowError::Error,
        }
    }
}

} // verus!
