use vstd::prelude::*;
use crate::bringup::Step;

verus! {

/// A compositor operation was issued against the wrong session state, or
/// was handed an invalid argument.
#[derive(Clone, Copy, PartialEq, Eq, Structural, Debug)]
pub enum CompositorError {
    /// An element or background change needs a display that was opened.
    DisplayNotOpen,
    /// A mutation or a submit needs an update transaction that is open
    /// and not yet submitted.
    NoOpenUpdate,
    /// Only one update transaction may be open at a time.
    UpdateAlreadyOpen,
    /// The element's rectangles must have non-negative extents.
    InvalidElement,
}

/// A shader or buffer resource could not be assembled.
#[derive(Clone, Copy, PartialEq, Eq, Structural, Debug)]
pub enum ShaderError {
    /// An attribute name was not found in the linked program: a negative
    /// location must be fatal, never a silent zero-effect bind.
    AttribNotFound,
    /// Fewer buffer handles were allocated than the geometry needs.
    MissingBuffers,
}

/// A GPU context bring-up step went wrong.
#[derive(Clone, Copy, PartialEq, Eq, Structural, Debug)]
pub enum BringUpError {
    /// The step is not the one the current stage expects: steps may
    /// neither be skipped nor repeated.
    OutOfOrder { step: Step },
    /// The expected step was attempted and the driver reported failure.
    StepFailed { step: Step },
    /// A draw or present cycle needs a context that reached `Active`.
    NotActive,
}

/// The fatal-failure taxonomy of the pipeline. Every variant is
/// unrecoverable: the caller is expected to abort with a diagnostic.
#[derive(Clone, Copy, PartialEq, Eq, Structural, Debug)]
pub enum Error {
    /// A step of the ordered GPU context bring-up failed or was misused.
    BringUp(BringUpError),
    /// Element creation or transaction handling failed.
    Compositor(CompositorError),
    /// Shader program or geometry resource assembly failed.
    Shader(ShaderError),
    /// The host graphics subsystem bootstrap was skipped or failed
    /// before a dependent call.
    HostNotReady,
}

impl Error {
    /// The diagnostic line for each fatal failure.
    pub open spec fn describe_spec(self) -> Seq<char> {
        match self {
            Error::BringUp(BringUpError::OutOfOrder { .. }) =>
                "GPU bring-up step attempted out of order"@,
            Error::BringUp(BringUpError::StepFailed { .. }) => "GPU bring-up step failed"@,
            Error::BringUp(BringUpError::NotActive) =>
                "draw or present before the context was activated"@,
            Error::Compositor(CompositorError::DisplayNotOpen) =>
                "compositor display is not open"@,
            Error::Compositor(CompositorError::NoOpenUpdate) =>
                "no update transaction is open"@,
            Error::Compositor(CompositorError::UpdateAlreadyOpen) =>
                "an update transaction is already open"@,
            Error::Compositor(CompositorError::InvalidElement) =>
                "element rectangles must have non-negative extents"@,
            Error::Shader(ShaderError::AttribNotFound) =>
                "attribute name not found in the linked program"@,
            Error::Shader(ShaderError::MissingBuffers) =>
                "fewer buffers allocated than the geometry needs"@,
            Error::HostNotReady => "host graphics subsystem was not initialized"@,
        }
    }

    /// A descriptive message identifying the failed stage, for the
    /// caller's aborting diagnostic.
    pub fn describe(&self) -> (s: &'static str)
        ensures
            s@ == self.describe_spec(),
    {
        match self {
            Error::BringUp(BringUpError::OutOfOrder { .. }) =>
                "GPU bring-up step attempted out of order",
            Error::BringUp(BringUpError::StepFailed { .. }) => "GPU bring-up step failed",
            Error::BringUp(BringUpError::NotActive) =>
                "draw or present before the context was activated",
            Error::Compositor(CompositorError::DisplayNotOpen) =>
                "compositor display is not open",
            Error::Compositor(CompositorError::NoOpenUpdate) =>
                "no update transaction is open",
            Error::Compositor(CompositorError::UpdateAlreadyOpen) =>
                "an update transaction is already open",
            Error::Compositor(CompositorError::InvalidElement) =>
                "element rectangles must have non-negative extents",
            Error::Shader(ShaderError::AttribNotFound) =>
                "attribute name not found in the linked program",
            Error::Shader(ShaderError::MissingBuffers) =>
                "fewer buffers allocated than the geometry needs",
            Error::HostNotReady => "host graphics subsystem was not initialized",
        }
    }
}

} // verus!
