//! The stages of the bootstrap and the ways in which it can fail.

use vstd::prelude::*;

verus! {

/// The five stages of the bootstrap, in the order in which they run.
#[derive(Debug, Clone, Copy, PartialEq, Eq, Structural)]
pub enum Stage {
    /// Loading the API's entry points and creating the instance.
    Instance,
    /// Choosing the physical device and its encode queue family.
    Selection,
    /// Creating the logical device and fetching its queue.
    Device,
    /// Resolving the extension entry points.
    Functions,
    /// Negotiating the profile and creating the video session.
    Session,
}

impl Stage {
    /// Position of the stage in the pipeline, counted from one.
    pub open spec fn ordinal(self) -> int {
        match self {
            Stage::Instance => 1,
            Stage::Selection => 2,
            Stage::Device => 3,
            Stage::Functions => 4,
            Stage::Session => 5,
        }
    }

    /// Position of the stage in the pipeline, counted from one.
    pub fn number(&self) -> (n: u8)
        ensures
            n == self.ordinal(),
    {
        match self {
            Stage::Instance => 1,
            Stage::Selection => 2,
            Stage::Device => 3,
            Stage::Functions => 4,
            Stage::Session => 5,
        }
    }

    /// Name of the stage as diagnostics show it.
    pub open spec fn spec_label(self) -> Seq<char> {
        match self {
            Stage::Instance => "instance bootstrap"@,
            Stage::Selection => "device selection"@,
            Stage::Device => "logical device creation"@,
            Stage::Functions => "extension function loading"@,
            Stage::Session => "video session negotiation"@,
        }
    }

    /// Name of the stage as diagnostics show it.
    pub fn label(&self) -> (text: &'static str)
        ensures
            text@ == self.spec_label(),
    {
        match self {
            Stage::Instance => "instance bootstrap",
            Stage::Selection => "device selection",
            Stage::Device => "logical device creation",
            Stage::Functions => "extension function loading",
            Stage::Session => "video session negotiation",
        }
    }
}

/// Why the bootstrap stopped. Every failure is final.
#[derive(Debug, Clone, PartialEq, Eq)]
#[allow(inconsistent_fields)]
pub enum BootstrapError {
    /// The API library could not be found or loaded.
    Initialization,
    /// The driver refused to create the instance.
    InstanceCreation { code: i32 },
    /// No discrete GPU is visible.
    NoSuitableDevice,
    /// The chosen device has no queue family that encodes video.
    NoEncodeQueue,
    /// The driver refused to create the logical device.
    DeviceCreation { code: i32 },
    /// An extension entry point has no address.
    MissingExtensionFunction { symbol: String },
    /// The profile cannot be used: the driver refused it with `code`, or,
    /// where `code` is `None`, its limits are below the wanted frame size.
    UnsupportedProfile { code: Option<i32> },
    /// The driver refused to create the video session.
    SessionCreation { code: i32 },
}

/// A failure as contracts see it: the symbol is a sequence of characters.
#[allow(inconsistent_fields)]
pub enum BootstrapErrorView {
    Initialization,
    InstanceCreation { code: i32 },
    NoSuitableDevice,
    NoEncodeQueue,
    DeviceCreation { code: i32 },
    MissingExtensionFunction { symbol: Seq<char> },
    UnsupportedProfile { code: Option<i32> },
    SessionCreation { code: i32 },
}

impl BootstrapErrorView {
    /// The stage in which this failure arises.
    pub open spec fn stage(self) -> Stage {
        match self {
            BootstrapErrorView::Initialization => Stage::Instance,
            BootstrapErrorView::InstanceCreation { .. } => Stage::Instance,
            BootstrapErrorView::NoSuitableDevice => Stage::Selection,
            BootstrapErrorView::NoEncodeQueue => Stage::Selection,
            BootstrapErrorView::DeviceCreation { .. } => Stage::Device,
            BootstrapErrorView::MissingExtensionFunction { .. } => Stage::Functions,
            BootstrapErrorView::UnsupportedProfile { .. } => Stage::Session,
            BootstrapErrorView::SessionCreation { .. } => Stage::Session,
        }
    }

    /// The driver's result code, where the failure carries one.
    pub open spec fn driver_code(self) -> Option<i32> {
        match self {
            BootstrapErrorView::InstanceCreation { code } => Some(code),
            BootstrapErrorView::DeviceCreation { code } => Some(code),
            BootstrapErrorView::UnsupportedProfile { code } => code,
            BootstrapErrorView::SessionCreation { code } => Some(code),
            _ => None,
        }
    }
}

impl View for BootstrapError {
    type V = BootstrapErrorView;

    open spec fn view(&self) -> BootstrapErrorView {
        match self {
            BootstrapError::Initialization => BootstrapErrorView::Initialization,
            BootstrapError::InstanceCreation { code } => BootstrapErrorView::InstanceCreation {
                code: *code,
            },
            BootstrapError::NoSuitableDevice => BootstrapErrorView::NoSuitableDevice,
            BootstrapError::NoEncodeQueue => BootstrapErrorView::NoEncodeQueue,
            BootstrapError::DeviceCreation { code } => BootstrapErrorView::DeviceCreation {
                code: *code,
            },
            BootstrapError::MissingExtensionFunction {
                symbol,
            } => BootstrapErrorView::MissingExtensionFunction { symbol: symbol@ },
            BootstrapError::UnsupportedProfile { code } => BootstrapErrorView::UnsupportedProfile {
                code: *code,
            },
            BootstrapError::SessionCreation { code } => BootstrapErrorView::SessionCreation {
                code: *code,
            },
        }
    }
}

impl BootstrapError {
    /// The stage in which this failure arises.
    pub fn stage(&self) -> (stage: Stage)
        ensures
            stage == self@.stage(),
    {
        match self {
            BootstrapError::Initialization => Stage::Instance,
            BootstrapError::InstanceCreation { .. } => Stage::Instance,
            BootstrapError::NoSuitableDevice => Stage::Selection,
            BootstrapError::NoEncodeQueue => Stage::Selection,
            BootstrapError::DeviceCreation { .. } => Stage::Device,
            BootstrapError::MissingExtensionFunction { .. } => Stage::Functions,
            BootstrapError::UnsupportedProfile { .. } => Stage::Session,
            BootstrapError::SessionCreation { .. } => Stage::Session,
        }
    }

    /// The driver's result code, where the failure carries one.
    pub fn driver_code(&self) -> (code: Option<i32>)
        ensures
            code == self@.driver_code(),
    {
        match self {
            BootstrapError::InstanceCreation { code } => Some(*code),
            BootstrapError::DeviceCreation { code } => Some(*code),
            BootstrapError::UnsupportedProfile { code } => *code,
            BootstrapError::SessionCreation { code } => Some(*code),
            _ => None,
        }
    }

    /// A second value that stands for the same failure.
    pub fn duplicate(&self) -> (copy: BootstrapError)
        ensures
            copy@ == self@,
    {
        match self {
            BootstrapError::Initialization => BootstrapError::Initialization,
            BootstrapError::InstanceCreation { code } => BootstrapError::InstanceCreation {
                code: *code,
            },
            BootstrapError::NoSuitableDevice => BootstrapError::NoSuitableDevice,
            BootstrapError::NoEncodeQueue => BootstrapError::NoEncodeQueue,
            BootstrapError::DeviceCreation { code } => BootstrapError::DeviceCreation {
                code: *code,
            },
            BootstrapError::MissingExtensionFunction {
                symbol,
            } => BootstrapError::MissingExtensionFunction { symbol: symbol.clone() },
            BootstrapError::UnsupportedProfile { code } => BootstrapError::UnsupportedProfile {
                code: *code,
            },
            BootstrapError::SessionCreation { code } => BootstrapError::SessionCreation {
                code: *code,
            },
        }
    }
}

} // verus!
