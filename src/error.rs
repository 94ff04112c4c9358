//! Failures of the bootstrap and misuse of the lifecycle.
use vstd::prelude::*;

verus! {

/// A result code that the driver returned, such as `VK_ERROR_LAYER_NOT_PRESENT`.
#[derive(Clone, Copy, Debug, PartialEq, Eq, Structural)]
pub struct DriverError {
    pub code: i32,
}

/// Why the bootstrap did not produce a live instance.
#[derive(Clone, Copy, Debug, PartialEq, Eq, Structural)]
pub enum BootstrapError {
    /// Diagnostics were asked for, but the driver does not offer the validation layer.
    MissingValidationLayer,
    /// Listing the driver's layers failed.
    LayerQueryFailed(DriverError),
    /// The driver refused to create the instance or the debug channel.
    DriverRejected(DriverError),
    /// The step does not fit the stage that the bootstrap is in.
    OutOfOrder,
}

/// A call that the lifecycle refuses in its current state.
#[derive(Clone, Copy, Debug, PartialEq, Eq, Structural)]
pub enum LifecycleError {
    /// The application is not in its created state.
    NotCreated,
    /// The instance cannot go while its debug channel is still installed.
    ChannelStillInstalled,
    /// There is no installed debug channel to remove.
    NoChannel,
    /// There is no live instance to destroy.
    NoInstance,
}

} // verus!
