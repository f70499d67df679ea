use vstd::prelude::*;

pub mod dev;
pub mod driver;
pub mod interface;
pub mod layout;
pub mod queue;

pub use interface::NvmeCommand;
pub use interface::NvmeInterface;
pub use interface::NvmeRWCommand;
pub use queue::NvmeQueue;

verus! {

/// Why a device operation failed.
#[derive(Copy, Clone, Debug, PartialEq, Eq, Structural)]
pub enum DeviceError {
    /// The buffer used in/out is too small.
    BufferTooSmall,
    /// The device is not ready.
    NotReady,
    /// An invalid parameter.
    InvalidParam,
    /// DMA memory could not be allocated.
    DmaError,
    /// An I/O error.
    IoError,
    /// A resource with the given identifier already exists.
    AlreadyExists,
    /// No resource is left to allocate.
    NoResources,
    /// The operation is not implemented, supported or enabled.
    NotSupported,
}

/// The result of a device operation.
pub type DeviceResult<T = ()> = Result<T, DeviceError>;

} // verus!
