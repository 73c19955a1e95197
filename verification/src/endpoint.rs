//! The virtual endpoint's failure taxonomy and fixed device identity.
//!
//! The endpoint itself wraps a kernel device node and lives with the I/O
//! layer around this library; that layer registers the device with the
//! identity stated here and the descriptor of `crate::descriptor`, and maps
//! each failure of the kernel interface to the matching `EndpointError`.
//! Both failure classes are structural -- the device is unusable -- and the
//! two are kept distinguishable so a caller can choose between recreating
//! the endpoint, alerting an operator and shutting down.
use vstd::prelude::*;

verus! {

/// Vendor ID the device registers under.
pub const VENDOR_ID: u32 = 0xdead;

/// Product ID the device registers under.
pub const PRODUCT_ID: u32 = 0xbeef;

/// Device version the device registers under.
pub const DEVICE_VERSION: u32 = 0;

/// HID country code the device registers under.
pub const COUNTRY_CODE: u32 = 0;

/// The product string the device registers under.
pub fn device_name() -> (r: &'static str)
    ensures
        r@ == "cherryrgb"@,
{
    "cherryrgb"
}

/// Why the endpoint failed.  Neither failure is retried internally: a
/// report may be stale by the time a resend could happen, so both are
/// surfaced at once.
#[derive(Clone, Copy, Debug, PartialEq, Eq, Structural)]
pub enum EndpointError {
    /// The kernel refused or could not create the virtual device
    /// (permissions, missing kernel support, resource limits).  Creation
    /// failed and no endpoint exists.
    Registration,
    /// A write to an already-created device failed (device revoked, I/O
    /// error).  The report was not delivered.
    Transmission,
}

impl EndpointError {
    /// A short diagnostic name for the failure, one per variant, so that a
    /// failure is loud and carries a trail rather than being dropped.
    pub fn describe(&self) -> (r: &'static str)
        ensures
            *self is Registration ==> r@ == "could not register the virtual device"@,
            *self is Transmission ==> r@ == "could not forward the report to the device"@,
    {
        match self {
            EndpointError::Registration => "could not register the virtual device",
            EndpointError::Transmission => "could not forward the report to the device",
        }
    }
}

} // verus!
