//! The request that creates the API instance.

use crate::driver::{api_version_1_3, spec_api_version_1_3};
use vstd::prelude::*;

verus! {

/// What instance creation is asked for.
#[derive(Debug, Clone, Copy, PartialEq, Eq, Structural)]
pub struct InstanceRequest {
    /// The API version that the application intends to use, packed.
    pub api_version: u32,
}

/// The major number of a packed API version.
pub open spec fn version_major(version: u32) -> u32 {
    (version >> 22) & 0x7f
}

/// The minor number of a packed API version.
pub open spec fn version_minor(version: u32) -> u32 {
    (version >> 12) & 0x3ff
}

/// The instance request of the bootstrap: API version 1.3.
pub open spec fn planned_instance() -> InstanceRequest {
    InstanceRequest { api_version: spec_api_version_1_3() }
}

/// Builds the instance request of the bootstrap.
pub fn instance_request() -> (request: InstanceRequest)
    ensures
        request == planned_instance(),
{
    InstanceRequest { api_version: api_version_1_3() }
}

/// The version that the instance request declares reads as 1.3.
pub proof fn law_instance_declares_version_1_3()
    ensures
        version_major(planned_instance().api_version) == 1,
        version_minor(planned_instance().api_version) == 3,
{
    assert((0x0040_3000u32 >> 22) & 0x7f == 1) by (bit_vector);
    assert((0x0040_3000u32 >> 12) & 0x3ff == 3) by (bit_vector);
}

} // verus!
