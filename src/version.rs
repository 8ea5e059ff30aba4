use vstd::prelude::*;

verus! {

/// The packed form of a version: variant in bits 29 and up, major in bits 22
/// to 28, minor in bits 12 to 21, patch below; bits shifted past the top are
/// lost.
pub open spec fn packed_version(variant: u32, major: u32, minor: u32, patch: u32) -> u32 {
    (variant << 29u32) | (major << 22u32) | (minor << 12u32) | patch
}

/// Relies on ash::vk::make_api_version: it packs the four parts by shifts and
/// bitwise or, as `packed_version` states.
#[verifier::external_body]
fn make_api_version(variant: u32, major: u32, minor: u32, patch: u32) -> (r: u32)
    ensures
        r == packed_version(variant, major, minor, patch),
{
    ash::vk::make_api_version(variant, major, minor, patch)
}

/// A version number in four parts, as the graphics API encodes versions.
#[derive(Clone, Copy, Debug, PartialEq, Eq, Structural)]
pub struct ApiVersion {
    pub variant: u32,
    pub major: u32,
    pub minor: u32,
    pub patch: u32,
}

impl ApiVersion {
    pub open spec fn packed_spec(self) -> u32 {
        packed_version(self.variant, self.major, self.minor, self.patch)
    }

    /// The version as the single integer that the API takes.
    pub fn packed(&self) -> (r: u32)
        ensures
            r == self.packed_spec(),
    {
        make_api_version(self.variant, self.major, self.minor, self.patch)
    }
}

/// Who is asking for the rendering context: read-only once created.
#[derive(Debug)]
pub struct ApplicationIdentity {
    pub name: String,
    pub version: ApiVersion,
    pub engine_name: String,
    pub engine_version: ApiVersion,
    pub api_version: ApiVersion,
}

} // verus!
