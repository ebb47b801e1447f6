use vstd::prelude::*;

verus! {

/// Severity bit of diagnostic messages: verbose.
pub const SEVERITY_VERBOSE: u32 = 0x1;

/// Severity bit of diagnostic messages: informational.
pub const SEVERITY_INFO: u32 = 0x10;

/// Severity bit of diagnostic messages: warning.
pub const SEVERITY_WARNING: u32 = 0x100;

/// Severity bit of diagnostic messages: error.
pub const SEVERITY_ERROR: u32 = 0x1000;

/// Type bit of diagnostic messages: general events.
pub const TYPE_GENERAL: u32 = 0x1;

/// Type bit of diagnostic messages: validation findings.
pub const TYPE_VALIDATION: u32 = 0x2;

/// Type bit of diagnostic messages: performance hints.
pub const TYPE_PERFORMANCE: u32 = 0x4;

/// A packed API version number: the variant in the top three bits, then
/// seven bits of major, ten of minor and twelve of patch version.
pub open spec fn packed_version(variant: u32, major: u32, minor: u32, patch: u32) -> u32 {
    (variant << 29u32) | (major << 22u32) | (minor << 12u32) | patch
}

/// Relies on `ash::vk::make_api_version`, which shifts each part into place
/// and combines them with a bitwise or.
#[verifier::external_body]
fn make_version(variant: u32, major: u32, minor: u32, patch: u32) -> (r: u32)
    ensures
        r == packed_version(variant, major, minor, patch),
{
    ash::vk::make_api_version(variant, major, minor, patch)
}

/// What is asked of the API when the instance is created: names and
/// versions of the application, the layers to enable, and which diagnostic
/// messages to receive.
pub struct InstanceRequest {
    pub application_name: String,
    pub engine_name: String,
    pub application_version: u32,
    pub engine_version: u32,
    pub api_version: u32,
    pub layers: Vec<String>,
    pub message_severity: u32,
    pub message_types: u32,
}

/// The instance this program asks for: an API version packed from variant
/// 1, major 3, minor 0 and patch 0, application and engine version 1.0.0,
/// the Khronos validation layer, and diagnostic messages of every severity
/// and of the general, validation and performance types.
pub fn instance_request() -> (r: InstanceRequest)
    ensures
        r.application_name@ == "The Black Window"@,
        r.engine_name@ == "Vulkan Tutorial"@,
        r.application_version == packed_version(0, 1, 0, 0),
        r.engine_version == packed_version(0, 1, 0, 0),
        r.api_version == packed_version(1, 3, 0, 0),
        r.layers@.len() == 1,
        r.layers@[0]@ == "VK_LAYER_KHRONOS_validation"@,
        r.message_severity == SEVERITY_VERBOSE | SEVERITY_INFO | SEVERITY_WARNING | SEVERITY_ERROR,
        r.message_types == TYPE_GENERAL | TYPE_VALIDATION | TYPE_PERFORMANCE,
{
    let mut layers: Vec<String> = Vec::new();
    layers.push(String::from_str("VK_LAYER_KHRONOS_validation"));
    InstanceRequest {
        application_name: String::from_str("The Black Window"),
        engine_name: String::from_str("Vulkan Tutorial"),
        application_version: make_version(0, 1, 0, 0),
        engine_version: make_version(0, 1, 0, 0),
        api_version: make_version(1, 3, 0, 0),
        layers,
        message_severity: SEVERITY_VERBOSE | SEVERITY_INFO | SEVERITY_WARNING | SEVERITY_ERROR,
        message_types: TYPE_GENERAL | TYPE_VALIDATION | TYPE_PERFORMANCE,
    }
}

} // verus!
