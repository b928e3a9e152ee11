//! The configuration handed to graphics-instance creation: the fixed
//! application descriptor, the validation layer, the platform-conditional
//! extension list and the creation flags.
//!
//! The creation call itself (and loading the API's entry points) happens
//! outside the library; everything it is given is computed here, as a pure
//! function of the platform family and of the extensions that the windowing
//! layer reports for the window's display handle.

use vstd::prelude::*;
use vstd::string::StringExecFns;
use crate::views;

verus! {

/// Which family of platforms the process runs on, resolved once at startup.
/// A portability-constrained family is one whose graphics driver is a
/// portability layer over another API (Apple's platforms in practice): there
/// the instance must opt in to enumerating portability devices.
#[derive(Clone, Copy, Debug, PartialEq, Eq, Structural)]
pub enum PlatformFamily {
    PortabilityConstrained,
    Standard,
}

/// The fixed application descriptor given to instance creation: application
/// and engine names, their versions, and the targeted API version word.
pub struct AppDescriptor {
    pub application_name: String,
    pub application_version: u32,
    pub engine_name: String,
    pub engine_version: u32,
    pub api_version: u32,
}

/// Everything the instance-creation call is given.
pub struct InstanceConfig {
    pub descriptor: AppDescriptor,
    pub layers: Vec<String>,
    pub extensions: Vec<String>,
    pub flags: u32,
}

/// The packed API version word: variant in the top three bits, then major,
/// minor and patch fields.
pub open spec fn api_version_word(variant: u32, major: u32, minor: u32, patch: u32) -> int {
    variant * 0x2000_0000 + major * 0x40_0000 + minor * 0x1000 + patch
}

/// The instance-creation flag word for a platform family: the
/// portability-enumeration bit on a portability-constrained family, no bits
/// elsewhere.
pub open spec fn spec_creation_flags(family: PlatformFamily) -> u32 {
    if family is PortabilityConstrained {
        1u32
    } else {
        0u32
    }
}

/// The extension list for a platform family: the base extensions the
/// windowing layer reported, with the two portability capability-enumeration
/// extensions appended on a portability-constrained family and nothing
/// appended elsewhere.
pub open spec fn spec_required_extensions(family: PlatformFamily, base: Seq<Seq<char>>) -> Seq<
    Seq<char>,
> {
    if family is PortabilityConstrained {
        base + seq![
            "VK_KHR_portability_enumeration"@,
            "VK_KHR_get_physical_device_properties2"@,
        ]
    } else {
        base
    }
}

/// Relies on ash's `vk::make_api_version`: it packs the variant, major,
/// minor and patch numbers into one word as `(variant << 29) | (major << 22)
/// | (minor << 12) | patch`, which for in-range fields is the sum below.
#[verifier::external_body]
fn make_api_version(variant: u32, major: u32, minor: u32, patch: u32) -> (r: u32)
    requires
        variant < 8,
        major < 128,
        minor < 1024,
        patch < 4096,
    ensures
        r == api_version_word(variant, major, minor, patch),
{
    ash::vk::make_api_version(variant, major, minor, patch)
}

/// Relies on ash's `vk::KhrPortabilityEnumerationFn::name`: the name of the
/// portability-enumeration instance extension.
#[verifier::external_body]
fn portability_enumeration_extension() -> (r: String)
    ensures
        r@ == "VK_KHR_portability_enumeration"@,
{
    ash::vk::KhrPortabilityEnumerationFn::name().to_str().unwrap().to_owned()
}

/// Relies on ash's `vk::KhrGetPhysicalDeviceProperties2Fn::name`: the name
/// of the capability-query extension that the portability extension requires.
#[verifier::external_body]
fn get_physical_device_properties2_extension() -> (r: String)
    ensures
        r@ == "VK_KHR_get_physical_device_properties2"@,
{
    ash::vk::KhrGetPhysicalDeviceProperties2Fn::name().to_str().unwrap().to_owned()
}

/// Relies on ash's `vk::InstanceCreateFlags::ENUMERATE_PORTABILITY_KHR`:
/// the portability-enumeration creation flag is bit zero of the flag word.
#[verifier::external_body]
fn portability_enumeration_flag_bit() -> (r: u32)
    ensures
        r == 1u32,
{
    ash::vk::InstanceCreateFlags::ENUMERATE_PORTABILITY_KHR.as_raw()
}

/// Relies on ash's `vk::InstanceCreateFlags::empty`: the flag word with no
/// bits set.
#[verifier::external_body]
fn no_creation_flags() -> (r: u32)
    ensures
        r == 0u32,
{
    ash::vk::InstanceCreateFlags::empty().as_raw()
}

/// The fixed application descriptor: both names are the application name,
/// both versions are zero, and the targeted API version is 1.0.0.
pub fn app_descriptor() -> (r: AppDescriptor)
    ensures
        r.application_name@ == "VulkanTriangle"@,
        r.application_version == 0,
        r.engine_name@ == "VulkanTriangle"@,
        r.engine_version == 0,
        r.api_version == api_version_word(0, 1, 0, 0),
{
    AppDescriptor {
        application_name: String::from_str("VulkanTriangle"),
        application_version: 0,
        engine_name: String::from_str("VulkanTriangle"),
        engine_version: 0,
        api_version: make_api_version(0, 1, 0, 0),
    }
}

/// The single fixed validation layer enabled at instance creation.
pub fn validation_layers() -> (r: Vec<String>)
    ensures
        views(r@).len() == 1,
        views(r@)[0] == "VK_LAYER_KHRONOS_validation"@,
{
    let mut layers: Vec<String> = Vec::new();
    layers.push(String::from_str("VK_LAYER_KHRONOS_validation"));
    layers
}

/// Append the platform-conditional extensions to the base extensions that
/// the windowing layer reported for the window's display handle.
pub fn required_extensions(family: PlatformFamily, base: Vec<String>) -> (r: Vec<String>)
    ensures
        views(r@) == spec_required_extensions(family, views(base@)),
{
    let ghost base_views = views(base@);
    let mut exts = base;
    match family {
        PlatformFamily::PortabilityConstrained => {
            exts.push(portability_enumeration_extension());
            exts.push(get_physical_device_properties2_extension());
            proof {
                assert(views(exts@) =~= spec_required_extensions(family, base_views));
            }
        },
        PlatformFamily::Standard => {
            proof {
                assert(views(exts@) =~= spec_required_extensions(family, base_views));
            }
        },
    }
    exts
}

/// The instance-creation flag word for the platform family.
pub fn creation_flags(family: PlatformFamily) -> (r: u32)
    ensures
        r == spec_creation_flags(family),
{
    match family {
        PlatformFamily::PortabilityConstrained => portability_enumeration_flag_bit(),
        PlatformFamily::Standard => no_creation_flags(),
    }
}

/// Compute everything that instance creation is given. The base extensions
/// are what the windowing layer reports for the window's display handle, so
/// the window must exist before this configuration can be assembled.
pub fn instance_config(family: PlatformFamily, base_extensions: Vec<String>) -> (r: InstanceConfig)
    ensures
        r.descriptor.application_name@ == "VulkanTriangle"@,
        r.descriptor.application_version == 0,
        r.descriptor.engine_name@ == "VulkanTriangle"@,
        r.descriptor.engine_version == 0,
        r.descriptor.api_version == api_version_word(0, 1, 0, 0),
        views(r.layers@).len() == 1,
        views(r.layers@)[0] == "VK_LAYER_KHRONOS_validation"@,
        views(r.extensions@) == spec_required_extensions(family, views(base_extensions@)),
        r.flags == spec_creation_flags(family),
{
    InstanceConfig {
        descriptor: app_descriptor(),
        layers: validation_layers(),
        extensions: required_extensions(family, base_extensions),
        flags: creation_flags(family),
    }
}

/// Law: the instance configuration is a pure function of the platform family
/// and of the base extensions the windowing layer reported. Equal inputs
/// give the same extension list and the same creation flags.
pub proof fn lemma_instance_config_deterministic(
    family1: PlatformFamily,
    base1: Seq<Seq<char>>,
    family2: PlatformFamily,
    base2: Seq<Seq<char>>,
)
    requires
        family1 == family2,
        base1 == base2,
    ensures
        spec_required_extensions(family1, base1) == spec_required_extensions(family2, base2),
        spec_creation_flags(family1) == spec_creation_flags(family2),
{
}

} // verus!
