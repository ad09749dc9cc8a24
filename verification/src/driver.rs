//! What this library takes from the `ash` crate. The contracts in this file
//! are believed, not proved: each says what the function of `ash` that its
//! body calls is documented to return.

use crate::shader::{is_spirv, spirv_words};
use vstd::prelude::*;

verus! {

/// The bit by which a queue family says that it takes graphics commands.
pub const QUEUE_GRAPHICS_BIT: u32 = 1;

/// A version in one number: the variant from bit 29, the major part from
/// bit 22, the minor part from bit 12, the patch below, and what does
/// not fit dropped.
pub open spec fn packed_version(variant: u32, major: u32, minor: u32, patch: u32) -> u32 {
    (variant << 29u32) | (major << 22u32) | (minor << 12u32) | patch
}

/// The name of the device extension that gives swapchains.
pub open spec fn swapchain_extension() -> Seq<char> {
    "VK_KHR_swapchain"@
}

/// The name of the instance extension that gives debug messengers.
pub open spec fn debug_utils_extension() -> Seq<char> {
    "VK_EXT_debug_utils"@
}

/// `ash::vk::QueueFlags::contains`, asked whether the flags hold
/// `ash::vk::QueueFlags::GRAPHICS`: true exactly when every bit of that
/// flag is set in `queue_flags`.
#[verifier::external_body]
pub(crate) fn queue_flags_contain_graphics(queue_flags: u32) -> (r: bool)
    ensures
        r == (queue_flags & QUEUE_GRAPHICS_BIT == QUEUE_GRAPHICS_BIT),
{
    ash::vk::QueueFlags::from_raw(queue_flags).contains(ash::vk::QueueFlags::GRAPHICS)
}

/// `ash::vk::MemoryPropertyFlags::contains`: true exactly when every bit
/// of `required` is set in `flags`.
#[verifier::external_body]
pub(crate) fn memory_flags_contain(flags: u32, required: u32) -> (r: bool)
    ensures
        r == (flags & required == required),
{
    ash::vk::MemoryPropertyFlags::from_raw(flags).contains(
        ash::vk::MemoryPropertyFlags::from_raw(required),
    )
}

/// `ash::extensions::khr::Swapchain::name`: the extension's name, a
/// constant of `ash`, without its closing zero byte.
#[verifier::external_body]
pub(crate) fn swapchain_extension_name() -> (r: String)
    ensures
        r@ == swapchain_extension(),
{
    ash::extensions::khr::Swapchain::name().to_string_lossy().into_owned()
}

/// `ash::extensions::ext::DebugUtils::name`: the extension's name, a
/// constant of `ash`, without its closing zero byte.
#[verifier::external_body]
pub(crate) fn debug_utils_extension_name() -> (r: String)
    ensures
        r@ == debug_utils_extension(),
{
    ash::extensions::ext::DebugUtils::name().to_string_lossy().into_owned()
}

/// `ash::util::read_spv`, on bytes in memory: the words of a SPIR-V
/// module. It fails where the bytes are not whole words or do not begin
/// with the magic number; else it gives the words in the byte order in
/// which the first one is the magic number.
#[verifier::external_body]
pub(crate) fn read_spv(bytes: &[u8]) -> (r: Option<Vec<u32>>)
    ensures
        r is Some <==> is_spirv(bytes@),
        r is Some ==> r->Some_0@ == spirv_words(bytes@),
{
    ash::util::read_spv(&mut std::io::Cursor::new(bytes)).ok()
}

/// `ash::vk::make_api_version`: the four parts of a version, packed into
/// one number, each part shifted to its place.
pub assume_specification[ ash::vk::make_api_version ](
    variant: u32,
    major: u32,
    minor: u32,
    patch: u32,
) -> (r: u32)
    ensures
        r == packed_version(variant, major, minor, patch),
;

} // verus!
