//! The decisions of a small Vulkan renderer, apart from the graphics
//! calls themselves: which device to take, how to set up the swapchain,
//! what the pipeline looks like, where buffers live, what each frame
//! does next, and in which order everything is destroyed.

pub mod device;
pub mod driver;
pub mod error;
pub mod extensions;
pub mod frame;
pub mod instance;
pub mod lifecycle;
pub mod pipeline;
pub mod queue_family_indices;
pub mod recording;
pub mod resources;
pub mod shader;
pub mod swapchain;
pub mod swapchain_state;
pub mod validation;

pub use device::{any_device_scores, rate_physical_device, select_physical_device};
pub use frame::FrameOrchestrator;
pub use queue_family_indices::QueueFamilyIndices;
pub use swapchain::{SupportDetails, SwapchainProperties};
