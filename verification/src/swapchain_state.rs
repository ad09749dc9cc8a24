use crate::swapchain::SwapchainProperties;
use vstd::prelude::*;

verus! {

/// The objects that belong to one image of the swapchain, by their handles.
#[derive(Clone, Copy, Debug, PartialEq, Eq, Structural)]
pub struct ImageResources {
    pub image: u64,
    pub image_view: u64,
    pub framebuffer: u64,
    pub uniform_buffer: u64,
    pub uniform_buffer_memory: u64,
    pub descriptor_set: u64,
}

/// The handles that were made for a swapchain, in the order of its
/// images: what `SwapchainState::new` is given.
#[derive(Clone, Debug)]
pub struct SwapchainParts {
    pub images: Vec<u64>,
    pub image_views: Vec<u64>,
    pub framebuffers: Vec<u64>,
    pub uniform_buffers: Vec<u64>,
    pub uniform_buffer_memories: Vec<u64>,
    pub descriptor_sets: Vec<u64>,
}

impl SwapchainParts {
    /// There is one of each kind for every image.
    pub open spec fn matched(&self) -> bool {
        &&& self.image_views@.len() == self.images@.len()
        &&& self.framebuffers@.len() == self.images@.len()
        &&& self.uniform_buffers@.len() == self.images@.len()
        &&& self.uniform_buffer_memories@.len() == self.images@.len()
        &&& self.descriptor_sets@.len() == self.images@.len()
    }
}

/// A swapchain with all that hangs on it. There are always as many image
/// views, framebuffers, uniform buffers and descriptor sets as images.
#[derive(Debug)]
pub struct SwapchainState {
    handle: u64,
    properties: SwapchainProperties,
    parts: SwapchainParts,
}

impl SwapchainState {
    #[verifier::type_invariant]
    closed spec fn counts_agree(&self) -> bool {
        self.parts.matched()
    }

    /// The swapchain's handle.
    pub closed spec fn spec_handle(&self) -> u64 {
        self.handle
    }

    /// The format, present mode and extent it was made with.
    pub closed spec fn spec_properties(&self) -> SwapchainProperties {
        self.properties
    }

    /// The images of the swapchain.
    pub closed spec fn images(&self) -> Seq<u64> {
        self.parts.images@
    }

    /// The image views, one for each image.
    pub closed spec fn image_views(&self) -> Seq<u64> {
        self.parts.image_views@
    }

    /// The framebuffers, one for each image view.
    pub closed spec fn framebuffers(&self) -> Seq<u64> {
        self.parts.framebuffers@
    }

    /// The uniform buffers, one for each image.
    pub closed spec fn uniform_buffers(&self) -> Seq<u64> {
        self.parts.uniform_buffers@
    }

    /// The memory of the uniform buffers, one for each image.
    pub closed spec fn uniform_buffer_memories(&self) -> Seq<u64> {
        self.parts.uniform_buffer_memories@
    }

    /// The descriptor sets, one for each image.
    pub closed spec fn descriptor_sets(&self) -> Seq<u64> {
        self.parts.descriptor_sets@
    }

    /// All that belongs to the image `index`.
    pub open spec fn resources_at(&self, index: int) -> ImageResources {
        ImageResources {
            image: self.images()[index],
            image_view: self.image_views()[index],
            framebuffer: self.framebuffers()[index],
            uniform_buffer: self.uniform_buffers()[index],
            uniform_buffer_memory: self.uniform_buffer_memories()[index],
            descriptor_set: self.descriptor_sets()[index],
        }
    }

    /// Puts a swapchain together from what was made for it. There is a
    /// state exactly when there is one of each kind for every image.
    pub fn new(handle: u64, properties: SwapchainProperties, parts: SwapchainParts) -> (r: Option<
        SwapchainState,
    >)
        ensures
            r is Some <==> parts.matched(),
            r is Some ==> {
                let state = r->Some_0;
                &&& state.spec_handle() == handle
                &&& state.spec_properties() == properties
                &&& state.images() == parts.images@
                &&& state.image_views() == parts.image_views@
                &&& state.framebuffers() == parts.framebuffers@
                &&& state.uniform_buffers() == parts.uniform_buffers@
                &&& state.uniform_buffer_memories() == parts.uniform_buffer_memories@
                &&& state.descriptor_sets() == parts.descriptor_sets@
                &&& state.image_views().len() == state.images().len()
                &&& state.framebuffers().len() == state.images().len()
            },
    {
        let count = parts.images.len();
        if parts.image_views.len() == count && parts.framebuffers.len() == count
            && parts.uniform_buffers.len() == count && parts.uniform_buffer_memories.len()
            == count && parts.descriptor_sets.len() == count {
            Some(SwapchainState { handle, properties, parts })
        } else {
            None
        }
    }

    /// The swapchain's handle.
    pub fn handle(&self) -> (r: u64)
        ensures
            r == self.spec_handle(),
    {
        self.handle
    }

    /// The format, present mode and extent it was made with.
    pub fn properties(&self) -> (r: SwapchainProperties)
        ensures
            r == self.spec_properties(),
    {
        self.properties
    }

    /// The number of images, which is the number of image views and of
    /// framebuffers too.
    pub fn image_count(&self) -> (r: usize)
        ensures
            r == self.images().len(),
            r == self.image_views().len(),
            r == self.framebuffers().len(),
            r == self.uniform_buffers().len(),
            r == self.uniform_buffer_memories().len(),
            r == self.descriptor_sets().len(),
    {
        proof {
            use_type_invariant(self);
        }
        self.parts.images.len()
    }

    /// The number of image views.
    pub fn image_view_count(&self) -> (r: usize)
        ensures
            r == self.image_views().len(),
            r == self.images().len(),
    {
        proof {
            use_type_invariant(self);
        }
        self.parts.image_views.len()
    }

    /// The number of framebuffers.
    pub fn framebuffer_count(&self) -> (r: usize)
        ensures
            r == self.framebuffers().len(),
            r == self.images().len(),
    {
        proof {
            use_type_invariant(self);
        }
        self.parts.framebuffers.len()
    }

    /// All that belongs to the image `index`; nothing where the swapchain
    /// has no such image.
    pub fn resources(&self, index: u32) -> (r: Option<ImageResources>)
        ensures
            r == if index < self.images().len() {
                Some(self.resources_at(index as int))
            } else {
                None
            },
    {
        proof {
            use_type_invariant(self);
        }
        let i = index as usize;
        if i < self.parts.images.len() {
            Some(
                ImageResources {
                    image: self.parts.images[i],
                    image_view: self.parts.image_views[i],
                    framebuffer: self.parts.framebuffers[i],
                    uniform_buffer: self.parts.uniform_buffers[i],
                    uniform_buffer_memory: self.parts.uniform_buffer_memories[i],
                    descriptor_set: self.parts.descriptor_sets[i],
                },
            )
        } else {
            None
        }
    }

    /// Gives the handles back, to destroy what they name.
    pub fn into_parts(self) -> (r: SwapchainParts)
        ensures
            r.matched(),
            r.images@ == self.images(),
            r.image_views@ == self.image_views(),
            r.framebuffers@ == self.framebuffers(),
            r.uniform_buffers@ == self.uniform_buffers(),
            r.uniform_buffer_memories@ == self.uniform_buffer_memories(),
            r.descriptor_sets@ == self.descriptor_sets(),
    {
        proof {
            use_type_invariant(&self);
        }
        self.parts
    }
}

} // verus!
