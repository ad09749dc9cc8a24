use vstd::prelude::*;

verus! {

/// The kinds of graphics objects that the renderer makes.
#[derive(Clone, Copy, Debug, PartialEq, Eq, Structural)]
pub enum Resource {
    Instance,
    DebugMessenger,
    Surface,
    Device,
    Swapchain,
    ImageViews,
    RenderPass,
    DescriptorSetLayout,
    PipelineLayout,
    Pipeline,
    Framebuffers,
    CommandPool,
    TransientCommandPool,
    /// The vertex buffer with its memory.
    VertexBuffer,
    /// The index buffer with its memory.
    IndexBuffer,
    /// The uniform buffers with their memory.
    UniformBuffers,
    DescriptorPool,
    DescriptorSets,
    CommandBuffers,
    /// The semaphores and the fence of every frame slot.
    SyncObjects,
}

impl Resource {
    /// An object of kind `self` needs the object of kind `other` for as
    /// long as it lives.
    pub open spec fn depends_on(self, other: Resource) -> bool {
        match self {
            Resource::Instance => false,
            Resource::DebugMessenger => other is Instance,
            Resource::Surface => other is Instance,
            Resource::Device => other is Instance,
            Resource::Swapchain => other is Device || other is Surface,
            Resource::ImageViews => other is Device || other is Swapchain,
            Resource::RenderPass => other is Device,
            Resource::DescriptorSetLayout => other is Device,
            Resource::PipelineLayout => other is Device || other is DescriptorSetLayout,
            Resource::Pipeline => other is Device || other is PipelineLayout
                || other is RenderPass,
            Resource::Framebuffers => other is Device || other is ImageViews
                || other is RenderPass,
            Resource::CommandPool => other is Device,
            Resource::TransientCommandPool => other is Device,
            Resource::VertexBuffer => other is Device,
            Resource::IndexBuffer => other is Device,
            Resource::UniformBuffers => other is Device,
            Resource::DescriptorPool => other is Device,
            Resource::DescriptorSets => other is Device || other is DescriptorPool
                || other is DescriptorSetLayout || other is UniformBuffers,
            Resource::CommandBuffers => other is Device || other is CommandPool,
            Resource::SyncObjects => other is Device,
        }
    }

    /// The place of the kind in the order of creation.
    pub open spec fn rank(self) -> int {
        match self {
            Resource::Instance => 0,
            Resource::DebugMessenger => 1,
            Resource::Surface => 2,
            Resource::Device => 3,
            Resource::DescriptorSetLayout => 4,
            Resource::Swapchain => 5,
            Resource::ImageViews => 6,
            Resource::RenderPass => 7,
            Resource::PipelineLayout => 8,
            Resource::Pipeline => 9,
            Resource::Framebuffers => 10,
            Resource::UniformBuffers => 11,
            Resource::DescriptorPool => 12,
            Resource::DescriptorSets => 13,
            Resource::CommandPool => 14,
            Resource::TransientCommandPool => 15,
            Resource::VertexBuffer => 16,
            Resource::IndexBuffer => 17,
            Resource::CommandBuffers => 18,
            Resource::SyncObjects => 19,
        }
    }

    /// The object is made anew with every swapchain.
    pub open spec fn spec_follows_swapchain(self) -> bool {
        match self {
            Resource::Swapchain
            | Resource::ImageViews
            | Resource::RenderPass
            | Resource::PipelineLayout
            | Resource::Pipeline
            | Resource::Framebuffers
            | Resource::UniformBuffers
            | Resource::DescriptorPool
            | Resource::DescriptorSets => true,
            _ => false,
        }
    }

    /// The object is made anew with every swapchain.
    #[verifier::when_used_as_spec(spec_follows_swapchain)]
    pub fn follows_swapchain(self) -> (r: bool)
        ensures
            r == self.spec_follows_swapchain(),
    {
        match self {
            Resource::Swapchain
            | Resource::ImageViews
            | Resource::RenderPass
            | Resource::PipelineLayout
            | Resource::Pipeline
            | Resource::Framebuffers
            | Resource::UniformBuffers
            | Resource::DescriptorPool
            | Resource::DescriptorSets => true,
            _ => false,
        }
    }
}

/// The kinds come in rising rank.
pub open spec fn ranks_rise(order: Seq<Resource>) -> bool {
    forall|i: int, j: int| 0 <= i < j < order.len() ==> order[i].rank() < order[j].rank()
}

/// Nothing is made before something that it needs.
pub open spec fn creation_safe(order: Seq<Resource>) -> bool {
    forall|i: int, j: int| 0 <= i < j < order.len() ==> !order[i].depends_on(order[j])
}

/// Nothing is destroyed before something that needs it.
pub open spec fn destruction_safe(order: Seq<Resource>) -> bool {
    forall|i: int, j: int| 0 <= i < j < order.len() ==> !order[j].depends_on(order[i])
}

/// The order in which everything is made at the start; the debug
/// messenger only with validation.
pub open spec fn startup_sequence(validation: bool) -> Seq<Resource> {
    let head = if validation {
        seq![Resource::Instance, Resource::DebugMessenger]
    } else {
        seq![Resource::Instance]
    };
    head + seq![
        Resource::Surface,
        Resource::Device,
        Resource::DescriptorSetLayout,
        Resource::Swapchain,
        Resource::ImageViews,
        Resource::RenderPass,
        Resource::PipelineLayout,
        Resource::Pipeline,
        Resource::Framebuffers,
        Resource::UniformBuffers,
        Resource::DescriptorPool,
        Resource::DescriptorSets,
        Resource::CommandPool,
        Resource::TransientCommandPool,
        Resource::VertexBuffer,
        Resource::IndexBuffer,
        Resource::CommandBuffers,
        Resource::SyncObjects,
    ]
}

/// The order in which a swapchain and all that follows it are made.
pub open spec fn swapchain_sequence() -> Seq<Resource> {
    seq![
        Resource::Swapchain,
        Resource::ImageViews,
        Resource::RenderPass,
        Resource::PipelineLayout,
        Resource::Pipeline,
        Resource::Framebuffers,
        Resource::UniformBuffers,
        Resource::DescriptorPool,
        Resource::DescriptorSets,
    ]
}

/// The order in which everything is made at the start.
pub fn creation_order(validation: bool) -> (r: Vec<Resource>)
    ensures
        r@ == startup_sequence(validation),
{
    let mut order: Vec<Resource> = Vec::new();
    order.push(Resource::Instance);
    if validation {
        order.push(Resource::DebugMessenger);
    }
    order.push(Resource::Surface);
    order.push(Resource::Device);
    order.push(Resource::DescriptorSetLayout);
    order.push(Resource::Swapchain);
    order.push(Resource::ImageViews);
    order.push(Resource::RenderPass);
    order.push(Resource::PipelineLayout);
    order.push(Resource::Pipeline);
    order.push(Resource::Framebuffers);
    order.push(Resource::UniformBuffers);
    order.push(Resource::DescriptorPool);
    order.push(Resource::DescriptorSets);
    order.push(Resource::CommandPool);
    order.push(Resource::TransientCommandPool);
    order.push(Resource::VertexBuffer);
    order.push(Resource::IndexBuffer);
    order.push(Resource::CommandBuffers);
    order.push(Resource::SyncObjects);
    order
}

/// The order in which a swapchain and all that follows it are made,
/// at the start and whenever the swapchain is replaced.
pub fn swapchain_creation_order() -> (r: Vec<Resource>)
    ensures
        r@ == swapchain_sequence(),
{
    let mut order: Vec<Resource> = Vec::new();
    order.push(Resource::Swapchain);
    order.push(Resource::ImageViews);
    order.push(Resource::RenderPass);
    order.push(Resource::PipelineLayout);
    order.push(Resource::Pipeline);
    order.push(Resource::Framebuffers);
    order.push(Resource::UniformBuffers);
    order.push(Resource::DescriptorPool);
    order.push(Resource::DescriptorSets);
    order
}

/// The same kinds, the last first.
pub fn reversed(order: &Vec<Resource>) -> (r: Vec<Resource>)
    ensures
        r@ == order@.reverse(),
{
    let mut result: Vec<Resource> = Vec::new();
    let mut i: usize = order.len();
    while i > 0
        invariant
            i <= order@.len(),
            result@.len() == order@.len() - i,
            forall|k: int| 0 <= k < result@.len() ==> result@[k] == order@[order@.len() - 1 - k],
        decreases i,
    {
        i -= 1;
        result.push(order[i]);
    }
    result
}

/// The order in which everything is destroyed at the end: the order of
/// creation, the last first.
pub fn teardown_order(validation: bool) -> (r: Vec<Resource>)
    ensures
        r@ == startup_sequence(validation).reverse(),
        destruction_safe(r@),
{
    let order = creation_order(validation);
    proof {
        lemma_startup_ranks_rise(validation);
        lemma_rising_ranks_safe(order@);
        lemma_reverse_safe(order@);
    }
    reversed(&order)
}

/// The order in which a swapchain and all that follows it are destroyed
/// before the swapchain is replaced: their order of creation, the last first.
pub fn swapchain_teardown_order() -> (r: Vec<Resource>)
    ensures
        r@ == swapchain_sequence().reverse(),
        destruction_safe(r@),
{
    let order = swapchain_creation_order();
    proof {
        lemma_swapchain_ranks_rise();
        lemma_rising_ranks_safe(order@);
        lemma_reverse_safe(order@);
    }
    reversed(&order)
}

/// At the start the swapchain and all that follows it are made in one
/// run, in the order in which they are made again with every new swapchain.
pub proof fn lemma_swapchain_part_of_startup(validation: bool)
    ensures
        ({
            let first: int = if validation {
                5
            } else {
                4
            };
            startup_sequence(validation).subrange(first, first + swapchain_sequence().len())
                == swapchain_sequence()
        }),
{
}

/// What follows the swapchain is what is made again with it, and nothing else.
pub proof fn lemma_swapchain_sequence_complete(resource: Resource)
    ensures
        swapchain_sequence().contains(resource) <==> resource.follows_swapchain(),
{
}

/// What an object needs has a lower rank than the object.
pub proof fn lemma_dependency_ranks_lower(object: Resource, needed: Resource)
    requires
        object.depends_on(needed),
    ensures
        needed.rank() < object.rank(),
{
}

/// In an order of rising rank nothing is made before something that it needs.
pub proof fn lemma_rising_ranks_safe(order: Seq<Resource>)
    requires
        ranks_rise(order),
    ensures
        creation_safe(order),
{
    assert forall|i: int, j: int| 0 <= i < j < order.len() implies !order[i].depends_on(
        order[j],
    ) by {
        if order[i].depends_on(order[j]) {
            lemma_dependency_ranks_lower(order[i], order[j]);
        }
    }
}

/// Destroying in the reverse of a safe order of creation is safe:
/// nothing is destroyed before something that needs it.
pub proof fn lemma_reverse_safe(order: Seq<Resource>)
    requires
        creation_safe(order),
    ensures
        destruction_safe(order.reverse()),
{
}

/// At the start the objects are made in rising rank.
pub proof fn lemma_startup_ranks_rise(validation: bool)
    ensures
        ranks_rise(startup_sequence(validation)),
{
}

/// A swapchain and all that follows it are made in rising rank.
pub proof fn lemma_swapchain_ranks_rise()
    ensures
        ranks_rise(swapchain_sequence()),
{
}

/// At the start everything that an object needs is made before it.
pub proof fn lemma_startup_complete(validation: bool, object: Resource, needed: Resource)
    requires
        startup_sequence(validation).contains(object),
        object.depends_on(needed),
    ensures
        startup_sequence(validation).contains(needed),
{
    let order = startup_sequence(validation);
    let n = order.len() as int;
    assert(order[0] == Resource::Instance);
    assert(order[n - 18] == Resource::Surface);
    assert(order[n - 17] == Resource::Device);
    assert(order[n - 16] == Resource::DescriptorSetLayout);
    assert(order[n - 15] == Resource::Swapchain);
    assert(order[n - 14] == Resource::ImageViews);
    assert(order[n - 13] == Resource::RenderPass);
    assert(order[n - 12] == Resource::PipelineLayout);
    assert(order[n - 9] == Resource::UniformBuffers);
    assert(order[n - 8] == Resource::DescriptorPool);
    assert(order[n - 6] == Resource::CommandPool);
}

} // verus!
