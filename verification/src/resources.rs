use crate::driver::memory_flags_contain;
use crate::queue_family_indices::QueueFamilyIndices;
use vstd::prelude::*;

verus! {

/// Memory property bit: the memory is local to the device.
pub const MEMORY_DEVICE_LOCAL: u32 = 0x1;

/// Memory property bit: the host can map the memory.
pub const MEMORY_HOST_VISIBLE: u32 = 0x2;

/// Memory property bit: host writes need no flush.
pub const MEMORY_HOST_COHERENT: u32 = 0x4;

/// Buffer usage bit: source of a transfer.
pub const BUFFER_USAGE_TRANSFER_SRC: u32 = 0x1;

/// Buffer usage bit: destination of a transfer.
pub const BUFFER_USAGE_TRANSFER_DST: u32 = 0x2;

/// Buffer usage bit: uniform buffer.
pub const BUFFER_USAGE_UNIFORM_BUFFER: u32 = 0x10;

/// Buffer usage bit: index buffer.
pub const BUFFER_USAGE_INDEX_BUFFER: u32 = 0x40;

/// Buffer usage bit: vertex buffer.
pub const BUFFER_USAGE_VERTEX_BUFFER: u32 = 0x80;

/// The most memory types that a device reports.
pub const MAX_MEMORY_TYPES: usize = 32;

/// The bytes of the three 4x4 transforms of 32-bit numbers that a
/// uniform buffer holds.
pub const UNIFORM_PAYLOAD_SIZE: u64 = 192;

/// What a geometry buffer is used for.
#[derive(Clone, Copy, Debug, PartialEq, Eq, Structural)]
pub enum GeometryUsage {
    Vertex,
    Index,
}

/// How a buffer is made: its size in bytes, its usage bits, and the
/// property bits that its memory must have.
#[derive(Clone, Copy, Debug, PartialEq, Eq, Structural)]
pub struct BufferPlan {
    pub size: u64,
    pub usage: u32,
    pub memory_properties: u32,
}

/// How data gets into memory local to the device: through a staging
/// buffer that the host fills and the device copies from.
#[derive(Clone, Copy, Debug, PartialEq, Eq, Structural)]
pub struct UploadPlan {
    pub staging: BufferPlan,
    pub destination: BufferPlan,
    /// The bytes to copy from the staging buffer to the destination.
    pub copy_size: u64,
}

/// One step of an upload through a staging buffer.
#[derive(Clone, Copy, Debug, PartialEq, Eq, Structural)]
pub enum UploadStep {
    /// Make the staging buffer and its memory.
    CreateStagingBuffer,
    /// Map the staging memory, copy the data in, unmap it.
    FillStagingBuffer,
    /// Make the destination buffer and its memory.
    CreateDestinationBuffer,
    /// Record and submit the copy from the staging buffer to the destination.
    SubmitCopy,
    /// Wait until the queue that copies has no work left.
    WaitQueueIdle,
    /// Destroy the staging buffer and free its memory.
    DestroyStagingBuffer,
}

/// How the uniform buffers and their descriptors are made.
#[derive(Clone, Copy, Debug, PartialEq, Eq, Structural)]
pub struct UniformPlan {
    /// One buffer for each image of the swapchain.
    pub buffer_count: u32,
    pub buffer: BufferPlan,
    /// The uniform-buffer descriptors that the pool holds.
    pub descriptor_count: u32,
    /// The descriptor sets that the pool gives.
    pub max_sets: u32,
}

impl GeometryUsage {
    /// The usage bit of a buffer with this use.
    pub open spec fn spec_bit(self) -> u32 {
        match self {
            GeometryUsage::Vertex => BUFFER_USAGE_VERTEX_BUFFER,
            GeometryUsage::Index => BUFFER_USAGE_INDEX_BUFFER,
        }
    }

    /// The usage bit of a buffer with this use.
    #[verifier::when_used_as_spec(spec_bit)]
    pub fn bit(self) -> (r: u32)
        ensures
            r == self.spec_bit(),
    {
        match self {
            GeometryUsage::Vertex => BUFFER_USAGE_VERTEX_BUFFER,
            GeometryUsage::Index => BUFFER_USAGE_INDEX_BUFFER,
        }
    }
}

/// The memory type `index` is allowed by `type_bits` and has every
/// property bit of `required`.
pub open spec fn memory_type_fits(
    type_bits: u32,
    memory_types: Seq<u32>,
    required: u32,
    index: int,
) -> bool {
    &&& 0 <= index < memory_types.len()
    &&& index < MAX_MEMORY_TYPES
    &&& type_bits & (1u32 << (index as u32)) != 0
    &&& memory_types[index] & required == required
}

/// Finds the first memory type that a buffer's requirements allow and
/// that has the required properties. `memory_types` holds the property
/// bits of each type of the device, `type_bits` one bit for each type
/// that the buffer can live in.
pub fn find_memory_type(type_bits: u32, memory_types: &Vec<u32>, required: u32) -> (r: Option<u32>)
    requires
        memory_types@.len() <= MAX_MEMORY_TYPES,
    ensures
        match r {
            Some(index) => {
                &&& memory_type_fits(type_bits, memory_types@, required, index as int)
                &&& forall|j: int|
                    0 <= j < index ==> !memory_type_fits(type_bits, memory_types@, required, j)
            },
            None => forall|j: int|
                0 <= j < memory_types@.len() ==> !memory_type_fits(
                    type_bits,
                    memory_types@,
                    required,
                    j,
                ),
        },
{
    let mut i: u32 = 0;
    while (i as usize) < memory_types.len()
        invariant
            i <= memory_types@.len() <= MAX_MEMORY_TYPES,
            forall|j: int| 0 <= j < i ==> !memory_type_fits(type_bits, memory_types@, required, j),
        decreases memory_types@.len() - i,
    {
        if type_bits & (1u32 << i) != 0 && memory_flags_contain(memory_types[i as usize], required) {
            return Some(i);
        }
        i += 1;
    }
    None
}

/// The queue families to make queues of: the graphics family and the
/// present family, once where they are the same.
pub fn unique_queue_families(queue_indices: &QueueFamilyIndices) -> (r: Vec<u32>)
    requires
        queue_indices.is_complete(),
    ensures
        r@ == if queue_indices.graphics_family->Some_0 == queue_indices.present_family->Some_0 {
            seq![queue_indices.graphics_family->Some_0]
        } else {
            seq![queue_indices.graphics_family->Some_0, queue_indices.present_family->Some_0]
        },
{
    let graphics = queue_indices.graphics_family.unwrap();
    let present = queue_indices.present_family.unwrap();
    let mut families: Vec<u32> = Vec::new();
    families.push(graphics);
    if present != graphics {
        families.push(present);
    }
    families
}

/// The plan that `upload_plan` makes for `size` bytes.
pub open spec fn upload_of(size: u64, usage: GeometryUsage) -> UploadPlan {
    UploadPlan {
        staging: BufferPlan {
            size,
            usage: BUFFER_USAGE_TRANSFER_SRC,
            memory_properties: MEMORY_HOST_VISIBLE | MEMORY_HOST_COHERENT,
        },
        destination: BufferPlan {
            size,
            usage: BUFFER_USAGE_TRANSFER_DST | usage.bit(),
            memory_properties: MEMORY_DEVICE_LOCAL,
        },
        copy_size: size,
    }
}

/// Plans the upload of `count` elements of `element_size` bytes each
/// into a buffer local to the device: a staging buffer of that size that
/// the host can write, the destination with the wanted use, and a copy
/// of every byte. There is no plan where the size does not fit 64 bits.
pub fn upload_plan(element_size: u64, count: u64, usage: GeometryUsage) -> (r: Option<UploadPlan>)
    ensures
        r is Some <==> element_size * count <= u64::MAX,
        r is Some ==> r->Some_0 == upload_of((element_size * count) as u64, usage),
{
    match element_size.checked_mul(count) {
        Some(size) => Some(
            UploadPlan {
                staging: BufferPlan {
                    size,
                    usage: BUFFER_USAGE_TRANSFER_SRC,
                    memory_properties: MEMORY_HOST_VISIBLE | MEMORY_HOST_COHERENT,
                },
                destination: BufferPlan {
                    size,
                    usage: BUFFER_USAGE_TRANSFER_DST | usage.bit(),
                    memory_properties: MEMORY_DEVICE_LOCAL,
                },
                copy_size: size,
            },
        ),
        None => None,
    }
}

/// The steps of an upload, in order.
pub open spec fn upload_sequence() -> Seq<UploadStep> {
    seq![
        UploadStep::CreateStagingBuffer,
        UploadStep::FillStagingBuffer,
        UploadStep::CreateDestinationBuffer,
        UploadStep::SubmitCopy,
        UploadStep::WaitQueueIdle,
        UploadStep::DestroyStagingBuffer,
    ]
}

/// The steps of an upload through a staging buffer, in order: the
/// staging buffer is filled before it is copied from, and destroyed only
/// when the queue has done the copy.
pub fn upload_steps() -> (r: Vec<UploadStep>)
    ensures
        r@ == upload_sequence(),
{
    let mut steps: Vec<UploadStep> = Vec::new();
    steps.push(UploadStep::CreateStagingBuffer);
    steps.push(UploadStep::FillStagingBuffer);
    steps.push(UploadStep::CreateDestinationBuffer);
    steps.push(UploadStep::SubmitCopy);
    steps.push(UploadStep::WaitQueueIdle);
    steps.push(UploadStep::DestroyStagingBuffer);
    steps
}

/// The place of `step` in `steps`, where it occurs once.
pub open spec fn place_of(steps: Seq<UploadStep>, step: UploadStep) -> int {
    choose|i: int| 0 <= i < steps.len() && steps[i] == step
}

/// In an upload every step is taken once; the staging buffer is made,
/// then filled, then copied from, and destroyed only after the queue was
/// waited for; the destination is made before it is copied to.
pub proof fn lemma_upload_ordered()
    ensures
        ({
            let steps = upload_sequence();
            &&& forall|step: UploadStep| steps.contains(step)
            &&& steps.no_duplicates()
            &&& place_of(steps, UploadStep::CreateStagingBuffer) < place_of(
                steps,
                UploadStep::FillStagingBuffer,
            ) < place_of(steps, UploadStep::SubmitCopy) < place_of(
                steps,
                UploadStep::WaitQueueIdle,
            ) < place_of(steps, UploadStep::DestroyStagingBuffer)
            &&& place_of(steps, UploadStep::CreateDestinationBuffer) < place_of(
                steps,
                UploadStep::SubmitCopy,
            )
        }),
{
    let steps = upload_sequence();
    assert(steps[0] == UploadStep::CreateStagingBuffer);
    assert(steps[1] == UploadStep::FillStagingBuffer);
    assert(steps[2] == UploadStep::CreateDestinationBuffer);
    assert(steps[3] == UploadStep::SubmitCopy);
    assert(steps[4] == UploadStep::WaitQueueIdle);
    assert(steps[5] == UploadStep::DestroyStagingBuffer);
    assert forall|step: UploadStep| steps.contains(step) by {
        match step {
            UploadStep::CreateStagingBuffer => assert(steps[0] == step),
            UploadStep::FillStagingBuffer => assert(steps[1] == step),
            UploadStep::CreateDestinationBuffer => assert(steps[2] == step),
            UploadStep::SubmitCopy => assert(steps[3] == step),
            UploadStep::WaitQueueIdle => assert(steps[4] == step),
            UploadStep::DestroyStagingBuffer => assert(steps[5] == step),
        }
    }
}

/// Plans the uniform buffers: one for each image of the swapchain, each
/// large enough for the transforms and writable by the host, and a
/// descriptor pool with one descriptor and one set for each.
pub fn uniform_plan(image_count: u32) -> (r: UniformPlan)
    ensures
        r == (UniformPlan {
            buffer_count: image_count,
            buffer: BufferPlan {
                size: UNIFORM_PAYLOAD_SIZE,
                usage: BUFFER_USAGE_UNIFORM_BUFFER,
                memory_properties: MEMORY_HOST_VISIBLE | MEMORY_HOST_COHERENT,
            },
            descriptor_count: image_count,
            max_sets: image_count,
        }),
{
    UniformPlan {
        buffer_count: image_count,
        buffer: BufferPlan {
            size: UNIFORM_PAYLOAD_SIZE,
            usage: BUFFER_USAGE_UNIFORM_BUFFER,
            memory_properties: MEMORY_HOST_VISIBLE | MEMORY_HOST_COHERENT,
        },
        descriptor_count: image_count,
        max_sets: image_count,
    }
}

} // verus!
