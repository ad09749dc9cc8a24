use crate::swapchain::Extent2D;
use vstd::prelude::*;

verus! {

/// The bytes of one 32-bit number of a vertex.
pub const COMPONENT_SIZE: u32 = 4;

/// The numbers of a vertex position.
pub const POSITION_COMPONENTS: u32 = 2;

/// The numbers of a vertex color.
pub const COLOR_COMPONENTS: u32 = 3;

/// The indices of the two triangles of the quad.
pub const QUAD_INDEX_COUNT: u32 = 6;

/// The corners of the quad.
pub const QUAD_VERTEX_COUNT: u16 = 4;

/// What is done with an attachment when a render pass begins.
#[derive(Clone, Copy, Debug, PartialEq, Eq, Structural)]
pub enum LoadOp {
    Load,
    Clear,
    DontCare,
}

/// What is done with an attachment when a render pass ends.
#[derive(Clone, Copy, Debug, PartialEq, Eq, Structural)]
pub enum StoreOp {
    Store,
    DontCare,
}

/// The layout of an image.
#[derive(Clone, Copy, Debug, PartialEq, Eq, Structural)]
pub enum ImageLayout {
    Undefined,
    ColorAttachmentOptimal,
    PresentSrc,
}

/// The stages of the pipeline that a dependency speaks of.
#[derive(Clone, Copy, Debug, PartialEq, Eq, Structural)]
pub enum PipelineStage {
    ColorAttachmentOutput,
}

/// The accesses that a dependency speaks of.
#[derive(Clone, Copy, Debug, PartialEq, Eq, Structural)]
pub enum Access {
    Nothing,
    ColorAttachmentWrite,
}

/// A subpass of the render pass, or what comes before and after it.
#[derive(Clone, Copy, Debug, PartialEq, Eq, Structural)]
pub enum Subpass {
    External,
    Index(u32),
}

/// The one color attachment of the render pass.
#[derive(Clone, Copy, Debug, PartialEq, Eq, Structural)]
pub struct ColorAttachment {
    pub format: i32,
    pub samples: u32,
    pub load_op: LoadOp,
    pub store_op: StoreOp,
    pub stencil_load_op: LoadOp,
    pub stencil_store_op: StoreOp,
    pub initial_layout: ImageLayout,
    pub final_layout: ImageLayout,
}

/// What the subpass waits for before it writes its color attachment.
#[derive(Clone, Copy, Debug, PartialEq, Eq, Structural)]
pub struct SubpassDependency {
    pub src_subpass: Subpass,
    pub dst_subpass: Subpass,
    pub src_stage: PipelineStage,
    pub src_access: Access,
    pub dst_stage: PipelineStage,
    pub dst_access: Access,
}

/// A render pass of one subpass with one color attachment.
#[derive(Clone, Copy, Debug, PartialEq, Eq, Structural)]
pub struct RenderPassConfig {
    pub color_attachment: ColorAttachment,
    /// The attachment that the subpass writes, and the layout it has meanwhile.
    pub color_reference: u32,
    pub color_reference_layout: ImageLayout,
    pub dependency: SubpassDependency,
}

/// The numbers that make up one attribute of a vertex.
#[derive(Clone, Copy, Debug, PartialEq, Eq, Structural)]
pub enum AttributeFormat {
    /// Two 32-bit floating-point numbers.
    Float2,
    /// Three 32-bit floating-point numbers.
    Float3,
}

/// How the vertices lie in their buffer.
#[derive(Clone, Copy, Debug, PartialEq, Eq, Structural)]
pub struct VertexBinding {
    pub binding: u32,
    /// The bytes from one vertex to the next.
    pub stride: u32,
    /// One vertex for each vertex drawn, not for each instance.
    pub per_vertex: bool,
}

/// Where one attribute lies in a vertex.
#[derive(Clone, Copy, Debug, PartialEq, Eq, Structural)]
pub struct VertexAttribute {
    pub location: u32,
    pub binding: u32,
    pub format: AttributeFormat,
    pub offset: u32,
}

/// How the primitives are put together.
#[derive(Clone, Copy, Debug, PartialEq, Eq, Structural)]
pub enum Topology {
    TriangleList,
}

/// How polygons are filled.
#[derive(Clone, Copy, Debug, PartialEq, Eq, Structural)]
pub enum PolygonMode {
    Fill,
}

/// Which faces are dropped.
#[derive(Clone, Copy, Debug, PartialEq, Eq, Structural)]
pub enum CullMode {
    Nothing,
    Back,
}

/// Which winding faces the viewer.
#[derive(Clone, Copy, Debug, PartialEq, Eq, Structural)]
pub enum FrontFace {
    CounterClockwise,
    Clockwise,
}

/// A rectangle of pixels.
#[derive(Clone, Copy, Debug, PartialEq, Eq, Structural)]
pub struct Rect {
    pub x: i32,
    pub y: i32,
    pub extent: Extent2D,
}

/// How an image of the swapchain is viewed.
#[derive(Clone, Copy, Debug, PartialEq, Eq, Structural)]
pub struct ImageViewConfig {
    pub format: i32,
    /// The view has two dimensions.
    pub two_dimensional: bool,
    /// Every color channel is taken as it is.
    pub identity_swizzle: bool,
    /// The view shows the color of the image, not depth or stencil.
    pub color_aspect: bool,
    pub base_mip_level: u32,
    pub level_count: u32,
    pub base_array_layer: u32,
    pub layer_count: u32,
}

/// The one binding of the descriptor set layout.
#[derive(Clone, Copy, Debug, PartialEq, Eq, Structural)]
pub struct UniformBinding {
    pub binding: u32,
    pub descriptor_count: u32,
    /// The vertex stage reads the buffer, and no other stage.
    pub vertex_stage_only: bool,
}

/// The fixed functions of the graphics pipeline.
#[derive(Clone, Copy, Debug, PartialEq, Eq, Structural)]
pub struct PipelineConfig {
    pub vertex_binding: VertexBinding,
    pub position: VertexAttribute,
    pub color: VertexAttribute,
    pub topology: Topology,
    pub primitive_restart: bool,
    /// The viewport, with depths from 0 to 1.
    pub viewport: Rect,
    pub scissor: Rect,
    pub polygon_mode: PolygonMode,
    pub cull_mode: CullMode,
    pub front_face: FrontFace,
    pub rasterization_samples: u32,
    pub blend_enable: bool,
    /// One bit for each of red, green, blue and alpha that is written.
    pub color_write_mask: u32,
    pub subpass: u32,
}

impl AttributeFormat {
    /// The bytes that an attribute of this format takes.
    pub open spec fn spec_size(self) -> u32 {
        match self {
            AttributeFormat::Float2 => 8,
            AttributeFormat::Float3 => 12,
        }
    }

    /// The bytes that an attribute of this format takes.
    #[verifier::when_used_as_spec(spec_size)]
    pub fn size(self) -> (r: u32)
        ensures
            r == self.spec_size(),
    {
        match self {
            AttributeFormat::Float2 => POSITION_COMPONENTS * COMPONENT_SIZE,
            AttributeFormat::Float3 => COLOR_COMPONENTS * COMPONENT_SIZE,
        }
    }
}

/// The render pass for images of the given format.
pub open spec fn render_pass_for(format: i32) -> RenderPassConfig {
    RenderPassConfig {
        color_attachment: ColorAttachment {
            format,
            samples: 1,
            load_op: LoadOp::Clear,
            store_op: StoreOp::Store,
            stencil_load_op: LoadOp::DontCare,
            stencil_store_op: StoreOp::DontCare,
            initial_layout: ImageLayout::Undefined,
            final_layout: ImageLayout::PresentSrc,
        },
        color_reference: 0,
        color_reference_layout: ImageLayout::ColorAttachmentOptimal,
        dependency: SubpassDependency {
            src_subpass: Subpass::External,
            dst_subpass: Subpass::Index(0),
            src_stage: PipelineStage::ColorAttachmentOutput,
            src_access: Access::Nothing,
            dst_stage: PipelineStage::ColorAttachmentOutput,
            dst_access: Access::ColorAttachmentWrite,
        },
    }
}

/// Describes the render pass for images of the given format: one subpass
/// with one color attachment, which is cleared when the pass begins,
/// stored when it ends and then ready to present, and which the subpass
/// writes only once the image is there.
pub fn render_pass_config(format: i32) -> (r: RenderPassConfig)
    ensures
        r == render_pass_for(format),
{
    RenderPassConfig {
        color_attachment: ColorAttachment {
            format,
            samples: 1,
            load_op: LoadOp::Clear,
            store_op: StoreOp::Store,
            stencil_load_op: LoadOp::DontCare,
            stencil_store_op: StoreOp::DontCare,
            initial_layout: ImageLayout::Undefined,
            final_layout: ImageLayout::PresentSrc,
        },
        color_reference: 0,
        color_reference_layout: ImageLayout::ColorAttachmentOptimal,
        dependency: SubpassDependency {
            src_subpass: Subpass::External,
            dst_subpass: Subpass::Index(0),
            src_stage: PipelineStage::ColorAttachmentOutput,
            src_access: Access::Nothing,
            dst_stage: PipelineStage::ColorAttachmentOutput,
            dst_access: Access::ColorAttachmentWrite,
        },
    }
}

/// The view of an image of the given format.
pub open spec fn image_view_for(format: i32) -> ImageViewConfig {
    ImageViewConfig {
        format,
        two_dimensional: true,
        identity_swizzle: true,
        color_aspect: true,
        base_mip_level: 0,
        level_count: 1,
        base_array_layer: 0,
        layer_count: 1,
    }
}

/// Describes the view of an image of the swapchain: two dimensions, the
/// channels as they are, the color, one mip level and one layer.
pub fn image_view_config(format: i32) -> (r: ImageViewConfig)
    ensures
        r == image_view_for(format),
{
    ImageViewConfig {
        format,
        two_dimensional: true,
        identity_swizzle: true,
        color_aspect: true,
        base_mip_level: 0,
        level_count: 1,
        base_array_layer: 0,
        layer_count: 1,
    }
}

/// Describes the descriptor set layout: one uniform buffer at binding 0,
/// read by the vertex stage.
pub fn uniform_binding() -> (r: UniformBinding)
    ensures
        r == (UniformBinding { binding: 0, descriptor_count: 1, vertex_stage_only: true }),
{
    UniformBinding { binding: 0, descriptor_count: 1, vertex_stage_only: true }
}

/// The position comes first in a vertex.
pub open spec fn position_attribute() -> VertexAttribute {
    VertexAttribute { location: 0, binding: 0, format: AttributeFormat::Float2, offset: 0 }
}

/// The color follows the position at once.
pub open spec fn color_attribute() -> VertexAttribute {
    VertexAttribute {
        location: 1,
        binding: 0,
        format: AttributeFormat::Float3,
        offset: AttributeFormat::Float2.size(),
    }
}

/// One vertex follows the other at once.
pub open spec fn vertex_binding() -> VertexBinding {
    VertexBinding {
        binding: 0,
        stride: (AttributeFormat::Float2.size() + AttributeFormat::Float3.size()) as u32,
        per_vertex: true,
    }
}

/// The whole of an image of this extent.
pub open spec fn full_rect(extent: Extent2D) -> Rect {
    Rect { x: 0, y: 0, extent }
}

/// The pipeline for a swapchain of the given extent.
pub open spec fn pipeline_for(extent: Extent2D) -> PipelineConfig {
    PipelineConfig {
        vertex_binding: vertex_binding(),
        position: position_attribute(),
        color: color_attribute(),
        topology: Topology::TriangleList,
        primitive_restart: false,
        viewport: full_rect(extent),
        scissor: full_rect(extent),
        polygon_mode: PolygonMode::Fill,
        cull_mode: CullMode::Back,
        front_face: FrontFace::Clockwise,
        rasterization_samples: 1,
        blend_enable: false,
        color_write_mask: 0xF,
        subpass: 0,
    }
}

/// Describes the graphics pipeline for a swapchain of the given extent:
/// vertices of a position and a color, packed tightly, drawn as a list
/// of triangles over the whole extent, filled, back faces dropped,
/// one sample per pixel, nothing blended.
pub fn graphics_pipeline_config(extent: Extent2D) -> (r: PipelineConfig)
    ensures
        r == pipeline_for(extent),
        r.viewport.extent == extent,
        r.scissor.extent == extent,
{
    let position_size = AttributeFormat::Float2.size();
    let color_size = AttributeFormat::Float3.size();
    PipelineConfig {
        vertex_binding: VertexBinding {
            binding: 0,
            stride: position_size + color_size,
            per_vertex: true,
        },
        position: VertexAttribute {
            location: 0,
            binding: 0,
            format: AttributeFormat::Float2,
            offset: 0,
        },
        color: VertexAttribute {
            location: 1,
            binding: 0,
            format: AttributeFormat::Float3,
            offset: position_size,
        },
        topology: Topology::TriangleList,
        primitive_restart: false,
        viewport: Rect { x: 0, y: 0, extent },
        scissor: Rect { x: 0, y: 0, extent },
        polygon_mode: PolygonMode::Fill,
        cull_mode: CullMode::Back,
        front_face: FrontFace::Clockwise,
        rasterization_samples: 1,
        blend_enable: false,
        color_write_mask: 0xF,
        subpass: 0,
    }
}

/// The indices of the quad: two triangles that share a diagonal.
pub open spec fn quad() -> Seq<u16> {
    seq![0u16, 1u16, 2u16, 2u16, 3u16, 0u16]
}

/// The indices by which the quad is drawn.
pub fn quad_indices() -> (r: Vec<u16>)
    ensures
        r@ == quad(),
        r@.len() == QUAD_INDEX_COUNT,
        forall|i: int| 0 <= i < r@.len() ==> r@[i] < QUAD_VERTEX_COUNT,
{
    let mut indices: Vec<u16> = Vec::new();
    indices.push(0);
    indices.push(1);
    indices.push(2);
    indices.push(2);
    indices.push(3);
    indices.push(0);
    indices
}

/// The attributes of a vertex lie one behind the other and fill it:
/// the pipeline reads every byte of a vertex, and none twice.
pub proof fn lemma_vertex_tightly_packed()
    ensures
        position_attribute().offset == 0,
        color_attribute().offset == position_attribute().offset + position_attribute().format.size(),
        vertex_binding().stride == color_attribute().offset + color_attribute().format.size(),
        vertex_binding().stride == 20,
{
}

} // verus!
