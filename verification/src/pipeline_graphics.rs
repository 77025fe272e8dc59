//! The one graphics pipeline of the renderer: a render pass with a single
//! colour attachment and a pipeline whose state is fixed but for the size
//! of the picture.
//!
//! Nothing here touches the driver. [`GraphicsPipeline::new`] lays down
//! what is to be created, [`GraphicsPipeline::build_steps`] in which order,
//! and the caller creates it.

use crate::cstringstuff::name_from_str;
use crate::vk::Extent2D;
use vstd::prelude::*;
use vstd::string::StringSliceAdditionalSpecFns;

verus! {

/// What happens to an attachment's contents when a render pass begins.
#[derive(PartialEq, Eq, Structural, Debug, Clone, Copy)]
pub enum AttachmentLoadOp {
    Load,
    Clear,
    DontCare,
}

/// What happens to an attachment's contents when a render pass ends.
#[derive(PartialEq, Eq, Structural, Debug, Clone, Copy)]
pub enum AttachmentStoreOp {
    Store,
    DontCare,
}

/// The image layouts that the renderer names.
#[derive(PartialEq, Eq, Structural, Debug, Clone, Copy)]
pub enum ImageLayout {
    Undefined,
    ColorAttachmentOptimal,
    PresentSrc,
}

/// Where a subpass dependency starts or ends.
#[derive(PartialEq, Eq, Structural, Debug, Clone, Copy)]
pub enum SubpassRef {
    /// Everything outside the render pass.
    External,
    Index(u32),
}

/// The pipeline stages that the renderer synchronises on.
#[derive(PartialEq, Eq, Structural, Debug, Clone, Copy)]
pub enum PipelineStage {
    TopOfPipe,
    ColorAttachmentOutput,
    BottomOfPipe,
}

/// The kinds of memory access that the renderer orders.
#[derive(PartialEq, Eq, Structural, Debug, Clone, Copy)]
pub enum Access {
    /// No access at all.
    Empty,
    ColorAttachmentRead,
    ColorAttachmentWrite,
}

/// The kind of pipeline that commands are bound to.
#[derive(PartialEq, Eq, Structural, Debug, Clone, Copy)]
pub enum PipelineBindPoint {
    Graphics,
    Compute,
}

/// The programmable stages that the pipeline has.
#[derive(PartialEq, Eq, Structural, Debug, Clone, Copy)]
pub enum ShaderStage {
    Vertex,
    Fragment,
}

/// How vertices are put together to primitives.
#[derive(PartialEq, Eq, Structural, Debug, Clone, Copy)]
pub enum PrimitiveTopology {
    PointList,
    LineList,
    LineStrip,
    TriangleList,
    TriangleStrip,
    TriangleFan,
}

/// How a polygon is rasterised.
#[derive(PartialEq, Eq, Structural, Debug, Clone, Copy)]
pub enum PolygonMode {
    Fill,
    Line,
    Point,
}

/// Which faces are dropped before rasterising.
#[derive(PartialEq, Eq, Structural, Debug, Clone, Copy)]
pub enum CullMode {
    /// Nothing is culled.
    Off,
    Front,
    Back,
    FrontAndBack,
}

/// The winding that marks a face as the front.
#[derive(PartialEq, Eq, Structural, Debug, Clone, Copy)]
pub enum FrontFace {
    CounterClockwise,
    Clockwise,
}

/// The colour attachment of the render pass.
#[derive(PartialEq, Eq, Structural, Debug, Clone, Copy)]
pub struct AttachmentDescription {
    /// Raw colour format, that of the presentation chain.
    pub format: i32,
    pub samples: u32,
    pub load_op: AttachmentLoadOp,
    pub store_op: AttachmentStoreOp,
    pub initial_layout: ImageLayout,
    pub final_layout: ImageLayout,
}

/// How a subpass uses an attachment of its render pass.
#[derive(PartialEq, Eq, Structural, Debug, Clone, Copy)]
pub struct AttachmentReference {
    pub attachment: u32,
    pub layout: ImageLayout,
}

/// The single subpass: graphics work on one colour attachment.
#[derive(PartialEq, Eq, Structural, Debug, Clone, Copy)]
pub struct SubpassDescription {
    pub pipeline_bind_point: PipelineBindPoint,
    pub color_attachment: AttachmentReference,
}

/// The ordering between what came before the render pass and its subpass.
#[derive(PartialEq, Eq, Structural, Debug, Clone, Copy)]
pub struct SubpassDependency {
    pub src_subpass: SubpassRef,
    pub dst_subpass: SubpassRef,
    pub src_stage_mask: PipelineStage,
    pub dst_stage_mask: PipelineStage,
    pub src_access_mask: Access,
    pub dst_access_mask: Access,
}

/// A render pass of one attachment, one subpass and one dependency.
#[derive(PartialEq, Eq, Structural, Debug, Clone, Copy)]
pub struct RenderPassCreateInfo {
    pub attachment: AttachmentDescription,
    pub subpass: SubpassDescription,
    pub dependency: SubpassDependency,
}

/// The part of the framebuffer that is drawn to, in whole pixels; depth
/// runs from `min_depth` to `max_depth`.
#[derive(PartialEq, Eq, Structural, Debug, Clone, Copy)]
pub struct Viewport {
    pub x: u32,
    pub y: u32,
    pub width: u32,
    pub height: u32,
    pub min_depth: u32,
    pub max_depth: u32,
}

/// A rectangle of pixels.
#[derive(PartialEq, Eq, Structural, Debug, Clone, Copy)]
pub struct Rect2D {
    pub x: i32,
    pub y: i32,
    pub extent: Extent2D,
}

/// How the vertices enter the pipeline.
#[derive(PartialEq, Eq, Structural, Debug, Clone, Copy)]
pub struct InputAssemblyState {
    pub topology: PrimitiveTopology,
    pub primitive_restart_enable: bool,
}

/// How primitives become fragments.
#[derive(PartialEq, Eq, Structural, Debug, Clone, Copy)]
pub struct RasterizationState {
    pub depth_clamp_enable: bool,
    pub rasterizer_discard_enable: bool,
    pub polygon_mode: PolygonMode,
    /// In whole pixels.
    pub line_width: u32,
    pub cull_mode: CullMode,
    pub front_face: FrontFace,
    pub depth_bias_enable: bool,
}

/// How many samples a pixel has.
#[derive(PartialEq, Eq, Structural, Debug, Clone, Copy)]
pub struct MultisampleState {
    pub sample_shading_enable: bool,
    pub rasterization_samples: u32,
}

/// Blending of the one colour attachment: which channels are written, and
/// whether what is written is blended with what was there.
#[derive(PartialEq, Eq, Structural, Debug, Clone, Copy)]
pub struct ColorBlendState {
    pub logic_op_enable: bool,
    pub blend_enable: bool,
    pub write_red: bool,
    pub write_green: bool,
    pub write_blue: bool,
    pub write_alpha: bool,
}

/// What the pipeline layout declares.
#[derive(PartialEq, Eq, Structural, Debug, Clone, Copy)]
pub struct PipelineLayoutCreateInfo {
    pub descriptor_set_layouts: u32,
    pub push_constant_ranges: u32,
}

/// One thing to do while the pipeline is built.
#[derive(PartialEq, Eq, Structural, Debug, Clone, Copy)]
pub enum BuildStep {
    CreateRenderPass,
    CreateShaderModule(ShaderStage),
    CreatePipelineLayout,
    CreatePipeline,
    DestroyShaderModule(ShaderStage),
}

/// The render pass and the pipeline of the renderer, as they are to be
/// created.
#[derive(PartialEq, Eq, Structural, Debug, Clone, Copy)]
pub struct GraphicsPipeline {
    pub render_pass: RenderPassCreateInfo,
    /// The stages in the order they are handed to the driver. Both enter at
    /// [`GraphicsPipeline::entry_point`].
    pub first_stage: ShaderStage,
    pub second_stage: ShaderStage,
    /// The pipeline takes no vertex buffers: the vertex stage holds the
    /// triangle.
    pub vertex_bindings: u32,
    pub vertex_attributes: u32,
    pub input_assembly: InputAssemblyState,
    pub viewport: Viewport,
    pub scissor: Rect2D,
    pub rasterization: RasterizationState,
    pub multisample: MultisampleState,
    pub color_blend: ColorBlendState,
    pub layout: PipelineLayoutCreateInfo,
    /// The subpass of the render pass that the pipeline is used in.
    pub subpass: u32,
}

impl GraphicsPipeline {
    /// The render pass for a chain of colour format `format`: one
    /// single-sampled attachment that is cleared at the start, kept at the
    /// end and left ready to be presented.
    pub open spec fn fixed_render_pass(format: i32) -> RenderPassCreateInfo {
        RenderPassCreateInfo {
            attachment: AttachmentDescription {
                format,
                samples: 1,
                load_op: AttachmentLoadOp::Clear,
                store_op: AttachmentStoreOp::Store,
                initial_layout: ImageLayout::Undefined,
                final_layout: ImageLayout::PresentSrc,
            },
            subpass: SubpassDescription {
                pipeline_bind_point: PipelineBindPoint::Graphics,
                color_attachment: AttachmentReference {
                    attachment: 0,
                    layout: ImageLayout::ColorAttachmentOptimal,
                },
            },
            dependency: SubpassDependency {
                src_subpass: SubpassRef::External,
                dst_subpass: SubpassRef::Index(0),
                src_stage_mask: PipelineStage::ColorAttachmentOutput,
                dst_stage_mask: PipelineStage::ColorAttachmentOutput,
                src_access_mask: Access::Empty,
                dst_access_mask: Access::ColorAttachmentWrite,
            },
        }
    }

    /// The whole description for a picture of size `extent` in colour
    /// format `format`.
    pub open spec fn fixed(extent: Extent2D, format: i32) -> GraphicsPipeline {
        GraphicsPipeline {
            render_pass: Self::fixed_render_pass(format),
            first_stage: ShaderStage::Vertex,
            second_stage: ShaderStage::Fragment,
            vertex_bindings: 0,
            vertex_attributes: 0,
            input_assembly: InputAssemblyState {
                topology: PrimitiveTopology::TriangleList,
                primitive_restart_enable: false,
            },
            viewport: Viewport {
                x: 0,
                y: 0,
                width: extent.width,
                height: extent.height,
                min_depth: 0,
                max_depth: 1,
            },
            scissor: Rect2D { x: 0, y: 0, extent },
            rasterization: RasterizationState {
                depth_clamp_enable: false,
                rasterizer_discard_enable: false,
                polygon_mode: PolygonMode::Fill,
                line_width: 1,
                cull_mode: CullMode::Back,
                front_face: FrontFace::Clockwise,
                depth_bias_enable: false,
            },
            multisample: MultisampleState { sample_shading_enable: false, rasterization_samples: 1 },
            color_blend: ColorBlendState {
                logic_op_enable: false,
                blend_enable: false,
                write_red: true,
                write_green: true,
                write_blue: true,
                write_alpha: true,
            },
            layout: PipelineLayoutCreateInfo { descriptor_set_layouts: 0, push_constant_ranges: 0 },
            subpass: 0,
        }
    }

    /// Describes the pipeline that draws to a chain of size `extent` and
    /// colour format `format`. Viewport and scissor cover the picture
    /// exactly.
    pub fn new(extent: Extent2D, format: i32) -> (pipeline: Self)
        ensures
            pipeline == Self::fixed(extent, format),
            pipeline.viewport.width == extent.width,
            pipeline.viewport.height == extent.height,
            pipeline.scissor.extent == extent,
            pipeline.render_pass.attachment.format == format,
    {
        let attachment_description = AttachmentDescription {
            format,
            samples: 1,
            load_op: AttachmentLoadOp::Clear,
            store_op: AttachmentStoreOp::Store,
            initial_layout: ImageLayout::Undefined,
            final_layout: ImageLayout::PresentSrc,
        };
        let attachment_reference = AttachmentReference {
            attachment: 0,
            layout: ImageLayout::ColorAttachmentOptimal,
        };
        let subpass_description = SubpassDescription {
            pipeline_bind_point: PipelineBindPoint::Graphics,
            color_attachment: attachment_reference,
        };
        let subpass_dependency = SubpassDependency {
            src_subpass: SubpassRef::External,
            dst_subpass: SubpassRef::Index(0),
            src_stage_mask: PipelineStage::ColorAttachmentOutput,
            dst_stage_mask: PipelineStage::ColorAttachmentOutput,
            src_access_mask: Access::Empty,
            dst_access_mask: Access::ColorAttachmentWrite,
        };
        let render_pass = RenderPassCreateInfo {
            attachment: attachment_description,
            subpass: subpass_description,
            dependency: subpass_dependency,
        };
        let input_assembly = InputAssemblyState {
            topology: PrimitiveTopology::TriangleList,
            primitive_restart_enable: false,
        };
        let viewport = Viewport {
            x: 0,
            y: 0,
            width: extent.width,
            height: extent.height,
            min_depth: 0,
            max_depth: 1,
        };
        let scissor = Rect2D { x: 0, y: 0, extent };
        let rasterization = RasterizationState {
            depth_clamp_enable: false,
            rasterizer_discard_enable: false,
            polygon_mode: PolygonMode::Fill,
            line_width: 1,
            cull_mode: CullMode::Back,
            front_face: FrontFace::Clockwise,
            depth_bias_enable: false,
        };
        let multisample = MultisampleState {
            sample_shading_enable: false,
            rasterization_samples: 1,
        };
        let color_blend = ColorBlendState {
            logic_op_enable: false,
            blend_enable: false,
            write_red: true,
            write_green: true,
            write_blue: true,
            write_alpha: true,
        };
        let layout = PipelineLayoutCreateInfo { descriptor_set_layouts: 0, push_constant_ranges: 0 };
        GraphicsPipeline {
            render_pass,
            first_stage: ShaderStage::Vertex,
            second_stage: ShaderStage::Fragment,
            vertex_bindings: 0,
            vertex_attributes: 0,
            input_assembly,
            viewport,
            scissor,
            rasterization,
            multisample,
            color_blend,
            layout,
            subpass: 0,
        }
    }

    /// The name under which both shader stages are entered.
    pub fn entry_point() -> (name: Vec<u8>)
        ensures
            name@ == "main".spec_bytes(),
    {
        name_from_str("main")
    }

    /// The order of creation: the render pass, the two shader modules, the
    /// layout, the pipeline; then the modules go again, the later one
    /// first, since the finished pipeline needs them no more.
    pub open spec fn fixed_build_steps() -> Seq<BuildStep> {
        seq![
            BuildStep::CreateRenderPass,
            BuildStep::CreateShaderModule(ShaderStage::Vertex),
            BuildStep::CreateShaderModule(ShaderStage::Fragment),
            BuildStep::CreatePipelineLayout,
            BuildStep::CreatePipeline,
            BuildStep::DestroyShaderModule(ShaderStage::Fragment),
            BuildStep::DestroyShaderModule(ShaderStage::Vertex),
        ]
    }

    /// What the caller does to build the pipeline, in order.
    pub fn build_steps() -> (steps: Vec<BuildStep>)
        ensures
            steps@ == Self::fixed_build_steps(),
    {
        let mut steps: Vec<BuildStep> = Vec::new();
        steps.push(BuildStep::CreateRenderPass);
        steps.push(BuildStep::CreateShaderModule(ShaderStage::Vertex));
        steps.push(BuildStep::CreateShaderModule(ShaderStage::Fragment));
        steps.push(BuildStep::CreatePipelineLayout);
        steps.push(BuildStep::CreatePipeline);
        steps.push(BuildStep::DestroyShaderModule(ShaderStage::Fragment));
        steps.push(BuildStep::DestroyShaderModule(ShaderStage::Vertex));
        assert(steps@ =~= Self::fixed_build_steps());
        steps
    }
}

} // verus!
