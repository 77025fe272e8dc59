use opencubes::pipeline_graphics::{
    Access, AttachmentLoadOp, AttachmentStoreOp, BuildStep, CullMode, FrontFace,
    GraphicsPipeline, ImageLayout, PipelineBindPoint, PipelineStage, PolygonMode,
    PrimitiveTopology, Rect2D, ShaderStage, SubpassRef, Viewport,
};
use opencubes::vk::Extent2D;

#[test]
fn viewport_and_scissor_cover_the_picture() {
    let extent = Extent2D { width: 1024, height: 768 };
    let pipeline = GraphicsPipeline::new(extent, 50);
    assert_eq!(
        pipeline.viewport,
        Viewport { x: 0, y: 0, width: 1024, height: 768, min_depth: 0, max_depth: 1 }
    );
    assert_eq!(pipeline.scissor, Rect2D { x: 0, y: 0, extent });
    let pipeline = GraphicsPipeline::new(Extent2D { width: 1, height: u32::MAX }, 50);
    assert_eq!(pipeline.viewport.width, 1);
    assert_eq!(pipeline.viewport.height, u32::MAX);
    assert_eq!(pipeline.scissor.extent, Extent2D { width: 1, height: u32::MAX });
}

#[test]
fn the_render_pass_clears_and_presents_one_attachment() {
    let pipeline = GraphicsPipeline::new(Extent2D { width: 8, height: 8 }, 44);
    let attachment = pipeline.render_pass.attachment;
    assert_eq!(attachment.format, 44);
    assert_eq!(attachment.samples, 1);
    assert_eq!(attachment.load_op, AttachmentLoadOp::Clear);
    assert_eq!(attachment.store_op, AttachmentStoreOp::Store);
    assert_eq!(attachment.initial_layout, ImageLayout::Undefined);
    assert_eq!(attachment.final_layout, ImageLayout::PresentSrc);
    let subpass = pipeline.render_pass.subpass;
    assert_eq!(subpass.pipeline_bind_point, PipelineBindPoint::Graphics);
    assert_eq!(subpass.color_attachment.attachment, 0);
    assert_eq!(subpass.color_attachment.layout, ImageLayout::ColorAttachmentOptimal);
    let dependency = pipeline.render_pass.dependency;
    assert_eq!(dependency.src_subpass, SubpassRef::External);
    assert_eq!(dependency.dst_subpass, SubpassRef::Index(0));
    assert_eq!(dependency.src_stage_mask, PipelineStage::ColorAttachmentOutput);
    assert_eq!(dependency.dst_stage_mask, PipelineStage::ColorAttachmentOutput);
    assert_eq!(dependency.src_access_mask, Access::Empty);
    assert_eq!(dependency.dst_access_mask, Access::ColorAttachmentWrite);
    assert_eq!(pipeline.subpass, 0);
}

#[test]
fn the_fixed_state_draws_filled_triangles() {
    let pipeline = GraphicsPipeline::new(Extent2D { width: 8, height: 8 }, 50);
    assert_eq!(pipeline.first_stage, ShaderStage::Vertex);
    assert_eq!(pipeline.second_stage, ShaderStage::Fragment);
    assert_eq!(pipeline.vertex_bindings, 0);
    assert_eq!(pipeline.vertex_attributes, 0);
    assert_eq!(pipeline.input_assembly.topology, PrimitiveTopology::TriangleList);
    assert!(!pipeline.input_assembly.primitive_restart_enable);
    assert!(!pipeline.rasterization.depth_clamp_enable);
    assert!(!pipeline.rasterization.rasterizer_discard_enable);
    assert_eq!(pipeline.rasterization.polygon_mode, PolygonMode::Fill);
    assert_eq!(pipeline.rasterization.line_width, 1);
    assert_eq!(pipeline.rasterization.cull_mode, CullMode::Back);
    assert_eq!(pipeline.rasterization.front_face, FrontFace::Clockwise);
    assert!(!pipeline.rasterization.depth_bias_enable);
    assert!(!pipeline.multisample.sample_shading_enable);
    assert_eq!(pipeline.multisample.rasterization_samples, 1);
    assert!(!pipeline.color_blend.logic_op_enable);
    assert!(!pipeline.color_blend.blend_enable);
    assert!(pipeline.color_blend.write_red);
    assert!(pipeline.color_blend.write_green);
    assert!(pipeline.color_blend.write_blue);
    assert!(pipeline.color_blend.write_alpha);
    assert_eq!(pipeline.layout.descriptor_set_layouts, 0);
    assert_eq!(pipeline.layout.push_constant_ranges, 0);
}

#[test]
fn both_stages_enter_at_main() {
    assert_eq!(GraphicsPipeline::entry_point(), b"main".to_vec());
}

#[test]
fn the_shader_modules_go_once_the_pipeline_is_there() {
    assert_eq!(
        GraphicsPipeline::build_steps(),
        vec![
            BuildStep::CreateRenderPass,
            BuildStep::CreateShaderModule(ShaderStage::Vertex),
            BuildStep::CreateShaderModule(ShaderStage::Fragment),
            BuildStep::CreatePipelineLayout,
            BuildStep::CreatePipeline,
            BuildStep::DestroyShaderModule(ShaderStage::Fragment),
            BuildStep::DestroyShaderModule(ShaderStage::Vertex),
        ]
    );
}
