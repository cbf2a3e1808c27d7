use sourcerenderer_vulkan::graph_info::{
    DepthStencil, ExternalOutput, ExternalProducerType, Format, GraphicsSubpassInfo, InputUsage, Output, PassInfo,
    PassInput, PassType, PipelineStage, RenderGraphTemplateInfo, RenderPassTextureExtent, SampleCount, SubpassOutput,
};
use sourcerenderer_vulkan::graph_passes::VkPassType;
use sourcerenderer_vulkan::graph_barrier::{build_texture_barrier, VkBarrierTemplate};
use sourcerenderer_vulkan::graph_resources::{
    ResourceAccess, ResourceMetadata, ResourcePassRange, VkResourceTemplate, TEXTURE_USAGE_FRAGMENT_SHADER_SAMPLED,
    TEXTURE_USAGE_RENDER_TARGET,
};
use sourcerenderer_vulkan::graph_runtime::{history_transitions, resource_requests, texture_usage_for, ResourceRequest, VkResource};
use sourcerenderer_vulkan::graph_template::VkRenderGraphTemplate;
use sourcerenderer_vulkan::table::AssocTable;

fn texture_output(name: u32) -> Output {
    Output::RenderTarget {
        name,
        format: Format::RGBA8UNorm,
        samples: SampleCount::Samples1,
        extent: RenderPassTextureExtent::Absolute { width: 256, height: 256, depth: 1 },
        depth: 1,
        levels: 1,
        external: false,
        clear: false,
    }
}

fn sampled(name: u32, stage: PipelineStage) -> PassInput {
    PassInput { name, stage, usage: InputUsage::Sampled, is_history: false }
}

fn compute_pass(name: &str, inputs: Vec<PassInput>, outputs: Vec<Output>) -> PassInfo {
    PassInfo { name: name.to_string(), pass_type: PassType::Compute { inputs, outputs } }
}

fn present_pass(name: &str, inputs: Vec<PassInput>) -> PassInfo {
    PassInfo {
        name: name.to_string(),
        pass_type: PassType::Graphics {
            subpasses: vec![GraphicsSubpassInfo {
                outputs: vec![SubpassOutput::Backbuffer { clear: true }],
                inputs,
                depth_stencil: DepthStencil::NoAttachment,
            }],
        },
    }
}

fn info(passes: Vec<PassInfo>, external_resources: Vec<ExternalOutput>) -> RenderGraphTemplateInfo {
    RenderGraphTemplateInfo {
        passes,
        external_resources,
        swapchain_format: Format::BGRA8UNorm,
        swapchain_sample_count: SampleCount::Samples1,
    }
}

#[test]
fn passes_run_after_the_passes_they_read_from() {
    let passes = vec![
        present_pass("present", vec![sampled(1, PipelineStage::FragmentShader)]),
        compute_pass("compute", vec![], vec![texture_output(1)]),
    ];
    let template = match VkRenderGraphTemplate::new(info(passes, vec![])) {
        Ok(t) => t,
        Err(e) => panic!("{:?}", e),
    };
    let names: Vec<String> = template.passes().iter().map(|p| p.name.clone()).collect();
    assert_eq!(names, vec!["compute".to_string(), "present".to_string()]);
    assert!(template.renders_to_swapchain());
    assert!(matches!(template.passes()[0].pass_type, VkPassType::ComputeCopy { is_compute: true }));
    assert!(matches!(template.passes()[1].pass_type, VkPassType::Graphics { .. }));
    assert!(template.passes()[1].renders_to_swapchain);
    assert!(!template.passes()[0].renders_to_swapchain);
    let range = template.resources().get(1).unwrap().pass_range;
    assert_eq!(range, ResourcePassRange { first_used_in_pass_index: 0, last_used_in_pass_index: 1 });
    let requests = resource_requests(template.resources());
    assert_eq!(
        requests,
        vec![ResourceRequest::Texture {
            name: 1,
            format: Format::RGBA8UNorm,
            extent: RenderPassTextureExtent::Absolute { width: 256, height: 256, depth: 1 },
            depth: 1,
            levels: 1,
            samples: SampleCount::Samples1,
            usage: texture_usage_for(Format::RGBA8UNorm),
            external: false,
            with_history: false,
        }]
    );
    let made: AssocTable<VkResource> = AssocTable::new();
    assert!(history_transitions(template.resources(), &made).is_empty());
}

#[test]
fn a_chain_of_passes_keeps_its_order() {
    let passes = vec![
        compute_pass("a", vec![], vec![texture_output(1)]),
        compute_pass("b", vec![sampled(1, PipelineStage::ComputeShader)], vec![texture_output(2)]),
        present_pass("c", vec![sampled(2, PipelineStage::FragmentShader)]),
    ];
    let template = match VkRenderGraphTemplate::new(info(passes, vec![])) {
        Ok(t) => t,
        Err(e) => panic!("{:?}", e),
    };
    let names: Vec<String> = template.passes().iter().map(|p| p.name.clone()).collect();
    assert_eq!(names, vec!["a".to_string(), "b".to_string(), "c".to_string()]);
}

#[test]
fn a_graph_without_the_swapchain_does_not_render_to_it() {
    let passes = vec![compute_pass("only", vec![], vec![texture_output(3)])];
    let template = match VkRenderGraphTemplate::new(info(passes, vec![])) {
        Ok(t) => t,
        Err(e) => panic!("{:?}", e),
    };
    assert!(!template.renders_to_swapchain());
    assert_eq!(template.passes().len(), 1);
}

#[test]
fn outside_resources_can_be_read() {
    let passes = vec![present_pass("present", vec![sampled(9, PipelineStage::FragmentShader)])];
    let external = vec![ExternalOutput::RenderTarget { name: 9, producer_type: ExternalProducerType::Compute }];
    assert!(VkRenderGraphTemplate::new(info(passes, external)).is_ok());
}

#[test]
fn host_written_outside_buffers_are_accepted() {
    let external = vec![ExternalOutput::Buffer { name: 4, producer_type: ExternalProducerType::Host }];
    let template = match VkRenderGraphTemplate::new(info(vec![], external)) {
        Ok(t) => t,
        Err(e) => panic!("{:?}", e),
    };
    assert!(template.passes().is_empty());
    assert!(template.resources().get(4).is_some());
}

#[test]
fn an_empty_graph_compiles_to_nothing() {
    let template = match VkRenderGraphTemplate::new(info(vec![], vec![])) {
        Ok(t) => t,
        Err(e) => panic!("{:?}", e),
    };
    assert!(template.passes().is_empty());
    assert!(!template.renders_to_swapchain());
}

#[test]
fn each_barrier_starts_where_the_one_before_ended() {
    let written = ResourceAccess::Texture { usage: TEXTURE_USAGE_RENDER_TARGET, primary_usage: TEXTURE_USAGE_RENDER_TARGET };
    let read = ResourceAccess::Texture {
        usage: TEXTURE_USAGE_FRAGMENT_SHADER_SAMPLED,
        primary_usage: TEXTURE_USAGE_FRAGMENT_SHADER_SAMPLED,
    };
    let mut accesses = AssocTable::new();
    accesses.insert(0, written);
    accesses.insert(1, read);
    let mut table = AssocTable::new();
    table.insert(
        5,
        ResourceMetadata {
            template: VkResourceTemplate::Texture {
                name: 5,
                format: Format::RGBA8UNorm,
                samples: SampleCount::Samples1,
                extent: RenderPassTextureExtent::Absolute { width: 64, height: 64, depth: 1 },
                depth: 1,
                levels: 1,
                external: false,
                is_backbuffer: false,
            },
            pass_range: ResourcePassRange { first_used_in_pass_index: 0, last_used_in_pass_index: 1 },
            history: None,
            pass_accesses: accesses,
            current_access: ResourceAccess::Texture { usage: 0, primary_usage: 0 },
        },
    );
    let first = build_texture_barrier(&mut table, 5, false, 0).unwrap();
    assert!(matches!(first, VkBarrierTemplate::Image { old_usage: 0, new_usage: TEXTURE_USAGE_RENDER_TARGET, .. }));
    let second = build_texture_barrier(&mut table, 5, false, 1).unwrap();
    match second {
        VkBarrierTemplate::Image { old_usage, old_primary_usage, .. } => {
            assert_eq!(old_usage, TEXTURE_USAGE_RENDER_TARGET);
            assert_eq!(old_primary_usage, TEXTURE_USAGE_RENDER_TARGET);
        }
        VkBarrierTemplate::Buffer { .. } => panic!("a texture got a buffer barrier"),
    }
}
