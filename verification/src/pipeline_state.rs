//! The fixed function state of a graphics pipeline in Vulkan terms, from the
//! engine's description of it.
use vstd::prelude::*;
use crate::gpu::{InputRate, CompareFunc, StencilOp, LogicOp, BlendFactor, BlendOp};
use crate::graph_info::{Format, SampleCount};
use crate::vk_convert::{
    vk_format, vk_input_rate, vk_sample_count, vk_compare_op, vk_stencil_op, vk_blend_factor, vk_blend_op,
    vk_logic_op, vk_color_components, format_to_vk, input_rate_to_vk, samples_to_vk, compare_func_to_vk,
    stencil_op_to_vk, blend_factor_to_vk, blend_op_to_vk, logic_op_to_vk, color_components_to_vk,
};
use crate::vk_values as vk;

verus! {

#[derive(Clone, Copy, PartialEq, Eq, Structural, Debug)]
pub enum PrimitiveType {
    Triangles,
    TriangleStrip,
    Lines,
    LineStrip,
    Points,
}

#[derive(Clone, Copy, PartialEq, Eq, Structural, Debug)]
pub enum FillMode {
    Fill,
    Line,
}

#[derive(Clone, Copy, PartialEq, Eq, Structural, Debug)]
pub enum CullMode {
    Back,
    Front,
    NoCulling,
}

#[derive(Clone, Copy, PartialEq, Eq, Structural, Debug)]
pub enum FrontFace {
    Clockwise,
    CounterClockwise,
}

/// An input of the vertex shader: where it is read from and how.
#[derive(Clone, Copy, PartialEq, Eq, Structural, Debug)]
pub struct ShaderInputElement {
    pub location_vk_mtl: u32,
    pub input_assembler_binding: u32,
    pub format: Format,
    pub offset: usize,
}

/// A vertex buffer binding.
#[derive(Clone, Copy, PartialEq, Eq, Structural, Debug)]
pub struct InputAssemblerElement {
    pub binding: u32,
    pub stride: usize,
    pub input_rate: InputRate,
}

#[derive(Clone, Copy, PartialEq, Eq, Structural, Debug)]
pub struct StencilInfo {
    pub fail_op: StencilOp,
    pub depth_fail_op: StencilOp,
    pub pass_op: StencilOp,
    pub func: CompareFunc,
}

#[derive(Clone, Copy, PartialEq, Eq, Structural, Debug)]
pub struct DepthStencilInfo {
    pub depth_test_enabled: bool,
    pub depth_write_enabled: bool,
    pub depth_func: CompareFunc,
    pub stencil_enable: bool,
    pub stencil_read_mask: u8,
    pub stencil_write_mask: u8,
    pub stencil_front: StencilInfo,
    pub stencil_back: StencilInfo,
}

#[derive(Clone, Copy, PartialEq, Eq, Structural, Debug)]
pub struct RasterizerInfo {
    pub fill_mode: FillMode,
    pub cull_mode: CullMode,
    pub front_face: FrontFace,
    pub sample_count: SampleCount,
}

#[derive(Clone, Copy, PartialEq, Eq, Structural, Debug)]
pub struct AttachmentBlendInfo {
    pub blend_enabled: bool,
    pub src_color_blend_factor: BlendFactor,
    pub dst_color_blend_factor: BlendFactor,
    pub color_blend_op: BlendOp,
    pub src_alpha_blend_factor: BlendFactor,
    pub dst_alpha_blend_factor: BlendFactor,
    pub alpha_blend_op: BlendOp,
    pub write_mask: u32,
}

/// What the engine says of a graphics pipeline's fixed function state. The
/// blend constants are floats and pass through untouched.
#[derive(Clone, Debug)]
pub struct GraphicsPipelineInfo {
    pub shader_inputs: Vec<ShaderInputElement>,
    pub input_assembler: Vec<InputAssemblerElement>,
    pub primitive_type: PrimitiveType,
    pub rasterizer: RasterizerInfo,
    pub depth_stencil: DepthStencilInfo,
    pub alpha_to_coverage_enabled: bool,
    pub logic_op_enabled: bool,
    pub logic_op: LogicOp,
    pub attachments: Vec<AttachmentBlendInfo>,
    pub render_target_formats: Vec<Format>,
    pub depth_stencil_format: Format,
}

#[derive(Clone, Copy, PartialEq, Eq, Structural, Debug)]
pub struct VertexAttribute {
    pub location: u32,
    pub binding: u32,
    pub format: i32,
    pub offset: u32,
}

#[derive(Clone, Copy, PartialEq, Eq, Structural, Debug)]
pub struct VertexBinding {
    pub binding: u32,
    pub stride: u32,
    pub input_rate: i32,
}

#[derive(Clone, Copy, PartialEq, Eq, Structural, Debug)]
pub struct StencilOpState {
    pub fail_op: i32,
    pub pass_op: i32,
    pub depth_fail_op: i32,
    pub compare_op: i32,
    pub compare_mask: u32,
    pub write_mask: u32,
    pub reference: u32,
}

#[derive(Clone, Copy, PartialEq, Eq, Structural, Debug)]
pub struct DepthStencilState {
    pub depth_test_enable: bool,
    pub depth_write_enable: bool,
    pub depth_compare_op: i32,
    pub stencil_test_enable: bool,
    pub front: StencilOpState,
    pub back: StencilOpState,
}

#[derive(Clone, Copy, PartialEq, Eq, Structural, Debug)]
pub struct BlendAttachmentState {
    pub blend_enable: bool,
    pub src_color_blend_factor: i32,
    pub dst_color_blend_factor: i32,
    pub color_blend_op: i32,
    pub src_alpha_blend_factor: i32,
    pub dst_alpha_blend_factor: i32,
    pub alpha_blend_op: i32,
    pub color_write_mask: u32,
}

/// The fixed function state the pipeline is made with.
#[derive(Clone, Debug)]
pub struct GraphicsPipelineState {
    pub vertex_attributes: Vec<VertexAttribute>,
    pub vertex_bindings: Vec<VertexBinding>,
    pub topology: i32,
    pub polygon_mode: i32,
    pub cull_mode: u32,
    pub front_face: i32,
    pub rasterization_samples: u32,
    pub alpha_to_coverage_enable: bool,
    pub depth_stencil: DepthStencilState,
    pub blend_attachments: Vec<BlendAttachmentState>,
    pub logic_op_enable: bool,
    pub logic_op: i32,
    pub dynamic_states: Vec<i32>,
    pub color_attachment_formats: Vec<i32>,
    pub depth_attachment_format: i32,
    pub stencil_attachment_format: i32,
}

pub open spec fn vk_topology(p: PrimitiveType) -> i32 {
    match p {
        PrimitiveType::Triangles => vk::PRIMITIVE_TOPOLOGY_TRIANGLE_LIST,
        PrimitiveType::TriangleStrip => vk::PRIMITIVE_TOPOLOGY_TRIANGLE_STRIP,
        PrimitiveType::Lines => vk::PRIMITIVE_TOPOLOGY_LINE_LIST,
        PrimitiveType::LineStrip => vk::PRIMITIVE_TOPOLOGY_LINE_STRIP,
        PrimitiveType::Points => vk::PRIMITIVE_TOPOLOGY_POINT_LIST,
    }
}

pub open spec fn vk_polygon_mode(f: FillMode) -> i32 {
    match f {
        FillMode::Fill => vk::POLYGON_MODE_FILL,
        FillMode::Line => vk::POLYGON_MODE_LINE,
    }
}

pub open spec fn vk_cull_mode(c: CullMode) -> u32 {
    match c {
        CullMode::Back => vk::CULL_MODE_BACK,
        CullMode::Front => vk::CULL_MODE_FRONT,
        CullMode::NoCulling => vk::CULL_MODE_NONE,
    }
}

pub open spec fn vk_front_face(f: FrontFace) -> i32 {
    match f {
        FrontFace::Clockwise => vk::FRONT_FACE_CLOCKWISE,
        FrontFace::CounterClockwise => vk::FRONT_FACE_COUNTER_CLOCKWISE,
    }
}

/// The stencil state of one face: the masks are shared by both faces; the
/// reference is set while recording.
pub open spec fn vk_stencil_state(s: StencilInfo, read_mask: u8, write_mask: u8) -> StencilOpState {
    StencilOpState {
        fail_op: vk_stencil_op(s.fail_op),
        pass_op: vk_stencil_op(s.pass_op),
        depth_fail_op: vk_stencil_op(s.depth_fail_op),
        compare_op: vk_compare_op(s.func),
        compare_mask: read_mask as u32,
        write_mask: write_mask as u32,
        reference: 0,
    }
}

pub open spec fn vk_depth_stencil(d: DepthStencilInfo) -> DepthStencilState {
    DepthStencilState {
        depth_test_enable: d.depth_test_enabled,
        depth_write_enable: d.depth_write_enabled,
        depth_compare_op: vk_compare_op(d.depth_func),
        stencil_test_enable: d.stencil_enable,
        front: vk_stencil_state(d.stencil_front, d.stencil_read_mask, d.stencil_write_mask),
        back: vk_stencil_state(d.stencil_back, d.stencil_read_mask, d.stencil_write_mask),
    }
}

pub open spec fn vk_blend_attachment(b: AttachmentBlendInfo) -> BlendAttachmentState {
    BlendAttachmentState {
        blend_enable: b.blend_enabled,
        src_color_blend_factor: vk_blend_factor(b.src_color_blend_factor),
        dst_color_blend_factor: vk_blend_factor(b.dst_color_blend_factor),
        color_blend_op: vk_blend_op(b.color_blend_op),
        src_alpha_blend_factor: vk_blend_factor(b.src_alpha_blend_factor),
        dst_alpha_blend_factor: vk_blend_factor(b.dst_alpha_blend_factor),
        alpha_blend_op: vk_blend_op(b.alpha_blend_op),
        color_write_mask: vk_color_components(b.write_mask),
    }
}

pub open spec fn vk_vertex_attribute(e: ShaderInputElement) -> VertexAttribute {
    VertexAttribute {
        location: e.location_vk_mtl,
        binding: e.input_assembler_binding,
        format: vk_format(e.format, false),
        offset: e.offset as u32,
    }
}

pub open spec fn vk_vertex_binding(e: InputAssemblerElement) -> VertexBinding {
    VertexBinding { binding: e.binding, stride: e.stride as u32, input_rate: vk_input_rate(e.input_rate) }
}

/// The states that are set while recording: viewport, scissor and stencil
/// reference.
pub open spec fn dynamic_states() -> Seq<i32> {
    seq![vk::DYNAMIC_STATE_VIEWPORT, vk::DYNAMIC_STATE_SCISSOR, vk::DYNAMIC_STATE_STENCIL_REFERENCE]
}

fn stencil_state(s: StencilInfo, read_mask: u8, write_mask: u8) -> (r: StencilOpState)
    ensures
        r == vk_stencil_state(s, read_mask, write_mask),
{
    StencilOpState {
        fail_op: stencil_op_to_vk(s.fail_op),
        pass_op: stencil_op_to_vk(s.pass_op),
        depth_fail_op: stencil_op_to_vk(s.depth_fail_op),
        compare_op: compare_func_to_vk(s.func),
        compare_mask: read_mask as u32,
        write_mask: write_mask as u32,
        reference: 0,
    }
}

fn blend_attachment(b: AttachmentBlendInfo) -> (r: BlendAttachmentState)
    ensures
        r == vk_blend_attachment(b),
{
    BlendAttachmentState {
        blend_enable: b.blend_enabled,
        src_color_blend_factor: blend_factor_to_vk(b.src_color_blend_factor),
        dst_color_blend_factor: blend_factor_to_vk(b.dst_color_blend_factor),
        color_blend_op: blend_op_to_vk(b.color_blend_op),
        src_alpha_blend_factor: blend_factor_to_vk(b.src_alpha_blend_factor),
        dst_alpha_blend_factor: blend_factor_to_vk(b.dst_alpha_blend_factor),
        alpha_blend_op: blend_op_to_vk(b.alpha_blend_op),
        color_write_mask: color_components_to_vk(b.write_mask),
    }
}

/// The fixed function state of a graphics pipeline: every vertex input, vertex
/// buffer, blend attachment and render target in Vulkan terms, in order; the
/// rasterizer, multisampling and depth stencil state in Vulkan terms; the depth
/// and stencil attachment formats where the depth stencil format has depth or
/// stencil (24 bit depth as the device supports it), undefined otherwise.
pub fn graphics_pipeline_state(info: &GraphicsPipelineInfo, supports_d24: bool) -> (r: GraphicsPipelineState)
    ensures
        r.vertex_attributes@ == info.shader_inputs@.map_values(|e: ShaderInputElement| vk_vertex_attribute(e)),
        r.vertex_bindings@ == info.input_assembler@.map_values(|e: InputAssemblerElement| vk_vertex_binding(e)),
        r.topology == vk_topology(info.primitive_type),
        r.polygon_mode == vk_polygon_mode(info.rasterizer.fill_mode),
        r.cull_mode == vk_cull_mode(info.rasterizer.cull_mode),
        r.front_face == vk_front_face(info.rasterizer.front_face),
        r.rasterization_samples == vk_sample_count(info.rasterizer.sample_count),
        r.alpha_to_coverage_enable == info.alpha_to_coverage_enabled,
        r.depth_stencil == vk_depth_stencil(info.depth_stencil),
        r.blend_attachments@ == info.attachments@.map_values(|b: AttachmentBlendInfo| vk_blend_attachment(b)),
        r.logic_op_enable == info.logic_op_enabled,
        r.logic_op == vk_logic_op(info.logic_op),
        r.dynamic_states@ == dynamic_states(),
        r.color_attachment_formats@ == info.render_target_formats@.map_values(|f: Format| vk_format(f, false)),
        r.depth_attachment_format == if info.depth_stencil_format.spec_is_depth() {
            vk_format(info.depth_stencil_format, supports_d24)
        } else {
            vk::FORMAT_UNDEFINED
        },
        r.stencil_attachment_format == if info.depth_stencil_format.spec_is_stencil() {
            vk_format(info.depth_stencil_format, supports_d24)
        } else {
            vk::FORMAT_UNDEFINED
        },
{
    let mut vertex_attributes: Vec<VertexAttribute> = Vec::new();
    let mut i: usize = 0;
    while i < info.shader_inputs.len()
        invariant
            i <= info.shader_inputs.len(),
            vertex_attributes@ == info.shader_inputs@.take(i as int).map_values(|e: ShaderInputElement| vk_vertex_attribute(e)),
        decreases info.shader_inputs.len() - i,
    {
        let e = info.shader_inputs[i];
        vertex_attributes.push(
            VertexAttribute {
                location: e.location_vk_mtl,
                binding: e.input_assembler_binding,
                format: format_to_vk(e.format, false),
                offset: e.offset as u32,
            },
        );
        assert(info.shader_inputs@.take(i as int + 1) =~= info.shader_inputs@.take(i as int).push(e));
        i = i + 1;
    }
    assert(info.shader_inputs@.take(info.shader_inputs.len() as int) =~= info.shader_inputs@);
    let mut vertex_bindings: Vec<VertexBinding> = Vec::new();
    let mut i: usize = 0;
    while i < info.input_assembler.len()
        invariant
            i <= info.input_assembler.len(),
            vertex_bindings@ == info.input_assembler@.take(i as int).map_values(|e: InputAssemblerElement| vk_vertex_binding(e)),
        decreases info.input_assembler.len() - i,
    {
        let e = info.input_assembler[i];
        vertex_bindings.push(
            VertexBinding { binding: e.binding, stride: e.stride as u32, input_rate: input_rate_to_vk(e.input_rate) },
        );
        assert(info.input_assembler@.take(i as int + 1) =~= info.input_assembler@.take(i as int).push(e));
        i = i + 1;
    }
    assert(info.input_assembler@.take(info.input_assembler.len() as int) =~= info.input_assembler@);
    let mut blend_attachments: Vec<BlendAttachmentState> = Vec::new();
    let mut i: usize = 0;
    while i < info.attachments.len()
        invariant
            i <= info.attachments.len(),
            blend_attachments@ == info.attachments@.take(i as int).map_values(|b: AttachmentBlendInfo| vk_blend_attachment(b)),
        decreases info.attachments.len() - i,
    {
        let b = info.attachments[i];
        blend_attachments.push(blend_attachment(b));
        assert(info.attachments@.take(i as int + 1) =~= info.attachments@.take(i as int).push(b));
        i = i + 1;
    }
    assert(info.attachments@.take(info.attachments.len() as int) =~= info.attachments@);
    let mut color_attachment_formats: Vec<i32> = Vec::new();
    let mut i: usize = 0;
    while i < info.render_target_formats.len()
        invariant
            i <= info.render_target_formats.len(),
            color_attachment_formats@ == info.render_target_formats@.take(i as int).map_values(|f: Format| vk_format(f, false)),
        decreases info.render_target_formats.len() - i,
    {
        let f = info.render_target_formats[i];
        color_attachment_formats.push(format_to_vk(f, false));
        assert(info.render_target_formats@.take(i as int + 1) =~= info.render_target_formats@.take(i as int).push(f));
        i = i + 1;
    }
    assert(info.render_target_formats@.take(info.render_target_formats.len() as int) =~= info.render_target_formats@);
    let mut dynamic: Vec<i32> = Vec::new();
    dynamic.push(vk::DYNAMIC_STATE_VIEWPORT);
    dynamic.push(vk::DYNAMIC_STATE_SCISSOR);
    dynamic.push(vk::DYNAMIC_STATE_STENCIL_REFERENCE);
    assert(dynamic@ =~= dynamic_states());
    let d = info.depth_stencil;
    let dsv_format = format_to_vk(info.depth_stencil_format, supports_d24);
    GraphicsPipelineState {
        vertex_attributes,
        vertex_bindings,
        topology: match info.primitive_type {
            PrimitiveType::Triangles => vk::PRIMITIVE_TOPOLOGY_TRIANGLE_LIST,
            PrimitiveType::TriangleStrip => vk::PRIMITIVE_TOPOLOGY_TRIANGLE_STRIP,
            PrimitiveType::Lines => vk::PRIMITIVE_TOPOLOGY_LINE_LIST,
            PrimitiveType::LineStrip => vk::PRIMITIVE_TOPOLOGY_LINE_STRIP,
            PrimitiveType::Points => vk::PRIMITIVE_TOPOLOGY_POINT_LIST,
        },
        polygon_mode: match info.rasterizer.fill_mode {
            FillMode::Fill => vk::POLYGON_MODE_FILL,
            FillMode::Line => vk::POLYGON_MODE_LINE,
        },
        cull_mode: match info.rasterizer.cull_mode {
            CullMode::Back => vk::CULL_MODE_BACK,
            CullMode::Front => vk::CULL_MODE_FRONT,
            CullMode::NoCulling => vk::CULL_MODE_NONE,
        },
        front_face: match info.rasterizer.front_face {
            FrontFace::Clockwise => vk::FRONT_FACE_CLOCKWISE,
            FrontFace::CounterClockwise => vk::FRONT_FACE_COUNTER_CLOCKWISE,
        },
        rasterization_samples: samples_to_vk(info.rasterizer.sample_count),
        alpha_to_coverage_enable: info.alpha_to_coverage_enabled,
        depth_stencil: DepthStencilState {
            depth_test_enable: d.depth_test_enabled,
            depth_write_enable: d.depth_write_enabled,
            depth_compare_op: compare_func_to_vk(d.depth_func),
            stencil_test_enable: d.stencil_enable,
            front: stencil_state(d.stencil_front, d.stencil_read_mask, d.stencil_write_mask),
            back: stencil_state(d.stencil_back, d.stencil_read_mask, d.stencil_write_mask),
        },
        blend_attachments,
        logic_op_enable: info.logic_op_enabled,
        logic_op: logic_op_to_vk(info.logic_op),
        dynamic_states: dynamic,
        color_attachment_formats,
        depth_attachment_format: if info.depth_stencil_format.is_depth() { dsv_format } else { vk::FORMAT_UNDEFINED },
        stencil_attachment_format: if info.depth_stencil_format.is_stencil() {
            dsv_format
        } else {
            vk::FORMAT_UNDEFINED
        },
    }
}

} // verus!
