//! The choices made when a logical device is created on an adapter: which
//! extensions it has, which queue families it uses, which features it turns on
//! and which stages and accesses its barriers may name.
use vstd::prelude::*;
use crate::gpu::AdapterType;
use crate::pipeline_layout::BINDLESS_TEXTURE_COUNT;
use crate::vk_values as vk;

verus! {

// Device extensions that the backend knows.
pub const EXTENSION_NONE: u32 = 0b0u32;
pub const EXTENSION_SWAPCHAIN: u32 = 0b1u32;
pub const EXTENSION_MEMORY_BUDGET: u32 = 0b10u32;
pub const EXTENSION_ACCELERATION_STRUCTURE: u32 = 0b1000000u32;
pub const EXTENSION_DEFERRED_HOST_OPERATIONS: u32 = 0b100000000u32;
pub const EXTENSION_RAY_TRACING_PIPELINE: u32 = 0b1000000000u32;
pub const EXTENSION_RAY_QUERY: u32 = 0b10000000000u32;
pub const EXTENSION_PIPELINE_LIBRARY: u32 = 0b100000000000u32;
pub const EXTENSION_HOST_IMAGE_COPY: u32 = 0b1000000000000u32;
pub const EXTENSION_MESH_SHADER: u32 = 0b10000000000000u32;
pub const EXTENSION_BARYCENTRICS: u32 = 0b1000000000000000000u32;

/// A device extension the backend enables.
#[derive(Clone, Copy, PartialEq, Eq, Structural, Debug)]
pub enum DeviceExtension {
    Swapchain,
    MemoryBudget,
    AccelerationStructure,
    DeferredHostOperations,
    RayTracingPipeline,
    RayQuery,
    PipelineLibrary,
    HostImageCopy,
    Barycentrics,
    MeshShader,
}

/// The flag of an extension the device reports, by its name.
pub open spec fn extension_flag(name: Seq<char>) -> u32 {
    if name == "VK_KHR_swapchain"@ {
        EXTENSION_SWAPCHAIN
    } else if name == "VK_EXT_memory_budget"@ {
        EXTENSION_MEMORY_BUDGET
    } else if name == "VK_KHR_acceleration_structure"@ {
        EXTENSION_ACCELERATION_STRUCTURE
    } else if name == "VK_KHR_pipeline_library"@ {
        EXTENSION_PIPELINE_LIBRARY
    } else if name == "VK_KHR_ray_query"@ {
        EXTENSION_RAY_QUERY
    } else if name == "VK_KHR_ray_tracing_pipeline"@ {
        EXTENSION_RAY_TRACING_PIPELINE
    } else if name == "VK_KHR_deferred_host_operations"@ {
        EXTENSION_DEFERRED_HOST_OPERATIONS
    } else if name == "VK_KHR_fragment_shader_barycentric"@ {
        EXTENSION_BARYCENTRICS
    } else if name == "VK_EXT_msh_shader"@ {
        EXTENSION_MESH_SHADER
    } else if name == "VK_EXT_host_image_copy"@ {
        EXTENSION_HOST_IMAGE_COPY
    } else {
        EXTENSION_NONE
    }
}

/// The name of an extension, as the device is asked for it.
pub open spec fn extension_name(e: DeviceExtension) -> Seq<char> {
    match e {
        DeviceExtension::Swapchain => "VK_KHR_swapchain"@,
        DeviceExtension::MemoryBudget => "VK_EXT_memory_budget"@,
        DeviceExtension::AccelerationStructure => "VK_KHR_acceleration_structure"@,
        DeviceExtension::DeferredHostOperations => "VK_KHR_deferred_host_operations"@,
        DeviceExtension::RayTracingPipeline => "VK_KHR_ray_tracing_pipeline"@,
        DeviceExtension::RayQuery => "VK_KHR_ray_query"@,
        DeviceExtension::PipelineLibrary => "VK_KHR_pipeline_library"@,
        DeviceExtension::HostImageCopy => "VK_EXT_host_image_copy"@,
        DeviceExtension::Barycentrics => "VK_KHR_fragment_shader_barycentric"@,
        DeviceExtension::MeshShader => "VK_EXT_msh_shader"@,
    }
}

pub fn extension_name_of(e: DeviceExtension) -> (r: String)
    ensures
        r@ == extension_name(e),
{
    match e {
        DeviceExtension::Swapchain => "VK_KHR_swapchain".to_owned(),
        DeviceExtension::MemoryBudget => "VK_EXT_memory_budget".to_owned(),
        DeviceExtension::AccelerationStructure => "VK_KHR_acceleration_structure".to_owned(),
        DeviceExtension::DeferredHostOperations => "VK_KHR_deferred_host_operations".to_owned(),
        DeviceExtension::RayTracingPipeline => "VK_KHR_ray_tracing_pipeline".to_owned(),
        DeviceExtension::RayQuery => "VK_KHR_ray_query".to_owned(),
        DeviceExtension::PipelineLibrary => "VK_KHR_pipeline_library".to_owned(),
        DeviceExtension::HostImageCopy => "VK_EXT_host_image_copy".to_owned(),
        DeviceExtension::Barycentrics => "VK_KHR_fragment_shader_barycentric".to_owned(),
        DeviceExtension::MeshShader => "VK_EXT_msh_shader".to_owned(),
    }
}

/// The flag of an extension the device reports, by its name.
pub fn extension_support_from_name(name: &String) -> (r: u32)
    ensures
        r == extension_flag(name@),
{
    if *name == "VK_KHR_swapchain".to_owned() {
        EXTENSION_SWAPCHAIN
    } else if *name == "VK_EXT_memory_budget".to_owned() {
        EXTENSION_MEMORY_BUDGET
    } else if *name == "VK_KHR_acceleration_structure".to_owned() {
        EXTENSION_ACCELERATION_STRUCTURE
    } else if *name == "VK_KHR_pipeline_library".to_owned() {
        EXTENSION_PIPELINE_LIBRARY
    } else if *name == "VK_KHR_ray_query".to_owned() {
        EXTENSION_RAY_QUERY
    } else if *name == "VK_KHR_ray_tracing_pipeline".to_owned() {
        EXTENSION_RAY_TRACING_PIPELINE
    } else if *name == "VK_KHR_deferred_host_operations".to_owned() {
        EXTENSION_DEFERRED_HOST_OPERATIONS
    } else if *name == "VK_KHR_fragment_shader_barycentric".to_owned() {
        EXTENSION_BARYCENTRICS
    } else if *name == "VK_EXT_msh_shader".to_owned() {
        EXTENSION_MESH_SHADER
    } else if *name == "VK_EXT_host_image_copy".to_owned() {
        EXTENSION_HOST_IMAGE_COPY
    } else {
        EXTENSION_NONE
    }
}

/// The extensions among the first `n` names the device reports.
pub open spec fn extensions_upto(names: Seq<Seq<char>>, n: int) -> u32
    decreases n,
{
    if n <= 0 {
        EXTENSION_NONE
    } else {
        extensions_upto(names, n - 1) | extension_flag(names[n - 1])
    }
}

/// The extensions the backend knows among those the device reports.
pub fn extension_support(names: &Vec<String>) -> (r: u32)
    ensures
        r == extensions_upto(names@.map_values(|s: String| s@), names.len() as int),
{
    let ghost views = names@.map_values(|s: String| s@);
    let mut extensions: u32 = EXTENSION_NONE;
    let mut i: usize = 0;
    while i < names.len()
        invariant
            i <= names.len(),
            views == names@.map_values(|s: String| s@),
            extensions == extensions_upto(views, i as int),
        decreases names.len() - i,
    {
        extensions = extensions | extension_support_from_name(&names[i]);
        i = i + 1;
    }
    extensions
}

/// A queue family of the adapter.
#[derive(Clone, Copy, PartialEq, Eq, Structural, Debug)]
pub struct QueueFamilyProperties {
    pub queue_flags: u32,
    pub queue_count: u32,
}

pub open spec fn has_queue_flag(p: QueueFamilyProperties, flag: u32) -> bool {
    p.queue_flags & flag == flag
}

/// A family with graphics queues.
pub open spec fn is_graphics_family(p: QueueFamilyProperties) -> bool {
    p.queue_count > 0 && has_queue_flag(p, vk::QUEUE_GRAPHICS)
}

/// A family with compute queues and no graphics: one meant for compute work.
pub open spec fn is_compute_family(p: QueueFamilyProperties) -> bool {
    p.queue_count > 0 && has_queue_flag(p, vk::QUEUE_COMPUTE) && !has_queue_flag(p, vk::QUEUE_GRAPHICS)
}

/// A family with transfer queues and neither compute nor graphics: one meant
/// for copies.
pub open spec fn is_transfer_family(p: QueueFamilyProperties) -> bool {
    p.queue_count > 0 && has_queue_flag(p, vk::QUEUE_TRANSFER) && !has_queue_flag(p, vk::QUEUE_COMPUTE)
        && !has_queue_flag(p, vk::QUEUE_GRAPHICS)
}

/// The kinds of queue families the device uses.
#[derive(Clone, Copy, PartialEq, Eq, Structural, Debug)]
pub enum FamilyKind {
    Graphics,
    Compute,
    Transfer,
}

pub open spec fn family_is(kind: FamilyKind, p: QueueFamilyProperties) -> bool {
    match kind {
        FamilyKind::Graphics => is_graphics_family(p),
        FamilyKind::Compute => is_compute_family(p),
        FamilyKind::Transfer => is_transfer_family(p),
    }
}

/// The first family of a kind from position `i` on.
pub open spec fn first_family(props: Seq<QueueFamilyProperties>, kind: FamilyKind, i: int) -> Option<int>
    decreases props.len() - i,
{
    if i < 0 || i >= props.len() {
        None
    } else if family_is(kind, props[i]) {
        Some(i)
    } else {
        first_family(props, kind, i + 1)
    }
}

/// The first family of a kind.
pub fn find_queue_family(props: &Vec<QueueFamilyProperties>, kind: FamilyKind) -> (r: Option<usize>)
    ensures
        match r {
            Some(i) => first_family(props@, kind, 0) == Some(i as int),
            None => first_family(props@, kind, 0) is None,
        },
{
    let mut i: usize = 0;
    while i < props.len()
        invariant
            i <= props.len(),
            first_family(props@, kind, 0) == first_family(props@, kind, i as int),
        decreases props.len() - i,
    {
        let p = props[i];
        let matches = match kind {
            FamilyKind::Graphics => p.queue_count > 0 && p.queue_flags & vk::QUEUE_GRAPHICS == vk::QUEUE_GRAPHICS,
            FamilyKind::Compute => p.queue_count > 0 && p.queue_flags & vk::QUEUE_COMPUTE == vk::QUEUE_COMPUTE
                && p.queue_flags & vk::QUEUE_GRAPHICS != vk::QUEUE_GRAPHICS,
            FamilyKind::Transfer => p.queue_count > 0 && p.queue_flags & vk::QUEUE_TRANSFER == vk::QUEUE_TRANSFER
                && p.queue_flags & vk::QUEUE_COMPUTE != vk::QUEUE_COMPUTE && p.queue_flags & vk::QUEUE_GRAPHICS
                != vk::QUEUE_GRAPHICS,
        };
        if matches {
            return Some(i);
        }
        i = i + 1;
    }
    None
}

/// The queue families the device is made with: the first graphics family, and
/// the first families meant only for compute and only for copies, where the
/// adapter has them.
#[derive(Clone, Copy, PartialEq, Eq, Structural, Debug)]
pub struct QueueFamilySelection {
    pub graphics: usize,
    pub compute: Option<usize>,
    pub transfer: Option<usize>,
}

/// Picks the queue families; every Vulkan device with a use here has a
/// graphics family.
pub fn select_queue_families(props: &Vec<QueueFamilyProperties>) -> (r: QueueFamilySelection)
    requires
        first_family(props@, FamilyKind::Graphics, 0) is Some,
    ensures
        first_family(props@, FamilyKind::Graphics, 0) == Some(r.graphics as int),
        match r.compute {
            Some(i) => first_family(props@, FamilyKind::Compute, 0) == Some(i as int),
            None => first_family(props@, FamilyKind::Compute, 0) is None,
        },
        match r.transfer {
            Some(i) => first_family(props@, FamilyKind::Transfer, 0) == Some(i as int),
            None => first_family(props@, FamilyKind::Transfer, 0) is None,
        },
{
    let graphics = find_queue_family(props, FamilyKind::Graphics);
    let compute = find_queue_family(props, FamilyKind::Compute);
    let transfer = find_queue_family(props, FamilyKind::Transfer);
    QueueFamilySelection { graphics: graphics.unwrap(), compute, transfer }
}

/// A queue the device is made with: its family, and whether it runs at the
/// lower priority of copies.
#[derive(Clone, Copy, PartialEq, Eq, Structural, Debug)]
pub struct QueueCreateInfo {
    pub queue_family_index: u32,
    pub low_priority: bool,
}

/// One queue of each selected family: graphics, then compute, then transfer at
/// a lower priority.
pub open spec fn queue_create_list(s: QueueFamilySelection) -> Seq<QueueCreateInfo> {
    let q = seq![QueueCreateInfo { queue_family_index: s.graphics as u32, low_priority: false }];
    let q = match s.compute {
        Some(i) => q.push(QueueCreateInfo { queue_family_index: i as u32, low_priority: false }),
        None => q,
    };
    match s.transfer {
        Some(i) => q.push(QueueCreateInfo { queue_family_index: i as u32, low_priority: true }),
        None => q,
    }
}

pub fn queue_create_infos(s: &QueueFamilySelection) -> (r: Vec<QueueCreateInfo>)
    ensures
        r@ == queue_create_list(*s),
{
    let mut r: Vec<QueueCreateInfo> = Vec::new();
    r.push(QueueCreateInfo { queue_family_index: s.graphics as u32, low_priority: false });
    match s.compute {
        Some(i) => {
            r.push(QueueCreateInfo { queue_family_index: i as u32, low_priority: false });
        },
        None => {},
    }
    match s.transfer {
        Some(i) => {
            r.push(QueueCreateInfo { queue_family_index: i as u32, low_priority: true });
        },
        None => {},
    }
    assert(r@ =~= queue_create_list(*s));
    r
}

/// What the adapter reports of its features and limits. Features of an
/// extension are only asked for where the adapter has the extension.
#[derive(Clone, Copy, PartialEq, Eq, Structural, Debug)]
pub struct SupportedFeatures {
    pub shader_storage_image_write_without_format: bool,
    pub shader_int16: bool,
    pub storage_buffer_16bit_access: bool,
    pub draw_indirect_first_instance: bool,
    pub multi_draw_indirect: bool,
    pub host_query_reset: bool,
    pub shader_sampled_image_array_non_uniform_indexing: bool,
    pub descriptor_binding_sampled_image_update_after_bind: bool,
    pub descriptor_binding_variable_descriptor_count: bool,
    pub runtime_descriptor_array: bool,
    pub descriptor_binding_partially_bound: bool,
    pub descriptor_binding_update_unused_while_pending: bool,
    pub shader_sampled_image_array_non_uniform_indexing_native: bool,
    pub max_descriptor_set_update_after_bind_sampled_images: u32,
    pub buffer_device_address: bool,
    pub draw_indirect_count: bool,
    pub sampler_filter_minmax: bool,
    pub filter_minmax_single_component_formats: bool,
    pub timeline_semaphore: bool,
    pub dynamic_rendering: bool,
    pub synchronization2: bool,
    pub maintenance4: bool,
    pub acceleration_structure: bool,
    pub ray_tracing_pipeline: bool,
    pub ray_query: bool,
    pub fragment_shader_barycentric: bool,
    pub host_image_copy: bool,
    pub mesh_shader: bool,
    pub task_shader: bool,
}

/// What the device is made with and what it can then do.
#[derive(Clone, Debug)]
pub struct DevicePlan {
    pub extensions: Vec<DeviceExtension>,
    pub shader_int16: bool,
    pub storage_buffer_16bit_access: bool,
    pub sampler_anisotropy: bool,
    pub geometry_shader: bool,
    pub descriptor_indexing: bool,
    pub buffer_device_address: bool,
    pub acceleration_structure: bool,
    pub ray_tracing_pipeline: bool,
    pub ray_query: bool,
    pub draw_indirect_first_instance: bool,
    pub multi_draw_indirect: bool,
    pub draw_indirect_count: bool,
    pub sampler_filter_minmax: bool,
    pub maintenance4: bool,
    pub fragment_shader_barycentric: bool,
    pub host_image_copy: bool,
    pub mesh_shader: bool,
    pub task_shader: bool,
    pub memory_budget: bool,
    pub supported_shader_stages: u32,
    pub supported_pipeline_stages: u64,
    pub supported_access_flags: u64,
}

pub open spec fn has_ext(extensions: u32, flag: u32) -> bool {
    extensions & flag == flag
}

/// The features of an extension, as the adapter reports them: none where the
/// adapter lacks the extension.
pub open spec fn effective_features(extensions: u32, f: SupportedFeatures) -> SupportedFeatures {
    SupportedFeatures {
        acceleration_structure: f.acceleration_structure && has_ext(extensions, EXTENSION_ACCELERATION_STRUCTURE),
        ray_tracing_pipeline: f.ray_tracing_pipeline && has_ext(extensions, EXTENSION_RAY_TRACING_PIPELINE),
        ray_query: f.ray_query && has_ext(extensions, EXTENSION_RAY_QUERY),
        fragment_shader_barycentric: f.fragment_shader_barycentric && has_ext(extensions, EXTENSION_BARYCENTRICS),
        host_image_copy: f.host_image_copy && has_ext(extensions, EXTENSION_HOST_IMAGE_COPY),
        mesh_shader: f.mesh_shader && has_ext(extensions, EXTENSION_MESH_SHADER),
        task_shader: f.task_shader && has_ext(extensions, EXTENSION_MESH_SHADER),
        ..f
    }
}

/// The device can hold the bindless texture set.
pub open spec fn supports_descriptor_indexing(f: SupportedFeatures) -> bool {
    &&& f.shader_sampled_image_array_non_uniform_indexing
    &&& f.descriptor_binding_sampled_image_update_after_bind
    &&& f.descriptor_binding_variable_descriptor_count
    &&& f.runtime_descriptor_array
    &&& f.descriptor_binding_partially_bound
    &&& f.descriptor_binding_update_unused_while_pending
    &&& f.shader_sampled_image_array_non_uniform_indexing_native
    &&& f.max_descriptor_set_update_after_bind_sampled_images > BINDLESS_TEXTURE_COUNT
}

/// The device runs ray tracing pipelines.
pub open spec fn supports_rt_pipeline(extensions: u32, f: SupportedFeatures) -> bool {
    let e = effective_features(extensions, f);
    &&& has_ext(
        extensions,
        EXTENSION_ACCELERATION_STRUCTURE | EXTENSION_RAY_TRACING_PIPELINE | EXTENSION_PIPELINE_LIBRARY,
    )
    &&& e.acceleration_structure
    &&& e.ray_tracing_pipeline
    &&& f.buffer_device_address
}

/// The device answers ray queries from shaders.
pub open spec fn supports_rt_query(extensions: u32, f: SupportedFeatures) -> bool {
    let e = effective_features(extensions, f);
    &&& supports_descriptor_indexing(f)
    &&& has_ext(extensions, EXTENSION_ACCELERATION_STRUCTURE | EXTENSION_RAY_QUERY)
    &&& e.ray_query
    &&& f.buffer_device_address
}

/// The features the backend cannot run without.
pub open spec fn has_required_features(f: SupportedFeatures) -> bool {
    &&& f.shader_storage_image_write_without_format
    &&& f.dynamic_rendering
    &&& f.host_query_reset
    &&& f.synchronization2
    &&& f.timeline_semaphore
}

/// The extensions the device is made with, in the order they are asked for.
pub open spec fn device_extensions(extensions: u32, f: SupportedFeatures) -> Seq<DeviceExtension> {
    let e = effective_features(extensions, f);
    let rt_pipeline = supports_rt_pipeline(extensions, f);
    let rt_query = supports_rt_query(extensions, f);
    let s = seq![DeviceExtension::Swapchain];
    let s = if has_ext(extensions, EXTENSION_MEMORY_BUDGET) { s.push(DeviceExtension::MemoryBudget) } else { s };
    let s = if rt_pipeline || rt_query { s.push(DeviceExtension::AccelerationStructure) } else { s };
    let s = if rt_pipeline {
        let s = s.push(DeviceExtension::RayTracingPipeline);
        let s = if has_ext(extensions, EXTENSION_DEFERRED_HOST_OPERATIONS) {
            s.push(DeviceExtension::DeferredHostOperations)
        } else {
            s
        };
        s.push(DeviceExtension::PipelineLibrary)
    } else {
        s
    };
    let s = if rt_query { s.push(DeviceExtension::RayQuery) } else { s };
    let s = if e.fragment_shader_barycentric { s.push(DeviceExtension::Barycentrics) } else { s };
    let s = if e.host_image_copy { s.push(DeviceExtension::HostImageCopy) } else { s };
    let s = if e.mesh_shader && e.task_shader { s.push(DeviceExtension::MeshShader) } else { s };
    s
}

/// The pipeline stages that any device has.
pub open spec fn base_pipeline_stages() -> u64 {
    vk::PIPELINE_STAGE2_VERTEX_INPUT | vk::PIPELINE_STAGE2_VERTEX_SHADER | vk::PIPELINE_STAGE2_FRAGMENT_SHADER
        | vk::PIPELINE_STAGE2_BLIT | vk::PIPELINE_STAGE2_CLEAR | vk::PIPELINE_STAGE2_COPY | vk::PIPELINE_STAGE2_RESOLVE
        | vk::PIPELINE_STAGE2_HOST | vk::PIPELINE_STAGE2_TRANSFER | vk::PIPELINE_STAGE2_COLOR_ATTACHMENT_OUTPUT
        | vk::PIPELINE_STAGE2_EARLY_FRAGMENT_TESTS | vk::PIPELINE_STAGE2_LATE_FRAGMENT_TESTS
        | vk::PIPELINE_STAGE2_CONDITIONAL_RENDERING_EXT | vk::PIPELINE_STAGE2_DRAW_INDIRECT
        | vk::PIPELINE_STAGE2_COMPUTE_SHADER
}

/// The accesses that any device has.
pub open spec fn base_access_flags() -> u64 {
    vk::ACCESS2_SHADER_READ | vk::ACCESS2_SHADER_WRITE | vk::ACCESS2_INDIRECT_COMMAND_READ
        | vk::ACCESS2_COLOR_ATTACHMENT_READ | vk::ACCESS2_COLOR_ATTACHMENT_WRITE
        | vk::ACCESS2_DEPTH_STENCIL_ATTACHMENT_READ | vk::ACCESS2_DEPTH_STENCIL_ATTACHMENT_WRITE
        | vk::ACCESS2_VERTEX_ATTRIBUTE_READ | vk::ACCESS2_TRANSFER_READ | vk::ACCESS2_TRANSFER_WRITE
        | vk::ACCESS2_SHADER_STORAGE_READ | vk::ACCESS2_SHADER_STORAGE_WRITE | vk::ACCESS2_INDEX_READ
        | vk::ACCESS2_UNIFORM_READ | vk::ACCESS2_HOST_READ | vk::ACCESS2_HOST_WRITE
        | vk::ACCESS2_SHADER_SAMPLED_READ
}

fn push_if(v: &mut Vec<DeviceExtension>, cond: bool, e: DeviceExtension)
    ensures
        final(v)@ == if cond { old(v)@.push(e) } else { old(v)@ },
{
    if cond {
        v.push(e);
    }
}

fn has_extension(extensions: u32, flag: u32) -> (b: bool)
    ensures
        b == has_ext(extensions, flag),
{
    extensions & flag == flag
}

fn effective_features_exec(extensions: u32, f: &SupportedFeatures) -> (r: SupportedFeatures)
    ensures
        r == effective_features(extensions, *f),
{
    SupportedFeatures {
        acceleration_structure: f.acceleration_structure && has_extension(extensions, EXTENSION_ACCELERATION_STRUCTURE),
        ray_tracing_pipeline: f.ray_tracing_pipeline && has_extension(extensions, EXTENSION_RAY_TRACING_PIPELINE),
        ray_query: f.ray_query && has_extension(extensions, EXTENSION_RAY_QUERY),
        fragment_shader_barycentric: f.fragment_shader_barycentric && has_extension(extensions, EXTENSION_BARYCENTRICS),
        host_image_copy: f.host_image_copy && has_extension(extensions, EXTENSION_HOST_IMAGE_COPY),
        mesh_shader: f.mesh_shader && has_extension(extensions, EXTENSION_MESH_SHADER),
        task_shader: f.task_shader && has_extension(extensions, EXTENSION_MESH_SHADER),
        ..*f
    }
}

fn descriptor_indexing_exec(f: &SupportedFeatures) -> (b: bool)
    ensures
        b == supports_descriptor_indexing(*f),
{
    f.shader_sampled_image_array_non_uniform_indexing && f.descriptor_binding_sampled_image_update_after_bind
        && f.descriptor_binding_variable_descriptor_count && f.runtime_descriptor_array
        && f.descriptor_binding_partially_bound && f.descriptor_binding_update_unused_while_pending
        && f.shader_sampled_image_array_non_uniform_indexing_native
        && f.max_descriptor_set_update_after_bind_sampled_images > BINDLESS_TEXTURE_COUNT
}

fn rt_pipeline_exec(extensions: u32, f: &SupportedFeatures) -> (b: bool)
    ensures
        b == supports_rt_pipeline(extensions, *f),
{
    let e = effective_features_exec(extensions, f);
    has_extension(extensions, EXTENSION_ACCELERATION_STRUCTURE | EXTENSION_RAY_TRACING_PIPELINE | EXTENSION_PIPELINE_LIBRARY)
        && e.acceleration_structure && e.ray_tracing_pipeline && f.buffer_device_address
}

fn rt_query_exec(extensions: u32, f: &SupportedFeatures) -> (b: bool)
    ensures
        b == supports_rt_query(extensions, *f),
{
    let e = effective_features_exec(extensions, f);
    descriptor_indexing_exec(f) && has_extension(extensions, EXTENSION_ACCELERATION_STRUCTURE | EXTENSION_RAY_QUERY)
        && e.ray_query && f.buffer_device_address
}

/// The extensions the device is made with, in the order they are asked for.
pub fn device_extension_list(extensions: u32, f: &SupportedFeatures) -> (r: Vec<DeviceExtension>)
    ensures
        r@ == device_extensions(extensions, *f),
{
    let e = effective_features_exec(extensions, f);
    let rt_pipeline = rt_pipeline_exec(extensions, f);
    let rt_query = rt_query_exec(extensions, f);
    let mut names: Vec<DeviceExtension> = Vec::new();
    names.push(DeviceExtension::Swapchain);
    push_if(&mut names, has_extension(extensions, EXTENSION_MEMORY_BUDGET), DeviceExtension::MemoryBudget);
    push_if(&mut names, rt_pipeline || rt_query, DeviceExtension::AccelerationStructure);
    if rt_pipeline {
        names.push(DeviceExtension::RayTracingPipeline);
        push_if(
            &mut names,
            has_extension(extensions, EXTENSION_DEFERRED_HOST_OPERATIONS),
            DeviceExtension::DeferredHostOperations,
        );
        names.push(DeviceExtension::PipelineLibrary);
    }
    push_if(&mut names, rt_query, DeviceExtension::RayQuery);
    push_if(&mut names, e.fragment_shader_barycentric, DeviceExtension::Barycentrics);
    push_if(&mut names, e.host_image_copy, DeviceExtension::HostImageCopy);
    push_if(&mut names, e.mesh_shader && e.task_shader, DeviceExtension::MeshShader);
    assert(names@ =~= device_extensions(extensions, *f));
    names
}

/// The shader stages of a device.
pub open spec fn shader_stages_for(rt_pipeline: bool, mesh: bool) -> u32 {
    let s = vk::SHADER_STAGE_COMPUTE | vk::SHADER_STAGE_VERTEX | vk::SHADER_STAGE_FRAGMENT;
    let s = if rt_pipeline {
        s | (vk::SHADER_STAGE_RAYGEN_KHR | vk::SHADER_STAGE_INTERSECTION_KHR | vk::SHADER_STAGE_ANY_HIT_KHR
            | vk::SHADER_STAGE_CLOSEST_HIT_KHR | vk::SHADER_STAGE_MISS_KHR)
    } else {
        s
    };
    let s = if mesh { s | vk::SHADER_STAGE_MESH_EXT } else { s };
    if mesh { s | vk::SHADER_STAGE_TASK_EXT } else { s }
}

/// The pipeline stages of a device.
pub open spec fn pipeline_stages_for(rt_pipeline: bool, rt_query: bool, mesh: bool) -> u64 {
    let s = base_pipeline_stages();
    let s = if rt_pipeline || rt_query {
        s | (vk::PIPELINE_STAGE2_ACCELERATION_STRUCTURE_BUILD_KHR | vk::PIPELINE_STAGE2_ACCELERATION_STRUCTURE_COPY_KHR)
    } else {
        s
    };
    let s = if rt_pipeline { s | vk::PIPELINE_STAGE2_RAY_TRACING_SHADER_KHR } else { s };
    let s = if mesh { s | vk::PIPELINE_STAGE2_MESH_SHADER_EXT } else { s };
    if mesh { s | vk::PIPELINE_STAGE2_TASK_SHADER_EXT } else { s }
}

/// The accesses of a device.
pub open spec fn access_flags_for(rt: bool) -> u64 {
    if rt {
        base_access_flags() | (vk::ACCESS2_ACCELERATION_STRUCTURE_READ_KHR | vk::ACCESS2_ACCELERATION_STRUCTURE_WRITE_KHR)
    } else {
        base_access_flags()
    }
}

fn shader_stages_exec(rt_pipeline: bool, mesh: bool) -> (r: u32)
    ensures
        r == shader_stages_for(rt_pipeline, mesh),
{
    let mut s = vk::SHADER_STAGE_COMPUTE | vk::SHADER_STAGE_VERTEX | vk::SHADER_STAGE_FRAGMENT;
    if rt_pipeline {
        s = s | (vk::SHADER_STAGE_RAYGEN_KHR | vk::SHADER_STAGE_INTERSECTION_KHR | vk::SHADER_STAGE_ANY_HIT_KHR
            | vk::SHADER_STAGE_CLOSEST_HIT_KHR | vk::SHADER_STAGE_MISS_KHR);
    }
    if mesh {
        s = s | vk::SHADER_STAGE_MESH_EXT;
    }
    if mesh {
        s = s | vk::SHADER_STAGE_TASK_EXT;
    }
    s
}

fn pipeline_stages_exec(rt_pipeline: bool, rt_query: bool, mesh: bool) -> (r: u64)
    ensures
        r == pipeline_stages_for(rt_pipeline, rt_query, mesh),
{
    let mut s = vk::PIPELINE_STAGE2_VERTEX_INPUT | vk::PIPELINE_STAGE2_VERTEX_SHADER
        | vk::PIPELINE_STAGE2_FRAGMENT_SHADER | vk::PIPELINE_STAGE2_BLIT | vk::PIPELINE_STAGE2_CLEAR
        | vk::PIPELINE_STAGE2_COPY | vk::PIPELINE_STAGE2_RESOLVE | vk::PIPELINE_STAGE2_HOST
        | vk::PIPELINE_STAGE2_TRANSFER | vk::PIPELINE_STAGE2_COLOR_ATTACHMENT_OUTPUT
        | vk::PIPELINE_STAGE2_EARLY_FRAGMENT_TESTS | vk::PIPELINE_STAGE2_LATE_FRAGMENT_TESTS
        | vk::PIPELINE_STAGE2_CONDITIONAL_RENDERING_EXT | vk::PIPELINE_STAGE2_DRAW_INDIRECT
        | vk::PIPELINE_STAGE2_COMPUTE_SHADER;
    if rt_pipeline || rt_query {
        s = s | (vk::PIPELINE_STAGE2_ACCELERATION_STRUCTURE_BUILD_KHR | vk::PIPELINE_STAGE2_ACCELERATION_STRUCTURE_COPY_KHR);
    }
    if rt_pipeline {
        s = s | vk::PIPELINE_STAGE2_RAY_TRACING_SHADER_KHR;
    }
    if mesh {
        s = s | vk::PIPELINE_STAGE2_MESH_SHADER_EXT;
    }
    if mesh {
        s = s | vk::PIPELINE_STAGE2_TASK_SHADER_EXT;
    }
    s
}

fn access_flags_exec(rt: bool) -> (r: u64)
    ensures
        r == access_flags_for(rt),
{
    let base = vk::ACCESS2_SHADER_READ | vk::ACCESS2_SHADER_WRITE | vk::ACCESS2_INDIRECT_COMMAND_READ
        | vk::ACCESS2_COLOR_ATTACHMENT_READ | vk::ACCESS2_COLOR_ATTACHMENT_WRITE
        | vk::ACCESS2_DEPTH_STENCIL_ATTACHMENT_READ | vk::ACCESS2_DEPTH_STENCIL_ATTACHMENT_WRITE
        | vk::ACCESS2_VERTEX_ATTRIBUTE_READ | vk::ACCESS2_TRANSFER_READ | vk::ACCESS2_TRANSFER_WRITE
        | vk::ACCESS2_SHADER_STORAGE_READ | vk::ACCESS2_SHADER_STORAGE_WRITE | vk::ACCESS2_INDEX_READ
        | vk::ACCESS2_UNIFORM_READ | vk::ACCESS2_HOST_READ | vk::ACCESS2_HOST_WRITE
        | vk::ACCESS2_SHADER_SAMPLED_READ;
    if rt {
        base | (vk::ACCESS2_ACCELERATION_STRUCTURE_READ_KHR | vk::ACCESS2_ACCELERATION_STRUCTURE_WRITE_KHR)
    } else {
        base
    }
}

/// Decides what the device is made with: the required features, 16 bit
/// storage where supported, bindless textures where descriptor indexing is
/// complete, ray tracing pipelines and queries where their extensions and
/// features are all there, and the optional features the adapter has; and
/// which shader stages, pipeline stages and accesses the device then has.
pub fn plan_device(extensions: u32, supported: &SupportedFeatures) -> (r: DevicePlan)
    requires
        has_required_features(*supported),
    ensures
        ({
            let f = *supported;
            let e = effective_features(extensions, f);
            let rt_pipeline = supports_rt_pipeline(extensions, f);
            let rt_query = supports_rt_query(extensions, f);
            let mesh = e.mesh_shader && e.task_shader;
            &&& r.extensions@ == device_extensions(extensions, f)
            &&& r.shader_int16 == (f.shader_int16 && f.storage_buffer_16bit_access)
            &&& r.storage_buffer_16bit_access == (f.shader_int16 && f.storage_buffer_16bit_access)
            &&& r.sampler_anisotropy
            &&& r.geometry_shader == e.fragment_shader_barycentric
            &&& r.descriptor_indexing == supports_descriptor_indexing(f)
            &&& r.buffer_device_address == (rt_pipeline || rt_query)
            &&& r.acceleration_structure == (rt_pipeline || rt_query)
            &&& r.ray_tracing_pipeline == rt_pipeline
            &&& r.ray_query == rt_query
            &&& r.draw_indirect_first_instance == f.draw_indirect_first_instance
            &&& r.multi_draw_indirect == f.multi_draw_indirect
            &&& r.draw_indirect_count == f.draw_indirect_count
            &&& r.sampler_filter_minmax == (f.sampler_filter_minmax && f.filter_minmax_single_component_formats)
            &&& r.maintenance4 == f.maintenance4
            &&& r.fragment_shader_barycentric == e.fragment_shader_barycentric
            &&& r.host_image_copy == e.host_image_copy
            &&& r.mesh_shader == mesh
            &&& r.task_shader == mesh
            &&& r.memory_budget == has_ext(extensions, EXTENSION_MEMORY_BUDGET)
            &&& r.supported_shader_stages == shader_stages_for(rt_pipeline, mesh)
            &&& r.supported_pipeline_stages == pipeline_stages_for(rt_pipeline, rt_query, mesh)
            &&& r.supported_access_flags == access_flags_for(rt_pipeline || rt_query)
        }),
{
    let f = supported;
    let e = effective_features_exec(extensions, f);
    let int16 = f.shader_int16 && f.storage_buffer_16bit_access;
    let rt_pipeline = rt_pipeline_exec(extensions, f);
    let rt_query = rt_query_exec(extensions, f);
    let mesh = e.mesh_shader && e.task_shader;
    DevicePlan {
        extensions: device_extension_list(extensions, f),
        shader_int16: int16,
        storage_buffer_16bit_access: int16,
        sampler_anisotropy: true,
        geometry_shader: e.fragment_shader_barycentric,
        descriptor_indexing: descriptor_indexing_exec(f),
        buffer_device_address: rt_pipeline || rt_query,
        acceleration_structure: rt_pipeline || rt_query,
        ray_tracing_pipeline: rt_pipeline,
        ray_query: rt_query,
        draw_indirect_first_instance: f.draw_indirect_first_instance,
        multi_draw_indirect: f.multi_draw_indirect,
        draw_indirect_count: f.draw_indirect_count,
        sampler_filter_minmax: f.sampler_filter_minmax && f.filter_minmax_single_component_formats,
        maintenance4: f.maintenance4,
        fragment_shader_barycentric: e.fragment_shader_barycentric,
        host_image_copy: e.host_image_copy,
        mesh_shader: mesh,
        task_shader: mesh,
        memory_budget: has_extension(extensions, EXTENSION_MEMORY_BUDGET),
        supported_shader_stages: shader_stages_exec(rt_pipeline, mesh),
        supported_pipeline_stages: pipeline_stages_exec(rt_pipeline, rt_query, mesh),
        supported_access_flags: access_flags_exec(rt_pipeline || rt_query),
    }
}

/// The kind of an adapter, by the device type Vulkan reports.
pub open spec fn adapter_type_of(device_type: i32) -> AdapterType {
    if device_type == vk::PHYSICAL_DEVICE_TYPE_DISCRETE_GPU {
        AdapterType::Discrete
    } else if device_type == vk::PHYSICAL_DEVICE_TYPE_INTEGRATED_GPU {
        AdapterType::Integrated
    } else if device_type == vk::PHYSICAL_DEVICE_TYPE_VIRTUAL_GPU {
        AdapterType::Virtual
    } else if device_type == vk::PHYSICAL_DEVICE_TYPE_CPU {
        AdapterType::Software
    } else {
        AdapterType::Other
    }
}

pub fn adapter_type(device_type: i32) -> (r: AdapterType)
    ensures
        r == adapter_type_of(device_type),
{
    if device_type == vk::PHYSICAL_DEVICE_TYPE_DISCRETE_GPU {
        AdapterType::Discrete
    } else if device_type == vk::PHYSICAL_DEVICE_TYPE_INTEGRATED_GPU {
        AdapterType::Integrated
    } else if device_type == vk::PHYSICAL_DEVICE_TYPE_VIRTUAL_GPU {
        AdapterType::Virtual
    } else if device_type == vk::PHYSICAL_DEVICE_TYPE_CPU {
        AdapterType::Software
    } else {
        AdapterType::Other
    }
}

impl DevicePlan {
    /// The device holds the bindless texture set.
    pub fn supports_bindless(&self) -> (r: bool)
        ensures
            r == self.descriptor_indexing,
    {
        self.descriptor_indexing
    }

    pub fn supports_ray_tracing_pipeline(&self) -> (r: bool)
        ensures
            r == self.ray_tracing_pipeline,
    {
        self.ray_tracing_pipeline
    }

    pub fn supports_ray_tracing_query(&self) -> (r: bool)
        ensures
            r == self.ray_query,
    {
        self.ray_query
    }

    /// Indirect draws with a count from a buffer need the first instance of
    /// indirect draws and multi draw indirect too.
    pub fn supports_indirect_count(&self) -> (r: bool)
        ensures
            r == (self.draw_indirect_first_instance && self.multi_draw_indirect && self.draw_indirect_count),
    {
        self.draw_indirect_first_instance && self.multi_draw_indirect && self.draw_indirect_count
    }

    pub fn supports_indirect_first_instance(&self) -> (r: bool)
        ensures
            r == self.draw_indirect_first_instance,
    {
        self.draw_indirect_first_instance
    }

    pub fn supports_min_max_filter(&self) -> (r: bool)
        ensures
            r == self.sampler_filter_minmax,
    {
        self.sampler_filter_minmax
    }

    pub fn supports_barycentrics(&self) -> (r: bool)
        ensures
            r == self.fragment_shader_barycentric,
    {
        self.fragment_shader_barycentric
    }

    pub fn supports_mesh_shader(&self) -> (r: bool)
        ensures
            r == self.mesh_shader,
    {
        self.mesh_shader
    }
}

/// A device that traces rays is made with the extensions for it: the
/// acceleration structure extension, the ray tracing pipeline extension and
/// pipeline libraries for pipelines, the ray query extension for queries.
pub proof fn law_ray_tracing_comes_with_its_extensions(extensions: u32, f: SupportedFeatures)
    ensures
        supports_rt_pipeline(extensions, f) ==> {
            &&& device_extensions(extensions, f).contains(DeviceExtension::AccelerationStructure)
            &&& device_extensions(extensions, f).contains(DeviceExtension::RayTracingPipeline)
            &&& device_extensions(extensions, f).contains(DeviceExtension::PipelineLibrary)
        },
        supports_rt_query(extensions, f) ==> {
            &&& device_extensions(extensions, f).contains(DeviceExtension::AccelerationStructure)
            &&& device_extensions(extensions, f).contains(DeviceExtension::RayQuery)
        },
        device_extensions(extensions, f)[0] == DeviceExtension::Swapchain,
{
    let e = effective_features(extensions, f);
    let rt_pipeline = supports_rt_pipeline(extensions, f);
    let rt_query = supports_rt_query(extensions, f);
    let s0 = seq![DeviceExtension::Swapchain];
    let s1 = if has_ext(extensions, EXTENSION_MEMORY_BUDGET) { s0.push(DeviceExtension::MemoryBudget) } else { s0 };
    let s2 = if rt_pipeline || rt_query { s1.push(DeviceExtension::AccelerationStructure) } else { s1 };
    let s3 = if rt_pipeline {
        let t = s2.push(DeviceExtension::RayTracingPipeline);
        let t = if has_ext(extensions, EXTENSION_DEFERRED_HOST_OPERATIONS) {
            t.push(DeviceExtension::DeferredHostOperations)
        } else {
            t
        };
        t.push(DeviceExtension::PipelineLibrary)
    } else {
        s2
    };
    let s4 = if rt_query { s3.push(DeviceExtension::RayQuery) } else { s3 };
    let s5 = if e.fragment_shader_barycentric { s4.push(DeviceExtension::Barycentrics) } else { s4 };
    let s6 = if e.host_image_copy { s5.push(DeviceExtension::HostImageCopy) } else { s5 };
    let s7 = if e.mesh_shader && e.task_shader { s6.push(DeviceExtension::MeshShader) } else { s6 };
    assert(device_extensions(extensions, f) == s7);
    assert forall|x: DeviceExtension| #[trigger] s3.contains(x) implies s7.contains(x) by {
        let k = choose|k: int| 0 <= k < s3.len() && s3[k] == x;
        assert(s4[k] == x);
        assert(s5[k] == x);
        assert(s6[k] == x);
        assert(s7[k] == x);
    }
    assert forall|x: DeviceExtension| #[trigger] s2.contains(x) implies s3.contains(x) by {
        let k = choose|k: int| 0 <= k < s2.len() && s2[k] == x;
        if rt_pipeline {
            let t1 = s2.push(DeviceExtension::RayTracingPipeline);
            assert(t1[k] == x);
            let t2 = if has_ext(extensions, EXTENSION_DEFERRED_HOST_OPERATIONS) {
                t1.push(DeviceExtension::DeferredHostOperations)
            } else {
                t1
            };
            assert(t2[k] == x);
            assert(s3[k] == x);
        }
    }
    if rt_pipeline || rt_query {
        assert(s2[s2.len() - 1] == DeviceExtension::AccelerationStructure);
        assert(s2.contains(DeviceExtension::AccelerationStructure));
    }
    if rt_pipeline {
        let t1 = s2.push(DeviceExtension::RayTracingPipeline);
        let t2 = if has_ext(extensions, EXTENSION_DEFERRED_HOST_OPERATIONS) {
            t1.push(DeviceExtension::DeferredHostOperations)
        } else {
            t1
        };
        assert(t1[s2.len() as int] == DeviceExtension::RayTracingPipeline);
        assert(t2[s2.len() as int] == DeviceExtension::RayTracingPipeline);
        assert(s3[s2.len() as int] == DeviceExtension::RayTracingPipeline);
        assert(s3.contains(DeviceExtension::RayTracingPipeline));
        assert(s3[s3.len() - 1] == DeviceExtension::PipelineLibrary);
        assert(s3.contains(DeviceExtension::PipelineLibrary));
    }
    if rt_query {
        assert(s4[s4.len() - 1] == DeviceExtension::RayQuery);
        let k = s4.len() - 1;
        assert(s5[k] == DeviceExtension::RayQuery);
        assert(s6[k] == DeviceExtension::RayQuery);
        assert(s7[k] == DeviceExtension::RayQuery);
    }
    assert(s7[0] == DeviceExtension::Swapchain) by {
        assert(s1[0] == DeviceExtension::Swapchain);
        assert(s2[0] == DeviceExtension::Swapchain);
        assert(s3[0] == DeviceExtension::Swapchain);
        assert(s4[0] == DeviceExtension::Swapchain);
        assert(s5[0] == DeviceExtension::Swapchain);
        assert(s6[0] == DeviceExtension::Swapchain);
    }
}

} // verus!
