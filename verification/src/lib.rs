//! Verified planning logic of a Vulkan rendering backend.
pub mod align;
pub mod table;
pub mod graph_info;
pub mod graph_resources;
pub mod graph_order;
pub mod graph_laws;
pub mod graph_barrier;
pub mod fold;
pub mod graph_passes;
pub mod graph_template;
pub mod vk_values;
pub mod gpu;
pub mod vk_convert;
pub mod queue;
pub mod barrier_plan;
pub mod descriptor;
pub mod pipeline_layout;
pub mod shader_binding_table;
pub mod swapchain;
pub mod adapter;
pub mod graph_runtime;
pub mod frames;
pub mod memory;
pub mod shader_reflection;
pub mod pipeline_state;
pub mod command_plan;
pub mod submit_plan;
pub mod instance_setup;
pub mod command_state;
pub mod command_pool;
