//! The queues of a device and the queue families they belong to.
use vstd::prelude::*;
use crate::gpu::QueueType;
use crate::vk_values as vk;

verus! {

/// A queue family that the device was created with.
#[derive(Clone, Copy, Debug)]
pub struct VkQueueInfo {
    pub queue_family_index: usize,
    pub supports_presentation: bool,
}

/// The kind of a queue of the device.
#[derive(Clone, Copy, PartialEq, Eq, Structural, Debug)]
pub enum VkQueueType {
    Graphics,
    Compute,
    Transfer,
}

/// The queue families of a device: graphics always, compute and transfer
/// where the device has separate families for them.
#[derive(Clone, Copy, Debug)]
pub struct QueueFamilies {
    pub graphics: VkQueueInfo,
    pub compute: Option<VkQueueInfo>,
    pub transfer: Option<VkQueueInfo>,
}

impl VkQueueInfo {
    /// The family index as Vulkan takes it.
    pub fn family_index(&self) -> (r: u32)
        ensures
            r == self.queue_family_index as u32,
    {
        self.queue_family_index as u32
    }

    pub fn supports_presentation(&self) -> (r: bool)
        ensures
            r == self.supports_presentation,
    {
        self.supports_presentation
    }
}

/// The family index of the queue of a type; a queue the device lacks has none.
pub open spec fn queue_family_of(families: QueueFamilies, queue: QueueType) -> u32 {
    match queue {
        QueueType::Graphics => families.graphics.queue_family_index as u32,
        QueueType::Compute => match families.compute {
            Some(info) => info.queue_family_index as u32,
            None => vk::QUEUE_FAMILY_IGNORED,
        },
        QueueType::Transfer => match families.transfer {
            Some(info) => info.queue_family_index as u32,
            None => vk::QUEUE_FAMILY_IGNORED,
        },
    }
}

pub fn queue_family_index(families: &QueueFamilies, queue: QueueType) -> (r: u32)
    ensures
        r == queue_family_of(*families, queue),
{
    match queue {
        QueueType::Graphics => families.graphics.family_index(),
        QueueType::Compute => match families.compute {
            Some(info) => info.family_index(),
            None => vk::QUEUE_FAMILY_IGNORED,
        },
        QueueType::Transfer => match families.transfer {
            Some(info) => info.family_index(),
            None => vk::QUEUE_FAMILY_IGNORED,
        },
    }
}

} // verus!
