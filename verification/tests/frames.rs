use sourcerenderer_vulkan::frames::{VkLifetimeTrackers, VkThreadContext, VkThreadContextManager};

#[test]
fn the_oldest_frame_is_waited_for_when_too_many_are_in_flight() {
    let mut m = VkThreadContextManager::new(2);
    assert_eq!(m.begin_frame(), None);
    m.end_frame(100);
    assert_eq!(m.begin_frame(), None);
    m.end_frame(101);
    assert_eq!(m.get_frame_counter(), 2);
    assert_eq!(m.begin_frame(), Some(100));
    m.end_frame(102);
    assert_eq!(m.prepared_frames.len(), 2);
    assert_eq!(m.begin_frame(), Some(101));
}

#[test]
fn frames_in_flight_stay_within_the_limit() {
    let mut m = VkThreadContextManager::new(3);
    for fence in 0..10u64 {
        m.begin_frame();
        m.end_frame(fence);
        assert!(m.prepared_frames.len() <= 3);
    }
    assert_eq!(m.get_frame_counter(), 10);
}

#[test]
fn ended_frames_are_numbered_in_order() {
    let mut m = VkThreadContextManager::new(8);
    let fences = [70u64, 71, 72, 73, 74];
    for fence in fences {
        m.end_frame(fence);
    }
    assert_eq!(m.get_frame_counter(), 5);
    for (i, frame) in m.prepared_frames.iter().enumerate() {
        assert_eq!(frame.counter, i as u64);
        assert_eq!(frame.fence, fences[i]);
    }
}

#[test]
fn frame_contexts_are_used_in_turn() {
    let mut c = VkThreadContext::new(3);
    assert_eq!(c.get_frame_context(), 0);
    assert_eq!(c.mark_used(1), None);
    assert_eq!(c.get_frame_context(), 1);
    assert_eq!(c.mark_used(2), None);
    assert_eq!(c.mark_used(3), Some(0));
    assert_eq!(c.get_frame_context(), 0);
    assert_eq!(c.mark_used(3), None);
    assert_eq!(c.mark_used(7), Some(1));
}

#[test]
fn trackers_forget_everything_on_reset() {
    let mut t = VkLifetimeTrackers::new();
    t.track_buffer(1);
    t.track_texture(2);
    t.track_semaphore(3);
    t.track_fence(4);
    t.track_texture_view(5);
    t.track_render_pass(6);
    t.track_frame_buffer(7);
    assert_eq!(t.buffers, vec![1]);
    assert_eq!(t.frame_buffers, vec![7]);
    t.reset();
    assert!(t.buffers.is_empty() && t.textures.is_empty() && t.semaphores.is_empty() && t.fences.is_empty());
    assert!(t.texture_views.is_empty() && t.render_passes.is_empty() && t.frame_buffers.is_empty());
}
