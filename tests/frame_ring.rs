use kajiya_backend::device::Device;
use kajiya_backend::frame::{
    CbKind, CbState, CommandBuffer, DescriptorPool, DeviceFrame, FrameError,
    FrameRing, SlotPhase,
};

fn frame(base: u64) -> DeviceFrame {
    DeviceFrame::new(
        CommandBuffer::new(base, base + 1),
        CommandBuffer::new(base + 2, base + 3),
    )
}

fn core_extension_names() -> Vec<String> {
    [
        "VK_EXT_descriptor_indexing",
        "VK_EXT_scalar_block_layout",
        "VK_KHR_maintenance1",
        "VK_KHR_maintenance2",
        "VK_KHR_maintenance3",
        "VK_KHR_get_memory_requirements2",
        "VK_KHR_imageless_framebuffer",
        "VK_KHR_image_format_list",
        "VK_KHR_descriptor_update_template",
        "VK_KHR_shader_float16_int8",
    ]
    .iter()
    .map(|s| s.to_string())
    .collect()
}

fn ring() -> FrameRing {
    FrameRing::new(frame(100), frame(200))
}

fn full_frame(r: &mut FrameRing) -> usize {
    let wait = r.begin_frame();
    let begun = r.fences_signaled().unwrap();
    assert_eq!(wait.slot, begun.handle.slot());
    r.begin_recording(CbKind::Main).unwrap();
    r.submit(CbKind::Main).unwrap();
    r.begin_recording(CbKind::Presentation).unwrap();
    r.submit(CbKind::Presentation).unwrap();
    let slot = begun.handle.slot();
    r.finish_frame(begun.handle);
    slot
}

#[test]
fn ring_rotation_visits_slots_in_turn() {
    let mut r = ring();
    assert_eq!(r.current_slot(), 0);
    let w = r.begin_frame();
    assert_eq!(w.slot, 0);
    let b = r.fences_signaled().unwrap();
    r.finish_frame(b.handle);
    assert_eq!(r.current_slot(), 1);
    let w = r.begin_frame();
    assert_eq!(w.slot, 1);
    let b = r.fences_signaled().unwrap();
    r.finish_frame(b.handle);
    assert_eq!(r.current_slot(), 0);
    assert_eq!(r.begin_frame().slot, 0);
}

#[test]
fn begin_frame_waits_on_current_slot_fences() {
    let mut r = ring();
    let w = r.begin_frame();
    assert_eq!((w.main_fence, w.presentation_fence), (101, 103));
    let b = r.fences_signaled().unwrap();
    r.finish_frame(b.handle);
    let w = r.begin_frame();
    assert_eq!((w.main_fence, w.presentation_fence), (201, 203));
}

#[test]
fn begin_frame_twice_is_refused() {
    let mut r = ring();
    assert!(!r.frame_held());
    r.begin_frame();
    // a second begin_frame is not allowed: the slot is held
    assert!(r.frame_held());
    let b = r.fences_signaled().unwrap();
    assert!(r.frame_held());
    assert_eq!(r.phase(), SlotPhase::Lent);
    r.finish_frame(b.handle);
    assert!(!r.frame_held());
    r.begin_frame();
}

#[test]
fn leaked_handle_blocks_next_frame_on_that_slot() {
    let mut r = ring();
    r.begin_frame();
    let _leaked = r.fences_signaled().unwrap();
    // the frame is never finished: the ring never rotates
    assert!(r.frame_held());
    assert_eq!(r.current_slot(), 0);
}

#[test]
fn fences_signaled_without_begin_is_refused() {
    let mut r = ring();
    assert!(matches!(r.fences_signaled(), Err(FrameError::NotAwaitingFences)));
}

#[test]
fn finish_frame_checks_the_handle() {
    let mut r = ring();
    r.begin_frame();
    let first = r.fences_signaled().unwrap();
    assert_eq!(first.handle.slot(), 0);
    assert!(r.can_finish(&first.handle));
    r.finish_frame(first.handle);
    assert_eq!(r.current_slot(), 1);
    r.begin_frame();
    let second = r.fences_signaled().unwrap();
    assert_eq!(second.handle.slot(), 1);
    assert!(r.can_finish(&second.handle));
    r.finish_frame(second.handle);
    assert_eq!(r.current_slot(), 0);
    assert!(!r.frame_held());
}

#[test]
fn deferred_release_waits_for_its_slot_fence() {
    let mut r = ring();
    let w = r.begin_frame();
    assert_eq!(w.slot, 0);
    let b = r.fences_signaled().unwrap();
    assert!(b.released.is_empty());
    r.defer_release(DescriptorPool(7));
    r.defer_release(DescriptorPool(8));
    r.finish_frame(b.handle);

    // slot 1's frame does not release slot 0's resources
    r.begin_frame();
    let b = r.fences_signaled().unwrap();
    assert!(b.released.is_empty());
    r.defer_release(DescriptorPool(9));
    r.finish_frame(b.handle);

    // still queued while slot 0 awaits its fences
    r.begin_frame();
    assert_eq!(r.frame(0).pending_resource_releases.descriptor_pools, vec![7, 8]);
    let b = r.fences_signaled().unwrap();
    assert_eq!(b.released, vec![7, 8]);
    assert!(r.frame(0).pending_resource_releases.descriptor_pools.is_empty());
    assert_eq!(r.frame(1).pending_resource_releases.descriptor_pools, vec![9]);
    r.finish_frame(b.handle);

    r.begin_frame();
    assert_eq!(r.fences_signaled().unwrap().released, vec![9]);
}

#[test]
fn command_buffer_state_machine() {
    let mut r = ring();
    assert_eq!(r.begin_recording(CbKind::Main), Err(FrameError::FrameNotLent));
    r.begin_frame();
    r.fences_signaled().unwrap();
    assert_eq!(r.submit(CbKind::Main), Err(FrameError::InvalidCommandBufferState));
    assert_eq!(r.begin_recording(CbKind::Main), Ok(100));
    assert_eq!(r.begin_recording(CbKind::Main), Err(FrameError::InvalidCommandBufferState));
    assert_eq!(r.submit(CbKind::Main), Ok(101));
    assert_eq!(r.frame(0).main_command_buffer.state, CbState::Submitted);
    // never re-recorded while submitted
    assert_eq!(r.begin_recording(CbKind::Main), Err(FrameError::InvalidCommandBufferState));
    assert_eq!(r.begin_recording(CbKind::Presentation), Ok(102));
}

#[test]
fn fence_wait_completes_submitted_work() {
    let mut r = ring();
    let first = full_frame(&mut r);
    assert_eq!(first, 0);
    assert_eq!(r.frame(0).main_command_buffer.state, CbState::Submitted);
    let second = full_frame(&mut r);
    assert_eq!(second, 1);
    r.begin_frame();
    r.fences_signaled().unwrap();
    assert_eq!(r.frame(0).main_command_buffer.state, CbState::Complete);
    assert_eq!(r.frame(0).presentation_command_buffer.state, CbState::Complete);
    // only the other slot still has work in flight
    assert_eq!(r.frame(1).main_command_buffer.state, CbState::Submitted);
}

#[test]
fn many_cycles_keep_at_most_one_frame_in_flight_after_wait() {
    let mut r = ring();
    for n in 0..10usize {
        assert_eq!(full_frame(&mut r), n % 2);
    }
    let w = r.begin_frame();
    assert_eq!(w.slot, 0);
    r.fences_signaled().unwrap();
    let busy = |f: &DeviceFrame| {
        f.main_command_buffer.state == CbState::Submitted
            || f.presentation_command_buffer.state == CbState::Submitted
    };
    let in_flight = [r.frame(0), r.frame(1)].iter().filter(|f| busy(f)).count();
    assert_eq!(in_flight, 1);
}

#[test]
fn device_delegates_to_the_ring() {
    let plan = kajiya_backend::device::plan_device(
        &core_extension_names(),
        false,
        &vec![1],
    )
    .unwrap();
    let flags = plan.table()[0].feature_flags.clone();
    let mut d = Device::create(plan, flags, frame(10), frame(20), (1..=8).collect(), CommandBuffer::new(30, 31), 1000)
        .unwrap();
    assert!(!d.needs_idle_wait());
    assert_eq!(d.begin_frame().slot, 0);
    let b = d.fences_signaled().unwrap();
    d.defer_release(DescriptorPool(5));
    assert_eq!(d.begin_recording(CbKind::Main), Ok(10));
    assert_eq!(d.submit(CbKind::Main), Ok(11));
    assert!(d.needs_idle_wait());
    d.finish_frame(b.handle);
    assert_eq!(d.frame_ring().current_slot(), 1);
    assert_eq!(d.frame_ring().frame(0).pending_resource_releases.descriptor_pools, vec![5]);
}
