use framecore::pipeliner::DeviceAction;
use framecore::pipeliner::FramePhase;
use framecore::pipeliner::FramePipeliner;

fn run_one_frame(p: &mut FramePipeliner, image: u32, log: &mut Vec<DeviceAction>) {
    log.push(p.next_action());
    p.wait_fence_done();
    log.push(p.next_action());
    p.acquire_done(image);
    log.push(p.next_action());
    p.record_done();
    log.push(p.next_action());
    p.submit_done();
    log.push(p.next_action());
    p.present_done();
}

#[test]
fn new_pipeliner_starts_idle_with_signaled_fences() {
    let p = FramePipeliner::new(3);
    assert_eq!(p.slots.len(), 3);
    assert_eq!(p.frame, 0);
    assert!(matches!(p.phase, FramePhase::Idle));
    for s in &p.slots {
        assert!(s.pending.is_none());
    }
}

#[test]
fn frame_cycle_rotates_slots_in_order() {
    let mut p = FramePipeliner::new(2);
    let mut log: Vec<DeviceAction> = Vec::new();
    for f in 0..4u32 {
        run_one_frame(&mut p, f, &mut log);
    }
    let expected = vec![
        DeviceAction::WaitFence { slot: 0 },
        DeviceAction::AcquireImage { slot: 0 },
        DeviceAction::RecordCommands { slot: 0, image: 0 },
        DeviceAction::SubmitCommands { slot: 0, image: 0 },
        DeviceAction::PresentImage { slot: 0, image: 0 },
        DeviceAction::WaitFence { slot: 1 },
        DeviceAction::AcquireImage { slot: 1 },
        DeviceAction::RecordCommands { slot: 1, image: 1 },
        DeviceAction::SubmitCommands { slot: 1, image: 1 },
        DeviceAction::PresentImage { slot: 1, image: 1 },
        DeviceAction::WaitFence { slot: 0 },
        DeviceAction::AcquireImage { slot: 0 },
        DeviceAction::RecordCommands { slot: 0, image: 2 },
        DeviceAction::SubmitCommands { slot: 0, image: 2 },
        DeviceAction::PresentImage { slot: 0, image: 2 },
        DeviceAction::WaitFence { slot: 1 },
        DeviceAction::AcquireImage { slot: 1 },
        DeviceAction::RecordCommands { slot: 1, image: 3 },
        DeviceAction::SubmitCommands { slot: 1, image: 3 },
        DeviceAction::PresentImage { slot: 1, image: 3 },
    ];
    assert_eq!(log, expected);
    assert_eq!(p.frame, 4);
}

#[test]
fn slot_reused_only_after_fence_of_frame_minus_slot_count() {
    let mut p = FramePipeliner::new(2);
    let mut log: Vec<DeviceAction> = Vec::new();
    run_one_frame(&mut p, 0, &mut log);
    run_one_frame(&mut p, 1, &mut log);

    // Frame 2 runs on slot 0 again; what is still pending there is the
    // submission of frame 0 == 2 - N, and the wait retires it before any
    // recording can happen.
    assert_eq!(p.frame, 2);
    assert_eq!(p.slots[0].pending, Some(0));
    assert!(matches!(p.next_action(), DeviceAction::WaitFence { slot: 0 }));
    p.wait_fence_done();
    assert_eq!(p.slots[0].pending, None);
    assert_eq!(p.slots[1].pending, Some(1));
}

#[test]
fn single_slot_serializes_every_frame() {
    let mut p = FramePipeliner::new(1);
    let mut log: Vec<DeviceAction> = Vec::new();
    run_one_frame(&mut p, 0, &mut log);
    assert_eq!(p.slots[0].pending, Some(0));
    assert!(matches!(p.next_action(), DeviceAction::WaitFence { slot: 0 }));
    p.wait_fence_done();
    assert_eq!(p.slots[0].pending, None, "frame 1 waits out frame 0 entirely");
}

#[test]
fn submit_marks_frame_pending_on_its_slot() {
    let mut p = FramePipeliner::new(3);
    p.wait_fence_done();
    p.acquire_done(7);
    p.record_done();
    p.submit_done();
    assert_eq!(p.slots[0].pending, Some(0));
    assert!(matches!(p.next_action(), DeviceAction::PresentImage { slot: 0, image: 7 }));
}

#[test]
fn device_idle_drains_every_slot() {
    let mut p = FramePipeliner::new(2);
    let mut log: Vec<DeviceAction> = Vec::new();
    run_one_frame(&mut p, 0, &mut log);
    run_one_frame(&mut p, 1, &mut log);
    assert!(p.slots.iter().any(|s| s.pending.is_some()));
    p.device_idle_done();
    for s in &p.slots {
        assert!(s.pending.is_none());
    }
}
