use save_cloud::render::image_data_set::ImageDataSet;
use save_cloud::render::scheduler::{
    launch, FrameEnd, FramePlan, Phase, Wait, Wake, DEBOUNCE_MICROS, INITIAL_3D,
};
use save_cloud::resource::MediaType;

#[test]
fn first_frame_solves_draws_and_sets_stereo_mode() {
    let mut scheduler = launch(true, 0);
    assert_eq!(scheduler.current_3d, INITIAL_3D);
    assert_eq!(scheduler.begin_frame(), FramePlan { solve: true, draw: true, set_3d: Some(false) });
    assert_eq!(scheduler.current_3d, 0);
    assert_eq!(scheduler.begin_frame(), FramePlan { solve: false, draw: false, set_3d: None });
}

#[test]
fn first_frame_with_slider_up_switches_stereo_on() {
    let mut scheduler = launch(true, 650);
    assert_eq!(scheduler.begin_frame(), FramePlan { solve: true, draw: true, set_3d: Some(true) });
    assert_eq!(scheduler.current_3d, 650);
}

#[test]
fn nothing_is_due_when_nothing_changed() {
    let mut scheduler = launch(false, 0);
    assert_eq!(scheduler.begin_frame(), FramePlan { solve: false, draw: false, set_3d: None });
    assert_eq!(scheduler.current_3d, INITIAL_3D);
    assert_eq!(scheduler.wait(), Wait::Indefinitely);
}

#[test]
fn requests_during_a_wait_share_one_frame() {
    let mut scheduler = launch(true, 0);
    scheduler.begin_frame();
    assert_eq!(scheduler.wait(), Wait::Indefinitely);

    assert!(!scheduler.wake(Wake::Work { new_3d: None }));
    scheduler.mutations_applied(true);
    assert_eq!(scheduler.wait(), Wait::Debounce(100));
    assert_eq!(DEBOUNCE_MICROS, 100);
    assert!(!scheduler.wake(Wake::Work { new_3d: None }));
    scheduler.mutations_applied(false);
    assert!(!scheduler.wake(Wake::Work { new_3d: None }));
    scheduler.mutations_applied(true);
    assert!(scheduler.wake(Wake::Timer));

    assert_eq!(scheduler.begin_frame(), FramePlan { solve: true, draw: true, set_3d: None });
    assert_eq!(scheduler.begin_frame(), FramePlan { solve: false, draw: false, set_3d: None });
}

#[test]
fn draw_without_solve_when_no_node_changed() {
    let mut scheduler = launch(true, 0);
    scheduler.begin_frame();
    scheduler.wake(Wake::Work { new_3d: None });
    scheduler.mutations_applied(false);
    assert_eq!(scheduler.begin_frame(), FramePlan { solve: false, draw: true, set_3d: None });
}

#[test]
fn timer_neither_requests_a_frame_nor_changes_state() {
    let mut scheduler = launch(false, 0);
    let before = scheduler;
    assert!(scheduler.wake(Wake::Timer));
    assert_eq!(scheduler, before);
}

#[test]
fn slider_change_switches_stereo_once() {
    let mut scheduler = launch(true, 0);
    scheduler.begin_frame();
    scheduler.wake(Wake::Work { new_3d: Some(400) });
    assert_eq!(scheduler.current_new_3d, 400);
    assert_eq!(scheduler.current_3d, 0);
    assert_eq!(scheduler.begin_frame(), FramePlan { solve: false, draw: true, set_3d: Some(true) });
    scheduler.wake(Wake::Work { new_3d: Some(800) });
    assert_eq!(scheduler.begin_frame(), FramePlan { solve: false, draw: true, set_3d: Some(true) });
    scheduler.wake(Wake::Work { new_3d: None });
    assert_eq!(scheduler.begin_frame(), FramePlan { solve: false, draw: true, set_3d: None });
    scheduler.wake(Wake::Work { new_3d: Some(0) });
    assert_eq!(scheduler.begin_frame(), FramePlan { solve: false, draw: true, set_3d: Some(false) });
    assert_eq!(scheduler.current_3d, 0);
}

#[test]
fn dirty_layout_waits_for_the_next_quantum() {
    let mut scheduler = launch(false, 0);
    scheduler.begin_frame();
    scheduler.mutations_applied(true);
    assert!(scheduler.is_layout_dirty);
    assert!(!scheduler.is_need_rerender);
    assert_eq!(scheduler.wait(), Wait::Indefinitely);
    assert_eq!(scheduler.begin_frame(), FramePlan { solve: true, draw: false, set_3d: None });
}

#[test]
fn end_of_frame_starts_loader_and_releases_qrcodes() {
    let scheduler = launch(true, 0);
    let mut images = ImageDataSet::new();
    assert_eq!(
        scheduler.end_frame(&mut images, false),
        FrameEnd { start_loader: false, qrcodes_released: false }
    );
    images.get_image_by_id(9, MediaType::Sd);
    images.add_qrcode("kept for no frame".to_string(), vec![0]);
    assert_eq!(
        scheduler.end_frame(&mut images, true),
        FrameEnd { start_loader: false, qrcodes_released: true }
    );
    assert_eq!(images.qrcode_count(), 0);
    assert_eq!(
        scheduler.end_frame(&mut images, false),
        FrameEnd { start_loader: true, qrcodes_released: false }
    );
    images.get_qrcode("used");
    assert!(!scheduler.end_frame(&mut images, false).qrcodes_released);
    assert_eq!(images.qrcode_count(), 1);
    assert!(scheduler.end_frame(&mut images, false).qrcodes_released);
}

#[test]
fn scheduler_goes_round_its_phases() {
    let mut scheduler = launch(true, 0);
    assert_eq!(scheduler.phase(), Phase::LayoutDirty);
    scheduler.begin_frame();
    assert_eq!(scheduler.phase(), Phase::WaitingForWork);
    scheduler.wake(Wake::Work { new_3d: None });
    assert_eq!(scheduler.phase(), Phase::RenderDue);
    scheduler.mutations_applied(false);
    assert_eq!(scheduler.phase(), Phase::RenderDue);
    scheduler.mutations_applied(true);
    assert_eq!(scheduler.phase(), Phase::LayoutDirty);
    scheduler.wake(Wake::Timer);
    assert_eq!(scheduler.phase(), Phase::LayoutDirty);
    scheduler.begin_frame();
    assert_eq!(scheduler.phase(), Phase::WaitingForWork);
}
