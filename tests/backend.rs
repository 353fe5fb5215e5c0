use drawable_pipeline::backend::{
    readback_layout, FrameAction, FrameOutcome, ReadbackLayout, SurfaceAction, SurfaceState,
    WindowSignal,
};
use drawable_pipeline::readback::readback_image;

#[test]
fn readback_rows_are_padded_to_alignment() {
    assert_eq!(
        readback_layout(100, 50, 256),
        Some(ReadbackLayout { bytes_per_row: 400, padded_bytes_per_row: 512, padded_width: 128, buffer_size: 25600 })
    );
}

#[test]
fn aligned_rows_still_get_a_full_padding() {
    assert_eq!(
        readback_layout(64, 2, 256),
        Some(ReadbackLayout { bytes_per_row: 256, padded_bytes_per_row: 512, padded_width: 128, buffer_size: 1024 })
    );
}

#[test]
fn oversized_rows_have_no_layout() {
    assert_eq!(readback_layout(u32::MAX, 1, 256), None);
    assert_eq!(readback_layout(0x3fff_ffc0, 1, 256), None);
    let l = readback_layout(0x3fff_ffbf, u32::MAX, 256).unwrap();
    assert_eq!(l.padded_bytes_per_row, 0xffff_ff00);
    assert_eq!(l.buffer_size, 0xffff_ff00u64 * u32::MAX as u64);
}

#[test]
fn readback_image_drops_row_padding() {
    // width 1, alignment 8: rows of 4 bytes padded to 8, two pixels per padded row.
    let data: Vec<u8> = (0..16).collect();
    assert_eq!(readback_image(1, 2, 8, data), Some(vec![0, 1, 2, 3, 8, 9, 10, 11]));
    let data: Vec<u8> = (0..48).collect();
    // width 2: rows of 8 bytes padded to 16.
    assert_eq!(
        readback_image(2, 3, 8, data),
        Some(vec![0, 1, 2, 3, 4, 5, 6, 7, 16, 17, 18, 19, 20, 21, 22, 23, 32, 33, 34, 35, 36, 37, 38, 39])
    );
}

#[test]
fn short_readback_gives_no_image() {
    let data: Vec<u8> = (0..15).collect();
    assert_eq!(readback_image(1, 2, 8, data), None);
}

#[test]
fn resize_during_first_events_is_ignored() {
    let mut s = SurfaceState::new(800, 600);
    assert_eq!(s.handle_event(WindowSignal::NewEvents { init: true }), SurfaceAction::Nothing);
    assert!(s.initializing);
    assert_eq!(s.handle_event(WindowSignal::Resized { width: 10, height: 20 }), SurfaceAction::Nothing);
    assert_eq!((s.width, s.height), (800, 600));
    s.handle_event(WindowSignal::NewEvents { init: false });
    assert_eq!(
        s.handle_event(WindowSignal::Resized { width: 10, height: 20 }),
        SurfaceAction::Resize { configure_surface: true, resize_renderer: true }
    );
    assert_eq!((s.width, s.height), (10, 20));
}

#[test]
fn zero_size_is_recorded_but_not_applied() {
    let mut s = SurfaceState::new(800, 600);
    assert_eq!(
        s.handle_event(WindowSignal::Resized { width: 0, height: 600 }),
        SurfaceAction::Resize { configure_surface: false, resize_renderer: false }
    );
    assert_eq!((s.width, s.height), (0, 600));
}

#[test]
fn suspend_and_resume_follow_the_surface() {
    let mut s = SurfaceState::new(800, 600);
    assert_eq!(s.handle_event(WindowSignal::Suspended), SurfaceAction::DropSurface);
    assert!(!s.has_surface);
    assert_eq!(s.draw(FrameOutcome::Acquired), FrameAction::Skip);
    assert!(s.draw(FrameOutcome::Acquired).drawn());
    assert_eq!(
        s.handle_event(WindowSignal::Resized { width: 5, height: 5 }),
        SurfaceAction::Resize { configure_surface: false, resize_renderer: true }
    );
    assert_eq!(s.handle_event(WindowSignal::Resumed), SurfaceAction::CreateSurface);
    assert!(s.has_surface);
    assert_eq!(s.handle_event(WindowSignal::Other), SurfaceAction::Nothing);
}

#[test]
fn frame_outcomes() {
    let s = SurfaceState::new(1, 1);
    assert_eq!(s.draw(FrameOutcome::Acquired), FrameAction::RenderAndPresent);
    assert!(s.draw(FrameOutcome::Acquired).drawn());
    assert_eq!(s.draw(FrameOutcome::Lost), FrameAction::Reconfigure);
    assert!(!s.draw(FrameOutcome::Lost).drawn());
    assert_eq!(s.draw(FrameOutcome::OutOfMemory), FrameAction::Drop);
    assert_eq!(s.draw(FrameOutcome::Failed), FrameAction::Drop);
    assert!(!s.draw(FrameOutcome::Failed).drawn());
}
