use waytracer::frame::{write_pixel, Frame};
use waytracer::path::{is_exhausted, next_step, Bounce, Step};
use waytracer::settings::Settings;
use waytracer::sphere::{select_root, Root};

fn settings(file_type: &str) -> Settings {
    Settings {
        image_width: 400,
        image_height: 225,
        samples_per_pixel: 100,
        max_depth: 50,
        file_type: file_type.to_string(),
    }
}

#[test]
fn output_file_name_appends_extension() {
    assert_eq!(settings("png").output_file_name(), "img.png");
    assert_eq!(settings("jpg").output_file_name(), "img.jpg");
}

#[test]
fn output_file_name_with_empty_extension() {
    assert_eq!(settings("").output_file_name(), "img.");
}

#[test]
fn zero_depth_is_exhausted() {
    assert!(is_exhausted(0));
}

#[test]
fn positive_depth_is_not_exhausted() {
    assert!(!is_exhausted(1));
    assert!(!is_exhausted(50));
    assert!(!is_exhausted(u32::MAX));
}

#[test]
fn miss_ends_in_sky() {
    assert_eq!(next_step(50, Bounce::Miss), Step::Sky);
    assert_eq!(next_step(1, Bounce::Miss), Step::Sky);
}

#[test]
fn absorption_ends_in_black() {
    assert_eq!(next_step(50, Bounce::Absorbed), Step::Black);
}

#[test]
fn scatter_spends_one_bounce() {
    assert_eq!(next_step(50, Bounce::Scattered), Step::Trace { depth: 49 });
    assert_eq!(next_step(1, Bounce::Scattered), Step::Trace { depth: 0 });
}

#[test]
fn path_of_scatters_runs_out_after_budget() {
    let mut depth: u32 = 3;
    let mut queries = 0;
    while !is_exhausted(depth) {
        queries += 1;
        match next_step(depth, Bounce::Scattered) {
            Step::Trace { depth: rest } => depth = rest,
            other => panic!("unexpected step {:?}", other),
        }
    }
    assert_eq!(queries, 3);
}

#[test]
fn near_root_preferred() {
    assert_eq!(select_root(true, true), Some(Root::Near));
    assert_eq!(select_root(true, false), Some(Root::Near));
}

#[test]
fn far_root_when_near_rejected() {
    assert_eq!(select_root(false, true), Some(Root::Far));
}

#[test]
fn no_root_accepted() {
    assert_eq!(select_root(false, false), None);
}

#[test]
fn frame_size_limit() {
    assert!(Frame::fits(400, 225));
    assert!(Frame::fits(0, 0));
    assert!(Frame::fits(u32::MAX, 1));
    assert!(!Frame::fits(u32::MAX, u32::MAX));
}

#[test]
fn new_frame_is_black() {
    let bytes = Frame::new(2, 3).finish();
    assert_eq!(bytes, vec![0u8; 18]);
}

#[test]
fn finished_frame_is_flipped() {
    let mut frame = Frame::new(2, 2);
    write_pixel(&mut frame, 0, 0, [1, 2, 3]);
    write_pixel(&mut frame, 1, 1, [4, 5, 6]);
    let bytes = frame.finish();
    // (0, 0) lands on the bottom row, (1, 1) on the top row.
    assert_eq!(bytes, vec![0, 0, 0, 4, 5, 6, 1, 2, 3, 0, 0, 0]);
}

#[test]
fn finished_frame_odd_height_keeps_middle_row() {
    let mut frame = Frame::new(1, 3);
    write_pixel(&mut frame, 0, 0, [10, 0, 0]);
    write_pixel(&mut frame, 0, 1, [0, 20, 0]);
    write_pixel(&mut frame, 0, 2, [0, 0, 30]);
    let bytes = frame.finish();
    assert_eq!(bytes, vec![0, 0, 30, 0, 20, 0, 10, 0, 0]);
}

#[test]
fn later_write_wins() {
    let mut frame = Frame::new(1, 1);
    write_pixel(&mut frame, 0, 0, [1, 1, 1]);
    write_pixel(&mut frame, 0, 0, [255, 128, 7]);
    assert_eq!(frame.finish(), vec![255, 128, 7]);
}
