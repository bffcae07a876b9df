use game_engine::sprites::frame_rect;
use game_engine::sprites::{
    first_sheet_frame, generate_grid_coordinates, idle_frame_coords, next_animation_frame, sheet_frame_index, FrameLayout,
    LayoutType,
};

#[test]
fn grid_coordinates_rows_from_top() {
    let l = FrameLayout { frame_size: (32, 16), frame_count: 6, layout: LayoutType::Grid { cols: 3, rows: 2 } };
    let c = generate_grid_coordinates(&l);
    assert_eq!(c, vec![(0, 16), (32, 16), (64, 16), (0, 0), (32, 0), (64, 0)]);
}

#[test]
fn horizontal_and_vertical() {
    let h = FrameLayout { frame_size: (10, 20), frame_count: 3, layout: LayoutType::Horizontal };
    assert_eq!(generate_grid_coordinates(&h), vec![(0, 0), (10, 0), (20, 0)]);
    let v = FrameLayout { frame_size: (10, 20), frame_count: 3, layout: LayoutType::Vertical };
    assert_eq!(generate_grid_coordinates(&v), vec![(0, 40), (0, 20), (0, 0)]);
    let empty = FrameLayout { frame_size: (10, 20), frame_count: 0, layout: LayoutType::Vertical };
    assert!(generate_grid_coordinates(&empty).is_empty());
}

#[test]
fn idle_frames_clamp_to_sheet() {
    let coords = vec![(0, 0), (10, 0), (20, 0)];
    assert_eq!(idle_frame_coords(&vec![2, 0, 9], &coords), vec![(20, 0), (0, 0), (20, 0)]);
    assert!(idle_frame_coords(&vec![], &vec![]).is_empty());
}

#[test]
fn animation_steps() {
    assert_eq!(next_animation_frame(0, 4), 1);
    assert_eq!(next_animation_frame(3, 4), 0);
    assert_eq!(sheet_frame_index(&vec![5, 6, 7], 4), 6);
    assert_eq!(sheet_frame_index(&vec![], 4), 4);
    assert_eq!(first_sheet_frame(&vec![3, 1]), 3);
    assert_eq!(first_sheet_frame(&vec![]), 0);
}

#[test]
fn frame_rectangles() {
    let coords = vec![(0, 16), (32, 16)];
    assert_eq!(frame_rect(&coords, 1, (32, 16)), Some(((32, 16), (64, 32))));
    assert_eq!(frame_rect(&coords, 2, (32, 16)), None);
}
