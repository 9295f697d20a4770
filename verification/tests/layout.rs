use stream_layout::engine::{generate_layout, partition, place_column, select_main, user_cmd};
use stream_layout::rect::Rectangle;

#[test]
fn zero_views_place_nothing() {
    let layout = generate_layout(0, 800, 600, 0, "eDP-1");
    assert_eq!(layout.views.len(), 0);
    assert_eq!(layout.layout_name, "CustomLayout for output eDP-1");
}

#[test]
fn zero_views_place_nothing_on_other_dimensions() {
    assert_eq!(generate_layout(0, 0, 0, 0, "X").views.len(), 0);
    assert_eq!(generate_layout(0, 3840, 2160, 0, "X").views.len(), 0);
    assert_eq!(generate_layout(0, 1920, 1080, 0, "X").views.len(), 0);
}

#[test]
fn single_view_is_the_main_rectangle() {
    let layout = generate_layout(1, 800, 600, 0, "DP-1");
    let main = select_main(800, 600);
    assert_eq!(layout.views, vec![main]);
    assert_eq!(main, Rectangle { x: 0, y: 0, width: 800, height: 600 });
}

#[test]
fn single_view_on_exact_hd_output() {
    let layout = generate_layout(1, 1920, 1080, 0, "DP-1");
    assert_eq!(layout.views, vec![Rectangle { x: 320, y: 180, width: 1280, height: 720 }]);
}

#[test]
fn main_size_at_4k_threshold() {
    let main = select_main(3840, 2160);
    assert_eq!(main.width, 1920);
    assert_eq!(main.height, 1080);
    assert_eq!(main.x, 960);
    assert_eq!(main.y, 540);
}

#[test]
fn main_size_above_4k_threshold() {
    let main = select_main(4096, 2160);
    assert_eq!(main.width, 1920);
    assert_eq!(main.height, 1080);
    assert_eq!(main.x, 1088);
    assert_eq!(main.y, 540);
}

#[test]
fn main_size_on_exact_hd_match() {
    let main = select_main(1920, 1080);
    assert_eq!(main, Rectangle { x: 320, y: 180, width: 1280, height: 720 });
}

#[test]
fn main_size_just_under_hd_takes_full_area() {
    let main = select_main(1919, 1080);
    assert_eq!(main, Rectangle { x: 0, y: 0, width: 1919, height: 1080 });
}

#[test]
fn centering_bias_toward_origin() {
    let main = select_main(1921, 1081);
    assert_eq!(main, Rectangle { x: 0, y: 0, width: 1921, height: 1081 });
    let odd = select_main(3841, 2161);
    assert_eq!(odd.x, (3841 - 1920) / 2);
    assert_eq!(odd.y, (2161 - 1080) / 2);
}

#[test]
fn partition_counts_cover_the_stack() {
    for view_count in 1..=16u32 {
        let (on_left, on_right, _, _) = partition(view_count, 0, 100, 100);
        assert_eq!(on_left + on_right, view_count - 1);
        assert!(on_right >= on_left);
    }
    let (on_left, on_right, _, _) = partition(4, 320, 1280, 1920);
    assert_eq!(on_left, 1);
    assert_eq!(on_right, 2);
}

#[test]
fn partition_widths_measure_the_gaps() {
    let (_, _, left_width, right_width) = partition(4, 320, 1280, 1920);
    assert_eq!(left_width, 320);
    assert_eq!(right_width, 320);
    let (_, _, left_full, right_full) = partition(3, 0, 800, 800);
    assert_eq!(left_full, 0);
    assert_eq!(right_full, 0);
}

#[test]
fn column_rows_truncate_the_height() {
    let rows = place_column(3, 50, 100, 7);
    assert_eq!(rows.len(), 3);
    for (i, row) in rows.iter().enumerate() {
        assert_eq!(*row, Rectangle { x: 7, y: 33 * i as i32, width: 50, height: 33 });
    }
    let covered: u32 = rows.iter().map(|r| r.height).sum();
    assert_eq!(covered, 99);
}

#[test]
fn column_without_windows_or_width_is_empty() {
    assert_eq!(place_column(0, 50, 100, 0).len(), 0);
    assert_eq!(place_column(2, 0, 100, 0).len(), 0);
}

#[test]
fn generate_layout_is_idempotent() {
    let first = generate_layout(5, 3840, 2160, 7, "HDMI-A-1");
    let second = generate_layout(5, 3840, 2160, 7, "HDMI-A-1");
    assert_eq!(first, second);
}

#[test]
fn four_views_on_hd_scenario() {
    let layout = generate_layout(4, 1920, 1080, 0, "DP-1");
    assert_eq!(
        layout.views,
        vec![
            Rectangle { x: 320, y: 180, width: 1280, height: 720 },
            Rectangle { x: 0, y: 0, width: 320, height: 1080 },
            Rectangle { x: 1600, y: 0, width: 320, height: 540 },
            Rectangle { x: 1600, y: 540, width: 320, height: 540 },
        ]
    );
}

#[test]
fn stack_is_dropped_when_main_fills_the_output() {
    let layout = generate_layout(3, 800, 600, 0, "DP-2");
    assert_eq!(layout.views, vec![Rectangle { x: 0, y: 0, width: 800, height: 600 }]);
}

#[test]
fn layout_name_carries_the_output_name() {
    let layout = generate_layout(2, 1920, 1080, 0, "WL-3");
    assert_eq!(layout.layout_name, "CustomLayout for output WL-3");
}

#[test]
fn user_cmd_always_succeeds() {
    assert!(user_cmd("main-ratio 0.6", Some(1), "DP-1").is_ok());
    assert!(user_cmd("", None, "").is_ok());
}

#[test]
fn tags_have_no_effect() {
    let a = generate_layout(4, 1920, 1080, 0, "DP-1");
    let b = generate_layout(4, 1920, 1080, u32::MAX, "DP-1");
    assert_eq!(a, b);
}
