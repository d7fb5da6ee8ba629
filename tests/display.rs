use alacritty_display::display::{ApiScope, Display, ResizeStep};
use alacritty_display::meter::Meter;
use alacritty_display::size::{cell_dimension, window_dimension, Delta, FontMetrics, SizeInfo};

fn standard(render_timer: bool) -> Display {
    Display::new(
        FontMetrics { average_advance: 8, line_height: 16 },
        Delta { x: 0, y: 0 },
        80,
        24,
        render_timer,
    )
    .unwrap()
}

#[test]
fn window_fits_eighty_by_twenty_four_grid() {
    let d = standard(false);
    assert_eq!(
        *d.size(),
        SizeInfo { width: 644, height: 388, cell_width: 8, cell_height: 16 }
    );
}

#[test]
fn offset_moves_cell_size() {
    let d = Display::new(
        FontMetrics { average_advance: 8, line_height: 16 },
        Delta { x: 1, y: -2 },
        10,
        5,
        false,
    )
    .unwrap();
    assert_eq!(
        *d.size(),
        SizeInfo { width: 94, height: 74, cell_width: 9, cell_height: 14 }
    );
}

#[test]
fn cell_dimension_stays_in_range() {
    assert_eq!(cell_dimension(8, 0), 8);
    assert_eq!(cell_dimension(8, 3), 11);
    assert_eq!(cell_dimension(8, -3), 5);
    assert_eq!(cell_dimension(3, -128), 0);
    assert_eq!(cell_dimension(u32::MAX, 127), u32::MAX);
}

#[test]
fn window_dimension_detects_overflow() {
    assert_eq!(window_dimension(8, 80), Some(644));
    assert_eq!(window_dimension(0, 80), Some(4));
    assert_eq!(window_dimension(1, u32::MAX - 4), Some(u32::MAX));
    assert_eq!(window_dimension(1, u32::MAX - 3), None);
    assert_eq!(window_dimension(65536, 65536), None);
}

#[test]
fn oversized_grid_is_refused() {
    let d = Display::new(
        FontMetrics { average_advance: 100000, line_height: 16 },
        Delta { x: 0, y: 0 },
        100000,
        24,
        false,
    );
    assert!(d.is_none());
}

#[test]
fn resize_applies_only_last_event() {
    let mut d = standard(false);
    let steps = d.handle_resize(&vec![(100, 200), (300, 400), (500, 600)]);
    let expected = SizeInfo { width: 500, height: 600, cell_width: 8, cell_height: 16 };
    assert_eq!(
        steps,
        vec![
            ResizeStep::ResizeTerminal { width: 500, height: 600 },
            ResizeStep::NotifyListeners(expected),
            ResizeStep::ResizeViewport { width: 500, height: 600 },
        ]
    );
    assert_eq!(*d.size(), expected);
    let notified = steps
        .iter()
        .filter(|s| matches!(s, ResizeStep::NotifyListeners(_)))
        .count();
    assert_eq!(notified, 1);
}

#[test]
fn single_resize_event_is_applied() {
    let mut d = standard(true);
    let steps = d.handle_resize(&vec![(1024, 768)]);
    assert_eq!(steps[0], ResizeStep::ResizeTerminal { width: 1024, height: 768 });
    assert_eq!(steps[2], ResizeStep::ResizeViewport { width: 1024, height: 768 });
    assert_eq!(d.size().width, 1024);
    assert_eq!(d.size().height, 768);
}

#[test]
fn resize_without_events_changes_nothing() {
    let mut d = standard(false);
    let before = *d.size();
    let steps = d.handle_resize(&Vec::new());
    assert!(steps.is_empty());
    assert_eq!(*d.size(), before);
    let steps = d.handle_resize(&Vec::new());
    assert!(steps.is_empty());
    assert_eq!(*d.size(), before);
}

#[test]
fn draw_clears_dirty_flag() {
    for timer in [false, true] {
        let d = standard(timer);
        let mut dirty = true;
        d.draw(&mut dirty);
        assert!(!dirty);
        d.draw(&mut dirty);
        assert!(!dirty);
    }
}

#[test]
fn render_timer_adds_second_scope() {
    let mut d = standard(false);
    let mut dirty = true;
    assert_eq!(d.draw(&mut dirty), vec![ApiScope::Grid]);
    d.update_config(true);
    assert_eq!(d.draw(&mut dirty), vec![ApiScope::Grid, ApiScope::RenderTimer]);
    d.update_config(false);
    assert_eq!(d.draw(&mut dirty), vec![ApiScope::Grid]);
}

#[test]
fn frame_time_is_mean_of_ten_slots() {
    let mut d = standard(true);
    assert_eq!(d.frame_time_usec(), (0, 0));
    d.record_frame_time(1_234_567);
    assert_eq!(d.frame_time_usec(), (123, 456));
    for _ in 0..9 {
        d.record_frame_time(1_000_000);
    }
    assert_eq!(d.frame_time_usec(), (1023, 456));
}

#[test]
fn meter_overwrites_oldest_sample() {
    let mut m = Meter::new();
    for i in 0..10u64 {
        m.add_sample(i * 10);
    }
    assert_eq!(m.average(), 45);
    m.add_sample(100);
    assert_eq!(m.average(), 55);
}

#[test]
fn meter_holds_largest_durations() {
    let mut m = Meter::new();
    for _ in 0..12 {
        m.add_sample(u64::MAX);
    }
    assert_eq!(m.average(), u64::MAX);
}
