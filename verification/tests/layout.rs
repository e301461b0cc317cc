use clonk::layout::{layout_for, place, GridLayout, BUTTON_SIZE, SPACING};

#[test]
fn nominal_measures() {
    assert_eq!(BUTTON_SIZE, 200);
    assert_eq!(SPACING, 10);
}

#[test]
fn narrow_widths_hold_one_column() {
    assert_eq!(layout_for(0), GridLayout { columns: 1, nominal_width: 200 });
    assert_eq!(layout_for(1), GridLayout { columns: 1, nominal_width: 200 });
    assert_eq!(layout_for(199), GridLayout { columns: 1, nominal_width: 200 });
    assert_eq!(layout_for(200), GridLayout { columns: 1, nominal_width: 200 });
    assert_eq!(layout_for(409), GridLayout { columns: 1, nominal_width: 200 });
}

#[test]
fn a_column_is_added_each_time_one_more_fits() {
    assert_eq!(layout_for(410), GridLayout { columns: 2, nominal_width: 410 });
    assert_eq!(layout_for(619), GridLayout { columns: 2, nominal_width: 410 });
    assert_eq!(layout_for(620), GridLayout { columns: 3, nominal_width: 620 });
    assert_eq!(layout_for(640), GridLayout { columns: 3, nominal_width: 620 });
    assert_eq!(layout_for(1920), GridLayout { columns: 9, nominal_width: 1880 });
}

#[test]
fn the_widest_width_is_laid_out() {
    let layout = layout_for(u32::MAX);
    assert_eq!(layout.columns, 20452225);
    assert_eq!(layout.nominal_width, 4294967240);
}

#[test]
fn columns_fit_and_one_more_would_not() {
    for width in 200u32..5000 {
        let layout = layout_for(width);
        let columns = layout.columns as u64;
        assert!(columns >= 1);
        assert_eq!(layout.nominal_width as u64, columns * 200 + (columns - 1) * 10);
        assert!(layout.nominal_width <= width);
        assert!((columns + 1) * 200 + columns * 10 > width as u64);
    }
}

#[test]
fn scaled_buttons_and_gaps_span_the_width() {
    for width in [200u32, 333, 410, 640, 1000, 1920, 3840] {
        let layout = layout_for(width);
        let scale = width as f64 / layout.nominal_width as f64;
        let button = scale * BUTTON_SIZE as f64;
        let gap = scale * SPACING as f64;
        let columns = layout.columns as f64;
        let spanned = button * columns + gap * (columns - 1.0);
        assert!((spanned - width as f64).abs() < 1e-6);
    }
}

#[test]
fn place_counts_rows_and_columns_from_zero() {
    assert_eq!(place(0, 3), (0, 0, false));
    assert_eq!(place(1, 3), (0, 1, false));
    assert_eq!(place(2, 3), (0, 2, true));
    assert_eq!(place(3, 3), (1, 0, false));
    assert_eq!(place(5, 3), (1, 2, true));
    assert_eq!(place(7, 3), (2, 1, false));
}

#[test]
fn place_in_one_column_ends_every_row() {
    assert_eq!(place(0, 1), (0, 0, true));
    assert_eq!(place(4, 1), (4, 0, true));
}

#[test]
fn place_of_the_last_index() {
    assert_eq!(place(usize::MAX, 2), (usize::MAX / 2, 1, true));
    assert_eq!(place(usize::MAX, usize::MAX), (1, 0, false));
}
