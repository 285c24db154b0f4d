use orange_core::style::{
    grid_tracks, line_wrap_of, node_style, non_repeated_grid_tracks, resolve_grid_lines,
    window_dimension, AlignItems, Dimension, DisplayMode, FlexDirection, GridPlacement,
    InputGridLine, InputGridLines, InputGridTrack, InputGridTrackRepeat, InputLengthPercentage,
    InputNonRepeatedGridTrack, InputTreeNodeStyle, JustifyContent, NonRepeatedTrackSizing,
    RepeatTrackSizing, Sides, TrackSizing, WindowDimension,
};
use orange_core::text::AvailableSpace;

fn empty_style() -> InputTreeNodeStyle {
    InputTreeNodeStyle {
        width: None,
        min_width: None,
        max_width: None,
        height: None,
        min_height: None,
        max_height: None,
        padding: None,
        margin: None,
        border: Sides { top: 0, right: 0, bottom: 0, left: 0 },
        display: DisplayMode::Flex,
        flex_direction: FlexDirection::Row,
        flex_grow: None,
        flex_shrink: None,
        justify_content: None,
        align_items: None,
        line_wrap: true,
        row_gap: None,
        column_gap: None,
        grid_template_rows: None,
        grid_template_columns: None,
        grid_auto_rows: None,
        grid_auto_columns: None,
        grid_row: None,
        grid_column: None,
    }
}

#[test]
fn absent_style_gives_defaults() {
    let r = node_style(&None);
    assert_eq!(r.display, DisplayMode::Flex);
    assert_eq!(r.size.width, Dimension::Auto);
    assert_eq!(r.size.height, Dimension::Auto);
    assert_eq!(r.min_size.width, Dimension::Auto);
    assert_eq!(r.max_size.height, Dimension::Auto);
    assert_eq!(r.border, Sides { top: 0, right: 0, bottom: 0, left: 0 });
    assert_eq!(r.padding, Sides { top: 0, right: 0, bottom: 0, left: 0 });
    assert_eq!(r.margin, Sides { top: 0, right: 0, bottom: 0, left: 0 });
    assert_eq!(r.flex_direction, FlexDirection::Row);
    assert_eq!(r.flex_grow, 0);
    assert_eq!(r.flex_shrink, 1);
    assert_eq!(r.justify_content, None);
    assert_eq!(r.align_items, None);
    assert_eq!(r.row_gap, 0);
    assert_eq!(r.column_gap, 0);
    assert!(r.grid_template_rows.is_empty());
    assert!(r.grid_auto_columns.is_empty());
    assert_eq!(r.grid_row.start, GridPlacement::Auto);
    assert_eq!(r.grid_row.end, GridPlacement::Auto);
}

#[test]
fn style_fields_resolved() {
    let mut s = empty_style();
    s.width = Some(InputLengthPercentage::Fixed(10));
    s.height = Some(InputLengthPercentage::Percent(5000));
    s.min_width = Some(InputLengthPercentage::Fixed(2));
    s.max_height = Some(InputLengthPercentage::Fixed(40));
    s.padding = Some(Sides { top: 1, right: 2, bottom: 3, left: 4 });
    s.border = Sides { top: 1, right: 1, bottom: 1, left: 1 };
    s.display = DisplayMode::Grid;
    s.flex_direction = FlexDirection::ColumnReverse;
    s.flex_grow = Some(2);
    s.flex_shrink = Some(3);
    s.justify_content = Some(JustifyContent::SpaceBetween);
    s.align_items = Some(AlignItems::Center);
    s.row_gap = Some(1);
    s.column_gap = Some(2);

    let r = node_style(&Some(s));
    assert_eq!(r.size.width, Dimension::Length(10));
    assert_eq!(r.size.height, Dimension::Percent(5000));
    assert_eq!(r.min_size.width, Dimension::Length(2));
    assert_eq!(r.min_size.height, Dimension::Auto);
    assert_eq!(r.max_size.width, Dimension::Auto);
    assert_eq!(r.max_size.height, Dimension::Length(40));
    assert_eq!(r.padding, Sides { top: 1, right: 2, bottom: 3, left: 4 });
    assert_eq!(r.margin, Sides { top: 0, right: 0, bottom: 0, left: 0 });
    assert_eq!(r.border, Sides { top: 1, right: 1, bottom: 1, left: 1 });
    assert_eq!(r.display, DisplayMode::Grid);
    assert_eq!(r.flex_direction, FlexDirection::ColumnReverse);
    assert_eq!(r.flex_grow, 2);
    assert_eq!(r.flex_shrink, 3);
    assert_eq!(r.justify_content, Some(JustifyContent::SpaceBetween));
    assert_eq!(r.align_items, Some(AlignItems::Center));
    assert_eq!(r.row_gap, 1);
    assert_eq!(r.column_gap, 2);
}

#[test]
fn grid_tracks_resolved_elementwise() {
    let tracks = vec![
        InputGridTrack::Fixed(3),
        InputGridTrack::Percent(2500),
        InputGridTrack::Fr(2),
        InputGridTrack::Auto,
        InputGridTrack::MinContent,
        InputGridTrack::MaxContent,
        InputGridTrack::Repeat(4, InputGridTrackRepeat::Fr(1)),
    ];
    let r = grid_tracks(&tracks);
    assert_eq!(
        r,
        vec![
            TrackSizing::Length(3),
            TrackSizing::Percent(2500),
            TrackSizing::Fr(2),
            TrackSizing::Auto,
            TrackSizing::MinContent,
            TrackSizing::MaxContent,
            TrackSizing::Repeat(4, RepeatTrackSizing::Fr(1)),
        ]
    );
}

#[test]
fn non_repeated_grid_tracks_resolved() {
    let tracks = vec![
        InputNonRepeatedGridTrack::Fixed(1),
        InputNonRepeatedGridTrack::Percent(100),
        InputNonRepeatedGridTrack::Fr(5),
        InputNonRepeatedGridTrack::Auto,
        InputNonRepeatedGridTrack::MinContent,
        InputNonRepeatedGridTrack::MaxContent,
    ];
    let r = non_repeated_grid_tracks(&tracks);
    assert_eq!(
        r,
        vec![
            NonRepeatedTrackSizing::Length(1),
            NonRepeatedTrackSizing::Percent(100),
            NonRepeatedTrackSizing::Fr(5),
            NonRepeatedTrackSizing::Auto,
            NonRepeatedTrackSizing::MinContent,
            NonRepeatedTrackSizing::MaxContent,
        ]
    );
}

#[test]
fn grid_lines_single_and_double() {
    let single = resolve_grid_lines(&Some(InputGridLines::Single(InputGridLine::Fixed(2))));
    assert_eq!(single.start, GridPlacement::Line(2));
    assert_eq!(single.end, GridPlacement::Auto);

    let double = resolve_grid_lines(&Some(InputGridLines::Double(
        InputGridLine::Span(3),
        InputGridLine::Auto,
    )));
    assert_eq!(double.start, GridPlacement::Span(3));
    assert_eq!(double.end, GridPlacement::Auto);

    let absent = resolve_grid_lines(&None);
    assert_eq!(absent.start, GridPlacement::Auto);
    assert_eq!(absent.end, GridPlacement::Auto);
}

#[test]
fn window_dimension_maps_to_available_space() {
    assert_eq!(
        window_dimension(WindowDimension::Fixed(80)),
        AvailableSpace::Definite(80)
    );
    assert_eq!(
        window_dimension(WindowDimension::MaxContent),
        AvailableSpace::MaxContent
    );
}

#[test]
fn line_wrap_defaults_to_true() {
    assert!(line_wrap_of(&None));
    let mut s = empty_style();
    s.line_wrap = false;
    assert!(!line_wrap_of(&Some(s)));
    let mut s = empty_style();
    s.line_wrap = true;
    assert!(line_wrap_of(&Some(s)));
}
