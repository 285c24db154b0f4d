//! Style resolution: translating an input style descriptor into the resolved
//! style model that the box-layout engine consumes, applying the engine's
//! documented defaults field by field when the descriptor or a field is
//! absent.
//!
//! All lengths are whole numbers of cells.  Percentages are carried as whole
//! numbers of basis points (hundredths of a percent), so `10_000` stands for
//! 100%; the boundary that talks to the engine converts them to its own
//! fractional representation.
use vstd::prelude::*;

use crate::text::AvailableSpace;

verus! {

/// A length given either as a fixed number of cells or as a percentage of
/// the parent, in basis points (`10_000` = 100%).
#[derive(Debug, Clone, Copy, PartialEq, Eq, Structural)]
pub enum InputLengthPercentage {
    Fixed(usize),
    Percent(u32),
}

/// How a node lays out its children.
#[derive(Debug, Clone, Copy, PartialEq, Eq, Structural)]
pub enum DisplayMode {
    Flex,
    Grid,
}

/// The main axis of a flex container.
#[derive(Debug, Clone, Copy, PartialEq, Eq, Structural)]
pub enum FlexDirection {
    Row,
    Column,
    RowReverse,
    ColumnReverse,
}

/// Distribution of free space along the main axis.
#[derive(Debug, Clone, Copy, PartialEq, Eq, Structural)]
pub enum JustifyContent {
    Start,
    End,
    Center,
    SpaceBetween,
    SpaceAround,
    SpaceEvenly,
    Stretch,
}

/// Alignment of children along the cross axis.
#[derive(Debug, Clone, Copy, PartialEq, Eq, Structural)]
pub enum AlignItems {
    Start,
    End,
    Center,
    Stretch,
}

/// A grid track sizing function usable inside a `Repeat`.
#[derive(Debug, Clone, Copy, PartialEq, Eq, Structural)]
pub enum InputGridTrackRepeat {
    Fixed(usize),
    Percent(u32),
    Fr(usize),
}

/// A grid track sizing function for `grid_template_rows` / `grid_template_columns`.
#[derive(Debug, Clone, Copy, PartialEq, Eq, Structural)]
pub enum InputGridTrack {
    Fixed(usize),
    Percent(u32),
    Fr(usize),
    Auto,
    MinContent,
    MaxContent,
    Repeat(usize, InputGridTrackRepeat),
}

/// A grid track sizing function for `grid_auto_rows` / `grid_auto_columns`.
/// `Repeat` is not allowed there; this type rejects it at construction.
#[derive(Debug, Clone, Copy, PartialEq, Eq, Structural)]
pub enum InputNonRepeatedGridTrack {
    Fixed(usize),
    Percent(u32),
    Fr(usize),
    Auto,
    MinContent,
    MaxContent,
}

/// One end of a grid placement.
#[derive(Debug, Clone, Copy, PartialEq, Eq, Structural)]
pub enum InputGridLine {
    Fixed(usize),
    Span(usize),
    Auto,
}

/// A grid placement for `grid_row` / `grid_column`: either a single start
/// line (the end stays automatic) or an explicit start and end.
#[derive(Debug, Clone, Copy, PartialEq, Eq, Structural)]
pub enum InputGridLines {
    Single(InputGridLine),
    Double(InputGridLine, InputGridLine),
}

/// The style descriptor attached to an input tree node.  Every field that is
/// optional falls back to the engine default when absent.
#[derive(Debug, Clone)]
pub struct InputTreeNodeStyle {
    pub width: Option<InputLengthPercentage>,
    pub min_width: Option<InputLengthPercentage>,
    pub max_width: Option<InputLengthPercentage>,
    pub height: Option<InputLengthPercentage>,
    pub min_height: Option<InputLengthPercentage>,
    pub max_height: Option<InputLengthPercentage>,
    pub padding: Option<Sides>,
    pub margin: Option<Sides>,
    pub border: Sides,
    pub display: DisplayMode,
    pub flex_direction: FlexDirection,
    pub flex_grow: Option<usize>,
    pub flex_shrink: Option<usize>,
    pub justify_content: Option<JustifyContent>,
    pub align_items: Option<AlignItems>,
    pub line_wrap: bool,
    pub row_gap: Option<usize>,
    pub column_gap: Option<usize>,
    pub grid_template_rows: Option<Vec<InputGridTrack>>,
    pub grid_template_columns: Option<Vec<InputGridTrack>>,
    pub grid_auto_rows: Option<Vec<InputNonRepeatedGridTrack>>,
    pub grid_auto_columns: Option<Vec<InputNonRepeatedGridTrack>>,
    pub grid_row: Option<InputGridLines>,
    pub grid_column: Option<InputGridLines>,
}

/// A resolved dimension: a fixed length, a percentage in basis points, or
/// automatic sizing.
#[derive(Debug, Clone, Copy, PartialEq, Eq, Structural)]
pub enum Dimension {
    Length(usize),
    Percent(u32),
    Auto,
}

/// A resolved width/height pair.
#[derive(Debug, Clone, Copy, PartialEq, Eq, Structural)]
pub struct ResolvedSize {
    pub width: Dimension,
    pub height: Dimension,
}

/// A four-sided value in the canonical order top, right, bottom, left.
#[derive(Debug, Clone, Copy, PartialEq, Eq, Structural)]
pub struct Sides {
    pub top: usize,
    pub right: usize,
    pub bottom: usize,
    pub left: usize,
}

/// A resolved grid track sizing function, `Repeat` included.
#[derive(Debug, Clone, Copy, PartialEq, Eq, Structural)]
pub enum TrackSizing {
    Length(usize),
    Percent(u32),
    Fr(usize),
    Auto,
    MinContent,
    MaxContent,
    Repeat(usize, RepeatTrackSizing),
}

/// The sizing function repeated by `TrackSizing::Repeat`.
#[derive(Debug, Clone, Copy, PartialEq, Eq, Structural)]
pub enum RepeatTrackSizing {
    Length(usize),
    Percent(u32),
    Fr(usize),
}

/// A resolved grid track sizing function without `Repeat`.
#[derive(Debug, Clone, Copy, PartialEq, Eq, Structural)]
pub enum NonRepeatedTrackSizing {
    Length(usize),
    Percent(u32),
    Fr(usize),
    Auto,
    MinContent,
    MaxContent,
}

/// One resolved end of a grid placement.
#[derive(Debug, Clone, Copy, PartialEq, Eq, Structural)]
pub enum GridPlacement {
    Line(usize),
    Span(usize),
    Auto,
}

/// A resolved grid placement: start and end line.
#[derive(Debug, Clone, Copy, PartialEq, Eq, Structural)]
pub struct GridLinePair {
    pub start: GridPlacement,
    pub end: GridPlacement,
}

/// The resolved style handed to the box-layout engine, with every default
/// already applied.
#[derive(Debug, Clone)]
pub struct ResolvedStyle {
    pub display: DisplayMode,
    pub size: ResolvedSize,
    pub min_size: ResolvedSize,
    pub max_size: ResolvedSize,
    pub border: Sides,
    pub padding: Sides,
    pub margin: Sides,
    pub flex_direction: FlexDirection,
    pub flex_grow: usize,
    pub flex_shrink: usize,
    pub justify_content: Option<JustifyContent>,
    pub align_items: Option<AlignItems>,
    pub row_gap: usize,
    pub column_gap: usize,
    pub grid_template_rows: Vec<TrackSizing>,
    pub grid_template_columns: Vec<TrackSizing>,
    pub grid_auto_rows: Vec<NonRepeatedTrackSizing>,
    pub grid_auto_columns: Vec<NonRepeatedTrackSizing>,
    pub grid_row: GridLinePair,
    pub grid_column: GridLinePair,
}

/// Which of the three size constraints of a style is being read.
#[derive(Debug, Clone, Copy, PartialEq, Eq, Structural)]
pub enum SizeType {
    Normal,
    Min,
    Max,
}

/// A window dimension offered to the layout root: either a fixed number of
/// cells or unconstrained.
#[derive(Debug, Clone, Copy, PartialEq, Eq, Structural)]
pub enum WindowDimension {
    Fixed(usize),
    MaxContent,
}

pub open spec fn dimension_spec(v: Option<InputLengthPercentage>) -> Dimension {
    match v {
        None => Dimension::Auto,
        Some(InputLengthPercentage::Fixed(n)) => Dimension::Length(n),
        Some(InputLengthPercentage::Percent(p)) => Dimension::Percent(p),
    }
}

/// The resolved dimension for an optional input length: absent means `Auto`.
pub fn resolve_dimension(v: &Option<InputLengthPercentage>) -> (r: Dimension)
    ensures
        r == dimension_spec(*v),
{
    match v {
        None => Dimension::Auto,
        Some(InputLengthPercentage::Fixed(n)) => Dimension::Length(*n),
        Some(InputLengthPercentage::Percent(p)) => Dimension::Percent(*p),
    }
}

pub open spec fn node_size_spec(style: InputTreeNodeStyle, size_type: SizeType) -> ResolvedSize {
    match size_type {
        SizeType::Normal => ResolvedSize {
            width: dimension_spec(style.width),
            height: dimension_spec(style.height),
        },
        SizeType::Min => ResolvedSize {
            width: dimension_spec(style.min_width),
            height: dimension_spec(style.min_height),
        },
        SizeType::Max => ResolvedSize {
            width: dimension_spec(style.max_width),
            height: dimension_spec(style.max_height),
        },
    }
}

/// The size, minimum size or maximum size of a styled node, each side
/// defaulting to `Auto` when unset.
pub fn node_size(style: &InputTreeNodeStyle, size_type: SizeType) -> (r: ResolvedSize)
    ensures
        r == node_size_spec(*style, size_type),
{
    match size_type {
        SizeType::Normal => ResolvedSize {
            width: resolve_dimension(&style.width),
            height: resolve_dimension(&style.height),
        },
        SizeType::Min => ResolvedSize {
            width: resolve_dimension(&style.min_width),
            height: resolve_dimension(&style.min_height),
        },
        SizeType::Max => ResolvedSize {
            width: resolve_dimension(&style.max_width),
            height: resolve_dimension(&style.max_height),
        },
    }
}

pub open spec fn zero_sides() -> Sides {
    Sides { top: 0, right: 0, bottom: 0, left: 0 }
}

pub open spec fn track_spec(t: InputGridTrack) -> TrackSizing {
    match t {
        InputGridTrack::Fixed(n) => TrackSizing::Length(n),
        InputGridTrack::Percent(p) => TrackSizing::Percent(p),
        InputGridTrack::Fr(n) => TrackSizing::Fr(n),
        InputGridTrack::Auto => TrackSizing::Auto,
        InputGridTrack::MinContent => TrackSizing::MinContent,
        InputGridTrack::MaxContent => TrackSizing::MaxContent,
        InputGridTrack::Repeat(count, r) => TrackSizing::Repeat(
            count,
            match r {
                InputGridTrackRepeat::Fixed(n) => RepeatTrackSizing::Length(n),
                InputGridTrackRepeat::Percent(p) => RepeatTrackSizing::Percent(p),
                InputGridTrackRepeat::Fr(n) => RepeatTrackSizing::Fr(n),
            },
        ),
    }
}

/// The resolved form of a grid template track list, element by element.
pub fn grid_tracks(tracks: &Vec<InputGridTrack>) -> (r: Vec<TrackSizing>)
    ensures
        r@ == tracks@.map_values(|t: InputGridTrack| track_spec(t)),
{
    let mut out: Vec<TrackSizing> = Vec::new();
    let mut i: usize = 0;
    while i < tracks.len()
        invariant
            i <= tracks.len(),
            out@ == tracks@.take(i as int).map_values(|t: InputGridTrack| track_spec(t)),
        decreases tracks.len() - i,
    {
        let t = match &tracks[i] {
            InputGridTrack::Fixed(n) => TrackSizing::Length(*n),
            InputGridTrack::Percent(p) => TrackSizing::Percent(*p),
            InputGridTrack::Fr(n) => TrackSizing::Fr(*n),
            InputGridTrack::Auto => TrackSizing::Auto,
            InputGridTrack::MinContent => TrackSizing::MinContent,
            InputGridTrack::MaxContent => TrackSizing::MaxContent,
            InputGridTrack::Repeat(count, r) => TrackSizing::Repeat(
                *count,
                match r {
                    InputGridTrackRepeat::Fixed(n) => RepeatTrackSizing::Length(*n),
                    InputGridTrackRepeat::Percent(p) => RepeatTrackSizing::Percent(*p),
                    InputGridTrackRepeat::Fr(n) => RepeatTrackSizing::Fr(*n),
                },
            ),
        };
        out.push(t);
        proof {
            assert(out@ =~= tracks@.take(i + 1int).map_values(|t: InputGridTrack| track_spec(t)));
        }
        i = i + 1;
    }
    proof {
        assert(tracks@.take(tracks@.len() as int) =~= tracks@);
    }
    out
}

pub open spec fn non_repeated_track_spec(t: InputNonRepeatedGridTrack) -> NonRepeatedTrackSizing {
    match t {
        InputNonRepeatedGridTrack::Fixed(n) => NonRepeatedTrackSizing::Length(n),
        InputNonRepeatedGridTrack::Percent(p) => NonRepeatedTrackSizing::Percent(p),
        InputNonRepeatedGridTrack::Fr(n) => NonRepeatedTrackSizing::Fr(n),
        InputNonRepeatedGridTrack::Auto => NonRepeatedTrackSizing::Auto,
        InputNonRepeatedGridTrack::MinContent => NonRepeatedTrackSizing::MinContent,
        InputNonRepeatedGridTrack::MaxContent => NonRepeatedTrackSizing::MaxContent,
    }
}

/// The resolved form of a grid auto track list, element by element.  The
/// input type has no `Repeat` variant, so none can appear here.
pub fn non_repeated_grid_tracks(tracks: &Vec<InputNonRepeatedGridTrack>) -> (r: Vec<
    NonRepeatedTrackSizing,
>)
    ensures
        r@ == tracks@.map_values(|t: InputNonRepeatedGridTrack| non_repeated_track_spec(t)),
{
    let mut out: Vec<NonRepeatedTrackSizing> = Vec::new();
    let mut i: usize = 0;
    while i < tracks.len()
        invariant
            i <= tracks.len(),
            out@ == tracks@.take(i as int).map_values(
                |t: InputNonRepeatedGridTrack| non_repeated_track_spec(t),
            ),
        decreases tracks.len() - i,
    {
        let t = match &tracks[i] {
            InputNonRepeatedGridTrack::Fixed(n) => NonRepeatedTrackSizing::Length(*n),
            InputNonRepeatedGridTrack::Percent(p) => NonRepeatedTrackSizing::Percent(*p),
            InputNonRepeatedGridTrack::Fr(n) => NonRepeatedTrackSizing::Fr(*n),
            InputNonRepeatedGridTrack::Auto => NonRepeatedTrackSizing::Auto,
            InputNonRepeatedGridTrack::MinContent => NonRepeatedTrackSizing::MinContent,
            InputNonRepeatedGridTrack::MaxContent => NonRepeatedTrackSizing::MaxContent,
        };
        out.push(t);
        proof {
            assert(out@ =~= tracks@.take(i + 1int).map_values(
                |t: InputNonRepeatedGridTrack| non_repeated_track_spec(t),
            ));
        }
        i = i + 1;
    }
    proof {
        assert(tracks@.take(tracks@.len() as int) =~= tracks@);
    }
    out
}

pub open spec fn grid_line_spec(line: InputGridLine) -> GridPlacement {
    match line {
        InputGridLine::Fixed(n) => GridPlacement::Line(n),
        InputGridLine::Span(n) => GridPlacement::Span(n),
        InputGridLine::Auto => GridPlacement::Auto,
    }
}

/// The resolved form of one end of a grid placement.
pub fn grid_line(line: &InputGridLine) -> (r: GridPlacement)
    ensures
        r == grid_line_spec(*line),
{
    match line {
        InputGridLine::Fixed(n) => GridPlacement::Line(*n),
        InputGridLine::Span(n) => GridPlacement::Span(*n),
        InputGridLine::Auto => GridPlacement::Auto,
    }
}

pub open spec fn grid_lines_spec(lines: Option<InputGridLines>) -> GridLinePair {
    match lines {
        None => GridLinePair { start: GridPlacement::Auto, end: GridPlacement::Auto },
        Some(InputGridLines::Single(line)) => GridLinePair {
            start: grid_line_spec(line),
            end: GridPlacement::Auto,
        },
        Some(InputGridLines::Double(start, end)) => GridLinePair {
            start: grid_line_spec(start),
            end: grid_line_spec(end),
        },
    }
}

/// The resolved placement for an optional `grid_row` / `grid_column` field:
/// a single line fixes the start and leaves the end automatic; absence
/// leaves both automatic.
pub fn resolve_grid_lines(lines: &Option<InputGridLines>) -> (r: GridLinePair)
    ensures
        r == grid_lines_spec(*lines),
{
    match lines {
        None => GridLinePair { start: GridPlacement::Auto, end: GridPlacement::Auto },
        Some(InputGridLines::Single(line)) => GridLinePair {
            start: grid_line(line),
            end: GridPlacement::Auto,
        },
        Some(InputGridLines::Double(start, end)) => GridLinePair {
            start: grid_line(start),
            end: grid_line(end),
        },
    }
}

/// Whether a resolved style is exactly the engine default for an unstyled
/// node: automatic sizing, zero borders, margins and padding, a flex row
/// with no alignment overrides, no gap and no grid configuration.
pub open spec fn is_default_style(r: ResolvedStyle) -> bool {
    &&& r.display == DisplayMode::Flex
    &&& r.size == ResolvedSize { width: Dimension::Auto, height: Dimension::Auto }
    &&& r.min_size == ResolvedSize { width: Dimension::Auto, height: Dimension::Auto }
    &&& r.max_size == ResolvedSize { width: Dimension::Auto, height: Dimension::Auto }
    &&& r.border == zero_sides()
    &&& r.padding == zero_sides()
    &&& r.margin == zero_sides()
    &&& r.flex_direction == FlexDirection::Row
    &&& r.flex_grow == 0
    &&& r.flex_shrink == 1
    &&& r.justify_content is None
    &&& r.align_items is None
    &&& r.row_gap == 0
    &&& r.column_gap == 0
    &&& r.grid_template_rows@ == Seq::<TrackSizing>::empty()
    &&& r.grid_template_columns@ == Seq::<TrackSizing>::empty()
    &&& r.grid_auto_rows@ == Seq::<NonRepeatedTrackSizing>::empty()
    &&& r.grid_auto_columns@ == Seq::<NonRepeatedTrackSizing>::empty()
    &&& r.grid_row == GridLinePair { start: GridPlacement::Auto, end: GridPlacement::Auto }
    &&& r.grid_column == GridLinePair { start: GridPlacement::Auto, end: GridPlacement::Auto }
}

/// The resolved style of a node, field by field.  An absent descriptor
/// yields every engine default; an absent field yields that field's
/// default.
pub fn node_style(style: &Option<InputTreeNodeStyle>) -> (r: ResolvedStyle)
    ensures
        style is None ==> is_default_style(r),
        style matches Some(s) ==> {
            &&& r.display == s.display
            &&& r.size == node_size_spec(*s, SizeType::Normal)
            &&& r.min_size == node_size_spec(*s, SizeType::Min)
            &&& r.max_size == node_size_spec(*s, SizeType::Max)
            &&& r.border == s.border
            &&& r.padding == (match s.padding {
                Some(p) => p,
                None => zero_sides(),
            })
            &&& r.margin == (match s.margin {
                Some(m) => m,
                None => zero_sides(),
            })
            &&& r.flex_direction == s.flex_direction
            &&& r.flex_grow == (match s.flex_grow {
                Some(g) => g,
                None => 0usize,
            })
            &&& r.flex_shrink == (match s.flex_shrink {
                Some(k) => k,
                None => 1usize,
            })
            &&& r.justify_content == s.justify_content
            &&& r.align_items == s.align_items
            &&& r.row_gap == (match s.row_gap {
                Some(g) => g,
                None => 0usize,
            })
            &&& r.column_gap == (match s.column_gap {
                Some(g) => g,
                None => 0usize,
            })
            &&& r.grid_template_rows@ == (match s.grid_template_rows {
                Some(ts) => ts@.map_values(|t: InputGridTrack| track_spec(t)),
                None => Seq::<TrackSizing>::empty(),
            })
            &&& r.grid_template_columns@ == (match s.grid_template_columns {
                Some(ts) => ts@.map_values(|t: InputGridTrack| track_spec(t)),
                None => Seq::<TrackSizing>::empty(),
            })
            &&& r.grid_auto_rows@ == (match s.grid_auto_rows {
                Some(ts) => ts@.map_values(
                    |t: InputNonRepeatedGridTrack| non_repeated_track_spec(t),
                ),
                None => Seq::<NonRepeatedTrackSizing>::empty(),
            })
            &&& r.grid_auto_columns@ == (match s.grid_auto_columns {
                Some(ts) => ts@.map_values(
                    |t: InputNonRepeatedGridTrack| non_repeated_track_spec(t),
                ),
                None => Seq::<NonRepeatedTrackSizing>::empty(),
            })
            &&& r.grid_row == grid_lines_spec(s.grid_row)
            &&& r.grid_column == grid_lines_spec(s.grid_column)
        },
{
    match style {
        None => ResolvedStyle {
            display: DisplayMode::Flex,
            size: ResolvedSize { width: Dimension::Auto, height: Dimension::Auto },
            min_size: ResolvedSize { width: Dimension::Auto, height: Dimension::Auto },
            max_size: ResolvedSize { width: Dimension::Auto, height: Dimension::Auto },
            border: Sides { top: 0, right: 0, bottom: 0, left: 0 },
            padding: Sides { top: 0, right: 0, bottom: 0, left: 0 },
            margin: Sides { top: 0, right: 0, bottom: 0, left: 0 },
            flex_direction: FlexDirection::Row,
            flex_grow: 0,
            flex_shrink: 1,
            justify_content: None,
            align_items: None,
            row_gap: 0,
            column_gap: 0,
            grid_template_rows: Vec::new(),
            grid_template_columns: Vec::new(),
            grid_auto_rows: Vec::new(),
            grid_auto_columns: Vec::new(),
            grid_row: GridLinePair { start: GridPlacement::Auto, end: GridPlacement::Auto },
            grid_column: GridLinePair { start: GridPlacement::Auto, end: GridPlacement::Auto },
        },
        Some(s) => {
            let border = s.border;
            let padding = match s.padding {
                Some(p) => p,
                None => Sides { top: 0, right: 0, bottom: 0, left: 0 },
            };
            let margin = match s.margin {
                Some(m) => m,
                None => Sides { top: 0, right: 0, bottom: 0, left: 0 },
            };
            let grid_template_rows = match &s.grid_template_rows {
                Some(ts) => grid_tracks(ts),
                None => Vec::new(),
            };
            let grid_template_columns = match &s.grid_template_columns {
                Some(ts) => grid_tracks(ts),
                None => Vec::new(),
            };
            let grid_auto_rows = match &s.grid_auto_rows {
                Some(ts) => non_repeated_grid_tracks(ts),
                None => Vec::new(),
            };
            let grid_auto_columns = match &s.grid_auto_columns {
                Some(ts) => non_repeated_grid_tracks(ts),
                None => Vec::new(),
            };
            ResolvedStyle {
                display: s.display,
                size: node_size(s, SizeType::Normal),
                min_size: node_size(s, SizeType::Min),
                max_size: node_size(s, SizeType::Max),
                border,
                padding,
                margin,
                flex_direction: s.flex_direction,
                flex_grow: match s.flex_grow {
                    Some(g) => g,
                    None => 0,
                },
                flex_shrink: match s.flex_shrink {
                    Some(k) => k,
                    None => 1,
                },
                justify_content: s.justify_content,
                align_items: s.align_items,
                row_gap: match s.row_gap {
                    Some(g) => g,
                    None => 0,
                },
                column_gap: match s.column_gap {
                    Some(g) => g,
                    None => 0,
                },
                grid_template_rows,
                grid_template_columns,
                grid_auto_rows,
                grid_auto_columns,
                grid_row: resolve_grid_lines(&s.grid_row),
                grid_column: resolve_grid_lines(&s.grid_column),
            }
        },
    }
}

} // verus!

verus! {

pub open spec fn window_dimension_spec(size: WindowDimension) -> AvailableSpace {
    match size {
        WindowDimension::Fixed(v) => AvailableSpace::Definite(v),
        WindowDimension::MaxContent => AvailableSpace::MaxContent,
    }
}

/// The available space a window dimension offers the layout root: a fixed
/// dimension becomes a definite width, an unconstrained one measures at
/// its maximum content size.
pub fn window_dimension(size: WindowDimension) -> (r: AvailableSpace)
    ensures
        r == window_dimension_spec(size),
{
    match size {
        WindowDimension::Fixed(v) => AvailableSpace::Definite(v),
        WindowDimension::MaxContent => AvailableSpace::MaxContent,
    }
}

/// Whether a text leaf with this style wraps its lines; an absent style or
/// field means wrapping is on.
pub fn line_wrap_of(style: &Option<InputTreeNodeStyle>) -> (r: bool)
    ensures
        r == (match *style {
            None => true,
            Some(s) => s.line_wrap,
        }),
{
    match style {
        None => true,
        Some(s) => s.line_wrap,
    }
}

} // verus!
