//! An immediate-mode 2D plotting library front end.
//!
//! The library is organised around an explicit [`Engine`](engine::Engine)
//! value that stands for the plotting back end's process-wide state: the
//! current context slot, the style stacks, the pending "next plot"
//! configuration, the pool of linked axis ranges, and the trace of submitted
//! back-end commands.  All plotting operations take the engine explicitly, so
//! the single-context and stack-discipline rules can be stated and checked
//! rather than left as ambient assumptions.
//!
//! Plot-space coordinates and style values are carried as plain integers.
use vstd::prelude::*;

pub mod context;
pub mod engine;
pub mod plot;
pub mod plot_elements;
pub mod range;
pub mod style;

pub use context::Context;
pub use context::PlotUi;
pub use engine::Engine;
pub use plot::AxisFlags;
pub use plot::Plot;
pub use plot::PlotFlags;
pub use plot_elements::PlotBars;
pub use plot_elements::PlotHeatmap;
pub use plot_elements::PlotLine;
pub use plot_elements::PlotScatter;
pub use plot_elements::PlotStairs;
pub use plot_elements::PlotStems;
pub use plot_elements::PlotText;
pub use range::PlotLimits;
pub use range::PlotPoint;
pub use range::PlotRange;
pub use style::push_style_color;
pub use style::push_style_var_f32;
pub use style::push_style_var_i32;
pub use style::push_style_var_vec2;
pub use style::set_colormap_from_preset;
pub use style::set_colormap_from_vec;
pub use style::StyleColorToken;
pub use style::StyleVarToken;

verus! {

/// The number of independent Y axes a plot can have.
pub const NUMBER_OF_Y_AXES: usize = 3;

/// Whether the UTF-8 encoding of a string contains an embedded NUL byte.
///
/// The back end takes labels as NUL-terminated byte sequences, so a label
/// whose own bytes contain NUL cannot be transmitted and is rejected at the
/// conversion boundary.
pub open spec fn has_nul(s: Seq<char>) -> bool {
    vstd::utf8::encode_utf8(s).contains(0u8)
}

/// Check a string for an embedded NUL byte in its UTF-8 encoding.
pub fn str_has_nul(s: &str) -> (r: bool)
    ensures
        r == has_nul(s@),
{
    let bytes = s.as_bytes();
    let n = bytes.len();
    let mut i: usize = 0;
    let mut found = false;
    while i < n
        invariant
            n == bytes@.len(),
            bytes@ == vstd::utf8::encode_utf8(s@),
            i <= n,
            found == (exists|j: int| 0 <= j < i && bytes@[j] == 0u8),
        decreases n - i,
    {
        if bytes[i] == 0u8 {
            found = true;
            proof {
                assert(bytes@[i as int] == 0u8);
            }
        }
        i = i + 1;
    }
    found
}

/// When the back end applies a configured axis limit.
#[derive(Clone, Copy, Debug, PartialEq, Eq, Structural)]
pub enum Condition {
    /// Apply the limit on every frame.
    Always,
    /// Apply the limit once per runtime session.
    Once,
    /// Apply the limit only the first time the plot is ever drawn.
    FirstUseEver,
    /// Apply the limit whenever the plot reappears after being hidden.
    Appearing,
}

/// Selects one of a plot's up-to-three independent Y axes.
#[derive(Clone, Copy, Debug, PartialEq, Eq, Structural)]
pub enum YAxisChoice {
    /// The first (default) Y axis.
    First,
    /// The second Y axis.
    Second,
    /// The third Y axis.
    Third,
}

impl YAxisChoice {
    /// The index of the chosen axis: 0, 1 or 2.
    pub open spec fn axis_index(self) -> int {
        match self {
            YAxisChoice::First => 0,
            YAxisChoice::Second => 1,
            YAxisChoice::Third => 2,
        }
    }
}

/// Corner or edge a legend can be placed at.
#[derive(Clone, Copy, Debug, PartialEq, Eq, Structural)]
pub enum PlotLocation {
    /// Center of the plot.
    Center,
    /// Top edge.
    North,
    /// Bottom edge.
    South,
    /// Left edge.
    West,
    /// Right edge.
    East,
    /// Top-left corner.
    NorthWest,
    /// Top-right corner.
    NorthEast,
    /// Bottom-left corner.
    SouthWest,
    /// Bottom-right corner.
    SouthEast,
}

/// Direction a legend's entries run in.
#[derive(Clone, Copy, Debug, PartialEq, Eq, Structural)]
pub enum PlotOrientation {
    /// Entries run left to right.
    Horizontal,
    /// Entries run top to bottom.
    Vertical,
}

/// Marker shapes drawn at data points.
#[derive(Clone, Copy, Debug, PartialEq, Eq, Structural)]
pub enum Marker {
    /// No marker.
    NoMarker,
    /// A circle at each point.
    Circle,
    /// A square at each point.
    Square,
    /// A diamond at each point.
    Diamond,
    /// An upward-pointing triangle at each point.
    Up,
    /// A downward-pointing triangle at each point.
    Down,
    /// A leftward-pointing triangle at each point.
    Left,
    /// A rightward-pointing triangle at each point.
    Right,
    /// A cross (not filled) at each point.
    Cross,
    /// A plus (not filled) at each point.
    Plus,
    /// An asterisk (not filled) at each point.
    Asterisk,
}

impl Marker {
    /// The marker's integer code, as used for the marker style variable.
    pub fn to_i32(&self) -> (r: i32)
        ensures
            r == self.spec_code(),
    {
        match self {
            Marker::NoMarker => 0,
            Marker::Circle => 1,
            Marker::Square => 2,
            Marker::Diamond => 3,
            Marker::Up => 4,
            Marker::Down => 5,
            Marker::Left => 6,
            Marker::Right => 7,
            Marker::Cross => 8,
            Marker::Plus => 9,
            Marker::Asterisk => 10,
        }
    }

    /// The marker's integer code.
    pub open spec fn spec_code(self) -> i32 {
        match self {
            Marker::NoMarker => 0,
            Marker::Circle => 1,
            Marker::Square => 2,
            Marker::Diamond => 3,
            Marker::Up => 4,
            Marker::Down => 5,
            Marker::Left => 6,
            Marker::Right => 7,
            Marker::Cross => 8,
            Marker::Plus => 9,
            Marker::Asterisk => 10,
        }
    }
}

/// Plot elements that can be given a temporary color override.
#[derive(Clone, Copy, Debug, PartialEq, Eq, Structural)]
pub enum PlotColorElement {
    /// Plot line or outline color.
    Line,
    /// Fill color for bars.
    Fill,
    /// Marker outline color.
    MarkerOutline,
    /// Marker fill color.
    MarkerFill,
    /// Error bar color.
    ErrorBar,
    /// Plot frame background color.
    FrameBg,
    /// Plot area background color.
    PlotBg,
    /// Plot area border color.
    PlotBorder,
    /// Legend background color.
    LegendBackground,
    /// Legend border color.
    LegendBorder,
    /// Legend text color.
    LegendText,
    /// Plot title text color.
    TitleText,
    /// Color of text inside plots.
    InlayText,
    /// X axis label and tick label color.
    XAxis,
    /// X axis grid color.
    XAxisGrid,
    /// Y axis label and tick label color.
    YAxis,
    /// Y axis grid color.
    YAxisGrid,
    /// Second Y axis label and tick label color.
    YAxis2,
    /// Second Y axis grid color.
    YAxisGrid2,
    /// Third Y axis label and tick label color.
    YAxis3,
    /// Third Y axis grid color.
    YAxisGrid3,
    /// Box-selection color.
    Selection,
    /// Crosshairs color.
    Crosshairs,
    /// Box-query color.
    Query,
}

/// Built-in colormap presets.
#[derive(Clone, Copy, Debug, PartialEq, Eq, Structural)]
pub enum Colormap {
    /// The back end's default map.
    Standard,
    /// Seaborn "deep".
    Deep,
    /// "Set1".
    Dark,
    /// "Pastel1".
    Pastel,
    /// "Paired".
    Paired,
    /// "viridis".
    Viridis,
    /// "plasma".
    Plasma,
    /// "hot".
    Hot,
    /// "cool".
    Cool,
    /// "pink".
    Pink,
    /// "jet".
    Jet,
}

/// Style variables that can be given a temporary override.
#[derive(Clone, Copy, Debug, PartialEq, Eq, Structural)]
pub enum StyleVar {
    /// Line weight, in pixels.
    LineWeight,
    /// Marker shape.
    Marker,
    /// Marker size, in pixels.
    MarkerSize,
    /// Marker outline weight, in pixels.
    MarkerWeight,
    /// Alpha modifier for all fills.
    FillAlpha,
    /// Error bar whisker width, in pixels.
    ErrorBarSize,
    /// Error bar whisker weight, in pixels.
    ErrorBarWeight,
    /// Digital channel bit height, in pixels.
    DigitalBitHeight,
    /// Digital channel bit gap, in pixels.
    DigitalBitGap,
    /// Thickness of the border around the plot area.
    PlotBorderSize,
    /// Alpha multiplier for minor grid lines.
    MinorAlpha,
    /// Major tick lengths for X and Y.
    MajorTickLen,
    /// Minor tick lengths for X and Y.
    MinorTickLen,
    /// Line thickness of major ticks.
    MajorTickSize,
    /// Line thickness of minor ticks.
    MinorTickSize,
    /// Line thickness of major grid lines.
    MajorGridSize,
    /// Line thickness of minor grid lines.
    MinorGridSize,
    /// Padding between the widget frame and the plot area.
    PlotPadding,
    /// Padding between labels and the plot edge.
    LabelPadding,
    /// Legend padding from the plot's top left.
    LegendPadding,
    /// Padding between the plot edge and interior info text.
    InfoPadding,
    /// Minimum plot frame size when shrunk.
    PlotMinSize,
}

/// Whether the plot area of the current or most recent plot is hovered.
///
/// Reads the transient state left by the most recent begin/end cycle; with
/// no plot ever opened the value is the engine's default.
pub fn is_plot_hovered(engine: &Engine) -> (r: bool)
    ensures
        r == engine@.hovered,
{
    engine.hovered()
}

/// Whether the current or most recent plot is queried.
///
/// Reads the transient state left by the most recent begin/end cycle; with
/// no plot ever opened the value is the engine's default.
pub fn is_plot_queried(engine: &Engine) -> (r: bool)
    ensures
        r == engine@.queried,
{
    engine.queried()
}

/// The mouse position in the plot space of the current or most recent
/// plot.
///
/// Reads the transient state left by the most recent begin/end cycle; with
/// no plot ever opened the value is the engine's default.
pub fn get_plot_mouse_position(engine: &Engine) -> (r: PlotPoint)
    ensures
        r == engine@.mouse,
{
    engine.mouse_position()
}

/// The axis limits of the current or most recent plot: the X axis and the
/// first Y axis.
///
/// Reads the transient state left by the most recent begin/end cycle; with
/// no plot ever opened the value is the engine's default.
pub fn get_plot_limits(engine: &Engine) -> (r: PlotLimits)
    ensures
        r == (PlotLimits { x: engine@.last_x, y: engine@.last_y0 }),
{
    engine.current_limits()
}

/// The query limits of the current or most recent plot.
///
/// Reads the transient state left by the most recent begin/end cycle; with
/// no plot ever opened the value is the engine's default.
pub fn get_plot_query(engine: &Engine) -> (r: PlotLimits)
    ensures
        r == engine@.query_limits,
{
    engine.current_query()
}

/// Errors for misuses of the plotting protocol and for invalid inputs.
///
/// The single-context rule, the open/close balance of plots and the
/// single-use rule for style tokens are stack-discipline invariants: a caller
/// that trips one of these has a bug, and the error is meant to be treated as
/// fatal rather than recovered from.
#[derive(Clone, Copy, Debug, PartialEq, Eq, Structural)]
pub enum PlotError {
    /// A context was created while another one was still live.
    ContextAlreadyActive,
    /// A label string contains an embedded NUL byte and cannot be handed to
    /// the back end, which expects NUL-terminated text.
    LabelContainsNul,
    /// A style stack token was popped a second time.
    TokenAlreadyPopped,
    /// An open-plot token was ended a second time.
    PlotAlreadyEnded,
    /// The context was torn down while a plot was still open.
    PlotStillOpen,
}

} // verus!
