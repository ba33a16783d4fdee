//! The plotting back end's process-wide state, made explicit.
//!
//! An [`Engine`] value stands for everything the plotting back end keeps in
//! global state: the single context slot, the pending "next plot"
//! configuration, the open-plot slot, the style stacks, the pool of linked
//! axis ranges, the most-recent-plot query cache, and the trace of commands
//! submitted to the back end.  Every operation of the library takes the
//! engine explicitly, so the protocol rules — one live context, balanced
//! begin/end, single-use style tokens — are stated over a concrete value
//! instead of hidden statics.
//!
//! The abstract state is [`EngineV`]; the command trace records, one record
//! per submitted command, what the back end was asked to do.
use vstd::prelude::*;

use crate::range::PlotLimits;
use crate::range::PlotPoint;
use crate::range::PlotRange;
use crate::Colormap;
use crate::Condition;
use crate::PlotColorElement;
use crate::PlotLocation;
use crate::PlotOrientation;
use crate::StyleVar;

verus! {

/// One color, as four integer components (red, green, blue, alpha).
///
/// Component values are passed through to the back end uninterpreted.
#[derive(Clone, Copy, Debug, PartialEq, Eq, Structural)]
pub struct Color {
    /// Red component.
    pub r: i64,
    /// Green component.
    pub g: i64,
    /// Blue component.
    pub b: i64,
    /// Alpha component.
    pub a: i64,
}

/// A named style color preset of the back end.
#[derive(Clone, Copy, Debug, PartialEq, Eq, Structural)]
pub enum StylePreset {
    /// Light colors.
    Light,
    /// Dark colors.
    Dark,
    /// Classic colors.
    Classic,
}

/// A handle to one entry of the engine's pool of shared axis ranges.
///
/// Plots configured with the same handle stay synchronised: whatever one
/// plot's render cycle writes back to the entry is what the next plot using
/// the handle reads.
#[derive(Clone, Copy, Debug, PartialEq, Eq, Structural)]
pub struct SharedRange {
    /// Index of the entry in the engine's pool.
    pub slot: usize,
}

/// A literal axis limit together with the condition under which the back end
/// applies it.
#[derive(Clone, Copy, Debug, PartialEq, Eq, Structural)]
pub struct FixedLimit {
    /// The limit to apply.
    pub range: PlotRange,
    /// When the back end applies the limit.
    pub cond: Condition,
}

/// The axis limit a begin command hands to the back end for one axis.
#[derive(Clone, Copy, Debug, PartialEq, Eq)]
pub enum AppliedLimits {
    /// A literal limit with its timing condition.
    Fixed(FixedLimit),
    /// A linked limit: the pool entry it is bound to, and the value that was
    /// read from the pool when the plot was begun.
    Linked {
        /// Pool entry the axis is bound to.
        slot: usize,
        /// Value of the pool entry at begin time.
        range: PlotRange,
    },
}

/// Custom tick marks for one axis, as handed to the back end.
#[derive(Clone, Debug)]
pub struct Ticks {
    /// Positions of the ticks, in plot space.
    pub positions: Vec<i64>,
    /// Labels of the ticks, one per position, if labels were configured.
    pub labels: Option<Vec<String>>,
    /// Whether the default ticks are shown as well.
    pub show_default: bool,
}

/// Abstract value of [`Ticks`].
#[verifier::ext_equal]
pub struct TicksV {
    /// Positions of the ticks.
    pub positions: Seq<i64>,
    /// Labels of the ticks, if labels were configured.
    pub labels: Option<Seq<Seq<char>>>,
    /// Whether the default ticks are shown as well.
    pub show_default: bool,
}

impl View for Ticks {
    type V = TicksV;

    open spec fn view(&self) -> TicksV {
        TicksV {
            positions: self.positions@,
            labels: match self.labels {
                Option::None => Option::None,
                Option::Some(ls) => Option::Some(ls.deep_view()),
            },
            show_default: self.show_default,
        }
    }
}

impl DeepView for Ticks {
    type V = TicksV;

    open spec fn deep_view(&self) -> TicksV {
        self.view()
    }
}

/// Placement of a plot's legend.
#[derive(Clone, Copy, Debug, PartialEq, Eq)]
pub struct LegendSpec {
    /// Corner or edge the legend sits at.
    pub location: PlotLocation,
    /// Whether the entries run horizontally or vertically.
    pub orientation: PlotOrientation,
    /// Whether the legend is drawn outside the plot area.
    pub outside: bool,
}

/// Everything a begin command hands to the back end.
#[derive(Clone, Debug)]
pub struct BeginRecord {
    /// Title of the plot.
    pub title: String,
    /// Label of the X axis.
    pub x_label: String,
    /// Label of the first Y axis.
    pub y_label: String,
    /// Width of the plot, in layout units.
    pub width: u32,
    /// Height of the plot, in layout units.
    pub height: u32,
    /// Plot behavior flags.
    pub flags: u32,
    /// X axis flags.
    pub x_flags: u32,
    /// Flags of the first Y axis.
    pub y_flags0: u32,
    /// Flags of the second Y axis.
    pub y_flags1: u32,
    /// Flags of the third Y axis.
    pub y_flags2: u32,
    /// Limit handed to the back end for the X axis, if any.
    pub x_limits: Option<AppliedLimits>,
    /// Limit handed to the back end for the first Y axis, if any.
    pub y_limits0: Option<AppliedLimits>,
    /// Limit handed to the back end for the second Y axis, if any.
    pub y_limits1: Option<AppliedLimits>,
    /// Limit handed to the back end for the third Y axis, if any.
    pub y_limits2: Option<AppliedLimits>,
    /// Custom ticks handed to the back end for the X axis, if any.
    pub x_ticks: Option<Ticks>,
    /// Custom ticks handed to the back end for the first Y axis, if any.
    pub y_ticks0: Option<Ticks>,
    /// Custom ticks handed to the back end for the second Y axis, if any.
    pub y_ticks1: Option<Ticks>,
    /// Custom ticks handed to the back end for the third Y axis, if any.
    pub y_ticks2: Option<Ticks>,
    /// Legend placement issued right after begin, if one was configured and
    /// the plot rendered.
    pub legend: Option<LegendSpec>,
    /// Whether the back end signalled that the plot renders this frame.
    pub rendered: bool,
}

/// Abstract value of [`BeginRecord`].
#[verifier::ext_equal]
pub struct BeginRecordV {
    /// Title of the plot.
    pub title: Seq<char>,
    /// Label of the X axis.
    pub x_label: Seq<char>,
    /// Label of the first Y axis.
    pub y_label: Seq<char>,
    /// Width of the plot, in layout units.
    pub width: u32,
    /// Height of the plot, in layout units.
    pub height: u32,
    /// Plot behavior flags.
    pub flags: u32,
    /// X axis flags.
    pub x_flags: u32,
    /// Flags of the first Y axis.
    pub y_flags0: u32,
    /// Flags of the second Y axis.
    pub y_flags1: u32,
    /// Flags of the third Y axis.
    pub y_flags2: u32,
    /// Limit handed to the back end for the X axis, if any.
    pub x_limits: Option<AppliedLimits>,
    /// Limit handed to the back end for the first Y axis, if any.
    pub y_limits0: Option<AppliedLimits>,
    /// Limit handed to the back end for the second Y axis, if any.
    pub y_limits1: Option<AppliedLimits>,
    /// Limit handed to the back end for the third Y axis, if any.
    pub y_limits2: Option<AppliedLimits>,
    /// Custom ticks handed to the back end for the X axis, if any.
    pub x_ticks: Option<TicksV>,
    /// Custom ticks handed to the back end for the first Y axis, if any.
    pub y_ticks0: Option<TicksV>,
    /// Custom ticks handed to the back end for the second Y axis, if any.
    pub y_ticks1: Option<TicksV>,
    /// Custom ticks handed to the back end for the third Y axis, if any.
    pub y_ticks2: Option<TicksV>,
    /// Legend placement issued right after begin, if any.
    pub legend: Option<LegendSpec>,
    /// Whether the back end signalled that the plot renders this frame.
    pub rendered: bool,
}

impl View for BeginRecord {
    type V = BeginRecordV;

    open spec fn view(&self) -> BeginRecordV {
        BeginRecordV {
            title: self.title@,
            x_label: self.x_label@,
            y_label: self.y_label@,
            width: self.width,
            height: self.height,
            flags: self.flags,
            x_flags: self.x_flags,
            y_flags0: self.y_flags0,
            y_flags1: self.y_flags1,
            y_flags2: self.y_flags2,
            x_limits: self.x_limits,
            y_limits0: self.y_limits0,
            y_limits1: self.y_limits1,
            y_limits2: self.y_limits2,
            x_ticks: match self.x_ticks {
                Option::None => Option::None,
                Option::Some(t) => Option::Some(t@),
            },
            y_ticks0: match self.y_ticks0 {
                Option::None => Option::None,
                Option::Some(t) => Option::Some(t@),
            },
            y_ticks1: match self.y_ticks1 {
                Option::None => Option::None,
                Option::Some(t) => Option::Some(t@),
            },
            y_ticks2: match self.y_ticks2 {
                Option::None => Option::None,
                Option::Some(t) => Option::Some(t@),
            },
            legend: self.legend,
            rendered: self.rendered,
        }
    }
}

impl DeepView for BeginRecord {
    type V = BeginRecordV;

    open spec fn deep_view(&self) -> BeginRecordV {
        self.view()
    }
}

/// One draw command submitted to the back end while a plot is open.
///
/// The data sequences hold exactly the values the back end reads: for paired
/// X/Y primitives both sequences have the same length, the shorter of the
/// two inputs.
#[derive(Clone, Debug)]
pub enum DrawCmd {
    /// A line through the points `(x[i], y[i])`.
    Line {
        /// Legend label.
        label: String,
        /// X coordinates.
        x: Vec<i64>,
        /// Y coordinates.
        y: Vec<i64>,
    },
    /// A stairstep line through the points `(x[i], y[i])`.
    Stairs {
        /// Legend label.
        label: String,
        /// X coordinates.
        x: Vec<i64>,
        /// Y coordinates.
        y: Vec<i64>,
    },
    /// Markers at the points `(x[i], y[i])`.
    Scatter {
        /// Legend label.
        label: String,
        /// X coordinates.
        x: Vec<i64>,
        /// Y coordinates.
        y: Vec<i64>,
    },
    /// Bars.  For vertical bars `x` holds the axis positions and `y` the bar
    /// values; for horizontal bars the two are swapped, as the back end
    /// expects them.
    Bars {
        /// Legend label.
        label: String,
        /// Whether the bars are horizontal.
        horizontal: bool,
        /// Width of each bar, in plot space.
        bar_width: i64,
        /// X coordinates.
        x: Vec<i64>,
        /// Y coordinates.
        y: Vec<i64>,
    },
    /// Stems from a reference value to each point.
    Stems {
        /// Legend label.
        label: String,
        /// Y value the stems start from.
        reference_y: i64,
        /// Axis positions.
        x: Vec<i64>,
        /// Stem values.
        y: Vec<i64>,
    },
    /// A text label inside the plot.
    Text {
        /// The text.
        label: String,
        /// X position, in plot space.
        x: i64,
        /// Y position, in plot space.
        y: i64,
        /// Whether the text is drawn vertically.
        vertical: bool,
        /// X pixel offset, independent of plot scale.
        offset_x: i64,
        /// Y pixel offset, independent of plot scale.
        offset_y: i64,
    },
    /// A heatmap of row-major values.
    Heatmap {
        /// Legend label.
        label: String,
        /// Cell values, row-major.
        values: Vec<i64>,
        /// Number of rows.
        rows: u32,
        /// Number of columns.
        cols: u32,
        /// Value mapped to the low end of the color scale.
        scale_min: i64,
        /// Value mapped to the high end of the color scale.
        scale_max: i64,
        /// Format string for hovered values, if labels are shown.
        label_format: Option<String>,
        /// Lower-left corner of the drawing rectangle, in plot space.
        lower_left: PlotPoint,
        /// Upper-right corner of the drawing rectangle, in plot space.
        upper_right: PlotPoint,
    },
}

/// Abstract value of [`DrawCmd`].
#[verifier::ext_equal]
pub enum DrawCmdV {
    /// A line.
    Line { label: Seq<char>, x: Seq<i64>, y: Seq<i64> },
    /// A stairstep line.
    Stairs { label: Seq<char>, x: Seq<i64>, y: Seq<i64> },
    /// Markers.
    Scatter { label: Seq<char>, x: Seq<i64>, y: Seq<i64> },
    /// Bars.
    Bars { label: Seq<char>, horizontal: bool, bar_width: i64, x: Seq<i64>, y: Seq<i64> },
    /// Stems.
    Stems { label: Seq<char>, reference_y: i64, x: Seq<i64>, y: Seq<i64> },
    /// A text label.
    Text { label: Seq<char>, x: i64, y: i64, vertical: bool, offset_x: i64, offset_y: i64 },
    /// A heatmap.
    Heatmap {
        label: Seq<char>,
        values: Seq<i64>,
        rows: u32,
        cols: u32,
        scale_min: i64,
        scale_max: i64,
        label_format: Option<Seq<char>>,
        lower_left: PlotPoint,
        upper_right: PlotPoint,
    },
}

impl View for DrawCmd {
    type V = DrawCmdV;

    open spec fn view(&self) -> DrawCmdV {
        match self {
            DrawCmd::Line { label, x, y } => DrawCmdV::Line { label: label@, x: x@, y: y@ },
            DrawCmd::Stairs { label, x, y } => DrawCmdV::Stairs { label: label@, x: x@, y: y@ },
            DrawCmd::Scatter { label, x, y } => DrawCmdV::Scatter { label: label@, x: x@, y: y@ },
            DrawCmd::Bars { label, horizontal, bar_width, x, y } => DrawCmdV::Bars {
                label: label@,
                horizontal: *horizontal,
                bar_width: *bar_width,
                x: x@,
                y: y@,
            },
            DrawCmd::Stems { label, reference_y, x, y } => DrawCmdV::Stems {
                label: label@,
                reference_y: *reference_y,
                x: x@,
                y: y@,
            },
            DrawCmd::Text { label, x, y, vertical, offset_x, offset_y } => DrawCmdV::Text {
                label: label@,
                x: *x,
                y: *y,
                vertical: *vertical,
                offset_x: *offset_x,
                offset_y: *offset_y,
            },
            DrawCmd::Heatmap {
                label,
                values,
                rows,
                cols,
                scale_min,
                scale_max,
                label_format,
                lower_left,
                upper_right,
            } => DrawCmdV::Heatmap {
                label: label@,
                values: values@,
                rows: *rows,
                cols: *cols,
                scale_min: *scale_min,
                scale_max: *scale_max,
                label_format: match label_format {
                    Option::None => Option::None,
                    Option::Some(f) => Option::Some(f@),
                },
                lower_left: *lower_left,
                upper_right: *upper_right,
            },
        }
    }
}

impl DeepView for DrawCmd {
    type V = DrawCmdV;

    open spec fn deep_view(&self) -> DrawCmdV {
        self.view()
    }
}

/// One command submitted to the plotting back end.
#[derive(Clone, Debug)]
pub enum Event {
    /// The context was created and made current.
    ContextCreated,
    /// The context was destroyed.
    ContextDestroyed,
    /// The global style was switched to a named color preset.
    StyleColors(StylePreset),
    /// The colormap was switched to a built-in preset, resampled to the
    /// given number of samples if greater than one.
    ColormapPreset {
        /// The chosen preset.
        map: Colormap,
        /// Resample count.
        samples: u32,
    },
    /// The colormap was replaced by an explicit list of colors.
    ColormapCustom {
        /// The colors of the new map.
        colors: Vec<Color>,
    },
    /// A color override was pushed onto the style color stack.
    PushStyleColor {
        /// The element the color applies to.
        element: PlotColorElement,
        /// Red component.
        red: i64,
        /// Green component.
        green: i64,
        /// Blue component.
        blue: i64,
        /// Alpha component.
        alpha: i64,
    },
    /// The top color override was popped.
    PopStyleColor,
    /// A scalar style variable override was pushed onto the style var stack.
    PushStyleVarFloat {
        /// The style variable.
        var: StyleVar,
        /// New value.
        value: i64,
    },
    /// An integer style variable override was pushed onto the style var
    /// stack.
    PushStyleVarInt {
        /// The style variable.
        var: StyleVar,
        /// New value.
        value: i32,
    },
    /// A two-component style variable override was pushed onto the style var
    /// stack.
    PushStyleVarVec2 {
        /// The style variable.
        var: StyleVar,
        /// New X component.
        x: i64,
        /// New Y component.
        y: i64,
    },
    /// The top style variable override was popped.
    PopStyleVar,
    /// A plot was begun with the given configuration.
    BeginPlot(BeginRecord),
    /// The open plot was ended.
    EndPlot,
    /// A draw command was submitted to the open plot.
    Draw(DrawCmd),
}

/// Abstract value of [`Event`].
#[verifier::ext_equal]
pub enum EventV {
    /// The context was created and made current.
    ContextCreated,
    /// The context was destroyed.
    ContextDestroyed,
    /// The global style was switched to a named color preset.
    StyleColors(StylePreset),
    /// The colormap was switched to a built-in preset.
    ColormapPreset { map: Colormap, samples: u32 },
    /// The colormap was replaced by an explicit list of colors.
    ColormapCustom { colors: Seq<Color> },
    /// A color override was pushed.
    PushStyleColor { element: PlotColorElement, red: i64, green: i64, blue: i64, alpha: i64 },
    /// The top color override was popped.
    PopStyleColor,
    /// A scalar style variable override was pushed.
    PushStyleVarFloat { var: StyleVar, value: i64 },
    /// An integer style variable override was pushed.
    PushStyleVarInt { var: StyleVar, value: i32 },
    /// A two-component style variable override was pushed.
    PushStyleVarVec2 { var: StyleVar, x: i64, y: i64 },
    /// The top style variable override was popped.
    PopStyleVar,
    /// A plot was begun with the given configuration.
    BeginPlot(BeginRecordV),
    /// The open plot was ended.
    EndPlot,
    /// A draw command was submitted.
    Draw(DrawCmdV),
}

impl View for Event {
    type V = EventV;

    open spec fn view(&self) -> EventV {
        match self {
            Event::ContextCreated => EventV::ContextCreated,
            Event::ContextDestroyed => EventV::ContextDestroyed,
            Event::StyleColors(p) => EventV::StyleColors(*p),
            Event::ColormapPreset { map, samples } => EventV::ColormapPreset {
                map: *map,
                samples: *samples,
            },
            Event::ColormapCustom { colors } => EventV::ColormapCustom { colors: colors@ },
            Event::PushStyleColor { element, red, green, blue, alpha } => EventV::PushStyleColor {
                element: *element,
                red: *red,
                green: *green,
                blue: *blue,
                alpha: *alpha,
            },
            Event::PopStyleColor => EventV::PopStyleColor,
            Event::PushStyleVarFloat { var, value } => EventV::PushStyleVarFloat {
                var: *var,
                value: *value,
            },
            Event::PushStyleVarInt { var, value } => EventV::PushStyleVarInt {
                var: *var,
                value: *value,
            },
            Event::PushStyleVarVec2 { var, x, y } => EventV::PushStyleVarVec2 {
                var: *var,
                x: *x,
                y: *y,
            },
            Event::PopStyleVar => EventV::PopStyleVar,
            Event::BeginPlot(rec) => EventV::BeginPlot(rec@),
            Event::EndPlot => EventV::EndPlot,
            Event::Draw(cmd) => EventV::Draw(cmd@),
        }
    }
}

impl DeepView for Event {
    type V = EventV;

    open spec fn deep_view(&self) -> EventV {
        self.view()
    }
}

/// The linked-range bindings of the currently open plot.
#[derive(Clone, Copy, Debug, PartialEq, Eq)]
pub struct OpenPlot {
    /// Pool entry the X axis is bound to, if linked.
    pub link_x: Option<usize>,
    /// Pool entry the first Y axis is bound to, if linked.
    pub link_y0: Option<usize>,
    /// Pool entry the second Y axis is bound to, if linked.
    pub link_y1: Option<usize>,
    /// Pool entry the third Y axis is bound to, if linked.
    pub link_y2: Option<usize>,
}

/// Abstract state of the [`Engine`].
#[verifier::ext_equal]
pub struct EngineV {
    /// Whether a context is live.
    pub ctx_active: bool,
    /// Whether the next begun plot renders.
    pub next_visible: bool,
    /// The open plot's linked-range bindings, if a plot is open.
    pub open: Option<OpenPlot>,
    /// Pending literal limit for the X axis.
    pub pend_x: Option<FixedLimit>,
    /// Pending literal limit for the first Y axis.
    pub pend_y0: Option<FixedLimit>,
    /// Pending literal limit for the second Y axis.
    pub pend_y1: Option<FixedLimit>,
    /// Pending literal limit for the third Y axis.
    pub pend_y2: Option<FixedLimit>,
    /// Pending link for the X axis.
    pub link_x: Option<usize>,
    /// Pending link for the first Y axis.
    pub link_y0: Option<usize>,
    /// Pending link for the second Y axis.
    pub link_y1: Option<usize>,
    /// Pending link for the third Y axis.
    pub link_y2: Option<usize>,
    /// The pool of shared axis ranges.
    pub shared: Seq<PlotRange>,
    /// Depth of the style color stack.
    pub color_stack: int,
    /// Depth of the style variable stack.
    pub var_stack: int,
    /// Current limits of the X axis of the current or most recent plot.
    pub last_x: PlotRange,
    /// Current limits of the first Y axis.
    pub last_y0: PlotRange,
    /// Current limits of the second Y axis.
    pub last_y1: PlotRange,
    /// Current limits of the third Y axis.
    pub last_y2: PlotRange,
    /// Whether the current or most recent plot is hovered.
    pub hovered: bool,
    /// Whether the current or most recent plot is queried.
    pub queried: bool,
    /// Mouse position in the current or most recent plot's space.
    pub mouse: PlotPoint,
    /// Query limits of the current or most recent plot.
    pub query_limits: PlotLimits,
    /// The trace of commands submitted to the back end.
    pub events: Seq<EventV>,
}

impl EngineV {
    /// The state of a freshly constructed engine: no context, nothing
    /// pending, empty stacks, empty trace, zeroed query cache.
    pub open spec fn initial() -> EngineV {
        EngineV {
            ctx_active: false,
            next_visible: true,
            open: Option::None,
            pend_x: Option::None,
            pend_y0: Option::None,
            pend_y1: Option::None,
            pend_y2: Option::None,
            link_x: Option::None,
            link_y0: Option::None,
            link_y1: Option::None,
            link_y2: Option::None,
            shared: Seq::empty(),
            color_stack: 0,
            var_stack: 0,
            last_x: PlotRange { min: 0, max: 0 },
            last_y0: PlotRange { min: 0, max: 0 },
            last_y1: PlotRange { min: 0, max: 0 },
            last_y2: PlotRange { min: 0, max: 0 },
            hovered: false,
            queried: false,
            mouse: PlotPoint { x: 0, y: 0 },
            query_limits: PlotLimits {
                x: PlotRange { min: 0, max: 0 },
                y: PlotRange { min: 0, max: 0 },
            },
            events: Seq::empty(),
        }
    }

    /// A link, pending or bound to the open plot, names an entry of the pool.
    pub open spec fn links_ok(self) -> bool {
        &&& (self.link_x is Some ==> self.link_x->0 < self.shared.len())
        &&& (self.link_y0 is Some ==> self.link_y0->0 < self.shared.len())
        &&& (self.link_y1 is Some ==> self.link_y1->0 < self.shared.len())
        &&& (self.link_y2 is Some ==> self.link_y2->0 < self.shared.len())
        &&& match self.open {
            Option::None => true,
            Option::Some(op) => {
                &&& (op.link_x is Some ==> op.link_x->0 < self.shared.len())
                &&& (op.link_y0 is Some ==> op.link_y0->0 < self.shared.len())
                &&& (op.link_y1 is Some ==> op.link_y1->0 < self.shared.len())
                &&& (op.link_y2 is Some ==> op.link_y2->0 < self.shared.len())
            },
        }
    }

    /// Well-formedness of the engine state: stacks are not negative, a plot
    /// is only open while a context is live, and every link is in range.
    pub open spec fn wf(self) -> bool {
        &&& self.color_stack >= 0
        &&& self.var_stack >= 0
        &&& (self.open is Some ==> self.ctx_active)
        &&& self.links_ok()
    }
}

/// The axis limit a begin command resolves for one axis: a pending link
/// wins over a pending literal limit, and a link reads the pool entry it
/// names.
pub open spec fn resolve_limits(
    link: Option<usize>,
    pend: Option<FixedLimit>,
    shared: Seq<PlotRange>,
) -> Option<AppliedLimits> {
    match link {
        Option::Some(slot) => if slot < shared.len() {
            Option::Some(AppliedLimits::Linked { slot, range: shared[slot as int] })
        } else {
            Option::None
        },
        Option::None => match pend {
            Option::Some(f) => Option::Some(AppliedLimits::Fixed(f)),
            Option::None => Option::None,
        },
    }
}

/// The range an axis holds right after a begin command: the applied limit if
/// one was configured, the previous range otherwise.
pub open spec fn applied_range(a: Option<AppliedLimits>, prev: PlotRange) -> PlotRange {
    match a {
        Option::None => prev,
        Option::Some(AppliedLimits::Fixed(f)) => f.range,
        Option::Some(AppliedLimits::Linked { slot: _, range }) => range,
    }
}

/// The pool of shared ranges after an end command wrote the open plot's
/// current axis ranges back to the entries its axes were linked to.
pub open spec fn write_back(
    op: OpenPlot,
    last_x: PlotRange,
    last_y0: PlotRange,
    last_y1: PlotRange,
    last_y2: PlotRange,
    shared: Seq<PlotRange>,
) -> Seq<PlotRange> {
    let s1 = match op.link_x {
        Option::Some(slot) => if slot < shared.len() {
            shared.update(slot as int, last_x)
        } else {
            shared
        },
        Option::None => shared,
    };
    let s2 = match op.link_y0 {
        Option::Some(slot) => if slot < s1.len() {
            s1.update(slot as int, last_y0)
        } else {
            s1
        },
        Option::None => s1,
    };
    let s3 = match op.link_y1 {
        Option::Some(slot) => if slot < s2.len() {
            s2.update(slot as int, last_y1)
        } else {
            s2
        },
        Option::None => s2,
    };
    match op.link_y2 {
        Option::Some(slot) => if slot < s3.len() {
            s3.update(slot as int, last_y2)
        } else {
            s3
        },
        Option::None => s3,
    }
}

impl EngineV {
    /// This state with one more record appended to the trace.
    pub open spec fn with_event(self, e: EventV) -> EngineV {
        EngineV { events: self.events.push(e), ..self }
    }

    /// The state a begin command leaves behind, given the configuration
    /// record it was handed: the staged limits and links are resolved and
    /// consumed, the axis ranges take the applied values, the open-plot slot
    /// is filled if the plot renders, and the trace grows by one begin
    /// record whose limit fields hold what was resolved.
    pub open spec fn begin_effect(self, rec: BeginRecordV) -> EngineV {
        (EngineV {
            open: if self.next_visible {
                Option::Some(
                    OpenPlot {
                        link_x: self.link_x,
                        link_y0: self.link_y0,
                        link_y1: self.link_y1,
                        link_y2: self.link_y2,
                    },
                )
            } else {
                Option::None
            },
            pend_x: Option::None,
            pend_y0: Option::None,
            pend_y1: Option::None,
            pend_y2: Option::None,
            link_x: Option::None,
            link_y0: Option::None,
            link_y1: Option::None,
            link_y2: Option::None,
            last_x: applied_range(
                resolve_limits(self.link_x, self.pend_x, self.shared),
                self.last_x,
            ),
            last_y0: applied_range(
                resolve_limits(self.link_y0, self.pend_y0, self.shared),
                self.last_y0,
            ),
            last_y1: applied_range(
                resolve_limits(self.link_y1, self.pend_y1, self.shared),
                self.last_y1,
            ),
            last_y2: applied_range(
                resolve_limits(self.link_y2, self.pend_y2, self.shared),
                self.last_y2,
            ),
            ..self
        }).with_event(EventV::BeginPlot(self.begin_record(rec)))
    }

    /// The begin record the trace gains from a begin command: the handed
    /// configuration, with the limit fields filled from what was staged and
    /// the legend kept only when the plot renders.
    pub open spec fn begin_record(self, rec: BeginRecordV) -> BeginRecordV {
        BeginRecordV {
            x_limits: resolve_limits(self.link_x, self.pend_x, self.shared),
            y_limits0: resolve_limits(self.link_y0, self.pend_y0, self.shared),
            y_limits1: resolve_limits(self.link_y1, self.pend_y1, self.shared),
            y_limits2: resolve_limits(self.link_y2, self.pend_y2, self.shared),
            legend: if self.next_visible {
                rec.legend
            } else {
                Option::None
            },
            rendered: self.next_visible,
            ..rec
        }
    }

    /// The state an end command leaves behind: the current axis ranges are
    /// written back to the linked pool entries, the open-plot slot is
    /// cleared, and the trace grows by an end record.
    pub open spec fn end_effect(self) -> EngineV {
        (EngineV {
            open: Option::None,
            shared: write_back(
                self.open->0,
                self.last_x,
                self.last_y0,
                self.last_y1,
                self.last_y2,
                self.shared,
            ),
            ..self
        }).with_event(EventV::EndPlot)
    }
}

/// The plotting back end's process-wide state.
///
/// See the module documentation.  All state is private; the abstract value
/// is reached through the view (`engine@`), and mutation only through the
/// operations of this library, which keep [`EngineV::wf`].
#[derive(Debug)]
pub struct Engine {
    ctx_active: bool,
    next_visible: bool,
    open: Option<OpenPlot>,
    pend_x: Option<FixedLimit>,
    pend_y0: Option<FixedLimit>,
    pend_y1: Option<FixedLimit>,
    pend_y2: Option<FixedLimit>,
    link_x: Option<usize>,
    link_y0: Option<usize>,
    link_y1: Option<usize>,
    link_y2: Option<usize>,
    shared: Vec<PlotRange>,
    color_stack: usize,
    var_stack: usize,
    last_x: PlotRange,
    last_y0: PlotRange,
    last_y1: PlotRange,
    last_y2: PlotRange,
    hovered: bool,
    queried: bool,
    mouse: PlotPoint,
    query_limits: PlotLimits,
    events: Vec<Event>,
}

impl View for Engine {
    type V = EngineV;

    closed spec fn view(&self) -> EngineV {
        EngineV {
            ctx_active: self.ctx_active,
            next_visible: self.next_visible,
            open: self.open,
            pend_x: self.pend_x,
            pend_y0: self.pend_y0,
            pend_y1: self.pend_y1,
            pend_y2: self.pend_y2,
            link_x: self.link_x,
            link_y0: self.link_y0,
            link_y1: self.link_y1,
            link_y2: self.link_y2,
            shared: self.shared@,
            color_stack: self.color_stack as int,
            var_stack: self.var_stack as int,
            last_x: self.last_x,
            last_y0: self.last_y0,
            last_y1: self.last_y1,
            last_y2: self.last_y2,
            hovered: self.hovered,
            queried: self.queried,
            mouse: self.mouse,
            query_limits: self.query_limits,
            events: self.events.deep_view(),
        }
    }
}

impl Engine {
    /// Build a fresh engine with no live context and an empty trace.
    pub fn new() -> (r: Engine)
        ensures
            r@ == EngineV::initial(),
            r@.wf(),
    {
        let e = Engine {
            ctx_active: false,
            next_visible: true,
            open: Option::None,
            pend_x: Option::None,
            pend_y0: Option::None,
            pend_y1: Option::None,
            pend_y2: Option::None,
            link_x: Option::None,
            link_y0: Option::None,
            link_y1: Option::None,
            link_y2: Option::None,
            shared: Vec::new(),
            color_stack: 0,
            var_stack: 0,
            last_x: PlotRange { min: 0, max: 0 },
            last_y0: PlotRange { min: 0, max: 0 },
            last_y1: PlotRange { min: 0, max: 0 },
            last_y2: PlotRange { min: 0, max: 0 },
            hovered: false,
            queried: false,
            mouse: PlotPoint { x: 0, y: 0 },
            query_limits: PlotLimits {
                x: PlotRange { min: 0, max: 0 },
                y: PlotRange { min: 0, max: 0 },
            },
            events: Vec::new(),
        };
        proof {
            assert(e@.events =~= Seq::<EventV>::empty());
            assert(e@.shared =~= Seq::<PlotRange>::empty());
            assert(e@ =~= EngineV::initial());
        }
        e
    }

    /// Whether a context is currently live.
    pub fn context_active(&self) -> (r: bool)
        ensures
            r == self@.ctx_active,
    {
        self.ctx_active
    }

    /// Whether a plot is currently open.
    pub fn plot_open(&self) -> (r: bool)
        ensures
            r == (self@.open is Some),
    {
        self.open.is_some()
    }

    /// Depth of the style color stack.
    pub fn color_stack_depth(&self) -> (r: usize)
        ensures
            r == self@.color_stack,
    {
        self.color_stack
    }

    /// Depth of the style variable stack.
    pub fn var_stack_depth(&self) -> (r: usize)
        ensures
            r == self@.var_stack,
    {
        self.var_stack
    }

    /// The trace of commands submitted to the back end so far.
    pub fn events(&self) -> (r: &Vec<Event>)
        ensures
            r.deep_view() == self@.events,
    {
        &self.events
    }

    /// Number of commands submitted to the back end so far.
    pub fn event_count(&self) -> (r: usize)
        ensures
            r == self@.events.len(),
    {
        self.events.len()
    }

    /// Append one record to the command trace.
    fn log(&mut self, e: Event)
        ensures
            final(self)@ == old(self)@.with_event(e@),
    {
        let ghost ev = e@;
        self.events.push(e);
        proof {
            assert(self.events.deep_view() =~= old(self).events.deep_view().push(ev));
        }
    }

    /// Create the context and make it current.
    pub(crate) fn create_context(&mut self)
        requires
            !old(self)@.ctx_active,
        ensures
            final(self)@ == (EngineV { ctx_active: true, ..old(self)@ }).with_event(
                EventV::ContextCreated,
            ),
    {
        self.ctx_active = true;
        self.log(Event::ContextCreated);
    }

    /// Destroy the context, freeing the slot for a new one.
    pub(crate) fn destroy_context(&mut self)
        requires
            old(self)@.ctx_active,
            old(self)@.open is None,
        ensures
            final(self)@ == (EngineV { ctx_active: false, ..old(self)@ }).with_event(
                EventV::ContextDestroyed,
            ),
    {
        self.ctx_active = false;
        self.log(Event::ContextDestroyed);
    }

    /// Switch the global style to a named color preset.
    pub(crate) fn set_style_preset(&mut self, preset: StylePreset)
        ensures
            final(self)@ == old(self)@.with_event(EventV::StyleColors(preset)),
    {
        self.log(Event::StyleColors(preset));
    }

    /// Switch the colormap to a built-in preset.
    pub(crate) fn colormap_preset(&mut self, map: Colormap, samples: u32)
        ensures
            final(self)@ == old(self)@.with_event(EventV::ColormapPreset { map, samples }),
    {
        self.log(Event::ColormapPreset { map, samples });
    }

    /// Replace the colormap by an explicit list of colors.
    pub(crate) fn colormap_custom(&mut self, colors: Vec<Color>)
        ensures
            final(self)@ == old(self)@.with_event(EventV::ColormapCustom { colors: colors@ }),
    {
        self.log(Event::ColormapCustom { colors });
    }

    /// Push a color override onto the style color stack.
    pub(crate) fn push_color(
        &mut self,
        element: PlotColorElement,
        red: i64,
        green: i64,
        blue: i64,
        alpha: i64,
    )
        requires
            old(self)@.color_stack < usize::MAX,
        ensures
            final(self)@ == (EngineV {
                color_stack: old(self)@.color_stack + 1,
                ..old(self)@
            }).with_event(EventV::PushStyleColor { element, red, green, blue, alpha }),
    {
        self.color_stack = self.color_stack + 1;
        self.log(Event::PushStyleColor { element, red, green, blue, alpha });
    }

    /// Pop the top color override from the style color stack.
    pub(crate) fn pop_color(&mut self)
        requires
            old(self)@.color_stack > 0,
        ensures
            final(self)@ == (EngineV {
                color_stack: old(self)@.color_stack - 1,
                ..old(self)@
            }).with_event(EventV::PopStyleColor),
    {
        self.color_stack = self.color_stack - 1;
        self.log(Event::PopStyleColor);
    }

    /// Push a scalar style variable override onto the style var stack.
    pub(crate) fn push_var_float(&mut self, var: StyleVar, value: i64)
        requires
            old(self)@.var_stack < usize::MAX,
        ensures
            final(self)@ == (EngineV {
                var_stack: old(self)@.var_stack + 1,
                ..old(self)@
            }).with_event(EventV::PushStyleVarFloat { var, value }),
    {
        self.var_stack = self.var_stack + 1;
        self.log(Event::PushStyleVarFloat { var, value });
    }

    /// Push an integer style variable override onto the style var stack.
    pub(crate) fn push_var_int(&mut self, var: StyleVar, value: i32)
        requires
            old(self)@.var_stack < usize::MAX,
        ensures
            final(self)@ == (EngineV {
                var_stack: old(self)@.var_stack + 1,
                ..old(self)@
            }).with_event(EventV::PushStyleVarInt { var, value }),
    {
        self.var_stack = self.var_stack + 1;
        self.log(Event::PushStyleVarInt { var, value });
    }

    /// Push a two-component style variable override onto the style var stack.
    pub(crate) fn push_var_vec2(&mut self, var: StyleVar, x: i64, y: i64)
        requires
            old(self)@.var_stack < usize::MAX,
        ensures
            final(self)@ == (EngineV {
                var_stack: old(self)@.var_stack + 1,
                ..old(self)@
            }).with_event(EventV::PushStyleVarVec2 { var, x, y }),
    {
        self.var_stack = self.var_stack + 1;
        self.log(Event::PushStyleVarVec2 { var, x, y });
    }

    /// Pop the top style variable override from the style var stack.
    pub(crate) fn pop_var(&mut self)
        requires
            old(self)@.var_stack > 0,
        ensures
            final(self)@ == (EngineV {
                var_stack: old(self)@.var_stack - 1,
                ..old(self)@
            }).with_event(EventV::PopStyleVar),
    {
        self.var_stack = self.var_stack - 1;
        self.log(Event::PopStyleVar);
    }

    /// Add an entry to the pool of shared axis ranges and return its handle.
    pub fn create_shared_range(&mut self, range: PlotRange) -> (h: SharedRange)
        requires
            old(self)@.shared.len() < usize::MAX,
        ensures
            h.slot == old(self)@.shared.len(),
            final(self)@ == (EngineV { shared: old(self)@.shared.push(range), ..old(self)@ }),
    {
        let slot = self.shared.len();
        self.shared.push(range);
        SharedRange { slot }
    }

    /// Read the current value of a shared axis range.
    pub fn read_shared_range(&self, h: SharedRange) -> (r: PlotRange)
        requires
            h.slot < self@.shared.len(),
        ensures
            r == self@.shared[h.slot as int],
    {
        self.shared[h.slot]
    }

    /// Overwrite the value of a shared axis range.
    pub fn write_shared_range(&mut self, h: SharedRange, range: PlotRange)
        requires
            h.slot < old(self)@.shared.len(),
        ensures
            final(self)@ == (EngineV {
                shared: old(self)@.shared.update(h.slot as int, range),
                ..old(self)@
            }),
    {
        self.shared[h.slot] = range;
    }

    /// Choose whether the next begun plot renders.  Stands for the frame
    /// circumstances — a clipped or collapsed plot area — that make the back
    /// end skip a plot; it stays in force until changed.
    pub fn set_next_plot_visible(&mut self, visible: bool)
        ensures
            final(self)@ == (EngineV { next_visible: visible, ..old(self)@ }),
    {
        self.next_visible = visible;
    }

    /// Record whether the current or most recent plot is hovered.
    pub fn set_hovered(&mut self, hovered: bool)
        ensures
            final(self)@ == (EngineV { hovered, ..old(self)@ }),
    {
        self.hovered = hovered;
    }

    /// Record whether the current or most recent plot is queried.
    pub fn set_queried(&mut self, queried: bool)
        ensures
            final(self)@ == (EngineV { queried, ..old(self)@ }),
    {
        self.queried = queried;
    }

    /// Record the mouse position in the current or most recent plot's space.
    pub fn set_mouse_position(&mut self, mouse: PlotPoint)
        ensures
            final(self)@ == (EngineV { mouse, ..old(self)@ }),
    {
        self.mouse = mouse;
    }

    /// Record the query limits of the current or most recent plot.
    pub fn set_query_limits(&mut self, query_limits: PlotLimits)
        ensures
            final(self)@ == (EngineV { query_limits, ..old(self)@ }),
    {
        self.query_limits = query_limits;
    }

    /// Change the open plot's X axis range.  Stands for the interaction —
    /// panning, zooming — that moves an axis while the plot is open.
    pub fn set_current_x_limits(&mut self, range: PlotRange)
        requires
            old(self)@.open is Some,
        ensures
            final(self)@ == (EngineV { last_x: range, ..old(self)@ }),
    {
        self.last_x = range;
    }

    /// Change the range of one of the open plot's Y axes.
    pub fn set_current_y_limits(&mut self, axis: crate::YAxisChoice, range: PlotRange)
        requires
            old(self)@.open is Some,
        ensures
            final(self)@ == match axis {
                crate::YAxisChoice::First => (EngineV { last_y0: range, ..old(self)@ }),
                crate::YAxisChoice::Second => (EngineV { last_y1: range, ..old(self)@ }),
                crate::YAxisChoice::Third => (EngineV { last_y2: range, ..old(self)@ }),
            },
    {
        match axis {
            crate::YAxisChoice::First => self.last_y0 = range,
            crate::YAxisChoice::Second => self.last_y1 = range,
            crate::YAxisChoice::Third => self.last_y2 = range,
        }
    }

    /// Whether the current or most recent plot is hovered.
    pub fn hovered(&self) -> (r: bool)
        ensures
            r == self@.hovered,
    {
        self.hovered
    }

    /// Whether the current or most recent plot is queried.
    pub fn queried(&self) -> (r: bool)
        ensures
            r == self@.queried,
    {
        self.queried
    }

    /// The mouse position in the current or most recent plot's space.
    pub fn mouse_position(&self) -> (r: PlotPoint)
        ensures
            r == self@.mouse,
    {
        self.mouse
    }

    /// The current or most recent plot's limits: the X axis and the first Y
    /// axis.
    pub fn current_limits(&self) -> (r: PlotLimits)
        ensures
            r == (PlotLimits { x: self@.last_x, y: self@.last_y0 }),
    {
        PlotLimits { x: self.last_x, y: self.last_y0 }
    }

    /// The query limits of the current or most recent plot.
    pub fn current_query(&self) -> (r: PlotLimits)
        ensures
            r == self@.query_limits,
    {
        self.query_limits
    }

    /// Stage a literal limit for the X axis of the next plot, clearing any
    /// staged link.
    pub(crate) fn set_next_x_limits(&mut self, range: PlotRange, cond: Condition)
        ensures
            final(self)@ == (EngineV {
                pend_x: Option::Some(FixedLimit { range, cond }),
                link_x: Option::None,
                ..old(self)@
            }),
    {
        self.pend_x = Option::Some(FixedLimit { range, cond });
        self.link_x = Option::None;
    }

    /// Bind the X axis of the next plot to a shared range, clearing any
    /// staged literal limit.
    pub(crate) fn link_next_x(&mut self, h: SharedRange)
        requires
            h.slot < old(self)@.shared.len(),
        ensures
            final(self)@ == (EngineV {
                pend_x: Option::None,
                link_x: Option::Some(h.slot),
                ..old(self)@
            }),
    {
        self.pend_x = Option::None;
        self.link_x = Option::Some(h.slot);
    }

    /// Stage a literal limit for one Y axis of the next plot, clearing any
    /// staged link for that axis.
    pub(crate) fn set_next_y_limits(
        &mut self,
        axis: crate::YAxisChoice,
        range: PlotRange,
        cond: Condition,
    )
        ensures
            final(self)@ == match axis {
                crate::YAxisChoice::First => (EngineV {
                    pend_y0: Option::Some(FixedLimit { range, cond }),
                    link_y0: Option::None,
                    ..old(self)@
                }),
                crate::YAxisChoice::Second => (EngineV {
                    pend_y1: Option::Some(FixedLimit { range, cond }),
                    link_y1: Option::None,
                    ..old(self)@
                }),
                crate::YAxisChoice::Third => (EngineV {
                    pend_y2: Option::Some(FixedLimit { range, cond }),
                    link_y2: Option::None,
                    ..old(self)@
                }),
            },
    {
        match axis {
            crate::YAxisChoice::First => {
                self.pend_y0 = Option::Some(FixedLimit { range, cond });
                self.link_y0 = Option::None;
            },
            crate::YAxisChoice::Second => {
                self.pend_y1 = Option::Some(FixedLimit { range, cond });
                self.link_y1 = Option::None;
            },
            crate::YAxisChoice::Third => {
                self.pend_y2 = Option::Some(FixedLimit { range, cond });
                self.link_y2 = Option::None;
            },
        }
    }

    /// Bind one Y axis of the next plot to a shared range, clearing any
    /// staged literal limit for that axis.
    pub(crate) fn link_next_y(&mut self, axis: crate::YAxisChoice, h: SharedRange)
        requires
            h.slot < old(self)@.shared.len(),
        ensures
            final(self)@ == match axis {
                crate::YAxisChoice::First => (EngineV {
                    pend_y0: Option::None,
                    link_y0: Option::Some(h.slot),
                    ..old(self)@
                }),
                crate::YAxisChoice::Second => (EngineV {
                    pend_y1: Option::None,
                    link_y1: Option::Some(h.slot),
                    ..old(self)@
                }),
                crate::YAxisChoice::Third => (EngineV {
                    pend_y2: Option::None,
                    link_y2: Option::Some(h.slot),
                    ..old(self)@
                }),
            },
    {
        match axis {
            crate::YAxisChoice::First => {
                self.pend_y0 = Option::None;
                self.link_y0 = Option::Some(h.slot);
            },
            crate::YAxisChoice::Second => {
                self.pend_y1 = Option::None;
                self.link_y1 = Option::Some(h.slot);
            },
            crate::YAxisChoice::Third => {
                self.pend_y2 = Option::None;
                self.link_y2 = Option::Some(h.slot);
            },
        }
    }

    /// Begin a plot with the staged limits and links and the configuration
    /// in `rec`, whose `x_limits`/`y_limits*`, `legend` and `rendered`
    /// fields are filled in here from what the back end resolves.
    ///
    /// Returns whether the plot renders this frame.  The staged limits and
    /// links are consumed either way; the axis ranges take the applied
    /// values; the open-plot slot is filled only when the plot renders.
    #[verifier::rlimit(60)]
    pub(crate) fn begin_plot(&mut self, rec: BeginRecord) -> (r: bool)
        requires
            old(self)@.ctx_active,
            old(self)@.open is None,
        ensures
            r == old(self)@.next_visible,
            final(self)@ == old(self)@.begin_effect(rec@),
    {
        let rendered = self.next_visible;
        let ax = match self.link_x {
            Option::Some(slot) => if slot < self.shared.len() {
                Option::Some(AppliedLimits::Linked { slot, range: self.shared[slot] })
            } else {
                Option::None
            },
            Option::None => match self.pend_x {
                Option::Some(f) => Option::Some(AppliedLimits::Fixed(f)),
                Option::None => Option::None,
            },
        };
        let ay0 = match self.link_y0 {
            Option::Some(slot) => if slot < self.shared.len() {
                Option::Some(AppliedLimits::Linked { slot, range: self.shared[slot] })
            } else {
                Option::None
            },
            Option::None => match self.pend_y0 {
                Option::Some(f) => Option::Some(AppliedLimits::Fixed(f)),
                Option::None => Option::None,
            },
        };
        let ay1 = match self.link_y1 {
            Option::Some(slot) => if slot < self.shared.len() {
                Option::Some(AppliedLimits::Linked { slot, range: self.shared[slot] })
            } else {
                Option::None
            },
            Option::None => match self.pend_y1 {
                Option::Some(f) => Option::Some(AppliedLimits::Fixed(f)),
                Option::None => Option::None,
            },
        };
        let ay2 = match self.link_y2 {
            Option::Some(slot) => if slot < self.shared.len() {
                Option::Some(AppliedLimits::Linked { slot, range: self.shared[slot] })
            } else {
                Option::None
            },
            Option::None => match self.pend_y2 {
                Option::Some(f) => Option::Some(AppliedLimits::Fixed(f)),
                Option::None => Option::None,
            },
        };
        self.last_x = match ax {
            Option::Some(AppliedLimits::Fixed(f)) => f.range,
            Option::Some(AppliedLimits::Linked { slot: _, range }) => range,
            Option::None => self.last_x,
        };
        self.last_y0 = match ay0 {
            Option::Some(AppliedLimits::Fixed(f)) => f.range,
            Option::Some(AppliedLimits::Linked { slot: _, range }) => range,
            Option::None => self.last_y0,
        };
        self.last_y1 = match ay1 {
            Option::Some(AppliedLimits::Fixed(f)) => f.range,
            Option::Some(AppliedLimits::Linked { slot: _, range }) => range,
            Option::None => self.last_y1,
        };
        self.last_y2 = match ay2 {
            Option::Some(AppliedLimits::Fixed(f)) => f.range,
            Option::Some(AppliedLimits::Linked { slot: _, range }) => range,
            Option::None => self.last_y2,
        };
        self.open = if rendered {
            Option::Some(
                OpenPlot {
                    link_x: self.link_x,
                    link_y0: self.link_y0,
                    link_y1: self.link_y1,
                    link_y2: self.link_y2,
                },
            )
        } else {
            Option::None
        };
        self.pend_x = Option::None;
        self.pend_y0 = Option::None;
        self.pend_y1 = Option::None;
        self.pend_y2 = Option::None;
        self.link_x = Option::None;
        self.link_y0 = Option::None;
        self.link_y1 = Option::None;
        self.link_y2 = Option::None;
        let mut filled = rec;
        filled.x_limits = ax;
        filled.y_limits0 = ay0;
        filled.y_limits1 = ay1;
        filled.y_limits2 = ay2;
        filled.legend = if rendered {
            filled.legend
        } else {
            Option::None
        };
        filled.rendered = rendered;
        self.log(Event::BeginPlot(filled));
        rendered
    }

    /// End the open plot.  The current axis ranges are written back to the
    /// pool entries the plot's axes were linked to, and the open-plot slot
    /// is cleared.
    pub(crate) fn end_plot(&mut self)
        requires
            old(self)@.open is Some,
        ensures
            final(self)@ == old(self)@.end_effect(),
    {
        let op = match self.open {
            Option::Some(op) => op,
            Option::None => OpenPlot {
                link_x: Option::None,
                link_y0: Option::None,
                link_y1: Option::None,
                link_y2: Option::None,
            },
        };
        if let Option::Some(slot) = op.link_x {
            if slot < self.shared.len() {
                self.shared[slot] = self.last_x;
            }
        }
        if let Option::Some(slot) = op.link_y0 {
            if slot < self.shared.len() {
                self.shared[slot] = self.last_y0;
            }
        }
        if let Option::Some(slot) = op.link_y1 {
            if slot < self.shared.len() {
                self.shared[slot] = self.last_y1;
            }
        }
        if let Option::Some(slot) = op.link_y2 {
            if slot < self.shared.len() {
                self.shared[slot] = self.last_y2;
            }
        }
        self.open = Option::None;
        self.log(Event::EndPlot);
    }

    /// Submit one draw command to the open plot.
    pub(crate) fn submit_draw(&mut self, cmd: DrawCmd)
        requires
            old(self)@.open is Some,
        ensures
            final(self)@ == old(self)@.with_event(EventV::Draw(cmd@)),
    {
        self.log(Event::Draw(cmd));
    }
}

} // verus!
