//! The plot builder and the open/close protocol.
//!
//! A [`Plot`] accumulates a plot's configuration — size, labels, axis
//! limits, tick marks, flags, legend placement — through chained calls,
//! with no effect on the back end.  [`Plot::begin`] hands the accumulated
//! configuration to the back end in one step; if the back end signals that
//! the plot renders, it returns a [`PlotToken`] that must be ended exactly
//! once.
use vstd::prelude::*;

use crate::engine::BeginRecord;
use crate::engine::BeginRecordV;
use crate::engine::Engine;
use crate::engine::EngineV;
use crate::engine::FixedLimit;
use crate::engine::LegendSpec;
use crate::engine::SharedRange;
use crate::engine::Ticks;
use crate::engine::TicksV;
use crate::has_nul;
use crate::str_has_nul;
use crate::Condition;
use crate::PlotError;
use crate::PlotLocation;
use crate::PlotOrientation;
use crate::PlotRange;
use crate::PlotUi;
use crate::YAxisChoice;

verus! {

/// No plot flag set.
pub const PLOT_FLAG_NONE: u32 = 0;

/// Plot items are not highlighted when their legend entry is hovered, and
/// no legend is shown.
pub const PLOT_FLAG_NO_LEGEND: u32 = 1;

/// Context menus cannot be opened with a double right click.
pub const PLOT_FLAG_NO_MENUS: u32 = 2;

/// Box selection with the right mouse button is disabled.
pub const PLOT_FLAG_NO_BOX_SELECT: u32 = 4;

/// The mouse position is not displayed in plot coordinates.
pub const PLOT_FLAG_NO_MOUSE_POSITION: u32 = 8;

/// Plot items are not highlighted when their legend entry is hovered.
pub const PLOT_FLAG_NO_HIGHLIGHT: u32 = 16;

/// No child window region is used to capture mouse scroll.
pub const PLOT_FLAG_NO_CHILD: u32 = 32;

/// The plot uses a 1:1 aspect ratio.
pub const PLOT_FLAG_AXIS_EQUAL: u32 = 64;

/// A second Y axis is enabled.
pub const PLOT_FLAG_Y_AXIS_2: u32 = 128;

/// A third Y axis is enabled.
pub const PLOT_FLAG_Y_AXIS_3: u32 = 256;

/// Query rectangles can be drawn with the middle mouse button.
pub const PLOT_FLAG_QUERY: u32 = 512;

/// The mouse cursor is replaced by a crosshair when hovering the plot.
pub const PLOT_FLAG_CROSSHAIRS: u32 = 1024;

/// Plot lines are drawn anti-aliased.
pub const PLOT_FLAG_ANTIALIASED: u32 = 2048;

/// No axis flag set.
pub const AXIS_FLAG_NONE: u32 = 0;

/// Grid lines are not displayed.
pub const AXIS_FLAG_NO_GRID_LINES: u32 = 1;

/// Tick marks are not displayed.
pub const AXIS_FLAG_NO_TICK_MARKS: u32 = 2;

/// Tick labels are not displayed.
pub const AXIS_FLAG_NO_TICK_LABELS: u32 = 4;

/// The axis uses a logarithmic scale.
pub const AXIS_FLAG_LOG_SCALE: u32 = 8;

/// The axis displays date and time labels.
pub const AXIS_FLAG_TIME: u32 = 16;

/// The axis is inverted.
pub const AXIS_FLAG_INVERT: u32 = 32;

/// The axis minimum is locked when panning or zooming.
pub const AXIS_FLAG_LOCK_MIN: u32 = 64;

/// The axis maximum is locked when panning or zooming.
pub const AXIS_FLAG_LOCK_MAX: u32 = 128;

/// A combination of plot behavior flags, built up fluently from
/// [`PlotFlags::none`].
#[derive(Clone, Copy, Debug, PartialEq, Eq, Structural)]
pub struct PlotFlags {
    /// The combined flag bits.
    pub bits: u32,
}

impl PlotFlags {
    /// No flag set.
    pub fn none() -> (r: PlotFlags)
        ensures
            r.bits == PLOT_FLAG_NONE,
    {
        PlotFlags { bits: PLOT_FLAG_NONE }
    }

    /// Also disable the legend.
    pub fn no_legend(self) -> (r: PlotFlags)
        ensures
            r.bits == self.bits | PLOT_FLAG_NO_LEGEND,
    {
        PlotFlags { bits: self.bits | PLOT_FLAG_NO_LEGEND }
    }

    /// Also disable context menus.
    pub fn no_menus(self) -> (r: PlotFlags)
        ensures
            r.bits == self.bits | PLOT_FLAG_NO_MENUS,
    {
        PlotFlags { bits: self.bits | PLOT_FLAG_NO_MENUS }
    }

    /// Also disable box selection.
    pub fn no_box_select(self) -> (r: PlotFlags)
        ensures
            r.bits == self.bits | PLOT_FLAG_NO_BOX_SELECT,
    {
        PlotFlags { bits: self.bits | PLOT_FLAG_NO_BOX_SELECT }
    }

    /// Also hide the mouse position readout.
    pub fn no_mouse_position(self) -> (r: PlotFlags)
        ensures
            r.bits == self.bits | PLOT_FLAG_NO_MOUSE_POSITION,
    {
        PlotFlags { bits: self.bits | PLOT_FLAG_NO_MOUSE_POSITION }
    }

    /// Also disable legend-hover highlighting.
    pub fn no_highlight(self) -> (r: PlotFlags)
        ensures
            r.bits == self.bits | PLOT_FLAG_NO_HIGHLIGHT,
    {
        PlotFlags { bits: self.bits | PLOT_FLAG_NO_HIGHLIGHT }
    }

    /// Also skip the child window region.
    pub fn no_child(self) -> (r: PlotFlags)
        ensures
            r.bits == self.bits | PLOT_FLAG_NO_CHILD,
    {
        PlotFlags { bits: self.bits | PLOT_FLAG_NO_CHILD }
    }

    /// Also use a 1:1 aspect ratio.
    pub fn axis_equal(self) -> (r: PlotFlags)
        ensures
            r.bits == self.bits | PLOT_FLAG_AXIS_EQUAL,
    {
        PlotFlags { bits: self.bits | PLOT_FLAG_AXIS_EQUAL }
    }

    /// Also enable a second Y axis.
    pub fn y_axis_2(self) -> (r: PlotFlags)
        ensures
            r.bits == self.bits | PLOT_FLAG_Y_AXIS_2,
    {
        PlotFlags { bits: self.bits | PLOT_FLAG_Y_AXIS_2 }
    }

    /// Also enable a third Y axis.
    pub fn y_axis_3(self) -> (r: PlotFlags)
        ensures
            r.bits == self.bits | PLOT_FLAG_Y_AXIS_3,
    {
        PlotFlags { bits: self.bits | PLOT_FLAG_Y_AXIS_3 }
    }

    /// Also enable query rectangles.
    pub fn query(self) -> (r: PlotFlags)
        ensures
            r.bits == self.bits | PLOT_FLAG_QUERY,
    {
        PlotFlags { bits: self.bits | PLOT_FLAG_QUERY }
    }

    /// Also show a crosshair cursor.
    pub fn crosshairs(self) -> (r: PlotFlags)
        ensures
            r.bits == self.bits | PLOT_FLAG_CROSSHAIRS,
    {
        PlotFlags { bits: self.bits | PLOT_FLAG_CROSSHAIRS }
    }

    /// Also draw anti-aliased lines.
    pub fn anti_aliased(self) -> (r: PlotFlags)
        ensures
            r.bits == self.bits | PLOT_FLAG_ANTIALIASED,
    {
        PlotFlags { bits: self.bits | PLOT_FLAG_ANTIALIASED }
    }
}

/// A combination of axis flags, built up fluently from [`AxisFlags::none`].
#[derive(Clone, Copy, Debug, PartialEq, Eq, Structural)]
pub struct AxisFlags {
    /// The combined flag bits.
    pub bits: u32,
}

impl AxisFlags {
    /// No flag set.
    pub fn none() -> (r: AxisFlags)
        ensures
            r.bits == AXIS_FLAG_NONE,
    {
        AxisFlags { bits: AXIS_FLAG_NONE }
    }

    /// Also hide grid lines.
    pub fn no_grid_lines(self) -> (r: AxisFlags)
        ensures
            r.bits == self.bits | AXIS_FLAG_NO_GRID_LINES,
    {
        AxisFlags { bits: self.bits | AXIS_FLAG_NO_GRID_LINES }
    }

    /// Also hide tick marks.
    pub fn no_tick_marks(self) -> (r: AxisFlags)
        ensures
            r.bits == self.bits | AXIS_FLAG_NO_TICK_MARKS,
    {
        AxisFlags { bits: self.bits | AXIS_FLAG_NO_TICK_MARKS }
    }

    /// Also hide tick labels.
    pub fn no_tick_labels(self) -> (r: AxisFlags)
        ensures
            r.bits == self.bits | AXIS_FLAG_NO_TICK_LABELS,
    {
        AxisFlags { bits: self.bits | AXIS_FLAG_NO_TICK_LABELS }
    }

    /// Also use a logarithmic scale.
    pub fn log_scale(self) -> (r: AxisFlags)
        ensures
            r.bits == self.bits | AXIS_FLAG_LOG_SCALE,
    {
        AxisFlags { bits: self.bits | AXIS_FLAG_LOG_SCALE }
    }

    /// Also display date and time labels.
    pub fn time(self) -> (r: AxisFlags)
        ensures
            r.bits == self.bits | AXIS_FLAG_TIME,
    {
        AxisFlags { bits: self.bits | AXIS_FLAG_TIME }
    }

    /// Also invert the axis.
    pub fn invert(self) -> (r: AxisFlags)
        ensures
            r.bits == self.bits | AXIS_FLAG_INVERT,
    {
        AxisFlags { bits: self.bits | AXIS_FLAG_INVERT }
    }

    /// Also lock the axis minimum.
    pub fn lock_min(self) -> (r: AxisFlags)
        ensures
            r.bits == self.bits | AXIS_FLAG_LOCK_MIN,
    {
        AxisFlags { bits: self.bits | AXIS_FLAG_LOCK_MIN }
    }

    /// Also lock the axis maximum.
    pub fn lock_max(self) -> (r: AxisFlags)
        ensures
            r.bits == self.bits | AXIS_FLAG_LOCK_MAX,
    {
        AxisFlags { bits: self.bits | AXIS_FLAG_LOCK_MAX }
    }
}

/// How one axis's limits are configured: a literal range with a timing
/// condition, or a binding to a shared range.  Whichever is set last on a
/// builder wins for that axis.
#[derive(Clone, Copy, Debug, PartialEq, Eq)]
pub enum AxisLimitSpec {
    /// A literal limit, applied under the given condition.
    Single(FixedLimit),
    /// A binding to a shared range of the engine's pool.
    Linked(SharedRange),
}

/// Abstract value of a [`Plot`] builder.
#[verifier::ext_equal]
pub struct PlotV {
    /// Title of the plot.
    pub title: Seq<char>,
    /// Label of the X axis.
    pub x_label: Seq<char>,
    /// Label of the first Y axis.
    pub y_label: Seq<char>,
    /// Width of the plot, in layout units.
    pub width: u32,
    /// Height of the plot, in layout units.
    pub height: u32,
    /// Configured limit of the X axis, if any.
    pub x_limits: Option<AxisLimitSpec>,
    /// Configured limit of the first Y axis, if any.
    pub y_limits0: Option<AxisLimitSpec>,
    /// Configured limit of the second Y axis, if any.
    pub y_limits1: Option<AxisLimitSpec>,
    /// Configured limit of the third Y axis, if any.
    pub y_limits2: Option<AxisLimitSpec>,
    /// Custom tick positions of the X axis, if any.
    pub x_tick_positions: Option<Seq<i64>>,
    /// Custom tick labels of the X axis, if any.
    pub x_tick_labels: Option<Seq<Seq<char>>>,
    /// Whether the default X ticks are shown beside the custom ones.
    pub show_x_default_ticks: bool,
    /// Custom tick positions of the first Y axis, if any.
    pub y_tick_positions0: Option<Seq<i64>>,
    /// Custom tick labels of the first Y axis, if any.
    pub y_tick_labels0: Option<Seq<Seq<char>>>,
    /// Whether the default ticks of the first Y axis are shown as well.
    pub show_y_default_ticks0: bool,
    /// Custom tick positions of the second Y axis, if any.
    pub y_tick_positions1: Option<Seq<i64>>,
    /// Custom tick labels of the second Y axis, if any.
    pub y_tick_labels1: Option<Seq<Seq<char>>>,
    /// Whether the default ticks of the second Y axis are shown as well.
    pub show_y_default_ticks1: bool,
    /// Custom tick positions of the third Y axis, if any.
    pub y_tick_positions2: Option<Seq<i64>>,
    /// Custom tick labels of the third Y axis, if any.
    pub y_tick_labels2: Option<Seq<Seq<char>>>,
    /// Whether the default ticks of the third Y axis are shown as well.
    pub show_y_default_ticks2: bool,
    /// Configured legend placement, if any.
    pub legend: Option<LegendSpec>,
    /// Plot behavior flag bits.
    pub plot_flags: u32,
    /// X axis flag bits.
    pub x_flags: u32,
    /// Flag bits of the first Y axis.
    pub y_flags0: u32,
    /// Flag bits of the second Y axis.
    pub y_flags1: u32,
    /// Flag bits of the third Y axis.
    pub y_flags2: u32,
}

/// The shallow sequence view of optional tick positions.
pub open spec fn opt_positions(v: Option<Vec<i64>>) -> Option<Seq<i64>> {
    match v {
        Option::Some(p) => Option::Some(p@),
        Option::None => Option::None,
    }
}

/// The deep sequence view of optional tick labels.
pub open spec fn opt_labels(v: Option<Vec<String>>) -> Option<Seq<Seq<char>>> {
    match v {
        Option::Some(l) => Option::Some(l.deep_view()),
        Option::None => Option::None,
    }
}

/// The positions of a position-and-label list.
pub open spec fn tick_positions_of(tl: Seq<(i64, String)>) -> Seq<i64> {
    Seq::new(tl.len(), |i: int| tl[i].0)
}

/// The labels of a position-and-label list.
pub open spec fn tick_labels_of(tl: Seq<(i64, String)>) -> Seq<Seq<char>> {
    Seq::new(tl.len(), |i: int| tl[i].1@)
}

/// The tick set a begin command hands to the back end for one axis: the
/// configured positions and labels, or nothing when no positions were
/// configured or the position list is empty.
pub open spec fn tick_rec(
    pos: Option<Seq<i64>>,
    labels: Option<Seq<Seq<char>>>,
    show: bool,
) -> Option<TicksV> {
    match pos {
        Option::Some(p) => if p.len() > 0 {
            Option::Some(TicksV { positions: p, labels, show_default: show })
        } else {
            Option::None
        },
        Option::None => Option::None,
    }
}

/// Every linked-limit handle of the builder names an entry of the engine's
/// pool.  Handles satisfy this by construction when they come from the same
/// engine's [`Engine::create_shared_range`].
pub open spec fn links_valid(p: PlotV, e: EngineV) -> bool {
    &&& (p.x_limits matches Option::Some(AxisLimitSpec::Linked(h)) ==> h.slot < e.shared.len())
    &&& (p.y_limits0 matches Option::Some(AxisLimitSpec::Linked(h)) ==> h.slot < e.shared.len())
    &&& (p.y_limits1 matches Option::Some(AxisLimitSpec::Linked(h)) ==> h.slot < e.shared.len())
    &&& (p.y_limits2 matches Option::Some(AxisLimitSpec::Linked(h)) ==> h.slot < e.shared.len())
}

/// The engine state after the builder's limits and links are staged: for
/// each axis with a configured limit, the pending literal limit or link is
/// set and the other cleared; axes without a configured limit stage
/// nothing.
pub open spec fn staged(p: PlotV, e: EngineV) -> EngineV {
    let e1 = match p.x_limits {
        Option::Some(AxisLimitSpec::Single(f)) => EngineV {
            pend_x: Option::Some(f),
            link_x: Option::None,
            ..e
        },
        Option::Some(AxisLimitSpec::Linked(h)) => EngineV {
            pend_x: Option::None,
            link_x: Option::Some(h.slot),
            ..e
        },
        Option::None => e,
    };
    let e2 = match p.y_limits0 {
        Option::Some(AxisLimitSpec::Single(f)) => EngineV {
            pend_y0: Option::Some(f),
            link_y0: Option::None,
            ..e1
        },
        Option::Some(AxisLimitSpec::Linked(h)) => EngineV {
            pend_y0: Option::None,
            link_y0: Option::Some(h.slot),
            ..e1
        },
        Option::None => e1,
    };
    let e3 = match p.y_limits1 {
        Option::Some(AxisLimitSpec::Single(f)) => EngineV {
            pend_y1: Option::Some(f),
            link_y1: Option::None,
            ..e2
        },
        Option::Some(AxisLimitSpec::Linked(h)) => EngineV {
            pend_y1: Option::None,
            link_y1: Option::Some(h.slot),
            ..e2
        },
        Option::None => e2,
    };
    match p.y_limits2 {
        Option::Some(AxisLimitSpec::Single(f)) => EngineV {
            pend_y2: Option::Some(f),
            link_y2: Option::None,
            ..e3
        },
        Option::Some(AxisLimitSpec::Linked(h)) => EngineV {
            pend_y2: Option::None,
            link_y2: Option::Some(h.slot),
            ..e3
        },
        Option::None => e3,
    }
}

impl PlotV {
    /// The builder state right after construction: nominal size, empty
    /// labels, no limits, no ticks, anti-aliasing on, no special flags.
    pub open spec fn initial(title: Seq<char>) -> PlotV {
        PlotV {
            title,
            x_label: Seq::empty(),
            y_label: Seq::empty(),
            width: 400,
            height: 400,
            x_limits: Option::None,
            y_limits0: Option::None,
            y_limits1: Option::None,
            y_limits2: Option::None,
            x_tick_positions: Option::None,
            x_tick_labels: Option::None,
            show_x_default_ticks: false,
            y_tick_positions0: Option::None,
            y_tick_labels0: Option::None,
            show_y_default_ticks0: false,
            y_tick_positions1: Option::None,
            y_tick_labels1: Option::None,
            show_y_default_ticks1: false,
            y_tick_positions2: Option::None,
            y_tick_labels2: Option::None,
            show_y_default_ticks2: false,
            legend: Option::None,
            plot_flags: PLOT_FLAG_ANTIALIASED,
            x_flags: AXIS_FLAG_NONE,
            y_flags0: AXIS_FLAG_NONE,
            y_flags1: AXIS_FLAG_NONE,
            y_flags2: AXIS_FLAG_NONE,
        }
    }

    /// This configuration with the limit of one Y axis replaced.
    pub open spec fn with_y_limits(self, axis: YAxisChoice, v: Option<AxisLimitSpec>) -> PlotV {
        match axis {
            YAxisChoice::First => PlotV { y_limits0: v, ..self },
            YAxisChoice::Second => PlotV { y_limits1: v, ..self },
            YAxisChoice::Third => PlotV { y_limits2: v, ..self },
        }
    }

    /// The configured tick labels of one Y axis.
    pub open spec fn y_tick_labels_of(self, axis: YAxisChoice) -> Option<Seq<Seq<char>>> {
        match axis {
            YAxisChoice::First => self.y_tick_labels0,
            YAxisChoice::Second => self.y_tick_labels1,
            YAxisChoice::Third => self.y_tick_labels2,
        }
    }

    /// The configured limit of one Y axis.
    pub open spec fn y_limits_of(self, axis: YAxisChoice) -> Option<AxisLimitSpec> {
        match axis {
            YAxisChoice::First => self.y_limits0,
            YAxisChoice::Second => self.y_limits1,
            YAxisChoice::Third => self.y_limits2,
        }
    }

    /// This configuration with the ticks of one Y axis replaced.
    pub open spec fn with_y_ticks(
        self,
        axis: YAxisChoice,
        positions: Option<Seq<i64>>,
        labels: Option<Seq<Seq<char>>>,
        show: bool,
    ) -> PlotV {
        match axis {
            YAxisChoice::First => PlotV {
                y_tick_positions0: positions,
                y_tick_labels0: labels,
                show_y_default_ticks0: show,
                ..self
            },
            YAxisChoice::Second => PlotV {
                y_tick_positions1: positions,
                y_tick_labels1: labels,
                show_y_default_ticks1: show,
                ..self
            },
            YAxisChoice::Third => PlotV {
                y_tick_positions2: positions,
                y_tick_labels2: labels,
                show_y_default_ticks2: show,
                ..self
            },
        }
    }

    /// This configuration with the flags of one Y axis replaced.
    pub open spec fn with_y_flags(self, axis: YAxisChoice, bits: u32) -> PlotV {
        match axis {
            YAxisChoice::First => PlotV { y_flags0: bits, ..self },
            YAxisChoice::Second => PlotV { y_flags1: bits, ..self },
            YAxisChoice::Third => PlotV { y_flags2: bits, ..self },
        }
    }

    /// The configuration record this builder hands to the back end at
    /// begin.  The applied-limit fields are filled in by the back end; the
    /// tick sets are the configured ones, dropped when empty.
    pub open spec fn begin_rec(self) -> BeginRecordV {
        BeginRecordV {
            title: self.title,
            x_label: self.x_label,
            y_label: self.y_label,
            width: self.width,
            height: self.height,
            flags: self.plot_flags,
            x_flags: self.x_flags,
            y_flags0: self.y_flags0,
            y_flags1: self.y_flags1,
            y_flags2: self.y_flags2,
            x_limits: Option::None,
            y_limits0: Option::None,
            y_limits1: Option::None,
            y_limits2: Option::None,
            x_ticks: tick_rec(self.x_tick_positions, self.x_tick_labels, self.show_x_default_ticks),
            y_ticks0: tick_rec(
                self.y_tick_positions0,
                self.y_tick_labels0,
                self.show_y_default_ticks0,
            ),
            y_ticks1: tick_rec(
                self.y_tick_positions1,
                self.y_tick_labels1,
                self.show_y_default_ticks1,
            ),
            y_ticks2: tick_rec(
                self.y_tick_positions2,
                self.y_tick_labels2,
                self.show_y_default_ticks2,
            ),
            legend: self.legend,
            rendered: false,
        }
    }
}

/// A plot's configuration, accumulated before it is shown.
///
/// Built with [`Plot::new`], configured with chained calls, and consumed by
/// [`Plot::begin`] or [`Plot::build`]; configuration has no effect on the
/// back end until then.
#[derive(Debug)]
pub struct Plot {
    title: String,
    x_label: String,
    y_label: String,
    width: u32,
    height: u32,
    x_limits: Option<AxisLimitSpec>,
    y_limits0: Option<AxisLimitSpec>,
    y_limits1: Option<AxisLimitSpec>,
    y_limits2: Option<AxisLimitSpec>,
    x_tick_positions: Option<Vec<i64>>,
    x_tick_labels: Option<Vec<String>>,
    show_x_default_ticks: bool,
    y_tick_positions0: Option<Vec<i64>>,
    y_tick_labels0: Option<Vec<String>>,
    show_y_default_ticks0: bool,
    y_tick_positions1: Option<Vec<i64>>,
    y_tick_labels1: Option<Vec<String>>,
    show_y_default_ticks1: bool,
    y_tick_positions2: Option<Vec<i64>>,
    y_tick_labels2: Option<Vec<String>>,
    show_y_default_ticks2: bool,
    legend: Option<LegendSpec>,
    plot_flags: u32,
    x_flags: u32,
    y_flags0: u32,
    y_flags1: u32,
    y_flags2: u32,
}

impl View for Plot {
    type V = PlotV;

    closed spec fn view(&self) -> PlotV {
        PlotV {
            title: self.title@,
            x_label: self.x_label@,
            y_label: self.y_label@,
            width: self.width,
            height: self.height,
            x_limits: self.x_limits,
            y_limits0: self.y_limits0,
            y_limits1: self.y_limits1,
            y_limits2: self.y_limits2,
            x_tick_positions: opt_positions(self.x_tick_positions),
            x_tick_labels: opt_labels(self.x_tick_labels),
            show_x_default_ticks: self.show_x_default_ticks,
            y_tick_positions0: opt_positions(self.y_tick_positions0),
            y_tick_labels0: opt_labels(self.y_tick_labels0),
            show_y_default_ticks0: self.show_y_default_ticks0,
            y_tick_positions1: opt_positions(self.y_tick_positions1),
            y_tick_labels1: opt_labels(self.y_tick_labels1),
            show_y_default_ticks1: self.show_y_default_ticks1,
            y_tick_positions2: opt_positions(self.y_tick_positions2),
            y_tick_labels2: opt_labels(self.y_tick_labels2),
            show_y_default_ticks2: self.show_y_default_ticks2,
            legend: self.legend,
            plot_flags: self.plot_flags,
            x_flags: self.x_flags,
            y_flags0: self.y_flags0,
            y_flags1: self.y_flags1,
            y_flags2: self.y_flags2,
        }
    }
}

/// Copy a vector of positions.
fn copy_i64_vec(v: &Vec<i64>) -> (r: Vec<i64>)
    ensures
        r@ == v@,
{
    let mut out: Vec<i64> = Vec::new();
    let n = v.len();
    let mut i: usize = 0;
    while i < n
        invariant
            i <= n,
            n == v@.len(),
            out@ == v@.take(i as int),
        decreases n - i,
    {
        out.push(v[i]);
        proof {
            assert(out@ =~= v@.take((i + 1) as int));
        }
        i = i + 1;
    }
    proof {
        assert(v@.take(n as int) =~= v@);
    }
    out
}

/// Copy a vector of labels.
fn copy_string_vec(v: &Vec<String>) -> (r: Vec<String>)
    ensures
        r@ == v@,
        r.deep_view() == v.deep_view(),
{
    let mut out: Vec<String> = Vec::new();
    let n = v.len();
    let mut i: usize = 0;
    while i < n
        invariant
            i <= n,
            n == v@.len(),
            out@ == v@.take(i as int),
        decreases n - i,
    {
        out.push(v[i].clone());
        proof {
            assert(out@ =~= v@.take((i + 1) as int));
        }
        i = i + 1;
    }
    proof {
        assert(v@.take(n as int) =~= v@);
        assert(out.deep_view() =~= v.deep_view());
    }
    out
}

/// Build the tick set handed to the back end for one axis, per
/// [`tick_rec`].
fn make_ticks(pos: &Option<Vec<i64>>, labels: &Option<Vec<String>>, show: bool) -> (r: Option<
    Ticks,
>)
    ensures
        r.deep_view() == tick_rec(opt_positions(*pos), opt_labels(*labels), show),
{
    match pos {
        Option::Some(p) => if p.len() > 0 {
            let lab = match labels {
                Option::Some(ls) => Option::Some(copy_string_vec(ls)),
                Option::None => Option::None,
            };
            let t = Ticks { positions: copy_i64_vec(p), labels: lab, show_default: show };
            proof {
                assert(t@ =~= tick_rec(opt_positions(*pos), opt_labels(*labels), show)->0);
            }
            Option::Some(t)
        } else {
            Option::None
        },
        Option::None => Option::None,
    }
}

/// Split a position-and-label list into positions and labels, rejecting
/// any label with an embedded NUL byte.
fn split_tick_labels(tick_labels: &Vec<(i64, String)>) -> (r: Result<
    (Vec<i64>, Vec<String>),
    PlotError,
>)
    ensures
        r is Err <==> exists|j: int|
            0 <= j < tick_labels@.len() && has_nul(#[trigger] tick_labels@[j].1@),
        r is Err ==> r == Result::<(Vec<i64>, Vec<String>), PlotError>::Err(
            PlotError::LabelContainsNul,
        ),
        r matches Result::Ok(pr) ==> pr.0@ == tick_positions_of(tick_labels@) && pr.1.deep_view()
            == tick_labels_of(tick_labels@),
{
    let mut positions: Vec<i64> = Vec::new();
    let mut labels: Vec<String> = Vec::new();
    let n = tick_labels.len();
    let mut i: usize = 0;
    while i < n
        invariant
            i <= n,
            n == tick_labels@.len(),
            positions@.len() == i,
            labels@.len() == i,
            forall|j: int| 0 <= j < i ==> positions@[j] == tick_labels@[j].0,
            forall|j: int| 0 <= j < i ==> (#[trigger] labels@[j])@ == tick_labels@[j].1@,
            forall|j: int| 0 <= j < i ==> !has_nul(#[trigger] tick_labels@[j].1@),
        decreases n - i,
    {
        let t = &tick_labels[i];
        if str_has_nul(t.1.as_str()) {
            return Result::Err(PlotError::LabelContainsNul);
        }
        positions.push(t.0);
        labels.push(t.1.clone());
        i = i + 1;
    }
    proof {
        assert(positions@ =~= tick_positions_of(tick_labels@));
        assert(labels.deep_view() =~= tick_labels_of(tick_labels@));
    }
    Result::Ok((positions, labels))
}

impl Plot {
    /// Create a new plot with default settings: nominal size, empty axis
    /// labels, no limits, no custom ticks, anti-aliasing on, no special
    /// flags.  Nothing is drawn yet.
    ///
    /// Fails with [`PlotError::LabelContainsNul`] if the title contains an
    /// embedded NUL byte.
    pub fn new(title: &str) -> (r: Result<Plot, PlotError>)
        ensures
            r is Ok <==> !has_nul(title@),
            r is Err ==> r == Result::<Plot, PlotError>::Err(PlotError::LabelContainsNul),
            r matches Result::Ok(p) ==> p@ == PlotV::initial(title@),
    {
        if str_has_nul(title) {
            return Result::Err(PlotError::LabelContainsNul);
        }
        let p = Plot {
            title: title.to_owned(),
            x_label: String::new(),
            y_label: String::new(),
            width: 400,
            height: 400,
            x_limits: Option::None,
            y_limits0: Option::None,
            y_limits1: Option::None,
            y_limits2: Option::None,
            x_tick_positions: Option::None,
            x_tick_labels: Option::None,
            show_x_default_ticks: false,
            y_tick_positions0: Option::None,
            y_tick_labels0: Option::None,
            show_y_default_ticks0: false,
            y_tick_positions1: Option::None,
            y_tick_labels1: Option::None,
            show_y_default_ticks1: false,
            y_tick_positions2: Option::None,
            y_tick_labels2: Option::None,
            show_y_default_ticks2: false,
            legend: Option::None,
            plot_flags: PLOT_FLAG_ANTIALIASED,
            x_flags: AXIS_FLAG_NONE,
            y_flags0: AXIS_FLAG_NONE,
            y_flags1: AXIS_FLAG_NONE,
            y_flags2: AXIS_FLAG_NONE,
        };
        proof {
            assert(p@ =~= PlotV::initial(title@));
        }
        Result::Ok(p)
    }

    /// Set the plot size as `[width, height]`, in layout units.
    pub fn size(self, size: [u32; 2]) -> (r: Plot)
        ensures
            r@ == (PlotV { width: size[0], height: size[1], ..self@ }),
    {
        let mut p = self;
        p.width = size[0];
        p.height = size[1];
        p
    }

    /// Set the X axis label.
    ///
    /// Fails with [`PlotError::LabelContainsNul`] if the label contains an
    /// embedded NUL byte.
    pub fn x_label(self, label: &str) -> (r: Result<Plot, PlotError>)
        ensures
            r is Ok <==> !has_nul(label@),
            r is Err ==> r == Result::<Plot, PlotError>::Err(PlotError::LabelContainsNul),
            r matches Result::Ok(p) ==> p@ == (PlotV { x_label: label@, ..self@ }),
    {
        if str_has_nul(label) {
            return Result::Err(PlotError::LabelContainsNul);
        }
        let mut p = self;
        p.x_label = label.to_owned();
        Result::Ok(p)
    }

    /// Set the Y axis label.
    ///
    /// Fails with [`PlotError::LabelContainsNul`] if the label contains an
    /// embedded NUL byte.
    pub fn y_label(self, label: &str) -> (r: Result<Plot, PlotError>)
        ensures
            r is Ok <==> !has_nul(label@),
            r is Err ==> r == Result::<Plot, PlotError>::Err(PlotError::LabelContainsNul),
            r matches Result::Ok(p) ==> p@ == (PlotV { y_label: label@, ..self@ }),
    {
        if str_has_nul(label) {
            return Result::Err(PlotError::LabelContainsNul);
        }
        let mut p = self;
        p.y_label = label.to_owned();
        Result::Ok(p)
    }

    /// Set literal X limits, applied under the given condition.
    ///
    /// Overrides an earlier [`Plot::linked_x_limits`]: whichever is set
    /// last takes effect.
    pub fn x_limits(self, limits: PlotRange, condition: Condition) -> (r: Plot)
        ensures
            r@ == (PlotV {
                x_limits: Option::Some(
                    AxisLimitSpec::Single(FixedLimit { range: limits, cond: condition }),
                ),
                ..self@
            }),
    {
        let mut p = self;
        p.x_limits = Option::Some(
            AxisLimitSpec::Single(FixedLimit { range: limits, cond: condition }),
        );
        p
    }

    /// Bind the X limits to a shared range, so several plots stay
    /// synchronised.
    ///
    /// Overrides an earlier [`Plot::x_limits`]: whichever is set last takes
    /// effect.
    pub fn linked_x_limits(self, limits: SharedRange) -> (r: Plot)
        ensures
            r@ == (PlotV { x_limits: Option::Some(AxisLimitSpec::Linked(limits)), ..self@ }),
    {
        let mut p = self;
        p.x_limits = Option::Some(AxisLimitSpec::Linked(limits));
        p
    }

    /// Set literal limits for the chosen Y axis, applied under the given
    /// condition.
    ///
    /// Overrides an earlier [`Plot::linked_y_limits`] for the same axis:
    /// whichever is set last takes effect.
    pub fn y_limits(self, limits: PlotRange, y_axis_choice: YAxisChoice, condition: Condition) -> (r:
        Plot)
        ensures
            r@ == self@.with_y_limits(
                y_axis_choice,
                Option::Some(AxisLimitSpec::Single(FixedLimit { range: limits, cond: condition })),
            ),
    {
        let mut p = self;
        let v = Option::Some(AxisLimitSpec::Single(FixedLimit { range: limits, cond: condition }));
        match y_axis_choice {
            YAxisChoice::First => p.y_limits0 = v,
            YAxisChoice::Second => p.y_limits1 = v,
            YAxisChoice::Third => p.y_limits2 = v,
        }
        p
    }

    /// Set literal limits for the first Y axis.
    pub fn y1_limits(self, limits: PlotRange, condition: Condition) -> (r: Plot)
        ensures
            r@ == self@.with_y_limits(
                YAxisChoice::First,
                Option::Some(AxisLimitSpec::Single(FixedLimit { range: limits, cond: condition })),
            ),
    {
        self.y_limits(limits, YAxisChoice::First, condition)
    }

    /// Set literal limits for the second Y axis.
    pub fn y2_limits(self, limits: PlotRange, condition: Condition) -> (r: Plot)
        ensures
            r@ == self@.with_y_limits(
                YAxisChoice::Second,
                Option::Some(AxisLimitSpec::Single(FixedLimit { range: limits, cond: condition })),
            ),
    {
        self.y_limits(limits, YAxisChoice::Second, condition)
    }

    /// Set literal limits for the third Y axis.
    pub fn y3_limits(self, limits: PlotRange, condition: Condition) -> (r: Plot)
        ensures
            r@ == self@.with_y_limits(
                YAxisChoice::Third,
                Option::Some(AxisLimitSpec::Single(FixedLimit { range: limits, cond: condition })),
            ),
    {
        self.y_limits(limits, YAxisChoice::Third, condition)
    }

    /// Bind the chosen Y axis to a shared range, so several plots stay
    /// synchronised.
    ///
    /// Overrides an earlier [`Plot::y_limits`] for the same axis: whichever
    /// is set last takes effect.
    pub fn linked_y_limits(self, limits: SharedRange, y_axis_choice: YAxisChoice) -> (r: Plot)
        ensures
            r@ == self@.with_y_limits(
                y_axis_choice,
                Option::Some(AxisLimitSpec::Linked(limits)),
            ),
    {
        let mut p = self;
        let v = Option::Some(AxisLimitSpec::Linked(limits));
        match y_axis_choice {
            YAxisChoice::First => p.y_limits0 = v,
            YAxisChoice::Second => p.y_limits1 = v,
            YAxisChoice::Third => p.y_limits2 = v,
        }
        p
    }

    /// Bind the first Y axis to a shared range.
    pub fn linked_y1_limits(self, limits: SharedRange) -> (r: Plot)
        ensures
            r@ == self@.with_y_limits(
                YAxisChoice::First,
                Option::Some(AxisLimitSpec::Linked(limits)),
            ),
    {
        self.linked_y_limits(limits, YAxisChoice::First)
    }

    /// Bind the second Y axis to a shared range.
    pub fn linked_y2_limits(self, limits: SharedRange) -> (r: Plot)
        ensures
            r@ == self@.with_y_limits(
                YAxisChoice::Second,
                Option::Some(AxisLimitSpec::Linked(limits)),
            ),
    {
        self.linked_y_limits(limits, YAxisChoice::Second)
    }

    /// Bind the third Y axis to a shared range.
    pub fn linked_y3_limits(self, limits: SharedRange) -> (r: Plot)
        ensures
            r@ == self@.with_y_limits(
                YAxisChoice::Third,
                Option::Some(AxisLimitSpec::Linked(limits)),
            ),
    {
        self.linked_y_limits(limits, YAxisChoice::Third)
    }

    /// Set custom X ticks without labels.  `show_default` keeps the default
    /// ticks visible beside the custom ones.
    pub fn x_ticks(self, ticks: Vec<i64>, show_default: bool) -> (r: Plot)
        ensures
            r@ == (PlotV {
                x_tick_positions: Option::Some(ticks@),
                show_x_default_ticks: show_default,
                ..self@
            }),
    {
        let mut p = self;
        p.x_tick_positions = Option::Some(ticks);
        p.show_x_default_ticks = show_default;
        p
    }

    /// Set custom ticks without labels for the chosen Y axis.
    pub fn y_ticks(self, y_axis_choice: YAxisChoice, ticks: Vec<i64>, show_default: bool) -> (r:
        Plot)
        ensures
            r@ == self@.with_y_ticks(
                y_axis_choice,
                Option::Some(ticks@),
                self@.y_tick_labels_of(y_axis_choice),
                show_default,
            ),
    {
        let mut p = self;
        match y_axis_choice {
            YAxisChoice::First => {
                p.y_tick_positions0 = Option::Some(ticks);
                p.show_y_default_ticks0 = show_default;
            },
            YAxisChoice::Second => {
                p.y_tick_positions1 = Option::Some(ticks);
                p.show_y_default_ticks1 = show_default;
            },
            YAxisChoice::Third => {
                p.y_tick_positions2 = Option::Some(ticks);
                p.show_y_default_ticks2 = show_default;
            },
        }
        p
    }

    /// Set custom X ticks with one label per position.
    ///
    /// Fails with [`PlotError::LabelContainsNul`] if any label contains an
    /// embedded NUL byte.
    pub fn x_ticks_with_labels(self, tick_labels: &Vec<(i64, String)>, show_default: bool) -> (r:
        Result<Plot, PlotError>)
        ensures
            r is Err <==> exists|j: int|
                0 <= j < tick_labels@.len() && has_nul(#[trigger] tick_labels@[j].1@),
            r is Err ==> r == Result::<Plot, PlotError>::Err(PlotError::LabelContainsNul),
            r matches Result::Ok(p) ==> p@ == (PlotV {
                x_tick_positions: Option::Some(tick_positions_of(tick_labels@)),
                x_tick_labels: Option::Some(tick_labels_of(tick_labels@)),
                show_x_default_ticks: show_default,
                ..self@
            }),
    {
        let mut p = self;
        match split_tick_labels(tick_labels) {
            Result::Ok((positions, labels)) => {
                p.x_tick_positions = Option::Some(positions);
                p.x_tick_labels = Option::Some(labels);
                p.show_x_default_ticks = show_default;
                Result::Ok(p)
            },
            Result::Err(e) => Result::Err(e),
        }
    }

    /// Set custom ticks with labels for the chosen Y axis.
    ///
    /// Fails with [`PlotError::LabelContainsNul`] if any label contains an
    /// embedded NUL byte.
    pub fn y_ticks_with_labels(
        self,
        y_axis_choice: YAxisChoice,
        tick_labels: &Vec<(i64, String)>,
        show_default: bool,
    ) -> (r: Result<Plot, PlotError>)
        ensures
            r is Err <==> exists|j: int|
                0 <= j < tick_labels@.len() && has_nul(#[trigger] tick_labels@[j].1@),
            r is Err ==> r == Result::<Plot, PlotError>::Err(PlotError::LabelContainsNul),
            r matches Result::Ok(p) ==> p@ == self@.with_y_ticks(
                y_axis_choice,
                Option::Some(tick_positions_of(tick_labels@)),
                Option::Some(tick_labels_of(tick_labels@)),
                show_default,
            ),
    {
        let mut p = self;
        match split_tick_labels(tick_labels) {
            Result::Ok((positions, labels)) => {
                match y_axis_choice {
                    YAxisChoice::First => {
                        p.y_tick_positions0 = Option::Some(positions);
                        p.y_tick_labels0 = Option::Some(labels);
                        p.show_y_default_ticks0 = show_default;
                    },
                    YAxisChoice::Second => {
                        p.y_tick_positions1 = Option::Some(positions);
                        p.y_tick_labels1 = Option::Some(labels);
                        p.show_y_default_ticks1 = show_default;
                    },
                    YAxisChoice::Third => {
                        p.y_tick_positions2 = Option::Some(positions);
                        p.y_tick_labels2 = Option::Some(labels);
                        p.show_y_default_ticks2 = show_default;
                    },
                }
                Result::Ok(p)
            },
            Result::Err(e) => Result::Err(e),
        }
    }

    /// Set the plot behavior flags.
    pub fn with_plot_flags(self, flags: &PlotFlags) -> (r: Plot)
        ensures
            r@ == (PlotV { plot_flags: flags.bits, ..self@ }),
    {
        let mut p = self;
        p.plot_flags = flags.bits;
        p
    }

    /// Set the X axis flags.
    pub fn with_x_axis_flags(self, flags: &AxisFlags) -> (r: Plot)
        ensures
            r@ == (PlotV { x_flags: flags.bits, ..self@ }),
    {
        let mut p = self;
        p.x_flags = flags.bits;
        p
    }

    /// Set the flags of the chosen Y axis.
    pub fn with_y_axis_flags(self, y_axis_choice: YAxisChoice, flags: &AxisFlags) -> (r: Plot)
        ensures
            r@ == self@.with_y_flags(y_axis_choice, flags.bits),
    {
        let mut p = self;
        match y_axis_choice {
            YAxisChoice::First => p.y_flags0 = flags.bits,
            YAxisChoice::Second => p.y_flags1 = flags.bits,
            YAxisChoice::Third => p.y_flags2 = flags.bits,
        }
        p
    }

    /// Set the legend's location, orientation and whether it is drawn
    /// outside the plot area.  The placement is issued right after begin,
    /// where the back end expects it.
    pub fn with_legend_location(
        self,
        location: &PlotLocation,
        orientation: &PlotOrientation,
        outside: bool,
    ) -> (r: Plot)
        ensures
            r@ == (PlotV {
                legend: Option::Some(
                    LegendSpec { location: *location, orientation: *orientation, outside },
                ),
                ..self@
            }),
    {
        let mut p = self;
        p.legend = Option::Some(
            LegendSpec { location: *location, orientation: *orientation, outside },
        );
        p
    }

    /// Stage the configured limits and links as the back end's pending
    /// next-plot state.
    fn maybe_set_axis_limits(&self, engine: &mut Engine)
        requires
            links_valid(self@, old(engine)@),
        ensures
            final(engine)@ == staged(self@, old(engine)@),
    {
        match &self.x_limits {
            Option::Some(AxisLimitSpec::Single(f)) => engine.set_next_x_limits(f.range, f.cond),
            Option::Some(AxisLimitSpec::Linked(h)) => engine.link_next_x(*h),
            Option::None => {},
        }
        match &self.y_limits0 {
            Option::Some(AxisLimitSpec::Single(f)) => engine.set_next_y_limits(
                YAxisChoice::First,
                f.range,
                f.cond,
            ),
            Option::Some(AxisLimitSpec::Linked(h)) => engine.link_next_y(YAxisChoice::First, *h),
            Option::None => {},
        }
        match &self.y_limits1 {
            Option::Some(AxisLimitSpec::Single(f)) => engine.set_next_y_limits(
                YAxisChoice::Second,
                f.range,
                f.cond,
            ),
            Option::Some(AxisLimitSpec::Linked(h)) => engine.link_next_y(YAxisChoice::Second, *h),
            Option::None => {},
        }
        match &self.y_limits2 {
            Option::Some(AxisLimitSpec::Single(f)) => engine.set_next_y_limits(
                YAxisChoice::Third,
                f.range,
                f.cond,
            ),
            Option::Some(AxisLimitSpec::Linked(h)) => engine.link_next_y(YAxisChoice::Third, *h),
            Option::None => {},
        }
    }

    /// Build the configuration record handed to the back end at begin,
    /// including the custom tick sets.
    fn make_begin_record(&self) -> (rec: BeginRecord)
        ensures
            rec@ == self@.begin_rec(),
    {
        let rec = BeginRecord {
            title: self.title.clone(),
            x_label: self.x_label.clone(),
            y_label: self.y_label.clone(),
            width: self.width,
            height: self.height,
            flags: self.plot_flags,
            x_flags: self.x_flags,
            y_flags0: self.y_flags0,
            y_flags1: self.y_flags1,
            y_flags2: self.y_flags2,
            x_limits: Option::None,
            y_limits0: Option::None,
            y_limits1: Option::None,
            y_limits2: Option::None,
            x_ticks: make_ticks(
                &self.x_tick_positions,
                &self.x_tick_labels,
                self.show_x_default_ticks,
            ),
            y_ticks0: make_ticks(
                &self.y_tick_positions0,
                &self.y_tick_labels0,
                self.show_y_default_ticks0,
            ),
            y_ticks1: make_ticks(
                &self.y_tick_positions1,
                &self.y_tick_labels1,
                self.show_y_default_ticks1,
            ),
            y_ticks2: make_ticks(
                &self.y_tick_positions2,
                &self.y_tick_labels2,
                self.show_y_default_ticks2,
            ),
            legend: self.legend,
            rendered: false,
        };
        proof {
            assert(rec@ =~= self@.begin_rec());
        }
        rec
    }

    /// Try to show the plot.  The accumulated configuration is handed to
    /// the back end in one begin command; if the back end signals that the
    /// plot renders, the returned token must be ended exactly once.
    /// `None` means the plot does not render this frame — a normal outcome
    /// that requires no further action — or that a plot is already open, in
    /// which case nothing is submitted: the back end cannot nest plots.
    pub fn begin(&self, plot_ui: &PlotUi<'_>, engine: &mut Engine) -> (r: Option<PlotToken>)
        requires
            old(engine)@.ctx_active,
            links_valid(self@, old(engine)@),
        ensures
            old(engine)@.open is Some ==> r is None && final(engine)@ == old(engine)@,
            old(engine)@.open is None ==> final(engine)@ == staged(
                self@,
                old(engine)@,
            ).begin_effect(self@.begin_rec()),
            old(engine)@.open is None ==> ((r is Some) <==> old(engine)@.next_visible),
            r matches Option::Some(t) ==> !t.spec_ended() && t.spec_title() == self@.title,
    {
        let _ = plot_ui;
        if engine.plot_open() {
            return Option::None;
        }
        self.maybe_set_axis_limits(engine);
        let rec = self.make_begin_record();
        let rendered = engine.begin_plot(rec);
        if rendered {
            Option::Some(PlotToken { ended: false, title: self.title.clone() })
        } else {
            Option::None
        }
    }

    /// Show the plot and run a drawing callback inside it: begin, then the
    /// callback, then end.  The callback takes the engine by value and
    /// returns it; it is only invoked if the plot renders.  If the callback
    /// leaves a plot open, it is ended here, so a plot begun by this call
    /// never stays open.
    pub fn build<F: FnOnce(Engine) -> Engine>(
        self,
        plot_ui: &PlotUi<'_>,
        engine: &mut Engine,
        f: F,
    )
        requires
            old(engine)@.ctx_active,
            links_valid(self@, old(engine)@),
            forall|e: Engine|
                e@ == staged(self@, old(engine)@).begin_effect(self@.begin_rec())
                    ==> #[trigger] call_requires(f, (e,)),
        ensures
            old(engine)@.open is None ==> final(engine)@.open is None,
            old(engine)@.open is Some ==> final(engine)@ == old(engine)@,
            old(engine)@.open is None && !old(engine)@.next_visible ==> final(engine)@ == staged(
                self@,
                old(engine)@,
            ).begin_effect(self@.begin_rec()),
            old(engine)@.open is None && old(engine)@.next_visible ==> exists|e1: Engine, e2: Engine|
                {
                    &&& e1@ == staged(self@, old(engine)@).begin_effect(self@.begin_rec())
                    &&& #[trigger] call_ensures(f, (e1,), e2)
                    &&& final(engine)@ == if e2@.open is Some {
                        e2@.end_effect()
                    } else {
                        e2@
                    }
                },
    {
        match self.begin(plot_ui, engine) {
            Option::Some(mut token) => {
                let mut owned = Engine::new();
                core::mem::swap(&mut owned, engine);
                let ghost e1 = owned;
                let mut out = f(owned);
                let ghost e2 = out;
                if out.plot_open() {
                    let r = token.end(&mut out);
                    proof {
                        assert(r is Ok);
                    }
                }
                core::mem::swap(&mut out, engine);
            },
            Option::None => {},
        }
    }
}

/// An open, rendering plot session that must be ended exactly once.
#[derive(Debug)]
pub struct PlotToken {
    ended: bool,
    title: String,
}

impl PlotToken {
    /// Whether this token has already been ended.
    pub closed spec fn spec_ended(&self) -> bool {
        self.ended
    }

    /// The title of the plot this token belongs to, for diagnostics.
    pub closed spec fn spec_title(&self) -> Seq<char> {
        self.title@
    }

    /// The title of the plot this token belongs to.
    pub fn title(&self) -> (r: &str)
        ensures
            r@ == self.spec_title(),
    {
        self.title.as_str()
    }

    /// Whether this token has already been ended.
    pub fn is_ended(&self) -> (r: bool)
        ensures
            r == self.spec_ended(),
    {
        self.ended
    }

    /// End the plot this token belongs to.
    ///
    /// Fails with [`PlotError::PlotAlreadyEnded`], changing nothing, if the
    /// token was already ended: a second end is a violation of the
    /// open/close balance, and callers are expected to treat the error as
    /// fatal.
    pub fn end(&mut self, engine: &mut Engine) -> (r: Result<(), PlotError>)
        requires
            !old(self).spec_ended() ==> old(engine)@.open is Some,
        ensures
            r is Ok <==> !old(self).spec_ended(),
            final(self).spec_ended(),
            final(self).spec_title() == old(self).spec_title(),
            old(self).spec_ended() ==> r == Result::<(), PlotError>::Err(
                PlotError::PlotAlreadyEnded,
            ) && final(engine)@ == old(engine)@,
            !old(self).spec_ended() ==> final(engine)@ == old(engine)@.end_effect(),
    {
        if self.ended {
            return Result::Err(PlotError::PlotAlreadyEnded);
        }
        self.ended = true;
        engine.end_plot();
        Result::Ok(())
    }
}

/// Law: plots are opened and closed in balance.  A begin command opens
/// exactly one plot when the back end signals rendering and none otherwise,
/// and the matching end command closes it.  A second end on the same token
/// is refused by [`PlotToken::end`], and a teardown under an open plot by
/// [`Context::destroy`](crate::Context::destroy).
pub proof fn lemma_open_close_balance(e: EngineV, rec: BeginRecordV)
    requires
        e.open is None,
    ensures
        e.next_visible ==> e.begin_effect(rec).open is Some,
        !e.next_visible ==> e.begin_effect(rec).open is None,
        e.begin_effect(rec).end_effect().open is None,
{
}

/// Law: for each axis, the limit configured last wins.  Setting literal
/// limits after linked limits leaves the literal ones in effect, and the
/// other way round, whatever was configured before.
pub proof fn lemma_axis_limit_precedence(
    p: PlotV,
    axis: YAxisChoice,
    f: FixedLimit,
    h: SharedRange,
)
    ensures
        p.with_y_limits(axis, Option::Some(AxisLimitSpec::Linked(h))).with_y_limits(
            axis,
            Option::Some(AxisLimitSpec::Single(f)),
        ).y_limits_of(axis) == Option::Some(AxisLimitSpec::Single(f)),
        p.with_y_limits(axis, Option::Some(AxisLimitSpec::Single(f))).with_y_limits(
            axis,
            Option::Some(AxisLimitSpec::Linked(h)),
        ).y_limits_of(axis) == Option::Some(AxisLimitSpec::Linked(h)),
{
}

} // verus!
