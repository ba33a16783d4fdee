//! Draw primitives: lines, stairs, scatter points, bars, stems, text and
//! heatmaps.
//!
//! Each primitive is a one-shot draw call, valid only while a plot is open.
//! Primitives taking two data sequences submit exactly the first
//! `min(m, n)` points of each; when that is zero the call is a silent
//! no-op.  A heatmap without an explicit scale colors the data by its true
//! minimum and maximum.
use vstd::prelude::*;

use crate::engine::DrawCmd;
use crate::engine::DrawCmdV;
use crate::engine::Engine;
use crate::engine::EventV;
use crate::has_nul;
use crate::range::PlotPoint;
use crate::str_has_nul;
use crate::PlotError;

verus! {

/// The number of points submitted from a pair of data sequences: the
/// length of the shorter one.
pub open spec fn pair_len(x: Seq<i64>, y: Seq<i64>) -> int {
    if x.len() <= y.len() {
        x.len() as int
    } else {
        y.len() as int
    }
}

/// The smallest value of a non-empty sequence.
pub open spec fn seq_min(s: Seq<i64>) -> i64
    recommends
        s.len() > 0,
    decreases s.len(),
{
    if s.len() <= 1 {
        s[0]
    } else {
        let m = seq_min(s.drop_last());
        if s.last() < m {
            s.last()
        } else {
            m
        }
    }
}

/// The largest value of a non-empty sequence.
pub open spec fn seq_max(s: Seq<i64>) -> i64
    recommends
        s.len() > 0,
    decreases s.len(),
{
    if s.len() <= 1 {
        s[0]
    } else {
        let m = seq_max(s.drop_last());
        if s.last() > m {
            s.last()
        } else {
            m
        }
    }
}

/// Law: paired draw primitives truncate, never fail, on length mismatch.
/// The number of submitted points is exactly the minimum of the two input
/// lengths, and the submitted data are the prefixes of that length.
pub proof fn lemma_truncation(x: Seq<i64>, y: Seq<i64>)
    ensures
        pair_len(x, y) == vstd::math::min(x.len() as int, y.len() as int),
        x.take(pair_len(x, y)).len() == pair_len(x, y),
        y.take(pair_len(x, y)).len() == pair_len(x, y),
{
}

/// Law: the default heatmap scale is the true extent of the data.  The
/// computed minimum and maximum are values of the sequence, and every value
/// lies between them.
pub proof fn lemma_heatmap_default_scale(s: Seq<i64>)
    requires
        s.len() > 0,
    ensures
        s.contains(seq_min(s)),
        s.contains(seq_max(s)),
        forall|i: int| 0 <= i < s.len() ==> seq_min(s) <= #[trigger] s[i],
        forall|i: int| 0 <= i < s.len() ==> #[trigger] s[i] <= seq_max(s),
    decreases s.len(),
{
    if s.len() == 1 {
        assert(s.contains(seq_min(s))) by {
            assert(s[0] == seq_min(s));
        }
        assert(s.contains(seq_max(s))) by {
            assert(s[0] == seq_max(s));
        }
    } else {
        let d = s.drop_last();
        lemma_heatmap_default_scale(d);
        let j = choose|j: int| 0 <= j < d.len() && d[j] == seq_min(d);
        let k = choose|k: int| 0 <= k < d.len() && d[k] == seq_max(d);
        assert(s[j] == seq_min(d));
        assert(s[k] == seq_max(d));
        assert(s.last() == s[s.len() - 1]);
        assert forall|i: int| 0 <= i < s.len() implies seq_min(s) <= #[trigger] s[i] && s[i]
            <= seq_max(s) by {
            if i < d.len() {
                assert(s[i] == d[i]);
            } else {
                assert(s[i] == s.last());
            }
        }
    }
}

/// Copy the first `n` elements of a data sequence.
fn take_prefix(v: &Vec<i64>, n: usize) -> (r: Vec<i64>)
    requires
        n <= v@.len(),
    ensures
        r@ == v@.take(n as int),
{
    let mut out: Vec<i64> = Vec::new();
    let mut i: usize = 0;
    while i < n
        invariant
            i <= n,
            n <= v@.len(),
            out@ == v@.take(i as int),
        decreases n - i,
    {
        out.push(v[i]);
        proof {
            assert(out@ =~= v@.take((i + 1) as int));
        }
        i = i + 1;
    }
    out
}

/// The shorter of two data lengths.
fn min_len(x: &Vec<i64>, y: &Vec<i64>) -> (r: usize)
    ensures
        r == pair_len(x@, y@),
{
    if x.len() <= y.len() {
        x.len()
    } else {
        y.len()
    }
}

/// A line through a sequence of points.
#[derive(Debug)]
pub struct PlotLine {
    label: String,
}

impl PlotLine {
    /// The legend label.
    pub closed spec fn spec_label(&self) -> Seq<char> {
        self.label@
    }

    /// Create a new line to be plotted.  Does not draw anything yet.
    pub fn new(label: &str) -> (r: PlotLine)
        ensures
            r.spec_label() == label@,
    {
        PlotLine { label: label.to_owned() }
    }

    /// Draw the line while a plot is open.  Submits the first
    /// `min(m, n)` points of `x` and `y`; a silent no-op when that is
    /// zero.  Fails with [`PlotError::LabelContainsNul`] if the label
    /// contains an embedded NUL byte.
    pub fn plot(&self, x: &Vec<i64>, y: &Vec<i64>, engine: &mut Engine) -> (r: Result<
        (),
        PlotError,
    >)
        requires
            old(engine)@.open is Some,
        ensures
            pair_len(x@, y@) == 0 ==> r is Ok && final(engine)@ == old(engine)@,
            pair_len(x@, y@) > 0 && has_nul(self.spec_label()) ==> r == Result::<(), PlotError>::Err(PlotError::LabelContainsNul) && final(engine)@ == old(engine)@,
            pair_len(x@, y@) > 0 && !has_nul(self.spec_label()) ==> r is Ok && final(engine)@
                == old(engine)@.with_event(
                EventV::Draw(
                    DrawCmdV::Line {
                        label: self.spec_label(),
                        x: x@.take(pair_len(x@, y@)),
                        y: y@.take(pair_len(x@, y@)),
                    },
                ),
            ),
    {
        let n = min_len(x, y);
        if n == 0 {
            return Result::Ok(());
        }
        if str_has_nul(self.label.as_str()) {
            return Result::Err(PlotError::LabelContainsNul);
        }
        engine.submit_draw(
            DrawCmd::Line { label: self.label.clone(), x: take_prefix(x, n), y: take_prefix(y, n) },
        );
        Result::Ok(())
    }
}

/// A stairstep line through a sequence of points.
#[derive(Debug)]
pub struct PlotStairs {
    label: String,
}

impl PlotStairs {
    /// The legend label.
    pub closed spec fn spec_label(&self) -> Seq<char> {
        self.label@
    }

    /// Create a new stairstep line to be plotted.  Does not draw anything
    /// yet.
    pub fn new(label: &str) -> (r: PlotStairs)
        ensures
            r.spec_label() == label@,
    {
        PlotStairs { label: label.to_owned() }
    }

    /// Draw the stairstep line while a plot is open.  Submits the first
    /// `min(m, n)` points of `x` and `y`; a silent no-op when that is
    /// zero.  Fails with [`PlotError::LabelContainsNul`] if the label
    /// contains an embedded NUL byte.
    pub fn plot(&self, x: &Vec<i64>, y: &Vec<i64>, engine: &mut Engine) -> (r: Result<
        (),
        PlotError,
    >)
        requires
            old(engine)@.open is Some,
        ensures
            pair_len(x@, y@) == 0 ==> r is Ok && final(engine)@ == old(engine)@,
            pair_len(x@, y@) > 0 && has_nul(self.spec_label()) ==> r == Result::<(), PlotError>::Err(PlotError::LabelContainsNul) && final(engine)@ == old(engine)@,
            pair_len(x@, y@) > 0 && !has_nul(self.spec_label()) ==> r is Ok && final(engine)@
                == old(engine)@.with_event(
                EventV::Draw(
                    DrawCmdV::Stairs {
                        label: self.spec_label(),
                        x: x@.take(pair_len(x@, y@)),
                        y: y@.take(pair_len(x@, y@)),
                    },
                ),
            ),
    {
        let n = min_len(x, y);
        if n == 0 {
            return Result::Ok(());
        }
        if str_has_nul(self.label.as_str()) {
            return Result::Err(PlotError::LabelContainsNul);
        }
        engine.submit_draw(
            DrawCmd::Stairs {
                label: self.label.clone(),
                x: take_prefix(x, n),
                y: take_prefix(y, n),
            },
        );
        Result::Ok(())
    }
}

/// Markers at a sequence of points.
#[derive(Debug)]
pub struct PlotScatter {
    label: String,
}

impl PlotScatter {
    /// The legend label.
    pub closed spec fn spec_label(&self) -> Seq<char> {
        self.label@
    }

    /// Create a new scatter plot to be shown.  Does not draw anything yet.
    pub fn new(label: &str) -> (r: PlotScatter)
        ensures
            r.spec_label() == label@,
    {
        PlotScatter { label: label.to_owned() }
    }

    /// Draw the scatter points while a plot is open.  Submits the first
    /// `min(m, n)` points of `x` and `y`; a silent no-op when that is
    /// zero.  Fails with [`PlotError::LabelContainsNul`] if the label
    /// contains an embedded NUL byte.
    pub fn plot(&self, x: &Vec<i64>, y: &Vec<i64>, engine: &mut Engine) -> (r: Result<
        (),
        PlotError,
    >)
        requires
            old(engine)@.open is Some,
        ensures
            pair_len(x@, y@) == 0 ==> r is Ok && final(engine)@ == old(engine)@,
            pair_len(x@, y@) > 0 && has_nul(self.spec_label()) ==> r == Result::<(), PlotError>::Err(PlotError::LabelContainsNul) && final(engine)@ == old(engine)@,
            pair_len(x@, y@) > 0 && !has_nul(self.spec_label()) ==> r is Ok && final(engine)@
                == old(engine)@.with_event(
                EventV::Draw(
                    DrawCmdV::Scatter {
                        label: self.spec_label(),
                        x: x@.take(pair_len(x@, y@)),
                        y: y@.take(pair_len(x@, y@)),
                    },
                ),
            ),
    {
        let n = min_len(x, y);
        if n == 0 {
            return Result::Ok(());
        }
        if str_has_nul(self.label.as_str()) {
            return Result::Err(PlotError::LabelContainsNul);
        }
        engine.submit_draw(
            DrawCmd::Scatter {
                label: self.label.clone(),
                x: take_prefix(x, n),
                y: take_prefix(y, n),
            },
        );
        Result::Ok(())
    }
}

/// A bar plot, vertical by default.
#[derive(Debug)]
pub struct PlotBars {
    label: String,
    bar_width: i64,
    horizontal_bars: bool,
}

impl PlotBars {
    /// The legend label.
    pub closed spec fn spec_label(&self) -> Seq<char> {
        self.label@
    }

    /// The configured bar width, in plot space.
    pub closed spec fn spec_bar_width(&self) -> i64 {
        self.bar_width
    }

    /// Whether the bars are drawn horizontally.
    pub closed spec fn spec_horizontal(&self) -> bool {
        self.horizontal_bars
    }

    /// Create a new bar plot to be shown; vertical bars of width 1 by
    /// default.  Does not draw anything yet.
    pub fn new(label: &str) -> (r: PlotBars)
        ensures
            r.spec_label() == label@,
            r.spec_bar_width() == 1,
            !r.spec_horizontal(),
    {
        PlotBars { label: label.to_owned(), bar_width: 1, horizontal_bars: false }
    }

    /// Set the width of the bars, in plot space.
    pub fn with_bar_width(self, bar_width: i64) -> (r: PlotBars)
        ensures
            r.spec_label() == self.spec_label(),
            r.spec_bar_width() == bar_width,
            r.spec_horizontal() == self.spec_horizontal(),
    {
        let mut p = self;
        p.bar_width = bar_width;
        p
    }

    /// Draw the bars horizontally instead of vertically.
    pub fn with_horizontal_bars(self) -> (r: PlotBars)
        ensures
            r.spec_label() == self.spec_label(),
            r.spec_bar_width() == self.spec_bar_width(),
            r.spec_horizontal(),
    {
        let mut p = self;
        p.horizontal_bars = true;
        p
    }

    /// Draw the bars while a plot is open.  `axis_positions` places each
    /// bar on its axis — X for vertical bars, Y for horizontal ones — and
    /// `bar_values` gives the bars' values; the two are handed to the back
    /// end swapped when the bars are horizontal, as it expects.  Submits
    /// the first `min(m, n)` bars; a silent no-op when that is zero.
    /// Fails with [`PlotError::LabelContainsNul`] if the label contains an
    /// embedded NUL byte.
    pub fn plot(&self, axis_positions: &Vec<i64>, bar_values: &Vec<i64>, engine: &mut Engine) -> (r:
        Result<(), PlotError>)
        requires
            old(engine)@.open is Some,
        ensures
            pair_len(axis_positions@, bar_values@) == 0 ==> r is Ok && final(engine)@ == old(engine)@,
            pair_len(axis_positions@, bar_values@) > 0 && has_nul(self.spec_label()) ==> r
                == Result::<(), PlotError>::Err(PlotError::LabelContainsNul) && final(engine)@
                == old(engine)@,
            pair_len(axis_positions@, bar_values@) > 0 && !has_nul(self.spec_label()) ==> r is Ok
                && final(engine)@ == old(engine)@.with_event(
                EventV::Draw(
                    DrawCmdV::Bars {
                        label: self.spec_label(),
                        horizontal: self.spec_horizontal(),
                        bar_width: self.spec_bar_width(),
                        x: if self.spec_horizontal() {
                            bar_values@.take(pair_len(axis_positions@, bar_values@))
                        } else {
                            axis_positions@.take(pair_len(axis_positions@, bar_values@))
                        },
                        y: if self.spec_horizontal() {
                            axis_positions@.take(pair_len(axis_positions@, bar_values@))
                        } else {
                            bar_values@.take(pair_len(axis_positions@, bar_values@))
                        },
                    },
                ),
            ),
    {
        let n = min_len(axis_positions, bar_values);
        if n == 0 {
            return Result::Ok(());
        }
        if str_has_nul(self.label.as_str()) {
            return Result::Err(PlotError::LabelContainsNul);
        }
        let (x, y) = if self.horizontal_bars {
            (take_prefix(bar_values, n), take_prefix(axis_positions, n))
        } else {
            (take_prefix(axis_positions, n), take_prefix(bar_values, n))
        };
        engine.submit_draw(
            DrawCmd::Bars {
                label: self.label.clone(),
                horizontal: self.horizontal_bars,
                bar_width: self.bar_width,
                x,
                y,
            },
        );
        Result::Ok(())
    }
}

/// A text label inside a plot.
#[derive(Debug)]
pub struct PlotText {
    label: String,
    pixel_offset_x: i64,
    pixel_offset_y: i64,
}

impl PlotText {
    /// The text to show.
    pub closed spec fn spec_label(&self) -> Seq<char> {
        self.label@
    }

    /// The configured X pixel offset.
    pub closed spec fn spec_offset_x(&self) -> i64 {
        self.pixel_offset_x
    }

    /// The configured Y pixel offset.
    pub closed spec fn spec_offset_y(&self) -> i64 {
        self.pixel_offset_y
    }

    /// Create a new text label to be shown, with no pixel offset.  Does
    /// not draw anything yet.
    pub fn new(label: &str) -> (r: PlotText)
        ensures
            r.spec_label() == label@,
            r.spec_offset_x() == 0,
            r.spec_offset_y() == 0,
    {
        PlotText { label: label.to_owned(), pixel_offset_x: 0, pixel_offset_y: 0 }
    }

    /// Offset the text by whole pixels, independent of the plot's scale.
    pub fn with_pixel_offset(self, offset_x: i64, offset_y: i64) -> (r: PlotText)
        ensures
            r.spec_label() == self.spec_label(),
            r.spec_offset_x() == offset_x,
            r.spec_offset_y() == offset_y,
    {
        let mut p = self;
        p.pixel_offset_x = offset_x;
        p.pixel_offset_y = offset_y;
        p
    }

    /// Draw the text at the given plot-space position while a plot is
    /// open, optionally vertically.  An empty text is a silent no-op.
    /// Fails with [`PlotError::LabelContainsNul`] if the text contains an
    /// embedded NUL byte.
    pub fn plot(&self, x: i64, y: i64, vertical: bool, engine: &mut Engine) -> (r: Result<
        (),
        PlotError,
    >)
        requires
            old(engine)@.open is Some,
        ensures
            self.spec_label().len() == 0 ==> r is Ok && final(engine)@ == old(engine)@,
            self.spec_label().len() > 0 && has_nul(self.spec_label()) ==> r == Result::<(), PlotError>::Err(PlotError::LabelContainsNul) && final(engine)@ == old(engine)@,
            self.spec_label().len() > 0 && !has_nul(self.spec_label()) ==> r is Ok && final(engine)@ == old(engine)@.with_event(
                EventV::Draw(
                    DrawCmdV::Text {
                        label: self.spec_label(),
                        x,
                        y,
                        vertical,
                        offset_x: self.spec_offset_x(),
                        offset_y: self.spec_offset_y(),
                    },
                ),
            ),
    {
        if self.label.as_str().is_empty() {
            return Result::Ok(());
        }
        if str_has_nul(self.label.as_str()) {
            return Result::Err(PlotError::LabelContainsNul);
        }
        engine.submit_draw(
            DrawCmd::Text {
                label: self.label.clone(),
                x,
                y,
                vertical,
                offset_x: self.pixel_offset_x,
                offset_y: self.pixel_offset_y,
            },
        );
        Result::Ok(())
    }
}

/// A heatmap of row-major values.
#[derive(Debug)]
pub struct PlotHeatmap {
    label: String,
    scale_range: Option<(i64, i64)>,
    label_format: Option<String>,
    drawarea_lower_left: PlotPoint,
    drawarea_upper_right: PlotPoint,
}

impl PlotHeatmap {
    /// The legend label.
    pub closed spec fn spec_label(&self) -> Seq<char> {
        self.label@
    }

    /// The explicit color scale, if one was set.
    pub closed spec fn spec_scale(&self) -> Option<(i64, i64)> {
        self.scale_range
    }

    /// The format string for hovered values, if labels are shown.
    pub closed spec fn spec_format(&self) -> Option<Seq<char>> {
        match self.label_format {
            Option::Some(f) => Option::Some(f@),
            Option::None => Option::None,
        }
    }

    /// The lower-left corner of the drawing rectangle.
    pub closed spec fn spec_lower_left(&self) -> PlotPoint {
        self.drawarea_lower_left
    }

    /// The upper-right corner of the drawing rectangle.
    pub closed spec fn spec_upper_right(&self) -> PlotPoint {
        self.drawarea_upper_right
    }

    /// Create a new heatmap to be shown.  The color scale defaults to the
    /// extent of the data, the hover label to "%.1f", and the drawing
    /// rectangle to the unit square.  Does not draw anything yet.
    pub fn new(label: &str) -> (r: PlotHeatmap)
        ensures
            r.spec_label() == label@,
            r.spec_scale() is None,
            r.spec_format() == Option::Some("%.1f"@),
            r.spec_lower_left() == (PlotPoint { x: 0, y: 0 }),
            r.spec_upper_right() == (PlotPoint { x: 1, y: 1 }),
    {
        PlotHeatmap {
            label: label.to_owned(),
            scale_range: Option::None,
            label_format: Option::Some("%.1f".to_owned()),
            drawarea_lower_left: PlotPoint { x: 0, y: 0 },
            drawarea_upper_right: PlotPoint { x: 1, y: 1 },
        }
    }

    /// Set an explicit color scale as `(minimum, maximum)`.  It overrides
    /// the computed data extent entirely, whatever the data's actual
    /// range.
    pub fn with_scale(self, scale_min: i64, scale_max: i64) -> (r: PlotHeatmap)
        ensures
            r.spec_label() == self.spec_label(),
            r.spec_scale() == Option::Some((scale_min, scale_max)),
            r.spec_format() == self.spec_format(),
            r.spec_lower_left() == self.spec_lower_left(),
            r.spec_upper_right() == self.spec_upper_right(),
    {
        let mut p = self;
        p.scale_range = Option::Some((scale_min, scale_max));
        p
    }

    /// Set the format string for hovered values; `None` shows no label.
    /// Fails with [`PlotError::LabelContainsNul`] if the format contains
    /// an embedded NUL byte.
    pub fn with_label_format(self, label_format: Option<&str>) -> (r: Result<
        PlotHeatmap,
        PlotError,
    >)
        ensures
            r is Ok <==> match label_format {
                Option::Some(f) => !has_nul(f@),
                Option::None => true,
            },
            r is Err ==> r == Result::<PlotHeatmap, PlotError>::Err(PlotError::LabelContainsNul),
            r matches Result::Ok(p) ==> {
                &&& p.spec_label() == self.spec_label()
                &&& p.spec_scale() == self.spec_scale()
                &&& p.spec_format() == match label_format {
                    Option::Some(f) => Option::Some(f@),
                    Option::None => Option::None::<Seq<char>>,
                }
                &&& p.spec_lower_left() == self.spec_lower_left()
                &&& p.spec_upper_right() == self.spec_upper_right()
            },
    {
        let mut p = self;
        match label_format {
            Option::Some(f) => {
                if str_has_nul(f) {
                    return Result::Err(PlotError::LabelContainsNul);
                }
                p.label_format = Option::Some(f.to_owned());
            },
            Option::None => {
                p.label_format = Option::None;
            },
        }
        Result::Ok(p)
    }

    /// Set the drawing rectangle in plot space, as its lower-left and
    /// upper-right corners.
    pub fn with_drawing_area(self, lower_left: PlotPoint, upper_right: PlotPoint) -> (r:
        PlotHeatmap)
        ensures
            r.spec_label() == self.spec_label(),
            r.spec_scale() == self.spec_scale(),
            r.spec_format() == self.spec_format(),
            r.spec_lower_left() == lower_left,
            r.spec_upper_right() == upper_right,
    {
        let mut p = self;
        p.drawarea_lower_left = lower_left;
        p.drawarea_upper_right = upper_right;
        p
    }

    /// Draw the heatmap while a plot is open, with `values` in row-major
    /// order.  An empty value sequence is a silent no-op.  Without an
    /// explicit scale the color scale is the computed minimum and maximum
    /// of `values`; an explicit scale is used as given, whatever the data's
    /// range.  Fails with [`PlotError::LabelContainsNul`] if the label
    /// contains an embedded NUL byte.
    pub fn plot(&self, values: &Vec<i64>, number_of_rows: u32, number_of_cols: u32, engine:
        &mut Engine) -> (r: Result<(), PlotError>)
        requires
            old(engine)@.open is Some,
            (number_of_rows as nat) * (number_of_cols as nat) <= values@.len(),
        ensures
            values@.len() == 0 ==> r is Ok && final(engine)@ == old(engine)@,
            values@.len() > 0 && has_nul(self.spec_label()) ==> r == Result::<(), PlotError>::Err(
                PlotError::LabelContainsNul,
            ) && final(engine)@ == old(engine)@,
            values@.len() > 0 && !has_nul(self.spec_label()) ==> r is Ok && final(engine)@ == old(engine)@.with_event(
                EventV::Draw(
                    DrawCmdV::Heatmap {
                        label: self.spec_label(),
                        values: values@,
                        rows: number_of_rows,
                        cols: number_of_cols,
                        scale_min: match self.spec_scale() {
                            Option::Some(sc) => sc.0,
                            Option::None => seq_min(values@),
                        },
                        scale_max: match self.spec_scale() {
                            Option::Some(sc) => sc.1,
                            Option::None => seq_max(values@),
                        },
                        label_format: self.spec_format(),
                        lower_left: self.spec_lower_left(),
                        upper_right: self.spec_upper_right(),
                    },
                ),
            ),
    {
        if values.len() == 0 {
            return Result::Ok(());
        }
        if str_has_nul(self.label.as_str()) {
            return Result::Err(PlotError::LabelContainsNul);
        }
        let (scale_min, scale_max) = match self.scale_range {
            Option::Some(sc) => sc,
            Option::None => {
                let mut mn = values[0];
                let mut mx = values[0];
                let len = values.len();
                let mut i: usize = 1;
                proof {
                    assert(values@.take(1) =~= seq![values@[0]]);
                }
                while i < len
                    invariant
                        1 <= i <= len,
                        len == values@.len(),
                        len > 0,
                        mn == seq_min(values@.take(i as int)),
                        mx == seq_max(values@.take(i as int)),
                    decreases len - i,
                {
                    let v = values[i];
                    proof {
                        let t = values@.take((i + 1) as int);
                        assert(t.drop_last() =~= values@.take(i as int));
                        assert(t.last() == values@[i as int]);
                    }
                    if v < mn {
                        mn = v;
                    }
                    if v > mx {
                        mx = v;
                    }
                    i = i + 1;
                }
                proof {
                    assert(values@.take(len as int) =~= values@);
                }
                (mn, mx)
            },
        };
        let fmt = match &self.label_format {
            Option::Some(f) => Option::Some(f.clone()),
            Option::None => Option::None,
        };
        engine.submit_draw(
            DrawCmd::Heatmap {
                label: self.label.clone(),
                values: take_prefix(values, values.len()),
                rows: number_of_rows,
                cols: number_of_cols,
                scale_min,
                scale_max,
                label_format: fmt,
                lower_left: self.drawarea_lower_left,
                upper_right: self.drawarea_upper_right,
            },
        );
        proof {
            assert(values@.take(values@.len() as int) =~= values@);
        }
        Result::Ok(())
    }
}

/// Stems from a reference value to each point.
#[derive(Debug)]
pub struct PlotStems {
    label: String,
    reference_y: i64,
}

impl PlotStems {
    /// The legend label.
    pub closed spec fn spec_label(&self) -> Seq<char> {
        self.label@
    }

    /// The Y value the stems start from.
    pub closed spec fn spec_reference_y(&self) -> i64 {
        self.reference_y
    }

    /// Create a new stem plot to be shown, with reference value 0.  Does
    /// not draw anything yet.
    pub fn new(label: &str) -> (r: PlotStems)
        ensures
            r.spec_label() == label@,
            r.spec_reference_y() == 0,
    {
        PlotStems { label: label.to_owned(), reference_y: 0 }
    }

    /// Set the Y value the stems start from.
    pub fn with_reference_y(self, reference_y: i64) -> (r: PlotStems)
        ensures
            r.spec_label() == self.spec_label(),
            r.spec_reference_y() == reference_y,
    {
        let mut p = self;
        p.reference_y = reference_y;
        p
    }

    /// Draw the stems while a plot is open.  `axis_positions` places each
    /// stem on the X axis and `stem_values` gives the stems' values.
    /// Submits the first `min(m, n)` stems; a silent no-op when that is
    /// zero.  Fails with [`PlotError::LabelContainsNul`] if the label
    /// contains an embedded NUL byte.
    pub fn plot(&self, axis_positions: &Vec<i64>, stem_values: &Vec<i64>, engine: &mut Engine) -> (r:
        Result<(), PlotError>)
        requires
            old(engine)@.open is Some,
        ensures
            pair_len(axis_positions@, stem_values@) == 0 ==> r is Ok && final(engine)@ == old(engine)@,
            pair_len(axis_positions@, stem_values@) > 0 && has_nul(self.spec_label()) ==> r
                == Result::<(), PlotError>::Err(PlotError::LabelContainsNul) && final(engine)@
                == old(engine)@,
            pair_len(axis_positions@, stem_values@) > 0 && !has_nul(self.spec_label()) ==> r is Ok
                && final(engine)@ == old(engine)@.with_event(
                EventV::Draw(
                    DrawCmdV::Stems {
                        label: self.spec_label(),
                        reference_y: self.spec_reference_y(),
                        x: axis_positions@.take(pair_len(axis_positions@, stem_values@)),
                        y: stem_values@.take(pair_len(axis_positions@, stem_values@)),
                    },
                ),
            ),
    {
        let n = min_len(axis_positions, stem_values);
        if n == 0 {
            return Result::Ok(());
        }
        if str_has_nul(self.label.as_str()) {
            return Result::Err(PlotError::LabelContainsNul);
        }
        engine.submit_draw(
            DrawCmd::Stems {
                label: self.label.clone(),
                reference_y: self.reference_y,
                x: take_prefix(axis_positions, n),
                y: take_prefix(stem_values, n),
            },
        );
        Result::Ok(())
    }
}

} // verus!
