//! Temporary style overrides and colormap selection.
//!
//! A push operation places one override on the back end's style color or
//! style variable stack and returns a token; popping the token removes the
//! override again.  Each token may be popped at most once — a second pop is
//! a detected violation.  Tokens may be held across plot sessions, but the
//! stacks must stay balanced; popping in reverse order of pushing is the
//! safe discipline.
use vstd::prelude::*;

use crate::engine::Color;
use crate::engine::Engine;
use crate::engine::EngineV;
use crate::engine::EventV;
use crate::Colormap;
use crate::PlotColorElement;
use crate::PlotError;
use crate::StyleVar;

verus! {

/// The engine state after one override is popped from the style color
/// stack.
pub open spec fn popped_color(e: EngineV) -> EngineV {
    (EngineV { color_stack: e.color_stack - 1, ..e }).with_event(EventV::PopStyleColor)
}

/// The engine state after one override is popped from the style variable
/// stack.
pub open spec fn popped_var(e: EngineV) -> EngineV {
    (EngineV { var_stack: e.var_stack - 1, ..e }).with_event(EventV::PopStyleVar)
}

/// Tracks one color override pushed onto the style color stack.
#[derive(Debug)]
pub struct StyleColorToken {
    was_popped: bool,
}

/// Tracks one variable override pushed onto the style variable stack.
#[derive(Debug)]
pub struct StyleVarToken {
    was_popped: bool,
}

/// Push a color override for one plot element, as four components passed
/// through to the back end uninterpreted.  The returned token removes the
/// override again when popped.
pub fn push_style_color(
    element: &PlotColorElement,
    red: i64,
    green: i64,
    blue: i64,
    alpha: i64,
    engine: &mut Engine,
) -> (t: StyleColorToken)
    requires
        old(engine)@.color_stack < usize::MAX,
    ensures
        !t.spec_popped(),
        final(engine)@ == (EngineV {
            color_stack: old(engine)@.color_stack + 1,
            ..old(engine)@
        }).with_event(EventV::PushStyleColor { element: *element, red, green, blue, alpha }),
{
    engine.push_color(*element, red, green, blue, alpha);
    StyleColorToken { was_popped: false }
}

impl StyleColorToken {
    /// Whether this token has already been popped.
    pub closed spec fn spec_popped(&self) -> bool {
        self.was_popped
    }

    /// Whether this token has already been popped.
    pub fn is_popped(&self) -> (r: bool)
        ensures
            r == self.spec_popped(),
    {
        self.was_popped
    }

    /// Pop this token's override from the style color stack.
    ///
    /// Fails with [`PlotError::TokenAlreadyPopped`], changing nothing, if
    /// the token was popped before: a second pop is a violation of the
    /// stack discipline, and callers are expected to treat the error as
    /// fatal.
    pub fn pop(&mut self, engine: &mut Engine) -> (r: Result<(), PlotError>)
        requires
            !old(self).spec_popped() ==> old(engine)@.color_stack > 0,
        ensures
            r is Ok <==> !old(self).spec_popped(),
            final(self).spec_popped(),
            old(self).spec_popped() ==> r == Result::<(), PlotError>::Err(
                PlotError::TokenAlreadyPopped,
            ) && final(engine)@ == old(engine)@,
            !old(self).spec_popped() ==> final(engine)@ == popped_color(old(engine)@),
    {
        if self.was_popped {
            return Result::Err(PlotError::TokenAlreadyPopped);
        }
        self.was_popped = true;
        engine.pop_color();
        Result::Ok(())
    }
}

/// Push a scalar style variable override; the value is passed through to
/// the back end uninterpreted.  The returned token removes the override
/// again when popped.
pub fn push_style_var_f32(element: &StyleVar, value: i64, engine: &mut Engine) -> (t: StyleVarToken)
    requires
        old(engine)@.var_stack < usize::MAX,
    ensures
        !t.spec_popped(),
        final(engine)@ == (EngineV {
            var_stack: old(engine)@.var_stack + 1,
            ..old(engine)@
        }).with_event(EventV::PushStyleVarFloat { var: *element, value }),
{
    engine.push_var_float(*element, value);
    StyleVarToken { was_popped: false }
}

/// Push an integer style variable override, such as a marker choice.  The
/// returned token removes the override again when popped.
pub fn push_style_var_i32(element: &StyleVar, value: i32, engine: &mut Engine) -> (t: StyleVarToken)
    requires
        old(engine)@.var_stack < usize::MAX,
    ensures
        !t.spec_popped(),
        final(engine)@ == (EngineV {
            var_stack: old(engine)@.var_stack + 1,
            ..old(engine)@
        }).with_event(EventV::PushStyleVarInt { var: *element, value }),
{
    engine.push_var_int(*element, value);
    StyleVarToken { was_popped: false }
}

/// Push a two-component style variable override, such as a padding.  The
/// returned token removes the override again when popped.
pub fn push_style_var_vec2(element: &StyleVar, x: i64, y: i64, engine: &mut Engine) -> (t:
    StyleVarToken)
    requires
        old(engine)@.var_stack < usize::MAX,
    ensures
        !t.spec_popped(),
        final(engine)@ == (EngineV {
            var_stack: old(engine)@.var_stack + 1,
            ..old(engine)@
        }).with_event(EventV::PushStyleVarVec2 { var: *element, x, y }),
{
    engine.push_var_vec2(*element, x, y);
    StyleVarToken { was_popped: false }
}

impl StyleVarToken {
    /// Whether this token has already been popped.
    pub closed spec fn spec_popped(&self) -> bool {
        self.was_popped
    }

    /// Whether this token has already been popped.
    pub fn is_popped(&self) -> (r: bool)
        ensures
            r == self.spec_popped(),
    {
        self.was_popped
    }

    /// Pop this token's override from the style variable stack.
    ///
    /// Fails with [`PlotError::TokenAlreadyPopped`], changing nothing, if
    /// the token was popped before: a second pop is a violation of the
    /// stack discipline, and callers are expected to treat the error as
    /// fatal.
    pub fn pop(&mut self, engine: &mut Engine) -> (r: Result<(), PlotError>)
        requires
            !old(self).spec_popped() ==> old(engine)@.var_stack > 0,
        ensures
            r is Ok <==> !old(self).spec_popped(),
            final(self).spec_popped(),
            old(self).spec_popped() ==> r == Result::<(), PlotError>::Err(
                PlotError::TokenAlreadyPopped,
            ) && final(engine)@ == old(engine)@,
            !old(self).spec_popped() ==> final(engine)@ == popped_var(old(engine)@),
    {
        if self.was_popped {
            return Result::Err(PlotError::TokenAlreadyPopped);
        }
        self.was_popped = true;
        engine.pop_var();
        Result::Ok(())
    }
}

/// Switch to a built-in preset colormap, linearly resampled when `samples`
/// is greater than one.
pub fn set_colormap_from_preset(preset: Colormap, samples: u32, engine: &mut Engine)
    ensures
        final(engine)@ == old(engine)@.with_event(
            EventV::ColormapPreset { map: preset, samples },
        ),
{
    engine.colormap_preset(preset, samples);
}

/// Set a custom colormap from an explicit list of colors.
pub fn set_colormap_from_vec(colors: Vec<Color>, engine: &mut Engine)
    ensures
        final(engine)@ == old(engine)@.with_event(EventV::ColormapCustom { colors: colors@ }),
{
    engine.colormap_custom(colors);
}

/// Law: popping a style token removes exactly one override and records
/// exactly one pop command; the token is then spent, and a second pop on
/// it is refused by [`StyleColorToken::pop`] and [`StyleVarToken::pop`]
/// without touching the stack.
pub proof fn lemma_style_token_single_use(e: EngineV)
    requires
        e.color_stack > 0,
        e.var_stack > 0,
    ensures
        popped_color(e).color_stack == e.color_stack - 1,
        popped_color(e).events == e.events.push(EventV::PopStyleColor),
        popped_var(e).var_stack == e.var_stack - 1,
        popped_var(e).events == e.events.push(EventV::PopStyleVar),
{
}

} // verus!
