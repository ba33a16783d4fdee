//! The plotting context: the single live handle to the back end's state.
//!
//! At most one context may be live at a time.  Creating a second one while
//! the first is live is a misuse of the library and is reported as an error;
//! so is tearing the context down while a plot is still open.
//!
//! Creation and destruction mutate the engine through an exclusive borrow,
//! so the two operations cannot race: the exclusivity a lock would provide
//! around hidden global state is enforced here by ownership.
use vstd::prelude::*;

use crate::engine::Engine;
use crate::engine::EngineV;
use crate::engine::EventV;
use crate::engine::StylePreset;
use crate::PlotError;

verus! {

/// A context can be created exactly when no other context is live.
pub open spec fn context_create_ok(e: EngineV) -> bool {
    !e.ctx_active
}

/// The live plotting context.
///
/// Owning a `Context` stands for owning the back end's context handle; it is
/// required, through [`PlotUi`], for all plotting.  Destroy it explicitly
/// with [`Context::destroy`] to free the slot for a later context.
#[derive(Debug)]
pub struct Context {
    _own: (),
}

/// A non-owning capability borrowed from a live [`Context`]; plots can only
/// be begun through it, so no plot outlives the context it came from.
#[derive(Clone, Copy, Debug)]
pub struct PlotUi<'ui> {
    context: &'ui Context,
}

impl Context {
    /// Create the context and make it current.
    ///
    /// Fails with [`PlotError::ContextAlreadyActive`], changing nothing, if
    /// a context is already live: a second live context is a programmer
    /// error, and callers are expected to treat the error as fatal.
    pub fn create(engine: &mut Engine) -> (r: Result<Context, PlotError>)
        ensures
            r is Ok <==> context_create_ok(old(engine)@),
            r is Err ==> r == Result::<Context, PlotError>::Err(
                PlotError::ContextAlreadyActive,
            ) && final(engine)@ == old(engine)@,
            r is Ok ==> final(engine)@ == (EngineV { ctx_active: true, ..old(engine)@ }).with_event(
                EventV::ContextCreated,
            ),
    {
        if engine.context_active() {
            Result::Err(PlotError::ContextAlreadyActive)
        } else {
            engine.create_context();
            Result::Ok(Context { _own: () })
        }
    }

    /// Get the capability handle used to begin plots.
    pub fn get_plot_ui(&self) -> (r: PlotUi<'_>) {
        PlotUi { context: self }
    }

    /// Destroy the context, freeing the slot so a new one can be created.
    ///
    /// Fails with [`PlotError::PlotStillOpen`], changing nothing, if a plot
    /// is still open: ending the context under an open plot would corrupt
    /// the back end's plot stack.  The error is a detected violation of the
    /// open/close balance and is expected to be treated as fatal.
    pub fn destroy(self, engine: &mut Engine) -> (r: Result<(), PlotError>)
        requires
            old(engine)@.ctx_active,
        ensures
            r is Ok <==> old(engine)@.open is None,
            r is Err ==> r == Result::<(), PlotError>::Err(PlotError::PlotStillOpen)
                && final(engine)@ == old(engine)@,
            r is Ok ==> final(engine)@ == (EngineV {
                ctx_active: false,
                ..old(engine)@
            }).with_event(EventV::ContextDestroyed),
    {
        if engine.plot_open() {
            Result::Err(PlotError::PlotStillOpen)
        } else {
            engine.destroy_context();
            Result::Ok(())
        }
    }

    /// Switch the back end's style to the light color preset.
    pub fn use_light_colors(&self, engine: &mut Engine)
        ensures
            final(engine)@ == old(engine)@.with_event(EventV::StyleColors(StylePreset::Light)),
    {
        engine.set_style_preset(StylePreset::Light);
    }

    /// Switch the back end's style to the dark color preset.
    pub fn use_dark_colors(&self, engine: &mut Engine)
        ensures
            final(engine)@ == old(engine)@.with_event(EventV::StyleColors(StylePreset::Dark)),
    {
        engine.set_style_preset(StylePreset::Dark);
    }

    /// Switch the back end's style to the classic color preset.
    pub fn use_classic_colors(&self, engine: &mut Engine)
        ensures
            final(engine)@ == old(engine)@.with_event(EventV::StyleColors(StylePreset::Classic)),
    {
        engine.set_style_preset(StylePreset::Classic);
    }
}

/// Law: the context slot is exclusive.  While a context is live no second
/// one can be created, and after the live context is destroyed creation is
/// possible again.
pub proof fn lemma_single_context(live: EngineV, destroyed: EngineV)
    requires
        live.ctx_active,
        destroyed == (EngineV { ctx_active: false, ..live }).with_event(EventV::ContextDestroyed),
    ensures
        !context_create_ok(live),
        context_create_ok(destroyed),
{
}

} // verus!
