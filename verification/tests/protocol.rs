//! Context lifecycle, open/close balance and style stack discipline.
use implot::engine::Event;
use implot::Context;
use implot::Engine;
use implot::Plot;
use implot::PlotColorElement;
use implot::PlotError;
use implot::StyleVar;

#[test]
fn test_single_context_invariant() {
    let mut engine = Engine::new();
    let ctx = Context::create(&mut engine).unwrap();
    // A second context while the first is live is refused.
    let second = Context::create(&mut engine);
    assert_eq!(second.unwrap_err(), PlotError::ContextAlreadyActive);
    // After the first is destroyed, creation succeeds again.
    ctx.destroy(&mut engine).unwrap();
    let again = Context::create(&mut engine);
    assert!(again.is_ok());
    again.unwrap().destroy(&mut engine).unwrap();
}

#[test]
fn test_open_close_balance() {
    let mut engine = Engine::new();
    let ctx = Context::create(&mut engine).unwrap();
    let plot_ui = ctx.get_plot_ui();
    let plot = Plot::new("balanced").unwrap();
    let mut token = plot.begin(&plot_ui, &mut engine).expect("visible plot yields a token");
    assert!(engine.plot_open());
    // Exactly one end succeeds.
    assert!(token.end(&mut engine).is_ok());
    assert!(!engine.plot_open());
    // A second end on the same token is detected.
    assert_eq!(token.end(&mut engine).unwrap_err(), PlotError::PlotAlreadyEnded);
    ctx.destroy(&mut engine).unwrap();
}

#[test]
fn test_clipped_plot_yields_no_token() {
    let mut engine = Engine::new();
    let ctx = Context::create(&mut engine).unwrap();
    let plot_ui = ctx.get_plot_ui();
    engine.set_next_plot_visible(false);
    let plot = Plot::new("clipped").unwrap();
    // No token, and nothing further is required.
    assert!(plot.begin(&plot_ui, &mut engine).is_none());
    assert!(!engine.plot_open());
    // The begin command still reached the back end, marked as not rendered.
    match engine.events().last().unwrap() {
        Event::BeginPlot(rec) => assert!(!rec.rendered),
        other => panic!("expected a begin command, got {:?}", other),
    }
    engine.set_next_plot_visible(true);
    ctx.destroy(&mut engine).unwrap();
}

#[test]
fn test_unclosed_plot_detected_at_teardown() {
    let mut engine = Engine::new();
    let ctx = Context::create(&mut engine).unwrap();
    let plot_ui = ctx.get_plot_ui();
    let plot = Plot::new("left open").unwrap();
    let _token = plot.begin(&plot_ui, &mut engine).unwrap();
    // Dropping the token without ending it leaves the plot open, which the
    // teardown detects.
    let err = ctx.destroy(&mut engine).unwrap_err();
    assert_eq!(err, PlotError::PlotStillOpen);
}

#[test]
fn test_nested_begin_refused() {
    let mut engine = Engine::new();
    let ctx = Context::create(&mut engine).unwrap();
    let plot_ui = ctx.get_plot_ui();
    let first = Plot::new("outer").unwrap();
    let mut token = first.begin(&plot_ui, &mut engine).unwrap();
    let before = engine.event_count();
    // A second begin while a plot is open yields no token and submits
    // nothing.
    let second = Plot::new("inner").unwrap();
    assert!(second.begin(&plot_ui, &mut engine).is_none());
    assert_eq!(engine.event_count(), before);
    token.end(&mut engine).unwrap();
    ctx.destroy(&mut engine).unwrap();
}

#[test]
fn test_style_color_token_single_use() {
    let mut engine = Engine::new();
    let mut token = implot::push_style_color(&PlotColorElement::Line, 255, 255, 255, 51, &mut engine);
    assert_eq!(engine.color_stack_depth(), 1);
    // The first pop succeeds silently.
    assert!(token.pop(&mut engine).is_ok());
    assert_eq!(engine.color_stack_depth(), 0);
    // The second pop on the same token is detected.
    assert_eq!(token.pop(&mut engine).unwrap_err(), PlotError::TokenAlreadyPopped);
    assert_eq!(engine.color_stack_depth(), 0);
}

#[test]
fn test_style_var_token_single_use() {
    let mut engine = Engine::new();
    let mut token = implot::push_style_var_f32(&StyleVar::LineWeight, 11, &mut engine);
    assert_eq!(engine.var_stack_depth(), 1);
    assert!(token.pop(&mut engine).is_ok());
    assert_eq!(engine.var_stack_depth(), 0);
    assert_eq!(token.pop(&mut engine).unwrap_err(), PlotError::TokenAlreadyPopped);
    assert_eq!(engine.var_stack_depth(), 0);
}

#[test]
fn test_marker_style_var() {
    let mut engine = Engine::new();
    let mut token = implot::push_style_var_i32(
        &StyleVar::Marker,
        implot::Marker::Cross.to_i32(),
        &mut engine,
    );
    match engine.events().last().unwrap() {
        Event::PushStyleVarInt { var, value } => {
            assert_eq!(*var, StyleVar::Marker);
            assert_eq!(*value, 8);
        }
        other => panic!("expected a style var push, got {:?}", other),
    }
    token.pop(&mut engine).unwrap();
}

#[test]
fn test_vec2_style_var() {
    let mut engine = Engine::new();
    let mut token = implot::push_style_var_vec2(&StyleVar::PlotPadding, 4, 6, &mut engine);
    match engine.events().last().unwrap() {
        Event::PushStyleVarVec2 { var, x, y } => {
            assert_eq!(*var, StyleVar::PlotPadding);
            assert_eq!(*x, 4);
            assert_eq!(*y, 6);
        }
        other => panic!("expected a style var push, got {:?}", other),
    }
    token.pop(&mut engine).unwrap();
}

#[test]
fn test_style_presets_and_colormaps_recorded() {
    let mut engine = Engine::new();
    let ctx = Context::create(&mut engine).unwrap();
    ctx.use_light_colors(&mut engine);
    implot::set_colormap_from_preset(implot::Colormap::Viridis, 0, &mut engine);
    implot::set_colormap_from_vec(
        vec![
            implot::engine::Color { r: 255, g: 0, b: 0, a: 255 },
            implot::engine::Color { r: 0, g: 255, b: 0, a: 255 },
        ],
        &mut engine,
    );
    let n = engine.event_count();
    match &engine.events()[n - 2] {
        Event::ColormapPreset { map, samples } => {
            assert_eq!(*map, implot::Colormap::Viridis);
            assert_eq!(*samples, 0);
        }
        other => panic!("expected a colormap preset, got {:?}", other),
    }
    match &engine.events()[n - 1] {
        Event::ColormapCustom { colors } => assert_eq!(colors.len(), 2),
        other => panic!("expected a custom colormap, got {:?}", other),
    }
    ctx.destroy(&mut engine).unwrap();
}

#[test]
fn test_query_state_reads_back() {
    let mut engine = Engine::new();
    assert!(!implot::is_plot_hovered(&engine));
    assert!(!implot::is_plot_queried(&engine));
    engine.set_hovered(true);
    engine.set_queried(true);
    engine.set_mouse_position(implot::PlotPoint { x: 3, y: 4 });
    engine.set_query_limits(implot::PlotLimits {
        x: implot::PlotRange { min: 1, max: 2 },
        y: implot::PlotRange { min: 3, max: 4 },
    });
    assert!(implot::is_plot_hovered(&engine));
    assert!(implot::is_plot_queried(&engine));
    assert_eq!(implot::get_plot_mouse_position(&engine), implot::PlotPoint { x: 3, y: 4 });
    assert_eq!(
        implot::get_plot_query(&engine),
        implot::PlotLimits {
            x: implot::PlotRange { min: 1, max: 2 },
            y: implot::PlotRange { min: 3, max: 4 },
        }
    );
}
