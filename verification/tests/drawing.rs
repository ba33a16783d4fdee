//! Draw primitives: truncation, empty-input no-ops, heatmap scales and the
//! end-to-end scenarios.
use implot::engine::DrawCmd;
use implot::engine::Event;
use implot::Context;
use implot::Engine;
use implot::Plot;
use implot::PlotBars;
use implot::PlotError;
use implot::PlotHeatmap;
use implot::PlotLine;
use implot::PlotPoint;
use implot::PlotScatter;
use implot::PlotStairs;
use implot::PlotStems;
use implot::PlotText;

/// Open a plot with the given title and hand back everything needed to
/// draw in it.
fn opened(title: &str) -> (Engine, Context, implot::plot::PlotToken) {
    let mut engine = Engine::new();
    let ctx = Context::create(&mut engine).unwrap();
    let plot_ui = ctx.get_plot_ui();
    let token = Plot::new(title).unwrap().begin(&plot_ui, &mut engine).unwrap();
    (engine, ctx, token)
}

#[test]
fn test_truncation_to_shorter_sequence() {
    let (mut engine, ctx, mut token) = opened("truncation");
    let line = PlotLine::new("three against two");
    line.plot(&vec![1, 2, 3], &vec![10, 20], &mut engine).unwrap();
    match engine.events().last().unwrap() {
        Event::Draw(DrawCmd::Line { x, y, .. }) => {
            assert_eq!(x, &vec![1, 2]);
            assert_eq!(y, &vec![10, 20]);
        }
        other => panic!("expected a line command, got {:?}", other),
    }
    token.end(&mut engine).unwrap();
    ctx.destroy(&mut engine).unwrap();
}

#[test]
fn test_empty_data_is_a_no_op() {
    let (mut engine, ctx, mut token) = opened("empty");
    let before = engine.event_count();
    PlotLine::new("no points").plot(&vec![], &vec![1, 2], &mut engine).unwrap();
    PlotScatter::new("no points").plot(&vec![1, 2], &vec![], &mut engine).unwrap();
    PlotStairs::new("no points").plot(&vec![], &vec![], &mut engine).unwrap();
    PlotBars::new("no bars").plot(&vec![], &vec![1], &mut engine).unwrap();
    PlotStems::new("no stems").plot(&vec![1], &vec![], &mut engine).unwrap();
    // min(m, n) == 0: no command reaches the back end.
    assert_eq!(engine.event_count(), before);
    token.end(&mut engine).unwrap();
    ctx.destroy(&mut engine).unwrap();
}

#[test]
fn test_scatter_and_stairs_submit_prefixes() {
    let (mut engine, ctx, mut token) = opened("pairs");
    PlotScatter::new("s").plot(&vec![1, 2, 3, 4], &vec![5, 6, 7], &mut engine).unwrap();
    match engine.events().last().unwrap() {
        Event::Draw(DrawCmd::Scatter { x, y, .. }) => {
            assert_eq!(x, &vec![1, 2, 3]);
            assert_eq!(y, &vec![5, 6, 7]);
        }
        other => panic!("expected a scatter command, got {:?}", other),
    }
    PlotStairs::new("st").plot(&vec![1], &vec![2, 3], &mut engine).unwrap();
    match engine.events().last().unwrap() {
        Event::Draw(DrawCmd::Stairs { x, y, .. }) => {
            assert_eq!(x, &vec![1]);
            assert_eq!(y, &vec![2]);
        }
        other => panic!("expected a stairs command, got {:?}", other),
    }
    token.end(&mut engine).unwrap();
    ctx.destroy(&mut engine).unwrap();
}

#[test]
fn test_horizontal_bars_swap_data() {
    let (mut engine, ctx, mut token) = opened("bars");
    let bars = PlotBars::new("h").with_bar_width(2).with_horizontal_bars();
    bars.plot(&vec![1, 2], &vec![30, 40], &mut engine).unwrap();
    match engine.events().last().unwrap() {
        Event::Draw(DrawCmd::Bars { horizontal, bar_width, x, y, .. }) => {
            assert!(*horizontal);
            assert_eq!(*bar_width, 2);
            // Horizontal bars hand the values as X and the positions as Y.
            assert_eq!(x, &vec![30, 40]);
            assert_eq!(y, &vec![1, 2]);
        }
        other => panic!("expected a bars command, got {:?}", other),
    }
    token.end(&mut engine).unwrap();
    ctx.destroy(&mut engine).unwrap();
}

#[test]
fn test_stems_carry_reference_value() {
    let (mut engine, ctx, mut token) = opened("stems");
    PlotStems::new("st").with_reference_y(5).plot(&vec![1, 2], &vec![7, 9], &mut engine).unwrap();
    match engine.events().last().unwrap() {
        Event::Draw(DrawCmd::Stems { reference_y, x, y, .. }) => {
            assert_eq!(*reference_y, 5);
            assert_eq!(x, &vec![1, 2]);
            assert_eq!(y, &vec![7, 9]);
        }
        other => panic!("expected a stems command, got {:?}", other),
    }
    token.end(&mut engine).unwrap();
    ctx.destroy(&mut engine).unwrap();
}

#[test]
fn test_empty_text_is_a_no_op() {
    let (mut engine, ctx, mut token) = opened("text");
    let before = engine.event_count();
    PlotText::new("").plot(3, 4, false, &mut engine).unwrap();
    assert_eq!(engine.event_count(), before);
    PlotText::new("note").with_pixel_offset(5, -5).plot(3, 4, true, &mut engine).unwrap();
    match engine.events().last().unwrap() {
        Event::Draw(DrawCmd::Text { label, x, y, vertical, offset_x, offset_y }) => {
            assert_eq!(label.as_str(), "note");
            assert_eq!(*x, 3);
            assert_eq!(*y, 4);
            assert!(*vertical);
            assert_eq!(*offset_x, 5);
            assert_eq!(*offset_y, -5);
        }
        other => panic!("expected a text command, got {:?}", other),
    }
    token.end(&mut engine).unwrap();
    ctx.destroy(&mut engine).unwrap();
}

#[test]
fn test_heatmap_default_scale_is_data_extent() {
    let (mut engine, ctx, mut token) = opened("heatmap");
    let heatmap = PlotHeatmap::new("m");
    heatmap.plot(&vec![3, 1, 4, 1, 5, 9], 2, 3, &mut engine).unwrap();
    match engine.events().last().unwrap() {
        Event::Draw(DrawCmd::Heatmap { rows, cols, scale_min, scale_max, .. }) => {
            assert_eq!(*rows, 2);
            assert_eq!(*cols, 3);
            // The computed scale is the true extent of the data.
            assert_eq!(*scale_min, 1);
            assert_eq!(*scale_max, 9);
        }
        other => panic!("expected a heatmap command, got {:?}", other),
    }
    token.end(&mut engine).unwrap();
    ctx.destroy(&mut engine).unwrap();
}

#[test]
fn test_empty_heatmap_is_a_no_op() {
    let (mut engine, ctx, mut token) = opened("empty heatmap");
    let before = engine.event_count();
    // With no values nothing reaches the back end, whether the scale is
    // computed or explicit.
    PlotHeatmap::new("m").plot(&vec![], 0, 0, &mut engine).unwrap();
    PlotHeatmap::new("m").with_scale(0, 10).plot(&vec![], 0, 0, &mut engine).unwrap();
    assert_eq!(engine.event_count(), before);
    token.end(&mut engine).unwrap();
    ctx.destroy(&mut engine).unwrap();
}

#[test]
fn test_heatmap_explicit_scale_overrides_data() {
    let (mut engine, ctx, mut token) = opened("heatmap scaled");
    let heatmap = PlotHeatmap::new("m")
        .with_scale(-100, 100)
        .with_drawing_area(PlotPoint { x: 0, y: 0 }, PlotPoint { x: 10, y: 10 })
        .with_label_format(Some("%d"))
        .unwrap();
    heatmap.plot(&vec![3, 1, 4, 1], 2, 2, &mut engine).unwrap();
    match engine.events().last().unwrap() {
        Event::Draw(DrawCmd::Heatmap {
            scale_min,
            scale_max,
            label_format,
            lower_left,
            upper_right,
            ..
        }) => {
            // The explicit scale wins, whatever the data's range.
            assert_eq!(*scale_min, -100);
            assert_eq!(*scale_max, 100);
            assert_eq!(label_format.as_deref(), Some("%d"));
            assert_eq!(*lower_left, PlotPoint { x: 0, y: 0 });
            assert_eq!(*upper_right, PlotPoint { x: 10, y: 10 });
        }
        other => panic!("expected a heatmap command, got {:?}", other),
    }
    token.end(&mut engine).unwrap();
    ctx.destroy(&mut engine).unwrap();
}

#[test]
fn test_label_with_embedded_nul_is_rejected() {
    let (mut engine, ctx, mut token) = opened("nul labels");
    let before = engine.event_count();
    let err = PlotLine::new("bad\0label").plot(&vec![1], &vec![2], &mut engine).unwrap_err();
    assert_eq!(err, PlotError::LabelContainsNul);
    assert_eq!(engine.event_count(), before);
    // With no data the length check comes first and nothing is reported.
    PlotLine::new("bad\0label").plot(&vec![], &vec![], &mut engine).unwrap();
    token.end(&mut engine).unwrap();
    ctx.destroy(&mut engine).unwrap();
}

#[test]
fn test_build_scenario_draws_one_line() {
    let mut engine = Engine::new();
    let ctx = Context::create(&mut engine).unwrap();
    let plot_ui = ctx.get_plot_ui();
    let n_before = engine.event_count();
    Plot::new("T")
        .unwrap()
        .size([400, 300])
        .build(&plot_ui, &mut engine, |mut e: Engine| {
            PlotLine::new("data").plot(&vec![1, 9], &vec![1, 9], &mut e).unwrap();
            e
        });
    let events = engine.events();
    // Exactly one begin, one line command with length-2 data, one end.
    assert_eq!(events.len(), n_before + 3);
    match &events[n_before] {
        Event::BeginPlot(rec) => {
            assert_eq!(rec.title.as_str(), "T");
            assert_eq!(rec.width, 400);
            assert_eq!(rec.height, 300);
            assert_eq!(rec.x_limits, None);
            assert!(rec.rendered);
        }
        other => panic!("expected a begin command, got {:?}", other),
    }
    match &events[n_before + 1] {
        Event::Draw(DrawCmd::Line { label, x, y }) => {
            assert_eq!(label.as_str(), "data");
            assert_eq!(x.len(), 2);
            assert_eq!(y.len(), 2);
        }
        other => panic!("expected a line command, got {:?}", other),
    }
    assert!(matches!(&events[n_before + 2], Event::EndPlot));
    assert!(!engine.plot_open());
    ctx.destroy(&mut engine).unwrap();
}

#[test]
fn test_build_skips_callback_when_not_rendering() {
    let mut engine = Engine::new();
    let ctx = Context::create(&mut engine).unwrap();
    let plot_ui = ctx.get_plot_ui();
    engine.set_next_plot_visible(false);
    Plot::new("hidden").unwrap().build(&plot_ui, &mut engine, |_e: Engine| -> Engine {
        panic!("the callback must not run for a plot that does not render");
    });
    assert!(!engine.plot_open());
    engine.set_next_plot_visible(true);
    ctx.destroy(&mut engine).unwrap();
}
