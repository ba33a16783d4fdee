//! Range conversions, builder configuration, axis-limit precedence and
//! linked limits.
use implot::engine::AppliedLimits;
use implot::engine::Event;
use implot::engine::FixedLimit;
use implot::Condition;
use implot::Context;
use implot::Engine;
use implot::Plot;
use implot::PlotError;
use implot::PlotRange;
use implot::YAxisChoice;

#[test]
fn test_plot_range_from_range() {
    let r = 5i64..7i64;
    let im_range: PlotRange = r.clone().into();
    assert_eq!(im_range.min, r.start);
    assert_eq!(im_range.max, r.end);

    let arr = [7i64, 8i64];
    let im_range: PlotRange = arr.clone().into();
    assert_eq!(im_range.min, arr[0]);
    assert_eq!(im_range.max, arr[1]);

    let tuple = (12i64, 19i64);
    let im_range: PlotRange = tuple.clone().into();
    assert_eq!(im_range.min, tuple.0);
    assert_eq!(im_range.max, tuple.1);
}

#[test]
fn test_title_with_embedded_nul_is_rejected() {
    assert_eq!(Plot::new("bad\0title").unwrap_err(), PlotError::LabelContainsNul);
    assert!(Plot::new("good title").is_ok());
    let p = Plot::new("p").unwrap();
    assert_eq!(p.x_label("bad\0label").unwrap_err(), PlotError::LabelContainsNul);
    let p = Plot::new("p").unwrap();
    assert_eq!(p.y_label("bad\0label").unwrap_err(), PlotError::LabelContainsNul);
}

#[test]
fn test_tick_labels_with_embedded_nul_are_rejected() {
    let ticks = vec![(1i64, String::from("one")), (2i64, String::from("t\0wo"))];
    let p = Plot::new("p").unwrap();
    assert_eq!(p.x_ticks_with_labels(&ticks, false).unwrap_err(), PlotError::LabelContainsNul);
    let p = Plot::new("p").unwrap();
    let err = p.y_ticks_with_labels(YAxisChoice::First, &ticks, false).unwrap_err();
    assert_eq!(err, PlotError::LabelContainsNul);
}

#[test]
fn test_literal_limits_reach_the_back_end() {
    let mut engine = Engine::new();
    let ctx = Context::create(&mut engine).unwrap();
    let plot_ui = ctx.get_plot_ui();
    let plot = Plot::new("limits")
        .unwrap()
        .x_limits(PlotRange { min: -5, max: 5 }, Condition::Always)
        .y1_limits(PlotRange { min: 0, max: 10 }, Condition::FirstUseEver);
    let mut token = plot.begin(&plot_ui, &mut engine).unwrap();
    match engine.events().last().unwrap() {
        Event::BeginPlot(rec) => {
            assert_eq!(
                rec.x_limits,
                Some(AppliedLimits::Fixed(FixedLimit {
                    range: PlotRange { min: -5, max: 5 },
                    cond: Condition::Always,
                }))
            );
            assert_eq!(
                rec.y_limits0,
                Some(AppliedLimits::Fixed(FixedLimit {
                    range: PlotRange { min: 0, max: 10 },
                    cond: Condition::FirstUseEver,
                }))
            );
            assert_eq!(rec.y_limits1, None);
        }
        other => panic!("expected a begin command, got {:?}", other),
    }
    // The applied limits become the current plot limits.
    let limits = implot::get_plot_limits(&engine);
    assert_eq!(limits.x, PlotRange { min: -5, max: 5 });
    assert_eq!(limits.y, PlotRange { min: 0, max: 10 });
    token.end(&mut engine).unwrap();
    ctx.destroy(&mut engine).unwrap();
}

#[test]
fn test_axis_limit_precedence_last_setter_wins() {
    let mut engine = Engine::new();
    let handle = engine.create_shared_range(PlotRange { min: 100, max: 200 });

    // Literal limits set after linked limits take effect...
    let plot = Plot::new("literal wins")
        .unwrap()
        .linked_y1_limits(handle)
        .y1_limits(PlotRange { min: 0, max: 1 }, Condition::Always);
    let ctx = Context::create(&mut engine).unwrap();
    let plot_ui = ctx.get_plot_ui();
    let mut token = plot.begin(&plot_ui, &mut engine).unwrap();
    match engine.events().last().unwrap() {
        Event::BeginPlot(rec) => assert_eq!(
            rec.y_limits0,
            Some(AppliedLimits::Fixed(FixedLimit {
                range: PlotRange { min: 0, max: 1 },
                cond: Condition::Always,
            }))
        ),
        other => panic!("expected a begin command, got {:?}", other),
    }
    token.end(&mut engine).unwrap();

    // ... and linked limits set after literal limits take effect.
    let plot = Plot::new("linked wins")
        .unwrap()
        .y1_limits(PlotRange { min: 0, max: 1 }, Condition::Always)
        .linked_y1_limits(handle);
    let mut token = plot.begin(&plot_ui, &mut engine).unwrap();
    match engine.events().last().unwrap() {
        Event::BeginPlot(rec) => assert_eq!(
            rec.y_limits0,
            Some(AppliedLimits::Linked {
                slot: handle.slot,
                range: PlotRange { min: 100, max: 200 },
            })
        ),
        other => panic!("expected a begin command, got {:?}", other),
    }
    token.end(&mut engine).unwrap();
    ctx.destroy(&mut engine).unwrap();
}

#[test]
fn test_linked_limits_synchronise_plots() {
    let mut engine = Engine::new();
    let shared = engine.create_shared_range(PlotRange { min: 10, max: 20 });
    let ctx = Context::create(&mut engine).unwrap();
    let plot_ui = ctx.get_plot_ui();

    // The first plot reads the shared range, and its render cycle moves the
    // axis before writing it back.
    let first = Plot::new("first").unwrap().linked_y1_limits(shared);
    let mut token = first.begin(&plot_ui, &mut engine).unwrap();
    assert_eq!(implot::get_plot_limits(&engine).y, PlotRange { min: 10, max: 20 });
    engine.set_current_y_limits(YAxisChoice::First, PlotRange { min: 30, max: 40 });
    token.end(&mut engine).unwrap();
    assert_eq!(engine.read_shared_range(shared), PlotRange { min: 30, max: 40 });

    // The second plot using the same handle observes the updated value.
    let second = Plot::new("second").unwrap().linked_y1_limits(shared);
    let mut token = second.begin(&plot_ui, &mut engine).unwrap();
    match engine.events().last().unwrap() {
        Event::BeginPlot(rec) => assert_eq!(
            rec.y_limits0,
            Some(AppliedLimits::Linked {
                slot: shared.slot,
                range: PlotRange { min: 30, max: 40 },
            })
        ),
        other => panic!("expected a begin command, got {:?}", other),
    }
    assert_eq!(implot::get_plot_limits(&engine).y, PlotRange { min: 30, max: 40 });
    token.end(&mut engine).unwrap();
    ctx.destroy(&mut engine).unwrap();
}

#[test]
fn test_ticks_reach_the_back_end() {
    let mut engine = Engine::new();
    let ctx = Context::create(&mut engine).unwrap();
    let plot_ui = ctx.get_plot_ui();
    let labeled = vec![(1i64, String::from("one")), (5i64, String::from("five"))];
    let plot = Plot::new("ticks")
        .unwrap()
        .x_ticks(vec![2, 4, 6], true)
        .y_ticks_with_labels(YAxisChoice::Second, &labeled, false)
        .unwrap();
    let mut token = plot.begin(&plot_ui, &mut engine).unwrap();
    match engine.events().last().unwrap() {
        Event::BeginPlot(rec) => {
            let xt = rec.x_ticks.as_ref().unwrap();
            assert_eq!(xt.positions, vec![2, 4, 6]);
            assert!(xt.labels.is_none());
            assert!(xt.show_default);
            let yt = rec.y_ticks1.as_ref().unwrap();
            assert_eq!(yt.positions, vec![1, 5]);
            assert_eq!(
                yt.labels.as_ref().unwrap(),
                &vec![String::from("one"), String::from("five")]
            );
            assert!(!yt.show_default);
            assert!(rec.y_ticks0.is_none());
        }
        other => panic!("expected a begin command, got {:?}", other),
    }
    token.end(&mut engine).unwrap();
    ctx.destroy(&mut engine).unwrap();
}

#[test]
fn test_empty_tick_list_is_not_submitted() {
    let mut engine = Engine::new();
    let ctx = Context::create(&mut engine).unwrap();
    let plot_ui = ctx.get_plot_ui();
    let plot = Plot::new("no ticks").unwrap().x_ticks(vec![], true);
    let mut token = plot.begin(&plot_ui, &mut engine).unwrap();
    match engine.events().last().unwrap() {
        Event::BeginPlot(rec) => assert!(rec.x_ticks.is_none()),
        other => panic!("expected a begin command, got {:?}", other),
    }
    token.end(&mut engine).unwrap();
    ctx.destroy(&mut engine).unwrap();
}

#[test]
fn test_flags_and_legend_reach_the_back_end() {
    let mut engine = Engine::new();
    let ctx = Context::create(&mut engine).unwrap();
    let plot_ui = ctx.get_plot_ui();
    let plot = Plot::new("flags")
        .unwrap()
        .x_label("time")
        .unwrap()
        .y_label("value")
        .unwrap()
        .with_plot_flags(&implot::PlotFlags::none().no_legend().crosshairs())
        .with_x_axis_flags(&implot::AxisFlags::none().log_scale())
        .with_y_axis_flags(YAxisChoice::Third, &implot::AxisFlags::none().invert())
        .with_legend_location(
            &implot::PlotLocation::NorthEast,
            &implot::PlotOrientation::Vertical,
            true,
        );
    let mut token = plot.begin(&plot_ui, &mut engine).unwrap();
    match engine.events().last().unwrap() {
        Event::BeginPlot(rec) => {
            assert_eq!(rec.x_label.as_str(), "time");
            assert_eq!(rec.y_label.as_str(), "value");
            assert_eq!(rec.flags, implot::plot::PLOT_FLAG_NO_LEGEND | implot::plot::PLOT_FLAG_CROSSHAIRS);
            assert_eq!(rec.x_flags, implot::plot::AXIS_FLAG_LOG_SCALE);
            assert_eq!(rec.y_flags2, implot::plot::AXIS_FLAG_INVERT);
            let legend = rec.legend.as_ref().unwrap();
            assert_eq!(legend.location, implot::PlotLocation::NorthEast);
            assert_eq!(legend.orientation, implot::PlotOrientation::Vertical);
            assert!(legend.outside);
        }
        other => panic!("expected a begin command, got {:?}", other),
    }
    token.end(&mut engine).unwrap();
    ctx.destroy(&mut engine).unwrap();
}
