use egui_skia_winit::{EguiSkia, EventResponse, ScaleFactor};

#[test]
fn engine_initialized_with_given_scale_factor() {
    let engine = EguiSkia::new(ScaleFactor::from_thousandths(1500));
    assert_eq!(engine.scale.thousandths, 1500);

    let engine = EguiSkia::new(ScaleFactor { thousandths: 2000 });
    assert_eq!(engine.scale.thousandths, 2000);
}

#[test]
fn scale_factor_keeps_its_thousandths() {
    let scale = ScaleFactor::from_thousandths(1000);
    assert_eq!(scale.thousandths, 1000);
    assert_eq!(scale, ScaleFactor { thousandths: 1000 });
}

#[test]
fn response_reports_flags_unaltered() {
    let r = EventResponse::from_flags(true, false);
    assert!(r.consumed);
    assert!(!r.repaint);

    let r = EventResponse::from_flags(false, true);
    assert!(!r.consumed);
    assert!(r.repaint);

    let r = EventResponse::from_flags(false, false);
    assert!(!r.consumed);
    assert!(!r.repaint);
}

#[test]
fn paint_before_any_frame_has_nothing() {
    let engine = EguiSkia::new(ScaleFactor::from_thousandths(1000));
    assert!(engine.paint().is_none());
}

#[test]
fn run_produces_draw_data_for_paint() {
    let mut engine = EguiSkia::new(ScaleFactor::from_thousandths(1000));

    let mut input = egui::RawInput::default();
    input.screen_rect = Some(egui::Rect::from_min_size(
        egui::pos2(0.0, 0.0),
        egui::vec2(800.0, 600.0),
    ));

    let (_delay, _platform_output) = engine.run(input, |ui: &mut egui::Ui| {
        ui.label("hello");
    });

    let frame = engine.paint().as_ref().expect("a frame ran, so there is draw data");
    assert!(!frame.shapes.is_empty());

    let mut frame = engine.take_frame().expect("a frame ran, so there is draw data");
    frame.textures.clear();
}

#[test]
fn run_reports_a_repaint_delay_for_the_driven_viewport() {
    let mut engine = EguiSkia::new(ScaleFactor::from_thousandths(1000));

    let (delay, _platform_output) = engine.run(egui::RawInput::default(), |_ui: &mut egui::Ui| {});

    assert!(delay.is_some());

    if let Some(mut frame) = engine.take_frame() {
        frame.textures.clear();
    }
}

#[test]
fn take_frame_leaves_nothing_to_paint() {
    let mut engine = EguiSkia::new(ScaleFactor::from_thousandths(1000));
    assert!(engine.take_frame().is_none());

    engine.run(egui::RawInput::default(), |_ui: &mut egui::Ui| {});
    let mut frame = engine.take_frame().expect("a frame ran, so there is draw data");
    frame.textures.clear();

    assert!(engine.paint().is_none());
    assert!(engine.take_frame().is_none());
}

#[test]
fn a_second_frame_replaces_an_untaken_first_frame() {
    let mut engine = EguiSkia::new(ScaleFactor::from_thousandths(1000));

    let mut input = egui::RawInput::default();
    input.screen_rect = Some(egui::Rect::from_min_size(
        egui::pos2(0.0, 0.0),
        egui::vec2(640.0, 480.0),
    ));

    engine.run(input.clone(), |ui: &mut egui::Ui| {
        ui.label("first");
    });
    engine.run(input, |ui: &mut egui::Ui| {
        ui.label("second");
    });

    let mut frame = engine.take_frame().expect("a frame ran, so there is draw data");
    assert!(!frame.shapes.is_empty());
    frame.textures.clear();
}

#[test]
fn paint_hands_out_the_same_frame_every_time() {
    let mut engine = EguiSkia::new(ScaleFactor::from_thousandths(1000));

    let mut input = egui::RawInput::default();
    input.screen_rect = Some(egui::Rect::from_min_size(
        egui::pos2(0.0, 0.0),
        egui::vec2(640.0, 480.0),
    ));

    engine.run(input, |ui: &mut egui::Ui| {
        ui.label("first");
    });

    let shapes_first = engine.paint().as_ref().expect("frame ran").shapes.len();
    let shapes_again = engine.paint().as_ref().expect("frame ran").shapes.len();
    assert_eq!(shapes_first, shapes_again);

    if let Some(mut frame) = engine.take_frame() {
        frame.textures.clear();
    }
}
