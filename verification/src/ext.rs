//! The trusted boundary: declarations of the GUI, platform and painting types
//! this crate drives, and thin wrappers around the outside calls it makes.
//! Every contract in this file is believed, not proved; each doc comment names
//! the outside function it relies on.

use vstd::prelude::*;

verus! {

#[verifier::external_type_specification]
#[verifier::external_body]
pub struct ExContext(egui::Context);

#[verifier::external_type_specification]
#[verifier::external_body]
pub struct ExRawInput(egui::RawInput);

#[verifier::external_type_specification]
#[verifier::external_body]
pub struct ExPlatformOutput(egui::PlatformOutput);

#[verifier::external_type_specification]
#[verifier::external_body]
pub struct ExTexturesDelta(egui::TexturesDelta);

#[verifier::external_type_specification]
#[verifier::external_body]
pub struct ExClippedShape(egui::epaint::ClippedShape);

#[verifier::external_type_specification]
#[verifier::external_body]
pub struct ExUi(egui::Ui);

#[verifier::external_type_specification]
#[verifier::external_body]
pub struct ExViewportId(egui::ViewportId);

#[verifier::external_type_specification]
#[verifier::external_body]
pub struct ExState(egui_winit::State);

#[verifier::external_type_specification]
#[verifier::external_body]
pub struct ExWindow(egui_winit::winit::window::Window);

#[verifier::external_type_specification]
#[verifier::external_body]
pub struct ExWindowEvent(egui_winit::winit::event::WindowEvent);

/// The input events a platform-state handle has gathered since it was last
/// drained, in the order they arrived.
pub uninterp spec fn pending_events(s: egui_winit::State) -> Seq<int>;

/// The input events carried by one frame's worth of raw input, in order.
pub uninterp spec fn input_events(r: egui::RawInput) -> Seq<int>;

/// Relies on egui::Context::default: builds a fresh GUI context.
#[verifier::external_body]
pub(crate) fn new_egui_context() -> (r: egui::Context) {
    egui::Context::default()
}

/// Relies on egui::Context::clone: hands out another handle to the same
/// shared GUI context.
#[verifier::external_body]
pub(crate) fn clone_context(ctx: &egui::Context) -> (r: egui::Context) {
    ctx.clone()
}

/// Relies on egui::Context::viewport_id: reports the viewport the context is
/// currently rendering to.
#[verifier::external_body]
pub(crate) fn context_viewport_id(ctx: &egui::Context) -> (r: egui::ViewportId) {
    ctx.viewport_id()
}

/// Relies on egui_winit::State::new: the fresh handle starts from default raw
/// input, so it has gathered no events yet.
#[verifier::external_body]
pub(crate) fn new_platform_state(
    egui_ctx: egui::Context,
    viewport_id: egui::ViewportId,
    window: &egui_winit::winit::window::Window,
) -> (s: egui_winit::State)
    ensures
        pending_events(s) == Seq::<int>::empty(),
{
    egui_winit::State::new(egui_ctx, viewport_id, window, None, None, None)
}

/// Relies on egui_winit::State::on_window_event: it only ever appends the
/// events it translates to the gathered input, never removes or reorders any,
/// and reports whether the GUI consumed the event and whether it wants a
/// repaint.
#[verifier::external_body]
pub(crate) fn state_on_window_event(
    s: &mut egui_winit::State,
    window: &egui_winit::winit::window::Window,
    event: &egui_winit::winit::event::WindowEvent,
) -> (r: (bool, bool))
    ensures
        pending_events(*old(s)).is_prefix_of(pending_events(*final(s))),
{
    let response = s.on_window_event(window, event);
    (response.consumed, response.repaint)
}

/// Relies on egui_winit::State::take_egui_input: the returned raw input moves
/// the gathered events out exactly as they accumulated, leaving none behind.
#[verifier::external_body]
pub(crate) fn state_take_egui_input(
    s: &mut egui_winit::State,
    window: &egui_winit::winit::window::Window,
) -> (r: egui::RawInput)
    ensures
        input_events(r) == pending_events(*old(s)),
        pending_events(*final(s)) == Seq::<int>::empty(),
{
    s.take_egui_input(window)
}

/// Relies on egui::Context::run_ui: runs one GUI frame on the given raw
/// input and splits the frame's full output into the platform requests, the
/// shapes to paint, the texture changes, and the suggested repaint delay of
/// the viewport being driven. What the frame produces depends on the GUI
/// state and the time, so nothing is claimed of the returned values.
#[verifier::external_body]
pub(crate) fn ctx_run_ui<F: FnMut(&mut egui::Ui)>(
    ctx: &egui::Context,
    viewport_id: &egui::ViewportId,
    input: egui::RawInput,
    run_ui: F,
) -> (r: (egui::PlatformOutput, Vec<egui::epaint::ClippedShape>, egui::TexturesDelta, Option<
    std::time::Duration,
>)) {
    let out = ctx.run_ui(input, run_ui);
    let delay = out.viewport_output.get(viewport_id).map(|v| v.repaint_delay);
    (out.platform_output, out.shapes, out.textures_delta, delay)
}

/// Relies on egui::TexturesDelta::clear: empties the pending texture
/// changes, so the delta may be dropped without a renderer applying it.
#[verifier::external_body]
pub(crate) fn clear_textures(textures: &mut egui::TexturesDelta) {
    textures.clear()
}

/// Relies on egui_winit::State::handle_platform_output: it applies clipboard,
/// cursor and IME requests to the window and does not touch the gathered
/// input events.
#[verifier::external_body]
pub(crate) fn state_handle_platform_output(
    s: &mut egui_winit::State,
    window: &egui_winit::winit::window::Window,
    output: egui::PlatformOutput,
)
    ensures
        pending_events(*final(s)) == pending_events(*old(s)),
{
    s.handle_platform_output(window, output)
}

} // verus!
