use vstd::prelude::*;

use crate::engine::{EguiSkia, FramePaint};
use crate::ext::{
    clone_context, context_viewport_id, input_events, new_platform_state, pending_events,
    state_handle_platform_output, state_on_window_event, state_take_egui_input,
};
use crate::response::EventResponse;
use crate::scale::ScaleFactor;

verus! {

/// The adapter: routes window events into the GUI context, drives one GUI
/// frame at a time, and keeps the frame's draw commands for the renderer.
/// It owns the GUI-engine handle and the platform-state handle, both bound
/// to the same shared GUI context and viewport.
pub struct EguiSkiaWinit {
    pub egui_skia: EguiSkia,
    pub egui_winit: egui_winit::State,
}

impl EguiSkiaWinit {
    /// Build the adapter for a window whose reported scale factor the host
    /// has read out as `scale`. The GUI engine handle is initialized with
    /// that same scale factor, the platform-state handle is bound to the
    /// engine's own context and viewport, and no events are gathered yet.
    pub fn new(window: &egui_winit::winit::window::Window, scale: ScaleFactor) -> (r:
        EguiSkiaWinit)
        ensures
            r.egui_skia.scale == scale,
            r.egui_skia.frame is None,
            r.egui_skia.frame_input@ == Seq::<int>::empty(),
            pending_events(r.egui_winit) == Seq::<int>::empty(),
    {
        let egui_skia = EguiSkia::new(scale);
        let shared_ctx = clone_context(&egui_skia.egui_ctx);
        let viewport_id = context_viewport_id(&egui_skia.egui_ctx);
        let egui_winit = new_platform_state(shared_ctx, viewport_id, window);
        EguiSkiaWinit { egui_skia, egui_winit }
    }

    /// Feed one window event to the platform-state handle and report the
    /// handle's own response, unaltered: whether the GUI wants exclusive use
    /// of the event, and whether it asks for a repaint. Every event gathered
    /// so far stays gathered, in its place; the GUI engine handle is not
    /// touched.
    pub fn on_event(
        &mut self,
        window: &egui_winit::winit::window::Window,
        event: &egui_winit::winit::event::WindowEvent,
    ) -> (r: EventResponse)
        ensures
            pending_events(old(self).egui_winit).is_prefix_of(
                pending_events(final(self).egui_winit),
            ),
            final(self).egui_skia == old(self).egui_skia,
    {
        let (consumed, repaint) = state_on_window_event(&mut self.egui_winit, window, event);
        EventResponse::from_flags(consumed, repaint)
    }

    /// Run one GUI frame: drain the input gathered since the previous frame,
    /// run the GUI on exactly those events, apply the frame's platform
    /// requests back to the window, and hand back the suggested delay until
    /// the next repaint. Afterwards no event is left pending, and the draw
    /// data of this frame is ready for `paint`.
    pub fn run<F: FnMut(&mut egui::Ui)>(
        &mut self,
        window: &egui_winit::winit::window::Window,
        run_ui: F,
    ) -> (r: Option<std::time::Duration>)
        ensures
            final(self).egui_skia.frame_input@ == pending_events(old(self).egui_winit),
            pending_events(final(self).egui_winit) == Seq::<int>::empty(),
            final(self).egui_skia.frame is Some,
            final(self).egui_skia.scale == old(self).egui_skia.scale,
            final(self).egui_skia.egui_ctx == old(self).egui_skia.egui_ctx,
            final(self).egui_skia.viewport_id == old(self).egui_skia.viewport_id,
    {
        let raw_input = state_take_egui_input(&mut self.egui_winit, window);
        let (repaint_delay, platform_output) = self.egui_skia.run(raw_input, run_ui);
        state_handle_platform_output(&mut self.egui_winit, window, platform_output);
        repaint_delay
    }

    /// Hand out the draw data of the most recent frame for the renderer to
    /// paint, exactly as `run` left it. Painting borrows the adapter
    /// immutably, so it cannot change GUI or platform state; before any
    /// frame ran there is nothing to paint.
    pub fn paint(&self) -> (r: &Option<FramePaint>)
        ensures
            *r == self.egui_skia.frame,
    {
        self.egui_skia.paint()
    }
}

} // verus!
