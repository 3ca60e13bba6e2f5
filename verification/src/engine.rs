use vstd::prelude::*;

use crate::ext::{clear_textures, context_viewport_id, ctx_run_ui, input_events, new_egui_context};
use crate::scale::ScaleFactor;

verus! {

/// The draw data one frame execution left behind for the renderer: the
/// shapes to paint and the texture changes to apply around painting them.
pub struct FramePaint {
    pub shapes: Vec<egui::epaint::ClippedShape>,
    pub textures: egui::TexturesDelta,
}

/// The GUI-engine handle: the shared immediate-mode context together with
/// the window's scale factor, plus the draw data of the most recent frame.
pub struct EguiSkia {
    /// The immediate-mode GUI context; shared with the platform-state handle.
    pub egui_ctx: egui::Context,
    /// The viewport this handle drives.
    pub viewport_id: egui::ViewportId,
    /// The scale factor the handle was initialized with.
    pub scale: ScaleFactor,
    /// The draw data of the most recent frame, or `None` before any frame ran.
    pub frame: Option<FramePaint>,
    /// The input events the most recent frame ran on, in order; empty before
    /// any frame ran.
    pub frame_input: Ghost<Seq<int>>,
}

impl EguiSkia {
    /// Build the GUI engine handle around a fresh context, initialized with
    /// the given scale factor. No frame has run yet, so there is nothing to
    /// paint.
    pub fn new(scale: ScaleFactor) -> (r: EguiSkia)
        ensures
            r.scale == scale,
            r.frame is None,
            r.frame_input@ == Seq::<int>::empty(),
    {
        let egui_ctx = new_egui_context();
        let viewport_id = context_viewport_id(&egui_ctx);
        EguiSkia {
            egui_ctx,
            viewport_id,
            scale,
            frame: None,
            frame_input: Ghost(Seq::empty()),
        }
    }

    /// Run one GUI frame on the given raw input, keep its draw data for
    /// `paint`, and hand back the suggested repaint delay together with the
    /// platform requests the frame produced. The frame runs on exactly the
    /// events the raw input carries. A previous frame that no renderer took
    /// is discarded, its unapplied texture changes deliberately dropped.
    pub fn run<F: FnMut(&mut egui::Ui)>(&mut self, raw_input: egui::RawInput, run_ui: F) -> (r: (
        Option<std::time::Duration>,
        egui::PlatformOutput,
    ))
        ensures
            final(self).frame_input@ == input_events(raw_input),
            final(self).frame is Some,
            final(self).scale == old(self).scale,
            final(self).egui_ctx == old(self).egui_ctx,
            final(self).viewport_id == old(self).viewport_id,
    {
        match &mut self.frame {
            Some(previous) => clear_textures(&mut previous.textures),
            None => {},
        }
        self.frame_input = Ghost(input_events(raw_input));
        let (platform_output, shapes, textures, repaint_delay) = ctx_run_ui(
            &self.egui_ctx,
            &self.viewport_id,
            raw_input,
            run_ui,
        );
        self.frame = Some(FramePaint { shapes, textures });
        (repaint_delay, platform_output)
    }

    /// Hand out the draw data of the most recent frame, exactly as that frame
    /// produced it. Painting borrows the handle immutably, so it cannot
    /// change any GUI state; before any frame ran there is nothing to paint.
    pub fn paint(&self) -> (r: &Option<FramePaint>)
        ensures
            *r == self.frame,
    {
        &self.frame
    }

    /// Move the most recent frame's draw data out to the renderer, which
    /// then owns its texture changes. Afterwards nothing is left to paint;
    /// no other state changes.
    pub fn take_frame(&mut self) -> (r: Option<FramePaint>)
        ensures
            r == old(self).frame,
            final(self).frame is None,
            final(self).scale == old(self).scale,
            final(self).egui_ctx == old(self).egui_ctx,
            final(self).viewport_id == old(self).viewport_id,
            final(self).frame_input == old(self).frame_input,
    {
        let mut taken: Option<FramePaint> = None;
        core::mem::swap(&mut taken, &mut self.frame);
        taken
    }
}

} // verus!
