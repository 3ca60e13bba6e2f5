//! Glue between an immediate-mode GUI context, a windowing platform and a
//! 2D renderer: window events go in, one GUI frame runs, and the frame's
//! draw commands come back out for a canvas to paint.

pub mod adapter;
pub mod engine;
pub mod ext;
pub mod response;
pub mod scale;

pub use adapter::EguiSkiaWinit;
pub use engine::EguiSkia;
pub use engine::FramePaint;
pub use response::EventResponse;
pub use scale::ScaleFactor;
