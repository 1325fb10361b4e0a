//! What the frame loop hands to the orchestrator and what the orchestrator
//! answers: window events, failures to acquire a frame, and the steps of a
//! frame.

use vstd::prelude::*;
use crate::device::BufferId;
use crate::input::KeyCode;
use crate::pass::RenderPass;

verus! {

/// Why the next image of the surface could not be acquired.
#[derive(Clone, Copy, Debug, PartialEq, Eq, Structural)]
pub enum SurfaceError {
    /// The image did not become available in time.
    Timeout,
    /// The surface has changed and has to be configured again.
    Outdated,
    /// The swapchain is lost and has to be created again.
    Lost,
    /// No memory is left for a new frame.
    OutOfMemory,
    /// Any other failure.
    Other,
}

/// What the frame loop does after a frame.
#[derive(Clone, Copy, Debug, PartialEq, Eq, Structural)]
pub enum FrameReaction {
    /// The frame was presented; go on.
    Continue,
    /// Configure the surface and its multisampled target again, and try
    /// again with the next frame.
    Reconfigure,
    /// Leave the frame loop.
    Exit,
    /// Report the failure, drop the frame and go on.
    LogAndContinue,
}

impl SurfaceError {
    /// The reaction each failure calls for.
    pub open spec fn reaction_spec(self) -> FrameReaction {
        match self {
            SurfaceError::Lost => FrameReaction::Reconfigure,
            SurfaceError::Outdated => FrameReaction::Reconfigure,
            SurfaceError::OutOfMemory => FrameReaction::Exit,
            SurfaceError::Timeout => FrameReaction::LogAndContinue,
            SurfaceError::Other => FrameReaction::LogAndContinue,
        }
    }

    /// The reaction this failure calls for: a lost or outdated surface is
    /// configured again, running out of memory ends the loop, a timeout or
    /// an unknown failure is reported and the frame dropped.
    pub fn reaction(self) -> (reaction: FrameReaction)
        ensures
            reaction == self.reaction_spec(),
    {
        match self {
            SurfaceError::Lost | SurfaceError::Outdated => FrameReaction::Reconfigure,
            SurfaceError::OutOfMemory => FrameReaction::Exit,
            SurfaceError::Timeout => FrameReaction::LogAndContinue,
            SurfaceError::Other => FrameReaction::LogAndContinue,
        }
    }
}

/// The reaction the outcome of a frame calls for.
pub open spec fn reaction_to(outcome: Result<(), SurfaceError>) -> FrameReaction {
    match outcome {
        Ok(_) => FrameReaction::Continue,
        Err(error) => error.reaction_spec(),
    }
}

/// A window event, as far as the orchestrator reacts to it.
#[derive(Clone, Copy, Debug, PartialEq, Eq, Structural)]
pub enum WindowEvent {
    /// The user asked to close the window.
    CloseRequested,
    /// A key went down or up. `None` stands for a key the sandbox does not
    /// listen to.
    KeyboardInput { key: Option<KeyCode>, pressed: bool },
    /// The window asks for its contents.
    RedrawRequested,
    /// The window has a new size in pixels.
    Resized { width: u32, height: u32 },
    /// Any other event.
    Other,
}

/// What the frame loop does after a window event.
#[derive(Clone, Copy, Debug, PartialEq, Eq, Structural)]
pub enum EventResponse {
    /// Nothing.
    Ignore,
    /// Leave the frame loop.
    Exit,
    /// Switch between windowed and borderless fullscreen.
    ToggleFullscreen,
    /// Ask the window for the next redraw, then render a frame.
    Redraw,
    /// Apply the surface configuration, which has changed, and build the
    /// multisampled target it describes.
    Reconfigure,
}

impl WindowEvent {
    /// The response each event calls for.
    pub open spec fn response(self) -> EventResponse {
        match self {
            WindowEvent::CloseRequested => EventResponse::Exit,
            WindowEvent::KeyboardInput { key, pressed } => if pressed && key == Some(
                KeyCode::Escape,
            ) {
                EventResponse::Exit
            } else if pressed && key == Some(KeyCode::KeyF) {
                EventResponse::ToggleFullscreen
            } else {
                EventResponse::Ignore
            },
            WindowEvent::RedrawRequested => EventResponse::Redraw,
            WindowEvent::Resized { .. } => EventResponse::Reconfigure,
            WindowEvent::Other => EventResponse::Ignore,
        }
    }
}

/// One step of rendering a frame into an acquired image of the surface.
#[derive(Debug, PartialEq, Eq)]
pub enum FrameStep {
    /// Create a view of the acquired image in `format`.
    CreateSurfaceView { format: wgpu::TextureFormat },
    /// Write the camera uniform block, computed from the camera as it is
    /// now, into `buffer`, `offset` bytes in.
    WriteCameraUniform { buffer: BufferId, offset: u64 },
    /// Encode the pass into a command buffer of its own and submit it to the
    /// queue.
    Submit { pass: RenderPass },
    /// Tell the window that the image is about to be presented.
    PrePresentNotify,
    /// Present the acquired image.
    Present,
}

} // verus!
