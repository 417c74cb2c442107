//! The frame loop controller: a finite-state dispatcher from platform events
//! to the next state and the command that the platform layer carries out.
use vstd::prelude::*;
use crate::surface::{clamp_dimension, ScreenDescription, SurfaceExtent};

verus! {

/// Where the frame loop stands.
#[derive(Clone, Copy, Debug, PartialEq, Eq, Structural)]
pub enum Phase {
    Idle,
    Redrawing,
    Resizing,
    Closing,
}

/// A window event, as the platform delivers it. For ordinary input the
/// input bridge has already judged whether the UI needs a repaint.
#[derive(Clone, Copy, Debug, PartialEq, Eq, Structural)]
pub enum LoopEvent {
    RedrawRequested,
    Resized { width: u32, height: u32 },
    CloseRequested,
    Input { repaint: bool },
}

/// What the platform layer is to do after an event.
#[derive(Clone, Copy, Debug, PartialEq, Eq, Structural)]
pub enum Command {
    /// Nothing to do.
    Nothing,
    /// Run one redraw cycle: build the UI frame, acquire a surface frame,
    /// submit the draw work for `screen`, and present.
    RunFrame { screen: ScreenDescription },
    /// Reconfigure the surface to `extent`; the renderer now draws for `screen`.
    Reconfigure { extent: SurfaceExtent, screen: ScreenDescription },
    /// Ask the window for a redraw-request event.
    RequestRedraw,
    /// Leave the event loop with this exit code.
    Exit { code: i32 },
}

/// State of the frame loop: its phase, the resize-suppression flag, the
/// configured surface extent and the current screen description.
#[derive(Clone, Copy, Debug, PartialEq, Eq, Structural)]
pub struct FrameLoop {
    pub phase: Phase,
    /// Set once the one spurious resize notification has been consumed, or
    /// from the start on platforms that do not send it.
    pub first_resize_happened: bool,
    pub surface: SurfaceExtent,
    pub screen: ScreenDescription,
}

impl FrameLoop {
    pub open spec fn wf(self) -> bool {
        self.surface.wf()
    }

    /// Settled: no redraw or resize cycle is in progress.
    pub open spec fn settled(self) -> bool {
        self.phase is Idle || self.phase is Closing
    }

    /// Events are taken one at a time, between cycles; a close request is
    /// taken at any time.
    pub open spec fn accepts(self, event: LoopEvent) -> bool {
        self.settled() || event is CloseRequested
    }

    /// The state right after window creation at `width` x `height`.
    pub open spec fn initial(width: u32, height: u32, spurious_first_resize: bool) -> FrameLoop {
        FrameLoop {
            phase: Phase::Idle,
            first_resize_happened: !spurious_first_resize,
            surface: SurfaceExtent::clamped_spec(width, height),
            screen: ScreenDescription { width_in_pixels: width, height_in_pixels: height },
        }
    }

    /// The next state and the command, for one event.
    pub open spec fn step_spec(self, event: LoopEvent) -> (FrameLoop, Command) {
        if self.phase is Closing {
            (self, Command::Nothing)
        } else {
            match event {
                LoopEvent::CloseRequested => (
                    FrameLoop { phase: Phase::Closing, ..self },
                    Command::Exit { code: 0 },
                ),
                LoopEvent::RedrawRequested => (
                    FrameLoop { phase: Phase::Redrawing, ..self },
                    Command::RunFrame { screen: self.screen },
                ),
                LoopEvent::Resized { width, height } => {
                    if !self.first_resize_happened {
                        (FrameLoop { first_resize_happened: true, ..self }, Command::Nothing)
                    } else {
                        let screen = ScreenDescription {
                            width_in_pixels: width,
                            height_in_pixels: height,
                        };
                        let extent = SurfaceExtent::clamped_spec(width, height);
                        (
                            FrameLoop { phase: Phase::Resizing, surface: extent, screen, ..self },
                            Command::Reconfigure { extent, screen },
                        )
                    }
                },
                LoopEvent::Input { repaint } => (
                    self,
                    if repaint {
                        Command::RequestRedraw
                    } else {
                        Command::Nothing
                    },
                ),
            }
        }
    }

    /// The state and the command once the platform layer has carried out a
    /// cycle's work (or, for a redraw, given up on it).
    pub open spec fn finish_spec(self) -> (FrameLoop, Command) {
        match self.phase {
            Phase::Redrawing => (FrameLoop { phase: Phase::Idle, ..self }, Command::Nothing),
            Phase::Resizing => (FrameLoop { phase: Phase::Idle, ..self }, Command::RequestRedraw),
            _ => (self, Command::Nothing),
        }
    }

    /// The state after an event and the end of the cycle it started.
    pub open spec fn settle_spec(self, event: LoopEvent) -> FrameLoop {
        self.step_spec(event).0.finish_spec().0
    }

    /// The state after a sequence of events, each handled to the end.
    pub open spec fn run_spec(self, events: Seq<LoopEvent>) -> FrameLoop
        decreases events.len(),
    {
        if events.len() == 0 {
            self
        } else {
            self.run_spec(events.drop_last()).settle_spec(events.last())
        }
    }

    /// The frame loop of a window just created at `width` x `height`. Where
    /// the platform sends one spurious resize right after creation, the first
    /// resize is to be dropped.
    pub fn new(width: u32, height: u32, spurious_first_resize: bool) -> (r: FrameLoop)
        ensures
            r == FrameLoop::initial(width, height, spurious_first_resize),
            r.wf(),
    {
        FrameLoop {
            phase: Phase::Idle,
            first_resize_happened: !spurious_first_resize,
            surface: SurfaceExtent::clamped(width, height),
            screen: ScreenDescription { width_in_pixels: width, height_in_pixels: height },
        }
    }

    /// Takes one event: updates the state and says what to do.
    pub fn handle(&mut self, event: LoopEvent) -> (c: Command)
        requires
            old(self).wf(),
            old(self).accepts(event),
        ensures
            final(self).wf(),
            (*final(self), c) == old(self).step_spec(event),
    {
        if self.phase == Phase::Closing {
            return Command::Nothing;
        }
        match event {
            LoopEvent::CloseRequested => {
                self.phase = Phase::Closing;
                Command::Exit { code: 0 }
            },
            LoopEvent::RedrawRequested => {
                self.phase = Phase::Redrawing;
                Command::RunFrame { screen: self.screen }
            },
            LoopEvent::Resized { width, height } => {
                if !self.first_resize_happened {
                    self.first_resize_happened = true;
                    Command::Nothing
                } else {
                    let screen = ScreenDescription { width_in_pixels: width, height_in_pixels: height };
                    let extent = SurfaceExtent::clamped(width, height);
                    self.phase = Phase::Resizing;
                    self.surface = extent;
                    self.screen = screen;
                    Command::Reconfigure { extent, screen }
                }
            },
            LoopEvent::Input { repaint } => {
                if repaint {
                    Command::RequestRedraw
                } else {
                    Command::Nothing
                }
            },
        }
    }

    /// Ends the cycle in progress: a redraw (presented, or abandoned because
    /// no surface frame could be acquired) or a resize, after which a redraw
    /// is requested.
    pub fn finish_cycle(&mut self) -> (c: Command)
        requires
            old(self).wf(),
        ensures
            final(self).wf(),
            final(self).settled(),
            (*final(self), c) == old(self).finish_spec(),
    {
        match self.phase {
            Phase::Redrawing => {
                self.phase = Phase::Idle;
                Command::Nothing
            },
            Phase::Resizing => {
                self.phase = Phase::Idle;
                Command::RequestRedraw
            },
            _ => Command::Nothing,
        }
    }

    /// Whether the loop has been asked to close.
    pub fn is_closing(&self) -> (r: bool)
        ensures
            r == (self.phase is Closing),
    {
        self.phase == Phase::Closing
    }
}

} // verus!
