//! The display's surface: when one may exist, its size, and when it is drawn.

use crate::hud::layout::{
    available_width, caption_height, fitting_width, words_height, LineCapacity,
};
use crate::hud::{
    elapsed_since, since, Caption, FRAME_INTERVAL, POLL_INTERVAL, SURFACE_HEIGHT, SURFACE_WIDTH,
};
use vstd::prelude::*;

verus! {

/// Widest body of the display.
pub const CONTAINER_WIDTH: i64 = 336;

/// Narrowest surface that is asked for.
pub const MINIMUM_WIDTH: u32 = 80;

/// How long a compositor may take to configure a still.
pub const SCREENSHOT_LIMIT: u64 = 5_000_000_000;

/// A compositor close is an instruction, not proof that an output vanished.
/// Only an actual output event can authorize another surface after closure.
#[derive(Clone, Copy, Debug, PartialEq, Eq, Structural)]
pub enum SurfaceLifecycle {
    WaitingForOutput,
    Open,
    Closed,
}

impl SurfaceLifecycle {
    /// Whether a surface may be created.
    pub fn can_create(self) -> (result: bool)
        ensures
            result == (self == SurfaceLifecycle::WaitingForOutput),
    {
        self == SurfaceLifecycle::WaitingForOutput
    }

    /// A surface was created.
    pub fn opened(&mut self)
        ensures
            *final(self) == SurfaceLifecycle::Open,
    {
        *self = SurfaceLifecycle::Open;
    }

    /// The compositor closed the surface.
    pub fn closed(&mut self)
        ensures
            *final(self) == SurfaceLifecycle::Closed,
    {
        *self = SurfaceLifecycle::Closed;
    }

    /// An output appeared, changed or went.
    pub fn output_changed(&mut self)
        ensures
            *final(self) == SurfaceLifecycle::WaitingForOutput,
    {
        *self = SurfaceLifecycle::WaitingForOutput;
    }
}

/// What the compositor tells of the display's own surface and of the outputs.
#[derive(Clone, Copy, Debug, PartialEq, Eq, Structural)]
pub enum SurfaceEvent {
    /// A layer surface was created.
    Created,
    /// The compositor closed the surface.
    Closed,
    /// The compositor configured a size; zero leaves a side to the display.
    Configured { width: u32, height: u32 },
    /// The compositor is ready for another frame.
    FrameDone,
    /// The output's scale changed, on a surface of the given protocol version.
    ScaleChanged { factor: i32, version: u32 },
    /// The output's transform changed.
    TransformChanged,
    /// The surface is on an output.
    Entered,
    /// An output appeared.
    NewOutput,
    /// An output changed; `current` where it is the surface's own.
    OutputUpdated { current: bool },
    /// An output went; `current` where it was the surface's own.
    OutputDestroyed { current: bool },
}

/// The surface between frames.
#[derive(Clone, Copy, Debug, PartialEq, Eq)]
pub struct Surface {
    pub lifecycle: SurfaceLifecycle,
    /// There is a layer surface.
    pub layer: bool,
    /// The layer surface is on a known output.
    pub on_output: bool,
    /// The compositor has configured the size last asked for.
    pub configured: bool,
    /// A frame is waiting for the compositor.
    pub frame_pending: bool,
    /// Something was visible in the last frame.
    pub visible: bool,
    /// The last frame still fits the surface.
    pub rendered: bool,
    pub width: u32,
    pub height: u32,
    pub requested_size: (u32, u32),
    pub buffer_scale: u32,
    /// A still is being made.
    pub screenshot: bool,
}

/// What a due frame comes to.
#[derive(Clone, Copy, Debug, PartialEq, Eq, Structural)]
pub enum Redraw {
    /// Nothing can be drawn yet.
    Wait,
    /// Ask the compositor for another size; no old-size frame is drawn.
    Resize { width: u32, height: u32 },
    /// The last frame still holds.
    Unchanged,
    /// Draw a buffer of this size in pixels and bytes.
    Draw { width: u32, height: u32, stride: u32 },
    /// The buffer's width, height or stride does not fit.
    WidthOverflow,
    HeightOverflow,
    StrideOverflow,
}

impl Surface {
    /// The size that the display needs.
    pub open spec fn desired(output_width: Option<i32>, words: nat) -> (nat, nat) {
        let fitting = fitting_width(output_width);
        (
            if fitting < MINIMUM_WIDTH {
                MINIMUM_WIDTH as nat
            } else {
                fitting as nat
            },
            SURFACE_HEIGHT as nat + words,
        )
    }

    /// Width of the display's body.
    pub open spec fn body_width(self, output_width: Option<i32>) -> int {
        let desired = Surface::desired(output_width, 0).0;
        let narrow = if self.width <= desired {
            self.width as int
        } else {
            desired as int
        };
        if narrow - 12 < CONTAINER_WIDTH {
            narrow - 12
        } else {
            CONTAINER_WIDTH as int
        }
    }

    /// What a due frame comes to, given the width of its output, the height of its
    /// words, whether anything is shown and whether its contents are those of the
    /// last frame.
    pub open spec fn due(
        self,
        output_width: Option<i32>,
        words: nat,
        shown: bool,
        same_frame: bool,
    ) -> Redraw {
        let desired = Surface::desired(output_width, words);
        if !self.configured || self.frame_pending || !self.layer {
            Redraw::Wait
        } else if (self.requested_size.0 as nat, self.requested_size.1 as nat) != desired {
            Redraw::Resize { width: desired.0 as u32, height: desired.1 as u32 }
        } else if self.rendered && same_frame && shown == self.visible && !self.screenshot {
            Redraw::Unchanged
        } else if self.width * self.buffer_scale > u32::MAX {
            Redraw::WidthOverflow
        } else if self.height * self.buffer_scale > u32::MAX {
            Redraw::HeightOverflow
        } else if self.width * self.buffer_scale * 4 > u32::MAX {
            Redraw::StrideOverflow
        } else {
            Redraw::Draw {
                width: (self.width * self.buffer_scale) as u32,
                height: (self.height * self.buffer_scale) as u32,
                stride: (self.width * self.buffer_scale * 4) as u32,
            }
        }
    }

    fn desired_width(output_width: Option<i32>) -> (result: u32)
        ensures
            result as nat == Surface::desired(output_width, 0).0,
    {
        let fitting: u32 = available_width(output_width);
        if fitting < MINIMUM_WIDTH {
            MINIMUM_WIDTH
        } else {
            fitting
        }
    }

    /// Width of the display's body.
    pub fn container_width(&self, output_width: Option<i32>) -> (result: i64)
        ensures
            result == self.body_width(output_width),
    {
        let desired: u32 = Surface::desired_width(output_width);
        let narrow: i64 = if self.width <= desired {
            self.width as i64
        } else {
            desired as i64
        };
        if narrow - 12 < CONTAINER_WIDTH {
            narrow - 12
        } else {
            CONTAINER_WIDTH
        }
    }

    /// Width that words may take.
    pub fn text_width(&self, output_width: Option<i32>) -> (result: i64)
        ensures
            result == if self.body_width(output_width) - 32 > 16 {
                self.body_width(output_width) - 32
            } else {
                16
            },
    {
        let inner: i64 = self.container_width(output_width) - 32;
        if inner > 16 {
            inner
        } else {
            16
        }
    }

    /// Decide what a due frame comes to.
    pub fn redraw(
        &self,
        output_width: Option<i32>,
        caption: &Caption,
        interaction: Option<&str>,
        capacity: LineCapacity,
        shown: bool,
        same_frame: bool,
    ) -> (result: Redraw)
        ensures
            result == self.due(
                output_width,
                words_height(
                    caption@,
                    match interaction {
                        Some(text) => Some(text@),
                        None => None,
                    },
                    capacity,
                ),
                shown,
                same_frame,
            ),
    {
        if !self.configured || self.frame_pending || !self.layer {
            return Redraw::Wait;
        }
        let width: u32 = Surface::desired_width(output_width);
        let height: u32 = SURFACE_HEIGHT + caption_height(caption, interaction, capacity);
        if self.requested_size.0 != width || self.requested_size.1 != height {
            return Redraw::Resize { width, height };
        }
        if self.rendered && same_frame && shown == self.visible && !self.screenshot {
            return Redraw::Unchanged;
        }
        let Some(pixel_width) = self.width.checked_mul(self.buffer_scale) else {
            return Redraw::WidthOverflow;
        };
        let Some(pixel_height) = self.height.checked_mul(self.buffer_scale) else {
            return Redraw::HeightOverflow;
        };
        let Some(stride) = pixel_width.checked_mul(4) else {
            return Redraw::StrideOverflow;
        };
        Redraw::Draw { width: pixel_width, height: pixel_height, stride }
    }

    /// A surface that does not exist yet.
    pub fn new(screenshot: bool) -> (result: Self)
        ensures
            result == (Surface {
                lifecycle: SurfaceLifecycle::WaitingForOutput,
                layer: false,
                on_output: false,
                configured: false,
                frame_pending: false,
                visible: false,
                rendered: false,
                width: SURFACE_WIDTH,
                height: SURFACE_HEIGHT,
                requested_size: (SURFACE_WIDTH, SURFACE_HEIGHT),
                buffer_scale: 1,
                screenshot,
            }),
    {
        Surface {
            lifecycle: SurfaceLifecycle::WaitingForOutput,
            layer: false,
            on_output: false,
            configured: false,
            frame_pending: false,
            visible: false,
            rendered: false,
            width: SURFACE_WIDTH,
            height: SURFACE_HEIGHT,
            requested_size: (SURFACE_WIDTH, SURFACE_HEIGHT),
            buffer_scale: 1,
            screenshot,
        }
    }

    /// The surface after an event.
    pub open spec fn after(self, event: SurfaceEvent) -> Surface {
        match event {
            SurfaceEvent::Created => Surface {
                lifecycle: SurfaceLifecycle::Open,
                layer: true,
                on_output: false,
                buffer_scale: 1,
                configured: false,
                visible: false,
                frame_pending: false,
                rendered: false,
                ..self
            },
            SurfaceEvent::Closed => Surface {
                lifecycle: SurfaceLifecycle::Closed,
                layer: false,
                configured: false,
                rendered: false,
                visible: false,
                ..self
            },
            SurfaceEvent::Configured { width, height } => Surface {
                width: if width > 0 {
                    width
                } else {
                    self.requested_size.0
                },
                height: if height > 0 {
                    height
                } else {
                    self.requested_size.1
                },
                configured: true,
                rendered: false,
                ..self
            },
            SurfaceEvent::FrameDone => Surface { frame_pending: false, ..self },
            SurfaceEvent::ScaleChanged { factor, version } => Surface {
                buffer_scale: if version >= 3 && factor > 1 {
                    factor as u32
                } else {
                    1
                },
                rendered: false,
                ..self
            },
            SurfaceEvent::TransformChanged => Surface { rendered: false, ..self },
            SurfaceEvent::Entered => Surface { on_output: true, rendered: false, ..self },
            SurfaceEvent::NewOutput => if self.layer {
                self
            } else {
                Surface { lifecycle: SurfaceLifecycle::WaitingForOutput, ..self }
            },
            SurfaceEvent::OutputUpdated { current } => if !current {
                self
            } else if self.layer {
                Surface { rendered: false, ..self }
            } else {
                Surface {
                    rendered: false,
                    lifecycle: SurfaceLifecycle::WaitingForOutput,
                    ..self
                }
            },
            SurfaceEvent::OutputDestroyed { current } => if current || !self.layer {
                Surface {
                    lifecycle: SurfaceLifecycle::WaitingForOutput,
                    layer: false,
                    on_output: false,
                    configured: false,
                    rendered: false,
                    visible: false,
                    ..self
                }
            } else {
                self
            },
        }
    }

    /// Take in an event.
    pub fn handle(&mut self, event: SurfaceEvent)
        ensures
            *final(self) == old(self).after(event),
    {
        let mut lifecycle: SurfaceLifecycle = self.lifecycle;
        let surface: Surface = *self;
        *self = match event {
            SurfaceEvent::Created => {
                lifecycle.opened();
                Surface {
                    lifecycle,
                    layer: true,
                    on_output: false,
                    buffer_scale: 1,
                    configured: false,
                    visible: false,
                    frame_pending: false,
                    rendered: false,
                    ..surface
                }
            },
            SurfaceEvent::Closed => {
                lifecycle.closed();
                Surface {
                    lifecycle,
                    layer: false,
                    configured: false,
                    rendered: false,
                    visible: false,
                    ..surface
                }
            },
            SurfaceEvent::Configured { width, height } => Surface {
                width: if width > 0 {
                    width
                } else {
                    surface.requested_size.0
                },
                height: if height > 0 {
                    height
                } else {
                    surface.requested_size.1
                },
                configured: true,
                rendered: false,
                ..surface
            },
            SurfaceEvent::FrameDone => Surface { frame_pending: false, ..surface },
            SurfaceEvent::ScaleChanged { factor, version } => Surface {
                buffer_scale: if version >= 3 && factor > 1 {
                    factor as u32
                } else {
                    1
                },
                rendered: false,
                ..surface
            },
            SurfaceEvent::TransformChanged => Surface { rendered: false, ..surface },
            SurfaceEvent::Entered => Surface { on_output: true, rendered: false, ..surface },
            SurfaceEvent::NewOutput => {
                if !surface.layer {
                    lifecycle.output_changed();
                }
                Surface { lifecycle, ..surface }
            },
            SurfaceEvent::OutputUpdated { current } => {
                if current && !surface.layer {
                    lifecycle.output_changed();
                }
                Surface { lifecycle, rendered: surface.rendered && !current, ..surface }
            },
            SurfaceEvent::OutputDestroyed { current } => {
                if current || !surface.layer {
                    lifecycle.output_changed();
                    Surface {
                        lifecycle,
                        layer: false,
                        on_output: false,
                        configured: false,
                        rendered: false,
                        visible: false,
                        ..surface
                    }
                } else {
                    surface
                }
            },
        };
    }

    /// Whether a surface is to be created now.
    pub fn wants_layer(&self, has_output: bool) -> (result: bool)
        ensures
            result == (!self.layer && self.lifecycle == SurfaceLifecycle::WaitingForOutput
                && has_output),
    {
        !self.layer && self.lifecycle.can_create() && has_output
    }

    /// Another size was asked for: the old one is no longer drawn.
    pub fn resize(&mut self, width: u32, height: u32)
        ensures
            *final(self) == (Surface {
                requested_size: (width, height),
                configured: false,
                ..*old(self)
            }),
    {
        self.requested_size = (width, height);
        self.configured = false;
    }

    /// A frame was committed. Except for a still, the next one waits until the
    /// compositor asks for it.
    pub fn committed(&mut self, shown: bool)
        ensures
            *final(self) == (Surface {
                frame_pending: old(self).frame_pending || !old(self).screenshot,
                visible: shown,
                rendered: true,
                ..*old(self)
            }),
    {
        if !self.screenshot {
            self.frame_pending = true;
        }
        self.visible = shown;
        self.rendered = true;
    }

    /// How long the loop may sleep: a frame where the display moves and no frame
    /// waits, else until the next poll.
    pub fn dispatch_interval(&self, animated: bool) -> (result: u64)
        ensures
            result == if !self.frame_pending && animated {
                FRAME_INTERVAL
            } else {
                POLL_INTERVAL
            },
    {
        if !self.frame_pending && animated {
            FRAME_INTERVAL
        } else {
            POLL_INTERVAL
        }
    }
}

/// Whether the display must be brought up to date although no status arrived.
pub fn refresh_due(now: u64, last_refresh: u64) -> (result: bool)
    ensures
        result == (since(now, last_refresh) >= POLL_INTERVAL),
{
    elapsed_since(now, last_refresh) >= POLL_INTERVAL
}

/// Whether the compositor has taken too long to configure a still.
pub fn screenshot_overdue(now: u64, started: u64) -> (result: bool)
    ensures
        result == (since(now, started) > SCREENSHOT_LIMIT),
{
    elapsed_since(now, started) > SCREENSHOT_LIMIT
}

/// Without an output event, a surface that the compositor closed stays closed.
pub proof fn closed_surface_waits_for_an_output(surface: Surface, event: SurfaceEvent)
    requires
        surface.lifecycle == SurfaceLifecycle::Closed,
        !surface.layer,
        event != SurfaceEvent::Created,
        event != SurfaceEvent::NewOutput,
        event != (SurfaceEvent::OutputUpdated { current: true }),
        !(event is OutputDestroyed),
    ensures
        surface.after(event).lifecycle == SurfaceLifecycle::Closed,
        !surface.after(event).layer,
{
}

/// While a layer surface exists no second one may be created, whatever happens.
pub proof fn one_surface_at_a_time(surface: Surface, event: SurfaceEvent)
    requires
        surface.layer ==> surface.lifecycle == SurfaceLifecycle::Open,
    ensures
        surface.after(event).layer ==> surface.after(event).lifecycle == SurfaceLifecycle::Open,
{
}

/// A frame is drawn only at the size that was asked for last.
pub proof fn no_frame_of_another_size(
    surface: Surface,
    output_width: Option<i32>,
    words: nat,
    shown: bool,
    same_frame: bool,
)
    requires
        surface.due(output_width, words, shown, same_frame) is Draw,
    ensures
        surface.configured,
        !surface.frame_pending,
        surface.requested_size.0 == Surface::desired(output_width, words).0,
        surface.requested_size.1 == Surface::desired(output_width, words).1,
{
}

} // verus!
