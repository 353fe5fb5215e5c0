//! Decisions of the two presentation backends: the row layout of an offscreen
//! readback, and how a windowed surface reacts to window events and to the
//! outcome of acquiring a frame.
use vstd::prelude::*;

verus! {

/// Bytes of one RGBA8 pixel.
pub const BYTES_PER_PIXEL: u32 = 4;

/// Bytes of an image row, padded by `alignment - row % alignment`.
pub open spec fn padded_row(width: u32, alignment: u32) -> int {
    let row = BYTES_PER_PIXEL * width;
    row + alignment - row % (alignment as int)
}

/// How a rendered texture of `width` by `height` pixels is copied into a
/// buffer whose rows are padded to the copy alignment.
#[derive(Clone, Copy, Debug, PartialEq, Eq, Structural)]
pub struct ReadbackLayout {
    /// Bytes of one unpadded row.
    pub bytes_per_row: u32,
    /// Bytes of one padded row.
    pub padded_bytes_per_row: u32,
    /// Width in pixels of the padded image.
    pub padded_width: u32,
    /// Bytes of the whole buffer.
    pub buffer_size: u64,
}

/// The readback layout, or `None` where a padded row does not fit in `u32`.
pub fn readback_layout(width: u32, height: u32, alignment: u32) -> (r: Option<ReadbackLayout>)
    requires
        alignment > 0,
    ensures
        r is None <==> padded_row(width, alignment) > u32::MAX,
        r matches Some(l) ==> {
            &&& l.bytes_per_row == BYTES_PER_PIXEL * width
            &&& l.padded_bytes_per_row == padded_row(width, alignment)
            &&& l.padded_width == padded_row(width, alignment) / (BYTES_PER_PIXEL as int)
            &&& l.buffer_size == padded_row(width, alignment) * height
        },
{
    assert(BYTES_PER_PIXEL == 4);
    let row: u64 = 4 * width as u64;
    let padding: u64 = alignment as u64 - row % alignment as u64;
    assert(padding <= alignment);
    let padded: u64 = row + padding;
    if padded > u32::MAX as u64 {
        return None;
    }
    let padded_bytes_per_row = padded as u32;
    proof {
        assert(padded * height <= u32::MAX * u32::MAX) by (nonlinear_arith)
            requires
                padded <= u32::MAX,
                height <= u32::MAX,
        ;
    }
    let buffer_size: u64 = padded * height as u64;
    Some(
        ReadbackLayout {
            bytes_per_row: row as u32,
            padded_bytes_per_row,
            padded_width: padded_bytes_per_row / BYTES_PER_PIXEL,
            buffer_size,
        },
    )
}

/// A window event, as far as the surface cares.
#[derive(Clone, Copy, Debug, PartialEq, Eq, Structural)]
pub enum WindowSignal {
    /// A new batch of events; `init` when it is the first one.
    NewEvents { init: bool },
    Resumed,
    Suspended,
    Resized { width: u32, height: u32 },
    Other,
}

/// What the windowed backend does on an event.
#[derive(Clone, Copy, Debug, PartialEq, Eq, Structural)]
pub enum SurfaceAction {
    Nothing,
    /// Create a surface for the window, configure it and request a redraw.
    CreateSurface,
    /// Drop the surface.
    DropSurface,
    /// Take the new size, reconfigure the surface and/or resize the renderer
    /// as flagged, then request a redraw.
    Resize { configure_surface: bool, resize_renderer: bool },
}

/// The outcome of acquiring the next frame of the surface.
#[derive(Clone, Copy, Debug, PartialEq, Eq, Structural)]
pub enum FrameOutcome {
    Acquired,
    Lost,
    OutOfMemory,
    Failed,
}

/// What the windowed backend does with an acquired frame, or its absence.
#[derive(Clone, Copy, Debug, PartialEq, Eq, Structural)]
pub enum FrameAction {
    /// There is no surface: nothing is drawn.
    Skip,
    /// Render the scene into the frame and present it.
    RenderAndPresent,
    /// The surface was lost: configure it again.
    Reconfigure,
    /// Nothing can be drawn this frame.
    Drop,
}

/// The configured size of a window surface and whether it exists.
#[derive(Clone, Copy, Debug, PartialEq, Eq, Structural)]
pub struct SurfaceState {
    pub width: u32,
    pub height: u32,
    /// Set while the event loop delivers its first batch of events, during
    /// which resizes are ignored.
    pub initializing: bool,
    pub has_surface: bool,
}

/// The state after `signal`.
pub open spec fn next_state(s: SurfaceState, signal: WindowSignal) -> SurfaceState {
    match signal {
        WindowSignal::NewEvents { init } => SurfaceState { initializing: init, ..s },
        WindowSignal::Resumed => SurfaceState { has_surface: true, ..s },
        WindowSignal::Suspended => SurfaceState { has_surface: false, ..s },
        WindowSignal::Resized { width, height } => if s.initializing {
            s
        } else {
            SurfaceState { width, height, ..s }
        },
        WindowSignal::Other => s,
    }
}

/// The action taken on `signal` in state `s`.
pub open spec fn action_for(s: SurfaceState, signal: WindowSignal) -> SurfaceAction {
    match signal {
        WindowSignal::Resumed => SurfaceAction::CreateSurface,
        WindowSignal::Suspended => SurfaceAction::DropSurface,
        WindowSignal::Resized { width, height } => if s.initializing {
            SurfaceAction::Nothing
        } else {
            SurfaceAction::Resize {
                configure_surface: width != 0 && height != 0 && s.has_surface,
                resize_renderer: width != 0 && height != 0,
            }
        },
        _ => SurfaceAction::Nothing,
    }
}

/// The frame action for an acquisition `outcome`, with or without a surface.
pub open spec fn frame_action_for(has_surface: bool, outcome: FrameOutcome) -> FrameAction {
    if !has_surface {
        FrameAction::Skip
    } else {
        match outcome {
            FrameOutcome::Acquired => FrameAction::RenderAndPresent,
            FrameOutcome::Lost => FrameAction::Reconfigure,
            _ => FrameAction::Drop,
        }
    }
}

impl FrameAction {
    /// Whether the frame counts as drawn: true when it was presented or when
    /// there was no surface to draw to.
    pub fn drawn(&self) -> (r: bool)
        ensures
            r <==> (*self == FrameAction::Skip || *self == FrameAction::RenderAndPresent),
    {
        match self {
            FrameAction::Skip => true,
            FrameAction::RenderAndPresent => true,
            _ => false,
        }
    }
}

impl SurfaceState {
    /// A surface configured at the window's size, outside the first batch of
    /// events.
    pub fn new(width: u32, height: u32) -> (r: Self)
        ensures
            r == (SurfaceState { width, height, initializing: false, has_surface: true }),
    {
        SurfaceState { width, height, initializing: false, has_surface: true }
    }

    /// Takes in a window event and says what to do about it.
    pub fn handle_event(&mut self, signal: WindowSignal) -> (a: SurfaceAction)
        ensures
            *final(self) == next_state(*old(self), signal),
            a == action_for(*old(self), signal),
    {
        match signal {
            WindowSignal::NewEvents { init } => {
                self.initializing = init;
                SurfaceAction::Nothing
            },
            WindowSignal::Resumed => {
                self.has_surface = true;
                SurfaceAction::CreateSurface
            },
            WindowSignal::Suspended => {
                self.has_surface = false;
                SurfaceAction::DropSurface
            },
            WindowSignal::Resized { width, height } => {
                if self.initializing {
                    SurfaceAction::Nothing
                } else {
                    self.resize(width, height)
                }
            },
            WindowSignal::Other => SurfaceAction::Nothing,
        }
    }

    /// Records a new size. The surface and the renderer follow only when
    /// neither side is zero.
    pub fn resize(&mut self, width: u32, height: u32) -> (a: SurfaceAction)
        ensures
            *final(self) == (SurfaceState { width, height, ..*old(self) }),
            a == (SurfaceAction::Resize {
                configure_surface: width != 0 && height != 0 && old(self).has_surface,
                resize_renderer: width != 0 && height != 0,
            }),
    {
        self.width = width;
        self.height = height;
        let visible = width != 0 && height != 0;
        SurfaceAction::Resize {
            configure_surface: visible && self.has_surface,
            resize_renderer: visible,
        }
    }

    /// What to do with the outcome of acquiring a frame.
    pub fn draw(&self, outcome: FrameOutcome) -> (a: FrameAction)
        ensures
            a == frame_action_for(self.has_surface, outcome),
    {
        if !self.has_surface {
            return FrameAction::Skip;
        }
        match outcome {
            FrameOutcome::Acquired => FrameAction::RenderAndPresent,
            FrameOutcome::Lost => FrameAction::Reconfigure,
            _ => FrameAction::Drop,
        }
    }
}

} // verus!
