//! Per-frame event decisions of the window loop.
//!
//! The window loop polls the clock, the cursor, and the keyboard, and
//! acts on what this module decides: how large the cursor jump was, which
//! camera movements the held keys request, whether to flip the cursor
//! capture, and whether to shut the loop down.  The loop performs the
//! outside work — polling, drawing, presenting — and feeds the plain
//! values back in here.

use vstd::prelude::*;

use crate::camera::CameraMovement;
use crate::num::sat_i64;
use crate::num::sat_sub_i64;

verus! {

/// Cursor bookkeeping of the window loop.
///
/// The first cursor event after capture snaps the remembered position to
/// the current one, so a stale start position cannot produce one large
/// spurious jump.
pub struct CursorState {
    /// Whether no cursor event has been seen yet.
    pub is_first_capture: bool,
    /// Last seen cursor position, in cursor counts.
    pub cursor_pos: (i64, i64),
}

/// The offsets that a move to `(x, y)` produces from `s`: none on the
/// first event, else the horizontal change and the *upward* change — the
/// vertical axis of the screen grows downward, so the second component is
/// flipped.
pub open spec fn cursor_offsets_spec(s: CursorState, x: int, y: int) -> (int, int) {
    if s.is_first_capture {
        (0, 0)
    } else {
        (sat_i64(x - s.cursor_pos.0), sat_i64(s.cursor_pos.1 - y))
    }
}

impl CursorState {
    /// Cursor bookkeeping for a window of the given size, primed on the
    /// window's centre.
    pub fn new(size: (u32, u32)) -> (s: CursorState)
        ensures
            s.is_first_capture,
            s.cursor_pos.0 == size.0 / 2,
            s.cursor_pos.1 == size.1 / 2,
    {
        CursorState {
            is_first_capture: true,
            cursor_pos: ((size.0 / 2) as i64, (size.1 / 2) as i64),
        }
    }

    /// Takes one cursor event and returns the offsets to feed the camera.
    pub fn observe(&mut self, x: i64, y: i64) -> (offsets: (i64, i64))
        ensures
            (offsets.0 as int, offsets.1 as int) == cursor_offsets_spec(*old(self), x as int, y as int),
            !final(self).is_first_capture,
            final(self).cursor_pos == (x, y),
    {
        let mut x_offset: i64 = 0;
        let mut y_offset: i64 = 0;
        if !self.is_first_capture {
            x_offset = sat_sub_i64(x, self.cursor_pos.0);
            y_offset = sat_sub_i64(self.cursor_pos.1, y);
        }
        self.is_first_capture = false;
        self.cursor_pos = (x, y);
        (x_offset, y_offset)
    }
}

/// Elapsed-time bookkeeping of the window loop, in microseconds of a
/// monotonic clock.
pub struct FrameClock {
    /// Time between the two most recent frames.
    pub delta_time: u64,
    /// Time stamp of the most recent frame.
    pub last_frame: u64,
}

impl FrameClock {
    /// A clock that has not seen a frame yet.
    pub fn new() -> (c: FrameClock)
        ensures
            c.delta_time == 0,
            c.last_frame == 0,
    {
        FrameClock { delta_time: 0, last_frame: 0 }
    }

    /// Takes the current time stamp and returns the time since the
    /// previous frame; a clock that ran backwards counts as no time.
    pub fn tick(&mut self, now: u64) -> (delta: u64)
        ensures
            delta == if now >= old(self).last_frame {
                now - old(self).last_frame
            } else {
                0
            },
            final(self).delta_time == delta,
            final(self).last_frame == now,
    {
        let delta = if now >= self.last_frame {
            now - self.last_frame
        } else {
            0
        };
        self.delta_time = delta;
        self.last_frame = now;
        delta
    }
}

/// Snapshot of the keys the loop polls every frame.  Held keys are
/// polled, not taken from press events, because press and release events
/// cannot express "still held".
pub struct KeyboardState {
    /// The forward movement key is held.
    pub w: bool,
    /// The backward movement key is held.
    pub s: bool,
    /// The left strafe key is held.
    pub a: bool,
    /// The right strafe key is held.
    pub d: bool,
    /// The cursor capture toggle is held.
    pub space: bool,
    /// The shutdown key is held.
    pub escape: bool,
}

/// How the window holds the cursor.
#[derive(Debug, PartialEq, Eq, Structural, Clone, Copy)]
pub enum CaptureMode {
    /// The cursor is free.
    Normal,
    /// The cursor is hidden but free.
    Hidden,
    /// The cursor is captured by the window.
    Disabled,
}

/// What one frame's key snapshot asks of the loop.
pub struct FrameActions {
    /// Movement requests to feed the camera, one per held movement key.
    pub movements: Vec<CameraMovement>,
    /// Cursor capture to set for the next frame.
    pub capture: CaptureMode,
    /// Whether the loop should shut down.
    pub close: bool,
}

/// The movement requests of a key snapshot, in the fixed order the loop
/// applies them; a scene without a camera requests none.
pub open spec fn movements_spec(keys: KeyboardState, has_camera: bool) -> Seq<CameraMovement> {
    if !has_camera {
        Seq::empty()
    } else {
        (if keys.w {
            seq![CameraMovement::Forward]
        } else {
            Seq::empty()
        }) + (if keys.s {
            seq![CameraMovement::Bakcward]
        } else {
            Seq::empty()
        }) + (if keys.a {
            seq![CameraMovement::Left]
        } else {
            Seq::empty()
        }) + (if keys.d {
            seq![CameraMovement::Right]
        } else {
            Seq::empty()
        })
    }
}

/// The capture mode after the toggle key: captured and free trade places,
/// a hidden cursor stays as it is.
pub open spec fn toggled_capture(mode: CaptureMode) -> CaptureMode {
    match mode {
        CaptureMode::Disabled => CaptureMode::Normal,
        CaptureMode::Normal => CaptureMode::Disabled,
        CaptureMode::Hidden => CaptureMode::Hidden,
    }
}

/// Decides what one frame's key snapshot asks of the loop: the movement
/// requests in their fixed order, the capture toggle (only a scene with a
/// camera owns the cursor), and shutdown on the shutdown key.
pub fn handle_keyboard(keys: &KeyboardState, has_camera: bool, mode: CaptureMode) -> (r:
    FrameActions)
    ensures
        r.movements@ == movements_spec(*keys, has_camera),
        r.capture == if keys.space && has_camera {
            toggled_capture(mode)
        } else {
            mode
        },
        r.close == keys.escape,
{
    let mut movements: Vec<CameraMovement> = Vec::new();
    let mut capture = mode;
    if has_camera {
        if keys.w {
            movements.push(CameraMovement::Forward);
        }
        if keys.s {
            movements.push(CameraMovement::Bakcward);
        }
        if keys.a {
            movements.push(CameraMovement::Left);
        }
        if keys.d {
            movements.push(CameraMovement::Right);
        }
        if keys.space {
            capture = match mode {
                CaptureMode::Disabled => CaptureMode::Normal,
                CaptureMode::Normal => CaptureMode::Disabled,
                CaptureMode::Hidden => CaptureMode::Hidden,
            };
        }
    }
    proof {
        assert(movements@ =~= movements_spec(*keys, has_camera));
    }
    FrameActions { movements, capture, close: keys.escape }
}

} // verus!
