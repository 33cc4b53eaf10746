//! Keyboard-accelerator message model: the kinds of native keyboard messages,
//! key codes, screen points and the result values a translation callback can
//! hand back to the host.

use vstd::prelude::*;

verus! {

/// Native message number of a key press.
pub const WM_KEYDOWN: u32 = 0x100;

/// Native message number of a key release.
pub const WM_KEYUP: u32 = 0x101;

/// Native message number of a character code.
pub const WM_CHAR: u32 = 0x102;

/// Native message number of a key press meant for the system.
pub const WM_SYSKEYDOWN: u32 = 0x104;

/// Native message number of a key release meant for the system.
pub const WM_SYSKEYUP: u32 = 0x105;

/// A payload that consumers can carry around but neither construct nor
/// inspect.
#[derive(Copy, Clone, Eq, PartialEq, Hash, Debug, Structural)]
pub struct Hidden<T>(pub T);

/// The kind of a keyboard message handed to an accelerator callback.
#[derive(Copy, Clone, Eq, PartialEq, Hash, Debug, Structural)]
pub enum AccelMsgKind {
    /// Key press.
    KeyDown,
    /// Key release.
    KeyUp,
    /// Character code (key-down only, transmitted on Windows only).
    Char,
    /// Key press that is intended for processing by system, but not necessarily.
    SysKeyDown,
    /// Key release that is intended for processing by system, but not necessarily.
    SysKeyUp,
    /// A message number that this layer does not know.
    Unknown(Hidden<u32>),
}

/// What [`AccelMsgKind::from_raw`] returns for a given native message number.
pub open spec fn accel_msg_kind_from_raw(v: u32) -> AccelMsgKind {
    if v == WM_KEYDOWN {
        AccelMsgKind::KeyDown
    } else if v == WM_KEYUP {
        AccelMsgKind::KeyUp
    } else if v == WM_CHAR {
        AccelMsgKind::Char
    } else if v == WM_SYSKEYDOWN {
        AccelMsgKind::SysKeyDown
    } else if v == WM_SYSKEYUP {
        AccelMsgKind::SysKeyUp
    } else {
        AccelMsgKind::Unknown(Hidden(v))
    }
}

impl AccelMsgKind {
    /// Decodes a native message number.
    pub fn from_raw(v: u32) -> (r: Self)
        ensures
            r == accel_msg_kind_from_raw(v),
    {
        match v {
            WM_KEYDOWN => AccelMsgKind::KeyDown,
            WM_KEYUP => AccelMsgKind::KeyUp,
            WM_CHAR => AccelMsgKind::Char,
            WM_SYSKEYDOWN => AccelMsgKind::SysKeyDown,
            WM_SYSKEYUP => AccelMsgKind::SysKeyUp,
            other => AccelMsgKind::Unknown(Hidden(other)),
        }
    }
}

/// The low word of a native message parameter.
pub open spec fn loword_spec(v: isize) -> u16 {
    (v & 0xffff) as u16
}

/// Extracts the low 16 bits of a native message parameter.
pub fn loword(v: isize) -> (r: u16)
    ensures
        r == loword_spec(v),
{
    proof {
        assert(0 <= (v & 0xffff) < 0x10000) by (bit_vector);
    }
    (v & 0xffff) as u16
}

/// A value that either refers to a character code or to a virtual key.
///
/// It is word-sized: an unsigned 16-bit number.
#[derive(Copy, Clone, Eq, PartialEq, Hash, Debug, Structural)]
pub struct AcceleratorKeyCode(u16);

impl AcceleratorKeyCode {
    /// The wrapped value, for use in contracts.
    pub closed spec fn spec_get(&self) -> u16 {
        self.0
    }

    /// Creates a key code.
    pub fn new(value: u16) -> (r: Self)
        ensures
            r.get() == value,
    {
        Self(value)
    }

    /// Returns the wrapped value.
    #[verifier::when_used_as_spec(spec_get)]
    pub fn get(&self) -> (r: u16)
        ensures
            r == self.spec_get(),
    {
        self.0
    }
}

/// A screen position in pixels.
#[derive(Copy, Clone, Eq, PartialEq, Hash, Debug, Structural)]
pub struct Point {
    pub x: u32,
    pub y: u32,
}

impl Point {
    /// Builds a point from the two signed coordinates of a native point,
    /// reinterpreting each as an unsigned number.
    pub fn from_raw(x: i32, y: i32) -> (r: Self)
        ensures
            r.x == x as u32,
            r.y == y as u32,
    {
        Self { x: #[verifier::truncate] (x as u32), y: #[verifier::truncate] (y as u32) }
    }
}

/// A window handle known to be non-null.
#[derive(Copy, Clone, Eq, PartialEq, Hash, Debug, Structural)]
pub struct Hwnd(usize);

impl Hwnd {
    /// The raw handle value, for use in contracts.
    pub closed spec fn spec_get(&self) -> usize {
        self.0
    }

    /// Wraps a raw window handle; a null handle has no wrapped form.
    pub fn new(raw: usize) -> (r: Option<Self>)
        ensures
            raw == 0 ==> r is None,
            raw != 0 ==> (r matches Some(h) && h.get() == raw),
    {
        if raw == 0 {
            None
        } else {
            Some(Hwnd(raw))
        }
    }

    /// Returns the raw handle value.
    #[verifier::when_used_as_spec(spec_get)]
    pub fn get(&self) -> (r: usize)
        ensures
            r == self.spec_get(),
    {
        self.0
    }
}

/// The plain fields of a native keyboard message.
#[derive(Copy, Clone, Eq, PartialEq, Hash, Debug, Structural)]
pub struct AccelMsg {
    pub hwnd: usize,
    pub message: u32,
    pub wparam: usize,
    pub lparam: isize,
    pub time: u32,
    pub point: Point,
}

impl AccelMsg {
    /// Builds a message from the fields of a native one.
    pub fn from_raw(hwnd: usize, message: u32, wparam: usize, lparam: isize, time: u32, point: Point) -> (r: Self)
        ensures
            r == (AccelMsg { hwnd, message, wparam, lparam, time, point }),
    {
        Self { hwnd, message, wparam, lparam, time, point }
    }

    /// The window the message is addressed to.
    ///
    /// The message must carry a window; a message without one is a host
    /// bug, so callers establish that before asking.
    pub fn window(&self) -> (r: Hwnd)
        requires
            self.hwnd != 0,
        ensures
            r.get() == self.hwnd,
    {
        Hwnd(self.hwnd)
    }

    /// The kind of the message.
    pub fn message(&self) -> (r: AccelMsgKind)
        ensures
            r == accel_msg_kind_from_raw(self.message),
    {
        AccelMsgKind::from_raw(self.message)
    }

    /// The key or character code carried in the low word of the first
    /// message parameter.
    pub fn key(&self) -> (r: AcceleratorKeyCode)
        ensures
            r.get() == loword_spec(self.wparam as isize),
    {
        AcceleratorKeyCode(loword(#[verifier::truncate] (self.wparam as isize)))
    }

    /// Milliseconds since system started.
    pub fn time(&self) -> (r: u32)
        ensures
            r == self.time,
    {
        self.time
    }

    /// The screen position the message was produced at.
    pub fn point(&self) -> (r: Point)
        ensures
            r == self.point,
    {
        self.point
    }
}

/// Describes what to do with the received keystroke.
#[derive(Copy, Clone, Eq, PartialEq, Hash, Debug, Structural)]
pub enum TranslateAccelResult {
    /// Not our window.
    NotOurWindow,
    /// Eats the keystroke.
    Eat,
    /// Passes the keystroke on to the window.
    PassOnToWindow,
    /// Processes the event raw (macOS only).
    ProcessEventRaw,
    /// Passes the keystroke to the window, even if it is a system key press
    /// that would otherwise be dropped (Windows only).
    ForcePassOnToWindow,
    /// Forces it to the main window's accel table (with the exception of `ESC`).
    ForceToMainWindowAccelTable,
    /// Forces it to the main window's accel table, even if in a text field.
    ForceToMainWindowAccelTableEvenIfTextField,
}

/// The integer the low-level surface expects for each translation result.
pub open spec fn translate_accel_result_to_raw(r: TranslateAccelResult) -> i32 {
    match r {
        TranslateAccelResult::NotOurWindow => 0i32,
        TranslateAccelResult::Eat => 1i32,
        TranslateAccelResult::PassOnToWindow => -1i32,
        TranslateAccelResult::ProcessEventRaw => -10i32,
        TranslateAccelResult::ForcePassOnToWindow => -20i32,
        TranslateAccelResult::ForceToMainWindowAccelTable => -666i32,
        TranslateAccelResult::ForceToMainWindowAccelTableEvenIfTextField => -667i32,
    }
}

impl TranslateAccelResult {
    /// Converts this value to an integer as expected by the low-level API.
    pub fn to_raw(self) -> (r: i32)
        ensures
            r == translate_accel_result_to_raw(self),
    {
        match self {
            TranslateAccelResult::NotOurWindow => 0,
            TranslateAccelResult::Eat => 1,
            TranslateAccelResult::PassOnToWindow => -1,
            TranslateAccelResult::ProcessEventRaw => -10,
            TranslateAccelResult::ForcePassOnToWindow => -20,
            TranslateAccelResult::ForceToMainWindowAccelTable => -666,
            TranslateAccelResult::ForceToMainWindowAccelTableEvenIfTextField => -667,
        }
    }
}

} // verus!
