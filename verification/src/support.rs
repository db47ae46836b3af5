//! Values shared by the bindings: errors, log levels, alignments.
use vstd::prelude::*;

verus! {

/// What can go wrong in the graphics library. Every other error can be
/// turned into one of these.
#[derive(Copy, Clone, Eq, PartialEq, Ord, PartialOrd, Hash, Debug, Structural)]
pub enum LvError {
    InvalidReference,
    Uninitialized,
    LvOOMemory,
    AlreadyInUse,
}

/// What a call into the graphics library gives: the value, or the error.
pub type LvResult<T> = Result<T, LvError>;

impl LvError {
    /// The error in words.
    pub open spec fn text(self) -> Seq<char> {
        match self {
            LvError::InvalidReference => "Accessed invalid reference or ptr"@,
            LvError::Uninitialized => "LVGL uninitialized"@,
            LvError::LvOOMemory => "LVGL out of memory"@,
            LvError::AlreadyInUse => "Resource already in use"@,
        }
    }

    /// The error in words.
    pub fn description(&self) -> (r: &'static str)
        ensures
            r@ == self.text(),
    {
        match self {
            LvError::InvalidReference => "Accessed invalid reference or ptr",
            LvError::Uninitialized => "LVGL uninitialized",
            LvError::LvOOMemory => "LVGL out of memory",
            LvError::AlreadyInUse => "Resource already in use",
        }
    }

    /// The error as a line of text: its description.
    pub fn to_string(&self) -> (r: String)
        ensures
            r@ == self.text(),
    {
        self.description().to_owned()
    }
}

/// The levels at which the graphics library logs.
pub enum LogLevel {
    Trace,
    Info,
    Warn,
    Error,
    User,
    /// Nothing is logged.
    Off,
}

/// Where a widget is placed relative to its parent or to another widget.
pub enum Align {
    Center,
    TopLeft,
    TopMid,
    TopRight,
    BottomLeft,
    BottomMid,
    BottomRight,
    LeftMid,
    RightMid,
    OutTopLeft,
    OutTopMid,
    OutTopRight,
    OutBottomLeft,
    OutBottomMid,
    OutBottomRight,
    OutLeftTop,
    OutLeftMid,
    OutLeftBottom,
    OutRightTop,
    OutRightMid,
    OutRightBottom,
}

/// How the lines of a text are aligned.
pub enum TextAlign {
    Auto,
    Center,
    Left,
    Right,
}

/// Whether a change is animated.
pub enum AnimationState {
    ON,
    OFF,
}

} // verus!
