//! Classification of intercepted events into the categories the pipeline
//! recognises.

use vstd::prelude::*;

verus! {

/// Hook-category code the operating system uses for mouse events.
pub const MOUSE_CATEGORY_CODE: usize = 7;

/// Hook-category code the operating system uses for keyboard events.
pub const KEYBOARD_CATEGORY_CODE: usize = 2;

/// The category of one intercepted event. Only `Mouse` and `Keyboard`
/// events are logged; everything else is forwarded untouched.
#[derive(Clone, Copy, Debug, PartialEq, Eq, Structural)]
pub enum HookType {
    Mouse,
    Keyboard,
    Other,
}

impl HookType {
    /// The category that a raw event-category code denotes.
    pub open spec fn spec_from_code(code: usize) -> HookType {
        if code == MOUSE_CATEGORY_CODE {
            HookType::Mouse
        } else if code == KEYBOARD_CATEGORY_CODE {
            HookType::Keyboard
        } else {
            HookType::Other
        }
    }

    /// Classifies the raw category code carried by one hook invocation.
    pub fn from_wparam(code: usize) -> (t: HookType)
        ensures
            t == HookType::spec_from_code(code),
    {
        if code == MOUSE_CATEGORY_CODE {
            HookType::Mouse
        } else if code == KEYBOARD_CATEGORY_CODE {
            HookType::Keyboard
        } else {
            HookType::Other
        }
    }

    /// Whether events of this category produce a log record.
    pub open spec fn spec_should_log(self) -> bool {
        self is Mouse || self is Keyboard
    }

    /// Only `Mouse` and `Keyboard` events are logged.
    pub fn should_log(&self) -> (b: bool)
        ensures
            b == self.spec_should_log(),
    {
        match self {
            HookType::Mouse => true,
            HookType::Keyboard => true,
            HookType::Other => false,
        }
    }
}

} // verus!
