//! The colours of the terminal.

use vstd::prelude::*;

verus! {

/// A colour of the terminal's palette.
#[derive(Clone, Copy, Debug, PartialEq, Eq, Structural)]
pub enum ThemeColor {
    Cyan,
    Red,
    Green,
    Yellow,
    Blue,
}

/// Says which colour each kind of output has.
pub struct ThemeManager {}

impl ThemeManager {
    pub fn new() -> (r: ThemeManager) {
        ThemeManager {  }
    }

    pub fn get_banner_color(&self) -> (r: ThemeColor)
        ensures
            r == ThemeColor::Cyan,
    {
        ThemeColor::Cyan
    }

    pub fn get_error_color(&self) -> (r: ThemeColor)
        ensures
            r == ThemeColor::Red,
    {
        ThemeColor::Red
    }

    pub fn get_prompt_color(&self) -> (r: ThemeColor)
        ensures
            r == ThemeColor::Green,
    {
        ThemeColor::Green
    }

    pub fn get_command_color(&self) -> (r: ThemeColor)
        ensures
            r == ThemeColor::Yellow,
    {
        ThemeColor::Yellow
    }

    pub fn get_status_color(&self) -> (r: ThemeColor)
        ensures
            r == ThemeColor::Blue,
    {
        ThemeColor::Blue
    }

    pub fn get_spinner_color(&self) -> (r: ThemeColor)
        ensures
            r == ThemeColor::Green,
    {
        ThemeColor::Green
    }
}

} // verus!
