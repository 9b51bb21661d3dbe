//! One half of the display: two panels side by side on a shared reset and command/data line.

use vstd::prelude::*;
use crate::panel::{Display, DisplayInternals};

verus! {

/// The upper or the lower half of the display. The left panel is the wide one.
#[derive(Clone, Copy, Debug, PartialEq, Eq)]
pub struct DisplayHalf {
    reset_pin: u8,
    command_pin: u8,
    left_display: Display,
    right_display: Display,
}

/// A [`DisplayHalf`] as a plain value.
pub struct DisplayHalfView {
    pub reset_pin: u8,
    pub command_pin: u8,
    pub left_display: Display,
    pub right_display: Display,
}

impl DisplayHalfView {
    /// The half on the given reset and command/data line, with the busy and chip-select lines
    /// of its wide left and of its slim right panel.
    pub open spec fn on_lines(
        reset_pin: u8,
        command_pin: u8,
        left_busy_pin: u8,
        left_chip_select_pin: u8,
        right_busy_pin: u8,
        right_chip_select_pin: u8,
    ) -> DisplayHalfView {
        DisplayHalfView {
            reset_pin,
            command_pin,
            left_display: Display::WIDE(
                DisplayInternals {
                    busy_pin: left_busy_pin,
                    chip_select_pin: left_chip_select_pin,
                    command_pin,
                    reset_pin,
                },
            ),
            right_display: Display::SLIM(
                DisplayInternals {
                    busy_pin: right_busy_pin,
                    chip_select_pin: right_chip_select_pin,
                    command_pin,
                    reset_pin,
                },
            ),
        }
    }

    /// The left panel is wide, the right one slim, and both hang on the reset line and the
    /// command/data line of the half.
    pub open spec fn wf(self) -> bool {
        &&& self.left_display is WIDE
        &&& self.right_display is SLIM
        &&& self.left_display.internals().reset_pin == self.reset_pin
        &&& self.left_display.internals().command_pin == self.command_pin
        &&& self.right_display.internals().reset_pin == self.reset_pin
        &&& self.right_display.internals().command_pin == self.command_pin
    }

    /// The six lines of the half: reset, command/data, then busy and chip-select of the left
    /// and of the right panel.
    pub open spec fn lines(self) -> Seq<u8> {
        seq![
            self.reset_pin,
            self.command_pin,
            self.left_display.internals().busy_pin,
            self.left_display.internals().chip_select_pin,
            self.right_display.internals().busy_pin,
            self.right_display.internals().chip_select_pin,
        ]
    }
}

impl View for DisplayHalf {
    type V = DisplayHalfView;

    closed spec fn view(&self) -> DisplayHalfView {
        DisplayHalfView {
            reset_pin: self.reset_pin,
            command_pin: self.command_pin,
            left_display: self.left_display,
            right_display: self.right_display,
        }
    }
}

impl DisplayHalf {
    #[verifier::type_invariant]
    closed spec fn inv(self) -> bool {
        self@.wf()
    }

    /// The half on the given reset and command/data line, with the busy and chip-select lines
    /// of its left and of its right panel.
    pub fn new(
        reset_pin: u8,
        command_pin: u8,
        left_busy_pin: u8,
        left_chip_select_pin: u8,
        right_busy_pin: u8,
        right_chip_select_pin: u8,
    ) -> (half: Self)
        ensures
            half@.wf(),
            half@ == DisplayHalfView::on_lines(
                reset_pin,
                command_pin,
                left_busy_pin,
                left_chip_select_pin,
                right_busy_pin,
                right_chip_select_pin,
            ),
    {
        DisplayHalf {
            reset_pin,
            command_pin,
            left_display: Display::WIDE(
                DisplayInternals {
                    busy_pin: left_busy_pin,
                    chip_select_pin: left_chip_select_pin,
                    command_pin,
                    reset_pin,
                },
            ),
            right_display: Display::SLIM(
                DisplayInternals {
                    busy_pin: right_busy_pin,
                    chip_select_pin: right_chip_select_pin,
                    command_pin,
                    reset_pin,
                },
            ),
        }
    }

    /// The reset line, shared by both panels.
    pub fn reset_pin(&self) -> (pin: u8)
        ensures
            self@.wf(),
            pin == self@.reset_pin,
    {
        proof {
            use_type_invariant(self);
        }
        self.reset_pin
    }

    /// The command/data line, shared by both panels.
    pub fn command_pin(&self) -> (pin: u8)
        ensures
            self@.wf(),
            pin == self@.command_pin,
    {
        proof {
            use_type_invariant(self);
        }
        self.command_pin
    }

    /// The left panel.
    pub fn left_display(&self) -> (panel: Display)
        ensures
            self@.wf(),
            panel == self@.left_display,
    {
        proof {
            use_type_invariant(self);
        }
        self.left_display
    }

    /// The right panel.
    pub fn right_display(&self) -> (panel: Display)
        ensures
            self@.wf(),
            panel == self@.right_display,
    {
        proof {
            use_type_invariant(self);
        }
        self.right_display
    }
}

} // verus!
