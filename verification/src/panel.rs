//! One panel of the display: its lines, its geometry and its transaction with the controller.

use vstd::prelude::*;
use crate::command::{Command, CommandView};
use crate::signal::{
    command_mode, data_mode, deselect, select, views, Signal, SignalView, CHIP_RELEASED,
    CHIP_SELECTED, COMMAND_LEVEL, DATA_LEVEL,
};

verus! {

/// Pixel columns of a wide panel.
pub const WIDE_WIDTH: u32 = 656;

/// Pixel columns of a slim panel.
pub const SLIM_WIDTH: u32 = 648;

/// Pixel rows of every panel.
pub const PANEL_HEIGHT: u32 = 492;

/// The four lines of a panel, each named by the number of its pin.
///
/// The busy and the chip-select line are the panel's own. The command/data and the reset line
/// are those of the half that the panel sits in.
#[derive(Clone, Copy, Debug, PartialEq, Eq, Structural)]
pub struct DisplayInternals {
    pub busy_pin: u8,
    pub chip_select_pin: u8,
    pub command_pin: u8,
    pub reset_pin: u8,
}

/// A panel, by its geometry.
#[derive(Clone, Copy, Debug, PartialEq, Eq, Structural)]
pub enum Display {
    WIDE(DisplayInternals),
    SLIM(DisplayInternals),
}

/// The signals of one transaction, in order: select the panel, announce the op code, send it,
/// announce the parameters, transfer them, release the panel.
pub open spec fn transaction(
    chip_select: u8,
    command_line: u8,
    op_code: u8,
    vals: Seq<u8>,
) -> Seq<SignalView> {
    seq![
        select(chip_select),
        command_mode(command_line),
        SignalView::Send { byte: op_code },
        data_mode(command_line),
        SignalView::Transfer { bytes: vals },
        deselect(chip_select),
    ]
}

impl Display {
    /// The lines of the panel.
    pub open spec fn internals(self) -> DisplayInternals {
        match self {
            Display::WIDE(internals) => internals,
            Display::SLIM(internals) => internals,
        }
    }

    /// The signals by which this panel takes `command`.
    pub open spec fn transaction(self, command: CommandView) -> Seq<SignalView> {
        transaction(
            self.internals().chip_select_pin,
            self.internals().command_pin,
            command.op_code,
            command.vals,
        )
    }

    /// The lines of the panel.
    pub fn lines(&self) -> (internals: DisplayInternals)
        ensures
            internals == self.internals(),
    {
        match self {
            Display::WIDE(internals) => *internals,
            Display::SLIM(internals) => *internals,
        }
    }

    /// Pixel columns of the panel.
    pub fn width(&self) -> (width: u32)
        ensures
            *self is WIDE ==> width == 656,
            *self is SLIM ==> width == 648,
    {
        match self {
            Display::WIDE(_) => WIDE_WIDTH,
            Display::SLIM(_) => SLIM_WIDTH,
        }
    }

    /// Pixel rows of a panel, whatever its geometry.
    pub fn height() -> (height: u32)
        ensures
            height == 492,
    {
        PANEL_HEIGHT
    }

    /// The script of the transaction by which this panel takes `command`.
    pub fn send_command<const CMD_LEN: usize>(&self, command: Command<CMD_LEN>) -> (script: Vec<
        Signal,
    >)
        ensures
            views(script@) == self.transaction(command@),
    {
        let internals = self.lines();
        let vals = command.vals();
        let mut bytes: Vec<u8> = Vec::new();
        let mut i: usize = 0;
        while i < CMD_LEN
            invariant
                i <= CMD_LEN,
                bytes@ == vals@.take(i as int),
            decreases CMD_LEN - i,
        {
            bytes.push(vals[i]);
            i = i + 1;
        }
        assert(bytes@ == command@.vals);
        let mut script: Vec<Signal> = Vec::new();
        script.push(Signal::Drive { line: internals.chip_select_pin, high: CHIP_SELECTED });
        script.push(Signal::Drive { line: internals.command_pin, high: COMMAND_LEVEL });
        script.push(Signal::Send { byte: command.op_code() });
        script.push(Signal::Drive { line: internals.command_pin, high: DATA_LEVEL });
        script.push(Signal::Transfer { bytes });
        script.push(Signal::Drive { line: internals.chip_select_pin, high: CHIP_RELEASED });
        assert(views(script@) == self.transaction(command@));
        script
    }
}

} // verus!
