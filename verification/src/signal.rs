//! What the driver asks of its host: the signals of the serial bus and of the digital lines.

use vstd::prelude::*;

verus! {

/// Level of a chip-select line while its panel is addressed.
pub const CHIP_SELECTED: bool = false;

/// Level of a chip-select line while its panel is left alone.
pub const CHIP_RELEASED: bool = true;

/// Level of a command/data line while an op code goes out.
pub const COMMAND_LEVEL: bool = true;

/// Level of a command/data line while parameters go out.
pub const DATA_LEVEL: bool = false;

/// One thing for the host to do on the wires.
#[derive(Clone, Debug, PartialEq, Eq)]
pub enum Signal {
    /// Drive the output line `line` high or low. A line cannot refuse.
    Drive { line: u8, high: bool },
    /// Send the op code `byte` alone over the bus and wait until it is out.
    Send { byte: u8 },
    /// Transfer the parameter `bytes` over the bus in full duplex and wait until they are out.
    /// What comes back is of no use.
    Transfer { bytes: Vec<u8> },
}

/// A [`Signal`] as a plain value.
pub enum SignalView {
    Drive { line: u8, high: bool },
    Send { byte: u8 },
    Transfer { bytes: Seq<u8> },
}

impl View for Signal {
    type V = SignalView;

    open spec fn view(&self) -> SignalView {
        match *self {
            Signal::Drive { line, high } => SignalView::Drive { line, high },
            Signal::Send { byte } => SignalView::Send { byte },
            Signal::Transfer { bytes } => SignalView::Transfer { bytes: bytes@ },
        }
    }
}

/// The signals of a script as plain values, in order.
pub open spec fn views(script: Seq<Signal>) -> Seq<SignalView> {
    Seq::new(script.len(), |i: int| script[i]@)
}

/// Address the panel behind the chip-select line.
pub open spec fn select(chip_select: u8) -> SignalView {
    SignalView::Drive { line: chip_select, high: CHIP_SELECTED }
}

/// Leave the panel behind the chip-select line alone.
pub open spec fn deselect(chip_select: u8) -> SignalView {
    SignalView::Drive { line: chip_select, high: CHIP_RELEASED }
}

/// Announce an op code on the command/data line.
pub open spec fn command_mode(command_line: u8) -> SignalView {
    SignalView::Drive { line: command_line, high: COMMAND_LEVEL }
}

/// Announce parameters on the command/data line.
pub open spec fn data_mode(command_line: u8) -> SignalView {
    SignalView::Drive { line: command_line, high: DATA_LEVEL }
}

/// The step of a transaction at which the bus can fail.
#[derive(Clone, Copy, Debug, PartialEq, Eq, Structural)]
pub enum Stage {
    /// The op code byte did not go out.
    OpCodeSend,
    /// The parameter bytes did not go out.
    ParameterTransfer,
}

/// The stage that a signal stands for, and `None` for a signal that cannot fail.
pub open spec fn stage_of(signal: SignalView) -> Option<Stage> {
    match signal {
        SignalView::Drive { .. } => None,
        SignalView::Send { .. } => Some(Stage::OpCodeSend),
        SignalView::Transfer { .. } => Some(Stage::ParameterTransfer),
    }
}

/// A failed bus transaction: the bus's own error `cause`, unchanged, with the stage at which it
/// came and the index `at` of the failed signal in the script that was running.
#[derive(Debug, PartialEq, Eq)]
pub struct BusError<E> {
    pub stage: Stage,
    pub at: usize,
    pub cause: E,
}

impl Signal {
    /// The stage that this signal stands for, and `None` if it cannot fail.
    pub fn stage(&self) -> (stage: Option<Stage>)
        ensures
            stage == stage_of(self@),
    {
        match self {
            Signal::Drive { .. } => None,
            Signal::Send { .. } => Some(Stage::OpCodeSend),
            Signal::Transfer { .. } => Some(Stage::ParameterTransfer),
        }
    }
}

} // verus!
