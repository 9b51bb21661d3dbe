//! Controller commands: an op code and a parameter vector of a length fixed per command kind.

use vstd::prelude::*;

verus! {

/// Panel setting.
pub const OP_PSR: u8 = 0x00;

/// Power setting.
pub const OP_PWR: u8 = 0x01;

/// Booster soft start.
pub const OP_BTST: u8 = 0x06;

/// Resolution setting.
pub const OP_TRES: u8 = 0x61;

/// Dual SPI mode.
pub const OP_DUSPI: u8 = 0x15;

/// VCOM and data interval setting.
pub const OP_CDI: u8 = 0x50;

/// Gate and source non-overlap period.
pub const OP_TCON: u8 = 0x60;

/// Power saving.
pub const OP_PWS: u8 = 0xE3;

/// Cascade setting.
pub const OP_CCSET: u8 = 0xE0;

/// Force temperature.
pub const OP_TSSET: u8 = 0xE5;

/// The number of parameter bytes that the controller documents for an op code, and `None` for
/// an op code outside the command set.
pub open spec fn documented_len(op_code: u8) -> Option<nat> {
    if op_code == OP_PSR {
        Some(1)
    } else if op_code == OP_PWR {
        Some(5)
    } else if op_code == OP_BTST {
        Some(4)
    } else if op_code == OP_TRES {
        Some(4)
    } else if op_code == OP_DUSPI {
        Some(1)
    } else if op_code == OP_CDI {
        Some(2)
    } else if op_code == OP_TCON {
        Some(1)
    } else if op_code == OP_PWS {
        Some(1)
    } else if op_code == OP_CCSET {
        Some(1)
    } else if op_code == OP_TSSET {
        Some(1)
    } else {
        None
    }
}

/// What a command is: its op code and its parameter bytes in order.
pub struct CommandView {
    pub op_code: u8,
    pub vals: Seq<u8>,
}

/// The template of a command kind: the op code with `len` zero parameter bytes.
pub open spec fn template(op_code: u8, len: nat) -> CommandView {
    CommandView { op_code, vals: Seq::new(len, |i: int| 0u8) }
}

/// A command for the display controller. `VALS` is the length of its parameter vector.
///
/// A command is made from a template of [`Commands`] and never changes afterwards:
/// [`Command::with_vals`] gives a new one.
#[derive(Clone, Copy, Debug)]
pub struct Command<const VALS: usize> {
    op_code: u8,
    vals: [u8; VALS],
}

impl<const VALS: usize> View for Command<VALS> {
    type V = CommandView;

    closed spec fn view(&self) -> CommandView {
        CommandView { op_code: self.op_code, vals: self.vals@ }
    }
}

impl<const VALS: usize> Command<VALS> {
    /// The parameter vector has the length that the controller documents for the op code.
    #[verifier::type_invariant]
    pub closed spec fn documented(self) -> bool {
        documented_len(self.op_code) == Some(VALS as nat)
    }

    /// A command has as many parameter bytes as its type says.
    pub proof fn lemma_vals_len(self)
        ensures
            self@.vals.len() == VALS,
    {
    }

    /// The op code, which is one of the controller's command set.
    pub fn op_code(&self) -> (op_code: u8)
        ensures
            op_code == self@.op_code,
            documented_len(op_code) == Some(VALS as nat),
    {
        proof {
            use_type_invariant(self);
        }
        self.op_code
    }

    /// The parameter bytes, in order.
    pub fn vals(&self) -> (vals: [u8; VALS])
        ensures
            vals@ == self@.vals,
    {
        self.vals
    }

    /// The command with the same op code and `vals` as its parameters. The command that it is
    /// called on stays as it was.
    pub fn with_vals(self, vals: [u8; VALS]) -> (cmd: Self)
        ensures
            cmd@.op_code == self@.op_code,
            cmd@.vals == vals@,
    {
        proof {
            use_type_invariant(self);
        }
        Command { op_code: self.op_code, vals }
    }
}

/// The controller's command set, one template per command kind.
pub struct Commands {}

impl Commands {
    /// Panel setting.
    pub fn psr() -> (cmd: Command<1>)
        ensures
            cmd@ == template(OP_PSR, 1),
    {
        let cmd = Command { op_code: OP_PSR, vals: [0] };
        assert(cmd@.vals =~= template(OP_PSR, 1).vals);
        cmd
    }

    /// Power setting.
    pub fn pwr() -> (cmd: Command<5>)
        ensures
            cmd@ == template(OP_PWR, 5),
    {
        let cmd = Command { op_code: OP_PWR, vals: [0, 0, 0, 0, 0] };
        assert(cmd@.vals =~= template(OP_PWR, 5).vals);
        cmd
    }

    /// Booster soft start.
    pub fn btst() -> (cmd: Command<4>)
        ensures
            cmd@ == template(OP_BTST, 4),
    {
        let cmd = Command { op_code: OP_BTST, vals: [0, 0, 0, 0] };
        assert(cmd@.vals =~= template(OP_BTST, 4).vals);
        cmd
    }

    /// Resolution setting.
    pub fn tres() -> (cmd: Command<4>)
        ensures
            cmd@ == template(OP_TRES, 4),
    {
        let cmd = Command { op_code: OP_TRES, vals: [0, 0, 0, 0] };
        assert(cmd@.vals =~= template(OP_TRES, 4).vals);
        cmd
    }

    /// Dual SPI mode.
    pub fn duspi() -> (cmd: Command<1>)
        ensures
            cmd@ == template(OP_DUSPI, 1),
    {
        let cmd = Command { op_code: OP_DUSPI, vals: [0] };
        assert(cmd@.vals =~= template(OP_DUSPI, 1).vals);
        cmd
    }

    /// VCOM and data interval setting.
    pub fn cdi() -> (cmd: Command<2>)
        ensures
            cmd@ == template(OP_CDI, 2),
    {
        let cmd = Command { op_code: OP_CDI, vals: [0, 0] };
        assert(cmd@.vals =~= template(OP_CDI, 2).vals);
        cmd
    }

    /// Gate and source non-overlap period.
    pub fn tcon() -> (cmd: Command<1>)
        ensures
            cmd@ == template(OP_TCON, 1),
    {
        let cmd = Command { op_code: OP_TCON, vals: [0] };
        assert(cmd@.vals =~= template(OP_TCON, 1).vals);
        cmd
    }

    /// Power saving.
    pub fn pws() -> (cmd: Command<1>)
        ensures
            cmd@ == template(OP_PWS, 1),
    {
        let cmd = Command { op_code: OP_PWS, vals: [0] };
        assert(cmd@.vals =~= template(OP_PWS, 1).vals);
        cmd
    }

    /// Cascade setting.
    pub fn ccset() -> (cmd: Command<1>)
        ensures
            cmd@ == template(OP_CCSET, 1),
    {
        let cmd = Command { op_code: OP_CCSET, vals: [0] };
        assert(cmd@.vals =~= template(OP_CCSET, 1).vals);
        cmd
    }

    /// Force temperature.
    pub fn tsset() -> (cmd: Command<1>)
        ensures
            cmd@ == template(OP_TSSET, 1),
    {
        let cmd = Command { op_code: OP_TSSET, vals: [0] };
        assert(cmd@.vals =~= template(OP_TSSET, 1).vals);
        cmd
    }
}

} // verus!
