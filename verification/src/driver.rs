//! The whole display: four panels on one bus, addressed in a fixed order.

use vstd::prelude::*;
use crate::command::{
    Command, CommandView, Commands, OP_CCSET, OP_CDI, OP_DUSPI, OP_PSR, OP_PWS, OP_TCON, OP_TRES,
    OP_TSSET,
};
use crate::half::{DisplayHalf, DisplayHalfView};
use crate::panel::Display;
use crate::signal::{views, Signal, SignalView};

verus! {

/// The display as one: its upper and its lower half.
#[derive(Clone, Copy, Debug, PartialEq, Eq)]
pub struct Epd12in48 {
    top_half: DisplayHalf,
    bottom_half: DisplayHalf,
}

/// An [`Epd12in48`] as a plain value.
pub struct Epd12in48View {
    pub top_half: DisplayHalfView,
    pub bottom_half: DisplayHalfView,
}

/// No line serves two purposes: the twelve lines of the two halves differ from each other.
pub open spec fn exclusive(top_half: DisplayHalfView, bottom_half: DisplayHalfView) -> bool {
    (top_half.lines() + bottom_half.lines()).no_duplicates()
}

/// The op code of step `step` of the initialisation, the steps counted from 0.
pub open spec fn init_op(step: int) -> u8 {
    if step == 0 {
        OP_PSR
    } else if step == 1 {
        OP_TRES
    } else if step == 2 {
        OP_DUSPI
    } else if step == 3 {
        OP_CDI
    } else if step == 4 {
        OP_TCON
    } else if step == 5 {
        OP_PWS
    } else if step == 6 {
        OP_CCSET
    } else {
        OP_TSSET
    }
}

/// The parameters that step `step` of the initialisation gives the panel `panel`, the panels
/// counted from 0 in the order of a broadcast. Only the resolution differs between the left
/// panels (0 and 1) and the right ones (2 and 3).
pub open spec fn init_vals(step: int, panel: int) -> Seq<u8> {
    if step == 0 {
        seq![0x1Fu8]
    } else if step == 1 {
        if panel == 0 || panel == 1 {
            seq![0x02u8, 0x88u8, 0x01u8, 0xECu8]
        } else {
            seq![0x02u8, 0x90u8, 0x01u8, 0xECu8]
        }
    } else if step == 2 {
        seq![0x20u8]
    } else if step == 3 {
        seq![0x21u8, 0x07u8]
    } else if step == 4 {
        seq![0x22u8]
    } else if step == 5 {
        seq![0x00u8]
    } else if step == 6 {
        seq![0x03u8]
    } else {
        seq![0xE5u8]
    }
}

impl Epd12in48View {
    /// Both halves are well formed, and no line serves two purposes.
    pub open spec fn wf(self) -> bool {
        &&& self.top_half.wf()
        &&& self.bottom_half.wf()
        &&& exclusive(self.top_half, self.bottom_half)
    }

    /// The four panels in the order in which a broadcast addresses them: top left, bottom
    /// left, top right, bottom right.
    pub open spec fn panels(self) -> Seq<Display> {
        seq![
            self.top_half.left_display,
            self.bottom_half.left_display,
            self.top_half.right_display,
            self.bottom_half.right_display,
        ]
    }

    /// The signals of a broadcast: the command of the given op code goes to the four panels in
    /// their order, to each with its own parameters, one whole transaction after the other.
    pub open spec fn broadcast(
        self,
        op_code: u8,
        top_left: Seq<u8>,
        bottom_left: Seq<u8>,
        top_right: Seq<u8>,
        bottom_right: Seq<u8>,
    ) -> Seq<SignalView> {
        self.panels()[0].transaction(CommandView { op_code, vals: top_left })
            + self.panels()[1].transaction(CommandView { op_code, vals: bottom_left })
            + self.panels()[2].transaction(CommandView { op_code, vals: top_right })
            + self.panels()[3].transaction(CommandView { op_code, vals: bottom_right })
    }

    /// The signals of step `step` of the initialisation.
    pub open spec fn init_step(self, step: int) -> Seq<SignalView> {
        self.broadcast(
            init_op(step),
            init_vals(step, 0),
            init_vals(step, 1),
            init_vals(step, 2),
            init_vals(step, 3),
        )
    }

    /// The signals of the first `steps` steps of the initialisation, step after step.
    pub open spec fn init_steps(self, steps: int) -> Seq<SignalView>
        decreases steps,
    {
        if steps <= 0 {
            Seq::empty()
        } else {
            self.init_steps(steps - 1) + self.init_step(steps - 1)
        }
    }

    /// The signals of the initialisation: its eight steps, one after the other.
    pub open spec fn init_script(self) -> Seq<SignalView> {
        self.init_steps(8)
    }
}

impl View for Epd12in48 {
    type V = Epd12in48View;

    closed spec fn view(&self) -> Epd12in48View {
        Epd12in48View { top_half: self.top_half@, bottom_half: self.bottom_half@ }
    }
}

/// The plain values of a concatenation are those of its parts.
proof fn lemma_views_add(a: Seq<Signal>, b: Seq<Signal>)
    ensures
        views(a + b) == views(a) + views(b),
{
    assert(views(a + b) =~= views(a) + views(b));
}

/// Whether no two of the given lines are the same.
fn all_distinct(lines: &[u8; 12]) -> (distinct: bool)
    ensures
        distinct == lines@.no_duplicates(),
{
    let mut i: usize = 0;
    while i < 12
        invariant
            i <= 12,
            forall|a: int, b: int| 0 <= a < i && 0 <= b < 12 && a != b ==> lines@[a] != lines@[b],
        decreases 12 - i,
    {
        let mut j: usize = 0;
        while j < 12
            invariant
                i < 12,
                j <= 12,
                forall|b: int| 0 <= b < j && i != b ==> lines@[i as int] != lines@[b],
            decreases 12 - j,
        {
            if i != j && lines[i] == lines[j] {
                return false;
            }
            j = j + 1;
        }
        i = i + 1;
    }
    true
}

impl Epd12in48 {
    #[verifier::type_invariant]
    closed spec fn inv(self) -> bool {
        self@.wf()
    }

    /// The display of the two halves, where no line serves two purposes; `None` where one does.
    pub fn new(top_half: DisplayHalf, bottom_half: DisplayHalf) -> (display: Option<Self>)
        ensures
            display is Some <==> exclusive(top_half@, bottom_half@),
            display matches Some(epd) ==> epd@.wf() && epd@.top_half == top_half@
                && epd@.bottom_half == bottom_half@,
    {
        let top_left = top_half.left_display().lines();
        let top_right = top_half.right_display().lines();
        let bottom_left = bottom_half.left_display().lines();
        let bottom_right = bottom_half.right_display().lines();
        let lines: [u8; 12] = [
            top_half.reset_pin(),
            top_half.command_pin(),
            top_left.busy_pin,
            top_left.chip_select_pin,
            top_right.busy_pin,
            top_right.chip_select_pin,
            bottom_half.reset_pin(),
            bottom_half.command_pin(),
            bottom_left.busy_pin,
            bottom_left.chip_select_pin,
            bottom_right.busy_pin,
            bottom_right.chip_select_pin,
        ];
        assert(lines@ =~= top_half@.lines() + bottom_half@.lines());
        if all_distinct(&lines) {
            Some(Epd12in48 { top_half, bottom_half })
        } else {
            None
        }
    }

    /// The upper half.
    pub fn top_half(&self) -> (half: DisplayHalf)
        ensures
            self@.wf(),
            half@ == self@.top_half,
    {
        proof {
            use_type_invariant(self);
        }
        self.top_half
    }

    /// The lower half.
    pub fn bottom_half(&self) -> (half: DisplayHalf)
        ensures
            self@.wf(),
            half@ == self@.bottom_half,
    {
        proof {
            use_type_invariant(self);
        }
        self.bottom_half
    }

    /// The script of a broadcast: `cmd` goes to the four panels in their order, top left,
    /// bottom left, top right, bottom right, to each with its own parameters out of `vals`.
    pub fn send_command_to_all<const LEN: usize>(
        &self,
        cmd: Command<LEN>,
        vals: [[u8; LEN]; 4],
    ) -> (script: Vec<Signal>)
        ensures
            views(script@) == self@.broadcast(
                cmd@.op_code,
                vals@[0]@,
                vals@[1]@,
                vals@[2]@,
                vals@[3]@,
            ),
    {
        let mut script = self.top_half.left_display().send_command(cmd.with_vals(vals[0]));
        let mut bottom_left = self.bottom_half.left_display().send_command(cmd.with_vals(vals[1]));
        let mut top_right = self.top_half.right_display().send_command(cmd.with_vals(vals[2]));
        let mut bottom_right = self.bottom_half.right_display().send_command(
            cmd.with_vals(vals[3]),
        );
        proof {
            lemma_views_add(script@, bottom_left@);
            lemma_views_add(script@ + bottom_left@, top_right@);
            lemma_views_add(script@ + bottom_left@ + top_right@, bottom_right@);
        }
        script.append(&mut bottom_left);
        script.append(&mut top_right);
        script.append(&mut bottom_right);
        script
    }

    /// The script of a broadcast that gives every panel the parameters `vals`.
    fn same_to_all<const LEN: usize>(&self, cmd: Command<LEN>, vals: [u8; LEN]) -> (script: Vec<
        Signal,
    >)
        ensures
            views(script@) == self@.broadcast(cmd@.op_code, vals@, vals@, vals@, vals@),
    {
        self.send_command_to_all(cmd, [vals, vals, vals, vals])
    }

    /// The script of the initialisation: eight broadcasts in strict sequence, each with the
    /// parameters that the controller expects at power-on. Only the resolution differs
    /// between the left and the right panels.
    pub fn init(&self) -> (script: Vec<Signal>)
        ensures
            self@.wf(),
            views(script@) == self@.init_script(),
    {
        proof {
            use_type_invariant(self);
        }
        let left: [u8; 4] = [0x02, 0x88, 0x01, 0xEC];
        let right: [u8; 4] = [0x02, 0x90, 0x01, 0xEC];
        assert(left@ =~= seq![0x02u8, 0x88u8, 0x01u8, 0xECu8]);
        assert(right@ =~= seq![0x02u8, 0x90u8, 0x01u8, 0xECu8]);
        let mut script = self.same_to_all(Commands::psr(), [0x1F]);
        let mut resolution = self.send_command_to_all(Commands::tres(), [left, left, right, right]);
        let mut bus_mode = self.same_to_all(Commands::duspi(), [0x20]);
        let mut data_interval = self.same_to_all(Commands::cdi(), [0x21, 0x07]);
        let mut non_overlap = self.same_to_all(Commands::tcon(), [0x22]);
        let mut power_saving = self.same_to_all(Commands::pws(), [0x00]);
        let mut cascade = self.same_to_all(Commands::ccset(), [0x03]);
        let mut temperature = self.same_to_all(Commands::tsset(), [0xE5]);
        proof {
            let epd = self@;
            let s1 = script@;
            let s2 = s1 + resolution@;
            let s3 = s2 + bus_mode@;
            let s4 = s3 + data_interval@;
            let s5 = s4 + non_overlap@;
            let s6 = s5 + power_saving@;
            let s7 = s6 + cascade@;
            let s8 = s7 + temperature@;
            assert([0x1Fu8]@ =~= seq![0x1Fu8]);
            assert([0x20u8]@ =~= seq![0x20u8]);
            assert([0x21u8, 0x07u8]@ =~= seq![0x21u8, 0x07u8]);
            assert([0x22u8]@ =~= seq![0x22u8]);
            assert([0x00u8]@ =~= seq![0x00u8]);
            assert([0x03u8]@ =~= seq![0x03u8]);
            assert([0xE5u8]@ =~= seq![0xE5u8]);
            assert(epd.init_steps(0) + epd.init_step(0) =~= epd.init_step(0));
            assert(views(s1) == epd.init_steps(1));
            lemma_views_add(s1, resolution@);
            assert(views(s2) == epd.init_steps(2));
            lemma_views_add(s2, bus_mode@);
            assert(views(s3) == epd.init_steps(3));
            lemma_views_add(s3, data_interval@);
            assert(views(s4) == epd.init_steps(4));
            lemma_views_add(s4, non_overlap@);
            assert(views(s5) == epd.init_steps(5));
            lemma_views_add(s5, power_saving@);
            assert(views(s6) == epd.init_steps(6));
            lemma_views_add(s6, cascade@);
            assert(views(s7) == epd.init_steps(7));
            lemma_views_add(s7, temperature@);
            assert(views(s8) == epd.init_steps(8));
        }
        script.append(&mut resolution);
        script.append(&mut bus_mode);
        script.append(&mut data_interval);
        script.append(&mut non_overlap);
        script.append(&mut power_saving);
        script.append(&mut cascade);
        script.append(&mut temperature);
        script
    }
}

} // verus!
