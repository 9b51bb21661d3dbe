//! What holds of the order of the signals, whatever the panels' lines and whatever the bus
//! answers: the order of the panels in a broadcast, the order of the steps in the
//! initialisation, and where a failure of the bus leaves both.

use vstd::prelude::*;
use crate::command::CommandView;
use crate::driver::{init_op, init_vals, Epd12in48View};
use crate::log::{framed, lemma_log_add, lemma_log_take, lemma_log_transaction, log, Transaction};
use crate::panel::Display;
use crate::run::{
    fault_free, first_fault, lemma_play_fault_free, lemma_play_first_fault, play, start,
    ProgressView,
};
use crate::signal::{
    command_mode, data_mode, deselect, select, stage_of, BusError, SignalView, Stage,
};

verus! {

/// The transaction by which `panel` takes the command of the given op code and parameters,
/// as a recorder sees it.
pub open spec fn entry(panel: Display, op_code: u8, vals: Seq<u8>) -> Transaction {
    Transaction {
        chip_select: panel.internals().chip_select_pin,
        command_line: panel.internals().command_pin,
        op_code,
        vals,
    }
}

/// What a recorder notes of a broadcast: one transaction for each panel, in the panels' order.
pub open spec fn broadcast_log(
    epd: Epd12in48View,
    op_code: u8,
    top_left: Seq<u8>,
    bottom_left: Seq<u8>,
    top_right: Seq<u8>,
    bottom_right: Seq<u8>,
) -> Seq<Transaction> {
    seq![
        entry(epd.panels()[0], op_code, top_left),
        entry(epd.panels()[1], op_code, bottom_left),
        entry(epd.panels()[2], op_code, top_right),
        entry(epd.panels()[3], op_code, bottom_right),
    ]
}

/// What a recorder notes of the initialisation: transaction `k` is that of step `k / 4` for
/// the panel `k % 4`.
pub open spec fn init_log(epd: Epd12in48View) -> Seq<Transaction> {
    Seq::new(32, |k: int| entry(epd.panels()[k % 4], init_op(k / 4), init_vals(k / 4, k % 4)))
}

/// On a bus that does not fail, a transaction is exactly six signals in this order: select
/// the panel, command mode, the op code, data mode, the parameters, release the panel.
pub proof fn lemma_transaction_signals<E>(
    panel: Display,
    command: CommandView,
    answers: Seq<Result<(), E>>,
)
    requires
        fault_free(panel.transaction(command), answers),
        answers.len() >= 6,
    ensures
        play(start(panel.transaction(command)), answers) == ProgressView::<E>::Done,
        play(start(panel.transaction(command)), answers).emitted(panel.transaction(command))
            == seq![
            select(panel.internals().chip_select_pin),
            command_mode(panel.internals().command_pin),
            SignalView::Send { byte: command.op_code },
            data_mode(panel.internals().command_pin),
            SignalView::Transfer { bytes: command.vals },
            deselect(panel.internals().chip_select_pin),
        ],
{
    lemma_play_fault_free(panel.transaction(command), answers);
}

/// One more transaction after whole transactions is one more entry on record.
proof fn lemma_log_push(before: Seq<SignalView>, t: Transaction)
    requires
        before.len() % 6 == 0,
        framed(before),
    ensures
        (before + t.signals()).len() == before.len() + 6,
        framed(before + t.signals()),
        log(before + t.signals()) == log(before).push(t),
{
    lemma_log_transaction(t);
    lemma_log_add(before, t.signals());
    assert(log(before) + seq![t] =~= log(before).push(t));
}

/// Where no line serves two purposes, the four chip-select lines differ.
pub proof fn lemma_chip_selects_differ(epd: Epd12in48View)
    requires
        epd.wf(),
    ensures
        forall|i: int, j: int|
            0 <= i < j < 4 ==> epd.panels()[i].internals().chip_select_pin
                != epd.panels()[j].internals().chip_select_pin,
{
    let lines = epd.top_half.lines() + epd.bottom_half.lines();
    assert(lines[3] == epd.panels()[0].internals().chip_select_pin);
    assert(lines[9] == epd.panels()[1].internals().chip_select_pin);
    assert(lines[5] == epd.panels()[2].internals().chip_select_pin);
    assert(lines[11] == epd.panels()[3].internals().chip_select_pin);
}

/// A broadcast is four whole transactions, and they come in the fixed order top left, bottom
/// left, top right, bottom right.
pub proof fn lemma_broadcast_order(
    epd: Epd12in48View,
    op_code: u8,
    top_left: Seq<u8>,
    bottom_left: Seq<u8>,
    top_right: Seq<u8>,
    bottom_right: Seq<u8>,
)
    ensures
        epd.broadcast(op_code, top_left, bottom_left, top_right, bottom_right).len() == 24,
        framed(epd.broadcast(op_code, top_left, bottom_left, top_right, bottom_right)),
        log(epd.broadcast(op_code, top_left, bottom_left, top_right, bottom_right))
            == broadcast_log(epd, op_code, top_left, bottom_left, top_right, bottom_right),
{
    let e0 = entry(epd.panels()[0], op_code, top_left);
    let e1 = entry(epd.panels()[1], op_code, bottom_left);
    let e2 = entry(epd.panels()[2], op_code, top_right);
    let e3 = entry(epd.panels()[3], op_code, bottom_right);
    let s1 = e0.signals();
    let s2 = s1 + e1.signals();
    let s3 = s2 + e2.signals();
    let s4 = s3 + e3.signals();
    lemma_log_transaction(e0);
    lemma_log_push(s1, e1);
    lemma_log_push(s2, e2);
    lemma_log_push(s3, e3);
    assert(s4 == epd.broadcast(op_code, top_left, bottom_left, top_right, bottom_right));
    assert(log(s4) =~= broadcast_log(
        epd,
        op_code,
        top_left,
        bottom_left,
        top_right,
        bottom_right,
    ));
}

/// On a bus that does not fail, the whole broadcast goes out and succeeds.
pub proof fn lemma_broadcast_fault_free<E>(
    epd: Epd12in48View,
    op_code: u8,
    top_left: Seq<u8>,
    bottom_left: Seq<u8>,
    top_right: Seq<u8>,
    bottom_right: Seq<u8>,
    answers: Seq<Result<(), E>>,
)
    requires
        fault_free(
            epd.broadcast(op_code, top_left, bottom_left, top_right, bottom_right),
            answers,
        ),
        answers.len() >= 24,
    ensures
        ({
            let script = epd.broadcast(op_code, top_left, bottom_left, top_right, bottom_right);
            let end = play(start(script), answers);
            &&& end == ProgressView::<E>::Done
            &&& end.emitted(script) == script
            &&& log(end.emitted(script)) == broadcast_log(
                epd,
                op_code,
                top_left,
                bottom_left,
                top_right,
                bottom_right,
            )
        }),
{
    let script = epd.broadcast(op_code, top_left, bottom_left, top_right, bottom_right);
    lemma_broadcast_order(epd, op_code, top_left, bottom_left, top_right, bottom_right);
    lemma_play_fault_free(script, answers);
}

/// The first failure of the bus ends a broadcast at once, with the bus's own error. The
/// panels before the failing one have had their whole transactions; the failing panel and
/// those after it have none on record, and nothing goes out for the panels after it.
pub proof fn lemma_broadcast_stops_at_fault<E>(
    epd: Epd12in48View,
    op_code: u8,
    top_left: Seq<u8>,
    bottom_left: Seq<u8>,
    top_right: Seq<u8>,
    bottom_right: Seq<u8>,
    answers: Seq<Result<(), E>>,
    at: int,
)
    requires
        first_fault(
            epd.broadcast(op_code, top_left, bottom_left, top_right, bottom_right),
            answers,
            at,
        ),
    ensures
        ({
            let script = epd.broadcast(op_code, top_left, bottom_left, top_right, bottom_right);
            let end = play(start(script), answers);
            let stage = if at % 6 == 2 {
                Stage::OpCodeSend
            } else {
                Stage::ParameterTransfer
            };
            &&& at % 6 == 2 || at % 6 == 4
            &&& end == ProgressView::Failed(
                BusError { stage, at: at as usize, cause: answers[at]->Err_0 },
            )
            &&& end.emitted(script) == script.take(at + 1)
            &&& end.emitted(script).len() <= 6 * (at / 6 + 1)
            &&& log(end.emitted(script)) == broadcast_log(
                epd,
                op_code,
                top_left,
                bottom_left,
                top_right,
                bottom_right,
            ).take(at / 6)
        }),
{
    let script = epd.broadcast(op_code, top_left, bottom_left, top_right, bottom_right);
    lemma_broadcast_order(epd, op_code, top_left, bottom_left, top_right, bottom_right);
    lemma_play_first_fault(script, answers, at);
    lemma_log_take(script, at + 1);
    lemma_fault_place(script, at);
}

/// What a recorder notes of step `step` of the initialisation.
pub open spec fn init_step_log(epd: Epd12in48View, step: int) -> Seq<Transaction> {
    broadcast_log(
        epd,
        init_op(step),
        init_vals(step, 0),
        init_vals(step, 1),
        init_vals(step, 2),
        init_vals(step, 3),
    )
}

/// Cutting a concatenation within its first part cuts the first part.
proof fn lemma_take_of_add<A>(a: Seq<A>, b: Seq<A>, n: int)
    requires
        0 <= n <= a.len(),
    ensures
        (a + b).take(n) == a.take(n),
        (a + b).subrange(a.len() as int, (a.len() + b.len()) as int) == b,
        a.take(a.len() as int) == a,
{
    assert((a + b).take(n) =~= a.take(n));
    assert((a + b).subrange(a.len() as int, (a.len() + b.len()) as int) =~= b);
    assert(a.take(a.len() as int) =~= a);
}

/// The first `steps` steps of the initialisation are whole transactions, those of the table.
proof fn lemma_init_steps(epd: Epd12in48View, steps: int)
    requires
        0 <= steps <= 8,
    ensures
        epd.init_steps(steps).len() == 24 * steps,
        framed(epd.init_steps(steps)),
        log(epd.init_steps(steps)) == init_log(epd).take(4 * steps),
    decreases steps,
{
    if steps == 0 {
        assert(log(epd.init_steps(steps)) =~= init_log(epd).take(0));
    } else {
        let step = steps - 1;
        let before = epd.init_steps(step);
        lemma_init_steps(epd, step);
        lemma_broadcast_order(
            epd,
            init_op(step),
            init_vals(step, 0),
            init_vals(step, 1),
            init_vals(step, 2),
            init_vals(step, 3),
        );
        lemma_log_add(before, epd.init_step(step));
        assert(init_log(epd).take(4 * step) + init_step_log(epd, step) =~= init_log(epd).take(
            4 * steps,
        ));
    }
}

/// The first `m` steps are where the first `n` steps begin.
proof fn lemma_init_steps_take(epd: Epd12in48View, m: int, n: int)
    requires
        0 <= m <= n <= 8,
    ensures
        epd.init_steps(n).take(24 * m) == epd.init_steps(m),
    decreases n - m,
{
    lemma_init_steps(epd, m);
    if m < n {
        lemma_init_steps(epd, n - 1);
        lemma_init_steps_take(epd, m, n - 1);
        lemma_take_of_add(epd.init_steps(n - 1), epd.init_step(n - 1), 24 * m);
    } else {
        lemma_take_of_add(epd.init_steps(m), Seq::empty(), 24 * m);
    }
}

/// The initialisation is eight broadcasts in strict sequence, 32 whole transactions: step
/// for step in the order of the table, and within each step panel for panel in the order of
/// a broadcast, each with the parameters that the table gives it.
pub proof fn lemma_init_order(epd: Epd12in48View)
    ensures
        epd.init_script().len() == 192,
        framed(epd.init_script()),
        log(epd.init_script()) == init_log(epd),
        forall|step: int|
            0 <= step < 8 ==> epd.init_script().subrange(24 * step, 24 * step + 24)
                == #[trigger] epd.init_step(step),
{
    lemma_init_steps(epd, 8);
    assert(init_log(epd).take(32) =~= init_log(epd));
    assert forall|step: int| 0 <= step < 8 implies epd.init_script().subrange(
        24 * step,
        24 * step + 24,
    ) == #[trigger] epd.init_step(step) by {
        let whole = epd.init_script();
        let before = epd.init_steps(step);
        lemma_init_steps(epd, step);
        lemma_init_steps(epd, step + 1);
        lemma_init_steps_take(epd, step + 1, 8);
        lemma_take_of_add(before, epd.init_step(step), 0);
        assert(whole.subrange(24 * step, 24 * step + 24) =~= whole.take(24 * (step + 1)).subrange(
            24 * step,
            24 * step + 24,
        ));
    }
}

/// On a bus that does not fail, the whole initialisation goes out and succeeds.
pub proof fn lemma_init_fault_free<E>(epd: Epd12in48View, answers: Seq<Result<(), E>>)
    requires
        fault_free(epd.init_script(), answers),
        answers.len() >= 192,
    ensures
        play(start(epd.init_script()), answers) == ProgressView::<E>::Done,
        play(start(epd.init_script()), answers).emitted(epd.init_script()) == epd.init_script(),
        log(play(start(epd.init_script()), answers).emitted(epd.init_script())) == init_log(epd),
{
    lemma_init_order(epd);
    lemma_play_fault_free(epd.init_script(), answers);
}

/// The first failure of the bus ends the initialisation at once, with the bus's own error.
/// The transactions before the failing one are on record and no other: nothing goes out for
/// a later panel, and nothing for a later step. A failure in the fifth step leaves the
/// sixth, the seventh and the eighth step without a single signal.
pub proof fn lemma_init_stops_at_fault<E>(
    epd: Epd12in48View,
    answers: Seq<Result<(), E>>,
    at: int,
)
    requires
        first_fault(epd.init_script(), answers, at),
    ensures
        ({
            let script = epd.init_script();
            let end = play(start(script), answers);
            let stage = if at % 6 == 2 {
                Stage::OpCodeSend
            } else {
                Stage::ParameterTransfer
            };
            &&& at % 6 == 2 || at % 6 == 4
            &&& end == ProgressView::Failed(
                BusError { stage, at: at as usize, cause: answers[at]->Err_0 },
            )
            &&& end.emitted(script) == script.take(at + 1)
            &&& end.emitted(script).len() <= 6 * (at / 6 + 1)
            &&& end.emitted(script).len() <= 24 * (at / 24 + 1)
            &&& log(end.emitted(script)) == init_log(epd).take(at / 6)
            &&& at / 24 == 4 ==> end.emitted(script).len() <= 120 && log(
                end.emitted(script),
            ).len() < 20
        }),
{
    let script = epd.init_script();
    lemma_init_order(epd);
    lemma_play_first_fault(script, answers, at);
    lemma_log_take(script, at + 1);
    lemma_fault_place(script, at);
}

/// In signals that are transaction after transaction, only the op code and the parameters
/// can fail: the third and the fifth signal of a transaction.
proof fn lemma_fault_place(script: Seq<SignalView>, at: int)
    requires
        framed(script),
        script.len() % 6 == 0,
        0 <= at < script.len(),
        stage_of(script[at]) is Some,
    ensures
        at % 6 == 2 || at % 6 == 4,
        at % 6 == 2 ==> stage_of(script[at]) == Some(Stage::OpCodeSend),
        at % 6 == 4 ==> stage_of(script[at]) == Some(Stage::ParameterTransfer),
        (at + 1) / 6 == at / 6,
{
    let k = at / 6;
    let g = crate::log::group(script, k);
    assert(g == log(script)[k].signals());
    assert(g[at - 6 * k] == script[at]);
}

} // verus!
