//! Reading signals back as transactions: what a recorder on the wires would note down.

use vstd::prelude::*;
use crate::panel::transaction;
use crate::signal::SignalView;

verus! {

/// A whole transaction as a recorder sees it: the panel by its chip-select line, the
/// command/data line, the op code and the parameters.
pub struct Transaction {
    pub chip_select: u8,
    pub command_line: u8,
    pub op_code: u8,
    pub vals: Seq<u8>,
}

impl Transaction {
    /// The six signals of the transaction.
    pub open spec fn signals(self) -> Seq<SignalView> {
        transaction(self.chip_select, self.command_line, self.op_code, self.vals)
    }
}

/// The transaction that six signals make up.
pub open spec fn read(group: Seq<SignalView>) -> Transaction {
    Transaction {
        chip_select: group[0]->line,
        command_line: group[1]->line,
        op_code: group[2]->byte,
        vals: group[4]->bytes,
    }
}

/// The six signals of `signals` that belong to its transaction `k`.
pub open spec fn group(signals: Seq<SignalView>, k: int) -> Seq<SignalView> {
    signals.subrange(6 * k, 6 * k + 6)
}

/// The whole transactions in `signals`, in order. Signals after the last whole transaction
/// are not recorded.
pub open spec fn log(signals: Seq<SignalView>) -> Seq<Transaction> {
    Seq::new((signals.len() / 6) as nat, |k: int| read(group(signals, k)))
}

/// Whether `signals` are transaction after transaction, up to a last one that may be cut
/// short: each whole group of six is the transaction that the log holds for it.
pub open spec fn framed(signals: Seq<SignalView>) -> bool {
    forall|k: int|
        0 <= k < signals.len() / 6 ==> #[trigger] group(signals, k) == log(signals)[k].signals()
}

/// The signals of one transaction are recorded as that transaction.
pub proof fn lemma_log_transaction(t: Transaction)
    ensures
        t.signals().len() == 6,
        log(t.signals()) == seq![t],
        framed(t.signals()),
{
    let s = t.signals();
    assert(group(s, 0) =~= s);
    assert(read(s) == t);
    assert(log(s) =~= seq![t]);
    assert forall|k: int| 0 <= k < s.len() / 6 implies #[trigger] group(s, k) == log(s)[k].signals() by {
        assert(k == 0);
    }
}

/// After whole transactions, what follows is recorded as if it stood alone.
pub proof fn lemma_log_add(a: Seq<SignalView>, b: Seq<SignalView>)
    requires
        a.len() % 6 == 0,
    ensures
        log(a + b) == log(a) + log(b),
        framed(a) && framed(b) ==> framed(a + b),
{
    let ab = a + b;
    let n = a.len() / 6;
    assert(ab.len() / 6 == n + b.len() / 6);
    assert forall|k: int| 0 <= k < ab.len() / 6 implies group(ab, k) == if k < n {
        group(a, k)
    } else {
        group(b, k - n)
    } by {
        if k < n {
            assert(group(ab, k) =~= group(a, k));
        } else {
            assert(group(ab, k) =~= group(b, k - n));
        }
    }
    assert(log(ab) =~= log(a) + log(b));
    if framed(a) && framed(b) {
        assert forall|k: int| 0 <= k < ab.len() / 6 implies #[trigger] group(ab, k) == log(
            ab,
        )[k].signals() by {
            if k < n {
                assert(group(a, k) == log(a)[k].signals());
            } else {
                assert(group(b, k - n) == log(b)[k - n].signals());
            }
        }
    }
}

/// Of signals cut short, the whole transactions before the cut are recorded, and no other.
pub proof fn lemma_log_take(signals: Seq<SignalView>, n: int)
    requires
        0 <= n <= signals.len(),
    ensures
        log(signals.take(n)) == log(signals).take(n / 6),
        framed(signals) ==> framed(signals.take(n)),
{
    let cut = signals.take(n);
    assert forall|k: int| 0 <= k < n / 6 implies group(cut, k) == group(signals, k) by {
        assert(group(cut, k) =~= group(signals, k));
    }
    assert(log(cut) =~= log(signals).take(n / 6));
    if framed(signals) {
        assert forall|k: int| 0 <= k < cut.len() / 6 implies #[trigger] group(cut, k) == log(
            cut,
        )[k].signals() by {
            assert(group(signals, k) == log(signals)[k].signals());
        }
    }
}

} // verus!
