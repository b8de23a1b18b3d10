//! Properties that relate several operations of the bridge.

use vstd::prelude::*;
use vstd::utf8::encode_utf8;
use vstd::arithmetic::div_mod::lemma_fundamental_div_mod_converse;
use crate::bridge::{
    BREAKLINE_CAP, Bridge, HISTORY_CAP, download_submitted, order_submitted, reply_applied,
    snapshot_applied,
};
use crate::lots::{adjusted_lot, clamp_lot, round_div};
use crate::model::{Breakline, Command, CommandKind, Reply, Snapshot, WireReply, is_market_kind};
use crate::names::{history_file_name, id_text, sanitized};
use crate::reply::{classified, split_point};
use crate::ring::{bounded_push, bounded_push_all, last_n, lemma_ring_from_empty};

verus! {

proof fn lemma_history_prefix(states: Seq<Bridge>, ticks: Seq<Snapshot>, k: int)
    requires
        states.len() == ticks.len() + 1,
        states[0].history@.len() == 0,
        forall|j: int|
            0 <= j < ticks.len() ==> #[trigger] snapshot_applied(states[j], states[j + 1], ticks[j]),
        0 <= k <= ticks.len(),
    ensures
        states[k].history@ == bounded_push_all(
            Seq::<Snapshot>::empty(),
            ticks.subrange(0, k),
            HISTORY_CAP as nat,
        ),
    decreases k,
{
    if k == 0 {
        assert(states[0].history@ =~= Seq::<Snapshot>::empty());
    } else {
        lemma_history_prefix(states, ticks, k - 1);
        let j = k - 1;
        assert(snapshot_applied(states[j], states[j + 1], ticks[j]));
        assert(ticks.subrange(0, k).drop_last() =~= ticks.subrange(0, k - 1));
    }
}

/// Feeding any number of snapshots, one after another, into a bridge whose
/// history starts empty leaves exactly the newest `HISTORY_CAP` of them in the
/// history, in arrival order.
pub proof fn lemma_history_keeps_newest(states: Seq<Bridge>, ticks: Seq<Snapshot>)
    requires
        states.len() == ticks.len() + 1,
        states[0].history@.len() == 0,
        forall|j: int|
            0 <= j < ticks.len() ==> #[trigger] snapshot_applied(states[j], states[j + 1], ticks[j]),
    ensures
        states.last().history@ == last_n(ticks, HISTORY_CAP as nat),
{
    lemma_history_prefix(states, ticks, ticks.len() as int);
    assert(ticks.subrange(0, ticks.len() as int) =~= ticks);
    lemma_ring_from_empty(ticks, HISTORY_CAP as nat);
}

/// Whatever the delta, an adjusted lot size lies in `[lo, hi]` when `lo <= hi`.
pub proof fn lemma_lot_in_range(lot: int, delta: int, step: int, lo: int, hi: int)
    requires
        step > 0,
        lo <= hi,
    ensures
        lo <= adjusted_lot(lot, delta, step, lo, hi) <= hi,
{
}

proof fn lemma_round_multiple(m: int, s: int)
    requires
        s > 0,
    ensures
        round_div(m * s, s) == m,
{
    if m >= 0 {
        assert(m * s >= 0) by (nonlinear_arith)
            requires
                m >= 0,
                s > 0,
        ;
        assert(2 * (m * s) + s == m * (2 * s) + s) by (nonlinear_arith);
        lemma_fundamental_div_mod_converse(2 * (m * s) + s, 2 * s, m, s);
    } else {
        assert(m * s < 0) by (nonlinear_arith)
            requires
                m < 0,
                s > 0,
        ;
        assert(-2 * (m * s) + s == (-m) * (2 * s) + s) by (nonlinear_arith);
        lemma_fundamental_div_mod_converse(-2 * (m * s) + s, 2 * s, -m, s);
    }
}

/// Adjusting by zero twice gives the same lot size as adjusting once, when the
/// bounds are ordered and are themselves whole numbers of steps.
pub proof fn lemma_lot_zero_idempotent(lot: int, step: int, lo: int, hi: int)
    requires
        step > 0,
        lo <= hi,
        lo % step == 0,
        hi % step == 0,
    ensures
        adjusted_lot(adjusted_lot(lot, 0, step, lo, hi), 0, step, lo, hi) == adjusted_lot(
            lot,
            0,
            step,
            lo,
            hi,
        ),
{
    let k = round_div(lot, step);
    let a = adjusted_lot(lot, 0, step, lo, hi);
    let m: int = if k * step < lo {
        lo / step
    } else if k * step > hi {
        hi / step
    } else {
        k
    };
    assert(a == m * step) by {
        vstd::arithmetic::div_mod::lemma_fundamental_div_mod(lo, step);
        vstd::arithmetic::div_mod::lemma_fundamental_div_mod(hi, step);
        assert(lo == step * (lo / step));
        assert(hi == step * (hi / step));
        assert(step * (lo / step) == (lo / step) * step) by (nonlinear_arith);
        assert(step * (hi / step) == (hi / step) * step) by (nonlinear_arith);
    };
    lemma_round_multiple(m, step);
    assert(a + 0 == m * step);
}

/// A market order followed by a bare success reply draws exactly one new
/// breakline: at the history length when the order was submitted, with the
/// order's kind and the reply's ticket. The order slot is then empty.
pub proof fn lemma_market_fill_draws_breakline(
    s0: Bridge,
    s1: Bridge,
    s2: Bridge,
    kind: CommandKind,
    price: Option<i64>,
    ticket: Option<u64>,
    cmd: Command,
    w: WireReply,
    r: Reply,
    stamp: Seq<char>,
    eff: Option<crate::model::Export>,
)
    requires
        is_market_kind(kind),
        order_submitted(s0, s1, kind, price, ticket, cmd),
        classified(w, r),
        reply_applied(s1, s2, r, stamp, eff),
        w.success,
        w.message is None,
    ensures
        s2.breaklines@ == bounded_push(
            s0.breaklines@,
            Breakline {
                index: s0.history.len(),
                kind,
                ticket: if w.ticket is Some { w.ticket->Some_0 } else { 0 },
            },
            BREAKLINE_CAP as nat,
        ),
        s2.pending_order is None,
        eff is None,
{
}

/// A failure reply after an order draws no breakline and empties both
/// correlation slots.
pub proof fn lemma_failure_clears_slots(
    s0: Bridge,
    s1: Bridge,
    s2: Bridge,
    kind: CommandKind,
    price: Option<i64>,
    ticket: Option<u64>,
    cmd: Command,
    w: WireReply,
    r: Reply,
    stamp: Seq<char>,
    eff: Option<crate::model::Export>,
)
    requires
        order_submitted(s0, s1, kind, price, ticket, cmd),
        classified(w, r),
        reply_applied(s1, s2, r, stamp, eff),
        !w.success,
    ensures
        s2.breaklines == s0.breaklines,
        s2.pending_order is None,
        s2.pending_history is None,
        eff is None,
{
}

/// Each history download mints an id above every id minted before it: two
/// downloads in a row carry strictly increasing ids.
pub proof fn lemma_download_ids_increase(
    s0: Bridge,
    s1: Bridge,
    s2: Bridge,
    c1: Command,
    c2: Command,
)
    requires
        download_submitted(s0, s1, c1),
        download_submitted(s1, s2, c2),
    ensures
        s0.request_counter < c1.history->Some_0.request_id,
        c1.history->Some_0.request_id < c2.history->Some_0.request_id,
        s2.request_counter == c2.history->Some_0.request_id,
{
}

/// A history download answered by a success whose message carries the payload
/// sentinel yields exactly one export, whose file name embeds the download's id.
pub proof fn lemma_download_export_names_id(
    s0: Bridge,
    s1: Bridge,
    s2: Bridge,
    cmd: Command,
    w: WireReply,
    r: Reply,
    stamp: Seq<char>,
    eff: Option<crate::model::Export>,
)
    requires
        download_submitted(s0, s1, cmd),
        classified(w, r),
        reply_applied(s1, s2, r, stamp, eff),
        w.success,
        w.message is Some,
        exists|i: int| split_point(encode_utf8(w.message->Some_0@), i),
    ensures
        eff is Some,
        eff->Some_0.file_name@ == history_file_name(
            s0.output_dir@,
            sanitized(s0.symbol@),
            s0.history_timeframe@,
            s0.history_mode@,
            cmd.history->Some_0.request_id,
            stamp,
        ),
        exists|pre: Seq<char>, post: Seq<char>|
            eff->Some_0.file_name@ == pre + "_ID"@ + id_text(cmd.history->Some_0.request_id)
                + post,
        s2.pending_history is None,
{
    let id = cmd.history->Some_0.request_id;
    let pre = s0.output_dir@ + "/History_"@ + sanitized(s0.symbol@) + "_"@ + s0.history_timeframe@
        + "_"@ + s0.history_mode@;
    let post = "_"@ + stamp + ".csv"@;
    assert(eff->Some_0.file_name@ =~= pre + "_ID"@ + id_text(id) + post);
}

/// Two orders submitted back to back, before any reply: a market order
/// submitted second holds the order slot, whatever the first was.
pub proof fn lemma_second_order_takes_slot(
    s0: Bridge,
    s1: Bridge,
    s2: Bridge,
    k1: CommandKind,
    k2: CommandKind,
    p1: Option<i64>,
    p2: Option<i64>,
    t1: Option<u64>,
    t2: Option<u64>,
    c1: Command,
    c2: Command,
)
    requires
        order_submitted(s0, s1, k1, p1, t1, c1),
        order_submitted(s1, s2, k2, p2, t2, c2),
        is_market_kind(k2),
    ensures
        s2.pending_order == Some(k2),
{
}

/// Two history downloads submitted back to back, before any reply: the
/// history slot holds the second request's id, no longer the first's.
pub proof fn lemma_second_download_takes_slot(
    s0: Bridge,
    s1: Bridge,
    s2: Bridge,
    c1: Command,
    c2: Command,
)
    requires
        download_submitted(s0, s1, c1),
        download_submitted(s1, s2, c2),
    ensures
        s2.pending_history is Some,
        s2.pending_history->Some_0.id == c2.history->Some_0.request_id,
        s2.pending_history->Some_0.id != c1.history->Some_0.request_id,
{
}

} // verus!
