//! The consumer-side aggregate: bounded tick history, account and trade
//! state, lot size, and the correlation slots that match replies to the action
//! that caused them.

use vstd::prelude::*;
use vstd::string::*;
use crate::lots::{adjust_lot, adjusted_lot, clamp_lot, clamp_to};
use crate::model::{
    Breakline, Command, CommandKind, Export, HistoryParams, HistorySlot, Notice, PendingOrder,
    Position, RecordingAction, Reply, Snapshot, WireReply, is_market_kind,
};
use crate::names::{
    history_file_name, live_file_name, make_history_file_name, make_live_file_name, recording_row,
    row_text, sanitize_symbol, sanitized,
};
use crate::clock::local_stamp;
use crate::reply::{classified, classify};
use crate::ring::{bounded_push, push_bounded};

verus! {

/// Capacity of the tick and volume histories.
pub const HISTORY_CAP: usize = 2000;

/// Capacity of the breakline list.
pub const BREAKLINE_CAP: usize = 50;

/// Default lot size, minimum and step: 0.01 lots.
pub const DEFAULT_LOT: i64 = 1_000_000;

/// Default maximum lot size: 100 lots.
pub const DEFAULT_MAX_LOT: i64 = 10_000_000_000;

pub struct Bridge {
    /// Snapshots in arrival order, newest last.
    pub history: Vec<Snapshot>,
    /// `(time, tick volume)` of each snapshot, newest last.
    pub volumes: Vec<(i64, u64)>,
    pub symbol: String,
    pub balance: i64,
    pub equity: i64,
    pub margin: i64,
    pub free_margin: i64,
    pub min_lot: i64,
    pub max_lot: i64,
    pub lot_step: i64,
    pub lot_size: i64,
    pub notice: Option<Notice>,
    pub history_start: String,
    pub history_end: String,
    pub history_timeframe: String,
    pub history_mode: String,
    pub recording: bool,
    pub positions: Vec<Position>,
    pub orders: Vec<PendingOrder>,
    pub output_dir: String,
    /// Last id handed out to a history download or a recording.
    pub request_counter: u64,
    pub breaklines: Vec<Breakline>,
    /// Kind of the market order awaiting its reply.
    pub pending_order: Option<CommandKind>,
    /// History request awaiting its reply.
    pub pending_history: Option<HistorySlot>,
}

/// Copies a vector of plain values.
fn copy_all<T: Copy>(v: &Vec<T>) -> (r: Vec<T>)
    ensures
        r@ == v@,
{
    let mut r: Vec<T> = Vec::new();
    let mut i: usize = 0;
    while i < v.len()
        invariant
            i <= v@.len(),
            r@ == v@.subrange(0, i as int),
        decreases v@.len() - i,
    {
        r.push(v[i]);
        i += 1;
        assert(r@ =~= v@.subrange(0, i as int));
    }
    assert(r@ =~= v@);
    r
}

/// `new` is `old` after snapshot `tick` arrived.
pub open spec fn snapshot_applied(old: Bridge, new: Bridge, tick: Snapshot) -> bool {
    let acct = tick.balance > 0;
    &&& new == (Bridge {
        history: new.history,
        volumes: new.volumes,
        symbol: new.symbol,
        positions: new.positions,
        orders: new.orders,
        balance: if acct { tick.balance } else { old.balance },
        equity: if acct { tick.equity } else { old.equity },
        margin: if acct { tick.margin } else { old.margin },
        free_margin: if acct { tick.free_margin } else { old.free_margin },
        min_lot: if acct { tick.min_lot } else { old.min_lot },
        max_lot: if acct { tick.max_lot } else { old.max_lot },
        lot_step: if acct && tick.lot_step > 0 { tick.lot_step } else { old.lot_step },
        ..old
    })
    &&& new.symbol@ == tick.symbol@
    &&& new.positions@ == tick.positions@
    &&& new.orders@ == tick.orders@
    &&& new.history@ == bounded_push(old.history@, tick, HISTORY_CAP as nat)
    &&& new.volumes@ == bounded_push(old.volumes@, (tick.time, tick.volume), HISTORY_CAP as nat)
}

/// `new` is `old` with the lot size set to `lot`.
pub open spec fn with_lot(old: Bridge, new: Bridge, lot: int) -> bool {
    new == (Bridge { lot_size: lot as i64, ..old }) && new.lot_size == lot
}

/// `new` is `old` after order `cmd` of kind `kind` was built for sending.
pub open spec fn order_submitted(
    old: Bridge,
    new: Bridge,
    kind: CommandKind,
    price: Option<i64>,
    ticket: Option<u64>,
    cmd: Command,
) -> bool {
    &&& new == (Bridge {
        pending_order: if is_market_kind(kind) { Some(kind) } else { old.pending_order },
        ..old
    })
    &&& cmd.kind == kind
    &&& cmd.symbol@ == old.symbol@
    &&& cmd.volume == old.lot_size
    &&& cmd.price == (if price is Some { price->Some_0 } else { 0 })
    &&& cmd.ticket == (if ticket is Some { ticket->Some_0 } else { 0 })
    &&& cmd.history is None
}

/// `new` is `old` after a history download `cmd` was built for sending: a new
/// id is minted and the history slot records it.
pub open spec fn download_submitted(old: Bridge, new: Bridge, cmd: Command) -> bool {
    let id = (old.request_counter + 1) as u64;
    &&& old.request_counter < u64::MAX
    &&& new == (Bridge {
        request_counter: id,
        pending_history: new.pending_history,
        ..old
    })
    &&& new.pending_history is Some
    &&& new.pending_history->Some_0.id == id
    &&& new.pending_history->Some_0.symbol@ == sanitized(old.symbol@)
    &&& new.pending_history->Some_0.timeframe@ == old.history_timeframe@
    &&& new.pending_history->Some_0.mode@ == old.history_mode@
    &&& cmd.kind == CommandKind::DownloadHistory
    &&& cmd.symbol@ == old.symbol@
    &&& cmd.volume == 0
    &&& cmd.price == 0
    &&& cmd.ticket == 0
    &&& cmd.history is Some
    &&& cmd.history->Some_0.timeframe@ == old.history_timeframe@
    &&& cmd.history->Some_0.start@ == old.history_start@
    &&& cmd.history->Some_0.end@ == old.history_end@
    &&& cmd.history->Some_0.mode@ == old.history_mode@
    &&& cmd.history->Some_0.request_id == id
}

/// `new` is `old` after the classified reply `r` arrived; `eff` is the export
/// to perform, named with the timestamp `stamp`.
pub open spec fn reply_applied(
    old: Bridge,
    new: Bridge,
    r: Reply,
    stamp: Seq<char>,
    eff: Option<Export>,
) -> bool {
    match r {
        Reply::Failed(e) => {
            &&& new == (Bridge {
                pending_order: None,
                pending_history: None,
                notice: Some(Notice::Failed(e)),
                ..old
            })
            &&& eff is None
        },
        Reply::Filled { ticket } => {
            &&& eff is None
            &&& match old.pending_order {
                Some(k) => {
                    &&& new == (Bridge {
                        pending_order: None,
                        breaklines: new.breaklines,
                        notice: Some(Notice::OrderExecuted(ticket)),
                        ..old
                    })
                    &&& new.breaklines@ == bounded_push(
                        old.breaklines@,
                        Breakline { index: old.history.len(), kind: k, ticket },
                        BREAKLINE_CAP as nat,
                    )
                },
                None => new == (Bridge { notice: Some(Notice::OrderExecuted(ticket)), ..old }),
            }
        },
        Reply::Info(m) => {
            &&& new == (Bridge { notice: Some(Notice::Info(m)), ..old })
            &&& eff is None
        },
        Reply::Export { info, payload } => match old.pending_history {
            Some(slot) => {
                &&& new == (Bridge { pending_history: None, ..old })
                &&& eff is Some
                &&& eff->Some_0.file_name@ == history_file_name(
                    old.output_dir@,
                    slot.symbol@,
                    slot.timeframe@,
                    slot.mode@,
                    slot.id,
                    stamp,
                )
                &&& eff->Some_0.info == info
                &&& eff->Some_0.payload == payload
            },
            None => {
                &&& new == (Bridge { notice: Some(Notice::Info(info)), ..old })
                &&& eff is None
            },
        },
    }
}

/// `new` is `old` after recording was switched; `act` is what the file side
/// must do, with a file named with the timestamp `stamp`.
pub open spec fn recording_toggled(
    old: Bridge,
    new: Bridge,
    stamp: Seq<char>,
    act: RecordingAction,
) -> bool {
    if !old.recording {
        let id = (old.request_counter + 1) as u64;
        &&& old.request_counter < u64::MAX
        &&& new == (Bridge { recording: true, request_counter: id, ..old })
        &&& act is Open
        &&& act->Open_0@ == live_file_name(old.output_dir@, sanitized(old.symbol@), id, stamp)
    } else {
        &&& new == (Bridge { recording: false, notice: Some(Notice::RecordingStopped), ..old })
        &&& act is Close
    }
}

impl Bridge {
    /// The aggregate's invariant: bounded histories and a positive lot step.
    pub open spec fn wf(&self) -> bool {
        &&& self.history.len() <= HISTORY_CAP
        &&& self.volumes.len() <= HISTORY_CAP
        &&& self.breaklines.len() <= BREAKLINE_CAP
        &&& self.lot_step > 0
    }

    /// A fresh bridge: no data yet, default lot rules, history dates set to today.
    pub fn new() -> (r: Bridge)
        ensures
            r.wf(),
            r.history@.len() == 0,
            r.volumes@.len() == 0,
            r.symbol@ == "Waiting for data..."@,
            r.balance == 0 && r.equity == 0 && r.margin == 0 && r.free_margin == 0,
            r.min_lot == DEFAULT_LOT && r.lot_step == DEFAULT_LOT && r.lot_size == DEFAULT_LOT,
            r.max_lot == DEFAULT_MAX_LOT,
            r.notice is None,
            r.history_start@ == r.history_end@,
            r.history_timeframe@ == "M1"@,
            r.history_mode@ == "OHLC"@,
            !r.recording,
            r.positions@.len() == 0,
            r.orders@.len() == 0,
            r.output_dir@ == "output"@,
            r.request_counter == 0,
            r.breaklines@.len() == 0,
            r.pending_order is None,
            r.pending_history is None,
    {
        let today = crate::clock::local_date();
        Bridge {
            history: Vec::new(),
            volumes: Vec::new(),
            symbol: String::from_str("Waiting for data..."),
            balance: 0,
            equity: 0,
            margin: 0,
            free_margin: 0,
            min_lot: DEFAULT_LOT,
            max_lot: DEFAULT_MAX_LOT,
            lot_step: DEFAULT_LOT,
            lot_size: DEFAULT_LOT,
            notice: None,
            history_start: today.clone(),
            history_end: today,
            history_timeframe: String::from_str("M1"),
            history_mode: String::from_str("OHLC"),
            recording: false,
            positions: Vec::new(),
            orders: Vec::new(),
            output_dir: String::from_str("output"),
            request_counter: 0,
            breaklines: Vec::new(),
            pending_order: None,
            pending_history: None,
        }
    }

    /// Takes in one snapshot: its recording line (when recording), account
    /// fields (when `balance > 0`), wholesale positions and orders, and the
    /// bounded histories. Returns the line to append to the recording file.
    pub fn apply_snapshot(&mut self, tick: Snapshot) -> (row: Option<String>)
        requires
            old(self).wf(),
        ensures
            final(self).wf(),
            snapshot_applied(*old(self), *final(self), tick),
            row is Some <==> old(self).recording,
            row is Some ==> row->Some_0@ == row_text(tick.time, tick.bid, tick.ask, tick.volume),
    {
        self.symbol = tick.symbol.clone();
        let row = if self.recording {
            Some(recording_row(&tick))
        } else {
            None
        };
        if tick.balance > 0 {
            self.balance = tick.balance;
            self.equity = tick.equity;
            self.margin = tick.margin;
            self.free_margin = tick.free_margin;
            self.min_lot = tick.min_lot;
            self.max_lot = tick.max_lot;
            if tick.lot_step > 0 {
                self.lot_step = tick.lot_step;
            }
        }
        self.positions = copy_all(&tick.positions);
        self.orders = copy_all(&tick.orders);
        push_bounded(&mut self.volumes, (tick.time, tick.volume), HISTORY_CAP);
        push_bounded(&mut self.history, tick, HISTORY_CAP);
        row
    }

    /// Sets the lot size to `lot` clamped to the allowed range.
    pub fn set_lot_size(&mut self, lot: i64)
        ensures
            with_lot(*old(self), *final(self), clamp_lot(lot as int, old(self).min_lot as int, old(self).max_lot as int)),
    {
        self.lot_size = clamp_to(lot, self.min_lot, self.max_lot);
    }

    /// Moves the lot size by `delta`, snapped to the lot step and clamped.
    pub fn adjust_lot_size(&mut self, delta: i64)
        requires
            old(self).wf(),
        ensures
            with_lot(
                *old(self),
                *final(self),
                adjusted_lot(
                    old(self).lot_size as int,
                    delta as int,
                    old(self).lot_step as int,
                    old(self).min_lot as int,
                    old(self).max_lot as int,
                ),
            ),
    {
        self.lot_size = adjust_lot(self.lot_size, delta, self.lot_step, self.min_lot, self.max_lot);
    }

    /// Builds an order command at the current symbol and lot size. A market
    /// order first takes the order slot, replacing whatever it held.
    pub fn submit_order(&mut self, kind: CommandKind, price: Option<i64>, ticket: Option<u64>) -> (cmd: Command)
        ensures
            order_submitted(*old(self), *final(self), kind, price, ticket, cmd),
    {
        if kind.is_market() {
            self.pending_order = Some(kind);
        }
        Command {
            kind,
            symbol: self.symbol.clone(),
            volume: self.lot_size,
            price: match price {
                Some(p) => p,
                None => 0,
            },
            ticket: match ticket {
                Some(t) => t,
                None => 0,
            },
            history: None,
        }
    }

    /// Builds a history download for the current symbol and history settings,
    /// minting the next request id and recording it in the history slot.
    pub fn submit_download(&mut self) -> (cmd: Command)
        requires
            old(self).request_counter < u64::MAX,
        ensures
            download_submitted(*old(self), *final(self), cmd),
    {
        self.request_counter = self.request_counter + 1;
        let id = self.request_counter;
        self.pending_history = Some(
            HistorySlot {
                id,
                symbol: sanitize_symbol(self.symbol.as_str()),
                timeframe: self.history_timeframe.clone(),
                mode: self.history_mode.clone(),
            },
        );
        Command {
            kind: CommandKind::DownloadHistory,
            symbol: self.symbol.clone(),
            volume: 0,
            price: 0,
            ticket: 0,
            history: Some(
                HistoryParams {
                    timeframe: self.history_timeframe.clone(),
                    start: self.history_start.clone(),
                    end: self.history_end.clone(),
                    mode: self.history_mode.clone(),
                    request_id: id,
                },
            ),
        }
    }

    /// Records whether the command queue took the last command. Neither
    /// outcome touches a correlation slot.
    pub fn record_send_result(&mut self, sent: Result<(), String>)
        ensures
            *final(self) == (Bridge {
                notice: Some(
                    match sent {
                        Ok(_) => Notice::RequestSent,
                        Err(e) => Notice::SendFailed(e),
                    },
                ),
                ..*old(self)
            }),
    {
        self.notice = Some(
            match sent {
                Ok(_) => Notice::RequestSent,
                Err(e) => Notice::SendFailed(e),
            },
        );
    }
    /// Acts on a classified reply. A failure clears both slots. A bare fill
    /// consumes the order slot and draws a breakline at the current history
    /// length. A payload with a pending history request consumes that slot and
    /// yields the export to write, named with `stamp`.
    pub fn apply_reply_at(&mut self, r: Reply, stamp: &str) -> (eff: Option<Export>)
        requires
            old(self).wf(),
        ensures
            final(self).wf(),
            reply_applied(*old(self), *final(self), r, stamp@, eff),
    {
        match r {
            Reply::Failed(e) => {
                self.pending_order = None;
                self.pending_history = None;
                self.notice = Some(Notice::Failed(e));
                None
            },
            Reply::Filled { ticket } => {
                match self.pending_order {
                    Some(k) => {
                        let mark = Breakline { index: self.history.len(), kind: k, ticket };
                        push_bounded(&mut self.breaklines, mark, BREAKLINE_CAP);
                        self.pending_order = None;
                    },
                    None => {},
                }
                self.notice = Some(Notice::OrderExecuted(ticket));
                None
            },
            Reply::Info(m) => {
                self.notice = Some(Notice::Info(m));
                None
            },
            Reply::Export { info, payload } => {
                let pending = self.pending_history.take();
                match pending {
                    Some(slot) => {
                        let file_name = make_history_file_name(
                            self.output_dir.as_str(),
                            slot.symbol.as_str(),
                            slot.timeframe.as_str(),
                            slot.mode.as_str(),
                            slot.id,
                            stamp,
                        );
                        Some(Export { file_name, info, payload })
                    },
                    None => {
                        self.notice = Some(Notice::Info(info));
                        None
                    },
                }
            },
        }
    }

    /// Takes in one wire reply: classifies it and acts on it, naming any
    /// export with the local time now.
    pub fn receive(&mut self, w: WireReply) -> (eff: Option<Export>)
        requires
            old(self).wf(),
        ensures
            final(self).wf(),
            exists|r: Reply, stamp: Seq<char>|
                classified(w, r) && reply_applied(*old(self), *final(self), r, stamp, eff),
    {
        let r = classify(w);
        let ghost r0 = r;
        let stamp = local_stamp();
        let eff = self.apply_reply_at(r, stamp.as_str());
        assert(classified(w, r0) && reply_applied(*old(self), *self, r0, stamp@, eff));
        eff
    }

    /// Records the outcome of writing an export file.
    pub fn finish_export(&mut self, export: Export, written: Result<(), String>)
        ensures
            *final(self) == (Bridge {
                notice: Some(
                    match written {
                        Ok(_) => Notice::Saved { info: export.info, file: export.file_name },
                        Err(e) => Notice::SaveFailed(e),
                    },
                ),
                ..*old(self)
            }),
    {
        self.notice = Some(
            match written {
                Ok(_) => Notice::Saved { info: export.info, file: export.file_name },
                Err(e) => Notice::SaveFailed(e),
            },
        );
    }

    /// Switches recording on or off. Switching on mints the next request id and
    /// names the recording file with it and with `stamp`.
    pub fn toggle_recording_at(&mut self, stamp: &str) -> (act: RecordingAction)
        requires
            !old(self).recording ==> old(self).request_counter < u64::MAX,
        ensures
            recording_toggled(*old(self), *final(self), stamp@, act),
    {
        if !self.recording {
            self.recording = true;
            self.request_counter = self.request_counter + 1;
            let symbol = sanitize_symbol(self.symbol.as_str());
            let name = make_live_file_name(
                self.output_dir.as_str(),
                symbol.as_str(),
                self.request_counter,
                stamp,
            );
            RecordingAction::Open(name)
        } else {
            self.recording = false;
            self.notice = Some(Notice::RecordingStopped);
            RecordingAction::Close
        }
    }

    /// Switches recording on or off, naming a new file with the local time now.
    pub fn toggle_recording(&mut self) -> (act: RecordingAction)
        requires
            !old(self).recording ==> old(self).request_counter < u64::MAX,
        ensures
            exists|stamp: Seq<char>| recording_toggled(*old(self), *final(self), stamp, act),
    {
        let stamp = local_stamp();
        let act = self.toggle_recording_at(stamp.as_str());
        assert(recording_toggled(*old(self), *self, stamp@, act));
        act
    }

    /// Records whether the recording file could be opened; on failure recording
    /// is switched off again.
    pub fn recording_opened(&mut self, file: String, opened: Result<(), String>)
        ensures
            *final(self) == match opened {
                Ok(_) => Bridge { notice: Some(Notice::Recording(file)), ..*old(self) },
                Err(e) => Bridge {
                    recording: false,
                    notice: Some(Notice::RecordingFailed(e)),
                    ..*old(self)
                },
            },
    {
        match opened {
            Ok(_) => {
                self.notice = Some(Notice::Recording(file));
            },
            Err(e) => {
                self.recording = false;
                self.notice = Some(Notice::RecordingFailed(e));
            },
        }
    }
}

} // verus!
