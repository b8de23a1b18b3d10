use mt5_bridge::bridge::{Bridge, BREAKLINE_CAP, DEFAULT_LOT, DEFAULT_MAX_LOT, HISTORY_CAP};
use mt5_bridge::gateway::{feed_step, FeedAction, FeedEvent};
use mt5_bridge::model::{
    CommandKind, Notice, PendingKind, PendingOrder, Position, RecordingAction, Reply, Side,
    Snapshot, WireReply,
};
use mt5_bridge::names::recording_header;

fn snap(symbol: &str, time: i64, bid: i64, ask: i64, volume: u64) -> Snapshot {
    Snapshot {
        symbol: symbol.to_string(),
        bid,
        ask,
        time,
        volume,
        balance: 0,
        equity: 0,
        margin: 0,
        free_margin: 0,
        min_lot: 0,
        max_lot: 0,
        lot_step: 0,
        positions: Vec::new(),
        orders: Vec::new(),
    }
}

fn fill(ticket: Option<i64>) -> WireReply {
    WireReply { success: true, ticket, error: None, message: None }
}

fn failure(error: &str) -> WireReply {
    WireReply { success: false, ticket: None, error: Some(error.to_string()), message: None }
}

#[test]
fn new_bridge_has_defaults() {
    let b = Bridge::new();
    assert_eq!(b.symbol, "Waiting for data...");
    assert_eq!(b.lot_size, DEFAULT_LOT);
    assert_eq!(b.min_lot, 1_000_000);
    assert_eq!(b.max_lot, DEFAULT_MAX_LOT);
    assert_eq!(b.lot_step, 1_000_000);
    assert_eq!(b.history_timeframe, "M1");
    assert_eq!(b.history_mode, "OHLC");
    assert_eq!(b.history_start, b.history_end);
    assert_eq!(b.history_start.len(), 10);
    assert_eq!(b.output_dir, "output");
    assert!(!b.recording);
    assert!(b.notice.is_none());
}

#[test]
fn history_keeps_last_capacity_snapshots_in_order() {
    let mut b = Bridge::new();
    let n = HISTORY_CAP as i64 + 37;
    for t in 0..n {
        b.apply_snapshot(snap("EURUSD", t, 110_000_000, 110_020_000, t as u64));
    }
    assert_eq!(b.history.len(), HISTORY_CAP);
    assert_eq!(b.volumes.len(), HISTORY_CAP);
    for (i, s) in b.history.iter().enumerate() {
        assert_eq!(s.time, 37 + i as i64);
    }
    assert_eq!(b.volumes[0], (37, 37));
    assert_eq!(b.volumes[HISTORY_CAP - 1], (n - 1, (n - 1) as u64));
}

#[test]
fn snapshot_with_balance_updates_account_and_trades() {
    let mut b = Bridge::new();
    let mut s = snap("EURUSD", 1000, 110_000_000, 110_020_000, 5);
    s.balance = 1_000_000_000_000;
    s.equity = 990_000_000_000;
    s.margin = 20_000_000_000;
    s.free_margin = 970_000_000_000;
    s.min_lot = 1_000_000;
    s.max_lot = 5_000_000_000;
    s.lot_step = 0;
    s.positions.push(Position { ticket: 7, side: Side::Buy, volume: 1_000_000, price: 109_000_000, profit: -250_000_000 });
    s.orders.push(PendingOrder { ticket: 9, kind: PendingKind::SellStop, volume: 2_000_000, price: 108_000_000 });
    let row = b.apply_snapshot(s);
    assert!(row.is_none());
    assert_eq!(b.symbol, "EURUSD");
    assert_eq!(b.balance, 1_000_000_000_000);
    assert_eq!(b.equity, 990_000_000_000);
    assert_eq!(b.margin, 20_000_000_000);
    assert_eq!(b.free_margin, 970_000_000_000);
    assert_eq!(b.max_lot, 5_000_000_000);
    assert_eq!(b.lot_step, 1_000_000);
    assert_eq!(b.positions.len(), 1);
    assert_eq!(b.positions[0].ticket, 7);
    assert_eq!(b.orders[0].kind, PendingKind::SellStop);

    // A snapshot without account fields keeps them, but replaces the trades.
    let row = b.apply_snapshot(snap("EURUSD", 1001, 110_010_000, 110_030_000, 2));
    assert!(row.is_none());
    assert_eq!(b.balance, 1_000_000_000_000);
    assert_eq!(b.max_lot, 5_000_000_000);
    assert!(b.positions.is_empty());
    assert!(b.orders.is_empty());
}

#[test]
fn adjust_lot_snaps_and_clamps() {
    let mut b = Bridge::new();
    b.adjust_lot_size(b.lot_step);
    assert_eq!(b.lot_size, 2_000_000);
    b.adjust_lot_size(-3 * b.lot_step);
    assert_eq!(b.lot_size, 1_000_000);
    b.adjust_lot_size(500_000);
    assert_eq!(b.lot_size, 2_000_000);
    b.adjust_lot_size(-1_400_000);
    assert_eq!(b.lot_size, 1_000_000);
    b.adjust_lot_size(i64::MAX);
    assert_eq!(b.lot_size, DEFAULT_MAX_LOT);
    b.adjust_lot_size(i64::MIN);
    assert_eq!(b.lot_size, 1_000_000);
}

#[test]
fn adjust_lot_by_zero_is_idempotent_and_in_range() {
    let mut b = Bridge::new();
    b.lot_size = 1_234_567;
    b.adjust_lot_size(0);
    let once = b.lot_size;
    assert_eq!(once, 1_000_000);
    b.adjust_lot_size(0);
    assert_eq!(b.lot_size, once);
    b.lot_size = 7_777_777_777_777;
    b.adjust_lot_size(0);
    assert_eq!(b.lot_size, DEFAULT_MAX_LOT);
    b.adjust_lot_size(0);
    assert_eq!(b.lot_size, DEFAULT_MAX_LOT);
    assert!(b.lot_size >= b.min_lot && b.lot_size <= b.max_lot);
}

#[test]
fn adjust_lot_rounds_before_clamping_off_step_bounds() {
    let mut b = Bridge::new();
    b.lot_step = 10;
    b.min_lot = 15;
    b.max_lot = 100;
    b.lot_size = 12;
    b.adjust_lot_size(0);
    assert_eq!(b.lot_size, 15);
    b.adjust_lot_size(0);
    assert_eq!(b.lot_size, 20);
}

#[test]
fn set_lot_size_clamps() {
    let mut b = Bridge::new();
    b.set_lot_size(3_000_000);
    assert_eq!(b.lot_size, 3_000_000);
    b.set_lot_size(1);
    assert_eq!(b.lot_size, 1_000_000);
    b.set_lot_size(i64::MAX);
    assert_eq!(b.lot_size, DEFAULT_MAX_LOT);
}

#[test]
fn market_buy_fill_draws_one_breakline_at_submission_length() {
    let mut b = Bridge::new();
    for t in 0..3 {
        b.apply_snapshot(snap("EURUSD", t, 110_000_000, 110_020_000, 1));
    }
    let len_at_submit = b.history.len();
    let cmd = b.submit_order(CommandKind::MarketBuy, None, None);
    assert_eq!(cmd.kind, CommandKind::MarketBuy);
    assert_eq!(cmd.symbol, "EURUSD");
    assert_eq!(cmd.volume, b.lot_size);
    assert_eq!(cmd.price, 0);
    assert_eq!(cmd.ticket, 0);
    assert!(cmd.history.is_none());
    assert_eq!(b.pending_order, Some(CommandKind::MarketBuy));
    let eff = b.receive(fill(Some(4242)));
    assert!(eff.is_none());
    assert_eq!(b.breaklines.len(), 1);
    assert_eq!(b.breaklines[0].index, len_at_submit);
    assert_eq!(b.breaklines[0].kind, CommandKind::MarketBuy);
    assert_eq!(b.breaklines[0].ticket, 4242);
    assert!(b.pending_order.is_none());
    assert!(matches!(b.notice, Some(Notice::OrderExecuted(4242))));
}

#[test]
fn failure_reply_draws_nothing_and_clears_slots() {
    let mut b = Bridge::new();
    b.submit_order(CommandKind::MarketSell, None, None);
    b.submit_download();
    assert!(b.pending_history.is_some());
    let eff = b.receive(failure("no money"));
    assert!(eff.is_none());
    assert!(b.breaklines.is_empty());
    assert!(b.pending_order.is_none());
    assert!(b.pending_history.is_none());
    match &b.notice {
        Some(Notice::Failed(e)) => assert_eq!(e, "no money"),
        other => panic!("unexpected notice {:?}", other),
    }
    b.receive(WireReply { success: false, ticket: None, error: None, message: None });
    match &b.notice {
        Some(Notice::Failed(e)) => assert_eq!(e, "Unknown error"),
        other => panic!("unexpected notice {:?}", other),
    }
}

#[test]
fn fill_without_pending_order_draws_nothing() {
    let mut b = Bridge::new();
    b.submit_order(CommandKind::LimitBuy, Some(109_000_000), None);
    assert!(b.pending_order.is_none());
    b.receive(fill(None));
    assert!(b.breaklines.is_empty());
    assert!(matches!(b.notice, Some(Notice::OrderExecuted(0))));
}

#[test]
fn close_and_cancel_carry_ticket_and_price() {
    let mut b = Bridge::new();
    let c = b.submit_order(CommandKind::ClosePosition, Some(109_500_000), Some(77));
    assert_eq!(c.ticket, 77);
    assert_eq!(c.price, 109_500_000);
    let c = b.submit_order(CommandKind::CancelOrder, Some(108_000_000), Some(78));
    assert_eq!(c.kind, CommandKind::CancelOrder);
    assert_eq!(c.ticket, 78);
    assert!(b.pending_order.is_none());
}

#[test]
fn breaklines_keep_the_newest_fifty() {
    let mut b = Bridge::new();
    for t in 0..(BREAKLINE_CAP as i64 + 5) {
        b.submit_order(CommandKind::MarketSell, None, None);
        b.receive(fill(Some(t)));
    }
    assert_eq!(b.breaklines.len(), BREAKLINE_CAP);
    assert_eq!(b.breaklines[0].ticket, 5);
    assert_eq!(b.breaklines[BREAKLINE_CAP - 1].ticket, BREAKLINE_CAP as i64 + 4);
}

#[test]
fn download_ids_strictly_increase() {
    let mut b = Bridge::new();
    let c1 = b.submit_download();
    let c2 = b.submit_download();
    let id1 = c1.history.as_ref().unwrap().request_id;
    let id2 = c2.history.as_ref().unwrap().request_id;
    assert_eq!(id1, 1);
    assert_eq!(id2, 2);
    assert_eq!(c1.kind, CommandKind::DownloadHistory);
    assert_eq!(c1.volume, 0);
    let h = c2.history.unwrap();
    assert_eq!(h.timeframe, "M1");
    assert_eq!(h.mode, "OHLC");
    assert_eq!(h.start, b.history_start);
    assert_eq!(h.end, b.history_end);
}

#[test]
fn csv_reply_exports_one_file_named_with_id() {
    let mut b = Bridge::new();
    b.apply_snapshot(snap("EUR/USD", 1, 110_000_000, 110_020_000, 1));
    b.history_timeframe = "H1".to_string();
    b.history_mode = "TICKS".to_string();
    b.submit_download();
    let r = Reply::Export { info: "Got 2 bars".to_string(), payload: "a,b\n1,2\n".to_string() };
    let eff = b.apply_reply_at(r, "20240102_030405").expect("export");
    assert_eq!(eff.file_name, "output/History_EUR-USD_H1_TICKS_ID0001_20240102_030405.csv");
    assert_eq!(eff.info, "Got 2 bars");
    assert_eq!(eff.payload, "a,b\n1,2\n");
    assert!(b.pending_history.is_none());
    b.finish_export(eff, Ok(()));
    match &b.notice {
        Some(Notice::Saved { info, file }) => {
            assert_eq!(info, "Got 2 bars");
            assert_eq!(file, "output/History_EUR-USD_H1_TICKS_ID0001_20240102_030405.csv");
        }
        other => panic!("unexpected notice {:?}", other),
    }
}

#[test]
fn csv_reply_through_receive_names_file_with_id() {
    let mut b = Bridge::new();
    b.apply_snapshot(snap("XAUUSD", 1, 110_000_000, 110_020_000, 1));
    b.submit_download();
    b.submit_download();
    let w = WireReply {
        success: true,
        ticket: None,
        error: None,
        message: Some("Saved 3 rows||CSV_DATA||t,o\n1,2".to_string()),
    };
    let eff = b.receive(w).expect("export");
    assert!(eff.file_name.starts_with("output/History_XAUUSD_M1_OHLC_ID0002_"));
    assert!(eff.file_name.ends_with(".csv"));
    assert_eq!(eff.info, "Saved 3 rows");
    assert_eq!(eff.payload, "t,o\n1,2");
    b.finish_export(eff, Err("disk full".to_string()));
    assert!(matches!(&b.notice, Some(Notice::SaveFailed(e)) if e == "disk full"));
}

#[test]
fn csv_reply_without_pending_request_only_reports_summary() {
    let mut b = Bridge::new();
    let w = WireReply {
        success: true,
        ticket: None,
        error: None,
        message: Some("Summary||CSV_DATA||x".to_string()),
    };
    assert!(b.receive(w).is_none());
    assert!(matches!(&b.notice, Some(Notice::Info(m)) if m == "Summary"));
}

#[test]
fn plain_message_reply_is_reported() {
    let mut b = Bridge::new();
    b.submit_order(CommandKind::MarketBuy, None, None);
    let w = WireReply { success: true, ticket: Some(5), error: None, message: Some("Done".to_string()) };
    assert!(b.receive(w).is_none());
    assert!(matches!(&b.notice, Some(Notice::Info(m)) if m == "Done"));
    assert!(b.breaklines.is_empty());
    assert_eq!(b.pending_order, Some(CommandKind::MarketBuy));
}

#[test]
fn malformed_snapshot_is_skipped_and_next_one_ingested() {
    let mut b = Bridge::new();
    let first = feed_step(FeedEvent::Malformed("{bad json}".to_string()));
    assert!(matches!(first, FeedAction::Skip));
    let second = feed_step(FeedEvent::Decoded(snap("EURUSD", 1000, 110_000_000, 110_020_000, 0)));
    match second {
        FeedAction::Forward(s) => {
            b.apply_snapshot(s);
        }
        _ => panic!("well-formed snapshot not forwarded"),
    }
    assert_eq!(b.history.len(), 1);
    assert_eq!(b.symbol, "EURUSD");
    assert_eq!(b.history[0].time, 1000);
    assert_eq!(b.history[0].ask, 110_020_000);
}

#[test]
fn transport_error_backs_off_one_second() {
    assert!(matches!(
        feed_step(FeedEvent::TransportError("reset".to_string())),
        FeedAction::Backoff(1000)
    ));
}

#[test]
fn recording_writes_header_and_three_rows_in_order() {
    let mut b = Bridge::new();
    b.apply_snapshot(snap("EURUSD", 999, 110_000_000, 110_020_000, 1));
    let act = b.toggle_recording_at("20240101_000000");
    let file = match act {
        RecordingAction::Open(f) => f,
        RecordingAction::Close => panic!("expected open"),
    };
    assert_eq!(file, "output/Live_EURUSD_ID0001_20240101_000000.csv");
    b.recording_opened(file.clone(), Ok(()));
    assert!(b.recording);
    let mut lines = vec![recording_header().to_string()];
    for (t, bid, ask, v) in [
        (1000, 110_000_000, 110_020_000, 5),
        (1001, 110_010_000, 110_030_000, 7),
        (1002, 110_020_000, 110_040_000, 3),
    ] {
        if let Some(row) = b.apply_snapshot(snap("EURUSD", t, bid, ask, v)) {
            lines.push(row);
        }
    }
    assert_eq!(
        lines,
        vec![
            "Time,Bid,Ask,Volume",
            "1000,1.1,1.1002,5",
            "1001,1.1001,1.1003,7",
            "1002,1.1002,1.1004,3",
        ]
    );
    let act = b.toggle_recording_at("x");
    assert!(matches!(act, RecordingAction::Close));
    assert!(!b.recording);
    assert!(matches!(b.notice, Some(Notice::RecordingStopped)));
    assert!(b.apply_snapshot(snap("EURUSD", 1003, 1, 1, 1)).is_none());
}

#[test]
fn recording_open_failure_switches_recording_off() {
    let mut b = Bridge::new();
    let act = b.toggle_recording();
    let file = match act {
        RecordingAction::Open(f) => f,
        RecordingAction::Close => panic!("expected open"),
    };
    assert!(file.starts_with("output/Live_Waiting for data..._ID0001_"));
    assert!(b.recording);
    b.recording_opened(file, Err("denied".to_string()));
    assert!(!b.recording);
    assert!(matches!(&b.notice, Some(Notice::RecordingFailed(e)) if e == "denied"));
    assert_eq!(b.request_counter, 1);
}

#[test]
fn second_submission_overwrites_slots() {
    let mut b = Bridge::new();
    b.submit_order(CommandKind::MarketBuy, None, None);
    b.submit_order(CommandKind::MarketSell, None, None);
    assert_eq!(b.pending_order, Some(CommandKind::MarketSell));
    b.receive(fill(Some(1)));
    assert_eq!(b.breaklines.len(), 1);
    assert_eq!(b.breaklines[0].kind, CommandKind::MarketSell);
    b.submit_download();
    b.submit_download();
    assert_eq!(b.pending_history.as_ref().unwrap().id, 2);
}

#[test]
fn send_result_sets_notice_only() {
    let mut b = Bridge::new();
    b.submit_order(CommandKind::MarketBuy, None, None);
    b.record_send_result(Err("channel full".to_string()));
    assert!(matches!(&b.notice, Some(Notice::SendFailed(e)) if e == "channel full"));
    assert_eq!(b.pending_order, Some(CommandKind::MarketBuy));
    b.record_send_result(Ok(()));
    assert!(matches!(b.notice, Some(Notice::RequestSent)));
}
