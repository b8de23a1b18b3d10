//! The values that cross the bridge: market snapshots, commands, replies and
//! the records derived from them. Prices, volumes and amounts are fixed-point
//! integers in `UNIT`ths (see `text::UNIT`).

use vstd::prelude::*;

verus! {

/// Direction of an open position.
#[derive(Clone, Copy, Debug, PartialEq, Eq, Structural)]
pub enum Side {
    Buy,
    Sell,
}

/// Kind of a resting (pending) order.
#[derive(Clone, Copy, Debug, PartialEq, Eq, Structural)]
pub enum PendingKind {
    BuyLimit,
    SellLimit,
    BuyStop,
    SellStop,
}

/// An open position, identified by its server-side ticket.
#[derive(Clone, Copy, Debug, PartialEq, Eq, Structural)]
pub struct Position {
    pub ticket: u64,
    pub side: Side,
    pub volume: i64,
    pub price: i64,
    pub profit: i64,
}

/// A resting order, identified by its server-side ticket.
#[derive(Clone, Copy, Debug, PartialEq, Eq, Structural)]
pub struct PendingOrder {
    pub ticket: u64,
    pub kind: PendingKind,
    pub volume: i64,
    pub price: i64,
}

/// One inbound market-data update with its account and trade context.
/// A `balance` of zero means the account fields are absent.
#[derive(Debug)]
pub struct Snapshot {
    pub symbol: String,
    pub bid: i64,
    pub ask: i64,
    /// Wall-clock seconds.
    pub time: i64,
    /// Tick volume.
    pub volume: u64,
    pub balance: i64,
    pub equity: i64,
    pub margin: i64,
    pub free_margin: i64,
    pub min_lot: i64,
    pub max_lot: i64,
    pub lot_step: i64,
    pub positions: Vec<Position>,
    pub orders: Vec<PendingOrder>,
}

/// What a command asks the trading server to do.
#[derive(Clone, Copy, Debug, PartialEq, Eq, Structural)]
pub enum CommandKind {
    MarketBuy,
    MarketSell,
    LimitBuy,
    LimitSell,
    StopBuy,
    StopSell,
    ClosePosition,
    CancelOrder,
    DownloadHistory,
}

/// Whether executing `k` fills at market (and so draws a breakline).
pub open spec fn is_market_kind(k: CommandKind) -> bool {
    k == CommandKind::MarketBuy || k == CommandKind::MarketSell
}

impl CommandKind {
    /// Whether this is a market order.
    pub fn is_market(&self) -> (r: bool)
        ensures
            r == is_market_kind(*self),
    {
        match self {
            CommandKind::MarketBuy => true,
            CommandKind::MarketSell => true,
            _ => false,
        }
    }

    /// Whether this command buys (market, limit or stop buy).
    pub fn is_buy(&self) -> (r: bool)
        ensures
            r == (*self == CommandKind::MarketBuy || *self == CommandKind::LimitBuy || *self
                == CommandKind::StopBuy),
    {
        match self {
            CommandKind::MarketBuy => true,
            CommandKind::LimitBuy => true,
            CommandKind::StopBuy => true,
            _ => false,
        }
    }
}

/// Parameters that only a history download carries.
#[derive(Debug)]
pub struct HistoryParams {
    pub timeframe: String,
    pub start: String,
    pub end: String,
    pub mode: String,
    pub request_id: u64,
}

/// One outbound instruction to the trading server.
#[derive(Debug)]
pub struct Command {
    pub kind: CommandKind,
    pub symbol: String,
    pub volume: i64,
    pub price: i64,
    /// The position or order acted on; zero unless closing or cancelling.
    pub ticket: u64,
    pub history: Option<HistoryParams>,
}

/// One reply as it arrives on the wire.
#[derive(Debug)]
pub struct WireReply {
    pub success: bool,
    pub ticket: Option<i64>,
    pub error: Option<String>,
    pub message: Option<String>,
}

/// A reply after classification.
#[derive(Debug)]
pub enum Reply {
    /// A bare success: an order was executed.
    Filled { ticket: i64 },
    /// A success with a plain message.
    Info(String),
    /// A success whose message carried an exportable payload after the sentinel.
    Export { info: String, payload: String },
    /// A failure with its cause.
    Failed(String),
}

/// Marker of an executed market order at a position of the tick history.
#[derive(Clone, Copy, Debug, PartialEq, Eq, Structural)]
pub struct Breakline {
    pub index: usize,
    pub kind: CommandKind,
    pub ticket: i64,
}

/// The outstanding history request, kept to name the exported file.
#[derive(Debug)]
pub struct HistorySlot {
    pub id: u64,
    pub symbol: String,
    pub timeframe: String,
    pub mode: String,
}

/// The last outcome shown to the user.
#[derive(Debug)]
pub enum Notice {
    RequestSent,
    SendFailed(String),
    OrderExecuted(i64),
    Info(String),
    Saved { info: String, file: String },
    SaveFailed(String),
    Failed(String),
    Recording(String),
    RecordingStopped,
    RecordingFailed(String),
}

/// A file to write with the payload of a history download.
#[derive(Debug)]
pub struct Export {
    pub file_name: String,
    pub info: String,
    pub payload: String,
}

/// What the file side must do after recording was switched.
#[derive(Debug)]
pub enum RecordingAction {
    /// Open (create or append) this file and write the header line.
    Open(String),
    /// Close the recording file.
    Close,
}

} // verus!
