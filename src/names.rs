//! Text produced for the file side: recording rows and artifact names.

use vstd::prelude::*;
use vstd::string::*;
use crate::model::Snapshot;
use crate::text::{digits, fixed_text, int_text, padded, push_digits, push_fixed, push_int, push_padded};

verus! {

/// `s` with every `/` replaced by `-`, so that it can stand in a file name.
pub open spec fn sanitized(s: Seq<char>) -> Seq<char> {
    Seq::new(s.len(), |i: int| if s[i] == '/' { '-' } else { s[i] })
}

/// Replaces every `/` in a symbol by `-`.
pub fn sanitize_symbol(s: &str) -> (r: String)
    ensures
        r@ == sanitized(s@),
{
    let n = s.unicode_len();
    let mut out = String::new();
    let mut i: usize = 0;
    while i < n
        invariant
            n == s@.len(),
            i <= n,
            out@ == sanitized(s@).subrange(0, i as int),
        decreases n - i,
    {
        let c = s.get_char(i);
        if c == '/' {
            proof { reveal_strlit("-"); }
            assert("-"@ =~= seq!['-']);
            out.append("-");
        } else {
            out.append(s.substring_char(i, i + 1));
        }
        assert(out@ =~= sanitized(s@).subrange(0, i + 1));
        i += 1;
    }
    assert(out@ =~= sanitized(s@));
    out
}

/// Four-digit (at least) request id as it appears in artifact names.
pub open spec fn id_text(id: u64) -> Seq<char> {
    padded(id as nat, 4)
}

/// Name of the file that receives an exported history payload.
pub open spec fn history_file_name(
    dir: Seq<char>,
    symbol: Seq<char>,
    timeframe: Seq<char>,
    mode: Seq<char>,
    id: u64,
    stamp: Seq<char>,
) -> Seq<char> {
    dir + "/History_"@ + symbol + "_"@ + timeframe + "_"@ + mode + "_ID"@ + id_text(id) + "_"@
        + stamp + ".csv"@
}

/// Name of the file that receives a live recording.
pub open spec fn live_file_name(dir: Seq<char>, symbol: Seq<char>, id: u64, stamp: Seq<char>) -> Seq<
    char,
> {
    dir + "/Live_"@ + symbol + "_ID"@ + id_text(id) + "_"@ + stamp + ".csv"@
}

/// Builds the name of a history export file.
pub fn make_history_file_name(
    dir: &str,
    symbol: &str,
    timeframe: &str,
    mode: &str,
    id: u64,
    stamp: &str,
) -> (r: String)
    ensures
        r@ == history_file_name(dir@, symbol@, timeframe@, mode@, id, stamp@),
{
    let mut out = String::from_str(dir);
    out.append("/History_");
    out.append(symbol);
    out.append("_");
    out.append(timeframe);
    out.append("_");
    out.append(mode);
    out.append("_ID");
    push_padded(&mut out, id, 4);
    out.append("_");
    out.append(stamp);
    out.append(".csv");
    out
}

/// Builds the name of a live recording file.
pub fn make_live_file_name(dir: &str, symbol: &str, id: u64, stamp: &str) -> (r: String)
    ensures
        r@ == live_file_name(dir@, symbol@, id, stamp@),
{
    let mut out = String::from_str(dir);
    out.append("/Live_");
    out.append(symbol);
    out.append("_ID");
    push_padded(&mut out, id, 4);
    out.append("_");
    out.append(stamp);
    out.append(".csv");
    out
}

/// First line of a recording file.
pub open spec fn header_text() -> Seq<char> {
    "Time,Bid,Ask,Volume"@
}

/// The header line of a recording file.
pub fn recording_header() -> (r: &'static str)
    ensures
        r@ == header_text(),
{
    "Time,Bid,Ask,Volume"
}

/// The recording line of one tick: `time,bid,ask,volume`.
pub open spec fn row_text(time: i64, bid: i64, ask: i64, volume: u64) -> Seq<char> {
    int_text(time as int) + ","@ + fixed_text(bid as int) + ","@ + fixed_text(ask as int) + ","@
        + digits(volume as nat)
}

/// Formats the recording line of a snapshot.
pub fn recording_row(tick: &Snapshot) -> (r: String)
    ensures
        r@ == row_text(tick.time, tick.bid, tick.ask, tick.volume),
{
    let mut out = String::new();
    push_int(&mut out, tick.time);
    out.append(",");
    push_fixed(&mut out, tick.bid);
    out.append(",");
    push_fixed(&mut out, tick.ask);
    out.append(",");
    push_digits(&mut out, tick.volume);
    assert(out@ =~= row_text(tick.time, tick.bid, tick.ask, tick.volume));
    out
}

} // verus!
