//! Classification of inbound replies. A success message may carry an
//! exportable payload after the sentinel `||CSV_DATA||`; the text before it is
//! a human summary.

use vstd::prelude::*;
use vstd::string::*;
use vstd::utf8::*;
use crate::model::{Reply, WireReply};

verus! {

/// Length in bytes of the payload sentinel.
pub const SENTINEL_LEN: usize = 12;

/// The bytes of `||CSV_DATA||`.
pub open spec fn sentinel_bytes() -> Seq<u8> {
    seq![124u8, 124u8, 67u8, 83u8, 86u8, 95u8, 68u8, 65u8, 84u8, 65u8, 124u8, 124u8]
}

/// The sentinel occupies bytes `i .. i + 12` of `b`.
pub open spec fn split_point(b: Seq<u8>, i: int) -> bool {
    &&& 0 <= i
    &&& i + SENTINEL_LEN <= b.len()
    &&& b.subrange(i, i + SENTINEL_LEN) == sentinel_bytes()
}

/// In valid UTF-8, the end, the position of an ASCII byte and the position
/// right after one are character boundaries.
proof fn lemma_ascii_boundary(b: Seq<u8>, i: int)
    requires
        valid_utf8(b),
        0 <= i <= b.len(),
        i == 0 || i == b.len() || b[i] < 128 || b[i - 1] < 128,
    ensures
        is_char_boundary(b, i),
    decreases b.len(),
{
    if i > 0 {
        let l = length_of_first_scalar(b);
        assert(l <= i);
        let rest = pop_first_scalar(b);
        assert(rest.len() == b.len() - l);
        if i < b.len() {
            assert(rest[i - l] == b[i]);
        }
        if i - l > 0 {
            assert(rest[i - l - 1] == b[i - 1]);
        }
        lemma_ascii_boundary(rest, i - l);
    }
}

/// `i` is the first split point of `b`.
pub open spec fn first_split(b: Seq<u8>, i: int) -> bool {
    split_point(b, i) && forall|j: int| 0 <= j < i ==> !#[trigger] split_point(b, j)
}

/// The error text of a failure reply.
pub open spec fn failure_text(w: WireReply) -> Seq<char> {
    if w.error is Some {
        w.error->Some_0@
    } else {
        "Unknown error"@
    }
}

/// `r` is the classification of the wire reply `w`.
pub open spec fn classified(w: WireReply, r: Reply) -> bool {
    if !w.success {
        r is Failed && r->Failed_0@ == failure_text(w)
    } else if w.message is None {
        r == (Reply::Filled { ticket: if w.ticket is Some { w.ticket->Some_0 } else { 0 } })
    } else {
        let m = w.message->Some_0@;
        let b = encode_utf8(m);
        if exists|i: int| split_point(b, i) {
            &&& r is Export
            &&& exists|i: int|
                first_split(b, i) && encode_utf8(r->Export_info@) == b.subrange(0, i)
                    && encode_utf8(r->Export_payload@) == b.subrange(
                    i + SENTINEL_LEN,
                    b.len() as int,
                )
        } else {
            r is Info && r->Info_0@ == m
        }
    }
}

fn sentinel_at(b: &[u8], i: usize) -> (r: bool)
    requires
        i + SENTINEL_LEN <= b@.len(),
        b@.len() <= usize::MAX,
    ensures
        r == (b@.subrange(i as int, i + SENTINEL_LEN) == sentinel_bytes()),
{
    let pat: [u8; 12] = [124, 124, 67, 83, 86, 95, 68, 65, 84, 65, 124, 124];
    assert(pat@ =~= sentinel_bytes());
    let mut k: usize = 0;
    while k < SENTINEL_LEN
        invariant
            k <= SENTINEL_LEN,
            i + SENTINEL_LEN <= b@.len(),
            pat@ == sentinel_bytes(),
            b@.len() <= usize::MAX,
            forall|j: int| 0 <= j < k ==> b@[i + j] == pat@[j],
        decreases SENTINEL_LEN - k,
    {
        if b[i + k] != pat[k] {
            assert(b@.subrange(i as int, i + SENTINEL_LEN)[k as int] != sentinel_bytes()[k as int]);
            return false;
        }
        k += 1;
    }
    assert(b@.subrange(i as int, i + SENTINEL_LEN) =~= sentinel_bytes());
    true
}

/// Byte position of the first sentinel in `s` at which it can be split.
pub fn find_split(s: &str) -> (r: Option<usize>)
    ensures
        match r {
            Some(i) => first_split(s.spec_bytes(), i as int) && i + SENTINEL_LEN <= usize::MAX,
            None => forall|i: int| !#[trigger] split_point(s.spec_bytes(), i),
        },
{
    let b = s.as_bytes();
    let n = b.len();
    if n < SENTINEL_LEN {
        return None;
    }
    let mut i: usize = 0;
    while i <= n - SENTINEL_LEN
        invariant
            b@ == s.spec_bytes(),
            n == b@.len(),
            SENTINEL_LEN <= n,
            i <= n - SENTINEL_LEN + 1,
            forall|j: int| 0 <= j < i ==> !#[trigger] split_point(s.spec_bytes(), j),
        decreases n - i,
    {
        if sentinel_at(b, i) {
            return Some(i);
        }
        i += 1;
    }
    None
}

/// Classifies a wire reply: a failure with its cause, a bare fill, a payload
/// split off at the first sentinel, or a plain message.
pub fn classify(w: WireReply) -> (r: Reply)
    ensures
        classified(w, r),
{
    if !w.success {
        match w.error {
            Some(e) => Reply::Failed(e),
            None => {
                let e = String::from_str("Unknown error");
                Reply::Failed(e)
            },
        }
    } else {
        match w.message {
            None => {
                let t = match w.ticket {
                    Some(t) => t,
                    None => 0,
                };
                Reply::Filled { ticket: t }
            },
            Some(m) => {
                let ms = m.as_str();
                let found = find_split(ms);
                assert(ms.spec_bytes() == encode_utf8(m@));
                match found {
                    Some(i) => {
                        proof {
                            let b = ms.spec_bytes();
                            encode_utf8_valid_utf8(ms@);
                            assert(b[i as int] == b.subrange(i as int, i + SENTINEL_LEN)[0]);
                            lemma_ascii_boundary(b, i as int);
                            let last = SENTINEL_LEN - 1;
                            assert(b[i + last] == b.subrange(i as int, i + SENTINEL_LEN)[last as int]);
                            lemma_ascii_boundary(b, i + SENTINEL_LEN);
                        }
                        let (head, _) = ms.split_at(i);
                        let (_, tail) = ms.split_at(i + SENTINEL_LEN);
                        let info = String::from_str(head);
                        let payload = String::from_str(tail);
                        let r = Reply::Export { info, payload };
                        assert(first_split(encode_utf8(m@), i as int));
                        assert(encode_utf8(r->Export_info@) == encode_utf8(m@).subrange(0, i as int));
                        assert(encode_utf8(r->Export_payload@) == encode_utf8(m@).subrange(i + SENTINEL_LEN, encode_utf8(m@).len() as int));
                        r
                    },
                    None => {
                        assert forall|i: int| !split_point(encode_utf8(m@), i) by {
                            assert(!split_point(ms.spec_bytes(), i));
                        }
                        Reply::Info(m)
                    },
                }
            },
        }
    }
}

} // verus!
