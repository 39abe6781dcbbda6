//! The session history: an append-only log of chat turns, and the framing
//! that carries it through the external key-value store as one text blob.
//!
//! The engine frames and checks the blob itself; the surrounding
//! application only moves the framed text to and from the store.  Framing
//! is length-prefixed: a text is its character count in decimal, a colon,
//! and the characters; a message is its framed role followed by its framed
//! content; a history is its message count in decimal, a semicolon, and
//! the framed messages.  Decoding inverts encoding exactly.

use vstd::prelude::*;
use crate::decimal::{spec_decimal, spec_digit, usize_to_decimal};

verus! {

/// One stored chat message.
#[derive(Clone, Debug)]
pub struct RedisChatMessage {
    pub role: String,
    pub content: String,
}

/// Specification-level image of a [`RedisChatMessage`].
#[verifier::ext_equal]
pub struct SpecChatMessage {
    pub role: Seq<char>,
    pub content: Seq<char>,
}

impl DeepView for RedisChatMessage {
    type V = SpecChatMessage;

    open spec fn deep_view(&self) -> SpecChatMessage {
        SpecChatMessage { role: self.role.deep_view(), content: self.content.deep_view() }
    }
}

pub open spec fn is_digit(c: char) -> bool {
    48 <= c as u32 <= 57
}

pub open spec fn digit_val(c: char) -> nat {
    (c as u32 - 48) as nat
}

/// One framed text: its length in decimal, a colon, the characters.
pub open spec fn spec_encode_str(s: Seq<char>) -> Seq<char> {
    spec_decimal(s.len()) + seq![':'] + s
}

/// One framed message.
pub open spec fn spec_encode_msg(m: SpecChatMessage) -> Seq<char> {
    spec_encode_str(m.role) + spec_encode_str(m.content)
}

/// The framed messages, in order.
pub open spec fn spec_encode_msgs(h: Seq<SpecChatMessage>) -> Seq<char>
    decreases h.len(),
{
    if h.len() == 0 {
        Seq::empty()
    } else {
        spec_encode_msg(h[0]) + spec_encode_msgs(h.drop_first())
    }
}

/// The framed history blob.
pub open spec fn spec_encode_history(h: Seq<SpecChatMessage>) -> Seq<char> {
    spec_decimal(h.len()) + seq![';'] + spec_encode_msgs(h)
}

/// Reads a decimal prefix, accumulating onto `acc`; returns the value and
/// the rest.
pub open spec fn spec_parse_nat(s: Seq<char>, acc: nat) -> (nat, Seq<char>)
    decreases s.len(),
{
    if s.len() == 0 || !is_digit(s[0]) {
        (acc, s)
    } else {
        spec_parse_nat(s.drop_first(), acc * 10 + digit_val(s[0]))
    }
}

/// Reads one framed text; returns the text and the rest.
pub open spec fn spec_parse_str(s: Seq<char>) -> Option<(Seq<char>, Seq<char>)> {
    let (n, r) = spec_parse_nat(s, 0);
    if r.len() >= 1 + n && r[0] == ':' {
        Some((r.subrange(1, 1 + n as int), r.skip(1 + n as int)))
    } else {
        None
    }
}

/// Reads `n` framed messages; returns them and the rest.
pub open spec fn spec_parse_msgs(s: Seq<char>, n: nat) -> Option<(Seq<SpecChatMessage>, Seq<char>)>
    decreases n,
{
    if n == 0 {
        Some((Seq::empty(), s))
    } else {
        match spec_parse_str(s) {
            None => None,
            Some((role, r1)) => match spec_parse_str(r1) {
                None => None,
                Some((content, r2)) => match spec_parse_msgs(r2, (n - 1) as nat) {
                    None => None,
                    Some((msgs, r3)) => Some((seq![SpecChatMessage { role, content }] + msgs, r3)),
                },
            },
        }
    }
}

/// Decodes a framed history blob, or `None` where the text is not exactly
/// one framed history.
pub open spec fn spec_decode_history(s: Seq<char>) -> Option<Seq<SpecChatMessage>> {
    let (n, r) = spec_parse_nat(s, 0);
    if r.len() >= 1 && r[0] == ';' {
        match spec_parse_msgs(r.drop_first(), n) {
            None => None,
            Some((msgs, rest)) => if rest.len() == 0 {
                Some(msgs)
            } else {
                None
            },
        }
    } else {
        None
    }
}

/// The number of digits of `n` in decimal.
pub open spec fn spec_ndigits(n: nat) -> nat
    decreases n,
{
    if n < 10 {
        1
    } else {
        1 + spec_ndigits(n / 10)
    }
}

pub open spec fn pow10(k: nat) -> nat
    decreases k,
{
    if k == 0 {
        1
    } else {
        10 * pow10((k - 1) as nat)
    }
}

proof fn lemma_digit_char_val(d: nat)
    requires
        d < 10,
    ensures
        is_digit(spec_digit(d)),
        digit_val(spec_digit(d)) == d,
{
}

/// Parsing the decimal rendering of `n` followed by `rest` folds the
/// digits of `n` onto the accumulator and continues with `rest`.
proof fn lemma_parse_decimal(n: nat, acc: nat, rest: Seq<char>)
    ensures
        spec_parse_nat(spec_decimal(n) + rest, acc) == spec_parse_nat(
            rest,
            acc * pow10(spec_ndigits(n)) + n,
        ),
    decreases n,
{
    if n < 10 {
        reveal_with_fuel(pow10, 2);
        lemma_digit_char_val(n);
        let s = spec_decimal(n) + rest;
        assert(s[0] == spec_digit(n));
        assert(s.drop_first() =~= rest);
        assert(pow10(1) == 10);
    } else {
        let d = n % 10;
        lemma_digit_char_val(d);
        let tail = seq![spec_digit(d)] + rest;
        assert(spec_decimal(n) + rest =~= spec_decimal(n / 10) + tail);
        lemma_parse_decimal(n / 10, acc, tail);
        assert(tail[0] == spec_digit(d));
        assert(tail.drop_first() =~= rest);
        let a1 = acc * pow10(spec_ndigits(n / 10)) + n / 10;
        assert(spec_parse_nat(tail, a1) == spec_parse_nat(rest, a1 * 10 + d));
        assert(a1 * 10 + d == acc * pow10(spec_ndigits(n)) + n) by (nonlinear_arith)
            requires
                a1 == acc * pow10(spec_ndigits(n / 10)) + n / 10,
                pow10(spec_ndigits(n)) == 10 * pow10(spec_ndigits(n / 10)),
                d == n % 10,
                n >= 10,
        ;
    }
}

/// Parsing the decimal rendering of `n` followed by a rest that starts
/// with no digit yields exactly `n` and that rest.
proof fn lemma_parse_decimal_exact(n: nat, rest: Seq<char>)
    requires
        rest.len() == 0 || !is_digit(rest[0]),
    ensures
        spec_parse_nat(spec_decimal(n) + rest, 0) == (n, rest),
{
    lemma_parse_decimal(n, 0, rest);
}

/// Framing one text then decoding it yields the text and the rest.
proof fn lemma_parse_str_round_trip(v: Seq<char>, rest: Seq<char>)
    ensures
        spec_parse_str(spec_encode_str(v) + rest) == Some((v, rest)),
{
    let tail = seq![':'] + v + rest;
    assert(spec_encode_str(v) + rest =~= spec_decimal(v.len()) + tail);
    assert(tail[0] == ':');
    assert(!is_digit(':'));
    lemma_parse_decimal_exact(v.len(), tail);
    assert(tail.len() >= 1 + v.len());
    assert(tail.subrange(1, 1 + v.len() as int) =~= v);
    assert(tail.skip(1 + v.len() as int) =~= rest);
}

/// Framing messages then decoding them yields the messages and the rest.
proof fn lemma_parse_msgs_round_trip(h: Seq<SpecChatMessage>, rest: Seq<char>)
    ensures
        spec_parse_msgs(spec_encode_msgs(h) + rest, h.len()) == Some((h, rest)),
    decreases h.len(),
{
    if h.len() == 0 {
        assert(spec_encode_msgs(h) + rest =~= rest);
    } else {
        let m = h[0];
        let tail = h.drop_first();
        assert(spec_encode_msgs(h) + rest =~= spec_encode_str(m.role) + (spec_encode_str(m.content)
            + (spec_encode_msgs(tail) + rest)));
        lemma_parse_str_round_trip(m.role, spec_encode_str(m.content) + (spec_encode_msgs(tail)
            + rest));
        lemma_parse_str_round_trip(m.content, spec_encode_msgs(tail) + rest);
        lemma_parse_msgs_round_trip(tail, rest);
        assert(seq![SpecChatMessage { role: m.role, content: m.content }] + tail =~= h);
    }
}

/// Decoding inverts encoding: a history framed as a blob and decoded
/// again is the same history.
pub proof fn lemma_history_round_trip(h: Seq<SpecChatMessage>)
    ensures
        spec_decode_history(spec_encode_history(h)) == Some(h),
{
    let tail = seq![';'] + spec_encode_msgs(h);
    assert(spec_encode_history(h) =~= spec_decimal(h.len()) + tail);
    assert(tail[0] == ';');
    assert(!is_digit(';'));
    lemma_parse_decimal_exact(h.len(), tail);
    assert(tail.drop_first() =~= spec_encode_msgs(h));
    assert(spec_encode_msgs(h) =~= spec_encode_msgs(h) + Seq::<char>::empty());
    lemma_parse_msgs_round_trip(h, Seq::empty());
}

/// Appending a message reframes as the old messages plus the new one.
proof fn lemma_encode_msgs_push(h: Seq<SpecChatMessage>, m: SpecChatMessage)
    ensures
        spec_encode_msgs(h.push(m)) == spec_encode_msgs(h) + spec_encode_msg(m),
    decreases h.len(),
{
    if h.len() == 0 {
        assert(h.push(m)[0] == m);
        assert(h.push(m).drop_first() =~= h);
        assert(spec_encode_msgs(h.push(m)) == spec_encode_msg(m) + spec_encode_msgs(h));
        assert(spec_encode_msg(m) + spec_encode_msgs(h) =~= spec_encode_msgs(h) + spec_encode_msg(
            m,
        ));
    } else {
        assert(h.push(m)[0] == h[0]);
        assert(h.push(m).drop_first() =~= h.drop_first().push(m));
        lemma_encode_msgs_push(h.drop_first(), m);
        assert(spec_encode_msgs(h.push(m)) == spec_encode_msg(h[0]) + spec_encode_msgs(
            h.drop_first().push(m),
        ));
        assert(spec_encode_msgs(h) == spec_encode_msg(h[0]) + spec_encode_msgs(h.drop_first()));
        let a = spec_encode_msg(h[0]);
        let b = spec_encode_msgs(h.drop_first());
        let c = spec_encode_msg(m);
        assert(a + (b + c) =~= (a + b) + c);
        assert(spec_encode_msgs(h.push(m)) == spec_encode_msgs(h) + spec_encode_msg(m));
    }
}

proof fn lemma_parse_nat_suffix(s: Seq<char>, acc: nat)
    ensures
        spec_parse_nat(s, acc).1.len() <= s.len(),
    decreases s.len(),
{
    if s.len() == 0 || !is_digit(s[0]) {
    } else {
        lemma_parse_nat_suffix(s.drop_first(), acc * 10 + digit_val(s[0]));
    }
}

proof fn lemma_parse_nat_ge(s: Seq<char>, acc: nat)
    ensures
        spec_parse_nat(s, acc).0 >= acc,
    decreases s.len(),
{
    if s.len() == 0 || !is_digit(s[0]) {
    } else {
        lemma_parse_nat_ge(s.drop_first(), acc * 10 + digit_val(s[0]));
    }
}

proof fn lemma_parse_str_consumes(s: Seq<char>)
    ensures
        spec_parse_str(s) matches Some(p) ==> p.1.len() < s.len(),
{
    lemma_parse_nat_suffix(s, 0);
}

proof fn lemma_parse_msgs_min(s: Seq<char>, n: nat)
    ensures
        spec_parse_msgs(s, n) matches Some(p) ==> p.1.len() + 2 * n <= s.len(),
    decreases n,
{
    if n == 0 {
    } else {
        lemma_parse_str_consumes(s);
        match spec_parse_str(s) {
            None => {},
            Some((role, r1)) => {
                lemma_parse_str_consumes(r1);
                match spec_parse_str(r1) {
                    None => {},
                    Some((content, r2)) => {
                        lemma_parse_msgs_min(r2, (n - 1) as nat);
                    },
                }
            },
        }
    }
}

proof fn lemma_parse_msgs_too_many(s: Seq<char>, n: nat)
    requires
        n > s.len(),
    ensures
        spec_parse_msgs(s, n) is None,
{
    lemma_parse_msgs_min(s, n);
}

/// Reads a decimal prefix of `s` starting at character `start`.
fn scan_nat(s: &str, start: usize, total: usize) -> (r: Option<(usize, usize)>)
    requires
        total == s@.len(),
        start <= total,
    ensures
        r matches Some(p) ==> start <= p.1 <= total && spec_parse_nat(s@.skip(start as int), 0)
            == (p.0 as nat, s@.skip(p.1 as int)),
        r is None ==> spec_parse_nat(s@.skip(start as int), 0).0 > usize::MAX,
{
    let mut pos = start;
    let mut acc: usize = 0;
    loop
        invariant
            total == s@.len(),
            start <= pos <= total,
            spec_parse_nat(s@.skip(start as int), 0) == spec_parse_nat(
                s@.skip(pos as int),
                acc as nat,
            ),
        decreases total - pos,
    {
        if pos >= total {
            proof {
                assert(s@.skip(pos as int).len() == 0);
            }
            return Some((acc, pos));
        }
        let c = s.get_char(pos);
        proof {
            assert(s@.skip(pos as int)[0] == s@[pos as int]);
        }
        let u = c as u32;
        if !(48 <= u && u <= 57) {
            return Some((acc, pos));
        }
        let d = (u - 48) as usize;
        proof {
            assert(is_digit(s@[pos as int]));
            assert(digit_val(s@[pos as int]) == d as nat);
            assert(s@.skip(pos as int).drop_first() =~= s@.skip(pos + 1));
        }
        if acc > (usize::MAX - d) / 10 {
            proof {
                lemma_parse_nat_ge(s@.skip(pos + 1), acc as nat * 10 + d as nat);
                assert(acc as nat * 10 + d as nat > usize::MAX) by (nonlinear_arith)
                    requires
                        acc as nat > (usize::MAX as nat - d as nat) / 10,
                        d as nat <= 9,
                ;
            }
            return None;
        }
        acc = acc * 10 + d;
        pos = pos + 1;
    }
}

/// Reads one framed text of `s` starting at character `start`.
fn scan_str(s: &str, start: usize, total: usize) -> (r: Option<(String, usize)>)
    requires
        total == s@.len(),
        start <= total,
    ensures
        r matches Some(p) ==> start <= p.1 <= total && spec_parse_str(s@.skip(start as int))
            == Some((p.0@, s@.skip(p.1 as int))),
        r is None ==> spec_parse_str(s@.skip(start as int)) is None,
{
    let ghost input = s@.skip(start as int);
    match scan_nat(s, start, total) {
        None => {
            proof {
                lemma_parse_nat_suffix(input, 0);
            }
            None
        },
        Some((n, p)) => {
            if p >= total {
                proof {
                    assert(s@.skip(p as int).len() == 0);
                }
                return None;
            }
            let c = s.get_char(p);
            proof {
                assert(s@.skip(p as int)[0] == s@[p as int]);
            }
            if c != ':' {
                return None;
            }
            if n <= total - p - 1 {
                let v = s.substring_char(p + 1, p + 1 + n).to_owned();
                proof {
                    assert(s@.skip(p as int).subrange(1, 1 + n as int) =~= s@.subrange(
                        p + 1,
                        p + 1 + n,
                    ));
                    assert(s@.skip(p as int).skip(1 + n as int) =~= s@.skip(p + 1 + n));
                }
                Some((v, p + 1 + n))
            } else {
                proof {
                    assert(s@.skip(p as int).len() < 1 + n as nat);
                }
                None
            }
        },
    }
}

/// Decodes a framed history blob, inverting [`encode_history`]: the
/// messages in order where the text is exactly one framed history, and
/// `None` otherwise.
pub fn decode_history(s: &str) -> (r: Option<Vec<RedisChatMessage>>)
    ensures
        r matches Some(v) ==> spec_decode_history(s@) == Some(v.deep_view()),
        r is None ==> spec_decode_history(s@) is None,
{
    let total = s.unicode_len();
    proof {
        assert(s@.skip(0) =~= s@);
    }
    match scan_nat(s, 0, total) {
        None => {
            proof {
                let pn = spec_parse_nat(s@, 0);
                lemma_parse_nat_suffix(s@, 0);
                if pn.1.len() >= 1 && pn.1[0] == ';' {
                    lemma_parse_msgs_too_many(pn.1.drop_first(), pn.0);
                }
            }
            None
        },
        Some((n, p)) => {
            if p >= total {
                proof {
                    assert(s@.skip(p as int).len() == 0);
                }
                return None;
            }
            let c = s.get_char(p);
            proof {
                assert(s@.skip(p as int)[0] == s@[p as int]);
            }
            if c != ';' {
                return None;
            }
            let mut msgs: Vec<RedisChatMessage> = Vec::new();
            let mut pos = p + 1;
            let mut i: usize = 0;
            proof {
                assert(s@.skip(p as int).drop_first() =~= s@.skip(p + 1));
                assert(msgs.deep_view() =~= Seq::<SpecChatMessage>::empty());
            }
            while i < n
                invariant
                    total == s@.len(),
                    pos <= total,
                    i <= n,
                    spec_decode_history(s@) == (match spec_parse_msgs(
                        s@.skip(pos as int),
                        (n - i) as nat,
                    ) {
                        Some(q) => if q.1.len() == 0 {
                            Some(msgs.deep_view() + q.0)
                        } else {
                            None
                        },
                        None => None,
                    }),
                decreases n - i,
            {
                let ghost cur = s@.skip(pos as int);
                match scan_str(s, pos, total) {
                    None => {
                        return None;
                    },
                    Some((role, p1)) => {
                        match scan_str(s, p1, total) {
                            None => {
                                return None;
                            },
                            Some((content, p2)) => {
                                let ghost mspec = SpecChatMessage {
                                    role: role@,
                                    content: content@,
                                };
                                let ghost pre = msgs.deep_view();
                                crate::util::push_deep(
                                    &mut msgs,
                                    RedisChatMessage { role, content },
                                );
                                proof {
                                    assert(pre + (seq![mspec] + spec_parse_msgs(
                                        s@.skip(p2 as int),
                                        (n - i - 1) as nat,
                                    ).unwrap().0) =~= (pre.push(mspec)) + spec_parse_msgs(
                                        s@.skip(p2 as int),
                                        (n - i - 1) as nat,
                                    ).unwrap().0);
                                }
                                pos = p2;
                                i = i + 1;
                            },
                        }
                    },
                }
            }
            if pos == total {
                proof {
                    assert(s@.skip(pos as int).len() == 0);
                    assert(msgs.deep_view() + Seq::<SpecChatMessage>::empty() =~= msgs.deep_view());
                }
                Some(msgs)
            } else {
                proof {
                    assert(s@.skip(pos as int).len() > 0);
                }
                None
            }
        },
    }
}

/// Frames one text.
fn encode_str(s: &str) -> (r: String)
    ensures
        r@ == spec_encode_str(s@),
{
    let n = s.unicode_len();
    let r = usize_to_decimal(n).concat(":").concat(s);
    proof {
        reveal_strlit(":");
        assert(":"@ =~= seq![':']);
    }
    r
}

/// Frames the history `msgs` as one text blob for the session store.
pub fn encode_history(msgs: &Vec<RedisChatMessage>) -> (r: String)
    ensures
        r@ == spec_encode_history(msgs.deep_view()),
{
    let ghost all: Seq<SpecChatMessage> = msgs.deep_view();
    let mut r = usize_to_decimal(msgs.len()).concat(";");
    proof {
        reveal_strlit(";");
        assert(";"@ =~= seq![';']);
        assert(all.take(0) =~= Seq::<SpecChatMessage>::empty());
        assert(r@ =~= spec_decimal(all.len()) + seq![';'] + spec_encode_msgs(all.take(0)));
    }
    let mut i: usize = 0;
    while i < msgs.len()
        invariant
            0 <= i <= msgs.len(),
            all == msgs.deep_view(),
            r@ == spec_decimal(all.len()) + seq![';'] + spec_encode_msgs(all.take(i as int)),
        decreases msgs.len() - i,
    {
        let role_part = encode_str(msgs[i].role.as_str());
        let content_part = encode_str(msgs[i].content.as_str());
        r = r.concat(role_part.as_str()).concat(content_part.as_str());
        proof {
            assert(all.take(i as int).push(all[i as int]) =~= all.take(i + 1));
            lemma_encode_msgs_push(all.take(i as int), all[i as int]);
        }
        i = i + 1;
    }
    proof {
        assert(all.take(msgs.len() as int) =~= all);
    }
    r
}

/// The chat history of one session, as the engine holds it between the
/// load from and the write back to the external store.
#[derive(Clone, Debug)]
pub struct RedisChatHistory {
    pub session_id: String,
    pub messages: Vec<RedisChatMessage>,
}

impl RedisChatHistory {
    /// An empty history for the session `session_id`.
    pub fn new_redis_chat(session_id: String) -> (r: RedisChatHistory)
        ensures
            r.session_id@ == session_id@,
            r.messages.deep_view() == Seq::<SpecChatMessage>::empty(),
    {
        let r = RedisChatHistory { session_id, messages: Vec::new() };
        proof {
            assert(r.messages.deep_view() =~= Seq::<SpecChatMessage>::empty());
        }
        r
    }

    /// The history loaded from a stored blob; an absent or empty blob is
    /// an empty history, not an error.
    pub fn from_blob(session_id: String, blob: &Option<String>) -> (r: Option<RedisChatHistory>)
        ensures
            blob is None ==> (r matches Some(h) && h.session_id@ == session_id@
                && h.messages.deep_view() == Seq::<SpecChatMessage>::empty()),
            blob matches Some(b) ==> ((r matches Some(h) ==> h.session_id@ == session_id@
                && spec_decode_history(b@) == Some(h.messages.deep_view())) && ((r is Some) == (
            spec_decode_history(b@) is Some))),
    {
        match blob {
            None => Some(RedisChatHistory::new_redis_chat(session_id)),
            Some(b) => match decode_history(b.as_str()) {
                Some(messages) => Some(RedisChatHistory { session_id, messages }),
                None => None,
            },
        }
    }

    /// The stored messages, in insertion order.
    pub fn base_messages(&self) -> (r: &Vec<RedisChatMessage>)
        ensures
            r.deep_view() == self.messages.deep_view(),
    {
        &self.messages
    }

    /// Appends one message; insertion order is preserved.
    pub fn add_message(&mut self, role: &str, content: &str)
        ensures
            final(self).messages.deep_view() == old(self).messages.deep_view().push(
                SpecChatMessage { role: role@, content: content@ },
            ),
            final(self).session_id == old(self).session_id,
    {
        crate::util::push_deep(
            &mut self.messages,
            RedisChatMessage { role: role.to_owned(), content: content.to_owned() },
        );
    }

    /// The framed blob to write back to the store.
    pub fn to_blob(&self) -> (r: String)
        ensures
            r@ == spec_encode_history(self.messages.deep_view()),
    {
        encode_history(&self.messages)
    }
}

/// Messages appended before a history is framed and stored are present,
/// in the same order and after the earlier messages, when the blob is
/// decoded again at the start of the next call.
pub proof fn lemma_appended_turns_survive_round_trip(
    h: Seq<SpecChatMessage>,
    appended: Seq<SpecChatMessage>,
)
    ensures
        spec_decode_history(spec_encode_history(h + appended)) == Some(h + appended),
        forall|i: int| 0 <= i < appended.len() ==> (h + appended)[h.len() + i] == appended[i],
{
    lemma_history_round_trip(h + appended);
}

} // verus!
