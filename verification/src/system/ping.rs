//! Measuring the round-trip time of every client.

use std::collections::VecDeque;
use vstd::prelude::*;

use crate::rng::random_u32;

verus! {

/// The number of pings that are remembered.
pub const PING_HISTORY: usize = 10;

/// The delay between two pings, in nanoseconds.
pub const PING_INTERVAL: u64 = 5_000_000_000;

/// The last pings sent out: their sequence numbers and the times at which
/// they were sent, oldest first.
pub struct PingData {
    seqs: VecDeque<(u32, u64)>,
}

impl View for PingData {
    type V = Seq<(u32, u64)>;

    closed spec fn view(&self) -> Seq<(u32, u64)> {
        self.seqs@
    }
}

/// The history after a ping is recorded: the ping is added at the end, and
/// the oldest one goes once more than `PING_HISTORY` are held.
pub open spec fn spec_push_seq(s: Seq<(u32, u64)>, e: (u32, u64)) -> Seq<(u32, u64)> {
    if s.len() + 1 > PING_HISTORY {
        s.push(e).drop_first()
    } else {
        s.push(e)
    }
}

/// The time at which the oldest remembered ping with sequence number `seq`
/// was sent.
pub open spec fn spec_seq_time(s: Seq<(u32, u64)>, seq: u32) -> Option<u64>
    decreases s.len(),
{
    if s.len() == 0 {
        None
    } else if s[0].0 == seq {
        Some(s[0].1)
    } else {
        spec_seq_time(s.drop_first(), seq)
    }
}

/// The time of the last ping sent.
pub open spec fn spec_last_ping(s: Seq<(u32, u64)>) -> Option<u64> {
    if s.len() == 0 {
        None
    } else {
        Some(s.last().1)
    }
}

/// Whether the next ping is due at `now`: none has been sent yet, or the last
/// one went out at least `PING_INTERVAL` ago. A last ping later than `now`
/// counts as sent no time ago.
pub open spec fn spec_ping_due(s: Seq<(u32, u64)>, now: u64) -> bool {
    match spec_last_ping(s) {
        Some(p) => now >= p && now - p >= PING_INTERVAL,
        None => true,
    }
}

/// The round-trip time in whole milliseconds, as sent to the client: at most
/// `u16::MAX`.
pub open spec fn spec_ping_millis(ping: u64) -> u16 {
    if ping / 1_000_000 > u16::MAX {
        u16::MAX
    } else {
        (ping / 1_000_000) as u16
    }
}

impl PingData {
    pub fn new() -> (r: Self)
        ensures
            r@ == Seq::<(u32, u64)>::empty(),
    {
        Self { seqs: VecDeque::new() }
    }

    /// Records that the ping `seq` was sent at `time`.
    pub fn push_seq(&mut self, seq: u32, time: u64)
        ensures
            final(self)@ == spec_push_seq(old(self)@, (seq, time)),
    {
        self.seqs.push_back((seq, time));
        if self.seqs.len() > PING_HISTORY {
            self.seqs.pop_front();
        }
        assert(self.seqs@ =~= spec_push_seq(old(self)@, (seq, time)));
    }

    /// The time at which the ping `seq` was sent, if it is remembered.
    pub fn seq_time(&self, seq: u32) -> (r: Option<u64>)
        ensures
            r == spec_seq_time(self@, seq),
    {
        let n = self.seqs.len();
        let mut i: usize = 0;
        assert(self@.skip(0) =~= self@);
        while i < n
            invariant
                n == self@.len(),
                i <= n,
                spec_seq_time(self@, seq) == spec_seq_time(self@.skip(i as int), seq),
            decreases n - i,
        {
            let (s, time) = self.seqs[i];
            assert(self@.skip(i as int).drop_first() =~= self@.skip(i + 1));
            if s == seq {
                return Some(time);
            }
            i = i + 1;
        }
        None
    }

    /// The time at which the last ping was sent.
    pub fn last_ping(&self) -> (r: Option<u64>)
        ensures
            r == spec_last_ping(self@),
    {
        let n = self.seqs.len();
        if n == 0 {
            None
        } else {
            Some(self.seqs[n - 1].1)
        }
    }
}

/// The ping system for the frame at `this_frame`: when a ping is due, draws a
/// random sequence number, records it as sent now and returns it so that it
/// can be sent to every player. Otherwise nothing changes.
pub fn update(data: &mut PingData, this_frame: u64) -> (r: Option<u32>)
    ensures
        spec_ping_due(old(data)@, this_frame) ==> (r matches Some(seq) && final(data)@
            == spec_push_seq(old(data)@, (seq, this_frame))),
        !spec_ping_due(old(data)@, this_frame) ==> r is None && final(data)@ == old(data)@,
{
    if let Some(p) = data.last_ping() {
        if this_frame < p || this_frame - p < PING_INTERVAL {
            return None;
        }
    }
    let seq = random_u32();
    data.push_seq(seq, this_frame);
    Some(seq)
}

/// A client answered the ping `num` at `time`: the round-trip time in
/// nanoseconds (zero if the answer seems to predate the ping) and in
/// milliseconds as sent back to it, or `None` for a ping that is not
/// remembered.
pub fn handle_ping_response(data: &PingData, num: u32, time: u64) -> (r: Option<(u64, u16)>)
    ensures
        match spec_seq_time(data@, num) {
            None => r is None,
            Some(sent) => {
                let ping = if time >= sent { (time - sent) as u64 } else { 0u64 };
                r == Some((ping, spec_ping_millis(ping)))
            },
        },
{
    let sent = data.seq_time(num)?;
    let ping = if time >= sent { time - sent } else { 0 };
    let millis = ping / 1_000_000;
    let ms: u16 = if millis > u16::MAX as u64 { u16::MAX } else { millis as u16 };
    Some((ping, ms))
}

/// The history never holds more than `PING_HISTORY` pings.
pub proof fn lemma_history_bounded(s: Seq<(u32, u64)>, e: (u32, u64))
    requires
        s.len() <= PING_HISTORY,
    ensures
        spec_push_seq(s, e).len() <= PING_HISTORY,
{
}

/// A ping that was just recorded is the last ping, and it is found by its
/// sequence number unless an older remembered ping carries the same number.
pub proof fn lemma_push_then_find(s: Seq<(u32, u64)>, seq: u32, time: u64)
    requires
        s.len() <= PING_HISTORY,
        forall|i: int| 0 <= i < s.len() ==> s[i].0 != seq,
    ensures
        spec_last_ping(spec_push_seq(s, (seq, time))) == Some(time),
        spec_seq_time(spec_push_seq(s, (seq, time)), seq) == Some(time),
{
    let t = spec_push_seq(s, (seq, time));
    lemma_seq_time_absent_prefix(t, seq);
}

/// Looking up a number skips every entry before the first that carries it.
proof fn lemma_seq_time_absent_prefix(t: Seq<(u32, u64)>, seq: u32)
    requires
        t.len() > 0,
        t.last().0 == seq,
        forall|i: int| 0 <= i < t.len() - 1 ==> t[i].0 != seq,
    ensures
        spec_seq_time(t, seq) == Some(t.last().1),
    decreases t.len(),
{
    if t[0].0 != seq {
        let u = t.drop_first();
        assert(u.last() == t.last());
        lemma_seq_time_absent_prefix(u, seq);
    }
}

/// When a ping is due is measured from the most recent ping in the history,
/// its last entry: with no ping sent yet one is due, and otherwise one is due
/// exactly when at least `PING_INTERVAL` has passed since that last ping. So
/// once a ping goes out at `t`, none is due again before `t + PING_INTERVAL`,
/// whatever older pings the history holds.
pub proof fn lemma_ping_due_from_last(s: Seq<(u32, u64)>, e: (u32, u64), now: u64)
    ensures
        s.len() == 0 ==> spec_ping_due(s, now),
        s.len() > 0 ==> (spec_ping_due(s, now) <==> now >= s[s.len() - 1].1 + PING_INTERVAL),
        spec_push_seq(s, e)[spec_push_seq(s, e).len() - 1] == e,
        e.1 <= now < e.1 + PING_INTERVAL ==> !spec_ping_due(spec_push_seq(s, e), now),
        now >= e.1 + PING_INTERVAL ==> spec_ping_due(spec_push_seq(s, e), now),
{
    let t = spec_push_seq(s, e);
    if s.len() + 1 > PING_HISTORY {
        assert(t[t.len() - 1] == s.push(e)[s.len() as int]);
    } else {
        assert(t[t.len() - 1] == s.push(e)[s.len() as int]);
    }
    assert(t.len() > 0);
}

} // verus!
