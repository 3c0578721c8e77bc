//! A buffer of received but unclaimed server messages, claimed by kind.
use vstd::prelude::*;
use crate::model::ApiResponse;

verus! {

/// The shape of a server message; what a waiter asks for.
#[derive(Clone, Copy, Debug, PartialEq, Eq, Structural)]
pub enum ResponseKind {
    Code,
    Device,
    LanUrl,
}

/// The shape of a message.
pub open spec fn kind_of(m: ApiResponse) -> ResponseKind {
    match m {
        ApiResponse::Code(_) => ResponseKind::Code,
        ApiResponse::Device(_) => ResponseKind::Device,
        ApiResponse::LanUrl(_) => ResponseKind::LanUrl,
    }
}

impl ApiResponse {
    /// The shape of this message.
    pub fn kind(&self) -> (r: ResponseKind)
        ensures
            r == kind_of(*self),
    {
        match self {
            ApiResponse::Code(_) => ResponseKind::Code,
            ApiResponse::Device(_) => ResponseKind::Device,
            ApiResponse::LanUrl(_) => ResponseKind::LanUrl,
        }
    }
}

/// The index of the earliest message of kind `k` in `s`, or -1 if none.
pub open spec fn first_index(s: Seq<ApiResponse>, k: ResponseKind) -> int
    decreases s.len(),
{
    if s.len() == 0 {
        -1
    } else if kind_of(s[0]) == k {
        0
    } else {
        let r = first_index(s.drop_first(), k);
        if r < 0 {
            -1
        } else {
            r + 1
        }
    }
}

/// `first_index` is the earliest match, and -1 means that nothing matches.
pub proof fn lemma_first_index(s: Seq<ApiResponse>, k: ResponseKind)
    ensures
        first_index(s, k) < s.len(),
        first_index(s, k) >= 0 ==> kind_of(s[first_index(s, k)]) == k,
        forall|j: int| 0 <= j < s.len() && (first_index(s, k) < 0 || j < first_index(s, k))
            ==> kind_of(#[trigger] s[j]) != k,
    decreases s.len(),
{
    if s.len() > 0 && kind_of(s[0]) != k {
        lemma_first_index(s.drop_first(), k);
        assert forall|j: int| 0 < j < s.len() implies s[j] == s.drop_first()[j - 1] by {}
    }
}

/// What one step of reading the wire gives: a match ends the wait, any
/// other message is appended to the buffer. The result is the claimed
/// message, the buffer afterwards and how many wire messages were read.
pub open spec fn read_outcome(buf: Seq<ApiResponse>, wire: Seq<ApiResponse>, k: ResponseKind) -> (
    Option<ApiResponse>,
    Seq<ApiResponse>,
    nat,
)
    decreases wire.len(),
{
    if wire.len() == 0 {
        (None, buf, 0)
    } else if kind_of(wire[0]) == k {
        (Some(wire[0]), buf, 1)
    } else {
        let (r, b, n) = read_outcome(buf.push(wire[0]), wire.drop_first(), k);
        (r, b, n + 1)
    }
}

/// One whole wait for kind `k`: the buffer first, then the wire.
pub open spec fn await_outcome(buf: Seq<ApiResponse>, wire: Seq<ApiResponse>, k: ResponseKind) -> (
    Option<ApiResponse>,
    Seq<ApiResponse>,
    nat,
) {
    let i = first_index(buf, k);
    if i >= 0 {
        (Some(buf[i]), buf.remove(i), 0)
    } else {
        read_outcome(buf, wire, k)
    }
}

/// Reading the wire when nothing buffered matches claims the earliest match
/// of the buffer followed by the wire.
proof fn lemma_read_outcome(buf: Seq<ApiResponse>, wire: Seq<ApiResponse>, k: ResponseKind)
    requires
        first_index(buf, k) < 0,
    ensures
        ({
            let o = read_outcome(buf, wire, k);
            let all = buf + wire;
            let i = first_index(all, k);
            &&& o.2 <= wire.len()
            &&& i < 0 ==> o.0.is_none() && o.1 + wire.skip(o.2 as int) == all
            &&& i >= 0 ==> o.0 == Some(all[i]) && o.1 + wire.skip(o.2 as int) == all.remove(i)
        }),
    decreases wire.len(),
{
    lemma_first_index(buf, k);
    lemma_first_index(buf + wire, k);
    let all = buf + wire;
    if wire.len() == 0 {
        assert(all =~= buf);
        assert(wire.skip(0) =~= wire);
    } else if kind_of(wire[0]) == k {
        assert(all[buf.len() as int] == wire[0]);
        assert(forall|j: int| 0 <= j < buf.len() ==> all[j] == buf[j]);
        assert(first_index(all, k) == buf.len());
        assert(buf + wire.skip(1) =~= all.remove(buf.len() as int));
    } else {
        let b2 = buf.push(wire[0]);
        let w2 = wire.drop_first();
        lemma_first_index(b2, k);
        assert(forall|j: int| 0 <= j < buf.len() ==> b2[j] == buf[j]);
        assert(first_index(b2, k) < 0);
        lemma_read_outcome(b2, w2, k);
        assert(b2 + w2 =~= all);
        let n2 = read_outcome(b2, w2, k).2;
        assert(w2.skip(n2 as int) =~= wire.skip(n2 + 1 as int));
    }
}

/// Each wait for a kind returns the earliest unclaimed message of that kind,
/// counting the buffered messages before those still on the wire, and never
/// a message of another kind; if none is there, nothing is returned and every
/// message read is kept. The messages left unclaimed (the new buffer, then
/// the unread wire) keep their order.
pub proof fn lemma_await_takes_earliest_match(
    buf: Seq<ApiResponse>,
    wire: Seq<ApiResponse>,
    k: ResponseKind,
)
    ensures
        ({
            let o = await_outcome(buf, wire, k);
            let all = buf + wire;
            let i = first_index(all, k);
            &&& o.2 <= wire.len()
            &&& i < 0 ==> o.0.is_none() && o.1 + wire.skip(o.2 as int) == all
            &&& i >= 0 ==> {
                &&& o.0 == Some(all[i])
                &&& kind_of(all[i]) == k
                &&& forall|j: int| 0 <= j < i ==> kind_of(#[trigger] all[j]) != k
                &&& o.1 + wire.skip(o.2 as int) == all.remove(i)
            }
        }),
{
    let all = buf + wire;
    lemma_first_index(buf, k);
    lemma_first_index(all, k);
    let bi = first_index(buf, k);
    if bi >= 0 {
        assert(forall|j: int| 0 <= j < buf.len() ==> all[j] == buf[j]);
        assert(all[bi] == buf[bi]);
        assert(first_index(all, k) == bi);
        assert(wire.skip(0) =~= wire);
        assert(buf.remove(bi) + wire =~= all.remove(bi));
    } else {
        lemma_read_outcome(buf, wire, k);
    }
}

/// Messages received from the server and not yet claimed, in arrival order.
pub struct ResponseMailbox {
    queue: Vec<ApiResponse>,
}

impl View for ResponseMailbox {
    type V = Seq<ApiResponse>;

    closed spec fn view(&self) -> Seq<ApiResponse> {
        self.queue@
    }
}

impl ResponseMailbox {
    /// An empty mailbox.
    pub fn new() -> (r: ResponseMailbox)
        ensures
            r@ == Seq::<ApiResponse>::empty(),
    {
        ResponseMailbox { queue: Vec::new() }
    }

    /// The number of buffered messages.
    pub fn len(&self) -> (r: usize)
        ensures
            r == self@.len(),
    {
        self.queue.len()
    }

    /// Removes and returns the earliest buffered message of kind `k`, if any.
    pub fn take_buffered(&mut self, k: ResponseKind) -> (r: Option<ApiResponse>)
        ensures
            ({
                let i = first_index(old(self)@, k);
                if i >= 0 {
                    r == Some(old(self)@[i]) && final(self)@ == old(self)@.remove(i)
                } else {
                    r.is_none() && final(self)@ == old(self)@
                }
            }),
    {
        proof {
            lemma_first_index(old(self).queue@, k);
        }
        let mut i: usize = 0;
        while i < self.queue.len()
            invariant
                i <= self.queue@.len(),
                self.queue@ == old(self).queue@,
                forall|j: int| 0 <= j < i ==> kind_of(#[trigger] self.queue@[j]) != k,
            decreases self.queue@.len() - i,
        {
            if self.queue[i].kind() == k {
                proof {
                    lemma_first_index(old(self).queue@, k);
                }
                return Some(self.queue.remove(i));
            }
            i = i + 1;
        }
        None
    }

    /// Hands over a message that was just read from the wire while waiting
    /// for kind `k`: it is returned if it matches, else buffered.
    pub fn offer(&mut self, k: ResponseKind, msg: ApiResponse) -> (r: Option<ApiResponse>)
        ensures
            kind_of(msg) == k ==> r == Some(msg) && final(self)@ == old(self)@,
            kind_of(msg) != k ==> r.is_none() && final(self)@ == old(self)@.push(msg),
    {
        if msg.kind() == k {
            Some(msg)
        } else {
            self.queue.push(msg);
            None
        }
    }

    /// One whole wait for kind `k` over the frames that have arrived, oldest
    /// first: the earliest buffered match is claimed; else frames are taken
    /// from the front of `wire` until one matches, the others being
    /// buffered. The frames taken are gone from `wire`.
    pub fn await_matching(&mut self, k: ResponseKind, wire: &mut Vec<ApiResponse>) -> (r: Option<ApiResponse>)
        ensures
            ({
                let o = await_outcome(old(self)@, old(wire)@, k);
                &&& r == o.0
                &&& final(self)@ == o.1
                &&& o.2 <= old(wire)@.len()
                &&& final(wire)@ == old(wire)@.skip(o.2 as int)
            }),
    {
        let buffered = self.take_buffered(k);
        if buffered.is_some() {
            assert(old(wire)@.skip(0) =~= old(wire)@);
            return buffered;
        }
        let ghost o0 = read_outcome(old(self)@, old(wire)@, k);
        let ghost n0 = old(wire)@.len();
        assert(old(wire)@.skip(0) =~= old(wire)@);
        while wire.len() > 0
            invariant
                n0 == old(wire)@.len(),
                o0 == read_outcome(old(self)@, old(wire)@, k),
                first_index(old(self)@, k) < 0,
                wire@.len() <= n0,
                wire@ == old(wire)@.skip(n0 - wire@.len()),
                read_outcome(self@, wire@, k).0 == o0.0,
                read_outcome(self@, wire@, k).1 == o0.1,
                o0.2 == (n0 - wire@.len()) + read_outcome(self@, wire@, k).2,
            decreases wire@.len(),
        {
            let ghost w = wire@;
            let msg = wire.remove(0);
            assert(wire@ =~= w.drop_first());
            assert(wire@ =~= old(wire)@.skip(n0 - wire@.len()));
            let claimed = self.offer(k, msg);
            if claimed.is_some() {
                return claimed;
            }
        }
        None
    }
}

} // verus!
