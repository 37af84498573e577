//! The ordered log of recorded actions: append at the tail, snapshot,
//! bulk clear, front-pruning, tail-bounded retention, and rendering of the
//! newest entries.

use vstd::prelude::*;

use crate::event::{Action, AllocError, Block, Kind, Layout};
use crate::render::action_text;

verus! {

/// The ordered sequence of recorded actions, oldest at the front, newest at
/// the back. Mutation is append-at-tail or bulk removal only; entries are
/// never edited in place.
pub struct History {
    entries: Vec<Action>,
}

impl View for History {
    type V = Seq<Action>;

    closed spec fn view(&self) -> Seq<Action> {
        self.entries@
    }
}

/// How many entries an operation given `n` touches in a log of length `len`:
/// `n` itself, or the whole log when it holds fewer than `n` entries.
pub open spec fn clamped(n: int, len: int) -> int {
    if n <= len {
        n
    } else {
        len
    }
}

/// The action a recording step appends for an operation `kind` on `layout`
/// whose outcome was `outcome`: the address is present exactly when the
/// outcome is a success.
pub open spec fn recorded_action(
    kind: Kind,
    layout: Layout,
    outcome: Result<Block, AllocError>,
) -> Action {
    Action {
        addr: match outcome {
            Ok(b) => Some(b.addr),
            Err(_) => None,
        },
        layout,
        kind,
    }
}

impl History {
    /// An empty log.
    pub fn new() -> (h: History)
        ensures
            h@ == Seq::<Action>::empty(),
    {
        History { entries: Vec::new() }
    }

    /// The number of recorded entries.
    pub fn len(&self) -> (n: usize)
        ensures
            n == self@.len(),
    {
        self.entries.len()
    }

    /// Appends one action at the tail; every entry already in the log keeps
    /// its position and value.
    pub fn append(&mut self, a: Action)
        ensures
            final(self)@ == old(self)@.push(a),
    {
        self.entries.push(a);
    }

    /// Records the outcome of one intercepted call and hands the outcome
    /// back unchanged. The appended action carries the given kind and
    /// layout, and an address exactly when the outcome is a success.
    pub fn record(
        &mut self,
        kind: Kind,
        layout: Layout,
        outcome: Result<Block, AllocError>,
    ) -> (r: Result<Block, AllocError>)
        ensures
            r == outcome,
            final(self)@ == old(self)@.push(recorded_action(kind, layout, outcome)),
            final(self)@.last() == recorded_action(kind, layout, outcome),
            final(self)@.last().addr is Some <==> outcome is Ok,
            outcome matches Ok(b) ==> final(self)@.last().addr == Some(b.addr),
            final(self)@.last().layout == layout,
            final(self)@.last().kind == kind,
    {
        let addr = match &outcome {
            Ok(b) => Some(b.addr),
            Err(_) => None,
        };
        self.append(Action { addr, layout, kind });
        outcome
    }

    /// A read-only copy of the entries, oldest first.
    pub fn snapshot(&self) -> (r: Vec<Action>)
        ensures
            r@ == self@,
    {
        let len = self.entries.len();
        let mut v: Vec<Action> = Vec::new();
        let mut i: usize = 0;
        while i < len
            invariant
                i <= len,
                len == self@.len(),
                v@ == self@.take(i as int),
            decreases len - i,
        {
            v.push(self.entries[i]);
            proof {
                assert(v@ =~= self@.take(i as int + 1));
            }
            i = i + 1;
        }
        proof {
            assert(v@ =~= self@);
        }
        v
    }

    /// Removes all entries unconditionally.
    pub fn clear(&mut self)
        ensures
            final(self)@ == Seq::<Action>::empty(),
            final(self)@.len() == 0,
    {
        self.entries.clear();
    }

    /// The entries from position `k` to the tail, in order.
    fn tail_from(&self, k: usize) -> (r: Vec<Action>)
        requires
            k <= self@.len(),
        ensures
            r@ == self@.skip(k as int),
    {
        let len = self.entries.len();
        let mut v: Vec<Action> = Vec::new();
        let mut i: usize = k;
        while i < len
            invariant
                k <= i <= len,
                len == self@.len(),
                v@ == self@.subrange(k as int, i as int),
            decreases len - i,
        {
            v.push(self.entries[i]);
            proof {
                assert(v@ =~= self@.subrange(k as int, i as int + 1));
            }
            i = i + 1;
        }
        proof {
            assert(v@ =~= self@.skip(k as int));
        }
        v
    }

    /// Removes the oldest `n` entries; when the log holds no more than `n`,
    /// this empties it entirely.
    pub fn pop_front_n(&mut self, n: usize)
        ensures
            final(self)@ == old(self)@.skip(clamped(n as int, old(self)@.len() as int)),
            final(self)@.len() == old(self)@.len() - clamped(n as int, old(self)@.len() as int),
    {
        let len = self.entries.len();
        let k = if n < len {
            n
        } else {
            len
        };
        let v = self.tail_from(k);
        self.entries = v;
    }

    /// Retains only the newest `n` entries, discarding everything older; a
    /// log of no more than `n` entries is left unchanged.
    pub fn shrink_to_last_n(&mut self, n: usize)
        ensures
            final(self)@ == old(self)@.skip(
                old(self)@.len() - clamped(n as int, old(self)@.len() as int),
            ),
            final(self)@.len() == clamped(n as int, old(self)@.len() as int),
    {
        let len = self.entries.len();
        if n < len {
            let v = self.tail_from(len - n);
            self.entries = v;
        } else {
            proof {
                assert(self@.skip(0) =~= self@);
            }
        }
    }

    /// Renders the `min(n, length)` newest entries, newest first; it never
    /// yields more, and an empty log or `n == 0` yields nothing.
    pub fn dump_n(&self, n: usize) -> (r: Vec<String>)
        ensures
            r@.len() == clamped(n as int, self@.len() as int),
            forall|i: int|
                0 <= i < r@.len() ==> (#[trigger] r@[i])@ == action_text(
                    self@[self@.len() - 1 - i],
                ),
    {
        let len = self.entries.len();
        let k = if n < len {
            n
        } else {
            len
        };
        let mut out: Vec<String> = Vec::new();
        let mut i: usize = 0;
        while i < k
            invariant
                i <= k <= len,
                len == self@.len(),
                out@.len() == i,
                forall|j: int|
                    0 <= j < i ==> (#[trigger] out@[j])@ == action_text(self@[len - 1 - j]),
            decreases k - i,
        {
            let a = self.entries[len - 1 - i];
            out.push(a.render());
            i = i + 1;
        }
        out
    }

    /// Renders every entry, newest first.
    pub fn dump_all(&self) -> (r: Vec<String>)
        ensures
            r@.len() == self@.len(),
            forall|i: int|
                0 <= i < r@.len() ==> (#[trigger] r@[i])@ == action_text(
                    self@[self@.len() - 1 - i],
                ),
    {
        let len = self.entries.len();
        self.dump_n(len)
    }
}

/// Law: appending a recorded action rewrites nothing. Every entry already in
/// the log keeps its position and value, and the log grows by exactly one:
/// no recorded append is lost, and entries recorded earlier keep their order
/// relative to each other, whichever handles the appends came through.
pub proof fn lemma_append_preserves_log(log: Seq<Action>, a: Action)
    ensures
        log.push(a).len() == log.len() + 1,
        forall|i: int| 0 <= i < log.len() ==> log.push(a)[i] == log[i],
        log.push(a)[log.len() as int] == a,
{
}

} // verus!
