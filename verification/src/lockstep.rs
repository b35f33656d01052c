//! Input pairing and backpressure: each side of a match produces one `Input`
//! per tick; the queue holds both sides' not-yet-paired inputs and hands out
//! a `Pair` only when the two heads agree on the tick.

use vstd::prelude::*;

verus! {

/// One side's controller state for a single tick: the tick it was produced
/// on, the highest tick seen from the other side at that moment, the GBA
/// KEYINPUT bits, and the cartridge link payload carried alongside them.
pub struct Input {
    pub local_tick: u32,
    pub remote_tick: u32,
    pub joyflags: u16,
    pub packet: Vec<u8>,
}

/// Mathematical value of an `Input`.
pub ghost struct InputV {
    pub local_tick: u32,
    pub remote_tick: u32,
    pub joyflags: u16,
    pub packet: Seq<u8>,
}

impl View for Input {
    type V = InputV;

    open spec fn view(&self) -> InputV {
        InputV {
            local_tick: self.local_tick,
            remote_tick: self.remote_tick,
            joyflags: self.joyflags,
            packet: self.packet@,
        }
    }
}

/// Copies a byte vector; the copy has the same contents.
pub fn copy_bytes(v: &Vec<u8>) -> (r: Vec<u8>)
    ensures
        r@ == v@,
{
    let mut r: Vec<u8> = Vec::new();
    let mut i: usize = 0;
    while i < v.len()
        invariant
            i <= v.len(),
            r@ == v@.subrange(0, i as int),
        decreases v.len() - i,
    {
        r.push(v[i]);
        i = i + 1;
    }
    proof {
        assert(r@ =~= v@);
    }
    r
}

/// Whether two byte strings hold the same bytes.
pub fn bytes_eq(a: &[u8], b: &[u8]) -> (r: bool)
    ensures
        r <==> a@ == b@,
{
    if a.len() != b.len() {
        return false;
    }
    let mut i: usize = 0;
    while i < a.len()
        invariant
            i <= a@.len(),
            a@.len() == b@.len(),
            forall|j: int| 0 <= j < i ==> a@[j] == b@[j],
        decreases a@.len() - i,
    {
        if *vstd::slice::slice_index_get(a, i) != *vstd::slice::slice_index_get(b, i) {
            return false;
        }
        i = i + 1;
    }
    proof {
        assert(a@ =~= b@);
    }
    true
}

impl Clone for Input {
    fn clone(&self) -> (r: Self)
        ensures
            r@ == self@,
    {
        Input {
            local_tick: self.local_tick,
            remote_tick: self.remote_tick,
            joyflags: self.joyflags,
            packet: copy_bytes(&self.packet),
        }
    }
}

impl Input {
    /// The same input with its payload replaced.
    pub fn with_packet(self, packet: Vec<u8>) -> (r: Input)
        ensures
            r@.local_tick == self@.local_tick,
            r@.remote_tick == self@.remote_tick,
            r@.joyflags == self@.joyflags,
            r@.packet == packet@,
    {
        Input {
            local_tick: self.local_tick,
            remote_tick: self.remote_tick,
            joyflags: self.joyflags,
            packet,
        }
    }
}

/// Both sides' inputs for one tick. The engine consumes only pairs.
pub struct Pair {
    pub local: Input,
    pub remote: Input,
}

/// Mathematical value of a `Pair`.
pub ghost struct PairV {
    pub local: InputV,
    pub remote: InputV,
}

impl View for Pair {
    type V = PairV;

    open spec fn view(&self) -> PairV {
        PairV { local: self.local@, remote: self.remote@ }
    }
}

impl Clone for Pair {
    fn clone(&self) -> (r: Self)
        ensures
            r@ == self@,
    {
        Pair { local: self.local.clone(), remote: self.remote.clone() }
    }
}

/// A link payload together with the tick it belongs to.
pub struct Packet {
    pub tick: u32,
    pub packet: Vec<u8>,
}

/// Mathematical value of a `Packet`.
pub ghost struct PacketV {
    pub tick: u32,
    pub packet: Seq<u8>,
}

impl View for Packet {
    type V = PacketV;

    open spec fn view(&self) -> PacketV {
        PacketV { tick: self.tick, packet: self.packet@ }
    }
}

impl Clone for Packet {
    fn clone(&self) -> (r: Self)
        ensures
            r@ == self@,
    {
        Packet { tick: self.tick, packet: copy_bytes(&self.packet) }
    }
}

/// Refusal of `add_local_input` or `add_remote_input`: the producing side is
/// already a full window ahead of the other and must wait.
#[derive(PartialEq, Eq, Structural, Clone, Copy, Debug)]
pub enum QueueError {
    QueueFull,
}

/// The sliding window of not-yet-paired inputs for both sides.
///
/// Each side's pending inputs carry consecutive ticks; one side may run at
/// most `max_lag` ticks ahead of the other, which is the backpressure that
/// keeps a fast producer from outrunning the link.
pub struct PairQueue {
    local_pending: Vec<Input>,
    remote_pending: Vec<Input>,
    next_local_tick: u32,
    next_remote_tick: u32,
    max_lag: usize,
}

impl PairQueue {
    /// Pending local inputs as mathematical values.
    pub closed spec fn local_view(&self) -> Seq<InputV> {
        self.local_pending@.map_values(|i: Input| i@)
    }

    /// Pending remote inputs as mathematical values.
    pub closed spec fn remote_view(&self) -> Seq<InputV> {
        self.remote_pending@.map_values(|i: Input| i@)
    }

    /// Tick the next appended local input must carry.
    pub closed spec fn spec_next_local_tick(&self) -> u32 {
        self.next_local_tick
    }

    /// Tick the next appended remote input must carry.
    pub closed spec fn spec_next_remote_tick(&self) -> u32 {
        self.next_remote_tick
    }

    /// The backpressure window.
    pub closed spec fn spec_max_lag(&self) -> int {
        self.max_lag as int
    }

    /// Well-formedness: each side's pending ticks are consecutive and end
    /// just before the side's next tick.
    pub closed spec fn wf(&self) -> bool {
        &&& self.max_lag >= 1
        &&& self.local_view().len() <= self.next_local_tick
        &&& self.remote_view().len() <= self.next_remote_tick
        &&& forall|i: int|
            0 <= i < self.local_view().len() ==> #[trigger] self.local_view()[i].local_tick
                == self.next_local_tick - self.local_view().len() + i
        &&& forall|i: int|
            0 <= i < self.remote_view().len() ==> #[trigger] self.remote_view()[i].local_tick
                == self.next_remote_tick - self.remote_view().len() + i
    }

    /// An empty queue whose first input on either side must carry tick 0.
    pub fn new(max_lag: usize) -> (q: PairQueue)
        requires
            max_lag >= 1,
        ensures
            q.wf(),
            q.local_view() =~= Seq::<InputV>::empty(),
            q.remote_view() =~= Seq::<InputV>::empty(),
            q.spec_next_local_tick() == 0,
            q.spec_next_remote_tick() == 0,
            q.spec_max_lag() == max_lag,
    {
        PairQueue {
            local_pending: Vec::new(),
            remote_pending: Vec::new(),
            next_local_tick: 0,
            next_remote_tick: 0,
            max_lag,
        }
    }

    /// Appends a locally produced input. Succeeds exactly when the local side
    /// is less than `max_lag` ticks ahead of the remote side; otherwise the
    /// input is refused with `QueueFull` and nothing changes.
    pub fn add_local_input(&mut self, input: Input) -> (r: Result<(), QueueError>)
        requires
            old(self).wf(),
            input@.local_tick == old(self).spec_next_local_tick(),
            old(self).spec_next_local_tick() < u32::MAX,
        ensures
            final(self).wf(),
            r is Ok <==> old(self).local_view().len() - old(self).remote_view().len()
                < old(self).spec_max_lag(),
            r is Ok ==> {
                &&& final(self).local_view() =~= old(self).local_view().push(input@)
                &&& final(self).spec_next_local_tick() == old(self).spec_next_local_tick() + 1
            },
            r is Err ==> {
                &&& final(self).local_view() =~= old(self).local_view()
                &&& final(self).spec_next_local_tick() == old(self).spec_next_local_tick()
            },
            final(self).remote_view() =~= old(self).remote_view(),
            final(self).spec_next_remote_tick() == old(self).spec_next_remote_tick(),
            final(self).spec_max_lag() == old(self).spec_max_lag(),
    {
        if self.local_pending.len() >= self.remote_pending.len()
            && self.local_pending.len() - self.remote_pending.len() >= self.max_lag {
            return Err(QueueError::QueueFull);
        }
        self.local_pending.push(input);
        self.next_local_tick = self.next_local_tick + 1;
        proof {
            assert(self.local_view() =~= old(self).local_view().push(input@));
        }
        Ok(())
    }

    /// Appends an input received from the peer, under the symmetric window.
    pub fn add_remote_input(&mut self, input: Input) -> (r: Result<(), QueueError>)
        requires
            old(self).wf(),
            input@.local_tick == old(self).spec_next_remote_tick(),
            old(self).spec_next_remote_tick() < u32::MAX,
        ensures
            final(self).wf(),
            r is Ok <==> old(self).remote_view().len() - old(self).local_view().len()
                < old(self).spec_max_lag(),
            r is Ok ==> {
                &&& final(self).remote_view() =~= old(self).remote_view().push(input@)
                &&& final(self).spec_next_remote_tick() == old(self).spec_next_remote_tick() + 1
            },
            r is Err ==> {
                &&& final(self).remote_view() =~= old(self).remote_view()
                &&& final(self).spec_next_remote_tick() == old(self).spec_next_remote_tick()
            },
            final(self).local_view() =~= old(self).local_view(),
            final(self).spec_next_local_tick() == old(self).spec_next_local_tick(),
            final(self).spec_max_lag() == old(self).spec_max_lag(),
    {
        if self.remote_pending.len() >= self.local_pending.len()
            && self.remote_pending.len() - self.local_pending.len() >= self.max_lag {
            return Err(QueueError::QueueFull);
        }
        self.remote_pending.push(input);
        self.next_remote_tick = self.next_remote_tick + 1;
        proof {
            assert(self.remote_view() =~= old(self).remote_view().push(input@));
        }
        Ok(())
    }

    /// Whether the two heads form a pair: both sides pending and agreeing on
    /// the tick.
    pub open spec fn has_pair(&self) -> bool {
        &&& self.local_view().len() > 0
        &&& self.remote_view().len() > 0
        &&& self.local_view()[0].local_tick == self.remote_view()[0].local_tick
    }

    /// Pops the head pair if the two heads agree on the tick. Both inputs of
    /// a returned pair carry the same tick.
    pub fn consume_pair(&mut self) -> (r: Option<Pair>)
        requires
            old(self).wf(),
        ensures
            final(self).wf(),
            r is Some <==> old(self).has_pair(),
            r matches Some(p) ==> {
                &&& p@.local == old(self).local_view()[0]
                &&& p@.remote == old(self).remote_view()[0]
                &&& p@.local.local_tick == p@.remote.local_tick
                &&& final(self).local_view() =~= old(self).local_view().drop_first()
                &&& final(self).remote_view() =~= old(self).remote_view().drop_first()
            },
            r is None ==> {
                &&& final(self).local_view() =~= old(self).local_view()
                &&& final(self).remote_view() =~= old(self).remote_view()
                &&& !final(self).has_pair()
            },
            final(self).spec_next_local_tick() == old(self).spec_next_local_tick(),
            final(self).spec_next_remote_tick() == old(self).spec_next_remote_tick(),
            final(self).spec_max_lag() == old(self).spec_max_lag(),
    {
        if self.local_pending.len() == 0 || self.remote_pending.len() == 0 {
            return None;
        }
        if self.local_pending[0].local_tick != self.remote_pending[0].local_tick {
            return None;
        }
        let local = self.local_pending.remove(0);
        let remote = self.remote_pending.remove(0);
        proof {
            assert(self.local_view() =~= old(self).local_view().drop_first());
            assert(self.remote_view() =~= old(self).remote_view().drop_first());
        }
        Some(Pair { local, remote })
    }

    /// Whether the two heads currently form a pair.
    pub fn can_consume_pair(&self) -> (r: bool)
        ensures
            r == self.has_pair(),
    {
        self.local_pending.len() > 0 && self.remote_pending.len() > 0
            && self.local_pending[0].local_tick == self.remote_pending[0].local_tick
    }

    /// Copies the head pair without consuming it.
    pub fn peek_pair(&self) -> (r: Option<Pair>)
        ensures
            r is Some <==> self.has_pair(),
            r matches Some(p) ==> {
                &&& p@.local == self.local_view()[0]
                &&& p@.remote == self.remote_view()[0]
            },
    {
        if self.local_pending.len() == 0 || self.remote_pending.len() == 0 {
            return None;
        }
        if self.local_pending[0].local_tick != self.remote_pending[0].local_tick {
            return None;
        }
        Some(Pair {
            local: self.local_pending[0].clone(),
            remote: self.remote_pending[0].clone(),
        })
    }

    /// How many local inputs wait unpaired.
    pub fn local_queue_length(&self) -> (r: usize)
        ensures
            r == self.local_view().len(),
    {
        self.local_pending.len()
    }

    /// How many remote inputs wait unpaired.
    pub fn remote_queue_length(&self) -> (r: usize)
        ensures
            r == self.remote_view().len(),
    {
        self.remote_pending.len()
    }
}

} // verus!
