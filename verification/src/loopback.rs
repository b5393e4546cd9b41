//! Loopback device and queue contracts.
//!
//! The loopback path is a deterministic, fixed-capacity host-mode device
//! boundary. It validates capability rights, packet metadata, loopback-only
//! addressing, and trace/redaction invariants before queueing packets.

use crate::packet::PacketBuffer;
use crate::slots::{
    lemma_ring_advance, lemma_ring_pop, lemma_ring_push, lemma_ring_shrink, set_slot, vacant_array, ring_next_head, ring_slot, ring_view, ring_wf};
use crate::{
    empty_trace, label_check, sat_add, validate_network_label, NetworkError, NetworkResult, NetworkRights,
    TraceContext, NETWORK_RIGHT_LOOPBACK, NETWORK_RIGHT_RECEIVE, NETWORK_RIGHT_SEND,
};
use vstd::prelude::*;

verus! {

/// Built-in loopback device label.
pub const LOOPBACK_DEVICE_LABEL: &'static str = "loopback0";

/// Maximum loopback device label length.
pub const MAX_LOOPBACK_LABEL_LEN: usize = 64;

/// Module boundary descriptor.
#[derive(Debug, Eq, PartialEq)]
pub struct LoopbackDescriptor<'a> {
    /// Human-readable descriptor name.
    pub name: &'a str,
    /// Descriptor version.
    pub version: u32,
}

impl<'a> Clone for LoopbackDescriptor<'a> {
    /// Copies the descriptor: same name and version.
    fn clone(&self) -> (r: Self)
        ensures
            r == *self,
    {
        LoopbackDescriptor { name: self.name, version: self.version }
    }
}

impl<'a> LoopbackDescriptor<'a> {
    /// Creates a loopback descriptor.
    pub fn new(name: &'a str, version: u32) -> (r: Self)
        ensures
            r.name == name,
            r.version == version,
    {
        LoopbackDescriptor { name, version }
    }
}

/// Loopback device lifecycle state.
#[derive(Clone, Copy, Debug, Eq, PartialEq, Structural)]
pub enum LoopbackState {
    /// Device is not accepting packets.
    Down,
    /// Device is accepting packets.
    Up,
    /// Device faulted.
    Faulted,
    /// Device is sealed against further mutation.
    Sealed,
}

impl LoopbackState {
    /// The error a device in this state answers to packet I/O: `Sealed` for
    /// a sealed device, `DeviceUnavailable` for a down or faulted one.
    pub open spec fn io_refusal(self) -> NetworkError {
        match self {
            LoopbackState::Sealed => NetworkError::Sealed,
            LoopbackState::Faulted => NetworkError::DeviceUnavailable,
            LoopbackState::Down => NetworkError::DeviceUnavailable,
            LoopbackState::Up => NetworkError::Internal,
        }
    }

    /// Stable state label.
    pub fn label(self) -> (r: &'static str)
        ensures
            r@ == match self {
                LoopbackState::Down => "down"@,
                LoopbackState::Up => "up"@,
                LoopbackState::Faulted => "faulted"@,
                LoopbackState::Sealed => "sealed"@,
            },
    {
        match self {
            LoopbackState::Down => "down",
            LoopbackState::Up => "up",
            LoopbackState::Faulted => "faulted",
            LoopbackState::Sealed => "sealed",
        }
    }

    /// Returns `true` when packet I/O is allowed.
    pub fn allows_io(self) -> (r: bool)
        ensures
            r == self is Up,
    {
        matches!(self, LoopbackState::Up)
    }
}

/// Loopback queue statistics.
#[derive(Clone, Copy, Debug, Default, Eq, PartialEq)]
pub struct LoopbackStats {
    /// Packets accepted by the queue.
    pub packets_sent: u64,
    /// Packets removed from the queue.
    pub packets_received: u64,
    /// Payload bytes accepted by the queue.
    pub bytes_sent: u64,
    /// Payload bytes removed from the queue.
    pub bytes_received: u64,
    /// Packets dropped because the queue was full or unavailable.
    pub drops: u64,
}

/// The counters of a fresh queue.
pub open spec fn zero_loopback_stats() -> LoopbackStats {
    LoopbackStats { packets_sent: 0, packets_received: 0, bytes_sent: 0, bytes_received: 0, drops: 0 }
}

/// Fixed-capacity loopback packet queue.
#[derive(Debug, Eq, PartialEq)]
pub struct LoopbackQueue<'a, const N: usize> {
    state: LoopbackState,
    slots: [Option<PacketBuffer<'a>>; N],
    head: usize,
    len: usize,
    stats: LoopbackStats,
}

impl<'a, const N: usize> View for LoopbackQueue<'a, N> {
    type V = Seq<PacketBuffer<'a>>;

    /// The queued packets, oldest first.
    closed spec fn view(&self) -> Seq<PacketBuffer<'a>> {
        ring_view(self.slots@, self.head as int, self.len as int)
    }
}

impl<'a, const N: usize> LoopbackQueue<'a, N> {
    /// The device state.
    pub closed spec fn spec_state(&self) -> LoopbackState {
        self.state
    }

    /// The backing slots.
    pub closed spec fn slot_view(&self) -> Seq<Option<PacketBuffer<'a>>> {
        self.slots@
    }

    /// The slot that holds the oldest packet.
    pub closed spec fn head_slot(&self) -> int {
        self.head as int
    }

    /// The queue counters.
    pub closed spec fn spec_stats(&self) -> LoopbackStats {
        self.stats
    }

    /// Well-formed queue, kept by every value of the type: the queued
    /// packets occupy consecutive ring slots from the head, and every queued
    /// packet validates and travels between loopback addresses.
    #[verifier::type_invariant]
    pub closed spec fn wf(&self) -> bool {
        &&& ring_wf(self.slots@, self.head as int, self.len as int)
        &&& forall|i: int|
            0 <= i < self@.len() ==> (#[trigger] self@[i]).spec_validate() is Ok
                && self@[i].spec_is_loopback_path()
    }

    /// `post` holds the same packets in the same slots, in the same state, as
    /// `self`.
    pub open spec fn same_contents(self, post: Self) -> bool {
        &&& post@ == self@
        &&& post.slot_view() == self.slot_view()
        &&& post.head_slot() == self.head_slot()
        &&& post.spec_state() == self.spec_state()
    }

    /// `post` is `self` with one more drop counted.
    pub open spec fn dropped(self, post: Self) -> bool {
        &&& self.same_contents(post)
        &&& post.spec_stats() == (LoopbackStats {
            drops: sat_add(self.spec_stats().drops, 1),
            ..self.spec_stats()
        })
    }

    /// What `enqueue` does, checks in this order: the send and loopback
    /// rights (refusal changes nothing), a device that is not up (refused and
    /// counted as a drop), the packet's validation (refusal changes nothing),
    /// a non-loopback packet and a full queue (refused and counted as drops);
    /// otherwise the packet is stored after the last queued one.
    pub open spec fn enqueued(self, post: Self, rights: NetworkRights, packet: PacketBuffer<'a>, r: NetworkResult<()>) -> bool {
        let gate = rights.spec_require(NetworkRights(NETWORK_RIGHT_SEND | NETWORK_RIGHT_LOOPBACK));
        if gate is Err {
            r == gate && post == self
        } else if !(self.spec_state() is Up) {
            r == Err::<(), NetworkError>(self.spec_state().io_refusal()) && self.dropped(post)
        } else if packet.spec_validate() is Err {
            r == packet.spec_validate() && post == self
        } else if !packet.spec_is_loopback_path() {
            r == Err::<(), NetworkError>(NetworkError::LoopbackOnly) && self.dropped(post)
        } else if self@.len() == N {
            r == Err::<(), NetworkError>(NetworkError::CapacityExceeded) && self.dropped(post)
        } else {
            &&& r == Ok::<(), NetworkError>(())
            &&& post@ == self@.push(packet)
            &&& post.slot_view() == self.slot_view().update(
                ring_slot(self.head_slot(), self@.len() as int, N as int),
                Some(packet),
            )
            &&& post.head_slot() == self.head_slot()
            &&& post.spec_state() == self.spec_state()
            &&& post.spec_stats() == (LoopbackStats {
                packets_sent: sat_add(self.spec_stats().packets_sent, 1),
                bytes_sent: sat_add(self.spec_stats().bytes_sent, packet.payload_len as u64),
                ..self.spec_stats()
            })
        }
    }

    /// What `dequeue` does, checks in this order: the receive and loopback
    /// rights, a device that is not up, an empty queue (each refusal changes
    /// nothing); otherwise the oldest packet leaves its slot and is returned.
    pub open spec fn dequeued(self, post: Self, rights: NetworkRights, r: NetworkResult<PacketBuffer<'a>>) -> bool {
        let gate = rights.spec_require(NetworkRights(NETWORK_RIGHT_RECEIVE | NETWORK_RIGHT_LOOPBACK));
        if gate is Err {
            r == Err::<PacketBuffer<'a>, NetworkError>(gate->Err_0) && post == self
        } else if !(self.spec_state() is Up) {
            r == Err::<PacketBuffer<'a>, NetworkError>(self.spec_state().io_refusal()) && post == self
        } else if self@.len() == 0 {
            r == Err::<PacketBuffer<'a>, NetworkError>(NetworkError::PacketUnavailable) && post
                == self
        } else {
            &&& r == Ok::<PacketBuffer<'a>, NetworkError>(self@[0])
            &&& post@ == self@.drop_first()
            &&& post.slot_view() == self.slot_view().update(self.head_slot(), None)
            &&& post.head_slot() == ring_next_head(self.head_slot(), self@.len() as int, N as int)
            &&& post.spec_state() == self.spec_state()
            &&& post.spec_stats() == (LoopbackStats {
                packets_received: sat_add(self.spec_stats().packets_received, 1),
                bytes_received: sat_add(self.spec_stats().bytes_received, self@[0].payload_len as u64),
                ..self.spec_stats()
            })
        }
    }

    /// Creates an empty loopback queue in the `Up` state.
    pub fn new() -> (r: Self)
        ensures
            r.spec_state() == LoopbackState::Up,
            r@.len() == 0,
            r.head_slot() == 0,
            r.slot_view() == Seq::new(N as nat, |i: int| None::<PacketBuffer<'a>>),
            r.spec_stats() == zero_loopback_stats(),
    {
        let r = LoopbackQueue {
            state: LoopbackState::Up,
            slots: vacant_array(),
            head: 0,
            len: 0,
            stats: LoopbackStats {
                packets_sent: 0,
                packets_received: 0,
                bytes_sent: 0,
                bytes_received: 0,
                drops: 0,
            },
        };
        assert(r@ =~= Seq::<PacketBuffer<'a>>::empty());
        r
    }

    /// Creates an empty loopback queue in the `Down` state.
    pub fn down() -> (r: Self)
        ensures
            r.spec_state() == LoopbackState::Down,
            r@.len() == 0,
            r.head_slot() == 0,
            r.slot_view() == Seq::new(N as nat, |i: int| None::<PacketBuffer<'a>>),
            r.spec_stats() == zero_loopback_stats(),
    {
        let r = LoopbackQueue {
            state: LoopbackState::Down,
            slots: vacant_array(),
            head: 0,
            len: 0,
            stats: LoopbackStats {
                packets_sent: 0,
                packets_received: 0,
                bytes_sent: 0,
                bytes_received: 0,
                drops: 0,
            },
        };
        assert(r@ =~= Seq::<PacketBuffer<'a>>::empty());
        r
    }

    /// Returns queue state.
    pub fn state(&self) -> (r: LoopbackState)
        ensures
            r == self.spec_state(),
    {
        self.state
    }

    /// Returns active packet count.
    pub fn len(&self) -> (r: usize)
        ensures
            r == self@.len(),
    {
        proof {
            use_type_invariant(self);
        }
        self.len
    }

    /// Returns `true` when the queue is empty.
    pub fn is_empty(&self) -> (r: bool)
        ensures
            r == (self@.len() == 0),
    {
        proof {
            use_type_invariant(self);
        }
        self.len == 0
    }

    /// Returns queue capacity.
    pub fn capacity(&self) -> (r: usize)
        ensures
            r == N,
    {
        N
    }

    /// Returns queue statistics.
    pub fn stats(&self) -> (r: LoopbackStats)
        ensures
            r == self.spec_stats(),
    {
        self.stats
    }

    /// Returns all backing slots.
    pub fn slots(&self) -> (r: &[Option<PacketBuffer<'a>>; N])
        ensures
            r@ == self.slot_view(),
    {
        &self.slots
    }

    /// Brings the queue up: needs the loopback right, and a sealed queue stays
    /// sealed.
    pub fn bring_up(&mut self, rights: NetworkRights) -> (r: NetworkResult<()>)
        ensures
            rights.spec_require(NetworkRights(NETWORK_RIGHT_LOOPBACK)) is Err ==> {
                &&& r == rights.spec_require(NetworkRights(NETWORK_RIGHT_LOOPBACK))
                &&& *final(self) == *old(self)
            },
            rights.spec_require(NetworkRights(NETWORK_RIGHT_LOOPBACK)) is Ok
                && old(self).spec_state() is Sealed ==> {
                &&& r == Err::<(), NetworkError>(NetworkError::Sealed)
                &&& *final(self) == *old(self)
            },
            rights.spec_require(NetworkRights(NETWORK_RIGHT_LOOPBACK)) is Ok
                && !(old(self).spec_state() is Sealed) ==> {
                &&& r == Ok::<(), NetworkError>(())
                &&& final(self).spec_state() == LoopbackState::Up
                &&& final(self)@ == old(self)@
                &&& final(self).slot_view() == old(self).slot_view()
                &&& final(self).head_slot() == old(self).head_slot()
                &&& final(self).spec_stats() == old(self).spec_stats()
            },
            old(self).spec_state() is Sealed ==> final(self).spec_state() is Sealed,
    {
        proof {
            use_type_invariant(&*self);
        }
        rights.require(NetworkRights(NETWORK_RIGHT_LOOPBACK))?;
        if matches!(self.state, LoopbackState::Sealed) {
            return Err(NetworkError::Sealed);
        }
        self.state = LoopbackState::Up;
        Ok(())
    }

    /// Seals the queue against further I/O: needs the loopback right.
    pub fn seal(&mut self, rights: NetworkRights) -> (r: NetworkResult<()>)
        ensures
            r == rights.spec_require(NetworkRights(NETWORK_RIGHT_LOOPBACK)),
            r is Err ==> *final(self) == *old(self),
            r is Ok ==> {
                &&& final(self).spec_state() == LoopbackState::Sealed
                &&& final(self)@ == old(self)@
                &&& final(self).slot_view() == old(self).slot_view()
                &&& final(self).head_slot() == old(self).head_slot()
                &&& final(self).spec_stats() == old(self).spec_stats()
            },
            old(self).spec_state() is Sealed ==> final(self).spec_state() is Sealed,
    {
        proof {
            use_type_invariant(&*self);
        }
        rights.require(NetworkRights(NETWORK_RIGHT_LOOPBACK))?;
        self.state = LoopbackState::Sealed;
        Ok(())
    }

    /// Enqueues a loopback packet.
    pub fn enqueue(&mut self, rights: NetworkRights, packet: PacketBuffer<'a>) -> (r: NetworkResult<
        (),
    >)
        ensures
            old(self).enqueued(*final(self), rights, packet, r),
            old(self).spec_state() is Sealed ==> final(self).spec_state() is Sealed && r is Err,
    {
        proof {
            use_type_invariant(&*self);
        }
        rights.require(NetworkRights(NETWORK_RIGHT_SEND | NETWORK_RIGHT_LOOPBACK))?;
        if !self.state.allows_io() {
            self.stats.drops = self.stats.drops.saturating_add(1);
            return match self.state {
                LoopbackState::Sealed => Err(NetworkError::Sealed),
                LoopbackState::Faulted => Err(NetworkError::DeviceUnavailable),
                LoopbackState::Down => Err(NetworkError::DeviceUnavailable),
                LoopbackState::Up => Err(NetworkError::Internal),
            };
        }
        packet.validate()?;
        if !packet.source.is_loopback() || !packet.destination.is_loopback() {
            self.stats.drops = self.stats.drops.saturating_add(1);
            return Err(NetworkError::LoopbackOnly);
        }
        if self.len == N {
            self.stats.drops = self.stats.drops.saturating_add(1);
            return Err(NetworkError::CapacityExceeded);
        }
        if N == 0 {
            self.stats.drops = self.stats.drops.saturating_add(1);
            return Err(NetworkError::CapacityExceeded);
        }
        let tail = if self.len < N - self.head {
            self.head + self.len
        } else {
            self.len - (N - self.head)
        };
        let ghost old_view = self@;
        proof {
            let s2 = self.slots@.update(tail as int, Some(packet));
            lemma_ring_push(self.slots@, self.head as int, self.len as int, packet);
            lemma_ring_shrink(s2, self.head as int, self.len as int + 1);
            assert(old_view.push(packet).drop_last() =~= old_view);
            assert forall|i: int| 0 <= i < old_view.len() + 1 implies (#[trigger] old_view.push(
                packet,
            )[i]).spec_validate() is Ok && old_view.push(packet)[i].spec_is_loopback_path() by {
                if i < old_view.len() {
                    assert(old_view.push(packet)[i] == old_view[i]);
                }
            }
        }
        set_slot(&mut self.slots, tail, Some(packet));
        self.len += 1;
        self.stats.packets_sent = self.stats.packets_sent.saturating_add(1);
        self.stats.bytes_sent = self.stats.bytes_sent.saturating_add(packet.payload_len as u64);
        Ok(())
    }

    /// Dequeues one loopback packet; a returned packet always validates and
    /// travels between loopback addresses.
    pub fn dequeue(&mut self, rights: NetworkRights) -> (r: NetworkResult<PacketBuffer<'a>>)
        ensures
            old(self).dequeued(*final(self), rights, r),
            r matches Ok(p) ==> p.spec_validate() is Ok && p.spec_is_loopback_path(),
            old(self).spec_state() is Sealed ==> final(self).spec_state() is Sealed && r is Err,
    {
        proof {
            use_type_invariant(&*self);
        }
        rights.require(NetworkRights(NETWORK_RIGHT_RECEIVE | NETWORK_RIGHT_LOOPBACK))?;
        if !self.state.allows_io() {
            return match self.state {
                LoopbackState::Sealed => Err(NetworkError::Sealed),
                LoopbackState::Faulted => Err(NetworkError::DeviceUnavailable),
                LoopbackState::Down => Err(NetworkError::DeviceUnavailable),
                LoopbackState::Up => Err(NetworkError::Internal),
            };
        }
        if self.len == 0 || N == 0 {
            return Err(NetworkError::PacketUnavailable);
        }
        let ghost old_view = self@;
        proof {
            lemma_ring_pop(self.slots@, self.head as int, self.len as int);
            lemma_ring_shrink(self.slots@, self.head as int, self.len as int);
            lemma_ring_advance(self.slots@, self.head as int, self.len as int);
            assert forall|i: int| 0 <= i < old_view.len() - 1 implies ((#[trigger] old_view.drop_last()[i]).spec_validate() is Ok
                && old_view.drop_last()[i].spec_is_loopback_path()) && ((#[trigger] old_view.drop_first()[i]).spec_validate() is Ok
                && old_view.drop_first()[i].spec_is_loopback_path()) by {
                assert(old_view.drop_last()[i] == old_view[i]);
                assert(old_view.drop_first()[i] == old_view[i + 1]);
            }
            assert(old_view[0].spec_validate() is Ok);
        }
        let old_head = self.head;
        let packet = match self.slots[old_head] {
            Some(packet) => packet,
            None => {
                return Err(NetworkError::PacketUnavailable);
            },
        };
        self.len -= 1;
        self.head = if self.len == 0 {
            0
        } else if old_head + 1 < N {
            old_head + 1
        } else {
            0
        };
        set_slot(&mut self.slots, old_head, None);
        self.stats.packets_received = self.stats.packets_received.saturating_add(1);
        self.stats.bytes_received = self.stats.bytes_received.saturating_add(
            packet.payload_len as u64,
        );
        Ok(packet)
    }
}

impl<'a, const N: usize> Clone for LoopbackQueue<'a, N> {
    /// Copies the queue: same state, slots, head, length and counters.
    fn clone(&self) -> (r: Self)
        ensures
            r == *self,
    {
        proof {
            use_type_invariant(self);
        }
        LoopbackQueue {
            state: self.state,
            slots: self.slots,
            head: self.head,
            len: self.len,
            stats: self.stats,
        }
    }
}

impl<'a, const N: usize> Default for LoopbackQueue<'a, N> {
    fn default() -> (r: Self)
        ensures
            r.spec_state() == LoopbackState::Up,
            r@.len() == 0,
            r.head_slot() == 0,
            r.slot_view() == Seq::new(N as nat, |i: int| None::<PacketBuffer<'a>>),
            r.spec_stats() == zero_loopback_stats(),
    {
        Self::new()
    }
}

/// Host-mode loopback device wrapper.
#[derive(Debug, Eq, PartialEq)]
pub struct LoopbackDevice<'a, const N: usize> {
    /// Device label.
    pub label: &'a str,
    /// Packet queue.
    pub queue: LoopbackQueue<'a, N>,
    /// Trace context.
    pub trace: TraceContext,
}

impl<'a, const N: usize> Clone for LoopbackDevice<'a, N> {
    /// Copies the device: same label, queue and trace.
    fn clone(&self) -> (r: Self)
        ensures
            r == *self,
    {
        LoopbackDevice { label: self.label, queue: self.queue.clone(), trace: self.trace }
    }
}

impl<'a, const N: usize> LoopbackDevice<'a, N> {
    /// What `validate` answers: the label, then the trace.
    pub open spec fn spec_validate(&self) -> NetworkResult<()> {
        if label_check(self.label, MAX_LOOPBACK_LABEL_LEN) is Err {
            label_check(self.label, MAX_LOOPBACK_LABEL_LEN)
        } else {
            self.trace.spec_validate()
        }
    }

    /// Creates a loopback device.
    pub fn new(label: &'a str) -> (r: Self)
        ensures
            r.label == label,
            r.trace == empty_trace(),
            r.queue.spec_state() == LoopbackState::Up,
            r.queue@.len() == 0,
            r.queue.head_slot() == 0,
            r.queue.slot_view() == Seq::new(N as nat, |i: int| None::<PacketBuffer<'a>>),
            r.queue.spec_stats() == zero_loopback_stats(),
    {
        LoopbackDevice {
            label,
            queue: LoopbackQueue::new(),
            trace: TraceContext { trace_id: 0, span_id: 0, parent_span_id: 0, flags: 0 },
        }
    }

    /// Creates the built-in loopback device.
    pub fn builtin() -> (r: Self)
        ensures
            r.label@ == LOOPBACK_DEVICE_LABEL@,
            r.trace == empty_trace(),
            r.queue.spec_state() == LoopbackState::Up,
            r.queue@.len() == 0,
            r.queue.head_slot() == 0,
            r.queue.slot_view() == Seq::new(N as nat, |i: int| None::<PacketBuffer<'a>>),
            r.queue.spec_stats() == zero_loopback_stats(),
    {
        Self::new(LOOPBACK_DEVICE_LABEL)
    }

    /// Sets trace context.
    pub fn with_trace(self, trace: TraceContext) -> (r: Self)
        ensures
            r == (LoopbackDevice { trace, ..self }),
    {
        let mut d = self;
        d.trace = trace;
        d
    }

    /// Validates device metadata.
    pub fn validate(&self) -> (r: NetworkResult<()>)
        ensures
            r == self.spec_validate(),
    {
        validate_network_label(self.label, MAX_LOOPBACK_LABEL_LEN)?;
        self.trace.validate()
    }

    /// Sends a packet through the device queue: an invalid device refuses
    /// with its validation error and changes nothing; otherwise the queue
    /// enqueues the packet.
    pub fn send(&mut self, rights: NetworkRights, packet: PacketBuffer<'a>) -> (r: NetworkResult<()>)
        ensures
            final(self).label == old(self).label,
            final(self).trace == old(self).trace,
            old(self).spec_validate() is Err ==> r == old(self).spec_validate() && *final(self)
                == *old(self),
            old(self).spec_validate() is Ok ==> old(self).queue.enqueued(
                final(self).queue,
                rights,
                packet,
                r,
            ),
    {
        self.validate()?;
        self.queue.enqueue(rights, packet)
    }

    /// Receives a packet from the device queue: an invalid device refuses with
    /// its validation error and changes nothing; otherwise the queue dequeues.
    pub fn receive(&mut self, rights: NetworkRights) -> (r: NetworkResult<PacketBuffer<'a>>)
        ensures
            final(self).label == old(self).label,
            final(self).trace == old(self).trace,
            old(self).spec_validate() is Err ==> r == Err::<PacketBuffer<'a>, NetworkError>(
                old(self).spec_validate()->Err_0,
            ) && *final(self) == *old(self),
            old(self).spec_validate() is Ok ==> old(self).queue.dequeued(final(self).queue, rights, r),
    {
        self.validate()?;
        self.queue.dequeue(rights)
    }
}

/// A well-formed loopback queue never holds more packets than it has slots.
pub proof fn lemma_loopback_queue_is_bounded<'a, const N: usize>(q: LoopbackQueue<'a, N>)
    requires
        q.wf(),
    ensures
        q@.len() <= N,
        q.slot_view().len() == N,
{
}

/// Two loopback queues that agree on every observation (contents, slots,
/// head, state and counters) are the same value.
pub proof fn lemma_loopback_observations_determine<'a, const N: usize>(
    a: LoopbackQueue<'a, N>,
    b: LoopbackQueue<'a, N>,
)
    requires
        a.same_contents(b),
        a.spec_stats() == b.spec_stats(),
    ensures
        a == b,
{
    assert(a.slots =~= b.slots);
    assert(a.len == a@.len());
}

/// Enqueueing is deterministic: from one queue, with the same rights and
/// packet, `enqueue` always leaves the same queue and answers the same
/// result. So `LoopbackDevice::send` on a valid device acts exactly as
/// `enqueue` on its queue.
pub proof fn lemma_enqueue_is_deterministic<'a, const N: usize>(
    q: LoopbackQueue<'a, N>,
    post1: LoopbackQueue<'a, N>,
    post2: LoopbackQueue<'a, N>,
    rights: NetworkRights,
    packet: PacketBuffer<'a>,
    r1: NetworkResult<()>,
    r2: NetworkResult<()>,
)
    requires
        q.enqueued(post1, rights, packet, r1),
        q.enqueued(post2, rights, packet, r2),
    ensures
        post1 == post2,
        r1 == r2,
{
    lemma_loopback_observations_determine(post1, post2);
}

/// Dequeueing is deterministic: from one queue, with the same rights,
/// `dequeue` always leaves the same queue and answers the same result. So
/// `LoopbackDevice::receive` on a valid device acts exactly as `dequeue` on
/// its queue.
pub proof fn lemma_dequeue_is_deterministic<'a, const N: usize>(
    q: LoopbackQueue<'a, N>,
    post1: LoopbackQueue<'a, N>,
    post2: LoopbackQueue<'a, N>,
    rights: NetworkRights,
    r1: NetworkResult<PacketBuffer<'a>>,
    r2: NetworkResult<PacketBuffer<'a>>,
)
    requires
        q.dequeued(post1, rights, r1),
        q.dequeued(post2, rights, r2),
    ensures
        post1 == post2,
        r1 == r2,
{
    lemma_loopback_observations_determine(post1, post2);
}

/// A sealed loopback queue neither accepts nor yields packets, and stays
/// sealed whatever is asked of it: enqueue and dequeue answer `Sealed` (once
/// the caller's rights pass), and bringing it up is refused.
pub proof fn lemma_sealed_queue_is_closed<'a, const N: usize>(
    q: LoopbackQueue<'a, N>,
    post: LoopbackQueue<'a, N>,
    rights: NetworkRights,
    packet: PacketBuffer<'a>,
    r: NetworkResult<()>,
    d: NetworkResult<PacketBuffer<'a>>,
)
    requires
        q.spec_state() is Sealed,
    ensures
        q.enqueued(post, rights, packet, r) ==> post.spec_state() is Sealed && post@ == q@ && r is Err,
        q.enqueued(post, rights, packet, r) && rights.spec_require(
            NetworkRights(NETWORK_RIGHT_SEND | NETWORK_RIGHT_LOOPBACK),
        ) is Ok ==> r == Err::<(), NetworkError>(NetworkError::Sealed),
        q.dequeued(post, rights, d) ==> post == q && d is Err,
        q.dequeued(post, rights, d) && rights.spec_require(
            NetworkRights(NETWORK_RIGHT_RECEIVE | NETWORK_RIGHT_LOOPBACK),
        ) is Ok ==> d == Err::<PacketBuffer<'a>, NetworkError>(NetworkError::Sealed),
{
}

/// Loopback FIFO: enqueueing a packet on an empty, up queue and then
/// dequeueing (with sufficient rights) gives back that very packet and leaves
/// the queue empty again.
pub proof fn lemma_loopback_round_trip<'a, const N: usize>(
    q0: LoopbackQueue<'a, N>,
    q1: LoopbackQueue<'a, N>,
    q2: LoopbackQueue<'a, N>,
    rights: NetworkRights,
    packet: PacketBuffer<'a>,
    d: NetworkResult<PacketBuffer<'a>>,
)
    requires
        q0@.len() == 0,
        q0.enqueued(q1, rights, packet, Ok(())),
        q1.dequeued(q2, rights, d),
        rights.spec_require(NetworkRights(NETWORK_RIGHT_RECEIVE | NETWORK_RIGHT_LOOPBACK)) is Ok,
    ensures
        d == Ok::<PacketBuffer<'a>, NetworkError>(packet),
        q2@.len() == 0,
{
    assert(q1@ =~= seq![packet]);
}

} // verus!
