//! A network device.
use crate::bytes;
use vstd::prelude::*;
use zerocopy::IntoBytes;

verus! {

/// Feature bit of receive buffers that can be merged.
pub const VIRTIO_NET_F_MRG_RXBUF: u32 = 15;

/// Size of the header in front of a packet. The number of buffers comes behind
/// it.
pub const NET_HDR_SIZE: usize = 10;

/// Errors of the device.
#[derive(Clone, Copy, Debug, PartialEq, Eq, Structural)]
pub enum NetError {
    /// Reading a packet, or writing it to the guest, failed.
    WriteBuffer,
    RxDescriptorsExhausted,
    WaitContextDisableTap,
    WaitContextEnableTap,
}

/// This host has no settings of a tap device to check.
pub fn validate_and_configure_tap(vq_pairs: u16) -> (r: Result<(), NetError>)
    ensures
        r is Ok,
{
    Ok(())
}

/// The offload bits of a tap device for features. This host has none.
pub fn virtio_features_to_tap_offload(features: u64) -> (r: u32)
    ensures
        r == 0,
{
    0
}

/// What became of an input or output operation.
#[derive(Clone, Copy, Debug, PartialEq, Eq, Structural)]
pub enum IoOutcome {
    /// So many bytes were moved.
    Moved(usize),
    WouldBlock,
    /// There was no room for the packet.
    WriteZero,
    Failed,
}

/// The bytes of a number as the machine has them in memory: calls
/// `IntoBytes::as_bytes` of zerocopy on a `u16`. The contract claims that these
/// are the two bytes of the number, in little-endian or in big-endian order;
/// which of the two depends on the machine and is left open.
#[verifier::external_body]
fn u16_as_bytes(n: u16) -> (b: Vec<u8>)
    ensures
        b@.len() == 2,
        bytes::le_value(b@) == n || bytes::be_value(b@) == n,
{
    n.as_bytes().to_vec()
}

/// Whether `after` is `before` with the number of buffers written behind the
/// header, in the order of the machine.
pub open spec fn counted(before: Seq<u8>, after: Seq<u8>, num_buffers: u16) -> bool {
    let count = bytes::field(after, NET_HDR_SIZE as int, 2);
    &&& after.len() == before.len()
    &&& bytes::le_value(count) == num_buffers || bytes::be_value(count) == num_buffers
    &&& forall|i: int|
        0 <= i < before.len() && i != NET_HDR_SIZE && i != NET_HDR_SIZE + 1 ==> #[trigger] after[i]
            == before[i]
}

/// `before` with the two bytes of a count behind the header, in their order.
pub open spec fn with_count(before: Seq<u8>, count: Seq<u8>) -> Seq<u8> {
    before.update(NET_HDR_SIZE as int, count[0]).update(NET_HDR_SIZE + 1, count[1])
}

/// Puts the bytes of a count behind the header of a packet, in their order.
pub fn put_num_buffers(buffer: &mut [u8], count: &[u8])
    requires
        old(buffer)@.len() >= NET_HDR_SIZE + 2,
        count@.len() == 2,
    ensures
        final(buffer)@ == with_count(old(buffer)@, count@),
{
    buffer[NET_HDR_SIZE] = count[0];
    buffer[NET_HDR_SIZE + 1] = count[1];
}

/// Writes the number of buffers that a packet takes behind its header, in the
/// order of the machine. The bytes go there as [`put_num_buffers`] puts them.
pub fn set_num_buffers(buffer: &mut [u8], num_buffers: u16)
    requires
        old(buffer)@.len() >= NET_HDR_SIZE + 2,
    ensures
        counted(old(buffer)@, final(buffer)@, num_buffers),
{
    let b: Vec<u8> = u16_as_bytes(num_buffers);
    put_num_buffers(buffer, b.as_slice());
    assert(bytes::field(buffer@, NET_HDR_SIZE as int, 2) =~= b@);
}

/// What receiving with buffers that can be merged waits for.
#[derive(Clone, Copy, Debug, PartialEq, Eq, Structural)]
pub enum RxEvent {
    /// Receiving starts.
    Start,
    /// A packet was read, or there is none.
    Read(IoOutcome),
    /// So many buffers of the guest were taken, or there were not enough.
    Popped(Option<usize>),
    /// Part of the packet was written to a buffer.
    Written(IoOutcome),
    /// The buffers were given back.
    Used,
}

/// What receiving does next.
#[derive(Clone, Copy, Debug, PartialEq, Eq, Structural)]
pub enum RxStep {
    /// Read a packet from the network.
    ReadTap,
    /// Take buffers of the guest that have room for so many bytes.
    PopLength(usize),
    /// Write these bytes of the packet to the next buffer.
    WriteBuffer { from: usize, to: usize },
    /// Look at the next buffer of the guest and fill it from the network.
    FillNext,
    /// Give the guest back the buffers.
    AddUsed,
    /// Interrupt the guest if `interrupt`, and end.
    Finish { interrupt: bool, error: Option<NetError> },
}

/// Receiving with buffers that can be merged. A packet that was read and not
/// yet delivered is kept.
#[derive(Clone, Copy, Debug, PartialEq, Eq, Structural)]
pub struct MrgRx {
    /// Length of the packet that is kept.
    pub pending: u32,
    pub needs_interrupt: bool,
    /// How much of the packet was written.
    pub offset: usize,
    /// How many buffers are still to be written.
    pub buffers: usize,
}

impl MrgRx {
    pub open spec fn wf(self) -> bool {
        self.offset <= self.pending
    }

    /// Receiving goes on with what was kept.
    pub fn new(pending: u32) -> (r: Self)
        ensures
            r == (MrgRx { pending, needs_interrupt: false, offset: 0, buffers: 0 }),
            r.wf(),
    {
        MrgRx { pending, needs_interrupt: false, offset: 0, buffers: 0 }
    }

    pub open spec fn finish(self, exhausted: bool) -> RxStep {
        RxStep::Finish {
            interrupt: self.needs_interrupt,
            error: if exhausted {
                Some(NetError::RxDescriptorsExhausted)
            } else {
                None
            },
        }
    }

    fn finished(&self, exhausted: bool) -> (r: RxStep)
        ensures
            r == self.finish(exhausted),
    {
        if exhausted {
            RxStep::Finish {
                interrupt: self.needs_interrupt,
                error: Some(NetError::RxDescriptorsExhausted),
            }
        } else {
            RxStep::Finish { interrupt: self.needs_interrupt, error: None }
        }
    }

    /// Whether an event can happen: a packet is only read and buffers are only
    /// taken between packets, and no more is written than there is.
    pub open spec fn accepts(self, event: RxEvent) -> bool {
        match event {
            RxEvent::Start => self.offset == 0,
            RxEvent::Read(_) => self.offset == 0,
            RxEvent::Popped(_) => self.offset == 0,
            RxEvent::Written(outcome) => self.buffers > 0 && (outcome matches IoOutcome::Moved(n)
                ==> self.offset + n <= self.pending),
            RxEvent::Used => true,
        }
    }

    /// Write to the next buffer, or give the buffers back once all are written.
    pub open spec fn write_next(self) -> RxStep {
        if self.buffers == 0 {
            RxStep::AddUsed
        } else {
            RxStep::WriteBuffer { from: self.offset, to: self.pending as usize }
        }
    }

    fn next_write(&self) -> (r: RxStep)
        ensures
            r == self.write_next(),
    {
        if self.buffers == 0 {
            RxStep::AddUsed
        } else {
            RxStep::WriteBuffer { from: self.offset, to: self.pending as usize }
        }
    }

    /// The state after an event, and what is done then. Without buffers the
    /// packet is kept; once it is delivered the next one is read.
    pub open spec fn stepped(self, event: RxEvent) -> (MrgRx, RxStep) {
        match event {
            RxEvent::Start => (
                self,
                if self.pending == 0 {
                    RxStep::ReadTap
                } else {
                    RxStep::PopLength(self.pending as usize)
                },
            ),
            RxEvent::Read(IoOutcome::Moved(n)) => (
                MrgRx { pending: n as u32, ..self },
                if n as u32 == 0 {
                    self.finish(false)
                } else {
                    RxStep::PopLength((n as u32) as usize)
                },
            ),
            RxEvent::Read(IoOutcome::WouldBlock) => (self, self.finish(false)),
            RxEvent::Popped(None) => (self, self.finish(true)),
            RxEvent::Popped(Some(n)) => {
                let after = MrgRx { buffers: n, ..self };
                (after, after.write_next())
            },
            RxEvent::Written(IoOutcome::Moved(n)) => {
                let after = MrgRx {
                    offset: (self.offset + n) as usize,
                    buffers: (self.buffers - 1) as usize,
                    ..self
                };
                (after, after.write_next())
            },
            RxEvent::Used => (
                MrgRx { pending: 0, needs_interrupt: true, offset: 0, buffers: 0 },
                RxStep::ReadTap,
            ),
            _ => (
                self,
                RxStep::Finish { interrupt: false, error: Some(NetError::WriteBuffer) },
            ),
        }
    }
}

/// One step of receiving with buffers that can be merged. The packet is in
/// `buffer`; the number of buffers that it takes is written behind its header.
pub fn process_mrg_rx(state: &mut MrgRx, buffer: &mut [u8], event: RxEvent) -> (r: RxStep)
    requires
        old(state).wf(),
        old(state).accepts(event),
        old(buffer)@.len() >= NET_HDR_SIZE + 2,
    ensures
        final(state).wf(),
        (*final(state), r) == old(state).stepped(event),
        match event {
            RxEvent::Popped(Some(n)) => counted(old(buffer)@, final(buffer)@, n as u16),
            _ => final(buffer)@ == old(buffer)@,
        },
{
    match event {
        RxEvent::Start => {
            if state.pending == 0 {
                RxStep::ReadTap
            } else {
                RxStep::PopLength(state.pending as usize)
            }
        },
        RxEvent::Read(IoOutcome::Moved(n)) => {
            state.pending = n as u32;
            if state.pending == 0 {
                return state.finished(false);
            }
            RxStep::PopLength(state.pending as usize)
        },
        RxEvent::Read(IoOutcome::WouldBlock) => state.finished(false),
        RxEvent::Popped(None) => state.finished(true),
        RxEvent::Popped(Some(n)) => {
            set_num_buffers(buffer, n as u16);
            state.buffers = n;
            state.next_write()
        },
        RxEvent::Written(IoOutcome::Moved(n)) => {
            let pending: usize = state.pending as usize;
            assert(state.offset + n <= pending);
            state.offset = state.offset + n;
            state.buffers = state.buffers - 1;
            state.next_write()
        },
        RxEvent::Used => {
            state.needs_interrupt = true;
            state.pending = 0;
            state.offset = 0;
            state.buffers = 0;
            RxStep::ReadTap
        },
        _ => RxStep::Finish { interrupt: false, error: Some(NetError::WriteBuffer) },
    }
}

/// What receiving into one buffer for each packet waits for.
#[derive(Clone, Copy, Debug, PartialEq, Eq, Structural)]
pub enum FillEvent {
    /// Receiving starts.
    Start,
    /// The next buffer was filled, or there is no buffer.
    Filled(Option<IoOutcome>),
    /// The buffer was given back.
    Used,
}

/// Receiving into one buffer for each packet.
#[derive(Clone, Copy, Debug, PartialEq, Eq, Structural)]
pub struct Rx {
    pub needs_interrupt: bool,
}

impl Rx {
    pub fn new() -> (r: Self)
        ensures
            !r.needs_interrupt,
    {
        Rx { needs_interrupt: false }
    }

    /// The state after an event, and what is done then. Packets are read until
    /// there are no buffers or no packets.
    pub open spec fn stepped(self, event: FillEvent) -> (Rx, RxStep) {
        let interrupt = self.needs_interrupt;
        match event {
            FillEvent::Start => (self, RxStep::FillNext),
            FillEvent::Filled(None) => (
                self,
                RxStep::Finish { interrupt, error: Some(NetError::RxDescriptorsExhausted) },
            ),
            FillEvent::Filled(Some(IoOutcome::Moved(n))) => (
                self,
                if n as u32 > 0 {
                    RxStep::AddUsed
                } else {
                    RxStep::FillNext
                },
            ),
            FillEvent::Filled(Some(IoOutcome::Failed)) => (
                self,
                RxStep::Finish { interrupt: false, error: Some(NetError::WriteBuffer) },
            ),
            FillEvent::Filled(Some(_)) => (self, RxStep::Finish { interrupt, error: None }),
            FillEvent::Used => (Rx { needs_interrupt: true }, RxStep::FillNext),
        }
    }
}

/// One step of receiving into one buffer for each packet.
pub fn process_rx(state: &mut Rx, event: FillEvent) -> (r: RxStep)
    ensures
        (*final(state), r) == old(state).stepped(event),
{
    let interrupt: bool = state.needs_interrupt;
    match event {
        FillEvent::Start => RxStep::FillNext,
        FillEvent::Filled(None) => RxStep::Finish {
            interrupt,
            error: Some(NetError::RxDescriptorsExhausted),
        },
        FillEvent::Filled(Some(IoOutcome::Moved(n))) => {
            let bytes_written: u32 = n as u32;
            if bytes_written > 0 {
                RxStep::AddUsed
            } else {
                RxStep::FillNext
            }
        },
        FillEvent::Filled(Some(IoOutcome::Failed)) => RxStep::Finish {
            interrupt: false,
            error: Some(NetError::WriteBuffer),
        },
        FillEvent::Filled(Some(_)) => RxStep::Finish { interrupt, error: None },
        FillEvent::Used => {
            state.needs_interrupt = true;
            RxStep::FillNext
        },
    }
}

/// What sending waits for.
#[derive(Clone, Copy, Debug, PartialEq, Eq, Structural)]
pub enum TxEvent {
    /// A buffer of the guest with so many bytes was taken, or there is none.
    Popped(Option<usize>),
    /// The bytes of a buffer were sent, or should have been.
    Sent { outcome: IoOutcome, expected_count: usize },
}

/// What sending does next.
#[derive(Clone, Copy, Debug, PartialEq, Eq, Structural)]
pub enum TxStep {
    /// Send so many bytes in one operation.
    Send(usize),
    /// Give the guest back the buffer, and take the next one. `whole` is whether
    /// the packet was sent whole, which is an error otherwise.
    AddUsed { whole: bool },
    /// Interrupt the guest, and end.
    TriggerInterrupt,
}

/// One step of sending: each buffer is sent and given back, whether that
/// succeeds or not.
pub fn process_tx(event: TxEvent) -> (r: TxStep)
    ensures
        r == (match event {
            TxEvent::Popped(Some(count)) => TxStep::Send(count),
            TxEvent::Popped(None) => TxStep::TriggerInterrupt,
            TxEvent::Sent { outcome, expected_count } => TxStep::AddUsed {
                whole: outcome == IoOutcome::Moved(expected_count),
            },
        }),
{
    match event {
        TxEvent::Popped(Some(count)) => TxStep::Send(count),
        TxEvent::Popped(None) => TxStep::TriggerInterrupt,
        TxEvent::Sent { outcome, expected_count } => match outcome {
            IoOutcome::Moved(count) => TxStep::AddUsed { whole: count == expected_count },
            _ => TxStep::AddUsed { whole: false },
        },
    }
}

/// Whether receive buffers are merged, by the features that the driver accepted.
pub fn merges_rx_buffers(acked_features: u64) -> (r: bool)
    ensures
        r == (acked_features & (1u64 << VIRTIO_NET_F_MRG_RXBUF) != 0),
{
    acked_features & (1u64 << VIRTIO_NET_F_MRG_RXBUF) != 0
}

/// What is done after receiving, and what it came to. `modified` says whether
/// waiting for the network could be changed.
#[derive(Clone, Copy, Debug, PartialEq, Eq, Structural)]
pub enum TapPolling {
    Keep,
    Disable,
    Enable,
}

/// Whether waiting for the network is changed after receiving: without buffers
/// there is nothing to wait for.
pub fn polling_after_rx(result: Result<(), NetError>) -> (r: TapPolling)
    ensures
        r == (if result == Err::<(), NetError>(NetError::RxDescriptorsExhausted) {
            TapPolling::Disable
        } else {
            TapPolling::Keep
        }),
{
    match result {
        Err(NetError::RxDescriptorsExhausted) => TapPolling::Disable,
        _ => TapPolling::Keep,
    }
}

/// What receiving came to. `modified` says whether waiting could be changed,
/// where it had to be.
pub fn handle_rx_token(result: Result<(), NetError>, modified: bool) -> (r: Result<(), NetError>)
    ensures
        r == (if result == Err::<(), NetError>(NetError::RxDescriptorsExhausted) {
            if modified {
                Ok(())
            } else {
                Err(NetError::WaitContextDisableTap)
            }
        } else {
            result
        }),
{
    match result {
        Err(NetError::RxDescriptorsExhausted) => if modified {
            Ok(())
        } else {
            Err(NetError::WaitContextDisableTap)
        },
        other => other,
    }
}

/// The guest has added buffers: the network is waited for again.
pub fn polling_after_queue(tap_polling_enabled: bool) -> (r: TapPolling)
    ensures
        r == (if tap_polling_enabled {
            TapPolling::Keep
        } else {
            TapPolling::Enable
        }),
{
    if !tap_polling_enabled {
        TapPolling::Enable
    } else {
        TapPolling::Keep
    }
}

/// What adding buffers came to. `modified` says whether waiting could be
/// changed, where it had to be.
pub fn handle_rx_queue(tap_polling_enabled: bool, modified: bool) -> (r: Result<(), NetError>)
    ensures
        r == (if tap_polling_enabled || modified {
            Ok(())
        } else {
            Err::<(), NetError>(NetError::WaitContextEnableTap)
        }),
{
    if !tap_polling_enabled {
        if !modified {
            return Err(NetError::WaitContextEnableTap);
        }
    }
    Ok(())
}

/// The state after several events.
pub open spec fn received(s: MrgRx, events: Seq<RxEvent>) -> MrgRx
    decreases events.len(),
{
    if events.len() == 0 {
        s
    } else {
        received(s, events.drop_last()).stepped(events.last()).0
    }
}

/// The guest is only interrupted where it got a packet: as long as no buffers
/// were given back, receiving does not end with an interrupt.
pub proof fn interrupt_means_delivery(pending: u32, events: Seq<RxEvent>, last: RxEvent)
    requires
        forall|i: int| 0 <= i < events.len() ==> #[trigger] events[i] != RxEvent::Used,
    ensures
        ({
            let s = MrgRx { pending, needs_interrupt: false, offset: 0, buffers: 0 };
            received(s, events).stepped(last).1 matches RxStep::Finish { interrupt, error: _ }
                ==> !interrupt
        }),
{
    let s = MrgRx { pending, needs_interrupt: false, offset: 0, buffers: 0 };
    nothing_delivered(s, events);
}

proof fn nothing_delivered(s: MrgRx, events: Seq<RxEvent>)
    requires
        !s.needs_interrupt,
        forall|i: int| 0 <= i < events.len() ==> #[trigger] events[i] != RxEvent::Used,
    ensures
        !received(s, events).needs_interrupt,
    decreases events.len(),
{
    if events.len() > 0 {
        let rest = events.drop_last();
        assert forall|i: int| 0 <= i < rest.len() implies #[trigger] rest[i] != RxEvent::Used by {
            assert(rest[i] == events[i]);
        }
        nothing_delivered(s, rest);
        assert(events[events.len() - 1] != RxEvent::Used);
    }
}

/// A packet is not lost: its length stays as it is until its buffers were given
/// back, or the next packet is read.
pub proof fn packet_is_kept(s: MrgRx, event: RxEvent)
    requires
        event != RxEvent::Used,
        event !is Read,
    ensures
        s.stepped(event).0.pending == s.pending,
{
}

/// A packet is delivered from its start to its end: room is asked for all of it,
/// each buffer takes on where the one before ended, and once the last was written
/// the buffers are given back. Then the next packet is read, and the guest is to be
/// interrupted in the end.
pub proof fn packet_is_delivered_in_order(s: MrgRx, n: usize, exhausted: bool)
    ensures
        ({
            let (t, step) = s.stepped(RxEvent::Read(IoOutcome::Moved(n)));
            0 < n <= u32::MAX ==> t.pending == n && step == RxStep::PopLength(n)
        }),
        ({
            let (t, step) = s.stepped(RxEvent::Start);
            &&& t == s
            &&& s.pending > 0 ==> step == RxStep::PopLength(s.pending as usize)
            &&& s.pending == 0 ==> step == RxStep::ReadTap
        }),
        ({
            let (t, step) = s.stepped(RxEvent::Popped(Some(n)));
            &&& t.pending == s.pending && t.offset == s.offset && t.buffers == n
            &&& n > 0 ==> step == (RxStep::WriteBuffer { from: s.offset, to: s.pending as usize })
        }),
        ({
            let (t, step) = s.stepped(RxEvent::Written(IoOutcome::Moved(n)));
            s.buffers > 0 && s.offset + n <= s.pending && s.pending <= usize::MAX ==> {
                &&& t.pending == s.pending && t.offset == s.offset + n && t.buffers == s.buffers - 1
                &&& s.buffers > 1 ==> step == (RxStep::WriteBuffer {
                    from: (s.offset + n) as usize,
                    to: s.pending as usize,
                })
                &&& s.buffers == 1 ==> step == RxStep::AddUsed
            }
        }),
        ({
            let (t, step) = s.stepped(RxEvent::Used);
            &&& step == RxStep::ReadTap
            &&& t.pending == 0 && t.offset == 0
            &&& t.finish(exhausted) matches RxStep::Finish { interrupt, error } && interrupt && (
            error is Some <==> exhausted)
        }),
{
}

/// Receiving ends when there is no packet or no buffer. The guest is interrupted if
/// it got packets, and what was read and not delivered is kept; that there was no
/// buffer is told. It ends without an interrupt where the network fails.
pub proof fn receiving_ends_without_packets_or_buffers(s: MrgRx)
    ensures
        s.stepped(RxEvent::Read(IoOutcome::WouldBlock)) == (
            s,
            RxStep::Finish { interrupt: s.needs_interrupt, error: None },
        ),
        s.stepped(RxEvent::Popped(None)) == (
            s,
            RxStep::Finish {
                interrupt: s.needs_interrupt,
                error: Some(NetError::RxDescriptorsExhausted),
            },
        ),
        s.stepped(RxEvent::Read(IoOutcome::Failed)) == (
            s,
            RxStep::Finish { interrupt: false, error: Some(NetError::WriteBuffer) },
        ),
        s.stepped(RxEvent::Written(IoOutcome::Failed)) == (
            s,
            RxStep::Finish { interrupt: false, error: Some(NetError::WriteBuffer) },
        ),
{
}

/// Without merged buffers, every buffer that got a packet is given back and the
/// guest is interrupted in the end; receiving goes on until there is no packet or
/// no buffer.
pub proof fn filled_buffers_are_given_back(s: Rx, n: usize)
    ensures
        0 < n <= u32::MAX ==> s.stepped(FillEvent::Filled(Some(IoOutcome::Moved(n)))) == (
            s,
            RxStep::AddUsed,
        ),
        s.stepped(FillEvent::Start) == (s, RxStep::FillNext),
        s.stepped(FillEvent::Used).1 == RxStep::FillNext,
        s.stepped(FillEvent::Used).0.stepped(FillEvent::Filled(Some(IoOutcome::WouldBlock))).1 == (
        RxStep::Finish { interrupt: true, error: None }),
        s.stepped(FillEvent::Used).0.stepped(FillEvent::Filled(None)).1 == (RxStep::Finish {
            interrupt: true,
            error: Some(NetError::RxDescriptorsExhausted),
        }),
        s.stepped(FillEvent::Filled(Some(IoOutcome::WouldBlock))) == (
            s,
            RxStep::Finish { interrupt: s.needs_interrupt, error: None },
        ),
        s.stepped(FillEvent::Filled(Some(IoOutcome::Failed))) == (
            s,
            RxStep::Finish { interrupt: false, error: Some(NetError::WriteBuffer) },
        ),
{
}

/// The count of buffers takes the two bytes behind the ten of the header, and no
/// other byte of the packet changes.
pub proof fn count_stands_behind_the_header(before: Seq<u8>, count: Seq<u8>, i: int)
    requires
        before.len() >= 12,
        count.len() == 2,
    ensures
        with_count(before, count).len() == before.len(),
        with_count(before, count)[10] == count[0],
        with_count(before, count)[11] == count[1],
        0 <= i < before.len() && i != 10 && i != 11 ==> with_count(before, count)[i] == before[i],
{
}

} // verus!
