//! A memory balloon.
use crate::bytes;
use crate::text;
use crate::virtio;
use crate::virtio::{copy_config, TYPE_BALLOON};
use vstd::prelude::*;

verus! {

/// Size of each queue: one to inflate, one to deflate.
pub const QUEUE_SIZE: u16 = 128;

pub const NUM_QUEUES: usize = 2;

pub const VIRTIO_BALLOON_PFN_SHIFT: u32 = 12;

/// The driver tells the host before it takes pages back.
pub const VIRTIO_BALLOON_F_MUST_TELL_HOST: u32 = 0;

/// The balloon deflates when the guest runs out of memory.
pub const VIRTIO_BALLOON_F_DEFLATE_ON_OOM: u32 = 2;

/// The features of a balloon, without those of all virtio devices.
pub const BALLOON_FEATURES: u64 = 0x5;

/// Errors of a balloon.
#[derive(Clone, Copy, Debug, PartialEq, Eq, Structural)]
pub enum BalloonError {
    /// A request to adjust the size cannot provide the pages.
    NotEnoughPages,
    /// The configuration event could not be written; holds the error number.
    WritingConfigEvent(i32),
}

impl BalloonError {
    pub open spec fn text(self, cause: Seq<char>) -> Seq<char> {
        match self {
            BalloonError::NotEnoughPages => "not enough pages"@,
            BalloonError::WritingConfigEvent(_) => "failed to write config event: "@ + cause,
        }
    }

    /// The message for the error; `cause` is the text of the error below.
    pub fn message(&self, cause: &str) -> (r: String)
        ensures
            r@ == self.text(cause@),
    {
        match self {
            BalloonError::NotEnoughPages => "not enough pages".to_owned(),
            BalloonError::WritingConfigEvent(_) => text::joined(
                "failed to write config event: ",
                cause,
            ),
        }
    }
}

/// A request of the monitor.
#[derive(Clone, Copy, Debug, PartialEq, Eq, Structural)]
pub enum BalloonControlCommand {
    /// Set the size of the balloon.
    Adjust { num_bytes: u64 },
}

/// What became of a page that the guest does not use.
#[derive(Clone, Copy, Debug, PartialEq, Eq, Structural)]
pub enum PageOutcome {
    Removed,
    /// Its number could not be read.
    ReadFailed,
    /// The host could not take it.
    RemoveFailed,
}

/// The guest addresses of pages, whose numbers are 32-bit numbers in
/// little-endian order.
pub open spec fn page_addresses(data: Seq<u8>) -> Seq<u64> {
    Seq::new(
        data.len() / 4,
        |i: int| (bytes::le_value(bytes::field(data, 4 * i, 4)) * 4096) as u64,
    )
}

/// The pages of a buffer to take from the guest, in their order. There are none
/// in a buffer that cannot be read, or that does not hold whole page numbers.
pub fn inflate_pages(data: Option<&[u8]>) -> (r: Vec<u64>)
    ensures
        r@ == (if data is Some && data->0@.len() % 4 == 0 {
            page_addresses(data->0@)
        } else {
            Seq::<u64>::empty()
        }),
{
    let mut out: Vec<u64> = Vec::new();
    let data: &[u8] = match data {
        Some(d) => d,
        None => {
            return out;
        },
    };
    if data.len() % 4 != 0 {
        return out;
    }
    let num_addrs: usize = data.len() / 4;
    let mut i: usize = 0;
    while i < num_addrs
        invariant
            i <= num_addrs,
            num_addrs * 4 == data@.len(),
            out@ == page_addresses(data@).take(i as int),
        decreases num_addrs - i,
    {
        let len: usize = data.len();
        assert(4 * i + 4 <= len);
        let guest_input: u32 = bytes::le_u32_at(data, 4 * i);
        let wide: u64 = guest_input as u64;
        assert(wide << 12u32 == wide * 4096) by (bit_vector)
            requires
                wide <= 0xffff_ffff,
        ;
        out.push(wide << VIRTIO_BALLOON_PFN_SHIFT);
        i = i + 1;
        assert(out@ =~= page_addresses(data@).take(i as int));
    }
    assert(out@ =~= page_addresses(data@));
    out
}

/// Whether the next page is to be taken, after these pages were.
pub open spec fn all_removed(outcomes: Seq<PageOutcome>) -> bool {
    forall|i: int| 0 <= i < outcomes.len() ==> #[trigger] outcomes[i] == PageOutcome::Removed
}

/// Whether the buffer is given back to the guest, which is so unless a page
/// failed. Pages behind one that failed are not taken.
pub fn process_inflate(outcomes: &[PageOutcome]) -> (used: bool)
    ensures
        used == all_removed(outcomes@),
{
    let mut i: usize = 0;
    while i < outcomes.len()
        invariant
            i <= outcomes@.len(),
            all_removed(outcomes@.take(i as int)),
        decreases outcomes.len() - i,
    {
        let ok: bool = match outcomes[i] {
            PageOutcome::Removed => true,
            _ => false,
        };
        if !ok {
            assert(outcomes@[i as int] != PageOutcome::Removed);
            return false;
        }
        proof {
            assert forall|j: int| 0 <= j < i + 1 implies #[trigger] outcomes@.take(i + 1)[j]
                == PageOutcome::Removed by {
                if j < i {
                    assert(outcomes@.take(i + 1)[j] == outcomes@.take(i as int)[j]);
                }
            }
        }
        i = i + 1;
    }
    assert(outcomes@.take(i as int) =~= outcomes@);
    true
}

/// A balloon: how many pages it should have and how many it has.
#[derive(Clone, Copy, Debug, PartialEq, Eq, Structural)]
pub struct Balloon {
    pub num_pages: usize,
    pub actual_pages: usize,
    pub features: u64,
    /// Whether the command socket is here, and not with the worker.
    pub has_command_socket: bool,
    pub has_kill_evt: bool,
    pub has_worker: bool,
}

impl Balloon {
    pub fn new() -> (r: Balloon)
        ensures
            r == (Balloon {
                num_pages: 0,
                actual_pages: 0,
                features: BALLOON_FEATURES,
                has_command_socket: true,
                has_kill_evt: false,
                has_worker: false,
            }),
    {
        assert(1u64 << 0u32 | 1u64 << 2u32 == 5) by (bit_vector);
        Balloon {
            num_pages: 0,
            actual_pages: 0,
            features: 1u64 << VIRTIO_BALLOON_F_MUST_TELL_HOST | 1u64
                << VIRTIO_BALLOON_F_DEFLATE_ON_OOM,
            has_command_socket: true,
            has_kill_evt: false,
            has_worker: false,
        }
    }

    /// The configuration space: the pages that the balloon should have, and
    /// those that it has, as 32-bit numbers in little-endian order.
    pub open spec fn config(self) -> Seq<u8> {
        bytes::le_bytes(self.num_pages as u32 as nat, 4) + bytes::le_bytes(
            self.actual_pages as u32 as nat,
            4,
        )
    }

    pub fn get_config(&self) -> (r: Vec<u8>)
        ensures
            r@ == self.config(),
            r@.len() == 8,
    {
        let mut out: Vec<u8> = bytes::le_encode(self.num_pages as u32 as u64, 4);
        let actual: Vec<u8> = bytes::le_encode(self.actual_pages as u32 as u64, 4);
        bytes::append_bytes(&mut out, actual.as_slice());
        out
    }

    pub fn read_config(&self, offset: u64, data: &mut [u8])
        ensures
            final(data)@ == virtio::config_copied(old(data)@, 0, self.config(), offset as int),
    {
        let config: Vec<u8> = self.get_config();
        copy_config(data, 0, config.as_slice(), offset);
    }

    /// The balloon after a write to its configuration.
    pub open spec fn written(self, offset: u64, data: Seq<u8>) -> Balloon {
        Balloon {
            actual_pages: bytes::le_value(
                bytes::field(
                    virtio::config_copied(self.config(), offset as int, data, 0),
                    4,
                    4,
                ),
            ) as usize,
            ..self
        }
    }

    /// The driver writes to the configuration, of which only the pages that the
    /// balloon has are taken.
    pub fn write_config(&mut self, offset: u64, data: &[u8])
        ensures
            *final(self) == old(self).written(offset, data@),
    {
        let mut config: Vec<u8> = self.get_config();
        copy_config(config.as_mut_slice(), offset, data, 0);
        self.actual_pages = bytes::le_u32_at(config.as_slice(), 4) as usize;
    }

    pub fn device_type(&self) -> (r: u32)
        ensures
            r == TYPE_BALLOON,
    {
        TYPE_BALLOON
    }

    pub fn queue_max_sizes(&self) -> (r: Vec<u16>)
        ensures
            r@ == seq![QUEUE_SIZE, QUEUE_SIZE],
    {
        let mut r: Vec<u16> = Vec::new();
        r.push(QUEUE_SIZE);
        r.push(QUEUE_SIZE);
        assert(r@ =~= seq![QUEUE_SIZE, QUEUE_SIZE]);
        r
    }

    /// The features that the device offers.
    pub fn features(&self) -> (r: u64)
        ensures
            r == 0x1_0000_0005,
    {
        assert(1u64 << 0u32 | 1u64 << 2u32 | 1u64 << 32u32 == 0x1_0000_0005) by (bit_vector);
        1u64 << VIRTIO_BALLOON_F_MUST_TELL_HOST | 1u64 << VIRTIO_BALLOON_F_DEFLATE_ON_OOM | 1u64
            << virtio::VIRTIO_F_VERSION_1
    }

    pub fn ack_features(&mut self, value: u64)
        ensures
            *final(self) == (Balloon { features: old(self).features & value, ..*old(self) }),
    {
        self.features = self.features & value;
    }

    /// Handles a request of the monitor. The guest is then told that the
    /// configuration has changed.
    pub fn handle_command(&mut self, command: BalloonControlCommand)
        ensures
            *final(self) == (match command {
                BalloonControlCommand::Adjust { num_bytes } => Balloon {
                    num_pages: (num_bytes / 4096) as usize,
                    ..*old(self)
                },
            }),
    {
        match command {
            BalloonControlCommand::Adjust { num_bytes } => {
                assert(num_bytes >> 12u32 == num_bytes / 4096) by (bit_vector);
                self.num_pages = (num_bytes >> VIRTIO_BALLOON_PFN_SHIFT) as usize;
            },
        }
    }

    /// Whether an activation with so many queues and events is one for this
    /// device.
    pub fn accepts_queues(&self, queues: usize, queue_evts: usize) -> (r: bool)
        ensures
            r == (queues == NUM_QUEUES && queue_evts == NUM_QUEUES),
    {
        queues == NUM_QUEUES && queue_evts == NUM_QUEUES
    }

    /// The balloon after an activation.
    pub open spec fn activated(self, spawned: bool) -> Balloon {
        Balloon {
            has_kill_evt: true,
            has_command_socket: false,
            has_worker: self.has_worker || spawned,
            ..self
        }
    }

    /// Whether a reset succeeds.
    pub open spec fn resets(self, notified: bool, joined: bool) -> bool {
        (!self.has_kill_evt || notified) && self.has_worker && joined
    }

    /// The balloon after a reset.
    pub open spec fn after_reset(self, notified: bool, joined: bool) -> Balloon {
        Balloon {
            has_kill_evt: false,
            has_worker: self.has_worker && self.has_kill_evt && !notified,
            has_command_socket: self.has_command_socket || self.resets(notified, joined),
            ..self
        }
    }

    /// The device was activated with a worker, which takes the command socket,
    /// or the worker could not be started.
    pub fn activate(&mut self, spawned: bool)
        requires
            old(self).has_command_socket,
        ensures
            *final(self) == old(self).activated(spawned),
    {
        self.has_kill_evt = true;
        self.has_command_socket = false;
        if spawned {
            self.has_worker = true;
        }
    }

    /// Resets the device: tells the worker to stop, which writing the event
    /// does if `notified`, and gets the command socket back from it if
    /// `joined`. Without a worker there is nothing to reset.
    pub fn reset(&mut self, notified: bool, joined: bool) -> (r: bool)
        ensures
            r == old(self).resets(notified, joined),
            *final(self) == old(self).after_reset(notified, joined),
    {
        if self.has_kill_evt {
            self.has_kill_evt = false;
            if !notified {
                return false;
            }
        }
        if self.has_worker {
            self.has_worker = false;
            if !joined {
                return false;
            }
            self.has_command_socket = true;
            return true;
        }
        false
    }
}

/// A write of the driver does not change how many pages the balloon should
/// have: that part of the configuration reads as before.
pub proof fn driver_keeps_target(b: Balloon, offset: u64, data: Seq<u8>)
    ensures
        bytes::field(b.written(offset, data).config(), 0, 4) == bytes::field(b.config(), 0, 4),
{
    let after = b.written(offset, data);
    bytes::le_bytes_len(b.num_pages as u32 as nat, 4);
    bytes::le_bytes_len(b.actual_pages as u32 as nat, 4);
    bytes::le_bytes_len(after.actual_pages as u32 as nat, 4);
    assert(bytes::field(after.config(), 0, 4) =~= bytes::field(b.config(), 0, 4));
}

/// The guest reads the number of pages that the monitor asked for.
pub proof fn target_is_read_back(b: Balloon)
    ensures
        bytes::le_value(bytes::field(b.config(), 0, 4)) == b.num_pages as u32,
{
    let v = b.num_pages as u32 as nat;
    bytes::le_bytes_len(v, 4);
    bytes::le_bytes_len(b.actual_pages as u32 as nat, 4);
    assert(bytes::field(b.config(), 0, 4) =~= bytes::le_bytes(v, 4));
    reveal_with_fuel(bytes::pow256, 5);
    bytes::le_round_trip(v, 4);
}

/// The pages that the guest says it has are read back.
pub proof fn actual_is_read_back(b: Balloon)
    ensures
        bytes::le_value(bytes::field(b.config(), 4, 4)) == b.actual_pages as u32,
{
    let v = b.actual_pages as u32 as nat;
    bytes::le_bytes_len(v, 4);
    bytes::le_bytes_len(b.num_pages as u32 as nat, 4);
    assert(bytes::field(b.config(), 4, 4) =~= bytes::le_bytes(v, 4));
    reveal_with_fuel(bytes::pow256, 5);
    bytes::le_round_trip(v, 4);
}

/// A balloon that was activated and then reset has its command socket back.
pub proof fn reset_undoes_activation(b: Balloon)
    requires
        b.has_command_socket,
        !b.has_worker,
    ensures
        b.activated(true).resets(true, true),
        b.activated(true).after_reset(true, true) == (Balloon { has_kill_evt: false, ..b }),
{
}

/// Page number `i` of a buffer is that of its `i`-th four bytes, lowest first, and
/// stands for the address 4096 times as high. Nothing but these pages is taken.
pub proof fn page_numbers_count_pages(data: Seq<u8>, i: int)
    requires
        0 <= i < data.len() / 4,
    ensures
        page_addresses(data).len() == data.len() / 4,
        page_addresses(data)[i] == 4096 * (data[4 * i] + 0x100 * data[4 * i + 1] + 0x1_0000 * data[4
            * i + 2] + 0x100_0000 * data[4 * i + 3]),
{
    bytes::le_value_is_weighted_sum(bytes::field(data, 4 * i, 4));
}

/// The pages of two buffers, one behind the other, are those of the first and then
/// those of the second.
pub proof fn buffers_are_taken_in_turn(a: Seq<u8>, b: Seq<u8>)
    requires
        a.len() % 4 == 0,
    ensures
        page_addresses(a + b) == page_addresses(a) + page_addresses(b),
{
    assert((a + b).len() / 4 == a.len() / 4 + b.len() / 4);
    assert forall|i: int| 0 <= i < (a + b).len() / 4 implies page_addresses(a + b)[i] == (
    page_addresses(a) + page_addresses(b))[i] by {
        if i < a.len() / 4 {
            assert(bytes::field(a + b, 4 * i, 4) =~= bytes::field(a, 4 * i, 4));
        } else {
            let j = i - a.len() / 4;
            assert(4 * i == a.len() + 4 * j);
            assert(bytes::field(a + b, 4 * i, 4) =~= bytes::field(b, 4 * j, 4));
        }
    }
    assert(page_addresses(a + b) =~= page_addresses(a) + page_addresses(b));
}

/// The driver says how many pages it has given up by writing the second word of the
/// configuration; the first word, which the monitor sets, it cannot change, nor
/// anything else of the balloon.
pub proof fn driver_sets_the_actual_size(b: Balloon, data: Seq<u8>, offset: u64)
    requires
        data.len() == 4,
    ensures
        b.written(4, data).actual_pages == data[0] + 0x100 * data[1] + 0x1_0000 * data[2]
            + 0x100_0000 * data[3],
        b.written(offset, data).num_pages == b.num_pages,
        b.written(offset, data).features == b.features,
        b.actual_pages <= u32::MAX && (offset == 0 || offset >= 8) ==> b.written(offset, data)
            == b,
{
    let config = b.config();
    bytes::le_bytes_len(b.num_pages as u32 as nat, 4);
    bytes::le_bytes_len(b.actual_pages as u32 as nat, 4);
    assert(bytes::field(virtio::config_copied(config, 4, data, 0), 4, 4) =~= data);
    bytes::le_value_is_weighted_sum(data);
    bytes::le_field_bounds(data);
    actual_is_read_back(b);
    if offset == 0 || offset >= 8 {
        assert(bytes::field(virtio::config_copied(config, offset as int, data, 0), 4, 4)
            =~= bytes::field(config, 4, 4));
    }
}

/// A reset that fails does not give the command socket back; one without a worker
/// fails, and so does one whose worker cannot be told, which then stays.
pub proof fn failed_reset_keeps_the_socket_away(b: Balloon, notified: bool, joined: bool)
    requires
        !b.has_command_socket,
    ensures
        b.after_reset(notified, joined).has_command_socket <==> b.resets(notified, joined),
        b.resets(notified, joined) <==> b.has_worker && joined && (b.has_kill_evt ==> notified),
        b.has_kill_evt && !notified ==> b.after_reset(notified, joined).has_worker == b.has_worker,
        !(b.has_kill_evt && !notified) ==> !b.after_reset(notified, joined).has_worker,
        b.after_reset(notified, joined).num_pages == b.num_pages,
        b.after_reset(notified, joined).actual_pages == b.actual_pages,
{
}

} // verus!
