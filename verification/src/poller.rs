//! Double-buffered change detection over the polled input image.
//!
//! Once per hardware cycle the unverified loop triggers a bus cycle, reads
//! the packed input image and hands it to [`Poller::on_image`], which
//! compares it against the previous cycle's image, emits one event per
//! changed channel in ascending channel order, and makes the fresh image
//! the new reference.  Output commands drained from the session are routed
//! through [`Poller::route_output`], which discards out-of-range channels
//! instead of failing.

use vstd::prelude::*;

use crate::bits::{byte_len, get_bit, spec_bit, spec_byte_len};
use crate::event::KBusEvent;

verus! {

/// `events` is exactly the set of channels below `channels` whose bit
/// differs between `prev` and `cur`, in ascending channel order, each
/// carrying the channel's new value.
pub open spec fn is_change_events(
    events: Seq<KBusEvent>,
    prev: Seq<u8>,
    cur: Seq<u8>,
    channels: u16,
) -> bool {
    &&& forall|k: int|
        0 <= k < events.len() ==> {
            &&& (#[trigger] events[k]).channel < channels
            &&& spec_bit(cur, events[k].channel as int) != spec_bit(
                prev,
                events[k].channel as int,
            )
            &&& events[k].value == spec_bit(cur, events[k].channel as int)
        }
    &&& forall|k1: int, k2: int|
        0 <= k1 < k2 < events.len() ==> (#[trigger] events[k1]).channel < (
        #[trigger] events[k2]).channel
    &&& forall|i: int|
        0 <= i < channels && spec_bit(cur, i) != spec_bit(prev, i) ==> exists|k: int|
            0 <= k < events.len() && (#[trigger] events[k]).channel == i
}

/// Compares two packed input images and returns one event per changed
/// channel, in ascending channel order, carrying the channel's value in
/// `current`.  Unchanged channels never produce an event.
pub fn detect_changes(current: &[u8], previous: &[u8], channels: u16) -> (events: Vec<
    KBusEvent,
>)
    requires
        current@.len() == spec_byte_len(channels),
        previous@.len() == spec_byte_len(channels),
    ensures
        is_change_events(events@, previous@, current@, channels),
{
    let mut events: Vec<KBusEvent> = Vec::new();
    for i in 0..channels
        invariant
            current@.len() == spec_byte_len(channels),
            previous@.len() == spec_byte_len(channels),
            forall|k: int|
                0 <= k < events@.len() ==> {
                    &&& (#[trigger] events@[k]).channel < i
                    &&& spec_bit(current@, events@[k].channel as int) != spec_bit(
                        previous@,
                        events@[k].channel as int,
                    )
                    &&& events@[k].value == spec_bit(current@, events@[k].channel as int)
                },
            forall|k1: int, k2: int|
                0 <= k1 < k2 < events@.len() ==> (#[trigger] events@[k1]).channel < (
                #[trigger] events@[k2]).channel,
            forall|j: int|
                0 <= j < i && spec_bit(current@, j) != spec_bit(previous@, j)
                    ==> exists|k: int|
                    0 <= k < events@.len() && (#[trigger] events@[k]).channel == j,
    {
        let cur_bit = get_bit(current, i as usize);
        let prev_bit = get_bit(previous, i as usize);
        let ghost prior = events@;
        if cur_bit != prev_bit {
            events.push(KBusEvent { channel: i, value: cur_bit });
        }
        proof {
            assert forall|j: int|
                0 <= j < i + 1 && spec_bit(current@, j) != spec_bit(
                    previous@,
                    j,
                ) implies exists|k: int|
                0 <= k < events@.len() && (#[trigger] events@[k]).channel == j by {
                if j == i as int {
                    assert(events@[events@.len() - 1].channel == j);
                } else {
                    let k = choose|k: int|
                        0 <= k < prior.len() && (#[trigger] prior[k]).channel == j;
                    assert(events@[k].channel == j);
                }
            }
        }
    }
    events
}

/// [`is_change_events`] with every channel at or below `lo` masked out:
/// what remains of the characterization for the events above `lo`.
pub open spec fn is_change_events_above(
    events: Seq<KBusEvent>,
    prev: Seq<u8>,
    cur: Seq<u8>,
    channels: u16,
    lo: int,
) -> bool {
    &&& forall|k: int|
        0 <= k < events.len() ==> {
            &&& lo < (#[trigger] events[k]).channel < channels
            &&& spec_bit(cur, events[k].channel as int) != spec_bit(
                prev,
                events[k].channel as int,
            )
            &&& events[k].value == spec_bit(cur, events[k].channel as int)
        }
    &&& forall|k1: int, k2: int|
        0 <= k1 < k2 < events.len() ==> (#[trigger] events[k1]).channel < (
        #[trigger] events[k2]).channel
    &&& forall|i: int|
        lo < i < channels && spec_bit(cur, i) != spec_bit(prev, i) ==> exists|k: int|
            0 <= k < events.len() && (#[trigger] events[k]).channel == i
}

/// Two event sequences that both satisfy the masked characterization are
/// the same sequence.
proof fn lemma_change_events_above_unique(
    e1: Seq<KBusEvent>,
    e2: Seq<KBusEvent>,
    prev: Seq<u8>,
    cur: Seq<u8>,
    channels: u16,
    lo: int,
)
    requires
        is_change_events_above(e1, prev, cur, channels, lo),
        is_change_events_above(e2, prev, cur, channels, lo),
    ensures
        e1 =~= e2,
    decreases e1.len(),
{
    if e1.len() == 0 {
        if e2.len() > 0 {
            let i = e2[0].channel as int;
            assert(lo < i < channels && spec_bit(cur, i) != spec_bit(prev, i));
            let k = choose|k: int| 0 <= k < e1.len() && (#[trigger] e1[k]).channel == i;
            assert(false);
        }
    } else {
        let c1 = e1[0].channel as int;
        assert(lo < c1 < channels && spec_bit(cur, c1) != spec_bit(prev, c1));
        let k2 = choose|k: int| 0 <= k < e2.len() && (#[trigger] e2[k]).channel == c1;
        let c2 = e2[0].channel as int;
        assert(lo < c2 < channels && spec_bit(cur, c2) != spec_bit(prev, c2));
        let k1 = choose|k: int| 0 <= k < e1.len() && (#[trigger] e1[k]).channel == c2;
        if k2 > 0 {
            assert(e2[0].channel < e2[k2].channel);
        }
        if k1 > 0 {
            assert(e1[0].channel < e1[k1].channel);
        }
        assert(c1 == c2);
        assert(e1[0] == e2[0]);
        let t1 = e1.drop_first();
        let t2 = e2.drop_first();
        assert forall|i: int|
            c1 < i < channels && spec_bit(cur, i) != spec_bit(prev, i) implies exists|k: int|
            0 <= k < t1.len() && (#[trigger] t1[k]).channel == i by {
            let k = choose|k: int| 0 <= k < e1.len() && (#[trigger] e1[k]).channel == i;
            assert(k > 0);
            assert(t1[k - 1].channel == i);
        }
        assert forall|i: int|
            c1 < i < channels && spec_bit(cur, i) != spec_bit(prev, i) implies exists|k: int|
            0 <= k < t2.len() && (#[trigger] t2[k]).channel == i by {
            let k = choose|k: int| 0 <= k < e2.len() && (#[trigger] e2[k]).channel == i;
            assert(k > 0);
            assert(t2[k - 1].channel == i);
        }
        assert(is_change_events_above(t1, prev, cur, channels, c1));
        assert(is_change_events_above(t2, prev, cur, channels, c1));
        lemma_change_events_above_unique(t1, t2, prev, cur, channels, c1);
        assert forall|k: int| 0 <= k < e1.len() implies e1[k] == e2[k] by {
            if k > 0 {
                assert(t1[k - 1] == t2[k - 1]);
            }
        }
    }
}

/// The characterization is categorical: for one pair of images there is
/// exactly one event sequence that satisfies it, so what
/// [`detect_changes`] ensures determines its result completely.
pub proof fn lemma_change_events_unique(
    e1: Seq<KBusEvent>,
    e2: Seq<KBusEvent>,
    prev: Seq<u8>,
    cur: Seq<u8>,
    channels: u16,
)
    requires
        is_change_events(e1, prev, cur, channels),
        is_change_events(e2, prev, cur, channels),
    ensures
        e1 =~= e2,
{
    assert(is_change_events_above(e1, prev, cur, channels, -1));
    assert(is_change_events_above(e2, prev, cur, channels, -1));
    lemma_change_events_above_unique(e1, e2, prev, cur, channels, -1);
}

/// If the two images agree on every channel, no event is emitted.
///
/// Together with [`is_change_events`] this says the poller stays silent
/// while the hardware image is idle.
pub proof fn lemma_idle_image_no_events(
    events: Seq<KBusEvent>,
    prev: Seq<u8>,
    cur: Seq<u8>,
    channels: u16,
)
    requires
        is_change_events(events, prev, cur, channels),
        forall|i: int| 0 <= i < channels ==> spec_bit(cur, i) == spec_bit(prev, i),
    ensures
        events.len() == 0,
{
    if events.len() > 0 {
        assert(events[0].channel < channels);
        assert(spec_bit(cur, events[0].channel as int) != spec_bit(
            prev,
            events[0].channel as int,
        ));
    }
}

/// What the poller does with one drained output command.
#[derive(Debug, Clone, Copy, PartialEq, Eq, Structural)]
pub enum OutputDecision {
    /// The channel is in range: write this value at this bit offset.
    Write { offset: u32, value: bool },
    /// The channel is out of range: warn and carry on, never fail.
    Ignore,
}

/// The change-detection poller's own state: the two alternating input
/// snapshots, the toggle that says which one is current, and the port's
/// fixed channel counts.
pub struct Poller {
    buf_a: Vec<u8>,
    buf_b: Vec<u8>,
    a_is_current: bool,
    input_size: u16,
    output_size: u16,
}

impl Poller {
    /// Both snapshot buffers always hold exactly one packed input image.
    pub closed spec fn wf(&self) -> bool {
        &&& self.buf_a@.len() == spec_byte_len(self.input_size)
        &&& self.buf_b@.len() == spec_byte_len(self.input_size)
    }

    /// The number of input channels the poller watches.
    pub closed spec fn spec_input_size(&self) -> u16 {
        self.input_size
    }

    /// The number of output channels the poller may write.
    pub closed spec fn spec_output_size(&self) -> u16 {
        self.output_size
    }

    /// The most recently recorded input image.
    pub closed spec fn current_image(&self) -> Seq<u8> {
        if self.a_is_current {
            self.buf_a@
        } else {
            self.buf_b@
        }
    }

    /// The input image recorded the cycle before the current one.
    pub closed spec fn previous_image(&self) -> Seq<u8> {
        if self.a_is_current {
            self.buf_b@
        } else {
            self.buf_a@
        }
    }

    /// Builds a poller for a port with the given channel counts; both
    /// snapshots start as all-zero images.
    pub fn new(input_size: u16, output_size: u16) -> (p: Poller)
        ensures
            p.wf(),
            p.spec_input_size() == input_size,
            p.spec_output_size() == output_size,
            p.current_image().len() == spec_byte_len(input_size),
            p.previous_image().len() == spec_byte_len(input_size),
            forall|i: int|
                0 <= i < 8 * p.current_image().len() ==> !spec_bit(p.current_image(), i),
    {
        let n = byte_len(input_size);
        let buf_a = make_zero_image(n);
        let buf_b = make_zero_image(n);
        Poller { buf_a, buf_b, a_is_current: true, input_size, output_size }
    }

    /// Records the freshly read input image: overwrites the older of the
    /// two snapshots with it, emits one event per channel that differs
    /// from the previous cycle's image, and swaps the snapshot roles.
    pub fn on_image(&mut self, image: &[u8]) -> (events: Vec<KBusEvent>)
        requires
            old(self).wf(),
            image@.len() == spec_byte_len(old(self).spec_input_size()),
        ensures
            final(self).wf(),
            final(self).spec_input_size() == old(self).spec_input_size(),
            final(self).spec_output_size() == old(self).spec_output_size(),
            final(self).current_image() == image@,
            final(self).previous_image() == old(self).current_image(),
            is_change_events(
                events@,
                old(self).current_image(),
                image@,
                old(self).spec_input_size(),
            ),
    {
        if self.a_is_current {
            overwrite_image(&mut self.buf_b, image);
            let events = detect_changes(&self.buf_b, &self.buf_a, self.input_size);
            self.a_is_current = false;
            events
        } else {
            overwrite_image(&mut self.buf_a, image);
            let events = detect_changes(&self.buf_a, &self.buf_b, self.input_size);
            self.a_is_current = true;
            events
        }
    }

    /// Decides what to do with one output command: write it when the
    /// channel is below the output size, ignore it otherwise.  An
    /// out-of-range command is a protocol-level validation case, never a
    /// fault.
    pub fn route_output(&self, event: &KBusEvent) -> (d: OutputDecision)
        ensures
            event.channel < self.spec_output_size() ==> d == (OutputDecision::Write {
                offset: event.channel as u32,
                value: event.value,
            }),
            event.channel >= self.spec_output_size() ==> d == OutputDecision::Ignore,
    {
        if event.channel < self.output_size {
            OutputDecision::Write { offset: event.channel as u32, value: event.value }
        } else {
            OutputDecision::Ignore
        }
    }
}

/// A fresh all-zero packed image of `n` bytes.
fn make_zero_image(n: usize) -> (v: Vec<u8>)
    ensures
        v@.len() == n,
        forall|i: int| 0 <= i < 8 * n ==> !spec_bit(v@, i),
{
    let mut v: Vec<u8> = Vec::new();
    for _j in 0..n
        invariant
            v@.len() == _j,
            forall|b: int| 0 <= b < v@.len() ==> v@[b] == 0u8,
    {
        v.push(0u8);
    }
    proof {
        assert forall|i: int| 0 <= i < 8 * n implies !spec_bit(v@, i) by {
            assert(v@[i / 8] == 0u8);
            let off = (i % 8) as u8;
            assert((0u8 >> off) & 1 == 0u8) by (bit_vector);
        }
    }
    v
}

/// Copies `image` into `buf` in place, without reallocating.
fn overwrite_image(buf: &mut Vec<u8>, image: &[u8])
    requires
        old(buf)@.len() == image@.len(),
    ensures
        final(buf)@ == image@,
{
    for j in 0..image.len()
        invariant
            buf@.len() == image@.len(),
            forall|k: int| 0 <= k < j ==> buf@[k] == image@[k],
    {
        buf[j] = image[j];
    }
    proof {
        assert(buf@ =~= image@);
    }
}

} // verus!
