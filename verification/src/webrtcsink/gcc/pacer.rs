//! A leaky bucket that spreads what is sent over time.
use super::controller::{Bitrate, DEFAULT_START_BITRATE};
use crate::numbers::{count_occurrences, occurrences};
use crate::text::characters;
use std::collections::VecDeque;
use vstd::prelude::*;

verus! {

/// The nanoseconds of a second.
pub const SECOND: u64 = 1_000_000_000;

/// The largest buffer, in bytes, whose bits can be counted.
pub const LARGEST_BUFFER: u64 = 1_152_921_504_606_846_975;

/// How many bits some buffers have together. A buffer is a pair of what is sent
/// and its size in bytes.
pub open spec fn bits_of<B>(buffers: Seq<(B, u64)>) -> nat
    decreases buffers.len(),
{
    if buffers.len() == 0 {
        0
    } else {
        bits_of(buffers.drop_last()) + 8 * buffers.last().1 as nat
    }
}

/// The bits that may be sent in `elapsed` nanoseconds, to the nearest bit.
pub open spec fn budget_for(elapsed: int, bitrate: int) -> int {
    (2 * elapsed * bitrate + SECOND) / (2 * SECOND as int)
}

/// Whether more is to be sent after the first `sent` buffers: there is budget
/// left, or what is left would take longer than 30 ms to send.
pub open spec fn goes_on<B>(buffers: Seq<(B, u64)>, sent: int, budget: int, bitrate: int) -> bool {
    ||| budget - bits_of(buffers.take(sent)) > 0
    ||| 100 * (bits_of(buffers) - bits_of(buffers.take(sent))) > 3 * bitrate
}

/// Whether `sent` buffers are sent: as long as there is reason to send one more.
pub open spec fn is_release<B>(
    buffers: Seq<(B, u64)>,
    sent: int,
    budget: int,
    bitrate: int,
) -> bool {
    &&& 0 <= sent <= buffers.len()
    &&& forall|i: int| 0 <= i < sent ==> goes_on(buffers, i, budget, bitrate)
    &&& sent == buffers.len() || !goes_on(buffers, sent, budget, bitrate)
}

/// The bits of a prefix and of one more buffer.
proof fn lemma_bits_step<B>(buffers: Seq<(B, u64)>, sent: int)
    requires
        0 <= sent < buffers.len(),
    ensures
        bits_of(buffers.take(sent + 1)) == bits_of(buffers.take(sent)) + 8 * buffers[sent].1,
{
    assert(buffers.take(sent + 1).drop_last() =~= buffers.take(sent));
}

/// The bits of two parts.
pub proof fn lemma_bits_of_parts<B>(first: Seq<(B, u64)>, second: Seq<(B, u64)>)
    ensures
        bits_of(first + second) == bits_of(first) + bits_of(second),
    decreases second.len(),
{
    if second.len() == 0 {
        assert(first + second =~= first);
    } else {
        assert((first + second).drop_last() =~= first + second.drop_last());
        lemma_bits_of_parts(first, second.drop_last());
    }
}

/// A longer prefix has no fewer bits.
proof fn lemma_bits_grow<B>(buffers: Seq<(B, u64)>, short: int, long: int)
    requires
        0 <= short <= long <= buffers.len(),
    ensures
        bits_of(buffers.take(short)) <= bits_of(buffers.take(long)),
{
    assert(buffers.take(long) =~= buffers.take(short) + buffers.take(long).skip(short));
    lemma_bits_of_parts(buffers.take(short), buffers.take(long).skip(short));
}

/// There is exactly one number of buffers to send.
pub proof fn a_release_is_unique<B>(
    buffers: Seq<(B, u64)>,
    first: int,
    second: int,
    budget: int,
    bitrate: int,
)
    requires
        is_release(buffers, first, budget, bitrate),
        is_release(buffers, second, budget, bitrate),
    ensures
        first == second,
{
    if first < second {
        assert(goes_on(buffers, first, budget, bitrate));
    }
    if second < first {
        assert(goes_on(buffers, second, budget, bitrate));
    }
}

/// What stays in the bucket takes at most 30 ms to send.
pub proof fn the_bucket_holds_at_most_30_ms<B>(
    buffers: Seq<(B, u64)>,
    sent: int,
    budget: int,
    bitrate: int,
)
    requires
        is_release(buffers, sent, budget, bitrate),
        bitrate >= 0,
    ensures
        1000 * bits_of(buffers.skip(sent)) <= 30 * bitrate,
{
    assert(buffers =~= buffers.take(sent) + buffers.skip(sent));
    lemma_bits_of_parts(buffers.take(sent), buffers.skip(sent));
}

/// Budget and a full bucket are the only reasons to send: without the last buffer,
/// less than the budget was sent, or more than 30 ms would have stayed.
pub proof fn nothing_is_sent_without_reason<B>(
    buffers: Seq<(B, u64)>,
    sent: int,
    budget: int,
    bitrate: int,
)
    requires
        is_release(buffers, sent, budget, bitrate),
        sent > 0,
    ensures
        bits_of(buffers.take(sent - 1)) < budget || 1000 * bits_of(buffers.skip(sent - 1)) > 30
            * bitrate,
{
    assert(goes_on(buffers, sent - 1, budget, bitrate));
    assert(buffers =~= buffers.take(sent - 1) + buffers.skip(sent - 1));
    lemma_bits_of_parts(buffers.take(sent - 1), buffers.skip(sent - 1));
}

/// What the names of pads hold that packets are sent through.
pub const SEND_PAD: &'static str = "send_rtp_sink_";

/// Whether packets are sent through the pad with a name: one that holds the mark of
/// such pads exactly once.
pub fn is_send_pad(name: &str) -> (answer: bool)
    ensures
        answer == (occurrences(name@, SEND_PAD@) == 1),
{
    proof {
        reveal_strlit("send_rtp_sink_");
    }
    count_occurrences(&characters(name), &characters(SEND_PAD)) == 1
}

/// Buffers that wait to be sent, and the rate at which they are.
#[derive(Debug)]
pub struct Pacer<B> {
    buffers: VecDeque<(B, u64)>,
    bitrate: Bitrate,
}

impl<B> Pacer<B> {
    /// The buffers that wait, in the order in which they came.
    pub closed spec fn waiting(&self) -> Seq<(B, u64)> {
        self.buffers@.reverse()
    }

    /// The rate, in bits for each second.
    pub closed spec fn rate(&self) -> Bitrate {
        self.bitrate
    }

    /// Every buffer's bits can be counted.
    pub open spec fn wf(&self) -> bool {
        forall|i: int|
            0 <= i < self.waiting().len() ==> (#[trigger] self.waiting()[i]).1 <= LARGEST_BUFFER
    }

    /// A pacer that nothing waits in.
    pub fn new() -> (pacer: Pacer<B>)
        ensures
            pacer.waiting().len() == 0,
            pacer.rate() == DEFAULT_START_BITRATE,
            pacer.wf(),
    {
        Pacer { buffers: VecDeque::new(), bitrate: DEFAULT_START_BITRATE }
    }

    /// The rate, in bits for each second.
    pub fn bitrate(&self) -> (bitrate: Bitrate)
        ensures
            bitrate == self.rate(),
    {
        self.bitrate
    }

    /// Sets the rate.
    pub fn set_bitrate(&mut self, bitrate: Bitrate)
        ensures
            final(self).rate() == bitrate,
            final(self).waiting() == old(self).waiting(),
    {
        self.bitrate = bitrate;
    }

    /// Lets a buffer wait, behind the others.
    pub fn push(&mut self, buffer: B, size: u64)
        requires
            old(self).wf(),
            size <= LARGEST_BUFFER,
        ensures
            final(self).wf(),
            final(self).waiting() == old(self).waiting().push((buffer, size)),
            final(self).rate() == old(self).rate(),
    {
        let ghost before = self.buffers@;
        self.buffers.push_front((buffer, size));
        let ghost after = before.reverse().push((buffer, size));
        assert(self.buffers@.reverse() =~= after);
        assert(forall|i: int|
            0 <= i < after.len() - 1 ==> #[trigger] after[i] == old(self).waiting()[i]);
    }

    /// Whether the bits that may be sent after `elapsed` nanoseconds can be counted.
    pub fn can_release(&self, elapsed: u64) -> (answer: bool)
        ensures
            answer == (budget_for(elapsed as int, self.rate() as int) <= i64::MAX),
    {
        bits_for(elapsed, self.bitrate) <= i64::MAX as u128
    }

    /// Hands out, oldest first, what is to be sent after `elapsed` nanoseconds.
    pub fn release(&mut self, elapsed: u64) -> (sent: Vec<B>)
        requires
            old(self).wf(),
            budget_for(elapsed as int, old(self).rate() as int) <= i64::MAX,
        ensures
            final(self).wf(),
            final(self).rate() == old(self).rate(),
            is_release(
                old(self).waiting(),
                sent@.len() as int,
                budget_for(elapsed as int, old(self).rate() as int),
                old(self).rate() as int,
            ),
            forall|i: int|
                0 <= i < sent@.len() ==> #[trigger] sent@[i] == old(self).waiting()[i].0,
            final(self).waiting() == old(self).waiting().skip(sent@.len() as int),
    {
        let ghost all = self.waiting();
        let ghost rate = self.rate() as int;
        let ghost total_budget = budget_for(elapsed as int, rate);
        let mut budget: i64 = bits_for(elapsed, self.bitrate) as i64;
        let mut remaining: u128 = self.bits();
        let limit: u128 = (3 * self.bitrate as u128) / 100;
        let mut sent: Vec<B> = Vec::new();
        assert(all.take(0) =~= Seq::empty());
        assert(all.skip(0) =~= all);
        while self.buffers.len() > 0 && (budget > 0 || remaining > limit)
            invariant
                sent@.len() <= all.len(),
                self.waiting() == all.skip(sent@.len() as int),
                self.rate() == rate,
                forall|i: int|
                    0 <= i < all.len() ==> (#[trigger] all[i]).1 <= LARGEST_BUFFER,
                forall|i: int| 0 <= i < sent@.len() ==> #[trigger] sent@[i] == all[i].0,
                forall|i: int| 0 <= i < sent@.len() ==> goes_on(all, i, total_budget, rate),
                remaining == bits_of(all) - bits_of(all.take(sent@.len() as int)),
                limit == (3 * rate) / 100,
                (budget > 0) == (total_budget - bits_of(all.take(sent@.len() as int)) > 0),
                budget > 0 ==> budget == total_budget - bits_of(all.take(sent@.len() as int)),
            decreases all.len() - sent@.len(),
        {
            let ghost done = sent@.len() as int;
            assert(goes_on(all, done, total_budget, rate));
            let ghost held = self.buffers@;
            assert(held.reverse() == all.skip(done));
            assert(held.reverse().len() == held.len());
            proof {
                lemma_bits_step(all, done);
                lemma_bits_grow(all, done + 1, all.len() as int);
                assert(all.take(all.len() as int) =~= all);
                assert(all.skip(done)[0] == all[done]);
                assert(held.reverse()[0] == held[held.len() - 1]);
            }
            if let Some((buffer, size)) = self.buffers.pop_back() {
                assert((buffer, size) == all[done]);
                let bits: u64 = 8 * size;
                sent.push(buffer);
                budget = if budget > 0 {
                    budget - bits as i64
                } else {
                    0
                };
                remaining = remaining - bits as u128;
                proof {
                    assert(self.buffers@ =~= held.take(held.len() - 1));
                    assert(self.buffers@.reverse() =~= held.reverse().skip(1));
                    assert(all.skip(done).skip(1) =~= all.skip(done + 1));
                }
            }
        }
        proof {
            let done = sent@.len() as int;
            assert(self.buffers@.reverse().len() == all.len() - done);
        }
        sent
    }

    /// How many bits wait.
    fn bits(&self) -> (bits: u128)
        requires
            self.wf(),
        ensures
            bits == bits_of(self.waiting()),
    {
        let ghost all = self.waiting();
        let count: usize = self.buffers.len();
        let mut bits: u128 = 0;
        let mut at: usize = count;
        assert(all.take(0) =~= Seq::empty());
        while at > 0
            invariant
                at <= count == self.buffers@.len(),
                all == self.buffers@.reverse(),
                bits == bits_of(all.take(count - at)),
                bits <= (count - at) * 0x7fff_ffff_ffff_ffff,
                forall|i: int| 0 <= i < all.len() ==> (#[trigger] all[i]).1 <= LARGEST_BUFFER,
            decreases at,
        {
            proof {
                lemma_bits_step(all, count - at);
                assert(all[count - at] == self.buffers@[at - 1]);
            }
            at = at - 1;
            bits = bits + 8 * self.buffers[at].1 as u128;
        }
        assert(all.take(count as int) =~= all);
        bits
    }
}

/// The bits that may be sent in `elapsed` nanoseconds, to the nearest bit.
fn bits_for(elapsed: u64, bitrate: Bitrate) -> (bits: u128)
    ensures
        bits == budget_for(elapsed as int, bitrate as int),
{
    let ghost product = elapsed * bitrate;
    assert(0 <= product <= 0xffff_ffff_ffff_ffff * 0xffff_ffff) by (nonlinear_arith)
        requires
            0 <= elapsed <= 0xffff_ffff_ffff_ffff,
            0 <= bitrate <= 0xffff_ffff,
            product == elapsed * bitrate,
    ;
    assert(2 * elapsed * bitrate == 2 * product) by (nonlinear_arith)
        requires
            product == elapsed * bitrate,
    ;
    let product: u128 = elapsed as u128 * bitrate as u128;
    (2 * product + SECOND as u128) / (2 * SECOND as u128)
}

} // verus!
