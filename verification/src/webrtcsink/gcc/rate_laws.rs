//! What control of the rate comes to: which rate is applied when, and what is sent at
//! it. Times are in nanoseconds.
use super::controller::{
    Bitrate, CongestionControlOp, ControllerType, DelayRates, LossLevel, LossRates,
    RateControllerInner, DEFAULT_MAX_BITRATE, DEFAULT_MIN_BITRATE, DEFAULT_START_BITRATE,
};
use super::detector::Usage;
use super::pacer::{bits_of, budget_for, is_release, SEND_PAD};
use vstd::prelude::*;

verus! {

/// Setting a target sets that target alone, to the rate in range that is closest to
/// what is asked for. The rate that is applied is then the lower of the targets, in
/// range, unless that is what the lower of the targets was before.
pub proof fn targets_are_set(
    controller: RateControllerInner,
    bitrate: Bitrate,
    controller_type: ControllerType,
)
    requires
        controller.min_bitrate <= controller.max_bitrate,
    ensures
        ({
            let (next, changed) = controller.with_bitrate(bitrate, controller_type);
            let within = if bitrate < controller.min_bitrate {
                controller.min_bitrate
            } else if bitrate > controller.max_bitrate {
                controller.max_bitrate
            } else {
                bitrate
            };
            let before = if controller.target_bitrate_on_delay < controller.target_bitrate_on_loss {
                controller.target_bitrate_on_delay
            } else {
                controller.target_bitrate_on_loss
            };
            let low = if next.target_bitrate_on_delay < next.target_bitrate_on_loss {
                next.target_bitrate_on_delay
            } else {
                next.target_bitrate_on_loss
            };
            let applied = if low < controller.min_bitrate {
                controller.min_bitrate
            } else if low > controller.max_bitrate {
                controller.max_bitrate
            } else {
                low
            };
            &&& controller_type is Delay ==> {
                &&& next.target_bitrate_on_delay == within
                &&& next.target_bitrate_on_loss == controller.target_bitrate_on_loss
            }
            &&& controller_type is Loss ==> {
                &&& next.target_bitrate_on_loss == within
                &&& next.target_bitrate_on_delay == controller.target_bitrate_on_delay
            }
            &&& changed <==> applied != before
            &&& changed ==> next.bitrate == applied
            &&& !changed ==> next.bitrate == controller.bitrate
            &&& next.last_increase_on_delay == controller.last_increase_on_delay
            &&& next.last_decrease_on_delay == controller.last_decrease_on_delay
            &&& next.last_increase_on_loss == controller.last_increase_on_loss
            &&& next.last_decrease_on_loss == controller.last_decrease_on_loss
            &&& next.state == controller.state
            &&& next.min_bitrate == controller.min_bitrate
            &&& next.max_bitrate == controller.max_bitrate
        }),
{
}

/// It makes no difference in which order the two targets are set.
pub proof fn targets_are_independent(
    controller: RateControllerInner,
    on_delay: Bitrate,
    on_loss: Bitrate,
)
    requires
        controller.wf(),
        controller.settled(),
    ensures
        controller.with_bitrate(on_delay, ControllerType::Delay).0.with_bitrate(
            on_loss,
            ControllerType::Loss,
        ).0 == controller.with_bitrate(on_loss, ControllerType::Loss).0.with_bitrate(
            on_delay,
            ControllerType::Delay,
        ).0,
{
}

/// A controller is settled where both targets are in range and the rate that is applied
/// is one of them, and no more than the other. It has a range to keep where the lowest
/// rate is no more than the highest.
pub proof fn settled_rates_are_the_lower_target(controller: RateControllerInner)
    ensures
        controller.settled() <==> {
            &&& controller.min_bitrate <= controller.bitrate
            &&& controller.target_bitrate_on_delay <= controller.max_bitrate
            &&& controller.target_bitrate_on_loss <= controller.max_bitrate
            &&& controller.bitrate <= controller.target_bitrate_on_delay
            &&& controller.bitrate <= controller.target_bitrate_on_loss
            &&& controller.bitrate == controller.target_bitrate_on_delay || controller.bitrate
                == controller.target_bitrate_on_loss
        },
        controller.wf() <==> controller.min_bitrate <= controller.max_bitrate,
{
}

/// High loss lowers the target that rests on loss, low loss raises it, to the rate
/// that is given for that, each no sooner than 200 ms after it last did. Otherwise loss
/// changes nothing. The target that rests on delay, and its times, are left alone.
pub proof fn loss_sets_its_target(
    controller: RateControllerInner,
    level: LossLevel,
    rates: LossRates,
    now: u64,
)
    ensures
        ({
            let lowers = level is High && now - controller.last_decrease_on_loss > 200_000_000;
            let raises = level is Low && now - controller.last_increase_on_loss > 200_000_000;
            &&& controller.sets_on_loss(level, now) <==> lowers || raises
            &&& lowers ==> controller.on_loss(level, rates, now) == (RateControllerInner {
                state: CongestionControlOp::Decrease,
                last_decrease_on_loss: now,
                ..controller
            }).with_bitrate(rates.decreased, ControllerType::Loss)
            &&& raises ==> controller.on_loss(level, rates, now) == (RateControllerInner {
                state: CongestionControlOp::Increase,
                last_increase_on_loss: now,
                ..controller
            }).with_bitrate(rates.increased, ControllerType::Loss)
            &&& !lowers && !raises ==> controller.on_loss(level, rates, now) == (controller, false)
        }),
{
}

/// The rate may be raised for delay where it never was, or 100 ms have passed since it
/// was tried; the time that has passed is counted in whole milliseconds. It may be
/// lowered where more than 100 ms have passed since it was.
pub proof fn changes_for_delay_are_due(controller: RateControllerInner, now: u64)
    ensures
        ({
            let due = controller.increase_due(now as int);
            &&& controller.last_increase_on_delay is None ==> due == Some(0int)
            &&& controller.last_increase_on_delay matches Some(last) ==> {
                &&& due is Some <==> now - last >= 100_000_000
                &&& due matches Some(ms) ==> ms * 1_000_000 <= now - last < (ms + 1) * 1_000_000
            }
        }),
        controller.decrease_due(now as int) <==> now - controller.last_decrease_on_delay
            > 100_000_000,
        ({
            let tried = controller.raising(now);
            &&& controller.increase_due(now as int) is Some ==> tried == (RateControllerInner {
                last_increase_on_delay: Some(now),
                ..controller
            })
            &&& controller.increase_due(now as int) is None ==> tried == controller
        }),
{
}

/// Overuse lowers the target that rests on delay to the rate that is given for that,
/// no sooner than 100 ms after it last did. Normal use raises it where there is a rate
/// to go up to, and so does underuse while the rate is rising; after a decrease the rate
/// is held first. In every other case the rate is held, too. Every attempt to raise the
/// rate is noted.
pub proof fn delay_sets_its_target(
    controller: RateControllerInner,
    usage: Usage,
    rates: DelayRates,
    now: u64,
)
    ensures
        ({
            let due = match controller.last_increase_on_delay {
                None => true,
                Some(last) => now - last >= 100_000_000,
            };
            let up = rates.increased(controller.target_bitrate_on_delay);
            let tries = match usage {
                Usage::Normal => !(controller.state is Decrease),
                Usage::Under => controller.state is Increase,
                Usage::Over => false,
            };
            let lowers = usage is Over && now - controller.last_decrease_on_delay > 100_000_000;
            let raises = tries && due && up is Some;
            &&& controller.sets_on_delay(usage, rates, now) <==> lowers || raises
            &&& lowers ==> controller.on_delay(usage, rates, now) == (RateControllerInner {
                state: CongestionControlOp::Decrease,
                last_decrease_on_delay: now,
                ..controller
            }).with_bitrate(rates.decreased, ControllerType::Delay)
            &&& raises ==> controller.on_delay(usage, rates, now) == (RateControllerInner {
                state: CongestionControlOp::Increase,
                last_increase_on_delay: Some(now),
                ..controller
            }).with_bitrate(up->0, ControllerType::Delay)
            &&& !lowers && !raises ==> controller.on_delay(usage, rates, now) == (
                RateControllerInner {
                    state: CongestionControlOp::Hold,
                    last_increase_on_delay: if tries && due {
                        Some(now)
                    } else {
                        controller.last_increase_on_delay
                    },
                    ..controller
                },
                false,
            )
        }),
{
}

/// Loss has its say exactly where delay did not change the rate that is applied.
pub proof fn loss_comes_after_delay(
    controller: RateControllerInner,
    usage: Usage,
    delay_rates: DelayRates,
    level: LossLevel,
    loss_rates: LossRates,
    now: u64,
)
    ensures
        ({
            let (followed, changed) = controller.on_delay(usage, delay_rates, now);
            let both = controller.controlled(usage, delay_rates, level, loss_rates, now);
            &&& changed ==> both == (followed, true)
            &&& !changed ==> both == followed.on_loss(level, loss_rates, now)
        }),
{
}

/// A target that something is added to goes up to the greatest rate that is neither
/// more than the sum nor more than one and a half times the rate that packets arrive at.
pub proof fn additions_go_as_far_as_they_may(rates: DelayRates, target: Bitrate, other: Bitrate)
    requires
        rates.growth is Additive,
    ensures
        ({
            let up = rates.increased(target);
            &&& up is Some
            &&& up->0 <= rates.growth->raised
            &&& 2 * up->0 <= 3 * rates.effective
            &&& other <= rates.growth->raised && 2 * other <= 3 * rates.effective ==> other
                <= up->0
        }),
{
}

/// A target that is multiplied goes up to the product, rounded down; but where the
/// product is above one and a half times the rate that packets arrive at, and the target
/// is below that, only so far. Where the product is below the target there is no rate to
/// go up to.
pub proof fn products_go_as_far_as_they_may(rates: DelayRates, target: Bitrate)
    requires
        rates.growth is Multiplicative,
    ensures
        ({
            let up = rates.increased(target);
            let capped = rates.growth->twice_up > 3 * rates.effective && 2 * target < 3
                * rates.effective;
            &&& capped ==> up is Some
            &&& capped && 3 * rates.effective < 2 * 0x1_0000_0000 ==> 2 * up->0 <= 3
                * rates.effective < 2 * up->0 + 2
            &&& capped && 3 * rates.effective >= 2 * 0x1_0000_0000 ==> up->0 == u32::MAX
            &&& !capped ==> (up is None <==> rates.growth->twice_down < 2 * target)
            &&& !capped && up is Some && rates.growth->twice_down < 2 * 0x1_0000_0000 ==> 2 * up->0
                <= rates.growth->twice_down < 2 * up->0 + 2
            &&& !capped && up is Some && rates.growth->twice_down >= 2 * 0x1_0000_0000 ==> up->0
                == u32::MAX
        }),
{
}

/// The bits of two lots of buffers are the bits of both together, and one buffer has
/// eight for each of its bytes.
pub proof fn bits_add_up<B>(first: Seq<(B, u64)>, second: Seq<(B, u64)>, buffer: (B, u64))
    ensures
        bits_of(first + second) == bits_of(first) + bits_of(second),
        bits_of(seq![buffer]) == 8 * buffer.1,
{
    super::pacer::lemma_bits_of_parts(first, second);
    let one = seq![buffer];
    assert(one.drop_last() =~= Seq::empty());
    assert(bits_of(one.drop_last()) == 0);
}

/// The bits that may be sent in some time are as many as the rate calls for, to within
/// half a bit.
pub proof fn budgets_keep_the_rate(elapsed: int, bitrate: int)
    ensures
        ({
            let budget = budget_for(elapsed, bitrate);
            (2 * budget - 1) * 1_000_000_000 <= 2 * (elapsed * bitrate) < (2 * budget + 1)
                * 1_000_000_000
        }),
{
    let product = elapsed * bitrate;
    assert(2 * elapsed * bitrate == 2 * product) by (nonlinear_arith)
        requires
            product == elapsed * bitrate,
    ;
    let budget = budget_for(elapsed, bitrate);
    assert(budget == (2 * product + 1_000_000_000) / 2_000_000_000);
    assert(2_000_000_000 * budget <= 2 * product + 1_000_000_000 < 2_000_000_000 * budget
        + 2_000_000_000);
}

/// What is sent: as long as there is budget, and as long as what stays would take more
/// than 30 ms to send; and nothing more.
pub proof fn budgets_are_used_up<B>(
    buffers: Seq<(B, u64)>,
    sent: int,
    budget: int,
    bitrate: int,
)
    ensures
        is_release(buffers, sent, budget, bitrate) <==> {
            &&& 0 <= sent <= buffers.len()
            &&& sent < buffers.len() ==> bits_of(buffers.take(sent)) >= budget && 1000 * bits_of(
                buffers.skip(sent),
            ) <= 30 * bitrate
            &&& sent > 0 ==> bits_of(buffers.take(sent - 1)) < budget || 1000 * bits_of(
                buffers.skip(sent - 1),
            ) > 30 * bitrate
        },
{
    assert forall|i: int| 0 <= i <= buffers.len() implies bits_of(buffers) == bits_of(
        #[trigger] buffers.take(i),
    ) + bits_of(buffers.skip(i)) by {
        assert(buffers =~= buffers.take(i) + buffers.skip(i));
        super::pacer::lemma_bits_of_parts(buffers.take(i), buffers.skip(i));
    }
    if 0 <= sent <= buffers.len() {
        assert(bits_of(buffers) == bits_of(buffers.take(sent)) + bits_of(buffers.skip(sent)));
        if sent > 0 {
            let last = sent - 1;
            assert(bits_of(buffers) == bits_of(buffers.take(last)) + bits_of(buffers.skip(last)));
            if super::pacer::goes_on(buffers, last, budget, bitrate) {
                assert forall|i: int| 0 <= i < sent implies super::pacer::goes_on(
                    buffers,
                    i,
                    budget,
                    bitrate,
                ) by {
                    assert(buffers.take(last) =~= buffers.take(i) + buffers.subrange(i, last));
                    super::pacer::lemma_bits_of_parts(buffers.take(i), buffers.subrange(i, last));
                }
            }
        }
    }
}

/// Unless others are asked for, rates start at 2048 kbit/s and stay between 30 kbit/s and
/// 8192 kbit/s. Packets are sent through pads with one mark.
pub proof fn the_usual_settings_are_known()
    ensures
        DEFAULT_START_BITRATE == 2_048_000,
        DEFAULT_MIN_BITRATE == 30_000,
        DEFAULT_MAX_BITRATE == 8_192_000,
        SEND_PAD@ == "send_rtp_sink_"@,
{
}

} // verus!
