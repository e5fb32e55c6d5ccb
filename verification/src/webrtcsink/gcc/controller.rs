//! The rates that delay and loss call for.
use super::detector::{clamped, since, Usage};
use super::pacer::Pacer;
use vstd::prelude::*;

verus! {

/// Bits for each second.
pub type Bitrate = u32;

/// The lowest rate, unless another is asked for.
pub const DEFAULT_MIN_BITRATE: Bitrate = 30_000;

/// The rate at the start, unless another is asked for.
pub const DEFAULT_START_BITRATE: Bitrate = 2_048_000;

/// The highest rate, unless another is asked for.
pub const DEFAULT_MAX_BITRATE: Bitrate = 8_192_000;

/// The least time between two updates that rest on loss (200 ms).
pub const LOSS_UPDATE_INTERVAL: u64 = 200_000_000;

/// The least time between two updates that rest on delay (100 ms).
pub const DELAY_UPDATE_INTERVAL: u64 = 100_000_000;

/// What happens to the rate.
#[derive(Debug, PartialEq, Eq, Clone, Copy, Structural)]
pub enum CongestionControlOp {
    /// It stays as it is.
    Hold,
    /// It is lowered.
    Decrease,
    /// It is raised.
    Increase,
}

/// What a rate rests on.
#[derive(Debug, PartialEq, Eq, Clone, Copy, Structural)]
pub enum ControllerType {
    Delay,
    Loss,
}

/// How much is lost: more than one in ten, less than one in fifty, or neither.
#[derive(Debug, PartialEq, Eq, Clone, Copy, Structural)]
pub enum LossLevel {
    High,
    Low,
    Between,
}

/// How a rate grows. Rates that are no whole numbers are given as the whole numbers
/// next to them.
#[derive(Debug, PartialEq, Eq, Clone, Copy, Structural)]
pub enum Growth {
    /// The rate that packets arrive at is close to what it was when the rate was
    /// lowered: something is added to the target.
    Additive {
        /// The sum, rounded down.
        raised: u64,
    },
    /// It is not: the target is multiplied.
    Multiplicative {
        /// Twice the product, rounded down.
        twice_down: u64,
        /// Twice the product, rounded up.
        twice_up: u64,
    },
}

/// What the rates that delay calls for rest on.
#[derive(Debug, PartialEq, Eq, Clone, Copy, Structural)]
pub struct DelayRates {
    /// The rate that packets arrive at.
    pub effective: Bitrate,
    pub growth: Growth,
    /// The rate to go down to.
    pub decreased: Bitrate,
}

/// A rate, or the highest there is where it is above that.
pub open spec fn representable(rate: int) -> Bitrate {
    if rate <= u32::MAX {
        rate as Bitrate
    } else {
        u32::MAX
    }
}

/// A rate, or the highest there is where it is above that.
fn represent(rate: u64) -> (nearest: Bitrate)
    ensures
        nearest == representable(rate as int),
{
    if rate <= 0xffff_ffff {
        rate as Bitrate
    } else {
        0xffff_ffff
    }
}

impl DelayRates {
    /// The rate to go up to from a target, if there is one. It is at most one and a
    /// half times the rate that packets arrive at, unless the target is no less than
    /// that and is multiplied.
    pub open spec fn increased(self, target: Bitrate) -> Option<Bitrate> {
        let received_max = 3 * self.effective / 2;
        match self.growth {
            Growth::Additive { raised } => Some(
                representable(
                    if raised < received_max {
                        raised as int
                    } else {
                        received_max
                    },
                ),
            ),
            Growth::Multiplicative { twice_down, twice_up } => if twice_up > 3 * self.effective
                && 3 * self.effective > 2 * target {
                Some(representable(received_max))
            } else if twice_down < 2 * target {
                None
            } else {
                Some(representable(twice_down as int / 2))
            },
        }
    }

    /// The rate to go up to from a target, if there is one.
    pub fn increase(&self, target: Bitrate) -> (rate: Option<Bitrate>)
        ensures
            rate == self.increased(target),
    {
        let thrice: u64 = 3 * self.effective as u64;
        let received_max: u64 = thrice / 2;
        let twice_target: u64 = 2 * target as u64;
        match self.growth {
            Growth::Additive { raised } => Some(
                represent(
                    if raised < received_max {
                        raised
                    } else {
                        received_max
                    },
                ),
            ),
            Growth::Multiplicative { twice_down, twice_up } => {
                if twice_up > thrice && thrice > twice_target {
                    Some(represent(received_max))
                } else if twice_down < twice_target {
                    None
                } else {
                    Some(represent(twice_down / 2))
                }
            },
        }
    }
}

/// The rates that loss calls for: the one to go up to and the one to go down to.
#[derive(Debug, PartialEq, Eq, Clone, Copy, Structural)]
pub struct LossRates {
    pub increased: Bitrate,
    pub decreased: Bitrate,
}

/// The rates and when they changed. Times are in nanoseconds, on one clock.
#[derive(Debug)]
pub struct RateControllerInner {
    /// The target that rests on delay.
    pub target_bitrate_on_delay: Bitrate,
    pub last_increase_on_delay: Option<u64>,
    pub last_decrease_on_delay: u64,
    /// The target that rests on loss.
    pub target_bitrate_on_loss: Bitrate,
    pub last_increase_on_loss: u64,
    pub last_decrease_on_loss: u64,
    pub state: CongestionControlOp,
    pub min_bitrate: Bitrate,
    pub max_bitrate: Bitrate,
    /// The rate that is applied.
    pub bitrate: Bitrate,
}

/// The lower of two rates.
pub open spec fn lower(a: Bitrate, b: Bitrate) -> Bitrate {
    if a < b {
        a
    } else {
        b
    }
}

/// The rate in a range that is closest to `rate`.
pub open spec fn limited(rate: Bitrate, low: Bitrate, high: Bitrate) -> Bitrate {
    clamped(rate as int, low as int, high as int) as Bitrate
}

/// The lower of two rates.
fn lower_of(a: Bitrate, b: Bitrate) -> (rate: Bitrate)
    ensures
        rate == lower(a, b),
{
    if a < b {
        a
    } else {
        b
    }
}

/// The rate in a range that is closest to `rate`.
fn limit(rate: Bitrate, low: Bitrate, high: Bitrate) -> (within: Bitrate)
    requires
        low <= high,
    ensures
        within == limited(rate, low, high),
{
    if rate < low {
        low
    } else if rate > high {
        high
    } else {
        rate
    }
}

impl RateControllerInner {
    /// A range can be kept.
    pub open spec fn wf(self) -> bool {
        self.min_bitrate <= self.max_bitrate
    }

    /// Both targets are in range, and the rate that is applied is the lower.
    pub open spec fn settled(self) -> bool {
        &&& self.min_bitrate <= self.target_bitrate_on_delay <= self.max_bitrate
        &&& self.min_bitrate <= self.target_bitrate_on_loss <= self.max_bitrate
        &&& self.bitrate == lower(self.target_bitrate_on_delay, self.target_bitrate_on_loss)
    }

    /// The lower of the targets, in range.
    pub open spec fn target(self) -> Bitrate {
        limited(
            lower(self.target_bitrate_on_delay, self.target_bitrate_on_loss),
            self.min_bitrate,
            self.max_bitrate,
        )
    }

    /// One target is set; if that moves the lower of the two, that is applied.
    pub open spec fn with_bitrate(self, bitrate: Bitrate, controller_type: ControllerType) -> (
        RateControllerInner,
        bool,
    ) {
        let before = lower(self.target_bitrate_on_delay, self.target_bitrate_on_loss);
        let within = limited(bitrate, self.min_bitrate, self.max_bitrate);
        let next = match controller_type {
            ControllerType::Delay => RateControllerInner { target_bitrate_on_delay: within, ..self },
            ControllerType::Loss => RateControllerInner { target_bitrate_on_loss: within, ..self },
        };
        if next.target() == before {
            (next, false)
        } else {
            (RateControllerInner { bitrate: next.target(), ..next }, true)
        }
    }

    /// How many milliseconds have passed since the last increase that rested on
    /// delay, unless that is too short a time for another.
    pub open spec fn increase_due(self, now: int) -> Option<int> {
        match self.last_increase_on_delay {
            None => Some(0),
            Some(last) => if since(now, last as int) < DELAY_UPDATE_INTERVAL {
                None
            } else {
                Some(since(now, last as int) / 1_000_000)
            },
        }
    }

    /// Whether the rate may be lowered for delay.
    pub open spec fn decrease_due(self, now: int) -> bool {
        since(now, self.last_decrease_on_delay as int) > DELAY_UPDATE_INTERVAL
    }

    /// What loss does to the rate.
    pub open spec fn on_loss(self, level: LossLevel, rates: LossRates, now: u64) -> (
        RateControllerInner,
        bool,
    ) {
        if level is High && since(now as int, self.last_decrease_on_loss as int)
            > LOSS_UPDATE_INTERVAL {
            RateControllerInner {
                state: CongestionControlOp::Decrease,
                last_decrease_on_loss: now,
                ..self
            }.with_bitrate(rates.decreased, ControllerType::Loss)
        } else if level is Low && since(now as int, self.last_increase_on_loss as int)
            > LOSS_UPDATE_INTERVAL {
            RateControllerInner {
                state: CongestionControlOp::Increase,
                last_increase_on_loss: now,
                ..self
            }.with_bitrate(rates.increased, ControllerType::Loss)
        } else {
            (self, false)
        }
    }

    /// An attempt to raise the rate, which leaves a trace even where there is no
    /// rate to go up to.
    pub open spec fn raising(self, now: u64) -> RateControllerInner {
        if self.increase_due(now as int) is Some {
            RateControllerInner { last_increase_on_delay: Some(now), ..self }
        } else {
            self
        }
    }

    /// Whether there is a rate to go up to.
    pub open spec fn can_raise(self, rates: DelayRates, now: u64) -> bool {
        self.increase_due(now as int) is Some && rates.increased(
            self.target_bitrate_on_delay,
        ) is Some
    }

    /// What delay does to the rate.
    pub open spec fn on_delay(self, usage: Usage, rates: DelayRates, now: u64) -> (
        RateControllerInner,
        bool,
    ) {
        let tried = self.raising(now);
        let held = RateControllerInner { state: CongestionControlOp::Hold, ..self };
        match usage {
            Usage::Normal => if self.state is Decrease {
                (held, false)
            } else if self.can_raise(rates, now) {
                RateControllerInner {
                    state: CongestionControlOp::Increase,
                    ..tried
                }.with_bitrate(
                    rates.increased(self.target_bitrate_on_delay)->0,
                    ControllerType::Delay,
                )
            } else {
                (RateControllerInner { state: CongestionControlOp::Hold, ..tried }, false)
            },
            Usage::Over => if self.decrease_due(now as int) {
                RateControllerInner {
                    state: CongestionControlOp::Decrease,
                    last_decrease_on_delay: now,
                    ..self
                }.with_bitrate(rates.decreased, ControllerType::Delay)
            } else {
                (held, false)
            },
            Usage::Under => if !(self.state is Increase) {
                (held, false)
            } else if self.can_raise(rates, now) {
                tried.with_bitrate(
                    rates.increased(self.target_bitrate_on_delay)->0,
                    ControllerType::Delay,
                )
            } else {
                (RateControllerInner { state: CongestionControlOp::Hold, ..tried }, false)
            },
        }
    }

    /// Whether loss sets a target now.
    pub open spec fn sets_on_loss(self, level: LossLevel, now: u64) -> bool {
        ||| level is High && since(now as int, self.last_decrease_on_loss as int)
            > LOSS_UPDATE_INTERVAL
        ||| level is Low && since(now as int, self.last_increase_on_loss as int)
            > LOSS_UPDATE_INTERVAL
    }

    /// Whether delay sets a target now.
    pub open spec fn sets_on_delay(self, usage: Usage, rates: DelayRates, now: u64) -> bool {
        match usage {
            Usage::Normal => !(self.state is Decrease) && self.can_raise(rates, now),
            Usage::Over => self.decrease_due(now as int),
            Usage::Under => self.state is Increase && self.can_raise(rates, now),
        }
    }

    /// A controller with the usual rates.
    pub fn new(now: u64) -> (controller: RateControllerInner)
        ensures
            controller == (RateControllerInner {
                target_bitrate_on_delay: DEFAULT_START_BITRATE,
                last_increase_on_delay: None,
                last_decrease_on_delay: now,
                target_bitrate_on_loss: DEFAULT_START_BITRATE,
                last_increase_on_loss: now,
                last_decrease_on_loss: now,
                state: CongestionControlOp::Increase,
                min_bitrate: DEFAULT_MIN_BITRATE,
                max_bitrate: DEFAULT_MAX_BITRATE,
                bitrate: DEFAULT_START_BITRATE,
            }),
            controller.wf(),
            controller.settled(),
    {
        RateControllerInner {
            target_bitrate_on_delay: DEFAULT_START_BITRATE,
            last_increase_on_delay: None,
            last_decrease_on_delay: now,
            target_bitrate_on_loss: DEFAULT_START_BITRATE,
            last_increase_on_loss: now,
            last_decrease_on_loss: now,
            state: CongestionControlOp::Increase,
            min_bitrate: DEFAULT_MIN_BITRATE,
            max_bitrate: DEFAULT_MAX_BITRATE,
            bitrate: DEFAULT_START_BITRATE,
        }
    }

    /// Sets the range, and starts at a rate.
    pub fn start(&mut self, min_bitrate: Bitrate, start_bitrate: Bitrate, max_bitrate: Bitrate)
        ensures
            *final(self) == (RateControllerInner {
                min_bitrate,
                max_bitrate,
                target_bitrate_on_delay: start_bitrate,
                target_bitrate_on_loss: start_bitrate,
                bitrate: start_bitrate,
                ..*old(self)
            }),
            min_bitrate <= start_bitrate <= max_bitrate ==> final(self).settled(),
    {
        self.max_bitrate = max_bitrate;
        self.min_bitrate = min_bitrate;
        self.target_bitrate_on_delay = start_bitrate;
        self.target_bitrate_on_loss = start_bitrate;
        self.bitrate = start_bitrate;
    }

    /// Sets one target, within the range. Tells whether the rate that is applied
    /// changed.
    pub fn set_bitrate(&mut self, bitrate: Bitrate, controller_type: ControllerType) -> (changed:
        bool)
        requires
            old(self).wf(),
        ensures
            (*final(self), changed) == old(self).with_bitrate(bitrate, controller_type),
            final(self).wf(),
            old(self).settled() ==> final(self).settled(),
    {
        let prev_bitrate = lower_of(self.target_bitrate_on_delay, self.target_bitrate_on_loss);
        let within = limit(bitrate, self.min_bitrate, self.max_bitrate);
        match controller_type {
            ControllerType::Loss => {
                self.target_bitrate_on_loss = within;
            },
            ControllerType::Delay => {
                self.target_bitrate_on_delay = within;
            },
        }
        let target_bitrate = limit(
            lower_of(self.target_bitrate_on_delay, self.target_bitrate_on_loss),
            self.min_bitrate,
            self.max_bitrate,
        );
        if target_bitrate == prev_bitrate {
            return false;
        }
        self.bitrate = target_bitrate;
        true
    }

    /// How many milliseconds have passed since the last increase that rested on
    /// delay (none where there was no increase yet), unless that is too short a
    /// time for another.
    pub fn time_since_increase(&self, now: u64) -> (ms: Option<u64>)
        ensures
            ms is Some <==> self.increase_due(now as int) is Some,
            ms matches Some(value) ==> value == self.increase_due(now as int)->0,
    {
        match self.last_increase_on_delay {
            None => Some(0),
            Some(last) => {
                let passed: u64 = if now > last {
                    now - last
                } else {
                    0
                };
                if passed < DELAY_UPDATE_INTERVAL {
                    None
                } else {
                    Some(passed / 1_000_000)
                }
            },
        }
    }

    /// Whether the rate may be lowered for delay.
    pub fn may_decrease(&self, now: u64) -> (answer: bool)
        ensures
            answer == self.decrease_due(now as int),
    {
        now > self.last_decrease_on_delay && now - self.last_decrease_on_delay
            > DELAY_UPDATE_INTERVAL
    }

    /// Notes an attempt to raise the rate, and gives the rate to go up to.
    fn compute_increased_rate(&mut self, rates: DelayRates, now: u64) -> (rate: Option<Bitrate>)
        ensures
            *final(self) == old(self).raising(now),
            rate is Some <==> old(self).can_raise(rates, now),
            rate is Some ==> rate == rates.increased(old(self).target_bitrate_on_delay),
    {
        match self.time_since_increase(now) {
            None => None,
            Some(_) => {
                self.last_increase_on_delay = Some(now);
                rates.increase(self.target_bitrate_on_delay)
            },
        }
    }

    /// Follows the loss. Tells whether the rate that is applied changed.
    pub fn loss_control(&mut self, level: LossLevel, rates: LossRates, now: u64) -> (changed: bool)
        requires
            old(self).sets_on_loss(level, now) ==> old(self).wf(),
        ensures
            (*final(self), changed) == old(self).on_loss(level, rates, now),
            old(self).wf() ==> final(self).wf(),
            old(self).settled() ==> final(self).settled(),
    {
        match level {
            LossLevel::High => {
                if now > self.last_decrease_on_loss && now - self.last_decrease_on_loss
                    > LOSS_UPDATE_INTERVAL {
                    self.state = CongestionControlOp::Decrease;
                    self.last_decrease_on_loss = now;
                    return self.set_bitrate(rates.decreased, ControllerType::Loss);
                }
                false
            },
            LossLevel::Low => {
                if now > self.last_increase_on_loss && now - self.last_increase_on_loss
                    > LOSS_UPDATE_INTERVAL {
                    self.state = CongestionControlOp::Increase;
                    self.last_increase_on_loss = now;
                    return self.set_bitrate(rates.increased, ControllerType::Loss);
                }
                false
            },
            LossLevel::Between => false,
        }
    }

    /// Follows the delay. Tells whether the rate that is applied changed.
    pub fn delay_control(&mut self, usage: Usage, rates: DelayRates, now: u64) -> (changed: bool)
        requires
            old(self).sets_on_delay(usage, rates, now) ==> old(self).wf(),
        ensures
            (*final(self), changed) == old(self).on_delay(usage, rates, now),
            old(self).wf() ==> final(self).wf(),
            old(self).settled() ==> final(self).settled(),
    {
        match usage {
            Usage::Normal => {
                match self.state {
                    CongestionControlOp::Increase | CongestionControlOp::Hold => {
                        if let Some(bitrate) = self.compute_increased_rate(rates, now) {
                            self.state = CongestionControlOp::Increase;
                            return self.set_bitrate(bitrate, ControllerType::Delay);
                        }
                    },
                    CongestionControlOp::Decrease => {},
                }
            },
            Usage::Over => {
                if self.may_decrease(now) {
                    self.state = CongestionControlOp::Decrease;
                    self.last_decrease_on_delay = now;
                    return self.set_bitrate(rates.decreased, ControllerType::Delay);
                }
            },
            Usage::Under => {
                if let CongestionControlOp::Increase = self.state {
                    if let Some(bitrate) = self.compute_increased_rate(rates, now) {
                        return self.set_bitrate(bitrate, ControllerType::Delay);
                    }
                }
            },
        }
        self.state = CongestionControlOp::Hold;
        false
    }

    /// What delay does to the rate, and loss where delay changes nothing.
    pub open spec fn controlled(
        self,
        usage: Usage,
        delay_rates: DelayRates,
        level: LossLevel,
        loss_rates: LossRates,
        now: u64,
    ) -> (RateControllerInner, bool) {
        let (on_delay, changed) = self.on_delay(usage, delay_rates, now);
        if changed {
            (on_delay, true)
        } else {
            on_delay.on_loss(level, loss_rates, now)
        }
    }

    /// Whether delay and loss can be followed: where a target is to be set, there has
    /// to be a range to keep.
    pub fn can_control(&self, usage: Usage, delay_rates: DelayRates, level: LossLevel, now: u64) -> (
        answer: bool)
        ensures
            answer == (self.sets_on_delay(usage, delay_rates, now) || self.sets_on_loss(level, now)
                ==> self.wf()),
    {
        if self.min_bitrate <= self.max_bitrate {
            return true;
        }
        let can_raise = self.time_since_increase(now).is_some() && delay_rates.increase(
            self.target_bitrate_on_delay,
        ).is_some();
        let on_delay = match (usage, self.state) {
            (Usage::Normal, CongestionControlOp::Decrease) => false,
            (Usage::Normal, _) => can_raise,
            (Usage::Over, _) => self.may_decrease(now),
            (Usage::Under, CongestionControlOp::Increase) => can_raise,
            (Usage::Under, _) => false,
        };
        let on_loss = match level {
            LossLevel::High => now > self.last_decrease_on_loss && now
                - self.last_decrease_on_loss > LOSS_UPDATE_INTERVAL,
            LossLevel::Low => now > self.last_increase_on_loss && now
                - self.last_increase_on_loss > LOSS_UPDATE_INTERVAL,
            LossLevel::Between => false,
        };
        !on_delay && !on_loss
    }

    /// Follows the delay, and the loss where the delay changed nothing. Tells
    /// whether the rate that is applied changed.
    pub fn control(
        &mut self,
        usage: Usage,
        delay_rates: DelayRates,
        level: LossLevel,
        loss_rates: LossRates,
        now: u64,
    ) -> (changed: bool)
        requires
            old(self).sets_on_delay(usage, delay_rates, now) || old(self).sets_on_loss(
                level,
                now,
            ) ==> old(self).wf(),
        ensures
            (*final(self), changed) == old(self).controlled(
                usage,
                delay_rates,
                level,
                loss_rates,
                now,
            ),
            !changed ==> final(self).bitrate == old(self).bitrate,
            old(self).wf() ==> final(self).wf(),
            old(self).settled() ==> final(self).settled(),
    {
        if self.delay_control(usage, delay_rates, now) {
            true
        } else {
            self.loss_control(level, loss_rates, now)
        }
    }
}

/// The controller as the pipeline sees it.
#[derive(Debug)]
pub struct RateController {
    pub inner: RateControllerInner,
}

impl RateController {
    /// A controller with the usual rates.
    pub fn new(now: u64) -> (controller: RateController)
        ensures
            controller.inner == (RateControllerInner {
                target_bitrate_on_delay: DEFAULT_START_BITRATE,
                last_increase_on_delay: None,
                last_decrease_on_delay: now,
                target_bitrate_on_loss: DEFAULT_START_BITRATE,
                last_increase_on_loss: now,
                last_decrease_on_loss: now,
                state: CongestionControlOp::Increase,
                min_bitrate: DEFAULT_MIN_BITRATE,
                max_bitrate: DEFAULT_MAX_BITRATE,
                bitrate: DEFAULT_START_BITRATE,
            }),
            controller.inner.wf(),
            controller.inner.settled(),
    {
        RateController { inner: RateControllerInner::new(now) }
    }

    /// Whether a pacer sends at the rate that is applied.
    pub open spec fn paces<B>(self, pacer: Pacer<B>) -> bool {
        pacer.rate() == self.inner.bitrate
    }

    /// Makes a pacer send at the rate that is applied.
    pub fn pace<B>(&self, pacer: &mut Pacer<B>)
        ensures
            final(pacer).rate() == self.inner.bitrate,
            final(pacer).waiting() == old(pacer).waiting(),
    {
        pacer.set_bitrate(self.inner.bitrate);
    }

    /// Sets the range, and starts at a rate, which the pacer sends at.
    pub fn start<B>(
        &mut self,
        pacer: &mut Pacer<B>,
        min_bitrate: Bitrate,
        start_bitrate: Bitrate,
        max_bitrate: Bitrate,
    )
        ensures
            final(self).inner == (RateControllerInner {
                min_bitrate,
                max_bitrate,
                target_bitrate_on_delay: start_bitrate,
                target_bitrate_on_loss: start_bitrate,
                bitrate: start_bitrate,
                ..old(self).inner
            }),
            min_bitrate <= start_bitrate <= max_bitrate ==> final(self).inner.settled(),
            final(self).paces(*final(pacer)),
            final(pacer).rate() == start_bitrate,
            final(pacer).waiting() == old(pacer).waiting(),
    {
        self.inner.start(min_bitrate, start_bitrate, max_bitrate);
        self.pace(pacer);
    }

    /// Sets one target, within the range. Where that changes the rate that is
    /// applied, the pacer sends at it from then on. Tells whether it changed.
    pub fn set_bitrate<B>(
        &mut self,
        pacer: &mut Pacer<B>,
        bitrate: Bitrate,
        controller_type: ControllerType,
    ) -> (changed: bool)
        requires
            old(self).inner.wf(),
        ensures
            (final(self).inner, changed) == old(self).inner.with_bitrate(bitrate, controller_type),
            final(self).inner.wf(),
            old(self).inner.settled() ==> final(self).inner.settled(),
            final(pacer).rate() == (if changed {
                final(self).inner.bitrate
            } else {
                old(pacer).rate()
            }),
            final(pacer).waiting() == old(pacer).waiting(),
            old(self).paces(*old(pacer)) ==> final(self).paces(*final(pacer)),
    {
        let changed = self.inner.set_bitrate(bitrate, controller_type);
        if changed {
            self.pace(pacer);
        }
        changed
    }

    /// Follows the delay, and the loss where the delay changed nothing. Where that
    /// changes the rate that is applied, the pacer sends at it from then on. Tells
    /// whether it changed.
    pub fn control<B>(
        &mut self,
        pacer: &mut Pacer<B>,
        usage: Usage,
        delay_rates: DelayRates,
        level: LossLevel,
        loss_rates: LossRates,
        now: u64,
    ) -> (changed: bool)
        requires
            old(self).inner.sets_on_delay(usage, delay_rates, now) || old(self).inner.sets_on_loss(
                level,
                now,
            ) ==> old(self).inner.wf(),
        ensures
            (final(self).inner, changed) == old(self).inner.controlled(
                usage,
                delay_rates,
                level,
                loss_rates,
                now,
            ),
            old(self).inner.wf() ==> final(self).inner.wf(),
            old(self).inner.settled() ==> final(self).inner.settled(),
            final(pacer).rate() == (if changed {
                final(self).inner.bitrate
            } else {
                old(pacer).rate()
            }),
            final(pacer).waiting() == old(pacer).waiting(),
            old(self).paces(*old(pacer)) ==> final(self).paces(*final(pacer)),
    {
        let changed = self.inner.control(usage, delay_rates, level, loss_rates, now);
        if changed {
            self.pace(pacer);
        }
        changed
    }

    /// The rate that is applied, as a signed number.
    pub fn bitrate(&self) -> (bitrate: i32)
        ensures
            bitrate == (if self.inner.bitrate <= i32::MAX {
                self.inner.bitrate as int
            } else {
                self.inner.bitrate - 0x1_0000_0000
            }),
    {
        if self.inner.bitrate <= 0x7fff_ffff {
            self.inner.bitrate as i32
        } else {
            (self.inner.bitrate as i64 - 0x1_0000_0000) as i32
        }
    }
}

/// A target that is multiplied is never lowered by it.
pub proof fn multiplied_targets_are_not_lowered(rates: DelayRates, target: Bitrate)
    requires
        rates.growth is Multiplicative,
    ensures
        rates.increased(target) matches Some(rate) ==> rate >= target,
{
}

/// A target goes up to at most one and a half times the rate that packets arrive
/// at, unless it is no less than that already and is multiplied.
pub proof fn targets_follow_what_arrives(rates: DelayRates, target: Bitrate)
    requires
        rates.growth matches Growth::Multiplicative { twice_down, twice_up } ==> {
            &&& twice_down <= twice_up
            &&& 3 * rates.effective > 2 * target
        },
    ensures
        rates.increased(target) matches Some(rate) ==> 2 * rate <= 3 * rates.effective,
{
}

/// A rate that was set is in range, and the rate that is applied changes exactly
/// when the lower of the targets does.
pub proof fn rates_stay_in_range(
    controller: RateControllerInner,
    bitrate: Bitrate,
    controller_type: ControllerType,
)
    requires
        controller.wf(),
        controller.settled(),
    ensures
        ({
            let (next, changed) = controller.with_bitrate(bitrate, controller_type);
            &&& next.settled()
            &&& next.min_bitrate <= next.bitrate <= next.max_bitrate
            &&& changed <==> next.bitrate != controller.bitrate
        }),
{
}

/// Whatever rate a controller started with, a rate that it changes to is in range.
pub proof fn changed_rates_are_in_range(
    controller: RateControllerInner,
    bitrate: Bitrate,
    controller_type: ControllerType,
)
    requires
        controller.wf(),
    ensures
        ({
            let (next, changed) = controller.with_bitrate(bitrate, controller_type);
            &&& changed ==> next.min_bitrate <= next.bitrate <= next.max_bitrate
            &&& !changed ==> next.bitrate == controller.bitrate
        }),
{
}

/// The same target twice changes the rate at most once.
pub proof fn setting_twice_changes_once(
    controller: RateControllerInner,
    bitrate: Bitrate,
    controller_type: ControllerType,
)
    requires
        controller.wf(),
        controller.settled(),
    ensures
        ({
            let next = controller.with_bitrate(bitrate, controller_type).0;
            next.with_bitrate(bitrate, controller_type) == (next, false)
        }),
{
}

/// Rates change no more often than the intervals allow: right after a decrease
/// there is no other, whatever is measured.
pub proof fn decreases_are_spaced(
    controller: RateControllerInner,
    rates: DelayRates,
    again: DelayRates,
    now: u64,
    later: u64,
)
    requires
        controller.decrease_due(now as int),
        now <= later <= now + DELAY_UPDATE_INTERVAL,
    ensures
        ({
            let next = controller.on_delay(Usage::Over, rates, now).0;
            &&& !next.decrease_due(later as int)
            &&& next.on_delay(Usage::Over, again, later) == (
                RateControllerInner { state: CongestionControlOp::Hold, ..next },
                false,
            )
        }),
{
}

/// After a decrease the rate is held before it is raised again, as long as the
/// network is used normally or less.
pub proof fn a_decrease_is_followed_by_a_hold(
    controller: RateControllerInner,
    usage: Usage,
    rates: DelayRates,
    now: u64,
)
    requires
        controller.state is Decrease,
        usage !is Over,
    ensures
        controller.on_delay(usage, rates, now) == (
            RateControllerInner { state: CongestionControlOp::Hold, ..controller },
            false,
        ),
{
}

} // verus!
