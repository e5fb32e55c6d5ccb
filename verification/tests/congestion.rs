use webrtcsink::numbers::count_occurrences;
use webrtcsink::webrtcsink::gcc::controller::{
    CongestionControlOp, ControllerType, DelayRates, Growth, LossLevel, LossRates, RateController,
    RateControllerInner,
};
use webrtcsink::webrtcsink::gcc::detector::{DetectorInner, ThresholdStep, Usage};
use webrtcsink::webrtcsink::gcc::packet::{ts2dur, Feedback, Packet, PacketGroup};
use webrtcsink::webrtcsink::gcc::pacer::{is_send_pad, Pacer};
use webrtcsink::webrtcsink::{WebRTCSinkCongestionControl, WebRTCSinkError};

const MS: i64 = 1_000_000;

fn packet(departure: i64, arrival: i64) -> Packet {
    Packet { departure: departure * MS, arrival: arrival * MS, size: 100 }
}

#[test]
fn clock_readings_are_durations() {
    assert_eq!(ts2dur(5), 5);
    assert_eq!(ts2dur(i64::MAX as u64), i64::MAX);
    assert_eq!(ts2dur(u64::MAX), -1);
    assert_eq!(ts2dur(1 << 63), i64::MIN);
}

#[test]
fn feedback_becomes_packets() {
    let feedback = |lost, local_ts, remote_ts| Feedback { lost, local_ts, remote_ts, size: 7 };
    assert!(Packet::from_structure(&feedback(false, None, Some(1))).is_none());
    let lost = Packet::from_structure(&feedback(true, Some(3), None)).unwrap();
    assert_eq!((lost.departure, lost.arrival, lost.size), (3, 0, 7));
    let arrived = Packet::from_structure(&feedback(false, Some(3), Some(9))).unwrap();
    assert_eq!((arrived.departure, arrived.arrival, arrived.size), (3, 9, 7));
}

#[test]
fn groups_keep_the_first_departure_and_the_last_arrival() {
    let mut first = PacketGroup::new();
    first.add(packet(1, 20));
    first.add(packet(2, 15));
    assert_eq!((first.departure, first.arrival), (MS, Some(20 * MS)));
    let mut second = PacketGroup::new();
    second.add(packet(11, 33));
    assert_eq!(second.inter_departure_time(&first), 10 * MS as i128);
    assert_eq!(second.inter_arrival_time(&first), 13 * MS as i128);
    assert_eq!(second.inter_delay_variation(&first), 3 * MS as i128);
    assert_eq!(first.inter_departure_time_pkt(&packet(3, 4)), 2 * MS as i128);
    assert_eq!(first.inter_arrival_time_pkt(&packet(3, 4)), -16 * MS as i128);
    assert_eq!(first.inter_delay_variation_pkt(&packet(3, 4)), -18 * MS as i128);
}

#[test]
fn a_new_packet_past_the_burst_ends_a_group() {
    let mut detector = DetectorInner::new(0);
    // The second packet belongs to the group of the first; the third ends that
    // group and belongs to none; the fourth starts the next group.
    let report = vec![
        packet(10, 20),
        packet(12, 21),
        packet(20, 40),
        packet(30, 50),
        packet(40, 75),
        packet(50, 80),
        packet(60, 95),
    ];
    let update = detector.update(&report, 100 * MS as u64);
    assert_eq!(update.lost, 0);
    // Groups: (10, 21), (30, 50), (50, 80).
    assert_eq!(update.measures, vec![9 * MS as i128, 10 * MS as i128]);
    assert_eq!(detector.measure(), 10 * MS as i128);
    assert_eq!(detector.received(), 7);
    assert_eq!(detector.rtts(), vec![40 * MS as i128]);
}

#[test]
fn reports_can_be_split() {
    let report = vec![packet(10, 20), packet(20, 40), packet(30, 50), packet(40, 75), packet(50, 80)];
    let mut whole = DetectorInner::new(0);
    let update = whole.update(&report, 0);
    let mut parts = DetectorInner::new(0);
    let mut measures = parts.update(&report[..2].to_vec(), 0).measures;
    measures.extend(parts.update(&report[2..].to_vec(), 0).measures);
    assert_eq!(update.measures, measures);
}

#[test]
fn lost_packets_and_packets_out_of_order_join_no_group() {
    let mut detector = DetectorInner::new(0);
    let report = vec![
        packet(10, 20),
        packet(11, 0),
        packet(30, 15),
        packet(5, 25),
        packet(12, 0),
    ];
    let update = detector.update(&report, 0);
    assert_eq!(update.lost, 2);
    assert!(update.measures.is_empty());
    assert_eq!(detector.received(), 3);
}

#[test]
fn packets_that_the_network_brought_closer_stay_in_the_group() {
    let mut detector = DetectorInner::new(0);
    detector.update(&vec![packet(10, 20), packet(17, 23), packet(40, 60)], 0);
    let update = detector.update(&vec![packet(50, 70), packet(60, 90)], 0);
    // The first group left at 10 ms and ended at 23 ms, the second left 40 ms later and
    // ended 47 ms later.
    assert_eq!(update.measures, vec![(47 - 40) * MS as i128]);
}

#[test]
fn packets_older_than_a_second_are_forgotten() {
    let mut detector = DetectorInner::new(0);
    detector.update(&vec![packet(1, 3000), packet(2, 1000), packet(3, 2000)], 0);
    assert_eq!(detector.received(), 2);
    assert_eq!(detector.effective_window(), Some((200, 1000 * MS as i128)));
    detector.update(&vec![packet(4, 3001)], 0);
    assert_eq!(detector.effective_window(), Some((200, MS as i128)));
    assert_eq!(DetectorInner::new(0).effective_window(), None);
}

#[test]
fn a_hundred_round_trips_are_remembered() {
    let mut detector = DetectorInner::new(0);
    for i in 0..150 {
        detector.update(&vec![packet(1, 2)], (i + 1) * MS as u64);
    }
    let rtts = detector.rtts();
    assert_eq!(rtts.len(), 100);
    assert_eq!(rtts[0], 50 * MS as i128);
    assert_eq!(rtts[99], 149 * MS as i128);
    detector.update(&vec![], 0);
    assert_eq!(detector.rtts()[99], i64::MAX as i128);
}

#[test]
fn estimates_are_weighed_and_compared() {
    let mut detector = DetectorInner::new(0);
    let ms = MS as u64;
    detector.set_estimate(5 * MS as i128);
    assert_eq!(detector.upcoming_step(0), None);
    assert_eq!(detector.compare_threshold(0, 7), (Usage::Normal, 5 * MS as i128));
    // 10 ms against a threshold of 12.5 ms.
    assert_eq!(
        detector.upcoming_step(ms),
        Some(ThresholdStep { rising: false, distance: -2, elapsed: 0 })
    );
    assert_eq!(detector.compare_threshold(ms, 7), (Usage::Normal, 10 * MS as i128));
    assert_eq!(detector.threshold(), 12_500_000);
    // 15 ms: above it, 2.5 ms away, 300 ms later.
    assert_eq!(
        detector.upcoming_step(301 * ms),
        Some(ThresholdStep { rising: true, distance: 2, elapsed: 100 })
    );
    assert_eq!(detector.compare_threshold(301 * ms, 7), (Usage::Over, 15 * MS as i128));
    assert_eq!(detector.threshold(), 12_500_007);
    // -40 ms is below, and too far away for the threshold to follow.
    detector.set_estimate(-10 * MS as i128);
    assert_eq!(detector.upcoming_step(302 * ms), None);
    assert_eq!(detector.compare_threshold(302 * ms, 7), (Usage::Under, -40 * MS as i128));
    assert_eq!(detector.threshold(), 12_500_007);
}

#[test]
fn no_more_than_thirty_deltas_weigh() {
    let mut detector = DetectorInner::new(0);
    detector.set_estimate(1);
    for _ in 0..40 {
        detector.compare_threshold(0, 0);
    }
    assert_eq!(detector.compare_threshold(0, 0).1, 30);
}

#[test]
fn the_threshold_follows_the_estimates_and_stays_in_range() {
    let mut detector = DetectorInner::new(0);
    let ms = MS as u64;
    assert_eq!(detector.threshold(), 12_500_000);
    // Nothing is known of the time before the first update.
    detector.update_threshold(20 * MS, 10 * ms, ms);
    assert_eq!(detector.threshold(), 12_500_000);
    detector.update_threshold(-20 * MS, 20 * ms, ms);
    assert_eq!(detector.threshold(), 13_500_000);
    detector.update_threshold(MS, 30 * ms, ms);
    assert_eq!(detector.threshold(), 12_500_000);
    // Less than a millisecond away, and less than a millisecond later.
    detector.update_threshold(13 * MS, 40 * ms, ms);
    detector.update_threshold(20 * MS, 40 * ms + 1, ms);
    assert_eq!(detector.threshold(), 12_500_000);
    // 15 ms away, and a little more.
    detector.update_threshold(27_500_001, 60 * ms, ms);
    assert_eq!(detector.threshold(), 12_500_000);
    detector.update_threshold(27_500_000, 70 * ms, u64::MAX);
    assert_eq!(detector.threshold(), 600 * MS);
    detector.update_threshold(0, 80 * ms, u64::MAX);
    assert_eq!(detector.threshold(), 6 * MS);
}

/// Filters an estimate, with the threshold left where it is.
fn filtered(detector: &mut DetectorInner, estimate: i128, now: i64) -> Usage {
    detector.set_estimate(estimate);
    assert!(detector.can_filter((now * MS) as u64));
    detector.overuse_filter((now * MS) as u64, 0);
    detector.usage()
}

#[test]
fn overuse_has_to_last_and_to_grow() {
    let ms = MS as i128;
    let mut detector = DetectorInner::new(0);
    // The first estimate is not compared.
    assert_eq!(filtered(&mut detector, 100 * ms, 0), Usage::Normal);
    // 20 ms, above 12.5 ms, and for 50 ms, but only once.
    assert_eq!(filtered(&mut detector, 10 * ms, 50), Usage::Normal);
    // 19.5 ms: no more than before.
    assert_eq!(filtered(&mut detector, 6_500_000, 51), Usage::Normal);
    // 24 ms.
    assert_eq!(filtered(&mut detector, 6 * ms, 52), Usage::Over);
    // -25 ms.
    assert_eq!(filtered(&mut detector, -5 * ms, 53), Usage::Under);
    // 30 ms, then 31.5 ms, but only for 2 ms so far.
    assert_eq!(filtered(&mut detector, 5 * ms, 54), Usage::Under);
    assert_eq!(filtered(&mut detector, 4_500_000, 55), Usage::Under);
    assert_eq!(filtered(&mut detector, 0, 56), Usage::Normal);
}

#[test]
fn the_threshold_moves_with_what_is_filtered() {
    let ms = MS as u64;
    let mut detector = DetectorInner::new(0);
    detector.set_estimate(7 * MS as i128);
    detector.overuse_filter(0, 9);
    assert_eq!(detector.threshold(), 12_500_000);
    // 14 ms: nothing is known yet of the time before.
    detector.overuse_filter(10 * ms, 9);
    assert_eq!(detector.threshold(), 12_500_000);
    // 21 ms.
    detector.overuse_filter(20 * ms, 9);
    assert_eq!(detector.threshold(), 12_500_009);
}

#[test]
fn buffers_leave_in_order_and_within_the_budget() {
    let mut pacer: Pacer<u32> = Pacer::new();
    assert_eq!(pacer.bitrate(), 2_048_000);
    pacer.set_bitrate(1_000_000);
    // 1000 bytes are 8000 bits, 30 ms are 30000 bits.
    for i in 0..5 {
        pacer.push(i, 1000);
    }
    // No budget: 40000 bits wait, and two buffers leave to get to 30 ms or less.
    assert_eq!(pacer.release(0), vec![0, 1]);
    assert_eq!(pacer.release(0), Vec::<u32>::new());
    // 5 ms are 5000 bits: one buffer.
    assert_eq!(pacer.release(5_000_000), vec![2]);
    // 9 ms are 9000 bits: two buffers.
    assert_eq!(pacer.release(9_000_000), vec![3, 4]);
    assert_eq!(pacer.release(1_000_000_000), Vec::<u32>::new());
}

#[test]
fn budgets_are_rounded_to_the_nearest_bit() {
    let mut pacer: Pacer<&str> = Pacer::new();
    pacer.set_bitrate(1000);
    pacer.push("a", 1);
    // 0.499 bits, then 0.5 bits.
    assert!(pacer.release(499_000).is_empty());
    assert_eq!(pacer.release(500_000), vec!["a"]);
}

fn rates(increased: Option<u32>, decreased: u32) -> DelayRates {
    let growth = match increased {
        Some(rate) => Growth::Additive { raised: rate as u64 },
        None => Growth::Multiplicative { twice_down: 0, twice_up: 0 },
    };
    DelayRates { effective: u32::MAX, growth, decreased }
}

#[test]
fn targets_that_are_added_to_follow_what_arrives() {
    let added = |effective: u32, raised: u64| {
        DelayRates { effective, growth: Growth::Additive { raised }, decreased: 0 }.increase(1000)
    };
    assert_eq!(added(2000, 2500), Some(2500));
    assert_eq!(added(1001, 2500), Some(1501));
    assert_eq!(added(0, 2500), Some(0));
    assert_eq!(added(u32::MAX, 1 << 40), Some(u32::MAX));
}

#[test]
fn targets_that_are_multiplied_follow_what_arrives() {
    let multiplied = |effective: u32, twice_down: u64, twice_up: u64| {
        let growth = Growth::Multiplicative { twice_down, twice_up };
        DelayRates { effective, growth, decreased: 0 }.increase(1000)
    };
    // 1080, below one and a half times 1000.
    assert_eq!(multiplied(1000, 2160, 2160), Some(1080));
    // One and a half times 701 are 1051.5, above the target and below 1080.
    assert_eq!(multiplied(701, 2160, 2160), Some(1051));
    // A little more than 1051.5 counts as more.
    assert_eq!(multiplied(701, 2103, 2104), Some(1051));
    assert_eq!(multiplied(701, 2103, 2103), Some(1051));
    // One and a half times 600 are 900, below the target.
    assert_eq!(multiplied(600, 2160, 2160), Some(1080));
    // A little less than the target.
    assert_eq!(multiplied(600, 1999, 2000), None);
    assert_eq!(multiplied(600, 2000, 2000), Some(1000));
}

#[test]
fn pacers_send_at_the_rate_that_is_applied() {
    let mut pacer: Pacer<u8> = Pacer::new();
    let mut controller = RateController::new(0);
    assert_eq!(pacer.bitrate(), controller.inner.bitrate);
    pacer.push(7, 100);
    controller.start(&mut pacer, 100, 200, 300);
    assert_eq!(pacer.bitrate(), 200);
    // The target that rests on delay rises, the lower target does not.
    assert!(!controller.set_bitrate(&mut pacer, 250, ControllerType::Delay));
    assert_eq!(pacer.bitrate(), 200);
    assert!(controller.set_bitrate(&mut pacer, 260, ControllerType::Loss));
    assert_eq!(pacer.bitrate(), 250);
    let loss = LossRates { increased: 0, decreased: 0 };
    let level = LossLevel::Between;
    assert!(controller.control(&mut pacer, Usage::Over, rates(None, 1), level, loss, 200 * MS as u64));
    assert_eq!(pacer.bitrate(), 100);
    assert!(!controller.control(&mut pacer, Usage::Under, rates(None, 1), level, loss, 200 * MS as u64));
    assert_eq!(pacer.bitrate(), 100);
    assert_eq!(pacer.release(1_000_000_000), vec![7]);
    pacer.set_bitrate(1);
    controller.pace(&mut pacer);
    assert_eq!(pacer.bitrate(), 100);
}

#[test]
fn rates_stay_between_their_bounds() {
    let mut pacer: Pacer<()> = Pacer::new();
    let mut controller = RateController::new(0);
    assert_eq!(controller.bitrate(), 2_048_000);
    controller.start(&mut pacer, 1000, 2000, 3000);
    assert_eq!(controller.bitrate(), 2000);
    let inner = &mut controller.inner;
    assert!(!inner.set_bitrate(5000, ControllerType::Delay));
    assert_eq!(inner.target_bitrate_on_delay, 3000);
    assert_eq!(inner.bitrate, 2000);
    assert!(inner.set_bitrate(5000, ControllerType::Loss));
    assert_eq!(inner.bitrate, 3000);
    assert!(inner.set_bitrate(10, ControllerType::Loss));
    assert!(!inner.set_bitrate(10, ControllerType::Loss));
    assert_eq!(controller.bitrate(), 1000);
    controller.start(&mut pacer, 0, u32::MAX, u32::MAX);
    assert_eq!(controller.bitrate(), -1);
}

#[test]
fn loss_moves_the_rate_every_200_ms() {
    let ms = MS as u64;
    let mut controller = RateControllerInner::new(0);
    let loss = LossRates { increased: 2_150_400, decreased: 1_000_000 };
    assert!(!controller.loss_control(LossLevel::High, loss, 200 * ms));
    assert!(controller.loss_control(LossLevel::High, loss, 200 * ms + 1));
    assert_eq!(controller.bitrate, 1_000_000);
    assert_eq!(controller.state, CongestionControlOp::Decrease);
    assert!(!controller.loss_control(LossLevel::High, loss, 300 * ms));
    assert!(!controller.loss_control(LossLevel::Between, loss, 900 * ms));
    let loss = LossRates { increased: 1_050_000, decreased: 1 };
    assert!(controller.loss_control(LossLevel::Low, loss, 900 * ms));
    assert_eq!(controller.bitrate, 1_050_000);
    assert_eq!(controller.state, CongestionControlOp::Increase);
}

#[test]
fn delay_moves_the_rate_every_100_ms() {
    let ms = MS as u64;
    let mut controller = RateControllerInner::new(0);
    assert_eq!(controller.time_since_increase(0), Some(0));
    assert!(!controller.delay_control(Usage::Normal, rates(Some(3_000_000), 0), 0));
    assert_eq!(controller.target_bitrate_on_delay, 3_000_000);
    assert_eq!(controller.time_since_increase(99 * ms), None);
    assert_eq!(controller.time_since_increase(150 * ms), Some(150));
    assert!(!controller.delay_control(Usage::Normal, rates(Some(4_000_000), 0), 50 * ms));
    assert_eq!(controller.state, CongestionControlOp::Hold);
    assert_eq!(controller.target_bitrate_on_delay, 3_000_000);

    assert!(!controller.may_decrease(100 * ms));
    assert!(!controller.delay_control(Usage::Over, rates(None, 500_000), 100 * ms));
    assert!(controller.may_decrease(101 * ms));
    assert!(controller.delay_control(Usage::Over, rates(None, 500_000), 101 * ms));
    assert_eq!(controller.bitrate, 500_000);
    assert_eq!(controller.state, CongestionControlOp::Decrease);
    // A decrease is followed by a hold.
    assert!(!controller.delay_control(Usage::Normal, rates(Some(600_000), 0), 500 * ms));
    assert_eq!(controller.state, CongestionControlOp::Hold);
    // A hold is left when the network is used normally, not when it is used less.
    assert!(!controller.delay_control(Usage::Under, rates(Some(600_000), 0), 600 * ms));
    assert!(controller.delay_control(Usage::Normal, rates(Some(600_000), 0), 700 * ms));
    assert_eq!(controller.bitrate, 600_000);
    assert!(controller.delay_control(Usage::Under, rates(Some(700_000), 0), 800 * ms));
    assert_eq!(controller.bitrate, 700_000);
    assert!(!controller.delay_control(Usage::Normal, rates(None, 0), 900 * ms));
    assert_eq!(controller.last_increase_on_delay, Some(900 * ms));
}

#[test]
fn loss_counts_where_delay_changes_nothing() {
    let ms = MS as u64;
    let loss = LossRates { increased: 0, decreased: 100_000 };
    let mut controller = RateControllerInner::new(0);
    assert!(controller.control(Usage::Over, rates(None, 900_000), LossLevel::High, loss, 300 * ms));
    assert_eq!(controller.bitrate, 900_000);
    assert!(controller.control(Usage::Over, rates(None, 900_000), LossLevel::High, loss, 301 * ms));
    assert_eq!(controller.bitrate, 100_000);
}

#[test]
fn errors_of_the_sink_have_texts() {
    let id = || "x".to_string();
    assert_eq!(WebRTCSinkError::NoConsumerWithId(id()).message(), "no consumer with id");
    assert_eq!(
        WebRTCSinkError::ConsumerRefusedMedia { peer_id: id(), media_idx: 1 }.message(),
        "consumer refused media"
    );
    assert_eq!(
        WebRTCSinkError::ConsumerNoValidPayload { peer_id: id(), media_idx: 1 }.message(),
        "consumer did not provide valid payload for media"
    );
    assert_eq!(
        WebRTCSinkError::MandatorySdpMlineIndex.message(),
        "SDP mline index is currently mandatory"
    );
    assert_eq!(WebRTCSinkError::DuplicateConsumerId(id()).message(), "duplicate consumer id");
    assert_eq!(
        WebRTCSinkError::ConsumerPipelineError { peer_id: id(), details: id() }.message(),
        "error setting up consumer pipeline"
    );
    assert_eq!(WebRTCSinkCongestionControl::Disabled.nick(), "disabled");
    assert_eq!(WebRTCSinkCongestionControl::Homegrown.nick(), "homegrown");
    assert_eq!(WebRTCSinkCongestionControl::GoogleCongestionControl.nick(), "gcc");
}

#[test]
fn a_rate_that_started_out_of_range_comes_back() {
    let mut pacer: Pacer<()> = Pacer::new();
    let mut controller = RateController::new(0);
    controller.start(&mut pacer, 30, 10, 50);
    assert_eq!(controller.bitrate(), 10);
    assert!(controller.inner.set_bitrate(60, ControllerType::Loss));
    assert_eq!(controller.bitrate(), 30);
    assert_eq!(controller.inner.target_bitrate_on_delay, 10);
}

#[test]
fn what_cannot_be_counted_is_known_beforehand() {
    let mut detector = DetectorInner::new(0);
    assert!(detector.can_compare());
    detector.set_estimate(i128::MAX);
    assert!(detector.can_compare());
    assert_eq!(detector.compare_threshold(0, 0), (Usage::Normal, i128::MAX));
    assert!(!detector.can_compare());
    detector.set_estimate(i64::MAX as i128);
    assert!(!detector.can_compare());
    detector.set_estimate((i64::MAX / 2) as i128);
    assert!(detector.can_compare());
    detector.set_estimate(i64::MIN as i128);
    assert!(!detector.can_compare());
    assert!(!detector.can_filter(0));
    detector.set_estimate(MS as i128);
    assert!(detector.can_filter(u64::MAX));

    let mut pacer: Pacer<()> = Pacer::new();
    pacer.set_bitrate(u32::MAX);
    assert!(pacer.can_release(1_000_000_000));
    assert!(!pacer.can_release(u64::MAX));

    let mut controller = RateControllerInner::new(0);
    controller.start(50, 40, 30);
    let delay = rates(Some(1), 1);
    assert!(!controller.can_control(Usage::Normal, delay, LossLevel::Between, 0));
    assert!(controller.can_control(Usage::Normal, rates(None, 1), LossLevel::Low, 0));
    assert!(controller.can_control(Usage::Over, delay, LossLevel::High, 0));
    assert!(!controller.can_control(Usage::Over, delay, LossLevel::Between, 200_000_000));
    assert!(!controller.can_control(Usage::Under, rates(None, 1), LossLevel::Low, 200_000_001));
    assert!(!controller.loss_control(
        LossLevel::Between,
        LossRates { increased: 1, decreased: 1 },
        0
    ));
}

#[test]
fn packets_are_sent_through_pads_that_are_named_so() {
    assert!(is_send_pad("send_rtp_sink_0"));
    assert!(is_send_pad("send_rtp_sink_"));
    assert!(is_send_pad("send_send_rtp_sink_1"));
    assert!(!is_send_pad("recv_rtp_sink_0"));
    assert!(!is_send_pad("send_rtp_sink"));
    assert!(!is_send_pad("send_rtp_sink_send_rtp_sink_"));
    assert!(!is_send_pad(""));
    for text in ["aaa", "aaaa", "abab", "", "ba"] {
        for part in ["aa", "ab", "a"] {
            let letters = |text: &str| text.chars().collect::<Vec<char>>();
            assert_eq!(
                count_occurrences(&letters(text), &letters(part)),
                text.split(part).count() - 1
            );
        }
    }
}
