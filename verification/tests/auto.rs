use r503::auto::{
    AutoEnroll, AutoEnrollConfig, AutoEnrollLocation, AutoEnrollResponse, AutoIdentify,
    AutoIdentifyConfig, AutoIdentifyResponse, EnrollState, IdentifyState,
};
use r503::checksum::Checksum;
use r503::constants::{
    AutoEnrollStep, AutoIdentCount, AutoIdentifyStep, ConfirmationCode, IdentifySafety,
};
use r503::error::{Error, Starved};
use r503::serial::Serial;
use r503::wire_traits::{FromWire, ToWire};

const ADDR: u32 = 0xFFFF_FFFF;

fn sum_of(bytes: &[u8]) -> u16 {
    let mut sum: u32 = 0;
    for b in bytes {
        sum += *b as u32;
    }
    (sum % 0x1_0000) as u16
}

fn ack_of(address: u32, confirmation: u8, answer: &[u8]) -> Vec<u8> {
    let mut covered = vec![0x07];
    covered.extend_from_slice(&((answer.len() + 3) as u16).to_be_bytes());
    covered.push(confirmation);
    covered.extend_from_slice(answer);
    let mut out = vec![0xEF, 0x01];
    out.extend_from_slice(&address.to_be_bytes());
    out.extend_from_slice(&covered);
    out.extend_from_slice(&sum_of(&covered).to_be_bytes());
    out
}

fn enroll_ack(step: u8, slot: u8) -> Vec<u8> {
    ack_of(ADDR, 0x00, &[step, 0x5A, slot])
}

fn identify_ack(step: u8, slot: u8, score: u16) -> Vec<u8> {
    let [hi, lo] = score.to_be_bytes();
    ack_of(ADDR, 0x00, &[step, 0xA5, slot, hi, lo])
}

fn closed_line(bytes: &[u8]) -> Serial {
    let mut serial = Serial::new();
    serial.feed(bytes);
    serial.close();
    serial
}

#[test]
fn a_location_is_a_slot_below_200_or_the_device_s_choice() {
    assert!(AutoEnrollLocation::specific(0x00).is_some());
    assert!(AutoEnrollLocation::specific(0xC7).is_some());
    assert!(AutoEnrollLocation::specific(0xC8).is_none());
    assert!(AutoEnrollLocation::specific(0xFF).is_none());
    assert_eq!(AutoEnrollLocation::specific(0xC7).unwrap().value(), 0xC7);
    assert_eq!(AutoEnrollLocation::automatic().value(), 0xC8);
    let cfg = AutoEnrollConfig {
        location: AutoEnrollLocation::specific(0x2A).unwrap(),
        cover_id: true,
        allow_dupes: false,
        return_status: false,
        require_release: true,
    };
    let mut serial = Serial::new();
    let mut cksm = Checksum::new();
    assert_eq!(cfg.size_on_wire(), 5);
    cfg.to_wire(&mut serial, Some(&mut cksm));
    assert_eq!(serial.written(), &[0x2A, 1, 0, 0, 1]);
    assert_eq!(cksm.finalize(), 0x2C);
    let mut serial = Serial::new();
    AutoEnrollConfig { location: AutoEnrollLocation::automatic(), ..cfg }.to_wire(&mut serial, None);
    assert_eq!(serial.written(), &[0xC8, 1, 0, 0, 1]);
}

#[test]
fn starting_an_enrollment_sends_the_default_configuration() {
    let mut enroll = AutoEnroll::new(ADDR);
    assert_eq!(enroll.state(), EnrollState::Idle);
    let mut serial = Serial::new();
    enroll.start(&mut serial, AutoEnrollConfig::default());
    // covered: 01 00 08 31 C8 00 00 01 01, sum 0x0104
    assert_eq!(
        serial.written(),
        &[
            0xEF, 0x01, 0xFF, 0xFF, 0xFF, 0xFF, 0x01, 0x00, 0x08, 0x31, 0xC8, 0x00, 0x00, 0x01,
            0x01, 0x01, 0x04
        ]
    );
    assert_eq!(enroll.state(), EnrollState::Awaiting(AutoEnrollStep::CollectImage1));
}

#[test]
fn enroll_answer_drops_the_byte_in_the_middle() {
    let mut serial = closed_line(&[0x0F, 0x77, 0x09]);
    let mut cksm = Checksum::new();
    assert_eq!(
        AutoEnrollResponse::from_wire(&mut serial, Some(&mut cksm)),
        Ok(AutoEnrollResponse { step: AutoEnrollStep::StorageTemplate, model_id: 9 })
    );
    assert_eq!(cksm.finalize(), 0x0F + 0x77 + 0x09);
    let mut serial = closed_line(&[0x10, 0x00, 0x09]);
    assert_eq!(AutoEnrollResponse::from_wire(&mut serial, None), Err(Error::IncorrectData));
    let mut serial = closed_line(&[0x00, 0x00, 0x09]);
    assert_eq!(AutoEnrollResponse::from_wire(&mut serial, None), Err(Error::IncorrectData));
}

#[test]
fn a_first_acknowledge_of_the_second_step_is_refused() {
    let mut enroll = AutoEnroll::new(ADDR);
    let mut serial = closed_line(&enroll_ack(0x02, 0));
    enroll.start(&mut serial, AutoEnrollConfig::default());
    assert_eq!(enroll.wait_collect_image1(&mut serial), Err(Error::IncorrectData));
    assert_eq!(enroll.state(), EnrollState::Failed(Error::IncorrectData));
    assert_eq!(serial.pending(), 0);
}

#[test]
fn the_fifteen_waits_in_order_store_the_template() {
    let mut wire = Vec::new();
    for step in 1..=15u8 {
        wire.extend_from_slice(&enroll_ack(step, 0x11));
    }
    let mut serial = closed_line(&wire);
    let mut enroll = AutoEnroll::new(ADDR);
    enroll.start(&mut serial, AutoEnrollConfig::default());
    assert_eq!(enroll.wait_collect_image1(&mut serial), Ok(()));
    assert_eq!(enroll.state(), EnrollState::Awaiting(AutoEnrollStep::GenerateFeature1));
    assert_eq!(enroll.wait_generate_feature1(&mut serial), Ok(()));
    assert_eq!(enroll.wait_collect_image2(&mut serial), Ok(()));
    assert_eq!(enroll.wait_generate_feature2(&mut serial), Ok(()));
    assert_eq!(enroll.wait_collect_image3(&mut serial), Ok(()));
    assert_eq!(enroll.wait_generate_feature3(&mut serial), Ok(()));
    assert_eq!(enroll.wait_collect_image4(&mut serial), Ok(()));
    assert_eq!(enroll.wait_generate_feature4(&mut serial), Ok(()));
    assert_eq!(enroll.wait_collect_image5(&mut serial), Ok(()));
    assert_eq!(enroll.wait_generate_feature5(&mut serial), Ok(()));
    assert_eq!(enroll.wait_collect_image6(&mut serial), Ok(()));
    assert_eq!(enroll.wait_generate_feature6(&mut serial), Ok(()));
    assert_eq!(enroll.wait_repeatfingerprint(&mut serial), Ok(()));
    assert_eq!(enroll.state(), EnrollState::Awaiting(AutoEnrollStep::MergeFeature));
    assert_eq!(enroll.wait_merge_feature(&mut serial), Ok(()));
    assert_eq!(enroll.state(), EnrollState::Awaiting(AutoEnrollStep::StorageTemplate));
    assert_eq!(enroll.wait_storage_template(&mut serial), Ok(0x11));
    assert_eq!(enroll.state(), EnrollState::Stored(0x11));
    assert_eq!(serial.pending(), 0);
    // done is done
    assert_eq!(enroll.wait_storage_template(&mut serial), Err(Error::IncorrectData));
    assert_eq!(enroll.state(), EnrollState::Stored(0x11));
}

#[test]
fn oneshot_runs_all_steps() {
    let mut wire = Vec::new();
    for step in 1..=15u8 {
        wire.extend_from_slice(&enroll_ack(step, if step == 15 { 0x2A } else { 0 }));
    }
    wire.push(0xEE);
    let mut serial = closed_line(&wire);
    assert_eq!(AutoEnroll::new(ADDR).oneshot(&mut serial, AutoEnrollConfig::default()), Ok(0x2A));
    assert_eq!(serial.written().len(), 17);
    assert_eq!(serial.pending(), 1);
}

#[test]
fn oneshot_stops_at_the_first_step_that_fails() {
    let mut wire = Vec::new();
    for step in 1..=4u8 {
        wire.extend_from_slice(&enroll_ack(step, 0));
    }
    wire.extend_from_slice(&ack_of(ADDR, 0x07, &[0x05, 0, 0]));
    wire.extend_from_slice(&enroll_ack(6, 0));
    let mut serial = closed_line(&wire);
    assert_eq!(
        AutoEnroll::new(ADDR).oneshot(&mut serial, AutoEnrollConfig::default()),
        Err(Error::BadConfirmation(
            ConfirmationCode::FailToGenerateCharacterLacknessOfCharacterPointOrOverSmallness
        ))
    );
    assert_eq!(serial.pending(), 15);

    let mut wire = Vec::new();
    for step in [1u8, 2, 4] {
        wire.extend_from_slice(&enroll_ack(step, 0));
    }
    let mut serial = closed_line(&wire);
    assert_eq!(
        AutoEnroll::new(ADDR).oneshot(&mut serial, AutoEnrollConfig::default()),
        Err(Error::IncorrectData)
    );

    let mut wire = Vec::new();
    for step in 1..=14u8 {
        wire.extend_from_slice(&enroll_ack(step, 0));
    }
    let mut serial = closed_line(&wire);
    assert_eq!(
        AutoEnroll::new(ADDR).oneshot(&mut serial, AutoEnrollConfig::default()),
        Err(Error::EndOfFile)
    );
}

#[test]
fn an_enrollment_that_has_ended_takes_no_more_waits_until_it_is_started_again() {
    let mut wire = ack_of(ADDR, 0x26, &[0x01, 0, 0]);
    wire.extend_from_slice(&enroll_ack(1, 0));
    wire.extend_from_slice(&enroll_ack(1, 0));
    let mut serial = closed_line(&wire);
    let mut enroll = AutoEnroll::new(ADDR);
    enroll.start(&mut serial, AutoEnrollConfig::default());
    assert_eq!(
        enroll.wait_collect_image1(&mut serial),
        Err(Error::BadConfirmation(ConfirmationCode::Timeout))
    );
    assert_eq!(
        enroll.state(),
        EnrollState::Failed(Error::BadConfirmation(ConfirmationCode::Timeout))
    );
    assert_eq!(serial.pending(), 30);
    // failed is failed: nothing is read
    assert_eq!(enroll.wait_collect_image1(&mut serial), Err(Error::IncorrectData));
    assert_eq!(
        enroll.state(),
        EnrollState::Failed(Error::BadConfirmation(ConfirmationCode::Timeout))
    );
    assert_eq!(serial.pending(), 30);
    enroll.start(&mut serial, AutoEnrollConfig::default());
    assert_eq!(enroll.wait_collect_image1(&mut serial), Ok(()));
    // an acknowledge of another step than the wait's fails the enrollment
    assert_eq!(enroll.wait_collect_image2(&mut serial), Err(Error::IncorrectData));
    assert_eq!(enroll.state(), EnrollState::Failed(Error::IncorrectData));
    assert_eq!(serial.pending(), 0);
}

#[test]
fn a_wait_judges_its_acknowledge_whatever_step_is_due() {
    // nothing was started: the acknowledge of the last step is taken
    let mut serial = closed_line(&[
        0xEF, 0x01, 0xFF, 0xFF, 0xFF, 0xFF, 0x07, 0x00, 0x06, 0x00, 0x0F, 0xAA, 0x05, 0x00, 0xCB,
    ]);
    let mut enroll = AutoEnroll::new(ADDR);
    assert_eq!(enroll.wait_storage_template(&mut serial), Ok(5));
    assert_eq!(enroll.state(), EnrollState::Stored(5));
    assert_eq!(serial.pending(), 0);

    // nothing was started: the device's failure comes back as it is
    let mut serial = closed_line(&[
        0xEF, 0x01, 0xFF, 0xFF, 0xFF, 0xFF, 0x07, 0x00, 0x06, 0x26, 0x01, 0x00, 0x00, 0x00, 0x34,
    ]);
    let mut enroll = AutoEnroll::new(ADDR);
    assert_eq!(
        enroll.wait_step(&mut serial, AutoEnrollStep::CollectImage1),
        Err(Error::BadConfirmation(ConfirmationCode::Timeout))
    );
    assert_eq!(
        enroll.state(),
        EnrollState::Failed(Error::BadConfirmation(ConfirmationCode::Timeout))
    );

    // the first step is due, the second is waited for and arrives
    let mut serial = closed_line(&enroll_ack(2, 7));
    let mut enroll = AutoEnroll::new(ADDR);
    enroll.start(&mut serial, AutoEnrollConfig::default());
    assert_eq!(enroll.wait_generate_feature1(&mut serial), Ok(()));
    assert_eq!(enroll.state(), EnrollState::Awaiting(AutoEnrollStep::CollectImage2));
    assert_eq!(serial.pending(), 0);
}

#[test]
fn an_acknowledge_of_another_step_returns_no_slot() {
    for due in 1..=15u8 {
        for sent in 1..=15u8 {
            let step = AutoEnrollStep::from_byte(due).unwrap();
            let mut serial = closed_line(&enroll_ack(sent, 0x33));
            let mut enroll = AutoEnroll::new(ADDR);
            enroll.start(&mut serial, AutoEnrollConfig::default());
            let got = enroll.wait_step(&mut serial, step);
            if sent == due {
                assert_eq!(got, Ok(0x33));
            } else {
                assert_eq!(got, Err(Error::IncorrectData), "due {due}, sent {sent}");
                assert_eq!(enroll.state(), EnrollState::Failed(Error::IncorrectData));
            }
            assert_eq!(serial.pending(), 0);
        }
    }
}

#[test]
fn an_identification_judges_its_acknowledge_whatever_step_is_due() {
    let found = AutoIdentifyResponse { step: AutoIdentifyStep::Search, model_id: 9, score: 0x0203 };
    // nothing was started
    let mut serial = closed_line(&identify_ack(3, 9, 0x0203));
    let mut identify = AutoIdentify::new(ADDR);
    assert_eq!(identify.wait_search(&mut serial), Ok(found));
    assert_eq!(identify.state(), IdentifyState::Success(found));
    assert_eq!(serial.pending(), 0);

    // the first step is due, the search is waited for and arrives
    let mut serial = closed_line(&identify_ack(3, 9, 0x0203));
    let mut identify = AutoIdentify::new(ADDR);
    identify.start(&mut serial, AutoIdentifyConfig::default());
    assert_eq!(identify.wait_step(&mut serial, AutoIdentifyStep::Search), Ok(found));
    assert_eq!(identify.state(), IdentifyState::Success(found));

    // every reserved byte is read and dropped
    for reserved in [0x00u8, 0x5A, 0xFF] {
        let mut serial = closed_line(&ack_of(ADDR, 0x00, &[2, reserved, 4, 0xAB, 0xCD]));
        let mut identify = AutoIdentify::new(ADDR);
        assert_eq!(
            identify.wait_step(&mut serial, AutoIdentifyStep::GenerateFeature),
            Ok(AutoIdentifyResponse {
                step: AutoIdentifyStep::GenerateFeature,
                model_id: 4,
                score: 0xABCD
            })
        );
        assert_eq!(
            identify.state(),
            IdentifyState::Awaiting(AutoIdentifyStep::Search, AutoIdentCount::Infinite)
        );
    }

    // nothing was started: a failure that the device reports spends from no budget
    let mut serial = closed_line(&ack_of(ADDR, 0x02, &[1, 0, 0, 0, 0]));
    let mut identify = AutoIdentify::new(ADDR);
    assert_eq!(
        identify.wait_collect_image(&mut serial),
        Err(Error::BadConfirmation(ConfirmationCode::NoFingerOnSensor))
    );
    assert_eq!(
        identify.state(),
        IdentifyState::Awaiting(AutoIdentifyStep::CollectImage, AutoIdentCount::Infinite)
    );
}

#[test]
fn a_starved_wait_leaves_the_enrollment_where_it_was() {
    let ack = enroll_ack(1, 0);
    let mut enroll = AutoEnroll::new(ADDR);
    let mut serial = Serial::new();
    enroll.start(&mut serial, AutoEnrollConfig::default());
    serial.feed(&ack[..9]);
    assert_eq!(
        enroll.wait_collect_image1(&mut serial),
        Err(Error::Wire(Starved { missing: 1 }))
    );
    assert_eq!(enroll.state(), EnrollState::Awaiting(AutoEnrollStep::CollectImage1));
    let mut serial = Serial::new();
    serial.feed(&ack);
    assert_eq!(enroll.wait_collect_image1(&mut serial), Ok(()));
    assert_eq!(enroll.state(), EnrollState::Awaiting(AutoEnrollStep::GenerateFeature1));
}

#[test]
fn an_enroll_acknowledge_is_judged_like_any_other() {
    let mut enroll = AutoEnroll::new(ADDR);
    let mut serial = closed_line(&ack_of(0x0000_0001, 0x00, &[1, 0, 0]));
    enroll.start(&mut serial, AutoEnrollConfig::default());
    assert_eq!(enroll.wait_collect_image1(&mut serial), Err(Error::IncorrectData));

    let mut bad = enroll_ack(1, 0);
    bad[14] ^= 0x40;
    let mut serial = closed_line(&bad);
    enroll.start(&mut serial, AutoEnrollConfig::default());
    assert_eq!(enroll.wait_collect_image1(&mut serial), Err(Error::BadChecksum));
    assert_eq!(enroll.state(), EnrollState::Failed(Error::BadChecksum));
}

#[test]
fn starting_an_identification_sends_the_default_configuration() {
    let cfg = AutoIdentifyConfig::default();
    assert_eq!(cfg.grade, IdentifySafety::Three);
    assert_eq!(cfg.start_pos, 0);
    assert_eq!(cfg.steps_or_end, 199);
    assert!(cfg.return_status);
    assert_eq!(cfg.err_count, AutoIdentCount::TimesWithTimeout(0xFF));
    assert_eq!(cfg.size_on_wire(), 5);
    let mut identify = AutoIdentify::new(ADDR);
    assert_eq!(identify.state(), IdentifyState::Idle);
    let mut serial = Serial::new();
    identify.start(&mut serial, cfg);
    // covered: 01 00 08 32 03 00 C7 01 FF, sum 0x0205
    assert_eq!(
        serial.written(),
        &[
            0xEF, 0x01, 0xFF, 0xFF, 0xFF, 0xFF, 0x01, 0x00, 0x08, 0x32, 0x03, 0x00, 0xC7, 0x01,
            0xFF, 0x02, 0x05
        ]
    );
    assert_eq!(
        identify.state(),
        IdentifyState::Awaiting(
            AutoIdentifyStep::CollectImage,
            AutoIdentCount::TimesWithTimeout(0xFF)
        )
    );
    let forever = AutoIdentifyConfig { err_count: AutoIdentCount::Infinite, ..cfg };
    let mut serial = Serial::new();
    forever.to_wire(&mut serial, None);
    assert_eq!(serial.written(), &[0x03, 0x00, 0xC7, 0x01, 0x00]);
}

#[test]
fn identify_answer_carries_slot_and_score() {
    let mut serial = closed_line(&[0x03, 0x99, 0x07, 0x01, 0x02]);
    assert_eq!(
        AutoIdentifyResponse::from_wire(&mut serial, None),
        Ok(AutoIdentifyResponse { step: AutoIdentifyStep::Search, model_id: 7, score: 0x0102 })
    );
    let mut serial = closed_line(&[0x04, 0x00, 0x07, 0x01, 0x02]);
    assert_eq!(AutoIdentifyResponse::from_wire(&mut serial, None), Err(Error::IncorrectData));
}

#[test]
fn the_three_waits_in_order_find_the_match() {
    let mut wire = identify_ack(1, 0, 0);
    wire.extend_from_slice(&identify_ack(2, 0, 0));
    wire.extend_from_slice(&identify_ack(3, 5, 0x0123));
    let mut serial = closed_line(&wire);
    let mut identify = AutoIdentify::new(ADDR);
    identify.start(&mut serial, AutoIdentifyConfig::default());
    assert_eq!(identify.wait_collect_image(&mut serial), Ok(()));
    assert_eq!(identify.wait_generate_feature(&mut serial), Ok(()));
    let found = AutoIdentifyResponse { step: AutoIdentifyStep::Search, model_id: 5, score: 0x0123 };
    assert_eq!(identify.wait_search(&mut serial), Ok(found));
    assert_eq!(identify.state(), IdentifyState::Success(found));
    assert_eq!(identify.wait_search(&mut serial), Err(Error::IncorrectData));
    assert_eq!(identify.state(), IdentifyState::Success(found));
}

#[test]
fn a_reported_failure_spends_one_attempt() {
    let cfg = AutoIdentifyConfig {
        err_count: AutoIdentCount::TimesWithTimeout(1),
        ..AutoIdentifyConfig::default()
    };
    let no_finger = ack_of(ADDR, 0x02, &[1, 0, 0, 0, 0]);
    let not_found = ack_of(ADDR, 0x09, &[3, 0, 0, 0, 0]);
    let mut wire = no_finger.clone();
    wire.extend_from_slice(&identify_ack(1, 0, 0));
    wire.extend_from_slice(&identify_ack(2, 0, 0));
    wire.extend_from_slice(&not_found);
    let mut serial = closed_line(&wire);
    let mut identify = AutoIdentify::new(ADDR);
    identify.start(&mut serial, cfg);
    assert_eq!(
        identify.wait_collect_image(&mut serial),
        Err(Error::BadConfirmation(ConfirmationCode::NoFingerOnSensor))
    );
    assert_eq!(
        identify.state(),
        IdentifyState::Awaiting(AutoIdentifyStep::CollectImage, AutoIdentCount::TimesWithTimeout(0))
    );
    assert_eq!(identify.wait_collect_image(&mut serial), Ok(()));
    assert_eq!(identify.wait_generate_feature(&mut serial), Ok(()));
    assert_eq!(
        identify.wait_search(&mut serial),
        Err(Error::BadConfirmation(ConfirmationCode::FailToFindMatchingFinger))
    );
    assert_eq!(identify.state(), IdentifyState::Exhausted);
    assert_eq!(identify.wait_collect_image(&mut serial), Err(Error::IncorrectData));
    assert_eq!(identify.state(), IdentifyState::Exhausted);
}

#[test]
fn no_attempts_to_spare_means_one_cycle() {
    let cfg = AutoIdentifyConfig {
        err_count: AutoIdentCount::TimesWithTimeout(0),
        ..AutoIdentifyConfig::default()
    };
    let mut wire = identify_ack(1, 0, 0);
    wire.extend_from_slice(&ack_of(ADDR, 0x07, &[2, 0, 0, 0, 0]));
    let mut serial = closed_line(&wire);
    let mut identify = AutoIdentify::new(ADDR);
    identify.start(&mut serial, cfg);
    assert_eq!(identify.wait_collect_image(&mut serial), Ok(()));
    assert!(identify.wait_generate_feature(&mut serial).is_err());
    assert_eq!(identify.state(), IdentifyState::Exhausted);
}

#[test]
fn an_infinite_budget_never_runs_out() {
    let cfg =
        AutoIdentifyConfig { err_count: AutoIdentCount::Infinite, ..AutoIdentifyConfig::default() };
    let mut wire = Vec::new();
    for _ in 0..300 {
        wire.extend_from_slice(&ack_of(ADDR, 0x02, &[1, 0, 0, 0, 0]));
    }
    let mut serial = closed_line(&wire);
    let mut identify = AutoIdentify::new(ADDR);
    identify.start(&mut serial, cfg);
    for _ in 0..300 {
        assert_eq!(
            identify.wait_collect_image(&mut serial),
            Err(Error::BadConfirmation(ConfirmationCode::NoFingerOnSensor))
        );
        assert_eq!(
            identify.state(),
            IdentifyState::Awaiting(AutoIdentifyStep::CollectImage, AutoIdentCount::Infinite)
        );
    }
}

#[test]
fn an_unknown_step_is_incorrect_data_and_not_a_spent_attempt() {
    let mut serial = closed_line(&identify_ack(9, 0, 0));
    let mut identify = AutoIdentify::new(ADDR);
    identify.start(&mut serial, AutoIdentifyConfig::default());
    assert_eq!(identify.wait_collect_image(&mut serial), Err(Error::IncorrectData));
    assert_eq!(identify.state(), IdentifyState::Failed(Error::IncorrectData));

    // a known step out of turn
    let mut serial = closed_line(&identify_ack(2, 0, 0));
    identify.start(&mut serial, AutoIdentifyConfig::default());
    assert_eq!(identify.wait_collect_image(&mut serial), Err(Error::IncorrectData));
    assert_eq!(identify.state(), IdentifyState::Failed(Error::IncorrectData));
}

#[test]
fn identify_oneshot_cycles_until_the_search_succeeds() {
    let cfg = AutoIdentifyConfig {
        err_count: AutoIdentCount::TimesWithTimeout(2),
        ..AutoIdentifyConfig::default()
    };
    let mut wire = ack_of(ADDR, 0x02, &[1, 0, 0, 0, 0]);
    wire.extend_from_slice(&identify_ack(1, 0, 0));
    wire.extend_from_slice(&identify_ack(2, 0, 0));
    wire.extend_from_slice(&ack_of(ADDR, 0x09, &[3, 0, 0, 0, 0]));
    wire.extend_from_slice(&identify_ack(1, 0, 0));
    wire.extend_from_slice(&identify_ack(2, 0, 0));
    wire.extend_from_slice(&identify_ack(3, 0x21, 77));
    wire.push(0xEE);
    let mut serial = closed_line(&wire);
    assert_eq!(
        AutoIdentify::new(ADDR).oneshot(&mut serial, cfg),
        Ok(AutoIdentifyResponse { step: AutoIdentifyStep::Search, model_id: 0x21, score: 77 })
    );
    assert_eq!(serial.pending(), 1);
    assert_eq!(serial.written().len(), 17);
}

#[test]
fn identify_oneshot_ends_with_the_failure_that_exhausts_it() {
    let cfg = AutoIdentifyConfig {
        err_count: AutoIdentCount::TimesWithTimeout(1),
        ..AutoIdentifyConfig::default()
    };
    let mut wire = ack_of(ADDR, 0x02, &[1, 0, 0, 0, 0]);
    wire.extend_from_slice(&ack_of(ADDR, 0x26, &[1, 0, 0, 0, 0]));
    wire.extend_from_slice(&identify_ack(1, 0, 0));
    let mut serial = closed_line(&wire);
    assert_eq!(
        AutoIdentify::new(ADDR).oneshot(&mut serial, cfg),
        Err(Error::BadConfirmation(ConfirmationCode::Timeout))
    );
    assert_eq!(serial.pending(), 17);

    let mut serial = closed_line(&identify_ack(1, 0, 0));
    assert_eq!(AutoIdentify::new(ADDR).oneshot(&mut serial, cfg), Err(Error::EndOfFile));
    let mut serial = Serial::new();
    serial.feed(&identify_ack(1, 0, 0));
    assert_eq!(
        AutoIdentify::new(ADDR).oneshot(&mut serial, cfg),
        Err(Error::Wire(Starved { missing: 2 }))
    );
}
