use r503::constants::{
    AuraColorIndex, AuraControlCode, AuraControlPayload, AuraCycleCount, CharBufferId, Commands,
    ConfirmationCode, IndexTableIdx,
};
use r503::device::{
    occupied_slots, DeleteCharRequest, SearchRequest, SearchResult, DEFAULT_ADDRESS,
};
use r503::error::{Error, Starved};
use r503::serial::Serial;
use r503::{LoadCharRequest, R503};

fn sum_of(bytes: &[u8]) -> u16 {
    let mut sum: u32 = 0;
    for b in bytes {
        sum += *b as u32;
    }
    (sum % 0x1_0000) as u16
}

fn frame_of(address: u32, ident: u8, body: &[u8]) -> Vec<u8> {
    let mut covered = vec![ident];
    covered.extend_from_slice(&((body.len() + 2) as u16).to_be_bytes());
    covered.extend_from_slice(body);
    let mut out = vec![0xEF, 0x01];
    out.extend_from_slice(&address.to_be_bytes());
    out.extend_from_slice(&covered);
    out.extend_from_slice(&sum_of(&covered).to_be_bytes());
    out
}

fn ack_of(address: u32, confirmation: u8, answer: &[u8]) -> Vec<u8> {
    let mut body = vec![confirmation];
    body.extend_from_slice(answer);
    frame_of(address, 0x07, &body)
}

fn closed_line(bytes: &[u8]) -> Serial {
    let mut serial = Serial::new();
    serial.feed(bytes);
    serial.close();
    serial
}

#[test]
fn device_keeps_its_address() {
    let r5 = R503::new_with_address(0x0102_0304);
    assert_eq!(r5.address(), 0x0102_0304);
    assert_eq!(R503::new_with_address(DEFAULT_ADDRESS).address(), 0xFFFF_FFFF);
}

#[test]
fn get_random_code_sends_its_frame_and_returns_the_code() {
    let r5 = R503::new_with_address(0xFFFF_FFFF);
    let mut serial = closed_line(&[
        0xEF, 0x01, 0xFF, 0xFF, 0xFF, 0xFF, 0x07, 0x00, 0x07, 0x00, 0x12, 0x34, 0x56, 0x78,
        0x01, 0x22,
    ]);
    assert_eq!(r5.get_random_code(&mut serial), Ok(0x1234_5678));
    assert_eq!(
        serial.written(),
        &[0xEF, 0x01, 0xFF, 0xFF, 0xFF, 0xFF, 0x01, 0x00, 0x03, 0x14, 0x00, 0x18]
    );
    assert_eq!(serial.pending(), 0);
}

#[test]
fn get_image_frame_and_plain_acknowledge() {
    let r5 = R503::new_with_address(0xFFFF_FFFF);
    let mut serial =
        closed_line(&[0xEF, 0x01, 0xFF, 0xFF, 0xFF, 0xFF, 0x07, 0x00, 0x03, 0x00, 0x00, 0x0A]);
    assert_eq!(r5.get_image(&mut serial), Ok(()));
    assert_eq!(
        serial.written(),
        &[0xEF, 0x01, 0xFF, 0xFF, 0xFF, 0xFF, 0x01, 0x00, 0x03, 0x01, 0x00, 0x05]
    );
}

#[test]
fn every_command_sends_its_opcode_and_arguments() {
    let addr = 0xA1B2_C3D4;
    let r5 = R503::new_with_address(addr);
    let ok = ack_of(addr, 0x00, &[]);

    let mut serial = closed_line(&ok);
    assert_eq!(r5.generate_char(&mut serial, CharBufferId::Two), Ok(()));
    assert_eq!(serial.written(), frame_of(addr, 0x01, &[0x02, 0x02]));

    let mut serial = closed_line(&ack_of(addr, 0x00, &[0x01, 0x2C]));
    assert_eq!(r5.match_templates(&mut serial), Ok(300));
    assert_eq!(serial.written(), frame_of(addr, 0x01, &[0x03]));

    let mut serial = closed_line(&ack_of(addr, 0x00, &[0x00, 0x07, 0x00, 0x64]));
    let req = SearchRequest { char_buffer: CharBufferId::One, start: 0x0010, num: 0x0120 };
    assert_eq!(r5.search(&mut serial, req), Ok(SearchResult { model_id: 7, score: 100 }));
    assert_eq!(serial.written(), frame_of(addr, 0x01, &[0x04, 0x01, 0x00, 0x10, 0x01, 0x20]));

    let mut serial = closed_line(&ok);
    assert_eq!(r5.generate_template(&mut serial), Ok(()));
    assert_eq!(serial.written(), frame_of(addr, 0x01, &[0x05]));

    let slot = LoadCharRequest { char_buffer: CharBufferId::Six, model_id: 0x01FF };
    let mut serial = closed_line(&ok);
    assert_eq!(r5.store(&mut serial, slot), Ok(()));
    assert_eq!(serial.written(), frame_of(addr, 0x01, &[0x06, 0x06, 0x01, 0xFF]));

    let mut serial = closed_line(&ok);
    assert_eq!(r5.load_char(&mut serial, slot), Ok(()));
    assert_eq!(serial.written(), frame_of(addr, 0x01, &[0x07, 0x06, 0x01, 0xFF]));

    let mut serial = closed_line(&ok);
    assert_eq!(r5.upload_template(&mut serial, CharBufferId::One), Ok(()));
    assert_eq!(serial.written(), frame_of(addr, 0x01, &[0x08, 0x01]));

    let mut serial = closed_line(&ok);
    assert_eq!(r5.upload_image(&mut serial), Ok(()));
    assert_eq!(serial.written(), frame_of(addr, 0x01, &[0x0A]));

    let mut serial = closed_line(&ok);
    let run = DeleteCharRequest { start_id: 0x0203, num: 0x0004 };
    assert_eq!(r5.delete_char(&mut serial, run), Ok(()));
    assert_eq!(serial.written(), frame_of(addr, 0x01, &[0x0C, 0x02, 0x03, 0x00, 0x04]));

    let mut serial = closed_line(&ok);
    assert_eq!(r5.empty(&mut serial), Ok(()));
    assert_eq!(serial.written(), frame_of(addr, 0x01, &[0x0D]));

    let params: [u8; 16] = [0, 1, 2, 3, 4, 5, 6, 7, 8, 9, 10, 11, 12, 13, 14, 15];
    let mut serial = closed_line(&ack_of(addr, 0x00, &params));
    assert_eq!(r5.read_system_parameter(&mut serial), Ok(params));
    assert_eq!(serial.written(), frame_of(addr, 0x01, &[0x0F]));

    let mut serial = closed_line(&ok);
    assert_eq!(r5.set_password(&mut serial, 0x0A0B_0C0D), Ok(()));
    assert_eq!(serial.written(), frame_of(addr, 0x01, &[0x12, 0x0A, 0x0B, 0x0C, 0x0D]));

    let mut serial = closed_line(&ok);
    assert_eq!(r5.vfy_password(&mut serial, 0), Ok(()));
    assert_eq!(serial.written(), frame_of(addr, 0x01, &[0x13, 0, 0, 0, 0]));

    let mut serial = closed_line(&ok);
    assert_eq!(r5.set_address(&mut serial, 0x0000_0001), Ok(()));
    assert_eq!(serial.written(), frame_of(addr, 0x01, &[0x15, 0, 0, 0, 1]));
    assert_eq!(r5.address(), addr);

    let mut page = [0u8; 32];
    page[0] = 0b0000_0101;
    page[31] = 0x80;
    let mut serial = closed_line(&ack_of(addr, 0x00, &page));
    assert_eq!(r5.read_index_table(&mut serial, IndexTableIdx::Three), Ok(page));
    assert_eq!(serial.written(), frame_of(addr, 0x01, &[0x1F, 0x03]));

    let aura = AuraControlPayload {
        ctrl_code: AuraControlCode::Flashing,
        speed: 0x40,
        color: AuraColorIndex::Purple,
        count: AuraCycleCount::Infinite,
    };
    let mut serial = closed_line(&ok);
    assert_eq!(r5.aura_control(&mut serial, aura), Ok(()));
    assert_eq!(serial.written(), frame_of(addr, 0x01, &[0x35, 0x02, 0x40, 0x03, 0x00]));
}

#[test]
fn the_general_transaction_takes_any_instruction() {
    let r5 = R503::new_with_address(0xFFFF_FFFF);
    let mut serial = closed_line(&ack_of(0xFFFF_FFFF, 0x00, &[0x00, 0x2A]));
    let count: Result<u16, Error> = r5.command(&mut serial, Commands::TempleteNum, ());
    assert_eq!(count, Ok(42));
    assert_eq!(
        serial.written(),
        &[0xEF, 0x01, 0xFF, 0xFF, 0xFF, 0xFF, 0x01, 0x00, 0x03, 0x1D, 0x00, 0x21]
    );
}

#[test]
fn a_failure_code_comes_back_as_it_is() {
    let r5 = R503::new_with_address(0xFFFF_FFFF);
    let mut serial = closed_line(&ack_of(0xFFFF_FFFF, 0x02, &[]));
    assert_eq!(
        r5.get_image(&mut serial),
        Err(Error::BadConfirmation(ConfirmationCode::NoFingerOnSensor))
    );
    let mut serial = closed_line(&ack_of(0xFFFF_FFFF, 0x26, &[0, 0, 0, 0]));
    assert_eq!(
        r5.get_random_code(&mut serial),
        Err(Error::BadConfirmation(ConfirmationCode::Timeout))
    );
}

#[test]
fn an_acknowledge_from_elsewhere_or_of_another_kind_is_refused() {
    let r5 = R503::new_with_address(0x0000_0001);
    let mut serial = closed_line(&ack_of(0x0000_0002, 0x00, &[]));
    assert_eq!(r5.empty(&mut serial), Err(Error::IncorrectData));
    for ident in [0x01u8, 0x02, 0x08, 0x00, 0x09, 0xFF] {
        let mut serial = closed_line(&frame_of(0x0000_0001, ident, &[0x00]));
        assert_eq!(r5.empty(&mut serial), Err(Error::IncorrectData), "ident {ident}");
    }
    // The address is judged before the confirmation.
    let mut serial = closed_line(&ack_of(0x0000_0002, 0x01, &[]));
    assert_eq!(r5.empty(&mut serial), Err(Error::IncorrectData));
    // The checksum is judged before the address.
    let mut wrong = ack_of(0x0000_0002, 0x00, &[]);
    wrong[11] ^= 1;
    let mut serial = closed_line(&wrong);
    assert_eq!(r5.empty(&mut serial), Err(Error::BadChecksum));
}

#[test]
fn the_length_field_of_an_acknowledge_is_not_judged() {
    let r5 = R503::new_with_address(0xFFFF_FFFF);
    // length says 0x0107, the checksum covers it
    let mut ack = vec![0xEF, 0x01, 0xFF, 0xFF, 0xFF, 0xFF, 0x07, 0x01, 0x07, 0x00, 1, 2, 3, 4];
    ack.extend_from_slice(&sum_of(&ack[6..]).to_be_bytes());
    let mut serial = closed_line(&ack);
    assert_eq!(r5.get_random_code(&mut serial), Ok(0x0102_0304));
}

#[test]
fn a_command_without_an_answer_yet_starves() {
    let r5 = R503::new_with_address(0xFFFF_FFFF);
    let mut serial = Serial::new();
    assert_eq!(r5.get_image(&mut serial), Err(Error::Wire(Starved { missing: 2 })));
    assert_eq!(serial.written().len(), 12);
    let mut serial = Serial::new();
    serial.close();
    assert_eq!(r5.get_image(&mut serial), Err(Error::EndOfFile));
}

fn template() -> Vec<u8> {
    (0..512u32).map(|i| (i * 7 % 251) as u8).collect()
}

#[test]
fn a_template_of_512_bytes_arrives_in_four_frames_and_an_empty_end() {
    let addr = 0xFFFF_FFFF;
    let r5 = R503::new_with_address(addr);
    let data = template();
    let mut wire = Vec::new();
    for piece in data.chunks(128) {
        wire.extend_from_slice(&frame_of(addr, 0x02, piece));
    }
    wire.extend_from_slice(&frame_of(addr, 0x08, &[]));
    let mut serial = closed_line(&wire);
    let mut buf = vec![0u8; 512];
    assert_eq!(r5.stream_image(&mut serial, &mut buf), Ok(512));
    assert_eq!(buf, data);
    assert_eq!(serial.pending(), 0);
}

#[test]
fn the_end_frame_may_carry_the_last_piece() {
    let addr = 0x0000_0007;
    let r5 = R503::new_with_address(addr);
    let mut wire = frame_of(addr, 0x02, &[1, 2, 3]);
    wire.extend_from_slice(&frame_of(addr, 0x02, &[]));
    wire.extend_from_slice(&frame_of(addr, 0x02, &[4]));
    wire.extend_from_slice(&frame_of(addr, 0x08, &[5, 6]));
    wire.extend_from_slice(&[0xEE, 0xEE]);
    let mut serial = closed_line(&wire);
    let mut buf = [9u8; 8];
    assert_eq!(r5.stream_image(&mut serial, &mut buf), Ok(6));
    assert_eq!(buf, [1, 2, 3, 4, 5, 6, 9, 9]);
    assert_eq!(serial.pending(), 2);

    let mut serial = closed_line(&frame_of(addr, 0x08, &[]));
    let mut none = [0u8; 0];
    assert_eq!(r5.stream_image(&mut serial, &mut none), Ok(0));
}

#[test]
fn a_stream_that_does_not_fit_is_refused() {
    let addr = 0xFFFF_FFFF;
    let r5 = R503::new_with_address(addr);
    let mut wire = frame_of(addr, 0x02, &[1, 2, 3]);
    wire.extend_from_slice(&frame_of(addr, 0x08, &[4, 5]));
    let mut serial = closed_line(&wire);
    let mut buf = [0u8; 4];
    assert_eq!(r5.stream_image(&mut serial, &mut buf), Err(Error::IncorrectData));
    assert_eq!(buf, [1, 2, 3, 0]);
    // exactly enough room is enough
    let mut serial = closed_line(&wire);
    let mut buf = [0u8; 5];
    assert_eq!(r5.stream_image(&mut serial, &mut buf), Ok(5));
    assert_eq!(buf, [1, 2, 3, 4, 5]);
}

#[test]
fn a_stream_frame_that_breaks_the_layout_is_refused() {
    let addr = 0x0000_0001;
    let r5 = R503::new_with_address(addr);
    let mut buf = [0u8; 16];

    let mut bad_magic = frame_of(addr, 0x08, &[1]);
    bad_magic[0] = 0xEE;
    assert_eq!(
        r5.stream_image(&mut closed_line(&bad_magic), &mut buf),
        Err(Error::IncorrectData)
    );

    let elsewhere = frame_of(0x0000_0002, 0x08, &[1]);
    assert_eq!(
        r5.stream_image(&mut closed_line(&elsewhere), &mut buf),
        Err(Error::IncorrectData)
    );

    for ident in [0x01u8, 0x07, 0x00, 0x03, 0xFF] {
        let other = frame_of(addr, ident, &[1]);
        assert_eq!(
            r5.stream_image(&mut closed_line(&other), &mut buf),
            Err(Error::IncorrectData),
            "ident {ident}"
        );
    }

    for len in [0u8, 1] {
        let mut short = vec![0xEF, 0x01, 0, 0, 0, 1, 0x08, 0x00, len];
        short.extend_from_slice(&sum_of(&[0x08, 0x00, len]).to_be_bytes());
        assert_eq!(
            r5.stream_image(&mut closed_line(&short), &mut buf),
            Err(Error::IncorrectData),
            "length {len}"
        );
    }

    let mut wrong_sum = frame_of(addr, 0x02, &[1, 2]);
    wrong_sum[10] ^= 0x01;
    wrong_sum.extend_from_slice(&frame_of(addr, 0x08, &[]));
    assert_eq!(r5.stream_image(&mut closed_line(&wrong_sum), &mut buf), Err(Error::BadChecksum));

    let mut cut = frame_of(addr, 0x02, &[1, 2]);
    cut.extend_from_slice(&frame_of(addr, 0x08, &[3])[..10]);
    assert_eq!(r5.stream_image(&mut closed_line(&cut), &mut buf), Err(Error::EndOfFile));
    let mut open = Serial::new();
    open.feed(&cut);
    assert_eq!(
        r5.stream_image(&mut open, &mut buf),
        Err(Error::Wire(Starved { missing: 2 }))
    );

    // data frames without an end
    let endless = frame_of(addr, 0x02, &[1, 2]);
    assert_eq!(r5.stream_image(&mut closed_line(&endless), &mut buf), Err(Error::EndOfFile));
}

#[test]
fn the_occupancy_table_lists_its_slots_in_order() {
    let mut table = [0u8; 32];
    assert_eq!(occupied_slots(IndexTableIdx::Zero, &table), Vec::<u16>::new());
    table[0] = 0b0000_0101;
    table[1] = 0b1000_0000;
    table[31] = 0b1000_0001;
    assert_eq!(occupied_slots(IndexTableIdx::Zero, &table), vec![0, 2, 15, 248, 255]);
    assert_eq!(occupied_slots(IndexTableIdx::One, &table), vec![256, 258, 271, 504, 511]);
    assert_eq!(occupied_slots(IndexTableIdx::Three, &table), vec![768, 770, 783, 1016, 1023]);
    let full = [0xFFu8; 32];
    let all = occupied_slots(IndexTableIdx::Two, &full);
    assert_eq!(all.len(), 256);
    assert_eq!(all[0], 512);
    assert_eq!(all[255], 767);
    assert!(all.windows(2).all(|w| w[0] + 1 == w[1]));
}
