use r503::checksum::Checksum;
use r503::constants::{
    AuraColorIndex, AuraControlCode, AuraControlPayload, AuraCycleCount, Commands,
    ConfirmationCode,
};
use r503::error::{Error, Starved};
use r503::frame::{Command, Response};
use r503::serial::Serial;
use r503::wire_traits::{FromWire, ToWire};

fn closed_line(bytes: &[u8]) -> Serial {
    let mut serial = Serial::new();
    serial.feed(bytes);
    serial.close();
    serial
}

fn open_line(bytes: &[u8]) -> Serial {
    let mut serial = Serial::new();
    serial.feed(bytes);
    serial
}

const RANDOM_CODE_ACK: [u8; 16] = [
    0xEF, 0x01, 0xFF, 0xFF, 0xFF, 0xFF, 0x07, 0x00, 0x07, 0x00, 0x12, 0x34, 0x56, 0x78, 0x01,
    0x22,
];

#[test]
fn aura_led_ring() {
    let payload = AuraControlPayload {
        ctrl_code: AuraControlCode::Breathing,
        speed: 0x80,
        color: AuraColorIndex::Blue,
        count: AuraCycleCount::Times(3),
    };
    assert_eq!(payload.size_on_wire(), 4);
    let mut serial = Serial::new();
    let mut cksm = Checksum::new();
    payload.to_wire(&mut serial, Some(&mut cksm));
    assert_eq!(serial.written(), &[0x01, 0x80, 0x02, 0x03]);
    assert_eq!(cksm.finalize(), 0x0086);

    let forever = AuraControlPayload {
        ctrl_code: AuraControlCode::GraduallyOff,
        speed: 0,
        color: AuraColorIndex::White,
        count: AuraCycleCount::Infinite,
    };
    let mut serial = Serial::new();
    forever.to_wire(&mut serial, None);
    assert_eq!(serial.written(), &[0x06, 0x00, 0x07, 0x00]);
}

#[test]
fn checksum_templete_num() {
    let mut checksum = Checksum::new();
    checksum.update(&[0x01]);
    checksum.update(&[0x00, 0x03]);
    checksum.update(&[0x1D]);
    assert_eq!(checksum.finalize(), 0x0021);
}

#[test]
fn checksum_templete_packet() {
    let command = Command::new(0xFFFF_FFFF, Commands::TempleteNum, ());
    let mut serial = Serial::new();
    command.to_wire(&mut serial);
    let package = serial.written();
    println!("Package: {:?}", package);
    assert_eq!(
        package,
        &[0xEF, 0x01, 0xFF, 0xFF, 0xFF, 0xFF, 0x01, 0x00, 0x03, 0x1D, 0x00, 0x21]
    );
    let n = package.len();
    assert_eq!(u16::from_be_bytes([package[n - 2], package[n - 1]]), 0x0021);
}

#[test]
fn checksum_gen_img() {
    let mut checksum = Checksum::new();
    checksum.update(&[0x01]);
    checksum.update(&[0x00, 0x03]);
    checksum.update(&[0x01]);
    assert_eq!(checksum.finalize(), 0x0005);
}

#[test]
fn gen_img_command_frame() {
    let command = Command::new(0xFFFF_FFFF, Commands::GetImage, ());
    let mut serial = Serial::new();
    command.to_wire(&mut serial);
    assert_eq!(
        serial.written(),
        &[0xEF, 0x01, 0xFF, 0xFF, 0xFF, 0xFF, 0x01, 0x00, 0x03, 0x01, 0x00, 0x05]
    );
}

#[test]
fn command_frame_with_arguments_counts_them_in_the_length() {
    let command = Command::new(0x0102_0304, Commands::SetPwd, 0xAABB_CCDDu32);
    let mut serial = Serial::new();
    command.to_wire(&mut serial);
    // covered: 01 00 07 12 AA BB CC DD, sum 0x0328
    assert_eq!(
        serial.written(),
        &[
            0xEF, 0x01, 0x01, 0x02, 0x03, 0x04, 0x01, 0x00, 0x07, 0x12, 0xAA, 0xBB, 0xCC, 0xDD,
            0x03, 0x28
        ]
    );
}

#[test]
fn checksum_wraps_at_sixteen_bits() {
    let mut checksum = Checksum::new();
    let block = [0xFFu8; 255];
    checksum.update(&block);
    checksum.update(&block);
    // 510 * 255 = 130050 = 0x1_FC02
    assert_eq!(checksum.finalize(), 0xFC02);
    assert_eq!(Checksum::default().finalize(), 0);
}

#[test]
fn random_code_acknowledge_decodes() {
    let mut serial = closed_line(&RANDOM_CODE_ACK);
    let resp = Response::<u32>::from_wire(&mut serial).unwrap();
    assert_eq!(resp.address, 0xFFFF_FFFF);
    assert_eq!(resp.ident, 0x07);
    assert_eq!(resp.confirmation, ConfirmationCode::SuccessCode);
    assert_eq!(resp.body, 0x1234_5678);
    assert_eq!(serial.pending(), 0);
}

#[test]
fn flipped_checksum_byte_is_rejected() {
    for last in [0x1Au8, 0x1B, 0x21, 0x23] {
        let mut bytes = RANDOM_CODE_ACK;
        bytes[15] = last;
        let mut serial = closed_line(&bytes);
        assert_eq!(
            Response::<u32>::from_wire(&mut serial),
            Err(Error::BadChecksum),
            "last byte {last:#04x}"
        );
        assert_eq!(serial.pending(), 0);
    }
}

#[test]
fn flipped_covered_byte_is_rejected() {
    for at in [6usize, 7, 8, 10, 11, 12, 13] {
        let mut bytes = RANDOM_CODE_ACK;
        bytes[at] ^= 0x10;
        let mut serial = closed_line(&bytes);
        assert_eq!(
            Response::<u32>::from_wire(&mut serial),
            Err(Error::BadChecksum),
            "byte {at}"
        );
    }
}

#[test]
fn bad_magic_is_rejected_after_two_bytes() {
    let mut bytes = RANDOM_CODE_ACK;
    bytes[1] = 0x02;
    let mut serial = closed_line(&bytes);
    assert_eq!(Response::<u32>::from_wire(&mut serial), Err(Error::IncorrectData));
    assert_eq!(serial.pending(), 14);
}

#[test]
fn unknown_confirmation_is_rejected() {
    let mut bytes = RANDOM_CODE_ACK;
    bytes[9] = 0x04;
    let mut serial = closed_line(&bytes);
    assert_eq!(Response::<u32>::from_wire(&mut serial), Err(Error::IncorrectData));
    assert_eq!(serial.pending(), 6);
}

#[test]
fn truncated_acknowledge_is_end_of_file_on_a_closed_line() {
    for cut in 0..RANDOM_CODE_ACK.len() {
        let mut serial = closed_line(&RANDOM_CODE_ACK[..cut]);
        assert_eq!(Response::<u32>::from_wire(&mut serial), Err(Error::EndOfFile), "cut {cut}");
        assert_eq!(serial.pending(), 0);
    }
}

#[test]
fn truncated_acknowledge_starves_on_an_open_line() {
    // Reads end at 2, 6, 7, 9, 10, 14 and 16.
    let ends = [2usize, 6, 7, 9, 10, 14, 16];
    for cut in 0..RANDOM_CODE_ACK.len() {
        let next_end = *ends.iter().find(|e| **e > cut).unwrap();
        let mut serial = open_line(&RANDOM_CODE_ACK[..cut]);
        assert_eq!(
            Response::<u32>::from_wire(&mut serial),
            Err(Error::Wire(Starved { missing: next_end - cut })),
            "cut {cut}"
        );
    }
}

#[test]
fn integers_travel_high_byte_first() {
    let mut serial = Serial::new();
    0xEF01u16.to_wire(&mut serial, None);
    0x1234_5678u32.to_wire(&mut serial, None);
    0xABu8.to_wire(&mut serial, None);
    ().to_wire(&mut serial, None);
    [9u8, 8, 7].to_wire(&mut serial, None);
    assert_eq!(
        serial.written(),
        &[0xEF, 0x01, 0x12, 0x34, 0x56, 0x78, 0xAB, 0x09, 0x08, 0x07]
    );
    assert_eq!(0xEF01u16.size_on_wire(), 2);
    assert_eq!(0u32.size_on_wire(), 4);
    assert_eq!(0u8.size_on_wire(), 1);
    assert_eq!(().size_on_wire(), 0);
    assert_eq!([0u8; 32].size_on_wire(), 32);

    let mut serial = closed_line(&[0xEF, 0x01, 0x12, 0x34, 0x56, 0x78, 0xAB, 0x09, 0x08, 0x07]);
    let mut cksm = Checksum::new();
    assert_eq!(u16::from_wire(&mut serial, Some(&mut cksm)), Ok(0xEF01));
    assert_eq!(u32::from_wire(&mut serial, Some(&mut cksm)), Ok(0x1234_5678));
    assert_eq!(u8::from_wire(&mut serial, None), Ok(0xAB));
    assert_eq!(<()>::from_wire(&mut serial, Some(&mut cksm)), Ok(()));
    assert_eq!(<[u8; 3]>::from_wire(&mut serial, Some(&mut cksm)), Ok([9, 8, 7]));
    assert_eq!(cksm.finalize(), 0xEF + 0x01 + 0x12 + 0x34 + 0x56 + 0x78 + 9 + 8 + 7);
    assert_eq!(u8::from_wire(&mut serial, None), Err(Error::EndOfFile));
}

#[test]
fn slices_are_written_as_they_are() {
    let mut serial = Serial::new();
    let mut cksm = Checksum::new();
    let data: &[u8] = &[1, 2, 3, 250];
    assert_eq!(data.size_on_wire(), 4);
    data.to_wire(&mut serial, Some(&mut cksm));
    assert_eq!(serial.written(), data);
    assert_eq!(cksm.finalize(), 256);
}

#[test]
fn serial_reads_in_order_and_drains_on_a_short_read() {
    let mut serial = Serial::new();
    assert!(!serial.is_closed());
    serial.feed(&[1, 2, 3]);
    serial.feed(&[4, 5]);
    assert_eq!(serial.pending(), 5);
    let mut two = [0u8; 2];
    assert_eq!(serial.read_exact(&mut two), Ok(()));
    assert_eq!(two, [1, 2]);
    let mut four = [7u8; 4];
    assert_eq!(serial.read_exact(&mut four), Err(Error::Wire(Starved { missing: 1 })));
    assert_eq!(four, [7, 7, 7, 7]);
    assert_eq!(serial.pending(), 0);
    serial.feed(&[6]);
    serial.close();
    assert!(serial.is_closed());
    assert_eq!(serial.read_exact(&mut two), Err(Error::EndOfFile));
    let mut none = [0u8; 0];
    assert_eq!(serial.read_exact(&mut none), Ok(()));
    serial.write_all(&[9]);
    serial.write_all(&[8, 7]);
    assert_eq!(serial.written(), &[9, 8, 7]);
}

#[test]
fn an_identifier_that_is_none_of_the_four_is_refused() {
    let mut serial =
        closed_line(&[0xEF, 0x01, 0xFF, 0xFF, 0xFF, 0xFF, 0x03, 0x00, 0x03, 0x00, 0x00, 0x06]);
    assert_eq!(Response::<()>::from_wire(&mut serial), Err(Error::IncorrectData));
    assert_eq!(serial.pending(), 0);
    for ident in 0..=255u8 {
        let mut frame = vec![0xEF, 0x01, 0xFF, 0xFF, 0xFF, 0xFF, ident, 0x00, 0x03, 0x00];
        frame.extend_from_slice(&(ident as u16 + 3).to_be_bytes());
        let mut serial = closed_line(&frame);
        let got = Response::<()>::from_wire(&mut serial);
        if [0x01, 0x02, 0x07, 0x08].contains(&ident) {
            let resp = got.unwrap();
            assert_eq!(resp.ident, ident);
            assert_eq!(resp.confirmation, ConfirmationCode::SuccessCode);
        } else {
            assert_eq!(got, Err(Error::IncorrectData), "identifier {ident:#04x}");
        }
    }
    // the checksum is judged before the identifier
    let mut serial =
        closed_line(&[0xEF, 0x01, 0xFF, 0xFF, 0xFF, 0xFF, 0x03, 0x00, 0x03, 0x00, 0x00, 0x07]);
    assert_eq!(Response::<()>::from_wire(&mut serial), Err(Error::BadChecksum));
}
