use vstd::prelude::*;
use crate::checksum::{checksum_of, lemma_fold16_concat, Checksum};
use crate::constants::{Commands, ConfirmationCode, PackageIdentifier};
use crate::error::Error;
use crate::serial::{lemma_next_read, Line, Serial};
use crate::wire_traits::{be16, be32, u16_of, u32_of, FromWire, ToWire};

verus! {

/// The two bytes that open every frame.
pub const MAGIC: u16 = 0xEF01;

/// The longest body that the 16-bit length field can announce.
pub const MAX_BODY: usize = 0xFFFD;

/// The part of a frame that its checksum covers: the identifier, the length
/// (that of the body and the checksum together) and the body.
pub open spec fn checked(ident: u8, body: Seq<u8>) -> Seq<u8> {
    seq![ident] + be16((body.len() + 2) as u16) + body
}

/// A whole frame: magic, address, the covered part, and its checksum.
#[verifier::opaque]
pub open spec fn frame(address: u32, ident: u8, body: Seq<u8>) -> Seq<u8> {
    be16(MAGIC) + be32(address) + checked(ident, body) + be16(checksum_of(checked(ident, body)))
}

/// The frame of a command: its body is the instruction, then the arguments.
pub open spec fn command_frame(address: u32, instruction: Commands, arguments: Seq<u8>) -> Seq<u8> {
    frame(address, PackageIdentifier::CommandPacket.byte(), seq![instruction.byte()] + arguments)
}

/// The frame of an acknowledge: its body is the confirmation, then the answer.
pub open spec fn acknowledge_frame(address: u32, confirmation: ConfirmationCode, answer: Seq<u8>) -> Seq<u8> {
    frame(
        address,
        PackageIdentifier::AcknowledgePacket.byte(),
        seq![confirmation.byte()] + answer,
    )
}

/// A command for the device at `address`, with its arguments.
pub struct Command<T: ToWire> {
    pub address: u32,
    pub instruction: Commands,
    pub body: T,
}

impl<T: ToWire> Command<T> {
    /// The command `instruction` with the arguments `body` for the device at `address`.
    pub fn new(address: u32, instruction: Commands, body: T) -> (command: Self)
        ensures
            command.address == address,
            command.instruction == instruction,
            command.body == body,
    {
        Self { address, instruction, body }
    }

    /// Writes the command's frame to `serial`.
    pub fn to_wire(&self, serial: &mut Serial)
        requires
            self.body.wire().len() < MAX_BODY,
        ensures
            final(serial)@ == old(serial)@.push(
                command_frame(self.address, self.instruction, self.body.wire()),
            ),
    {
        // Magic and address: the checksum does not cover them.
        MAGIC.to_wire(serial, None);
        self.address.to_wire(serial, None);

        let mut crc = Checksum::new();
        PackageIdentifier::CommandPacket.to_wire(serial, Some(&mut crc));

        // The length counts the instruction, the arguments and the checksum.
        let blen = self.body.size_on_wire();
        let length = (3 + blen) as u16;
        length.to_wire(serial, Some(&mut crc));

        self.instruction.to_wire(serial, Some(&mut crc));
        self.body.to_wire(serial, Some(&mut crc));

        let sum = crc.finalize();
        sum.to_wire(serial, None);

        proof {
            reveal(frame);
            let ident = PackageIdentifier::CommandPacket.byte();
            let body = seq![self.instruction.byte()] + self.body.wire();
            let covered = checked(ident, body);
            assert(covered =~= seq![ident] + be16(length) + seq![self.instruction.byte()]
                + self.body.wire());
            lemma_fold16_concat(0, seq![ident], be16(length));
            lemma_fold16_concat(0, seq![ident] + be16(length), seq![self.instruction.byte()]);
            lemma_fold16_concat(
                0,
                seq![ident] + be16(length) + seq![self.instruction.byte()],
                self.body.wire(),
            );
            assert(serial@.outgoing =~= old(serial)@.outgoing + command_frame(
                self.address,
                self.instruction,
                self.body.wire(),
            ));
        }
    }
}

/// An acknowledge as it was received: a sound frame, whose address, kind and
/// confirmation are not judged yet.
#[derive(Debug, PartialEq, Eq)]
pub struct Response<T> {
    pub address: u32,
    pub ident: u8,
    pub confirmation: ConfirmationCode,
    pub body: T,
}

/// What receiving an acknowledge with an answer of type `T` returns, read by
/// read: magic, address, identifier, length, confirmation, answer, checksum.
/// The first read that falls short, or the first field that stands for
/// nothing, decides; the length field is read and not judged. A frame whose
/// checksum agrees is refused with `IncorrectData` where its identifier is
/// none of the four that there are.
#[verifier::opaque]
pub open spec fn acknowledge<T: FromWire>(line: Line) -> Result<Response<T>, Error> {
    let s = line.incoming;
    let n = T::wire_len() as int;
    if s.len() < 2 {
        Err(line.shortfall(2))
    } else if u16_of(s[0], s[1]) != MAGIC {
        Err(Error::IncorrectData)
    } else if s.len() < 6 {
        Err(line.shortfall(6))
    } else if s.len() < 7 {
        Err(line.shortfall(7))
    } else if s.len() < 9 {
        Err(line.shortfall(9))
    } else if s.len() < 10 {
        Err(line.shortfall(10))
    } else if ConfirmationCode::of_byte(s[9]) is None {
        Err(Error::IncorrectData)
    } else if s.len() < 10 + n {
        Err(line.shortfall(10 + n))
    } else if T::decode(s.subrange(10, 10 + n)) is None {
        Err(Error::IncorrectData)
    } else if s.len() < 12 + n {
        Err(line.shortfall(12 + n))
    } else if checksum_of(s.subrange(6, 10 + n)) != u16_of(s[10 + n], s[11 + n]) {
        Err(Error::BadChecksum)
    } else if PackageIdentifier::of_byte(s[6]) is None {
        Err(Error::IncorrectData)
    } else {
        Ok(
            Response {
                address: u32_of(s[2], s[3], s[4], s[5]),
                ident: s[6],
                confirmation: ConfirmationCode::of_byte(s[9])->Some_0,
                body: T::decode(s.subrange(10, 10 + n))->Some_0,
            },
        )
    }
}

/// How many bytes receiving an acknowledge asks for in all: up to the end of
/// the read that decided.
#[verifier::opaque]
pub open spec fn acknowledge_reach<T: FromWire>(line: Line) -> int {
    let s = line.incoming;
    let n = T::wire_len() as int;
    if s.len() < 2 || u16_of(s[0], s[1]) != MAGIC {
        2
    } else if s.len() < 6 {
        6
    } else if s.len() < 7 {
        7
    } else if s.len() < 9 {
        9
    } else if s.len() < 10 || ConfirmationCode::of_byte(s[9]) is None {
        10
    } else if s.len() < 10 + n || T::decode(s.subrange(10, 10 + n)) is None {
        10 + n
    } else {
        12 + n
    }
}

/// An acknowledge whose every field is sound is taken, with what its fields
/// hold, and the reads end with it.
pub proof fn lemma_acknowledge_sound<T: FromWire>(
    line: Line,
    confirmation: ConfirmationCode,
    value: T,
)
    requires
        line.incoming.len() >= 12 + T::wire_len(),
        u16_of(line.incoming[0], line.incoming[1]) == MAGIC,
        PackageIdentifier::of_byte(line.incoming[6]) is Some,
        ConfirmationCode::of_byte(line.incoming[9]) == Some(confirmation),
        T::decode(line.incoming.subrange(10, 10 + T::wire_len() as int)) == Some(value),
        checksum_of(line.incoming.subrange(6, 10 + T::wire_len() as int)) == u16_of(
            line.incoming[10 + T::wire_len() as int],
            line.incoming[11 + T::wire_len() as int],
        ),
    ensures
        acknowledge::<T>(line) == Ok::<Response<T>, Error>(
            Response {
                address: u32_of(
                    line.incoming[2],
                    line.incoming[3],
                    line.incoming[4],
                    line.incoming[5],
                ),
                ident: line.incoming[6],
                confirmation,
                body: value,
            },
        ),
        acknowledge_reach::<T>(line) == 12 + T::wire_len(),
{
    reveal(acknowledge);
    reveal(acknowledge_reach);
}

/// An acknowledge that is taken lay within what had arrived, and was read to
/// its end. One that is not taken fails for the bytes' sake: the device's
/// own verdict is judged by the caller.
pub proof fn lemma_acknowledged_consumes<T: FromWire>(line: Line)
    ensures
        acknowledge::<T>(line) is Ok ==> {
            &&& acknowledge_reach::<T>(line) == 12 + T::wire_len()
            &&& 12 + T::wire_len() <= line.incoming.len()
            &&& line.advance(acknowledge_reach::<T>(line)).incoming.len() + 12 + T::wire_len()
                == line.incoming.len()
        },
        !(acknowledge::<T>(line) matches Err(Error::BadConfirmation(_))),
        2 <= acknowledge_reach::<T>(line),
{
    reveal(acknowledge);
    reveal(acknowledge_reach);
}

/// Receiving an acknowledge depends on what has arrived and on whether more
/// can come, not on what was written.
pub proof fn lemma_acknowledge_reads_only<T: FromWire>(line: Line, written: Seq<u8>)
    ensures
        acknowledge::<T>(line.push(written)) == acknowledge::<T>(line),
        acknowledge_reach::<T>(line.push(written)) == acknowledge_reach::<T>(line),
        reply::<T>(0, line.push(written)) == reply::<T>(0, line),
        forall|address: u32|
            #[trigger] reply::<T>(address, line.push(written)) == reply::<T>(address, line),
{
    reveal(acknowledge);
    reveal(acknowledge_reach);
}

impl<T: FromWire> Response<T> {
    /// Receives one acknowledge from `serial`. An identifier that stands for
    /// no kind of frame is refused; which address, which kind of frame and
    /// which confirmation it is, is handed back, not judged.
    pub fn from_wire(serial: &mut Serial) -> (r: Result<Self, Error>)
        ensures
            r == acknowledge::<T>(old(serial)@),
            final(serial)@ == old(serial)@.advance(acknowledge_reach::<T>(old(serial)@)),
    {
        let ghost line = serial@;
        let ghost s = line.incoming;
        let ghost n = T::wire_len() as int;
        proof {
            reveal(acknowledge);
            reveal(acknowledge_reach);
            lemma_next_read(line, 0, 0);
            lemma_next_read(line, 0, 2);
        }
        let hdr = match u16::from_wire(serial, None) {
            Ok(v) => v,
            Err(e) => {
                return Err(e);
            },
        };
        if hdr != MAGIC {
            return Err(Error::IncorrectData);
        }
        proof {
            lemma_next_read(line, 2, 4);
        }
        let address = match u32::from_wire(serial, None) {
            Ok(v) => v,
            Err(e) => {
                return Err(e);
            },
        };

        // From here on every byte counts for the checksum.
        let mut cksm = Checksum::new();
        proof {
            lemma_next_read(line, 6, 1);
        }
        let ident = match u8::from_wire(serial, Some(&mut cksm)) {
            Ok(v) => v,
            Err(e) => {
                return Err(e);
            },
        };
        proof {
            lemma_next_read(line, 7, 2);
        }
        let _len = match u16::from_wire(serial, Some(&mut cksm)) {
            Ok(v) => v,
            Err(e) => {
                return Err(e);
            },
        };
        proof {
            lemma_next_read(line, 9, 1);
        }
        let confirmation = match ConfirmationCode::from_wire(serial, Some(&mut cksm)) {
            Ok(v) => v,
            Err(e) => {
                return Err(e);
            },
        };
        proof {
            lemma_next_read(line, 10, n);
        }
        let body = match T::from_wire(serial, Some(&mut cksm)) {
            Ok(v) => v,
            Err(e) => {
                return Err(e);
            },
        };

        let calc_cksm = cksm.finalize();
        proof {
            lemma_next_read(line, 10 + n, 2);
            lemma_fold16_concat(0, s.subrange(6, 7), s.subrange(7, 9));
            lemma_fold16_concat(0, s.subrange(6, 9), s.subrange(9, 10));
            lemma_fold16_concat(0, s.subrange(6, 10), s.subrange(10, 10 + n));
            assert(s.subrange(6, 7) + s.subrange(7, 9) =~= s.subrange(6, 9));
            assert(s.subrange(6, 9) + s.subrange(9, 10) =~= s.subrange(6, 10));
            assert(s.subrange(6, 10) + s.subrange(10, 10 + n) =~= s.subrange(6, 10 + n));
        }
        let rept_cksm = match u16::from_wire(serial, None) {
            Ok(v) => v,
            Err(e) => {
                return Err(e);
            },
        };
        if calc_cksm != rept_cksm {
            return Err(Error::BadChecksum);
        }
        // A frame that is sound so far is judged by its identifier.
        if PackageIdentifier::from_byte(ident).is_none() {
            return Err(Error::IncorrectData);
        }
        Ok(Self { address, ident, confirmation, body })
    }
}

/// What a command's caller gets from its acknowledge: the answer, where the
/// acknowledge comes from the device at `address`, is an acknowledge, and
/// confirms success; the first of these that fails decides the error.
pub open spec fn reply<T: FromWire>(address: u32, line: Line) -> Result<T, Error> {
    match acknowledge::<T>(line) {
        Err(e) => Err(e),
        Ok(resp) => if resp.address != address || resp.ident
            != PackageIdentifier::AcknowledgePacket.byte() {
            Err(Error::IncorrectData)
        } else if resp.confirmation != ConfirmationCode::SuccessCode {
            Err(Error::BadConfirmation(resp.confirmation))
        } else {
            Ok(resp.body)
        },
    }
}

/// Receives the acknowledge of a command sent to the device at `address`, and
/// judges it.
pub fn receive_reply<T: FromWire>(address: u32, serial: &mut Serial) -> (r: Result<T, Error>)
    ensures
        r == reply::<T>(address, old(serial)@),
        final(serial)@ == old(serial)@.advance(acknowledge_reach::<T>(old(serial)@)),
{
    let resp = match Response::<T>::from_wire(serial) {
        Ok(resp) => resp,
        Err(e) => {
            return Err(e);
        },
    };
    let good = resp.address == address && resp.ident
        == PackageIdentifier::AcknowledgePacket.to_byte();
    if !good {
        return Err(Error::IncorrectData);
    }
    if resp.confirmation != ConfirmationCode::SuccessCode {
        return Err(Error::BadConfirmation(resp.confirmation));
    }
    Ok(resp.body)
}

} // verus!
