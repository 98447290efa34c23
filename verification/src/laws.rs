use vstd::prelude::*;
use crate::auto::{
    enroll_wait, identify_from, identify_wait, AutoEnrollConfig, AutoEnrollResponse,
    AutoIdentifyResponse, EnrollState, EnrollWaited, Enrollment, Identification, IdentifyState,
    IdentifyWaited, AUTOMATIC_LOCATION,
};
use crate::checksum::{
    byte_sum, checksum_of, lemma_byte_sum_concat, lemma_byte_sum_one, lemma_byte_sum_update,
};
use crate::constants::{
    AutoEnrollStep, AutoIdentCount, AutoIdentifyStep, Commands, ConfirmationCode,
    PackageIdentifier,
};
use crate::error::Error;
use crate::frame::{
    acknowledge, acknowledge_frame, acknowledge_reach, checked, command_frame, frame,
    lemma_acknowledge_sound, reply, Response, MAGIC, MAX_BODY,
};
use crate::serial::{lemma_advance_twice, Line};
use crate::stream::{chunk, opening, streamed, Chunk, Streamed};
use crate::wire_traits::{
    be16, be32, lemma_be16_round_trip, lemma_be32_round_trip, lemma_u16_of_round_trip,
    lemma_u32_of_round_trip, u16_of, u32_of, FromWire, ToWire,
};

verus! {

/// The 32-bit address of a frame: the four bytes behind the magic.
pub open spec fn frame_address(f: Seq<u8>) -> u32 {
    u32_of(f[2], f[3], f[4], f[5])
}

/// The value of a frame's length field.
pub open spec fn frame_length(f: Seq<u8>) -> u16 {
    u16_of(f[7], f[8])
}

/// The body of a frame, as long as its length field says.
pub open spec fn frame_body(f: Seq<u8>) -> Seq<u8> {
    f.subrange(9, 7 + frame_length(f))
}

/// The checksum that a frame transmits: the two bytes behind its body.
pub open spec fn frame_checksum(f: Seq<u8>) -> u16 {
    u16_of(f[7 + frame_length(f)], f[8 + frame_length(f)])
}

/// The bytes of a frame, place by place.
pub proof fn lemma_frame_bytes(address: u32, ident: u8, body: Seq<u8>)
    ensures
        frame(address, ident, body).len() == 11 + body.len(),
        frame(address, ident, body)[0] == 0xEF,
        frame(address, ident, body)[1] == 0x01,
        frame(address, ident, body)[2] == be32(address)[0],
        frame(address, ident, body)[3] == be32(address)[1],
        frame(address, ident, body)[4] == be32(address)[2],
        frame(address, ident, body)[5] == be32(address)[3],
        frame(address, ident, body)[6] == ident,
        frame(address, ident, body)[7] == be16((body.len() + 2) as u16)[0],
        frame(address, ident, body)[8] == be16((body.len() + 2) as u16)[1],
        frame(address, ident, body).subrange(9, 9 + body.len() as int) == body,
        frame(address, ident, body).subrange(6, 9 + body.len() as int) == checked(ident, body),
        frame(address, ident, body)[9 + body.len() as int] == be16(
            checksum_of(checked(ident, body)),
        )[0],
        frame(address, ident, body)[10 + body.len() as int] == be16(
            checksum_of(checked(ident, body)),
        )[1],
{
    reveal(frame);
    let f = frame(address, ident, body);
    let c = checked(ident, body);
    let head = be16(MAGIC) + be32(address);
    let tail = be16(checksum_of(c));
    assert(be16(MAGIC).len() == 2 && be32(address).len() == 4 && tail.len() == 2);
    assert(c.len() == 3 + body.len());
    assert(head.len() == 6);
    assert(f == head + c + tail);
    assert(f.len() == 11 + body.len());
    assert(be16(MAGIC)[0] == 0xEF && be16(MAGIC)[1] == 0x01);
    assert(f.subrange(6, 9 + body.len() as int) =~= c);
    assert(f.subrange(9, 9 + body.len() as int) =~= body);
}

/// A frame is eleven bytes longer than its body.
pub proof fn lemma_frame_len(address: u32, ident: u8, body: Seq<u8>)
    ensures
        frame(address, ident, body).len() == 11 + body.len(),
{
    lemma_frame_bytes(address, ident, body);
}

/// The sum of the covered part of a frame, byte by byte.
pub proof fn lemma_checked_sum(ident: u8, body: Seq<u8>)
    ensures
        byte_sum(checked(ident, body)) == ident as nat + be16((body.len() + 2) as u16)[0] as nat
            + be16((body.len() + 2) as u16)[1] as nat + byte_sum(body),
{
    let len = be16((body.len() + 2) as u16);
    lemma_byte_sum_concat(seq![ident] + len, body);
    lemma_byte_sum_concat(seq![ident], len);
    lemma_byte_sum_one(ident);
    lemma_byte_sum_concat(seq![len[0]], seq![len[1]]);
    lemma_byte_sum_one(len[0]);
    lemma_byte_sum_one(len[1]);
    assert(seq![len[0]] + seq![len[1]] =~= len);
}

/// Where each field of a frame lies, and what it holds.
///
/// A frame is eleven bytes longer than its body. It opens with the magic and
/// the address; the identifier follows; the length field holds the length of
/// the body plus two; the body follows as it was given; and the last two
/// bytes hold the sum, modulo 2^16, of the identifier, the two length bytes
/// and the body. So every field of a frame can be read back from it.
pub proof fn law_frame_layout(address: u32, ident: u8, body: Seq<u8>)
    requires
        body.len() <= MAX_BODY,
    ensures
        frame(address, ident, body).len() == 11 + body.len(),
        u16_of(frame(address, ident, body)[0], frame(address, ident, body)[1]) == MAGIC,
        frame_address(frame(address, ident, body)) == address,
        frame(address, ident, body)[6] == ident,
        frame_length(frame(address, ident, body)) == body.len() + 2,
        frame_body(frame(address, ident, body)) == body,
        frame(address, ident, body).subrange(6, 9 + body.len() as int) == checked(ident, body),
        frame_checksum(frame(address, ident, body)) == (ident as nat + frame(
            address,
            ident,
            body,
        )[7] as nat + frame(address, ident, body)[8] as nat + byte_sum(body)) % 0x1_0000,
        frame_checksum(frame(address, ident, body)) == checksum_of(checked(ident, body)),
{
    lemma_frame_bytes(address, ident, body);
    lemma_checked_sum(ident, body);
    lemma_be32_round_trip(address);
    lemma_be16_round_trip((body.len() + 2) as u16);
    lemma_be16_round_trip(checksum_of(checked(ident, body)));
}

/// A frame at the head of what has arrived, field by field.
pub proof fn lemma_frame_on_line(address: u32, ident: u8, body: Seq<u8>, rest: Seq<u8>, s: Seq<u8>)
    requires
        body.len() <= MAX_BODY,
        s == frame(address, ident, body) + rest,
    ensures
        s.len() == 11 + body.len() + rest.len(),
        u16_of(s[0], s[1]) == MAGIC,
        u32_of(s[2], s[3], s[4], s[5]) == address,
        s[6] == ident,
        u16_of(s[7], s[8]) == body.len() + 2,
        s.subrange(9, 9 + body.len() as int) == body,
        s.subrange(6, 9 + body.len() as int) == checked(ident, body),
        u16_of(s[9 + body.len() as int], s[10 + body.len() as int]) == checksum_of(
            checked(ident, body),
        ),
        s.skip(11 + body.len() as int) == rest,
{
    let f = frame(address, ident, body);
    let n = body.len() as int;
    law_frame_layout(address, ident, body);
    assert(s.len() == 11 + n + rest.len());
    assert forall|i: int| 0 <= i < 11 + n implies s[i] == f[i] by {}
    assert(s.subrange(9, 9 + n) == body) by {
        assert(s.subrange(9, 9 + n) =~= f.subrange(9, 9 + n));
    }
    assert(s.subrange(6, 9 + n) == checked(ident, body)) by {
        assert(s.subrange(6, 9 + n) =~= f.subrange(6, 9 + n));
    }
    assert(s.skip(11 + n) =~= rest);
    assert(u16_of(s[0], s[1]) == MAGIC);
    assert(u32_of(s[2], s[3], s[4], s[5]) == address);
    assert(u16_of(s[7], s[8]) == n + 2);
    assert(u16_of(s[9 + n], s[10 + n]) == checksum_of(checked(ident, body)));
}

/// In every multi-byte integer on the wire the byte at the lower offset is
/// the more significant one, in writing and in reading alike; and what was
/// written is read back as it was, and the other way round.
pub proof fn law_high_byte_first(v: u16, w: u32, b3: u8, b2: u8, b1: u8, b0: u8)
    ensures
        be16(v) == seq![(v >> 8) as u8, (v & 0xFF) as u8],
        be32(w) == seq![
            (w >> 24) as u8,
            ((w >> 16) & 0xFF) as u8,
            ((w >> 8) & 0xFF) as u8,
            (w & 0xFF) as u8,
        ],
        u16_of(b1, b0) == (b1 as u16) << 8 | b0 as u16,
        u32_of(b3, b2, b1, b0) == (b3 as u32) << 24 | (b2 as u32) << 16 | (b1 as u32) << 8
            | b0 as u32,
        u16_of(be16(v)[0], be16(v)[1]) == v,
        u32_of(be32(w)[0], be32(w)[1], be32(w)[2], be32(w)[3]) == w,
        be16(u16_of(b1, b0)) == seq![b1, b0],
        be32(u32_of(b3, b2, b1, b0)) == seq![b3, b2, b1, b0],
{
    assert(v >> 8 == v / 0x100 && v & 0xFF == v % 0x100) by (bit_vector);
    assert(w >> 24 == w / 0x100_0000 && (w >> 16) & 0xFF == w / 0x1_0000 % 0x100 && (w >> 8)
        & 0xFF == w / 0x100 % 0x100 && w & 0xFF == w % 0x100) by (bit_vector);
    let (x3, x2, x1, x0) = (b3 as u32, b2 as u32, b1 as u32, b0 as u32);
    assert(x3 < 0x100 && x2 < 0x100 && x1 < 0x100 && x0 < 0x100 ==> x3 << 24 | x2 << 16 | x1 << 8
        | x0 == x3 * 0x100_0000 + x2 * 0x1_0000 + x1 * 0x100 + x0) by (bit_vector);
    let (y1, y0) = (b1 as u16, b0 as u16);
    assert(y1 < 0x100 && y0 < 0x100 ==> y1 << 8 | y0 == y1 * 0x100 + y0) by (bit_vector);
    lemma_be16_round_trip(v);
    lemma_be32_round_trip(w);
    lemma_u16_of_round_trip(b1, b0);
    lemma_u32_of_round_trip(b3, b2, b1, b0);
}

/// The parts of a command frame, read back from its bytes: the address, the
/// instruction and the arguments, where the bytes are a command frame that
/// is whole and whose checksum agrees.
pub open spec fn command_parts(f: Seq<u8>) -> Option<(u32, Commands, Seq<u8>)> {
    if f.len() >= 12 && u16_of(f[0], f[1]) == MAGIC && f[6]
        == PackageIdentifier::CommandPacket.byte() && frame_length(f) >= 3 && f.len() == 9
        + frame_length(f) && frame_checksum(f) == checksum_of(f.subrange(6, 7 + frame_length(f)))
        && Commands::of_byte(f[9]) is Some {
        Some((frame_address(f), Commands::of_byte(f[9])->Some_0, f.subrange(10, 7 + frame_length(f))))
    } else {
        None
    }
}

/// A command that is written and read back is the same command: for every
/// address, instruction and arguments, the frame's bytes give back exactly
/// these three.
pub proof fn law_command_round_trip(address: u32, instruction: Commands, arguments: Seq<u8>)
    requires
        arguments.len() < MAX_BODY,
    ensures
        command_parts(command_frame(address, instruction, arguments)) == Some(
            (address, instruction, arguments),
        ),
{
    let body = seq![instruction.byte()] + arguments;
    let f = command_frame(address, instruction, arguments);
    law_frame_layout(address, PackageIdentifier::CommandPacket.byte(), body);
    instruction.lemma_byte_round_trip();
    assert(f[9] == instruction.byte()) by {
        assert(f[9] == frame_body(f)[0]);
    }
    assert(f.subrange(10, 7 + frame_length(f)) == arguments) by {
        assert(f.subrange(10, 7 + frame_length(f)) =~= frame_body(f).subrange(
            1,
            body.len() as int,
        ));
        assert(body.subrange(1, body.len() as int) =~= arguments);
    }
    assert(f.subrange(6, 7 + frame_length(f)) == checked(
        PackageIdentifier::CommandPacket.byte(),
        body,
    ));
}

/// An acknowledge that is written and received is the same acknowledge.
///
/// For every address and confirmation, and every answer whose bytes stand
/// for a value, receiving the acknowledge frame succeeds and gives back the
/// address, the identifier of an acknowledge, the confirmation and the value,
/// whatever follows the frame on the line. The reads end with the frame. A
/// command's caller gets the value where the confirmation is success, and
/// the confirmation as the error where it is not.
#[verifier::rlimit(40)]
pub proof fn law_acknowledge_round_trip<T: FromWire>(
    address: u32,
    confirmation: ConfirmationCode,
    answer: Seq<u8>,
    value: T,
    rest: Seq<u8>,
    line: Line,
)
    requires
        answer.len() == T::wire_len(),
        answer.len() < MAX_BODY,
        T::decode(answer) == Some(value),
        line.incoming == acknowledge_frame(address, confirmation, answer) + rest,
    ensures
        acknowledge::<T>(line) == Ok::<Response<T>, Error>(
            Response {
                address,
                ident: PackageIdentifier::AcknowledgePacket.byte(),
                confirmation,
                body: value,
            },
        ),
        acknowledge_reach::<T>(line) == 12 + answer.len(),
        line.advance(12 + answer.len() as int).incoming == rest,
        reply::<T>(address, line) == if confirmation == ConfirmationCode::SuccessCode {
            Ok::<T, Error>(value)
        } else {
            Err(Error::BadConfirmation(confirmation))
        },
{
    let n = answer.len() as int;
    let ident = PackageIdentifier::AcknowledgePacket.byte();
    let body = seq![confirmation.byte()] + answer;
    let s = line.incoming;
    lemma_frame_on_line(address, ident, body, rest, s);
    assert(ConfirmationCode::of_byte(s[9]) == Some(confirmation)) by {
        confirmation.lemma_byte_round_trip();
        assert(s.subrange(9, 10 + n)[0] == body[0]);
    }
    assert(T::decode(s.subrange(10, 10 + n)) == Some(value)) by {
        assert(s.subrange(10, 10 + n) =~= s.subrange(9, 10 + n).subrange(1, 1 + n));
        assert(body.subrange(1, 1 + n) =~= answer);
    }
    assert(PackageIdentifier::of_byte(s[6]) is Some);
    assert(checksum_of(s.subrange(6, 10 + n)) == u16_of(s[10 + n], s[11 + n]));
    assert(line.advance(12 + n).incoming == rest);
    lemma_acknowledge_sound::<T>(line, confirmation, value);
}

/// A single wrong byte in the covered part of an acknowledge is found out.
///
/// Take an acknowledge that is received without error, and replace one byte
/// of its identifier, length, confirmation or answer by another value. Then
/// receiving it fails: with `IncorrectData` where the new confirmation or
/// the new answer stands for no value, which is found first, and with
/// `BadChecksum` in every other case.
pub proof fn law_mutation_detected<T: FromWire>(line: Line, at: int, byte: u8)
    requires
        acknowledge::<T>(line) is Ok,
        6 <= at < 10 + T::wire_len(),
        byte != line.incoming[at],
    ensures
        ({
            let changed = Line {
                incoming: line.incoming.update(at, byte),
                outgoing: line.outgoing,
                closed: line.closed,
            };
            let n = T::wire_len() as int;
            acknowledge::<T>(changed) == Err::<Response<T>, Error>(
                if ConfirmationCode::of_byte(changed.incoming[9]) is None || T::decode(
                    changed.incoming.subrange(10, 10 + n),
                ) is None {
                    Error::IncorrectData
                } else {
                    Error::BadChecksum
                },
            )
        }),
{
    reveal(acknowledge);
    let n = T::wire_len() as int;
    let s = line.incoming;
    let t = s.update(at, byte);
    let covered = s.subrange(6, 10 + n);
    assert(t.subrange(6, 10 + n) =~= covered.update(at - 6, byte));
    lemma_sum_moves(covered, at - 6, byte);
    assert(t[10 + n] == s[10 + n] && t[11 + n] == s[11 + n]);
    assert(t[0] == s[0] && t[1] == s[1]);
}

/// Replacing one byte by another value changes the checksum.
pub proof fn lemma_sum_moves(covered: Seq<u8>, at: int, byte: u8)
    requires
        0 <= at < covered.len(),
        byte != covered[at],
    ensures
        checksum_of(covered.update(at, byte)) != checksum_of(covered),
{
    lemma_byte_sum_update(covered, at, byte);
    let a = byte_sum(covered) as int;
    let b = byte_sum(covered.update(at, byte)) as int;
    assert(b + covered[at] == a + byte);
    assert(-0x100 < a - b < 0x100 && a != b);
    if a % 0x1_0000 == b % 0x1_0000 {
        assert((a - b) % 0x1_0000 == 0) by (nonlinear_arith)
            requires
                a % 0x1_0000 == b % 0x1_0000,
        ;
    }
}

/// A single wrong byte in the payload of a stream frame is found out.
///
/// Take a frame of a stream that is taken without error, and replace one
/// byte of its payload by another value. Then the frame is refused with
/// `BadChecksum`, after the changed payload was put into the buffer.
pub proof fn law_stream_mutation_detected(address: u32, line: Line, room: int, at: int, byte: u8)
    requires
        chunk(address, line, room).outcome is Ok,
        9 <= at < 9 + chunk(address, line, room).payload.len(),
        byte != line.incoming[at],
    ensures
        ({
            let changed = Line {
                incoming: line.incoming.update(at, byte),
                outgoing: line.outgoing,
                closed: line.closed,
            };
            &&& chunk(address, changed, room).outcome == Err::<bool, Error>(Error::BadChecksum)
            &&& chunk(address, changed, room).payload == chunk(address, line, room).payload.update(
                at - 9,
                byte,
            )
            &&& chunk(address, changed, room).reach == chunk(address, line, room).reach
        }),
{
    reveal(opening);
    reveal(chunk);
    let s = line.incoming;
    let t = s.update(at, byte);
    let n = u16_of(s[7], s[8]) - 2;
    let covered = s.subrange(6, 9 + n);
    assert(t.subrange(6, 9 + n) =~= covered.update(at - 6, byte));
    assert(t.subrange(9, 9 + n) =~= s.subrange(9, 9 + n).update(at - 9, byte));
    lemma_sum_moves(covered, at - 6, byte);
}

/// Only a known identifier is taken at all, only an acknowledge for an
/// acknowledge, and only a data frame or the end of the data for a piece of
/// a stream.
///
/// Receiving an acknowledge succeeds only under one of the four identifiers
/// that there are; a frame that is whole, whose confirmation and answer stand
/// for values and whose checksum agrees, is `IncorrectData` under any other
/// byte. A command's caller gets an answer only from a frame whose identifier
/// is that of an acknowledge; a frame that is received without error under
/// any other identifier is `IncorrectData`. A stream takes a frame only under
/// the identifier of a data frame or of the end of the data; under any other,
/// behind a sound magic and the right address, the frame is `IncorrectData`.
pub proof fn law_identifier_discrimination<T: FromWire>(address: u32, line: Line, room: int)
    ensures
        forall|b: u8|
            #[trigger] PackageIdentifier::of_byte(b) is Some <==> b == 0x01 || b == 0x02 || b
                == 0x07 || b == 0x08,
        acknowledge::<T>(line) is Ok ==> PackageIdentifier::of_byte(line.incoming[6]) is Some,
        ({
            let s = line.incoming;
            let n = T::wire_len() as int;
            s.len() >= 12 + n && u16_of(s[0], s[1]) == MAGIC && ConfirmationCode::of_byte(s[9])
                is Some && T::decode(s.subrange(10, 10 + n)) is Some && checksum_of(
                s.subrange(6, 10 + n),
            ) == u16_of(s[10 + n], s[11 + n]) && PackageIdentifier::of_byte(s[6]) is None
                ==> acknowledge::<T>(line) == Err::<Response<T>, Error>(Error::IncorrectData)
        }),
        reply::<T>(address, line) is Ok ==> line.incoming[6]
            == PackageIdentifier::AcknowledgePacket.byte(),
        acknowledge::<T>(line) is Ok && line.incoming[6]
            != PackageIdentifier::AcknowledgePacket.byte() ==> reply::<T>(address, line) == Err::<
            T,
            Error,
        >(Error::IncorrectData),
        chunk(address, line, room).outcome is Ok ==> line.incoming[6]
            == PackageIdentifier::DataPacket.byte() || line.incoming[6]
            == PackageIdentifier::EndOfDataPacket.byte(),
        line.incoming.len() >= 7 && u16_of(line.incoming[0], line.incoming[1]) == MAGIC
            && frame_address(line.incoming) == address && line.incoming[6]
            != PackageIdentifier::DataPacket.byte() && line.incoming[6]
            != PackageIdentifier::EndOfDataPacket.byte() ==> chunk(address, line, room).outcome
            == Err::<bool, Error>(Error::IncorrectData),
{
    reveal(opening);
    reveal(chunk);
    reveal(acknowledge);
}

/// Data frames with the given payloads, one behind the other.
pub open spec fn data_frames(address: u32, payloads: Seq<Seq<u8>>) -> Seq<u8>
    decreases payloads.len(),
{
    if payloads.len() == 0 {
        Seq::empty()
    } else {
        frame(address, PackageIdentifier::DataPacket.byte(), payloads.first()) + data_frames(
            address,
            payloads.drop_first(),
        )
    }
}

/// The payloads, one behind the other.
pub open spec fn joined(payloads: Seq<Seq<u8>>) -> Seq<u8>
    decreases payloads.len(),
{
    if payloads.len() == 0 {
        Seq::empty()
    } else {
        payloads.first() + joined(payloads.drop_first())
    }
}

/// A sound frame of a stream is taken whole: its payload goes into the
/// buffer, and the reads end with the frame.
pub proof fn lemma_chunk_of_frame(
    address: u32,
    more: bool,
    payload: Seq<u8>,
    rest: Seq<u8>,
    line: Line,
    room: int,
)
    requires
        payload.len() <= MAX_BODY,
        payload.len() <= room,
        line.incoming == frame(
            address,
            if more {
                PackageIdentifier::DataPacket.byte()
            } else {
                PackageIdentifier::EndOfDataPacket.byte()
            },
            payload,
        ) + rest,
    ensures
        chunk(address, line, room) == (Chunk {
            outcome: Ok(more),
            payload,
            reach: 11 + payload.len() as int,
        }),
        line.advance(11 + payload.len() as int).incoming == rest,
{
    let ident = if more {
        PackageIdentifier::DataPacket.byte()
    } else {
        PackageIdentifier::EndOfDataPacket.byte()
    };
    lemma_frame_on_line(address, ident, payload, rest, line.incoming);
    reveal(opening);
    reveal(chunk);
}

/// A stream hands over its payloads in the order of arrival.
///
/// For any data frames with the payloads `payloads`, followed by the frame
/// that ends the data with the payload `last`, and a buffer with room for all
/// of them, receiving the stream succeeds; what is put into the buffer is the
/// payloads one behind the other, then `last`; and the reads end with the
/// last frame, whatever follows it on the line.
#[verifier::rlimit(40)]
pub proof fn law_stream_concatenation(
    address: u32,
    payloads: Seq<Seq<u8>>,
    last: Seq<u8>,
    rest: Seq<u8>,
    line: Line,
    room: int,
)
    requires
        forall|i: int| 0 <= i < payloads.len() ==> (#[trigger] payloads[i]).len() <= MAX_BODY,
        last.len() <= MAX_BODY,
        joined(payloads).len() + last.len() <= room,
        line.incoming == data_frames(address, payloads) + frame(
            address,
            PackageIdentifier::EndOfDataPacket.byte(),
            last,
        ) + rest,
    ensures
        streamed(address, line, room) == (Streamed {
            outcome: Ok(()),
            data: joined(payloads) + last,
            reach: data_frames(address, payloads).len() as int + 11 + last.len(),
        }),
        line.advance(data_frames(address, payloads).len() as int + 11 + last.len()).incoming
            == rest,
    decreases payloads.len(),
{
    let end = frame(address, PackageIdentifier::EndOfDataPacket.byte(), last);
    if payloads.len() == 0 {
        assert(line.incoming == end + rest) by {
            assert(data_frames(address, payloads) + end =~= end);
        }
        lemma_chunk_of_frame(address, false, last, rest, line, room);
        assert(joined(payloads) + last == last) by {
            assert(joined(payloads) + last =~= last);
        }
    } else {
        let head = payloads.first();
        let tail = payloads.drop_first();
        let first = frame(address, PackageIdentifier::DataPacket.byte(), head);
        let after = data_frames(address, tail) + end + rest;
        let more = data_frames(address, tail).len() as int + 11 + last.len();
        assert(line.incoming == first + after) by {
            assert(data_frames(address, payloads) + end + rest =~= first + after);
        }
        assert(head.len() <= MAX_BODY) by {
            assert(head == payloads[0]);
        }
        assert(joined(payloads) == head + joined(tail));
        assert(data_frames(address, payloads).len() == 11 + head.len() + data_frames(
            address,
            tail,
        ).len()) by {
            lemma_frame_len(address, PackageIdentifier::DataPacket.byte(), head);
        }
        lemma_chunk_of_frame(address, true, head, after, line, room);
        let next = line.advance(11 + head.len() as int);
        assert forall|i: int| 0 <= i < tail.len() implies (#[trigger] tail[i]).len()
            <= MAX_BODY by {
            assert(tail[i] == payloads[i + 1]);
        }
        law_stream_concatenation(address, tail, last, rest, next, room - head.len());
        let inner = streamed(address, next, room - head.len());
        assert(head + (joined(tail) + last) == joined(payloads) + last) by {
            assert(head + (joined(tail) + last) =~= joined(payloads) + last);
        }
        assert(line.advance(11 + head.len() + more) == next.advance(more)) by {
            lemma_advance_twice(line, 11 + head.len() as int, more);
        }
        assert(streamed(address, line, room) == (Streamed {
            outcome: inner.outcome,
            data: head + inner.data,
            reach: 11 + head.len() + inner.reach,
        }));
    }
}

/// An enrollment takes its acknowledges in order only.
///
/// In every state but an ended one, a wait for `step` receives one
/// acknowledge and judges it. Where the acknowledge is sound and reports any
/// other step, the wait is refused with `IncorrectData`, no slot is handed
/// back, and the enrollment has failed. Where it reports `step`, it is taken:
/// the slot is handed back, and the step that follows is due, or the template
/// is stored. Where the acknowledge fails, its error is handed back as it is.
/// An enrollment that has ended refuses every wait, and reads nothing.
pub proof fn law_step_order(
    driver: Enrollment,
    step: AutoEnrollStep,
    line: Line,
    answer: AutoEnrollResponse,
)
    ensures
        !driver.state.ended() && reply::<AutoEnrollResponse>(driver.address, line) == Ok::<
            AutoEnrollResponse,
            Error,
        >(answer) && answer.step != step ==> {
            &&& enroll_wait(driver, step, line).result == Err::<u8, Error>(Error::IncorrectData)
            &&& enroll_wait(driver, step, line).driver.state == EnrollState::Failed(
                Error::IncorrectData,
            )
        },
        !driver.state.ended() && reply::<AutoEnrollResponse>(driver.address, line) == Ok::<
            AutoEnrollResponse,
            Error,
        >(answer) && answer.step == step ==> {
            &&& enroll_wait(driver, step, line).result == Ok::<u8, Error>(answer.model_id)
            &&& enroll_wait(driver, step, line).driver.state == match step.following() {
                Some(next) => EnrollState::Awaiting(next),
                None => EnrollState::Stored(answer.model_id),
            }
        },
        forall|e: Error|
            !driver.state.ended() && reply::<AutoEnrollResponse>(driver.address, line) == Err::<
                AutoEnrollResponse,
                Error,
            >(e) ==> enroll_wait(driver, step, line).result == Err::<u8, Error>(e),
        !driver.state.ended() ==> enroll_wait(driver, step, line).line == line.advance(
            acknowledge_reach::<AutoEnrollResponse>(line),
        ),
        driver.state.ended() ==> enroll_wait(driver, step, line) == (EnrollWaited {
            result: Err(Error::IncorrectData),
            driver,
            line,
        }),
        enroll_wait(driver, step, line).result is Ok ==> (reply::<AutoEnrollResponse>(
            driver.address,
            line,
        ) matches Ok(taken) && taken.step == step),
{
}

/// An identification takes its acknowledges in order only.
///
/// In every state but an ended one, a wait for `step` receives one
/// acknowledge and judges it. Where the acknowledge is sound and reports any
/// other step, the wait is refused with `IncorrectData`, and the
/// identification has failed: no failure is spent on it. Where it reports
/// `step`, its step, slot and score are handed back. An identification that
/// has ended refuses every wait, and reads nothing.
pub proof fn law_identify_step_order(
    driver: Identification,
    step: AutoIdentifyStep,
    line: Line,
    answer: AutoIdentifyResponse,
)
    ensures
        !driver.state.ended() && reply::<AutoIdentifyResponse>(driver.address, line) == Ok::<
            AutoIdentifyResponse,
            Error,
        >(answer) && answer.step != step ==> {
            &&& identify_wait(driver, step, line).result == Err::<AutoIdentifyResponse, Error>(
                Error::IncorrectData,
            )
            &&& identify_wait(driver, step, line).driver.state == IdentifyState::Failed(
                Error::IncorrectData,
            )
        },
        !driver.state.ended() && reply::<AutoIdentifyResponse>(driver.address, line) == Ok::<
            AutoIdentifyResponse,
            Error,
        >(answer) && answer.step == step ==> {
            &&& identify_wait(driver, step, line).result == Ok::<AutoIdentifyResponse, Error>(
                answer,
            )
            &&& identify_wait(driver, step, line).driver.state == match step.following() {
                Some(next) => IdentifyState::Awaiting(next, driver.state.left()),
                None => IdentifyState::Success(answer),
            }
        },
        forall|e: Error|
            !driver.state.ended() && reply::<AutoIdentifyResponse>(driver.address, line) == Err::<
                AutoIdentifyResponse,
                Error,
            >(e) ==> identify_wait(driver, step, line).result == Err::<
                AutoIdentifyResponse,
                Error,
            >(e),
        !driver.state.ended() ==> identify_wait(driver, step, line).line == line.advance(
            acknowledge_reach::<AutoIdentifyResponse>(line),
        ),
        driver.state.ended() ==> identify_wait(driver, step, line) == (IdentifyWaited {
            result: Err(Error::IncorrectData),
            driver,
            line,
        }),
{
}

/// No enrollment asks for a slot that there is not: the location that a
/// configuration names is a slot below `AUTOMATIC_LOCATION` or that number,
/// and so is the first byte that stands for the configuration on the wire.
pub proof fn law_location_in_range(cfg: AutoEnrollConfig)
    ensures
        cfg.location@ <= AUTOMATIC_LOCATION,
        cfg.wire().len() == 5,
        cfg.wire()[0] <= AUTOMATIC_LOCATION,
{
    cfg.location.lemma_in_range();
}

/// Acknowledges of the device at `address` with the confirmations `codes`
/// and the answers `answers`, one behind the other.
pub open spec fn acknowledges(
    address: u32,
    codes: Seq<ConfirmationCode>,
    answers: Seq<Seq<u8>>,
) -> Seq<u8>
    decreases codes.len(),
{
    if codes.len() == 0 {
        Seq::empty()
    } else {
        acknowledge_frame(address, codes.first(), answers.first()) + acknowledges(
            address,
            codes.drop_first(),
            answers.drop_first(),
        )
    }
}

/// How many cycles an identification may take.
///
/// An identification that may still spend `n` failures, whatever step is
/// due, and then receives `n + 1` acknowledges in which the device reports a
/// failure, takes them all and is `Exhausted`: it hands back the last of
/// these failures, and reads nothing of what follows. So it runs for at most
/// `n + 1` cycles.
pub proof fn law_attempt_budget(
    address: u32,
    due: AutoIdentifyStep,
    n: u8,
    codes: Seq<ConfirmationCode>,
    answers: Seq<Seq<u8>>,
    rest: Seq<u8>,
    line: Line,
)
    requires
        codes.len() == n + 1,
        answers.len() == n + 1,
        forall|i: int| 0 <= i < codes.len() ==> #[trigger] codes[i] != ConfirmationCode::SuccessCode,
        forall|i: int|
            0 <= i < answers.len() ==> (#[trigger] answers[i]).len() == 5
                && AutoIdentifyResponse::decode(answers[i]) is Some,
        line.incoming == acknowledges(address, codes, answers) + rest,
    ensures
        identify_from(
            Identification {
                address,
                state: IdentifyState::Awaiting(due, AutoIdentCount::TimesWithTimeout(n)),
            },
            line,
        ) == (IdentifyWaited {
            result: Err(Error::BadConfirmation(codes.last())),
            driver: Identification { address, state: IdentifyState::Exhausted },
            line: Line { incoming: rest, outgoing: line.outgoing, closed: line.closed },
        }),
    decreases n,
{
    let driver = Identification {
        address,
        state: IdentifyState::Awaiting(due, AutoIdentCount::TimesWithTimeout(n)),
    };
    let code = codes.first();
    let answer = answers.first();
    let later = acknowledges(address, codes.drop_first(), answers.drop_first()) + rest;
    assert(code == codes[0] && answer == answers[0]);
    assert(line.incoming == acknowledge_frame(address, code, answer) + later) by {
        assert(acknowledges(address, codes, answers) + rest =~= acknowledge_frame(
            address,
            code,
            answer,
        ) + later);
    }
    law_acknowledge_round_trip::<AutoIdentifyResponse>(
        address,
        code,
        answer,
        AutoIdentifyResponse::decode(answer)->Some_0,
        later,
        line,
    );
    let first = identify_wait(driver, due, line);
    let next = line.advance(17);
    assert(first.result == Err::<AutoIdentifyResponse, Error>(Error::BadConfirmation(code)));
    assert(first.line == next);
    assert(next == (Line { incoming: later, outgoing: line.outgoing, closed: line.closed }));
    if n == 0 {
        assert(codes.last() == code);
        assert(later == rest) by {
            assert(acknowledges(address, codes.drop_first(), answers.drop_first())
                =~= Seq::<u8>::empty());
            assert(later =~= rest);
        }
        assert(first.driver.state == IdentifyState::Exhausted);
    } else {
        let fewer = (n - 1) as u8;
        assert(first.driver == (Identification {
            address,
            state: IdentifyState::Awaiting(
                AutoIdentifyStep::CollectImage,
                AutoIdentCount::TimesWithTimeout(fewer),
            ),
        }));
        assert forall|i: int| 0 <= i < codes.drop_first().len() implies #[trigger] codes.drop_first()[i]
            != ConfirmationCode::SuccessCode by {
            assert(codes.drop_first()[i] == codes[i + 1]);
        }
        assert forall|i: int| 0 <= i < answers.drop_first().len() implies (
        #[trigger] answers.drop_first()[i]).len() == 5 && AutoIdentifyResponse::decode(
            answers.drop_first()[i],
        ) is Some by {
            assert(answers.drop_first()[i] == answers[i + 1]);
        }
        assert(codes.drop_first().last() == codes.last());
        law_attempt_budget(
            address,
            AutoIdentifyStep::CollectImage,
            fewer,
            codes.drop_first(),
            answers.drop_first(),
            rest,
            next,
        );
    }
}

/// An identification that may fail without end is never exhausted: no wait
/// leaves it `Exhausted`, whatever arrives.
pub proof fn law_budget_without_end(driver: Identification, step: AutoIdentifyStep, line: Line)
    requires
        !driver.state.ended(),
        driver.state.left() == AutoIdentCount::Infinite,
    ensures
        !(identify_wait(driver, step, line).driver.state is Exhausted),
        identify_wait(driver, step, line).driver.state is Awaiting ==> identify_wait(
            driver,
            step,
            line,
        ).driver.state.left() == AutoIdentCount::Infinite,
{
}

} // verus!
