use vstd::prelude::*;
use crate::checksum::checksum_of;
use crate::constants::PackageIdentifier;
use crate::error::Error;
use crate::frame::MAGIC;
use crate::serial::Line;
use crate::wire_traits::{u16_of, u32_of};

verus! {

/// What receiving the opening of a frame of a data stream comes to.
pub struct Opening {
    /// Whether more frames follow and how long the payload is, or why the
    /// frame was refused.
    pub outcome: Result<(bool, int), Error>,
    /// How many bytes the reads asked for in all.
    pub reach: int,
}

/// Receiving the opening of a frame of a data stream from the device at
/// `address`, with room for `room` more bytes: read by read, magic, address,
/// identifier, length. The first read that falls short, or the first field
/// that does not fit, decides: a foreign magic or address, an identifier that
/// is neither that of a data frame nor that of the end of the data, a length
/// below two, or a payload longer than the room.
#[verifier::opaque]
pub open spec fn opening(address: u32, line: Line, room: int) -> Opening {
    let s = line.incoming;
    if s.len() < 2 {
        Opening { outcome: Err(line.shortfall(2)), reach: 2 }
    } else if u16_of(s[0], s[1]) != MAGIC {
        Opening { outcome: Err(Error::IncorrectData), reach: 2 }
    } else if s.len() < 6 {
        Opening { outcome: Err(line.shortfall(6)), reach: 6 }
    } else if u32_of(s[2], s[3], s[4], s[5]) != address {
        Opening { outcome: Err(Error::IncorrectData), reach: 6 }
    } else if s.len() < 7 {
        Opening { outcome: Err(line.shortfall(7)), reach: 7 }
    } else if s[6] != PackageIdentifier::DataPacket.byte() && s[6]
        != PackageIdentifier::EndOfDataPacket.byte() {
        Opening { outcome: Err(Error::IncorrectData), reach: 7 }
    } else if s.len() < 9 {
        Opening { outcome: Err(line.shortfall(9)), reach: 9 }
    } else if u16_of(s[7], s[8]) < 2 || room < u16_of(s[7], s[8]) - 2 {
        Opening { outcome: Err(Error::IncorrectData), reach: 9 }
    } else {
        Opening {
            outcome: Ok((s[6] == PackageIdentifier::DataPacket.byte(), u16_of(s[7], s[8]) - 2)),
            reach: 9,
        }
    }
}

/// What receiving one frame of a data stream comes to.
pub struct Chunk {
    /// Whether more frames follow, or why the frame was refused.
    pub outcome: Result<bool, Error>,
    /// The payload bytes that were put into the caller's buffer.
    pub payload: Seq<u8>,
    /// How many bytes the reads asked for in all.
    pub reach: int,
}

/// Receiving one frame of a data stream from the device at `address`, with
/// room for `room` more bytes: its opening, then the payload, which goes
/// into the buffer, then the checksum, which is held against the sum of the
/// identifier, the length and the payload. The first read that falls short,
/// or the first field that does not fit, decides.
#[verifier::opaque]
pub open spec fn chunk(address: u32, line: Line, room: int) -> Chunk {
    let s = line.incoming;
    let none = Seq::<u8>::empty();
    match opening(address, line, room).outcome {
        Err(e) => Chunk { outcome: Err(e), payload: none, reach: opening(address, line, room).reach },
        Ok((more, n)) => if s.len() < 9 + n {
            Chunk { outcome: Err(line.shortfall(9 + n)), payload: none, reach: 9 + n }
        } else if s.len() < 11 + n {
            Chunk {
                outcome: Err(line.shortfall(11 + n)),
                payload: s.subrange(9, 9 + n),
                reach: 11 + n,
            }
        } else if checksum_of(s.subrange(6, 9 + n)) != u16_of(s[9 + n], s[10 + n]) {
            Chunk { outcome: Err(Error::BadChecksum), payload: s.subrange(9, 9 + n), reach: 11 + n }
        } else {
            Chunk { outcome: Ok(more), payload: s.subrange(9, 9 + n), reach: 11 + n }
        },
    }
}

/// What receiving a whole data stream comes to.
pub struct Streamed {
    /// Whether the stream came to its end, or why it was refused.
    pub outcome: Result<(), Error>,
    /// The payload bytes that were put into the caller's buffer, in order.
    pub data: Seq<u8>,
    /// How many bytes the reads asked for in all.
    pub reach: int,
}

/// Receiving a data stream from the device at `address` into a buffer with
/// room for `room` bytes: frame after frame, up to and with the first frame
/// that ends the stream or is refused.
pub open spec fn streamed(address: u32, line: Line, room: int) -> Streamed
    decreases line.incoming.len(),
    via streamed_ends
{
    let first = chunk(address, line, room);
    if first.outcome == Ok::<bool, Error>(true) {
        let rest = streamed(address, line.advance(first.reach), room - first.payload.len());
        Streamed {
            outcome: rest.outcome,
            data: first.payload + rest.data,
            reach: first.reach + rest.reach,
        }
    } else {
        Streamed {
            outcome: match first.outcome {
                Ok(_) => Ok(()),
                Err(e) => Err(e),
            },
            data: first.payload,
            reach: first.reach,
        }
    }
}

#[via_fn]
proof fn streamed_ends(address: u32, line: Line, room: int) {
    if chunk(address, line, room).outcome is Ok {
        lemma_chunk_taken(address, line, room);
    }
}

/// Every frame asks for at least the magic, and puts no more into the buffer
/// than there is room for.
pub proof fn lemma_chunk_bounds(address: u32, line: Line, room: int)
    ensures
        2 <= chunk(address, line, room).reach,
        chunk(address, line, room).payload.len() == 0 || chunk(address, line, room).payload.len()
            <= room,
{
    reveal(opening);
    reveal(chunk);
}

/// A frame that is taken ends within what has arrived, and its payload fits
/// the room that was left.
pub proof fn lemma_chunk_taken(address: u32, line: Line, room: int)
    requires
        chunk(address, line, room).outcome is Ok,
    ensures
        11 <= chunk(address, line, room).reach <= line.incoming.len(),
        chunk(address, line, room).payload.len() + 11 == chunk(address, line, room).reach,
        chunk(address, line, room).payload.len() <= room,
{
    reveal(opening);
    reveal(chunk);
}

/// A stream puts no more into the buffer than there is room for.
pub proof fn lemma_streamed_fits(address: u32, line: Line, room: int)
    requires
        0 <= room,
    ensures
        streamed(address, line, room).data.len() <= room,
        0 <= streamed(address, line, room).reach,
    decreases line.incoming.len(),
{
    let first = chunk(address, line, room);
    lemma_chunk_bounds(address, line, room);
    if first.outcome == Ok::<bool, Error>(true) {
        lemma_chunk_taken(address, line, room);
        lemma_streamed_fits(address, line.advance(first.reach), room - first.payload.len());
    }
}

} // verus!
