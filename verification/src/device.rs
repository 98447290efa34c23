use vstd::prelude::*;
use crate::checksum::{checksum_of, lemma_fold16_concat, Checksum};
use crate::constants::{AuraControlPayload, CharBufferId, Commands, IndexTableIdx};
use crate::error::Error;
use crate::frame::{
    acknowledge_reach, command_frame, lemma_acknowledge_reads_only, receive_reply, reply, Command,
    MAGIC, MAX_BODY,
};
use crate::serial::{lemma_advance_twice, lemma_next_read, Line, Serial};
use crate::stream::{chunk, lemma_chunk_bounds, lemma_chunk_taken, opening, streamed};
use crate::wire_traits::{be16, read_covered, u16_of, FromWire, ToWire};

verus! {

/// The address that a device answers to when it leaves the factory.
pub const DEFAULT_ADDRESS: u32 = 0xFFFF_FFFF;

/// A character buffer and a slot of the library: what `store` and
/// `load_char` take.
#[derive(Clone, Copy, Debug, PartialEq, Eq, Structural)]
pub struct LoadCharRequest {
    pub char_buffer: CharBufferId,
    pub model_id: u16,
}

impl ToWire for LoadCharRequest {
    open spec fn wire(&self) -> Seq<u8> {
        seq![self.char_buffer.byte()] + be16(self.model_id)
    }

    fn size_on_wire(&self) -> (n: usize) {
        3
    }

    fn to_wire(&self, serial: &mut Serial, cksm: Option<&mut Checksum>) {
        let data = [
            self.char_buffer.to_byte(),
            (self.model_id / 0x100) as u8,
            (self.model_id % 0x100) as u8,
        ];
        proof {
            assert(data@ =~= self.wire());
        }
        data.as_slice().to_wire(serial, cksm)
    }
}

/// What `search` takes: the buffer that holds the feature file, the slot at
/// which the search starts, and how many slots it covers.
#[derive(Clone, Copy, Debug, PartialEq, Eq, Structural)]
pub struct SearchRequest {
    pub char_buffer: CharBufferId,
    pub start: u16,
    pub num: u16,
}

impl ToWire for SearchRequest {
    open spec fn wire(&self) -> Seq<u8> {
        seq![self.char_buffer.byte()] + be16(self.start) + be16(self.num)
    }

    fn size_on_wire(&self) -> (n: usize) {
        5
    }

    fn to_wire(&self, serial: &mut Serial, cksm: Option<&mut Checksum>) {
        let data = [
            self.char_buffer.to_byte(),
            (self.start / 0x100) as u8,
            (self.start % 0x100) as u8,
            (self.num / 0x100) as u8,
            (self.num % 0x100) as u8,
        ];
        proof {
            assert(data@ =~= self.wire());
        }
        data.as_slice().to_wire(serial, cksm)
    }
}

/// What `search` found: the slot of the matching template, and how well it
/// matches.
#[derive(Clone, Copy, Debug, PartialEq, Eq, Structural)]
pub struct SearchResult {
    pub model_id: u16,
    pub score: u16,
}

impl FromWire for SearchResult {
    open spec fn wire_len() -> nat {
        4
    }

    open spec fn decode(bytes: Seq<u8>) -> Option<Self> {
        Some(
            SearchResult {
                model_id: u16_of(bytes[0], bytes[1]),
                score: u16_of(bytes[2], bytes[3]),
            },
        )
    }

    fn from_wire(serial: &mut Serial, cksm: Option<&mut Checksum>) -> (r: Result<Self, Error>) {
        let mut buf = [0u8; 4];
        match read_covered(serial, cksm, &mut buf) {
            Ok(()) => Ok(
                SearchResult {
                    model_id: buf[0] as u16 * 0x100 + buf[1] as u16,
                    score: buf[2] as u16 * 0x100 + buf[3] as u16,
                },
            ),
            Err(e) => Err(e),
        }
    }
}

/// What `delete_char` takes: the first slot to clear, and how many.
#[derive(Clone, Copy, Debug, PartialEq, Eq, Structural)]
pub struct DeleteCharRequest {
    pub start_id: u16,
    pub num: u16,
}

impl ToWire for DeleteCharRequest {
    open spec fn wire(&self) -> Seq<u8> {
        be16(self.start_id) + be16(self.num)
    }

    fn size_on_wire(&self) -> (n: usize) {
        4
    }

    fn to_wire(&self, serial: &mut Serial, cksm: Option<&mut Checksum>) {
        let data = [
            (self.start_id / 0x100) as u8,
            (self.start_id % 0x100) as u8,
            (self.num / 0x100) as u8,
            (self.num % 0x100) as u8,
        ];
        proof {
            assert(data@ =~= self.wire());
        }
        data.as_slice().to_wire(serial, cksm)
    }
}

/// Whether `table`, a page of the occupancy table, marks the slot `slot` of
/// the page as holding a template: bit `slot % 8` of byte `slot / 8`.
pub open spec fn slot_taken(table: Seq<u8>, slot: int) -> bool {
    (table[slot / 8] >> ((slot % 8) as u8)) & 1u8 == 1u8
}

/// The numbers, within the whole library, of the slots among the first `n`
/// of the page `page` that `table` marks as taken, in ascending order.
pub open spec fn taken_below(page: IndexTableIdx, table: Seq<u8>, n: int) -> Seq<u16>
    decreases n,
{
    if n <= 0 {
        Seq::empty()
    } else if slot_taken(table, n - 1) {
        taken_below(page, table, n - 1).push((page.byte() * 256 + n - 1) as u16)
    } else {
        taken_below(page, table, n - 1)
    }
}

/// A slot of the page is in the list exactly if the table marks it.
pub proof fn lemma_taken_below(page: IndexTableIdx, table: Seq<u8>, n: int, slot: int)
    requires
        0 <= n <= 256,
        0 <= slot < 256,
    ensures
        taken_below(page, table, n).contains((page.byte() * 256 + slot) as u16) <==> slot < n
            && slot_taken(table, slot),
        forall|i: int|
            0 <= i < taken_below(page, table, n).len() ==> page.byte() * 256 <= (
            #[trigger] taken_below(page, table, n)[i]) < page.byte() * 256 + n,
    decreases n,
{
    if n > 0 {
        lemma_taken_below(page, table, n - 1, slot);
        let rest = taken_below(page, table, n - 1);
        let last = (page.byte() * 256 + n - 1) as u16;
        let this = (page.byte() * 256 + slot) as u16;
        if slot_taken(table, n - 1) {
            assert(rest.push(last).last() == last);
            if slot != n - 1 && rest.contains(this) {
                let i = choose|i: int| 0 <= i < rest.len() && rest[i] == this;
                assert(rest.push(last)[i] == this);
            }
        }
    }
}

/// The numbers of the slots that one page of the occupancy table marks as
/// holding a template, in ascending order.
pub fn occupied_slots(page: IndexTableIdx, table: &[u8; 32]) -> (slots: Vec<u16>)
    ensures
        slots@ == taken_below(page, table@, 256),
{
    let base: u16 = page.to_byte() as u16 * 256;
    let mut slots: Vec<u16> = Vec::new();
    let mut slot: u16 = 0;
    while slot < 256
        invariant
            slot <= 256,
            base == page.byte() * 256,
            slots@ == taken_below(page, table@, slot as int),
        decreases 256 - slot,
    {
        let byte = table[(slot / 8) as usize];
        if (byte >> ((slot % 8) as u8)) & 1u8 == 1u8 {
            slots.push(base + slot);
        }
        slot += 1;
    }
    slots
}

/// The transport after one command and its acknowledge: the command's frame
/// was written, and the reads of the acknowledge were made.
pub open spec fn after_command<T: FromWire>(
    address: u32,
    instruction: Commands,
    arguments: Seq<u8>,
    line: Line,
) -> Line {
    line.push(command_frame(address, instruction, arguments)).advance(
        acknowledge_reach::<T>(line),
    )
}

/// A fingerprint module at a fixed address.
pub struct R503 {
    address: u32,
}

impl View for R503 {
    type V = u32;

    closed spec fn view(&self) -> u32 {
        self.address
    }
}

impl R503 {
    /// The device that answers to `addr`.
    pub fn new_with_address(addr: u32) -> (device: Self)
        ensures
            device@ == addr,
    {
        Self { address: addr }
    }

    /// The address that this device answers to.
    pub fn address(&self) -> (addr: u32)
        ensures
            addr == self@,
    {
        self.address
    }

    /// One transaction: sends the command `instruction` with the arguments
    /// `body`, then receives its acknowledge and hands back the answer.
    pub fn command<B: ToWire, T: FromWire>(
        &self,
        serial: &mut Serial,
        instruction: Commands,
        body: B,
    ) -> (r: Result<T, Error>)
        requires
            body.wire().len() < MAX_BODY,
        ensures
            r == reply::<T>(self@, old(serial)@),
            final(serial)@ == after_command::<T>(self@, instruction, body.wire(), old(serial)@),
    {
        let cmd = Command::new(self.address, instruction, body);
        cmd.to_wire(serial);
        proof {
            lemma_acknowledge_reads_only::<T>(
                old(serial)@,
                command_frame(self@, instruction, body.wire()),
            );
        }
        receive_reply(self.address, serial)
    }

    /// Captures a fingerprint image.
    pub fn get_image(&self, serial: &mut Serial) -> (r: Result<(), Error>)
        ensures
            r == reply::<()>(self@, old(serial)@),
            final(serial)@ == after_command::<()>(
                self@,
                Commands::GetImage,
                Seq::empty(),
                old(serial)@,
            ),
    {
        self.command(serial, Commands::GetImage, ())
    }

    /// Derives a feature file from the captured image into the buffer `arg`.
    pub fn generate_char(&self, serial: &mut Serial, arg: CharBufferId) -> (r: Result<(), Error>)
        ensures
            r == reply::<()>(self@, old(serial)@),
            final(serial)@ == after_command::<()>(
                self@,
                Commands::GenChar,
                arg.wire(),
                old(serial)@,
            ),
    {
        self.command(serial, Commands::GenChar, arg)
    }

    /// Compares the feature files of the first two buffers, and returns the score.
    pub fn match_templates(&self, serial: &mut Serial) -> (r: Result<u16, Error>)
        ensures
            r == reply::<u16>(self@, old(serial)@),
            final(serial)@ == after_command::<u16>(
                self@,
                Commands::Match,
                Seq::empty(),
                old(serial)@,
            ),
    {
        self.command(serial, Commands::Match, ())
    }

    /// Searches a run of the library for the feature file of a buffer.
    pub fn search(&self, serial: &mut Serial, arg: SearchRequest) -> (r: Result<SearchResult, Error>)
        ensures
            r == reply::<SearchResult>(self@, old(serial)@),
            final(serial)@ == after_command::<SearchResult>(
                self@,
                Commands::Search,
                arg.wire(),
                old(serial)@,
            ),
    {
        self.command(serial, Commands::Search, arg)
    }

    /// Merges the feature files of the buffers into a template.
    pub fn generate_template(&self, serial: &mut Serial) -> (r: Result<(), Error>)
        ensures
            r == reply::<()>(self@, old(serial)@),
            final(serial)@ == after_command::<()>(
                self@,
                Commands::RegModel,
                Seq::empty(),
                old(serial)@,
            ),
    {
        self.command(serial, Commands::RegModel, ())
    }

    /// Stores the template of a buffer in a slot of the library.
    pub fn store(&self, serial: &mut Serial, arg: LoadCharRequest) -> (r: Result<(), Error>)
        ensures
            r == reply::<()>(self@, old(serial)@),
            final(serial)@ == after_command::<()>(
                self@,
                Commands::Store,
                arg.wire(),
                old(serial)@,
            ),
    {
        self.command(serial, Commands::Store, arg)
    }

    /// Loads the template of a slot of the library into a buffer.
    pub fn load_char(&self, serial: &mut Serial, arg: LoadCharRequest) -> (r: Result<(), Error>)
        ensures
            r == reply::<()>(self@, old(serial)@),
            final(serial)@ == after_command::<()>(
                self@,
                Commands::LoadChar,
                arg.wire(),
                old(serial)@,
            ),
    {
        self.command(serial, Commands::LoadChar, arg)
    }

    /// Asks for the template of the buffer `arg`: where this succeeds, the template
    /// follows as a data stream, for `stream_image` to receive.
    pub fn upload_template(&self, serial: &mut Serial, arg: CharBufferId) -> (r: Result<(), Error>)
        ensures
            r == reply::<()>(self@, old(serial)@),
            final(serial)@ == after_command::<()>(
                self@,
                Commands::UpChar,
                arg.wire(),
                old(serial)@,
            ),
    {
        self.command(serial, Commands::UpChar, arg)
    }

    /// Asks for the captured image: where this succeeds, the image follows as a data
    /// stream, for `stream_image` to receive.
    pub fn upload_image(&self, serial: &mut Serial) -> (r: Result<(), Error>)
        ensures
            r == reply::<()>(self@, old(serial)@),
            final(serial)@ == after_command::<()>(
                self@,
                Commands::UpImage,
                Seq::empty(),
                old(serial)@,
            ),
    {
        self.command(serial, Commands::UpImage, ())
    }

    /// Deletes a run of templates from the library.
    pub fn delete_char(&self, serial: &mut Serial, arg: DeleteCharRequest) -> (r: Result<(), Error>)
        ensures
            r == reply::<()>(self@, old(serial)@),
            final(serial)@ == after_command::<()>(
                self@,
                Commands::DeleteChar,
                arg.wire(),
                old(serial)@,
            ),
    {
        self.command(serial, Commands::DeleteChar, arg)
    }

    /// Deletes every template of the library.
    pub fn empty(&self, serial: &mut Serial) -> (r: Result<(), Error>)
        ensures
            r == reply::<()>(self@, old(serial)@),
            final(serial)@ == after_command::<()>(
                self@,
                Commands::Empty,
                Seq::empty(),
                old(serial)@,
            ),
    {
        self.command(serial, Commands::Empty, ())
    }

    /// Reads the sixteen bytes of the device's status and configuration.
    pub fn read_system_parameter(&self, serial: &mut Serial) -> (r: Result<[u8; 16], Error>)
        ensures
            r == reply::<[u8; 16]>(self@, old(serial)@),
            final(serial)@ == after_command::<[u8; 16]>(
                self@,
                Commands::ReadSystemParameter,
                Seq::empty(),
                old(serial)@,
            ),
    {
        self.command(serial, Commands::ReadSystemParameter, ())
    }

    /// Sets the handshake password.
    pub fn set_password(&self, serial: &mut Serial, arg: u32) -> (r: Result<(), Error>)
        ensures
            r == reply::<()>(self@, old(serial)@),
            final(serial)@ == after_command::<()>(
                self@,
                Commands::SetPwd,
                arg.wire(),
                old(serial)@,
            ),
    {
        self.command(serial, Commands::SetPwd, arg)
    }

    /// Verifies the handshake password.
    pub fn vfy_password(&self, serial: &mut Serial, arg: u32) -> (r: Result<(), Error>)
        ensures
            r == reply::<()>(self@, old(serial)@),
            final(serial)@ == after_command::<()>(
                self@,
                Commands::VfyPwd,
                arg.wire(),
                old(serial)@,
            ),
    {
        self.command(serial, Commands::VfyPwd, arg)
    }

    /// Asks the device for a random number.
    pub fn get_random_code(&self, serial: &mut Serial) -> (r: Result<u32, Error>)
        ensures
            r == reply::<u32>(self@, old(serial)@),
            final(serial)@ == after_command::<u32>(
                self@,
                Commands::GetRandomCode,
                Seq::empty(),
                old(serial)@,
            ),
    {
        self.command(serial, Commands::GetRandomCode, ())
    }

    /// Gives the device a new address. This value keeps the old one.
    pub fn set_address(&self, serial: &mut Serial, arg: u32) -> (r: Result<(), Error>)
        ensures
            r == reply::<()>(self@, old(serial)@),
            final(serial)@ == after_command::<()>(
                self@,
                Commands::SetAdder,
                arg.wire(),
                old(serial)@,
            ),
    {
        self.command(serial, Commands::SetAdder, arg)
    }

    /// Reads one page of the occupancy table: bit `b` of byte `k` is set where slot
    /// `8 k + b` of the page holds a template.
    pub fn read_index_table(&self, serial: &mut Serial, arg: IndexTableIdx) -> (r: Result<[u8; 32], Error>)
        ensures
            r == reply::<[u8; 32]>(self@, old(serial)@),
            final(serial)@ == after_command::<[u8; 32]>(
                self@,
                Commands::ReadIndexTable,
                arg.wire(),
                old(serial)@,
            ),
    {
        self.command(serial, Commands::ReadIndexTable, arg)
    }

    /// Drives the LED ring.
    pub fn aura_control(&self, serial: &mut Serial, arg: AuraControlPayload) -> (r: Result<(), Error>)
        ensures
            r == reply::<()>(self@, old(serial)@),
            final(serial)@ == after_command::<()>(
                self@,
                Commands::AuraControl,
                arg.wire(),
                old(serial)@,
            ),
    {
        self.command(serial, Commands::AuraControl, arg)
    }

    /// Receives the opening of one frame of a data stream. Returns whether
    /// more frames follow, how long the payload is, and the checksum of what
    /// was read for it so far.
    fn stream_opening(&self, serial: &mut Serial, room: usize) -> (r: Result<
        (bool, usize, Checksum),
        Error,
    >)
        ensures
            final(serial)@ == old(serial)@.advance(opening(self@, old(serial)@, room as int).reach),
            match r {
                Ok((more, n, cksm)) => {
                    &&& opening(self@, old(serial)@, room as int).outcome == Ok::<
                        (bool, int),
                        Error,
                    >((more, n as int))
                    &&& opening(self@, old(serial)@, room as int).reach == 9
                    &&& n <= room
                    &&& 9 <= old(serial)@.incoming.len()
                    &&& cksm@ == checksum_of(old(serial)@.incoming.subrange(6, 9))
                },
                Err(e) => opening(self@, old(serial)@, room as int).outcome == Err::<
                    (bool, int),
                    Error,
                >(e),
            },
    {
        let ghost cur = serial@;
        let ghost s = cur.incoming;
        proof {
            reveal(opening);
            lemma_next_read(cur, 0, 0);
            lemma_next_read(cur, 0, 2);
        }
        let hdr = match u16::from_wire(serial, None) {
            Ok(v) => v,
            Err(e) => {
                return Err(e);
            },
        };
        if hdr != MAGIC {
            return Err(Error::IncorrectData);
        }
        proof {
            lemma_next_read(cur, 2, 4);
        }
        let address = match u32::from_wire(serial, None) {
            Ok(v) => v,
            Err(e) => {
                return Err(e);
            },
        };
        if address != self.address {
            return Err(Error::IncorrectData);
        }
        // From here on every byte counts for the checksum.

        let mut cksm = Checksum::new();
        proof {
            lemma_next_read(cur, 6, 1);
        }
        let ident = match u8::from_wire(serial, Some(&mut cksm)) {
            Ok(v) => v,
            Err(e) => {
                return Err(e);
            },
        };
        let more = match ident {
            0x02 => true,
            0x08 => false,
            _ => {
                return Err(Error::IncorrectData);
            },
        };
        proof {
            lemma_next_read(cur, 7, 2);
        }
        let len = match u16::from_wire(serial, Some(&mut cksm)) {
            Ok(v) => v,
            Err(e) => {
                return Err(e);
            },
        };
        if len < 2 {
            return Err(Error::IncorrectData);
        }
        let len_img = (len - 2) as usize;
        if room < len_img {
            return Err(Error::IncorrectData);
        }
        proof {
            lemma_fold16_concat(0, s.subrange(6, 7), s.subrange(7, 9));
            assert(s.subrange(6, 7) + s.subrange(7, 9) =~= s.subrange(6, 9));
        }
        Ok((more, len_img, cksm))
    }

    /// Receives one frame of a data stream and puts its payload into
    /// `out_buf` from `used` on. Returns whether more frames follow, and how
    /// long the payload is.
    fn stream_chunk(&self, serial: &mut Serial, out_buf: &mut [u8], used: usize) -> (r: Result<
        (bool, usize),
        Error,
    >)
        requires
            used <= old(out_buf)@.len(),
        ensures
            final(serial)@ == old(serial)@.advance(
                chunk(self@, old(serial)@, old(out_buf)@.len() - used).reach,
            ),
            r == match chunk(self@, old(serial)@, old(out_buf)@.len() - used).outcome {
                Ok(more) => Ok::<(bool, usize), Error>(
                    (
                        more,
                        chunk(self@, old(serial)@, old(out_buf)@.len() - used).payload.len() as usize,
                    ),
                ),
                Err(e) => Err(e),
            },
            final(out_buf)@.len() == old(out_buf)@.len(),
            final(out_buf)@ == old(out_buf)@.take(used as int) + chunk(
                self@,
                old(serial)@,
                old(out_buf)@.len() - used,
            ).payload + old(out_buf)@.skip(
                used + chunk(self@, old(serial)@, old(out_buf)@.len() - used).payload.len(),
            ),
    {
        let ghost cur = serial@;
        let ghost s = cur.incoming;
        let ghost before = out_buf@;
        let ttl_len = out_buf.len();
        proof {
            reveal(chunk);
            assert(before =~= before.take(used as int) + Seq::<u8>::empty() + before.skip(
                used as int,
            ));
        }
        let (more, len_img, mut cksm) = match self.stream_opening(serial, ttl_len - used) {
            Ok(opened) => opened,
            Err(e) => {
                return Err(e);
            },
        };
        proof {
            lemma_next_read(cur, 9, len_img as int);
        }
        let (done, rest) = out_buf.split_at_mut(used);
        let (now, later) = rest.split_at_mut(len_img);
        match read_covered(serial, Some(&mut cksm), now) {
            Ok(()) => {},
            Err(e) => {
                proof {
                    assert(out_buf@ =~= before);
                }
                return Err(e);
            },
        };
        let ghost payload = s.subrange(9, 9 + len_img);
        proof {
            assert(out_buf@ =~= before.take(used as int) + payload + before.skip(used + len_img));
        }

        let calc_cksm = cksm.finalize();
        proof {
            lemma_next_read(cur, 9 + len_img, 2);
            lemma_fold16_concat(0, s.subrange(6, 9), payload);
            assert(s.subrange(6, 9) + payload =~= s.subrange(6, 9 + len_img));
        }
        let rept_cksm = match u16::from_wire(serial, None) {
            Ok(v) => v,
            Err(e) => {
                return Err(e);
            },
        };
        if calc_cksm != rept_cksm {
            return Err(Error::BadChecksum);
        }
        Ok((more, len_img))
    }

    /// Receives a data stream into `out_buf`, from its first byte on: the
    /// payloads of the frames, in the order of arrival, up to and with the
    /// frame that ends the stream. Returns how many bytes were put there.
    /// What lies behind them in `out_buf` stays as it was.
    pub fn stream_image(&self, serial: &mut Serial, out_buf: &mut [u8]) -> (r: Result<
        usize,
        Error,
    >)
        ensures
            r == match streamed(self@, old(serial)@, old(out_buf)@.len() as int).outcome {
                Ok(()) => Ok::<usize, Error>(
                    streamed(self@, old(serial)@, old(out_buf)@.len() as int).data.len() as usize,
                ),
                Err(e) => Err(e),
            },
            final(serial)@ == old(serial)@.advance(
                streamed(self@, old(serial)@, old(out_buf)@.len() as int).reach,
            ),
            final(out_buf)@ == streamed(self@, old(serial)@, old(out_buf)@.len() as int).data
                + old(out_buf)@.skip(
                streamed(self@, old(serial)@, old(out_buf)@.len() as int).data.len() as int,
            ),
    {
        let ghost line0 = serial@;
        let ghost whole = streamed(self@, line0, out_buf@.len() as int);
        let ghost mut reach: int = 0;
        let ghost mut acc: Seq<u8> = Seq::empty();
        let mut more = true;
        let ttl_len = out_buf.len();
        let mut used: usize = 0;
        proof {
            assert(line0.advance(0).incoming =~= line0.incoming);
        }
        while more
            invariant
                ttl_len == out_buf@.len(),
                ttl_len == old(out_buf)@.len(),
                line0 == old(serial)@,
                used <= ttl_len,
                used == acc.len(),
                0 <= reach,
                serial@ == line0.advance(reach),
                more ==> reach <= line0.incoming.len(),
                out_buf@ == acc + old(out_buf)@.skip(used as int),
                whole == streamed(self@, line0, ttl_len as int),
                more ==> whole.outcome == streamed(self@, serial@, ttl_len - used).outcome,
                more ==> whole.data == acc + streamed(self@, serial@, ttl_len - used).data,
                more ==> whole.reach == reach + streamed(self@, serial@, ttl_len - used).reach,
                !more ==> whole.outcome == Ok::<(), Error>(()),
                !more ==> whole.data == acc,
                !more ==> whole.reach == reach,
            decreases serial@.incoming.len() + (if more { 1int } else { 0int }),
        {
            let ghost cur = serial@;
            let ghost here = chunk(self@, cur, ttl_len - used);
            let (again, n) = match self.stream_chunk(serial, out_buf, used) {
                Ok(taken) => taken,
                Err(e) => {
                    proof {
                        lemma_chunk_bounds(self@, cur, ttl_len - used);
                        lemma_advance_twice(line0, reach, here.reach);
                    }
                    return Err(e);
                },
            };
            proof {
                lemma_chunk_taken(self@, cur, ttl_len - used);
                lemma_advance_twice(line0, reach, here.reach);
                reach = reach + here.reach;
                acc = acc + here.payload;
            }
            used = used + n;
            more = again;
        }
        Ok(used)
    }
}

} // verus!
