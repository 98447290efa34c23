use vstd::prelude::*;
use crate::checksum::Checksum;
use crate::constants::{AutoEnrollStep, AutoIdentCount, AutoIdentifyStep, Commands, IdentifySafety};
use crate::error::Error;
use crate::frame::{
    acknowledge_reach, command_frame, lemma_acknowledged_consumes, receive_reply, reply, Command,
};
use crate::serial::{Line, Serial};
use crate::wire_traits::{read_covered, u16_of, FromWire, ToWire};

verus! {

/// The byte that stands for a flag on the wire.
pub open spec fn flag(b: bool) -> u8 {
    if b {
        1
    } else {
        0
    }
}

/// The byte that stands for a flag on the wire.
fn flag_byte(b: bool) -> (byte: u8)
    ensures
        byte == flag(b),
{
    if b {
        1
    } else {
        0
    }
}

/// A result without its value.
pub open spec fn unit<T>(r: Result<T, Error>) -> Result<(), Error> {
    match r {
        Ok(_) => Ok(()),
        Err(e) => Err(e),
    }
}

/// The slot number that asks the device to choose the slot itself.
pub const AUTOMATIC_LOCATION: u8 = 0xC8;

/// Where an automatic enrollment stores the template: a slot below
/// `AUTOMATIC_LOCATION`, or that number itself for a slot of the device's
/// choice.
#[derive(Clone, Copy, Debug, PartialEq, Eq)]
pub struct AutoEnrollLocation {
    val: u8,
}

impl View for AutoEnrollLocation {
    type V = u8;

    closed spec fn view(&self) -> u8 {
        if self.val <= AUTOMATIC_LOCATION {
            self.val
        } else {
            AUTOMATIC_LOCATION
        }
    }
}

impl AutoEnrollLocation {
    /// A location is a slot below `AUTOMATIC_LOCATION`, or that number.
    #[verifier::type_invariant]
    spec fn in_range(self) -> bool {
        self.val <= AUTOMATIC_LOCATION
    }

    /// No location lies beyond `AUTOMATIC_LOCATION`.
    pub proof fn lemma_in_range(self)
        ensures
            self@ <= AUTOMATIC_LOCATION,
    {
    }

    /// The number that stands for this location on the wire.
    pub fn value(&self) -> (val: u8)
        ensures
            val == self@,
            val <= AUTOMATIC_LOCATION,
    {
        proof {
            use_type_invariant(self);
        }
        self.val
    }

    /// The slot `loc`, where there is such a slot.
    pub fn specific(loc: u8) -> (location: Option<Self>)
        ensures
            location is Some <==> loc < AUTOMATIC_LOCATION,
            location matches Some(l) ==> l@ == loc,
    {
        if loc < AUTOMATIC_LOCATION {
            Some(Self { val: loc })
        } else {
            None
        }
    }

    /// A slot of the device's choice.
    pub fn automatic() -> (location: Self)
        ensures
            location@ == AUTOMATIC_LOCATION,
    {
        Self { val: AUTOMATIC_LOCATION }
    }
}

/// How an automatic enrollment is to run.
#[derive(Clone, Copy, Debug, PartialEq, Eq)]
pub struct AutoEnrollConfig {
    /// Where the template is stored.
    pub location: AutoEnrollLocation,
    /// Whether a template already in that slot may be overwritten.
    pub cover_id: bool,
    /// Whether a finger that is enrolled already may be enrolled again.
    pub allow_dupes: bool,
    /// Whether the device acknowledges each step.
    pub return_status: bool,
    /// Whether the finger has to leave the sensor between two captures.
    pub require_release: bool,
}

impl Default for AutoEnrollConfig {
    fn default() -> (cfg: Self)
        ensures
            cfg.location@ == AUTOMATIC_LOCATION,
            !cfg.cover_id,
            !cfg.allow_dupes,
            cfg.return_status,
            cfg.require_release,
    {
        Self {
            location: AutoEnrollLocation::automatic(),
            cover_id: false,
            allow_dupes: false,
            return_status: true,
            require_release: true,
        }
    }
}

impl ToWire for AutoEnrollConfig {
    open spec fn wire(&self) -> Seq<u8> {
        seq![
            self.location@,
            flag(self.cover_id),
            flag(self.allow_dupes),
            flag(self.return_status),
            flag(self.require_release),
        ]
    }

    fn size_on_wire(&self) -> (n: usize) {
        5
    }

    fn to_wire(&self, serial: &mut Serial, cksm: Option<&mut Checksum>) {
        let data = [
            self.location.value(),
            flag_byte(self.cover_id),
            flag_byte(self.allow_dupes),
            flag_byte(self.return_status),
            flag_byte(self.require_release),
        ];
        data.as_slice().to_wire(serial, cksm)
    }
}

/// The answer part of an acknowledge of an automatic enrollment: the step it
/// reports, a byte of unknown meaning that is read and dropped, and a slot.
#[derive(Clone, Copy, Debug, PartialEq, Eq, Structural)]
pub struct AutoEnrollResponse {
    pub step: AutoEnrollStep,
    pub model_id: u8,
}

impl FromWire for AutoEnrollResponse {
    open spec fn wire_len() -> nat {
        3
    }

    open spec fn decode(bytes: Seq<u8>) -> Option<Self> {
        match AutoEnrollStep::of_byte(bytes[0]) {
            Some(step) => Some(AutoEnrollResponse { step, model_id: bytes[2] }),
            None => None,
        }
    }

    fn from_wire(serial: &mut Serial, cksm: Option<&mut Checksum>) -> (r: Result<Self, Error>) {
        let mut bytes = [0u8; 3];
        match read_covered(serial, cksm, &mut bytes) {
            Ok(()) => {},
            Err(e) => {
                return Err(e);
            },
        };
        // The byte in the middle is part of the frame and means nothing here.
        let step = match AutoEnrollStep::from_byte(bytes[0]) {
            Some(step) => step,
            None => {
                return Err(Error::IncorrectData);
            },
        };
        Ok(Self { step, model_id: bytes[2] })
    }
}

impl AutoEnrollStep {
    /// The step that follows this one, if any.
    pub open spec fn following(self) -> Option<AutoEnrollStep> {
        AutoEnrollStep::of_byte((self.byte() + 1) as u8)
    }

    /// The step that follows this one, if any.
    pub fn next(self) -> (step: Option<AutoEnrollStep>)
        ensures
            step == self.following(),
    {
        AutoEnrollStep::from_byte(self.to_byte() + 1)
    }
}

/// Where an automatic enrollment stands.
#[derive(Clone, Copy, Debug, PartialEq, Eq, Structural)]
pub enum EnrollState {
    /// Nothing was started.
    Idle,
    /// The acknowledge of this step is the next one due.
    Awaiting(AutoEnrollStep),
    /// The template was stored in this slot.
    Stored(u8),
    /// A step failed with this error.
    Failed(Error),
}

impl EnrollState {
    /// Whether the enrollment has come to its end, well or badly.
    pub open spec fn ended(self) -> bool {
        self is Stored || self is Failed
    }
}

/// An automatic enrollment as plain values.
pub struct Enrollment {
    pub address: u32,
    pub state: EnrollState,
}

/// What one wait of an automatic enrollment comes to.
pub struct EnrollWaited {
    /// The slot that the acknowledge names, or why the wait failed.
    pub result: Result<u8, Error>,
    /// The enrollment after the wait.
    pub driver: Enrollment,
    /// The transport after the wait.
    pub line: Line,
}

/// Waiting for the acknowledge of `step`.
///
/// An enrollment that has ended takes no more waits: the wait is refused with
/// `IncorrectData`, nothing is read, and the enrollment stays as it is. Else
/// one acknowledge is received and judged, whatever step is due, and then its
/// step is held against `step`: an acknowledge of another step is
/// `IncorrectData`. A wait that succeeds moves on to the step that follows
/// `step`, or to `Stored` after the last. A wait that fails leaves the
/// enrollment `Failed`, but for a fault of the transport, which leaves it as
/// it was.
pub open spec fn enroll_wait(driver: Enrollment, step: AutoEnrollStep, line: Line) -> EnrollWaited {
    if driver.state.ended() {
        EnrollWaited { result: Err(Error::IncorrectData), driver, line }
    } else {
        let after = line.advance(acknowledge_reach::<AutoEnrollResponse>(line));
        match reply::<AutoEnrollResponse>(driver.address, line) {
            Err(Error::Wire(fault)) => EnrollWaited {
                result: Err(Error::Wire(fault)),
                driver,
                line: after,
            },
            Err(e) => EnrollWaited {
                result: Err(e),
                driver: Enrollment { address: driver.address, state: EnrollState::Failed(e) },
                line: after,
            },
            Ok(resp) => if resp.step != step {
                EnrollWaited {
                    result: Err(Error::IncorrectData),
                    driver: Enrollment {
                        address: driver.address,
                        state: EnrollState::Failed(Error::IncorrectData),
                    },
                    line: after,
                }
            } else {
                EnrollWaited {
                    result: Ok(resp.model_id),
                    driver: Enrollment {
                        address: driver.address,
                        state: match step.following() {
                            Some(next) => EnrollState::Awaiting(next),
                            None => EnrollState::Stored(resp.model_id),
                        },
                    },
                    line: after,
                }
            },
        }
    }
}

/// Waiting for the acknowledges of `step` and of every step after it, in
/// order, up to the first wait that fails.
pub open spec fn enroll_from(driver: Enrollment, step: AutoEnrollStep, line: Line) -> EnrollWaited
    decreases 0x10 - step.byte(),
{
    let first = enroll_wait(driver, step, line);
    match (first.result, step.following()) {
        (Ok(_), Some(next)) => enroll_from(first.driver, next, first.line),
        _ => first,
    }
}

/// An enrollment on the device at `address` that was just started.
pub open spec fn enroll_started(address: u32) -> Enrollment {
    Enrollment { address, state: EnrollState::Awaiting(AutoEnrollStep::CollectImage1) }
}

/// An automatic enrollment: six captures, merged and stored by the device,
/// which acknowledges each of the fifteen steps in order. Each wait takes one
/// acknowledge and holds its step against the wait's own; the first wait that
/// fails ends the enrollment, and so does the last that succeeds.
pub struct AutoEnroll {
    address: u32,
    state: EnrollState,
}

impl View for AutoEnroll {
    type V = Enrollment;

    closed spec fn view(&self) -> Enrollment {
        Enrollment { address: self.address, state: self.state }
    }
}

impl AutoEnroll {
    /// An enrollment on the device at `address`, not started yet.
    pub fn new(address: u32) -> (enroll: Self)
        ensures
            enroll@ == (Enrollment { address, state: EnrollState::Idle }),
    {
        Self { address, state: EnrollState::Idle }
    }

    /// Where the enrollment stands.
    pub fn state(&self) -> (state: EnrollState)
        ensures
            state == self@.state,
    {
        self.state
    }

    /// Starts an enrollment, waits for every step in order, and returns the
    /// slot in which the template was stored.
    pub fn oneshot(self, serial: &mut Serial, cfg: AutoEnrollConfig) -> (r: Result<u8, Error>)
        ensures
            r == enroll_from(
                enroll_started(self@.address),
                AutoEnrollStep::CollectImage1,
                old(serial)@.push(command_frame(
                    self@.address,
                    Commands::AutomaticRegistrationTemplate,
                    cfg.wire(),
                )),
            ).result,
            final(serial)@ == enroll_from(
                enroll_started(self@.address),
                AutoEnrollStep::CollectImage1,
                old(serial)@.push(command_frame(
                    self@.address,
                    Commands::AutomaticRegistrationTemplate,
                    cfg.wire(),
                )),
            ).line,
    {
        let mut enroll = self;
        enroll.start(serial, cfg);
        let mut step = AutoEnrollStep::CollectImage1;
        loop
            invariant
                enroll_from(
                    enroll_started(self@.address),
                    AutoEnrollStep::CollectImage1,
                    old(serial)@.push(command_frame(
                    self@.address,
                    Commands::AutomaticRegistrationTemplate,
                    cfg.wire(),
                )),
                ) == enroll_from(enroll@, step, serial@),
            decreases 0x10 - step.byte(),
        {
            let slot = enroll.wait_step(serial, step)?;
            match step.next() {
                Some(next) => {
                    step = next;
                },
                None => {
                    return Ok(slot);
                },
            }
        }
    }

    /// Sends the command that starts an enrollment. Whatever stood before,
    /// the first step is due now.
    pub fn start(&mut self, serial: &mut Serial, cfg: AutoEnrollConfig)
        ensures
            final(self)@ == enroll_started(old(self)@.address),
            final(serial)@ == old(serial)@.push(command_frame(
                    old(self)@.address,
                    Commands::AutomaticRegistrationTemplate,
                    cfg.wire(),
                )),
    {
        let command = Command::new(self.address, Commands::AutomaticRegistrationTemplate, cfg);
        command.to_wire(serial);
        self.state = EnrollState::Awaiting(AutoEnrollStep::CollectImage1);
    }

    /// Waits for the acknowledge that the first image was collected.
    pub fn wait_collect_image1(&mut self, serial: &mut Serial) -> (r: Result<(), Error>)
        ensures
            r == unit(enroll_wait(old(self)@, AutoEnrollStep::CollectImage1, old(serial)@).result),
            final(self)@ == enroll_wait(old(self)@, AutoEnrollStep::CollectImage1, old(serial)@).driver,
            final(serial)@ == enroll_wait(old(self)@, AutoEnrollStep::CollectImage1, old(serial)@).line,
    {
        match self.wait_step(serial, AutoEnrollStep::CollectImage1) {
            Ok(_) => Ok(()),
            Err(e) => Err(e),
        }
    }

    /// Waits for the acknowledge that the first feature file was derived.
    pub fn wait_generate_feature1(&mut self, serial: &mut Serial) -> (r: Result<(), Error>)
        ensures
            r == unit(enroll_wait(old(self)@, AutoEnrollStep::GenerateFeature1, old(serial)@).result),
            final(self)@ == enroll_wait(old(self)@, AutoEnrollStep::GenerateFeature1, old(serial)@).driver,
            final(serial)@ == enroll_wait(old(self)@, AutoEnrollStep::GenerateFeature1, old(serial)@).line,
    {
        match self.wait_step(serial, AutoEnrollStep::GenerateFeature1) {
            Ok(_) => Ok(()),
            Err(e) => Err(e),
        }
    }

    /// Waits for the acknowledge that the second image was collected.
    pub fn wait_collect_image2(&mut self, serial: &mut Serial) -> (r: Result<(), Error>)
        ensures
            r == unit(enroll_wait(old(self)@, AutoEnrollStep::CollectImage2, old(serial)@).result),
            final(self)@ == enroll_wait(old(self)@, AutoEnrollStep::CollectImage2, old(serial)@).driver,
            final(serial)@ == enroll_wait(old(self)@, AutoEnrollStep::CollectImage2, old(serial)@).line,
    {
        match self.wait_step(serial, AutoEnrollStep::CollectImage2) {
            Ok(_) => Ok(()),
            Err(e) => Err(e),
        }
    }

    /// Waits for the acknowledge that the second feature file was derived.
    pub fn wait_generate_feature2(&mut self, serial: &mut Serial) -> (r: Result<(), Error>)
        ensures
            r == unit(enroll_wait(old(self)@, AutoEnrollStep::GenerateFeature2, old(serial)@).result),
            final(self)@ == enroll_wait(old(self)@, AutoEnrollStep::GenerateFeature2, old(serial)@).driver,
            final(serial)@ == enroll_wait(old(self)@, AutoEnrollStep::GenerateFeature2, old(serial)@).line,
    {
        match self.wait_step(serial, AutoEnrollStep::GenerateFeature2) {
            Ok(_) => Ok(()),
            Err(e) => Err(e),
        }
    }

    /// Waits for the acknowledge that the third image was collected.
    pub fn wait_collect_image3(&mut self, serial: &mut Serial) -> (r: Result<(), Error>)
        ensures
            r == unit(enroll_wait(old(self)@, AutoEnrollStep::CollectImage3, old(serial)@).result),
            final(self)@ == enroll_wait(old(self)@, AutoEnrollStep::CollectImage3, old(serial)@).driver,
            final(serial)@ == enroll_wait(old(self)@, AutoEnrollStep::CollectImage3, old(serial)@).line,
    {
        match self.wait_step(serial, AutoEnrollStep::CollectImage3) {
            Ok(_) => Ok(()),
            Err(e) => Err(e),
        }
    }

    /// Waits for the acknowledge that the third feature file was derived.
    pub fn wait_generate_feature3(&mut self, serial: &mut Serial) -> (r: Result<(), Error>)
        ensures
            r == unit(enroll_wait(old(self)@, AutoEnrollStep::GenerateFeature3, old(serial)@).result),
            final(self)@ == enroll_wait(old(self)@, AutoEnrollStep::GenerateFeature3, old(serial)@).driver,
            final(serial)@ == enroll_wait(old(self)@, AutoEnrollStep::GenerateFeature3, old(serial)@).line,
    {
        match self.wait_step(serial, AutoEnrollStep::GenerateFeature3) {
            Ok(_) => Ok(()),
            Err(e) => Err(e),
        }
    }

    /// Waits for the acknowledge that the fourth image was collected.
    pub fn wait_collect_image4(&mut self, serial: &mut Serial) -> (r: Result<(), Error>)
        ensures
            r == unit(enroll_wait(old(self)@, AutoEnrollStep::CollectImage4, old(serial)@).result),
            final(self)@ == enroll_wait(old(self)@, AutoEnrollStep::CollectImage4, old(serial)@).driver,
            final(serial)@ == enroll_wait(old(self)@, AutoEnrollStep::CollectImage4, old(serial)@).line,
    {
        match self.wait_step(serial, AutoEnrollStep::CollectImage4) {
            Ok(_) => Ok(()),
            Err(e) => Err(e),
        }
    }

    /// Waits for the acknowledge that the fourth feature file was derived.
    pub fn wait_generate_feature4(&mut self, serial: &mut Serial) -> (r: Result<(), Error>)
        ensures
            r == unit(enroll_wait(old(self)@, AutoEnrollStep::GenerateFeature4, old(serial)@).result),
            final(self)@ == enroll_wait(old(self)@, AutoEnrollStep::GenerateFeature4, old(serial)@).driver,
            final(serial)@ == enroll_wait(old(self)@, AutoEnrollStep::GenerateFeature4, old(serial)@).line,
    {
        match self.wait_step(serial, AutoEnrollStep::GenerateFeature4) {
            Ok(_) => Ok(()),
            Err(e) => Err(e),
        }
    }

    /// Waits for the acknowledge that the fifth image was collected.
    pub fn wait_collect_image5(&mut self, serial: &mut Serial) -> (r: Result<(), Error>)
        ensures
            r == unit(enroll_wait(old(self)@, AutoEnrollStep::CollectImage5, old(serial)@).result),
            final(self)@ == enroll_wait(old(self)@, AutoEnrollStep::CollectImage5, old(serial)@).driver,
            final(serial)@ == enroll_wait(old(self)@, AutoEnrollStep::CollectImage5, old(serial)@).line,
    {
        match self.wait_step(serial, AutoEnrollStep::CollectImage5) {
            Ok(_) => Ok(()),
            Err(e) => Err(e),
        }
    }

    /// Waits for the acknowledge that the fifth feature file was derived.
    pub fn wait_generate_feature5(&mut self, serial: &mut Serial) -> (r: Result<(), Error>)
        ensures
            r == unit(enroll_wait(old(self)@, AutoEnrollStep::GenerateFeature5, old(serial)@).result),
            final(self)@ == enroll_wait(old(self)@, AutoEnrollStep::GenerateFeature5, old(serial)@).driver,
            final(serial)@ == enroll_wait(old(self)@, AutoEnrollStep::GenerateFeature5, old(serial)@).line,
    {
        match self.wait_step(serial, AutoEnrollStep::GenerateFeature5) {
            Ok(_) => Ok(()),
            Err(e) => Err(e),
        }
    }

    /// Waits for the acknowledge that the sixth image was collected.
    pub fn wait_collect_image6(&mut self, serial: &mut Serial) -> (r: Result<(), Error>)
        ensures
            r == unit(enroll_wait(old(self)@, AutoEnrollStep::CollectImage6, old(serial)@).result),
            final(self)@ == enroll_wait(old(self)@, AutoEnrollStep::CollectImage6, old(serial)@).driver,
            final(serial)@ == enroll_wait(old(self)@, AutoEnrollStep::CollectImage6, old(serial)@).line,
    {
        match self.wait_step(serial, AutoEnrollStep::CollectImage6) {
            Ok(_) => Ok(()),
            Err(e) => Err(e),
        }
    }

    /// Waits for the acknowledge that the sixth feature file was derived.
    pub fn wait_generate_feature6(&mut self, serial: &mut Serial) -> (r: Result<(), Error>)
        ensures
            r == unit(enroll_wait(old(self)@, AutoEnrollStep::GenerateFeature6, old(serial)@).result),
            final(self)@ == enroll_wait(old(self)@, AutoEnrollStep::GenerateFeature6, old(serial)@).driver,
            final(serial)@ == enroll_wait(old(self)@, AutoEnrollStep::GenerateFeature6, old(serial)@).line,
    {
        match self.wait_step(serial, AutoEnrollStep::GenerateFeature6) {
            Ok(_) => Ok(()),
            Err(e) => Err(e),
        }
    }

    /// Waits for the acknowledge that the library was checked for the same finger.
    pub fn wait_repeatfingerprint(&mut self, serial: &mut Serial) -> (r: Result<(), Error>)
        ensures
            r == unit(enroll_wait(old(self)@, AutoEnrollStep::Repeatfingerprint, old(serial)@).result),
            final(self)@ == enroll_wait(old(self)@, AutoEnrollStep::Repeatfingerprint, old(serial)@).driver,
            final(serial)@ == enroll_wait(old(self)@, AutoEnrollStep::Repeatfingerprint, old(serial)@).line,
    {
        match self.wait_step(serial, AutoEnrollStep::Repeatfingerprint) {
            Ok(_) => Ok(()),
            Err(e) => Err(e),
        }
    }

    /// Waits for the acknowledge that the feature files were merged.
    pub fn wait_merge_feature(&mut self, serial: &mut Serial) -> (r: Result<(), Error>)
        ensures
            r == unit(enroll_wait(old(self)@, AutoEnrollStep::MergeFeature, old(serial)@).result),
            final(self)@ == enroll_wait(old(self)@, AutoEnrollStep::MergeFeature, old(serial)@).driver,
            final(serial)@ == enroll_wait(old(self)@, AutoEnrollStep::MergeFeature, old(serial)@).line,
    {
        match self.wait_step(serial, AutoEnrollStep::MergeFeature) {
            Ok(_) => Ok(()),
            Err(e) => Err(e),
        }
    }
    /// Waits for the acknowledge that the template was stored, and returns
    /// the slot.
    pub fn wait_storage_template(&mut self, serial: &mut Serial) -> (r: Result<u8, Error>)
        ensures
            r == enroll_wait(old(self)@, AutoEnrollStep::StorageTemplate, old(serial)@).result,
            final(self)@ == enroll_wait(
                old(self)@,
                AutoEnrollStep::StorageTemplate,
                old(serial)@,
            ).driver,
            final(serial)@ == enroll_wait(
                old(self)@,
                AutoEnrollStep::StorageTemplate,
                old(serial)@,
            ).line,
    {
        self.wait_step(serial, AutoEnrollStep::StorageTemplate)
    }

    /// Waits for the acknowledge of `step`, and returns the slot that it
    /// names.
    pub fn wait_step(&mut self, serial: &mut Serial, step: AutoEnrollStep) -> (r: Result<u8, Error>)
        ensures
            r == enroll_wait(old(self)@, step, old(serial)@).result,
            final(self)@ == enroll_wait(old(self)@, step, old(serial)@).driver,
            final(serial)@ == enroll_wait(old(self)@, step, old(serial)@).line,
    {
        match self.state {
            EnrollState::Stored(_) | EnrollState::Failed(_) => {
                return Err(Error::IncorrectData);
            },
            _ => {},
        }
        let resp = match receive_reply::<AutoEnrollResponse>(self.address, serial) {
            Ok(resp) => resp,
            Err(Error::Wire(fault)) => {
                return Err(Error::Wire(fault));
            },
            Err(e) => {
                self.state = EnrollState::Failed(e);
                return Err(e);
            },
        };
        if resp.step != step {
            self.state = EnrollState::Failed(Error::IncorrectData);
            return Err(Error::IncorrectData);
        }
        self.state = match step.next() {
            Some(next) => EnrollState::Awaiting(next),
            None => EnrollState::Stored(resp.model_id),
        };
        Ok(resp.model_id)
    }
}

/// How an automatic identification is to run.
#[derive(Clone, Copy, Debug, PartialEq, Eq, Structural)]
pub struct AutoIdentifyConfig {
    /// How strict a match must be.
    pub grade: IdentifySafety,
    /// The slot at which the search starts.
    pub start_pos: u8,
    /// How many slots the search covers, or the slot at which it ends.
    pub steps_or_end: u8,
    /// Whether the device acknowledges each step.
    pub return_status: bool,
    /// How often the identification may fail before it is given up.
    pub err_count: AutoIdentCount,
}

impl Default for AutoIdentifyConfig {
    fn default() -> (cfg: Self)
        ensures
            cfg == (AutoIdentifyConfig {
                grade: IdentifySafety::Three,
                start_pos: 0,
                steps_or_end: 199,
                return_status: true,
                err_count: AutoIdentCount::TimesWithTimeout(0xFF),
            }),
    {
        Self {
            grade: IdentifySafety::Three,
            start_pos: 0,
            steps_or_end: 199,
            return_status: true,
            err_count: AutoIdentCount::TimesWithTimeout(0xFF),
        }
    }
}

impl ToWire for AutoIdentifyConfig {
    open spec fn wire(&self) -> Seq<u8> {
        seq![
            self.grade.byte(),
            self.start_pos,
            self.steps_or_end,
            flag(self.return_status),
            self.err_count.byte(),
        ]
    }

    fn size_on_wire(&self) -> (n: usize) {
        5
    }

    fn to_wire(&self, serial: &mut Serial, cksm: Option<&mut Checksum>) {
        let data = [
            self.grade.to_byte(),
            self.start_pos,
            self.steps_or_end,
            flag_byte(self.return_status),
            self.err_count.to_byte(),
        ];
        data.as_slice().to_wire(serial, cksm)
    }
}

/// The answer part of an acknowledge of an automatic identification: the step
/// it reports, a byte of unknown meaning that is read and dropped, the slot
/// of the match, and its score.
#[derive(Clone, Copy, Debug, PartialEq, Eq, Structural)]
pub struct AutoIdentifyResponse {
    pub step: AutoIdentifyStep,
    pub model_id: u8,
    pub score: u16,
}

impl FromWire for AutoIdentifyResponse {
    open spec fn wire_len() -> nat {
        5
    }

    open spec fn decode(bytes: Seq<u8>) -> Option<Self> {
        match AutoIdentifyStep::of_byte(bytes[0]) {
            Some(step) => Some(
                AutoIdentifyResponse {
                    step,
                    model_id: bytes[2],
                    score: u16_of(bytes[3], bytes[4]),
                },
            ),
            None => None,
        }
    }

    fn from_wire(serial: &mut Serial, cksm: Option<&mut Checksum>) -> (r: Result<Self, Error>) {
        let mut bytes = [0u8; 5];
        match read_covered(serial, cksm, &mut bytes) {
            Ok(()) => {},
            Err(e) => {
                return Err(e);
            },
        };
        // The byte in the middle is part of the frame and means nothing here.
        let step = match AutoIdentifyStep::from_byte(bytes[0]) {
            Some(step) => step,
            None => {
                return Err(Error::IncorrectData);
            },
        };
        let score = bytes[3] as u16 * 0x100 + bytes[4] as u16;
        Ok(Self { step, model_id: bytes[2], score })
    }
}

impl AutoIdentifyStep {
    /// The step that follows this one within a cycle, if any.
    pub open spec fn following(self) -> Option<AutoIdentifyStep> {
        match self {
            AutoIdentifyStep::CollectImage => Some(AutoIdentifyStep::GenerateFeature),
            AutoIdentifyStep::GenerateFeature => Some(AutoIdentifyStep::Search),
            AutoIdentifyStep::Search => None,
        }
    }

    /// The step that follows this one within a cycle, if any.
    pub fn next(self) -> (step: Option<AutoIdentifyStep>)
        ensures
            step == self.following(),
    {
        match self {
            AutoIdentifyStep::CollectImage => Some(AutoIdentifyStep::GenerateFeature),
            AutoIdentifyStep::GenerateFeature => Some(AutoIdentifyStep::Search),
            AutoIdentifyStep::Search => None,
        }
    }
}

/// Where an automatic identification stands.
#[derive(Clone, Copy, Debug, PartialEq, Eq, Structural)]
pub enum IdentifyState {
    /// Nothing was started.
    Idle,
    /// The acknowledge of this step is the next one due, and this many
    /// failures may still be spent.
    Awaiting(AutoIdentifyStep, AutoIdentCount),
    /// The search found this match.
    Success(AutoIdentifyResponse),
    /// The device reported a failure and none was left to spend.
    Exhausted,
    /// A wait failed with this error.
    Failed(Error),
}

impl IdentifyState {
    /// Whether the identification has come to its end, well or badly.
    pub open spec fn ended(self) -> bool {
        self is Success || self is Exhausted || self is Failed
    }

    /// The step whose acknowledge is the next one due, if any: the first
    /// step, where nothing was started.
    pub open spec fn due(self) -> Option<AutoIdentifyStep> {
        match self {
            IdentifyState::Idle => Some(AutoIdentifyStep::CollectImage),
            IdentifyState::Awaiting(step, _) => Some(step),
            _ => None,
        }
    }

    /// How many failures may still be spent: those that the configuration
    /// left, without end where nothing was started.
    pub open spec fn left(self) -> AutoIdentCount {
        match self {
            IdentifyState::Awaiting(_, left) => left,
            _ => AutoIdentCount::Infinite,
        }
    }
}

/// An automatic identification as plain values.
pub struct Identification {
    pub address: u32,
    pub state: IdentifyState,
}

/// What one wait of an automatic identification comes to.
pub struct IdentifyWaited {
    /// The answer of the acknowledge, or why the wait failed.
    pub result: Result<AutoIdentifyResponse, Error>,
    /// The identification after the wait.
    pub driver: Identification,
    /// The transport after the wait.
    pub line: Line,
}

/// The state after the device reported a failure while `left` failures could
/// still be spent: the next cycle begins, or the identification is exhausted.
pub open spec fn after_failure(left: AutoIdentCount) -> IdentifyState {
    match left.spent() {
        Some(rest) => IdentifyState::Awaiting(AutoIdentifyStep::CollectImage, rest),
        None => IdentifyState::Exhausted,
    }
}

/// Waiting for the acknowledge of `step`.
///
/// An identification that has ended takes no more waits: the wait is refused
/// with `IncorrectData`, nothing is read, and the identification stays as it
/// is. Else one acknowledge is received and judged, whatever step is due, and
/// then its step is held against `step`: an acknowledge of another step is
/// `IncorrectData`. A wait that succeeds moves on to the step that follows
/// `step`, or to `Success` after the search. A failure that the device
/// reports is handed back and spends one failure: the next cycle begins, or
/// the identification is `Exhausted`. Any other failure leaves it `Failed`,
/// but for a fault of the transport, which leaves it as it was.
pub open spec fn identify_wait(driver: Identification, step: AutoIdentifyStep, line: Line) -> IdentifyWaited {
    if driver.state.ended() {
        IdentifyWaited { result: Err(Error::IncorrectData), driver, line }
    } else {
        let left = driver.state.left();
        let after = line.advance(acknowledge_reach::<AutoIdentifyResponse>(line));
        match reply::<AutoIdentifyResponse>(driver.address, line) {
            Err(Error::Wire(fault)) => IdentifyWaited {
                result: Err(Error::Wire(fault)),
                driver,
                line: after,
            },
            Err(Error::BadConfirmation(code)) => IdentifyWaited {
                result: Err(Error::BadConfirmation(code)),
                driver: Identification { address: driver.address, state: after_failure(left) },
                line: after,
            },
            Err(e) => IdentifyWaited {
                result: Err(e),
                driver: Identification { address: driver.address, state: IdentifyState::Failed(e) },
                line: after,
            },
            Ok(resp) => if resp.step != step {
                IdentifyWaited {
                    result: Err(Error::IncorrectData),
                    driver: Identification {
                        address: driver.address,
                        state: IdentifyState::Failed(Error::IncorrectData),
                    },
                    line: after,
                }
            } else {
                IdentifyWaited {
                    result: Ok(resp),
                    driver: Identification {
                        address: driver.address,
                        state: match step.following() {
                            Some(next) => IdentifyState::Awaiting(next, left),
                            None => IdentifyState::Success(resp),
                        },
                    },
                    line: after,
                }
            },
        }
    }
}

/// Waiting for whatever step is due, again and again, until the search
/// succeeds, no failure is left to spend, or a wait fails otherwise: what the
/// last of these waits came to. An identification that has ended is refused
/// with `IncorrectData`.
pub open spec fn identify_from(driver: Identification, line: Line) -> IdentifyWaited
    decreases line.incoming.len(),
    via identify_ends
{
    match driver.state.due() {
        Some(due) => {
            let first = identify_wait(driver, due, line);
            if first.driver.state is Awaiting && !(first.result matches Err(Error::Wire(_))) {
                identify_from(first.driver, first.line)
            } else {
                first
            }
        },
        None => IdentifyWaited { result: Err(Error::IncorrectData), driver, line },
    }
}

#[via_fn]
proof fn identify_ends(driver: Identification, line: Line) {
    lemma_acknowledged_consumes::<AutoIdentifyResponse>(line);
}

/// An identification on the device at `address` that was just started with
/// `left` failures to spend.
pub open spec fn identify_started(address: u32, left: AutoIdentCount) -> Identification {
    Identification {
        address,
        state: IdentifyState::Awaiting(AutoIdentifyStep::CollectImage, left),
    }
}

/// An automatic identification: the device captures an image, derives its
/// feature file and searches the library, and acknowledges each step; after a
/// failure it begins again, as often as the configuration allows. Each wait
/// takes one acknowledge and holds its step against the wait's own.
pub struct AutoIdentify {
    address: u32,
    state: IdentifyState,
}

impl View for AutoIdentify {
    type V = Identification;

    closed spec fn view(&self) -> Identification {
        Identification { address: self.address, state: self.state }
    }
}

impl AutoIdentify {
    /// An identification on the device at `address`, not started yet.
    pub fn new(address: u32) -> (identify: Self)
        ensures
            identify@ == (Identification { address, state: IdentifyState::Idle }),
    {
        Self { address, state: IdentifyState::Idle }
    }

    /// Where the identification stands.
    pub fn state(&self) -> (state: IdentifyState)
        ensures
            state == self@.state,
    {
        self.state
    }

    /// Starts an identification and waits, cycle after cycle, until the
    /// search succeeds, no failure is left to spend, or a wait fails
    /// otherwise. Returns the match, or the error of the last wait.
    pub fn oneshot(self, serial: &mut Serial, cfg: AutoIdentifyConfig) -> (r: Result<
        AutoIdentifyResponse,
        Error,
    >)
        ensures
            r == identify_from(
                identify_started(self@.address, cfg.err_count),
                old(serial)@.push(
                    command_frame(
                        self@.address,
                        Commands::AutomaticFingerprintVerification,
                        cfg.wire(),
                    ),
                ),
            ).result,
            final(serial)@ == identify_from(
                identify_started(self@.address, cfg.err_count),
                old(serial)@.push(
                    command_frame(
                        self@.address,
                        Commands::AutomaticFingerprintVerification,
                        cfg.wire(),
                    ),
                ),
            ).line,
    {
        let mut identify = self;
        identify.start(serial, cfg);
        let mut due = AutoIdentifyStep::CollectImage;
        loop
            invariant
                identify@.state is Awaiting,
                identify@.state->Awaiting_0 == due,
                identify_from(
                    identify_started(self@.address, cfg.err_count),
                    old(serial)@.push(
                        command_frame(
                            self@.address,
                            Commands::AutomaticFingerprintVerification,
                            cfg.wire(),
                        ),
                    ),
                ) == identify_from(identify@, serial@),
            decreases serial@.incoming.len(),
        {
            let ghost before = serial@;
            let result = identify.wait_step(serial, due);
            match identify.state {
                IdentifyState::Awaiting(next, _) => {
                    if let Err(Error::Wire(fault)) = result {
                        return Err(Error::Wire(fault));
                    }
                    proof {
                        lemma_acknowledged_consumes::<AutoIdentifyResponse>(before);
                    }
                    due = next;
                },
                _ => {
                    return result;
                },
            }
        }
    }

    /// Sends the command that starts an identification. Whatever stood
    /// before, the first step of the first cycle is due now.
    pub fn start(&mut self, serial: &mut Serial, cfg: AutoIdentifyConfig)
        ensures
            final(self)@ == identify_started(old(self)@.address, cfg.err_count),
            final(serial)@ == old(serial)@.push(
                command_frame(
                    old(self)@.address,
                    Commands::AutomaticFingerprintVerification,
                    cfg.wire(),
                ),
            ),
    {
        let command = Command::new(self.address, Commands::AutomaticFingerprintVerification, cfg);
        command.to_wire(serial);
        self.state = IdentifyState::Awaiting(AutoIdentifyStep::CollectImage, cfg.err_count);
    }

    /// Waits for the acknowledge that the image was collected.
    pub fn wait_collect_image(&mut self, serial: &mut Serial) -> (r: Result<(), Error>)
        ensures
            r == unit(identify_wait(old(self)@, AutoIdentifyStep::CollectImage, old(serial)@).result),
            final(self)@ == identify_wait(
                old(self)@,
                AutoIdentifyStep::CollectImage,
                old(serial)@,
            ).driver,
            final(serial)@ == identify_wait(
                old(self)@,
                AutoIdentifyStep::CollectImage,
                old(serial)@,
            ).line,
    {
        match self.wait_step(serial, AutoIdentifyStep::CollectImage) {
            Ok(_) => Ok(()),
            Err(e) => Err(e),
        }
    }

    /// Waits for the acknowledge that the feature file was derived.
    pub fn wait_generate_feature(&mut self, serial: &mut Serial) -> (r: Result<(), Error>)
        ensures
            r == unit(
                identify_wait(old(self)@, AutoIdentifyStep::GenerateFeature, old(serial)@).result,
            ),
            final(self)@ == identify_wait(
                old(self)@,
                AutoIdentifyStep::GenerateFeature,
                old(serial)@,
            ).driver,
            final(serial)@ == identify_wait(
                old(self)@,
                AutoIdentifyStep::GenerateFeature,
                old(serial)@,
            ).line,
    {
        match self.wait_step(serial, AutoIdentifyStep::GenerateFeature) {
            Ok(_) => Ok(()),
            Err(e) => Err(e),
        }
    }

    /// Waits for the acknowledge that the library was searched, and returns
    /// the match.
    pub fn wait_search(&mut self, serial: &mut Serial) -> (r: Result<AutoIdentifyResponse, Error>)
        ensures
            r == identify_wait(old(self)@, AutoIdentifyStep::Search, old(serial)@).result,
            final(self)@ == identify_wait(old(self)@, AutoIdentifyStep::Search, old(serial)@).driver,
            final(serial)@ == identify_wait(old(self)@, AutoIdentifyStep::Search, old(serial)@).line,
    {
        self.wait_step(serial, AutoIdentifyStep::Search)
    }

    /// Waits for the acknowledge of `step`, and returns its answer.
    pub fn wait_step(&mut self, serial: &mut Serial, step: AutoIdentifyStep) -> (r: Result<
        AutoIdentifyResponse,
        Error,
    >)
        ensures
            r == identify_wait(old(self)@, step, old(serial)@).result,
            final(self)@ == identify_wait(old(self)@, step, old(serial)@).driver,
            final(serial)@ == identify_wait(old(self)@, step, old(serial)@).line,
    {
        let left = match self.state {
            IdentifyState::Idle => AutoIdentCount::Infinite,
            IdentifyState::Awaiting(_, left) => left,
            _ => {
                return Err(Error::IncorrectData);
            },
        };
        let resp = match receive_reply::<AutoIdentifyResponse>(self.address, serial) {
            Ok(resp) => resp,
            Err(Error::Wire(fault)) => {
                return Err(Error::Wire(fault));
            },
            Err(Error::BadConfirmation(code)) => {
                self.state = match left.spend() {
                    Some(rest) => IdentifyState::Awaiting(AutoIdentifyStep::CollectImage, rest),
                    None => IdentifyState::Exhausted,
                };
                return Err(Error::BadConfirmation(code));
            },
            Err(e) => {
                self.state = IdentifyState::Failed(e);
                return Err(e);
            },
        };
        if resp.step != step {
            self.state = IdentifyState::Failed(Error::IncorrectData);
            return Err(Error::IncorrectData);
        }
        self.state = match step.next() {
            Some(next) => IdentifyState::Awaiting(next, left),
            None => IdentifyState::Success(resp),
        };
        Ok(resp)
    }
}

} // verus!
