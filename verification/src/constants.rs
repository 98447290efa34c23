use vstd::prelude::*;
use vstd::std_specs::convert::{FromSpecImpl, TryFromSpecImpl};
use crate::checksum::Checksum;
use crate::error::Error;
use crate::serial::Serial;
use crate::wire_traits::{FromWire, ToWire};

verus! {

/// What kind of frame this is: the byte that follows the address.
#[derive(Clone, Copy, Debug, PartialEq, Eq, Structural)]
pub enum PackageIdentifier {
    /// `0x01`: a command from the host.
    CommandPacket,
    /// `0x02`: a piece of a data stream, with more to follow.
    DataPacket,
    /// `0x07`: the device's answer to a command.
    AcknowledgePacket,
    /// `0x08`: the last piece of a data stream.
    EndOfDataPacket,
}

impl PackageIdentifier {
    /// The byte that stands for this value on the wire.
    pub open spec fn byte(self) -> u8 {
        match self {
            PackageIdentifier::CommandPacket => 0x01,
            PackageIdentifier::DataPacket => 0x02,
            PackageIdentifier::AcknowledgePacket => 0x07,
            PackageIdentifier::EndOfDataPacket => 0x08,
        }
    }

    /// The value that `b` stands for, if any.
    pub open spec fn of_byte(b: u8) -> Option<Self> {
        if b == 0x01 {
            Some(PackageIdentifier::CommandPacket)
        } else if b == 0x02 {
            Some(PackageIdentifier::DataPacket)
        } else if b == 0x07 {
            Some(PackageIdentifier::AcknowledgePacket)
        } else if b == 0x08 {
            Some(PackageIdentifier::EndOfDataPacket)
        } else {
            None
        }
    }

    /// The byte that stands for this value on the wire.
    pub fn to_byte(self) -> (b: u8)
        ensures
            b == self.byte(),
    {
        match self {
            PackageIdentifier::CommandPacket => 0x01,
            PackageIdentifier::DataPacket => 0x02,
            PackageIdentifier::AcknowledgePacket => 0x07,
            PackageIdentifier::EndOfDataPacket => 0x08,
        }
    }

    /// The value that `b` stands for, if any.
    pub fn from_byte(b: u8) -> (value: Option<Self>)
        ensures
            value == Self::of_byte(b),
    {
        match b {
            0x01 => Some(PackageIdentifier::CommandPacket),
            0x02 => Some(PackageIdentifier::DataPacket),
            0x07 => Some(PackageIdentifier::AcknowledgePacket),
            0x08 => Some(PackageIdentifier::EndOfDataPacket),
            _ => None,
        }
    }

    /// Decoding the byte of a value gives the value again.
    pub proof fn lemma_byte_round_trip(self)
        ensures
            Self::of_byte(self.byte()) == Some(self),
    {
    }

    /// A byte stands for at most one value, and that value for the byte.
    pub proof fn lemma_of_byte_exact(b: u8)
        ensures
            Self::of_byte(b) matches Some(value) ==> value.byte() == b,
    {
    }
}

impl From<PackageIdentifier> for u8 {
    fn from(value: PackageIdentifier) -> (b: u8) {
        value.to_byte()
    }
}

impl FromSpecImpl<PackageIdentifier> for u8 {
    open spec fn obeys_from_spec() -> bool {
        true
    }

    open spec fn from_spec(value: PackageIdentifier) -> u8 {
        value.byte()
    }
}

impl TryFrom<u8> for PackageIdentifier {
    type Error = u8;

    fn try_from(value: u8) -> (r: Result<Self, u8>) {
        match Self::from_byte(value) {
            Some(v) => Ok(v),
            None => Err(value),
        }
    }
}

impl TryFromSpecImpl<u8> for PackageIdentifier {
    open spec fn obeys_try_from_spec() -> bool {
        true
    }

    open spec fn try_from_spec(value: u8) -> Result<Self, u8> {
        match Self::of_byte(value) {
            Some(v) => Ok(v),
            None => Err(value),
        }
    }
}

impl ToWire for PackageIdentifier {
    open spec fn wire(&self) -> Seq<u8> {
        seq![self.byte()]
    }

    fn size_on_wire(&self) -> (n: usize) {
        1
    }

    fn to_wire(&self, serial: &mut Serial, cksm: Option<&mut Checksum>) {
        self.to_byte().to_wire(serial, cksm)
    }
}

impl FromWire for PackageIdentifier {
    open spec fn wire_len() -> nat {
        1
    }

    open spec fn decode(bytes: Seq<u8>) -> Option<Self> {
        Self::of_byte(bytes[0])
    }

    fn from_wire(serial: &mut Serial, cksm: Option<&mut Checksum>) -> (r: Result<Self, Error>) {
        match u8::from_wire(serial, cksm) {
            Ok(val) => match Self::from_byte(val) {
                Some(v) => Ok(v),
                None => Err(Error::IncorrectData),
            },
            Err(e) => Err(e),
        }
    }
}

/// The instruction codes: the first body byte of a command frame.
#[derive(Clone, Copy, Debug, PartialEq, Eq, Structural)]
pub enum Commands {
    /// `0x01`: capture a fingerprint image.
    GetImage,
    /// `0x02`: derive a feature file from the image into a character buffer.
    GenChar,
    /// `0x03`: compare the feature files of two character buffers.
    Match,
    /// `0x04`: search the library for the feature file of a buffer.
    Search,
    /// `0x05`: merge the character buffers into a template.
    RegModel,
    /// `0x06`: store a buffer's template in the library.
    Store,
    /// `0x07`: load a template from the library into a buffer.
    LoadChar,
    /// `0x08`: send a buffer's template to the host.
    UpChar,
    /// `0x0A`: send the captured image to the host.
    UpImage,
    /// `0x0C`: delete a run of templates from the library.
    DeleteChar,
    /// `0x0D`: delete every template of the library.
    Empty,
    /// `0x0F`: read the device's status and configuration.
    ReadSystemParameter,
    /// `0x12`: set the handshake password.
    SetPwd,
    /// `0x13`: verify the handshake password.
    VfyPwd,
    /// `0x14`: ask the device for a random number.
    GetRandomCode,
    /// `0x15`: give the device a new address.
    SetAdder,
    /// `0x1D`: read how many templates are stored.
    TempleteNum,
    /// `0x1F`: read one page of the occupancy table.
    ReadIndexTable,
    /// `0x31`: start an automatic enrollment.
    AutomaticRegistrationTemplate,
    /// `0x32`: start an automatic identification.
    AutomaticFingerprintVerification,
    /// `0x35`: drive the LED ring.
    AuraControl,
}

impl Commands {
    /// The byte that stands for this value on the wire.
    pub open spec fn byte(self) -> u8 {
        match self {
            Commands::GetImage => 0x01,
            Commands::GenChar => 0x02,
            Commands::Match => 0x03,
            Commands::Search => 0x04,
            Commands::RegModel => 0x05,
            Commands::Store => 0x06,
            Commands::LoadChar => 0x07,
            Commands::UpChar => 0x08,
            Commands::UpImage => 0x0A,
            Commands::DeleteChar => 0x0C,
            Commands::Empty => 0x0D,
            Commands::ReadSystemParameter => 0x0F,
            Commands::SetPwd => 0x12,
            Commands::VfyPwd => 0x13,
            Commands::GetRandomCode => 0x14,
            Commands::SetAdder => 0x15,
            Commands::TempleteNum => 0x1D,
            Commands::ReadIndexTable => 0x1F,
            Commands::AutomaticRegistrationTemplate => 0x31,
            Commands::AutomaticFingerprintVerification => 0x32,
            Commands::AuraControl => 0x35,
        }
    }

    /// The value that `b` stands for, if any.
    pub open spec fn of_byte(b: u8) -> Option<Self> {
        if b == 0x01 {
            Some(Commands::GetImage)
        } else if b == 0x02 {
            Some(Commands::GenChar)
        } else if b == 0x03 {
            Some(Commands::Match)
        } else if b == 0x04 {
            Some(Commands::Search)
        } else if b == 0x05 {
            Some(Commands::RegModel)
        } else if b == 0x06 {
            Some(Commands::Store)
        } else if b == 0x07 {
            Some(Commands::LoadChar)
        } else if b == 0x08 {
            Some(Commands::UpChar)
        } else if b == 0x0A {
            Some(Commands::UpImage)
        } else if b == 0x0C {
            Some(Commands::DeleteChar)
        } else if b == 0x0D {
            Some(Commands::Empty)
        } else if b == 0x0F {
            Some(Commands::ReadSystemParameter)
        } else if b == 0x12 {
            Some(Commands::SetPwd)
        } else if b == 0x13 {
            Some(Commands::VfyPwd)
        } else if b == 0x14 {
            Some(Commands::GetRandomCode)
        } else if b == 0x15 {
            Some(Commands::SetAdder)
        } else if b == 0x1D {
            Some(Commands::TempleteNum)
        } else if b == 0x1F {
            Some(Commands::ReadIndexTable)
        } else if b == 0x31 {
            Some(Commands::AutomaticRegistrationTemplate)
        } else if b == 0x32 {
            Some(Commands::AutomaticFingerprintVerification)
        } else if b == 0x35 {
            Some(Commands::AuraControl)
        } else {
            None
        }
    }

    /// The byte that stands for this value on the wire.
    pub fn to_byte(self) -> (b: u8)
        ensures
            b == self.byte(),
    {
        match self {
            Commands::GetImage => 0x01,
            Commands::GenChar => 0x02,
            Commands::Match => 0x03,
            Commands::Search => 0x04,
            Commands::RegModel => 0x05,
            Commands::Store => 0x06,
            Commands::LoadChar => 0x07,
            Commands::UpChar => 0x08,
            Commands::UpImage => 0x0A,
            Commands::DeleteChar => 0x0C,
            Commands::Empty => 0x0D,
            Commands::ReadSystemParameter => 0x0F,
            Commands::SetPwd => 0x12,
            Commands::VfyPwd => 0x13,
            Commands::GetRandomCode => 0x14,
            Commands::SetAdder => 0x15,
            Commands::TempleteNum => 0x1D,
            Commands::ReadIndexTable => 0x1F,
            Commands::AutomaticRegistrationTemplate => 0x31,
            Commands::AutomaticFingerprintVerification => 0x32,
            Commands::AuraControl => 0x35,
        }
    }

    /// The value that `b` stands for, if any.
    pub fn from_byte(b: u8) -> (value: Option<Self>)
        ensures
            value == Self::of_byte(b),
    {
        match b {
            0x01 => Some(Commands::GetImage),
            0x02 => Some(Commands::GenChar),
            0x03 => Some(Commands::Match),
            0x04 => Some(Commands::Search),
            0x05 => Some(Commands::RegModel),
            0x06 => Some(Commands::Store),
            0x07 => Some(Commands::LoadChar),
            0x08 => Some(Commands::UpChar),
            0x0A => Some(Commands::UpImage),
            0x0C => Some(Commands::DeleteChar),
            0x0D => Some(Commands::Empty),
            0x0F => Some(Commands::ReadSystemParameter),
            0x12 => Some(Commands::SetPwd),
            0x13 => Some(Commands::VfyPwd),
            0x14 => Some(Commands::GetRandomCode),
            0x15 => Some(Commands::SetAdder),
            0x1D => Some(Commands::TempleteNum),
            0x1F => Some(Commands::ReadIndexTable),
            0x31 => Some(Commands::AutomaticRegistrationTemplate),
            0x32 => Some(Commands::AutomaticFingerprintVerification),
            0x35 => Some(Commands::AuraControl),
            _ => None,
        }
    }

    /// Decoding the byte of a value gives the value again.
    pub proof fn lemma_byte_round_trip(self)
        ensures
            Self::of_byte(self.byte()) == Some(self),
    {
    }

    /// A byte stands for at most one value, and that value for the byte.
    pub proof fn lemma_of_byte_exact(b: u8)
        ensures
            Self::of_byte(b) matches Some(value) ==> value.byte() == b,
    {
    }
}

impl From<Commands> for u8 {
    fn from(value: Commands) -> (b: u8) {
        value.to_byte()
    }
}

impl FromSpecImpl<Commands> for u8 {
    open spec fn obeys_from_spec() -> bool {
        true
    }

    open spec fn from_spec(value: Commands) -> u8 {
        value.byte()
    }
}

impl TryFrom<u8> for Commands {
    type Error = u8;

    fn try_from(value: u8) -> (r: Result<Self, u8>) {
        match Self::from_byte(value) {
            Some(v) => Ok(v),
            None => Err(value),
        }
    }
}

impl TryFromSpecImpl<u8> for Commands {
    open spec fn obeys_try_from_spec() -> bool {
        true
    }

    open spec fn try_from_spec(value: u8) -> Result<Self, u8> {
        match Self::of_byte(value) {
            Some(v) => Ok(v),
            None => Err(value),
        }
    }
}

impl ToWire for Commands {
    open spec fn wire(&self) -> Seq<u8> {
        seq![self.byte()]
    }

    fn size_on_wire(&self) -> (n: usize) {
        1
    }

    fn to_wire(&self, serial: &mut Serial, cksm: Option<&mut Checksum>) {
        self.to_byte().to_wire(serial, cksm)
    }
}

impl FromWire for Commands {
    open spec fn wire_len() -> nat {
        1
    }

    open spec fn decode(bytes: Seq<u8>) -> Option<Self> {
        Self::of_byte(bytes[0])
    }

    fn from_wire(serial: &mut Serial, cksm: Option<&mut Checksum>) -> (r: Result<Self, Error>) {
        match u8::from_wire(serial, cksm) {
            Ok(val) => match Self::from_byte(val) {
                Some(v) => Ok(v),
                None => Err(Error::IncorrectData),
            },
            Err(e) => Err(e),
        }
    }
}

/// The status that opens the body of every acknowledge.
#[derive(Clone, Copy, Debug, PartialEq, Eq, Structural)]
pub enum ConfirmationCode {
    /// `0x00`: the command was carried out.
    SuccessCode,
    /// `0x01`: the data package was received with an error.
    ErrorCode,
    /// `0x02`: no finger is on the sensor.
    NoFingerOnSensor,
    /// `0x03`: the finger could not be enrolled.
    FailToEnrollFinger,
    /// `0x06`: the image is too disorderly for a feature file.
    FailToGenerateCharacterOverDisorderlyFingerprintImage,
    /// `0x07`: the image has too few feature points or is too small.
    FailToGenerateCharacterLacknessOfCharacterPointOrOverSmallness,
    /// `0x08`: the finger does not match.
    FailFingerDoesntMatch,
    /// `0x09`: no matching finger was found.
    FailToFindMatchingFinger,
    /// `0x0A`: the feature files could not be merged.
    FailToCombineCharacterFiles,
    /// `0x0B`: the page addressed lies beyond the library.
    AddressingPageIDIsBeyoundTheFingerLibary,
    /// `0x0C`: the template could not be read, or is invalid.
    ErrorWhenReadingTemplateFromLibararORTemplateIsInvalid,
    /// `0x0D`: the template could not be uploaded.
    ErrorWhenUploadingTemplate,
    /// `0x0E`: the device cannot take the data packages that follow.
    ModuleCantReceivingTheFollowingDataPackages,
    /// `0x0F`: the image could not be uploaded.
    ErrorWhenUploadingImage,
    /// `0x10`: the template could not be deleted.
    FailToDeleteTheTemplate,
    /// `0x11`: the library could not be cleared.
    FailToClearFingerLibary,
    /// `0x13`: the password is wrong.
    WrongPassword,
    /// `0x15`: there is no valid primary image to work from.
    FailToGenerateImageLacknessOfValidPrimaryImage,
    /// `0x18`: writing the flash failed.
    ErrorWhenWritingFlash,
    /// `0x19`: an error without a definition.
    NoDefinitionError,
    /// `0x1A`: the register number is invalid.
    InvalidRegisterNumber,
    /// `0x1B`: the register is configured wrongly.
    IncorrectConfigurationOfRegister,
    /// `0x1C`: the notepad page number is wrong.
    WrongNotepadPageNumber,
    /// `0x1D`: the communication port could not be operated.
    FailToOperateTheCommunicationPort,
    /// `0x1F`: the library is full.
    FingerPrintLibaryFull,
    /// `0x20`: the address code is incorrect.
    AddressIncorrect,
    /// `0x21`: the password must be verified first.
    MustVerifyPassword,
    /// `0x22`: the template is empty.
    FingerTemplateEmpty,
    /// `0x24`: the library is empty.
    FingerLibaryEmpty,
    /// `0x26`: the device gave up waiting.
    Timeout,
    /// `0x27`: the fingerprint is enrolled already.
    FingerAlreadyExists,
    /// `0x29`: the sensor hardware failed.
    SensorHardwareError,
    /// `0xFC`: the device does not know the command.
    UnsupportedCommand,
    /// `0xFD`: the hardware failed.
    HardwareError,
    /// `0xFE`: the command could not be carried out.
    CommandExecutionFailure,
    /// `0xFF`: reserved by the device.
    SystemReserved,
}

impl ConfirmationCode {
    /// The byte that stands for this value on the wire.
    pub open spec fn byte(self) -> u8 {
        match self {
            ConfirmationCode::SuccessCode => 0x00,
            ConfirmationCode::ErrorCode => 0x01,
            ConfirmationCode::NoFingerOnSensor => 0x02,
            ConfirmationCode::FailToEnrollFinger => 0x03,
            ConfirmationCode::FailToGenerateCharacterOverDisorderlyFingerprintImage => 0x06,
            ConfirmationCode::FailToGenerateCharacterLacknessOfCharacterPointOrOverSmallness => 0x07,
            ConfirmationCode::FailFingerDoesntMatch => 0x08,
            ConfirmationCode::FailToFindMatchingFinger => 0x09,
            ConfirmationCode::FailToCombineCharacterFiles => 0x0A,
            ConfirmationCode::AddressingPageIDIsBeyoundTheFingerLibary => 0x0B,
            ConfirmationCode::ErrorWhenReadingTemplateFromLibararORTemplateIsInvalid => 0x0C,
            ConfirmationCode::ErrorWhenUploadingTemplate => 0x0D,
            ConfirmationCode::ModuleCantReceivingTheFollowingDataPackages => 0x0E,
            ConfirmationCode::ErrorWhenUploadingImage => 0x0F,
            ConfirmationCode::FailToDeleteTheTemplate => 0x10,
            ConfirmationCode::FailToClearFingerLibary => 0x11,
            ConfirmationCode::WrongPassword => 0x13,
            ConfirmationCode::FailToGenerateImageLacknessOfValidPrimaryImage => 0x15,
            ConfirmationCode::ErrorWhenWritingFlash => 0x18,
            ConfirmationCode::NoDefinitionError => 0x19,
            ConfirmationCode::InvalidRegisterNumber => 0x1A,
            ConfirmationCode::IncorrectConfigurationOfRegister => 0x1B,
            ConfirmationCode::WrongNotepadPageNumber => 0x1C,
            ConfirmationCode::FailToOperateTheCommunicationPort => 0x1D,
            ConfirmationCode::FingerPrintLibaryFull => 0x1F,
            ConfirmationCode::AddressIncorrect => 0x20,
            ConfirmationCode::MustVerifyPassword => 0x21,
            ConfirmationCode::FingerTemplateEmpty => 0x22,
            ConfirmationCode::FingerLibaryEmpty => 0x24,
            ConfirmationCode::Timeout => 0x26,
            ConfirmationCode::FingerAlreadyExists => 0x27,
            ConfirmationCode::SensorHardwareError => 0x29,
            ConfirmationCode::UnsupportedCommand => 0xFC,
            ConfirmationCode::HardwareError => 0xFD,
            ConfirmationCode::CommandExecutionFailure => 0xFE,
            ConfirmationCode::SystemReserved => 0xFF,
        }
    }

    /// The value that `b` stands for, if any.
    pub open spec fn of_byte(b: u8) -> Option<Self> {
        if b == 0x00 {
            Some(ConfirmationCode::SuccessCode)
        } else if b == 0x01 {
            Some(ConfirmationCode::ErrorCode)
        } else if b == 0x02 {
            Some(ConfirmationCode::NoFingerOnSensor)
        } else if b == 0x03 {
            Some(ConfirmationCode::FailToEnrollFinger)
        } else if b == 0x06 {
            Some(ConfirmationCode::FailToGenerateCharacterOverDisorderlyFingerprintImage)
        } else if b == 0x07 {
            Some(ConfirmationCode::FailToGenerateCharacterLacknessOfCharacterPointOrOverSmallness)
        } else if b == 0x08 {
            Some(ConfirmationCode::FailFingerDoesntMatch)
        } else if b == 0x09 {
            Some(ConfirmationCode::FailToFindMatchingFinger)
        } else if b == 0x0A {
            Some(ConfirmationCode::FailToCombineCharacterFiles)
        } else if b == 0x0B {
            Some(ConfirmationCode::AddressingPageIDIsBeyoundTheFingerLibary)
        } else if b == 0x0C {
            Some(ConfirmationCode::ErrorWhenReadingTemplateFromLibararORTemplateIsInvalid)
        } else if b == 0x0D {
            Some(ConfirmationCode::ErrorWhenUploadingTemplate)
        } else if b == 0x0E {
            Some(ConfirmationCode::ModuleCantReceivingTheFollowingDataPackages)
        } else if b == 0x0F {
            Some(ConfirmationCode::ErrorWhenUploadingImage)
        } else if b == 0x10 {
            Some(ConfirmationCode::FailToDeleteTheTemplate)
        } else if b == 0x11 {
            Some(ConfirmationCode::FailToClearFingerLibary)
        } else if b == 0x13 {
            Some(ConfirmationCode::WrongPassword)
        } else if b == 0x15 {
            Some(ConfirmationCode::FailToGenerateImageLacknessOfValidPrimaryImage)
        } else if b == 0x18 {
            Some(ConfirmationCode::ErrorWhenWritingFlash)
        } else if b == 0x19 {
            Some(ConfirmationCode::NoDefinitionError)
        } else if b == 0x1A {
            Some(ConfirmationCode::InvalidRegisterNumber)
        } else if b == 0x1B {
            Some(ConfirmationCode::IncorrectConfigurationOfRegister)
        } else if b == 0x1C {
            Some(ConfirmationCode::WrongNotepadPageNumber)
        } else if b == 0x1D {
            Some(ConfirmationCode::FailToOperateTheCommunicationPort)
        } else if b == 0x1F {
            Some(ConfirmationCode::FingerPrintLibaryFull)
        } else if b == 0x20 {
            Some(ConfirmationCode::AddressIncorrect)
        } else if b == 0x21 {
            Some(ConfirmationCode::MustVerifyPassword)
        } else if b == 0x22 {
            Some(ConfirmationCode::FingerTemplateEmpty)
        } else if b == 0x24 {
            Some(ConfirmationCode::FingerLibaryEmpty)
        } else if b == 0x26 {
            Some(ConfirmationCode::Timeout)
        } else if b == 0x27 {
            Some(ConfirmationCode::FingerAlreadyExists)
        } else if b == 0x29 {
            Some(ConfirmationCode::SensorHardwareError)
        } else if b == 0xFC {
            Some(ConfirmationCode::UnsupportedCommand)
        } else if b == 0xFD {
            Some(ConfirmationCode::HardwareError)
        } else if b == 0xFE {
            Some(ConfirmationCode::CommandExecutionFailure)
        } else if b == 0xFF {
            Some(ConfirmationCode::SystemReserved)
        } else {
            None
        }
    }

    /// The byte that stands for this value on the wire.
    pub fn to_byte(self) -> (b: u8)
        ensures
            b == self.byte(),
    {
        match self {
            ConfirmationCode::SuccessCode => 0x00,
            ConfirmationCode::ErrorCode => 0x01,
            ConfirmationCode::NoFingerOnSensor => 0x02,
            ConfirmationCode::FailToEnrollFinger => 0x03,
            ConfirmationCode::FailToGenerateCharacterOverDisorderlyFingerprintImage => 0x06,
            ConfirmationCode::FailToGenerateCharacterLacknessOfCharacterPointOrOverSmallness => 0x07,
            ConfirmationCode::FailFingerDoesntMatch => 0x08,
            ConfirmationCode::FailToFindMatchingFinger => 0x09,
            ConfirmationCode::FailToCombineCharacterFiles => 0x0A,
            ConfirmationCode::AddressingPageIDIsBeyoundTheFingerLibary => 0x0B,
            ConfirmationCode::ErrorWhenReadingTemplateFromLibararORTemplateIsInvalid => 0x0C,
            ConfirmationCode::ErrorWhenUploadingTemplate => 0x0D,
            ConfirmationCode::ModuleCantReceivingTheFollowingDataPackages => 0x0E,
            ConfirmationCode::ErrorWhenUploadingImage => 0x0F,
            ConfirmationCode::FailToDeleteTheTemplate => 0x10,
            ConfirmationCode::FailToClearFingerLibary => 0x11,
            ConfirmationCode::WrongPassword => 0x13,
            ConfirmationCode::FailToGenerateImageLacknessOfValidPrimaryImage => 0x15,
            ConfirmationCode::ErrorWhenWritingFlash => 0x18,
            ConfirmationCode::NoDefinitionError => 0x19,
            ConfirmationCode::InvalidRegisterNumber => 0x1A,
            ConfirmationCode::IncorrectConfigurationOfRegister => 0x1B,
            ConfirmationCode::WrongNotepadPageNumber => 0x1C,
            ConfirmationCode::FailToOperateTheCommunicationPort => 0x1D,
            ConfirmationCode::FingerPrintLibaryFull => 0x1F,
            ConfirmationCode::AddressIncorrect => 0x20,
            ConfirmationCode::MustVerifyPassword => 0x21,
            ConfirmationCode::FingerTemplateEmpty => 0x22,
            ConfirmationCode::FingerLibaryEmpty => 0x24,
            ConfirmationCode::Timeout => 0x26,
            ConfirmationCode::FingerAlreadyExists => 0x27,
            ConfirmationCode::SensorHardwareError => 0x29,
            ConfirmationCode::UnsupportedCommand => 0xFC,
            ConfirmationCode::HardwareError => 0xFD,
            ConfirmationCode::CommandExecutionFailure => 0xFE,
            ConfirmationCode::SystemReserved => 0xFF,
        }
    }

    /// The value that `b` stands for, if any.
    pub fn from_byte(b: u8) -> (value: Option<Self>)
        ensures
            value == Self::of_byte(b),
    {
        match b {
            0x00 => Some(ConfirmationCode::SuccessCode),
            0x01 => Some(ConfirmationCode::ErrorCode),
            0x02 => Some(ConfirmationCode::NoFingerOnSensor),
            0x03 => Some(ConfirmationCode::FailToEnrollFinger),
            0x06 => Some(ConfirmationCode::FailToGenerateCharacterOverDisorderlyFingerprintImage),
            0x07 => Some(ConfirmationCode::FailToGenerateCharacterLacknessOfCharacterPointOrOverSmallness),
            0x08 => Some(ConfirmationCode::FailFingerDoesntMatch),
            0x09 => Some(ConfirmationCode::FailToFindMatchingFinger),
            0x0A => Some(ConfirmationCode::FailToCombineCharacterFiles),
            0x0B => Some(ConfirmationCode::AddressingPageIDIsBeyoundTheFingerLibary),
            0x0C => Some(ConfirmationCode::ErrorWhenReadingTemplateFromLibararORTemplateIsInvalid),
            0x0D => Some(ConfirmationCode::ErrorWhenUploadingTemplate),
            0x0E => Some(ConfirmationCode::ModuleCantReceivingTheFollowingDataPackages),
            0x0F => Some(ConfirmationCode::ErrorWhenUploadingImage),
            0x10 => Some(ConfirmationCode::FailToDeleteTheTemplate),
            0x11 => Some(ConfirmationCode::FailToClearFingerLibary),
            0x13 => Some(ConfirmationCode::WrongPassword),
            0x15 => Some(ConfirmationCode::FailToGenerateImageLacknessOfValidPrimaryImage),
            0x18 => Some(ConfirmationCode::ErrorWhenWritingFlash),
            0x19 => Some(ConfirmationCode::NoDefinitionError),
            0x1A => Some(ConfirmationCode::InvalidRegisterNumber),
            0x1B => Some(ConfirmationCode::IncorrectConfigurationOfRegister),
            0x1C => Some(ConfirmationCode::WrongNotepadPageNumber),
            0x1D => Some(ConfirmationCode::FailToOperateTheCommunicationPort),
            0x1F => Some(ConfirmationCode::FingerPrintLibaryFull),
            0x20 => Some(ConfirmationCode::AddressIncorrect),
            0x21 => Some(ConfirmationCode::MustVerifyPassword),
            0x22 => Some(ConfirmationCode::FingerTemplateEmpty),
            0x24 => Some(ConfirmationCode::FingerLibaryEmpty),
            0x26 => Some(ConfirmationCode::Timeout),
            0x27 => Some(ConfirmationCode::FingerAlreadyExists),
            0x29 => Some(ConfirmationCode::SensorHardwareError),
            0xFC => Some(ConfirmationCode::UnsupportedCommand),
            0xFD => Some(ConfirmationCode::HardwareError),
            0xFE => Some(ConfirmationCode::CommandExecutionFailure),
            0xFF => Some(ConfirmationCode::SystemReserved),
            _ => None,
        }
    }

    /// Decoding the byte of a value gives the value again.
    pub proof fn lemma_byte_round_trip(self)
        ensures
            Self::of_byte(self.byte()) == Some(self),
    {
    }

    /// A byte stands for at most one value, and that value for the byte.
    pub proof fn lemma_of_byte_exact(b: u8)
        ensures
            Self::of_byte(b) matches Some(value) ==> value.byte() == b,
    {
    }
}

impl From<ConfirmationCode> for u8 {
    fn from(value: ConfirmationCode) -> (b: u8) {
        value.to_byte()
    }
}

impl FromSpecImpl<ConfirmationCode> for u8 {
    open spec fn obeys_from_spec() -> bool {
        true
    }

    open spec fn from_spec(value: ConfirmationCode) -> u8 {
        value.byte()
    }
}

impl TryFrom<u8> for ConfirmationCode {
    type Error = u8;

    fn try_from(value: u8) -> (r: Result<Self, u8>) {
        match Self::from_byte(value) {
            Some(v) => Ok(v),
            None => Err(value),
        }
    }
}

impl TryFromSpecImpl<u8> for ConfirmationCode {
    open spec fn obeys_try_from_spec() -> bool {
        true
    }

    open spec fn try_from_spec(value: u8) -> Result<Self, u8> {
        match Self::of_byte(value) {
            Some(v) => Ok(v),
            None => Err(value),
        }
    }
}

impl ToWire for ConfirmationCode {
    open spec fn wire(&self) -> Seq<u8> {
        seq![self.byte()]
    }

    fn size_on_wire(&self) -> (n: usize) {
        1
    }

    fn to_wire(&self, serial: &mut Serial, cksm: Option<&mut Checksum>) {
        self.to_byte().to_wire(serial, cksm)
    }
}

impl FromWire for ConfirmationCode {
    open spec fn wire_len() -> nat {
        1
    }

    open spec fn decode(bytes: Seq<u8>) -> Option<Self> {
        Self::of_byte(bytes[0])
    }

    fn from_wire(serial: &mut Serial, cksm: Option<&mut Checksum>) -> (r: Result<Self, Error>) {
        match u8::from_wire(serial, cksm) {
            Ok(val) => match Self::from_byte(val) {
                Some(v) => Ok(v),
                None => Err(Error::IncorrectData),
            },
            Err(e) => Err(e),
        }
    }
}

/// One of the six feature buffers on the device.
#[derive(Clone, Copy, Debug, PartialEq, Eq, Structural)]
pub enum CharBufferId {
    /// `0x01`
    One,
    /// `0x02`
    Two,
    /// `0x03`
    Three,
    /// `0x04`
    Four,
    /// `0x05`
    Five,
    /// `0x06`
    Six,
}

impl CharBufferId {
    /// The byte that stands for this value on the wire.
    pub open spec fn byte(self) -> u8 {
        match self {
            CharBufferId::One => 0x01,
            CharBufferId::Two => 0x02,
            CharBufferId::Three => 0x03,
            CharBufferId::Four => 0x04,
            CharBufferId::Five => 0x05,
            CharBufferId::Six => 0x06,
        }
    }

    /// The value that `b` stands for, if any.
    pub open spec fn of_byte(b: u8) -> Option<Self> {
        if b == 0x01 {
            Some(CharBufferId::One)
        } else if b == 0x02 {
            Some(CharBufferId::Two)
        } else if b == 0x03 {
            Some(CharBufferId::Three)
        } else if b == 0x04 {
            Some(CharBufferId::Four)
        } else if b == 0x05 {
            Some(CharBufferId::Five)
        } else if b == 0x06 {
            Some(CharBufferId::Six)
        } else {
            None
        }
    }

    /// The byte that stands for this value on the wire.
    pub fn to_byte(self) -> (b: u8)
        ensures
            b == self.byte(),
    {
        match self {
            CharBufferId::One => 0x01,
            CharBufferId::Two => 0x02,
            CharBufferId::Three => 0x03,
            CharBufferId::Four => 0x04,
            CharBufferId::Five => 0x05,
            CharBufferId::Six => 0x06,
        }
    }

    /// The value that `b` stands for, if any.
    pub fn from_byte(b: u8) -> (value: Option<Self>)
        ensures
            value == Self::of_byte(b),
    {
        match b {
            0x01 => Some(CharBufferId::One),
            0x02 => Some(CharBufferId::Two),
            0x03 => Some(CharBufferId::Three),
            0x04 => Some(CharBufferId::Four),
            0x05 => Some(CharBufferId::Five),
            0x06 => Some(CharBufferId::Six),
            _ => None,
        }
    }

    /// Decoding the byte of a value gives the value again.
    pub proof fn lemma_byte_round_trip(self)
        ensures
            Self::of_byte(self.byte()) == Some(self),
    {
    }

    /// A byte stands for at most one value, and that value for the byte.
    pub proof fn lemma_of_byte_exact(b: u8)
        ensures
            Self::of_byte(b) matches Some(value) ==> value.byte() == b,
    {
    }
}

impl From<CharBufferId> for u8 {
    fn from(value: CharBufferId) -> (b: u8) {
        value.to_byte()
    }
}

impl FromSpecImpl<CharBufferId> for u8 {
    open spec fn obeys_from_spec() -> bool {
        true
    }

    open spec fn from_spec(value: CharBufferId) -> u8 {
        value.byte()
    }
}

impl TryFrom<u8> for CharBufferId {
    type Error = u8;

    fn try_from(value: u8) -> (r: Result<Self, u8>) {
        match Self::from_byte(value) {
            Some(v) => Ok(v),
            None => Err(value),
        }
    }
}

impl TryFromSpecImpl<u8> for CharBufferId {
    open spec fn obeys_try_from_spec() -> bool {
        true
    }

    open spec fn try_from_spec(value: u8) -> Result<Self, u8> {
        match Self::of_byte(value) {
            Some(v) => Ok(v),
            None => Err(value),
        }
    }
}

impl ToWire for CharBufferId {
    open spec fn wire(&self) -> Seq<u8> {
        seq![self.byte()]
    }

    fn size_on_wire(&self) -> (n: usize) {
        1
    }

    fn to_wire(&self, serial: &mut Serial, cksm: Option<&mut Checksum>) {
        self.to_byte().to_wire(serial, cksm)
    }
}

impl FromWire for CharBufferId {
    open spec fn wire_len() -> nat {
        1
    }

    open spec fn decode(bytes: Seq<u8>) -> Option<Self> {
        Self::of_byte(bytes[0])
    }

    fn from_wire(serial: &mut Serial, cksm: Option<&mut Checksum>) -> (r: Result<Self, Error>) {
        match u8::from_wire(serial, cksm) {
            Ok(val) => match Self::from_byte(val) {
                Some(v) => Ok(v),
                None => Err(Error::IncorrectData),
            },
            Err(e) => Err(e),
        }
    }
}

/// One of the four pages of the occupancy table, 256 slots each.
#[derive(Clone, Copy, Debug, PartialEq, Eq, Structural)]
pub enum IndexTableIdx {
    /// `0x00`
    Zero,
    /// `0x01`
    One,
    /// `0x02`
    Two,
    /// `0x03`
    Three,
}

impl IndexTableIdx {
    /// The byte that stands for this value on the wire.
    pub open spec fn byte(self) -> u8 {
        match self {
            IndexTableIdx::Zero => 0x00,
            IndexTableIdx::One => 0x01,
            IndexTableIdx::Two => 0x02,
            IndexTableIdx::Three => 0x03,
        }
    }

    /// The value that `b` stands for, if any.
    pub open spec fn of_byte(b: u8) -> Option<Self> {
        if b == 0x00 {
            Some(IndexTableIdx::Zero)
        } else if b == 0x01 {
            Some(IndexTableIdx::One)
        } else if b == 0x02 {
            Some(IndexTableIdx::Two)
        } else if b == 0x03 {
            Some(IndexTableIdx::Three)
        } else {
            None
        }
    }

    /// The byte that stands for this value on the wire.
    pub fn to_byte(self) -> (b: u8)
        ensures
            b == self.byte(),
    {
        match self {
            IndexTableIdx::Zero => 0x00,
            IndexTableIdx::One => 0x01,
            IndexTableIdx::Two => 0x02,
            IndexTableIdx::Three => 0x03,
        }
    }

    /// The value that `b` stands for, if any.
    pub fn from_byte(b: u8) -> (value: Option<Self>)
        ensures
            value == Self::of_byte(b),
    {
        match b {
            0x00 => Some(IndexTableIdx::Zero),
            0x01 => Some(IndexTableIdx::One),
            0x02 => Some(IndexTableIdx::Two),
            0x03 => Some(IndexTableIdx::Three),
            _ => None,
        }
    }

    /// Decoding the byte of a value gives the value again.
    pub proof fn lemma_byte_round_trip(self)
        ensures
            Self::of_byte(self.byte()) == Some(self),
    {
    }

    /// A byte stands for at most one value, and that value for the byte.
    pub proof fn lemma_of_byte_exact(b: u8)
        ensures
            Self::of_byte(b) matches Some(value) ==> value.byte() == b,
    {
    }
}

impl From<IndexTableIdx> for u8 {
    fn from(value: IndexTableIdx) -> (b: u8) {
        value.to_byte()
    }
}

impl FromSpecImpl<IndexTableIdx> for u8 {
    open spec fn obeys_from_spec() -> bool {
        true
    }

    open spec fn from_spec(value: IndexTableIdx) -> u8 {
        value.byte()
    }
}

impl TryFrom<u8> for IndexTableIdx {
    type Error = u8;

    fn try_from(value: u8) -> (r: Result<Self, u8>) {
        match Self::from_byte(value) {
            Some(v) => Ok(v),
            None => Err(value),
        }
    }
}

impl TryFromSpecImpl<u8> for IndexTableIdx {
    open spec fn obeys_try_from_spec() -> bool {
        true
    }

    open spec fn try_from_spec(value: u8) -> Result<Self, u8> {
        match Self::of_byte(value) {
            Some(v) => Ok(v),
            None => Err(value),
        }
    }
}

impl ToWire for IndexTableIdx {
    open spec fn wire(&self) -> Seq<u8> {
        seq![self.byte()]
    }

    fn size_on_wire(&self) -> (n: usize) {
        1
    }

    fn to_wire(&self, serial: &mut Serial, cksm: Option<&mut Checksum>) {
        self.to_byte().to_wire(serial, cksm)
    }
}

impl FromWire for IndexTableIdx {
    open spec fn wire_len() -> nat {
        1
    }

    open spec fn decode(bytes: Seq<u8>) -> Option<Self> {
        Self::of_byte(bytes[0])
    }

    fn from_wire(serial: &mut Serial, cksm: Option<&mut Checksum>) -> (r: Result<Self, Error>) {
        match u8::from_wire(serial, cksm) {
            Ok(val) => match Self::from_byte(val) {
                Some(v) => Ok(v),
                None => Err(Error::IncorrectData),
            },
            Err(e) => Err(e),
        }
    }
}

/// How strict a match must be, from one (loosest) to five.
#[derive(Clone, Copy, Debug, PartialEq, Eq, Structural)]
pub enum IdentifySafety {
    /// `0x01`
    One,
    /// `0x02`
    Two,
    /// `0x03`
    Three,
    /// `0x04`
    Four,
    /// `0x05`
    Five,
}

impl IdentifySafety {
    /// The byte that stands for this value on the wire.
    pub open spec fn byte(self) -> u8 {
        match self {
            IdentifySafety::One => 0x01,
            IdentifySafety::Two => 0x02,
            IdentifySafety::Three => 0x03,
            IdentifySafety::Four => 0x04,
            IdentifySafety::Five => 0x05,
        }
    }

    /// The value that `b` stands for, if any.
    pub open spec fn of_byte(b: u8) -> Option<Self> {
        if b == 0x01 {
            Some(IdentifySafety::One)
        } else if b == 0x02 {
            Some(IdentifySafety::Two)
        } else if b == 0x03 {
            Some(IdentifySafety::Three)
        } else if b == 0x04 {
            Some(IdentifySafety::Four)
        } else if b == 0x05 {
            Some(IdentifySafety::Five)
        } else {
            None
        }
    }

    /// The byte that stands for this value on the wire.
    pub fn to_byte(self) -> (b: u8)
        ensures
            b == self.byte(),
    {
        match self {
            IdentifySafety::One => 0x01,
            IdentifySafety::Two => 0x02,
            IdentifySafety::Three => 0x03,
            IdentifySafety::Four => 0x04,
            IdentifySafety::Five => 0x05,
        }
    }

    /// The value that `b` stands for, if any.
    pub fn from_byte(b: u8) -> (value: Option<Self>)
        ensures
            value == Self::of_byte(b),
    {
        match b {
            0x01 => Some(IdentifySafety::One),
            0x02 => Some(IdentifySafety::Two),
            0x03 => Some(IdentifySafety::Three),
            0x04 => Some(IdentifySafety::Four),
            0x05 => Some(IdentifySafety::Five),
            _ => None,
        }
    }

    /// Decoding the byte of a value gives the value again.
    pub proof fn lemma_byte_round_trip(self)
        ensures
            Self::of_byte(self.byte()) == Some(self),
    {
    }

    /// A byte stands for at most one value, and that value for the byte.
    pub proof fn lemma_of_byte_exact(b: u8)
        ensures
            Self::of_byte(b) matches Some(value) ==> value.byte() == b,
    {
    }
}

impl From<IdentifySafety> for u8 {
    fn from(value: IdentifySafety) -> (b: u8) {
        value.to_byte()
    }
}

impl FromSpecImpl<IdentifySafety> for u8 {
    open spec fn obeys_from_spec() -> bool {
        true
    }

    open spec fn from_spec(value: IdentifySafety) -> u8 {
        value.byte()
    }
}

impl TryFrom<u8> for IdentifySafety {
    type Error = u8;

    fn try_from(value: u8) -> (r: Result<Self, u8>) {
        match Self::from_byte(value) {
            Some(v) => Ok(v),
            None => Err(value),
        }
    }
}

impl TryFromSpecImpl<u8> for IdentifySafety {
    open spec fn obeys_try_from_spec() -> bool {
        true
    }

    open spec fn try_from_spec(value: u8) -> Result<Self, u8> {
        match Self::of_byte(value) {
            Some(v) => Ok(v),
            None => Err(value),
        }
    }
}

impl ToWire for IdentifySafety {
    open spec fn wire(&self) -> Seq<u8> {
        seq![self.byte()]
    }

    fn size_on_wire(&self) -> (n: usize) {
        1
    }

    fn to_wire(&self, serial: &mut Serial, cksm: Option<&mut Checksum>) {
        self.to_byte().to_wire(serial, cksm)
    }
}

impl FromWire for IdentifySafety {
    open spec fn wire_len() -> nat {
        1
    }

    open spec fn decode(bytes: Seq<u8>) -> Option<Self> {
        Self::of_byte(bytes[0])
    }

    fn from_wire(serial: &mut Serial, cksm: Option<&mut Checksum>) -> (r: Result<Self, Error>) {
        match u8::from_wire(serial, cksm) {
            Ok(val) => match Self::from_byte(val) {
                Some(v) => Ok(v),
                None => Err(Error::IncorrectData),
            },
            Err(e) => Err(e),
        }
    }
}

/// The phase that an acknowledge of an automatic enrollment reports.
#[derive(Clone, Copy, Debug, PartialEq, Eq, Structural)]
pub enum AutoEnrollStep {
    /// `0x01`: the first image was collected.
    CollectImage1,
    /// `0x02`: the first feature file was derived.
    GenerateFeature1,
    /// `0x03`: the second image was collected.
    CollectImage2,
    /// `0x04`: the second feature file was derived.
    GenerateFeature2,
    /// `0x05`: the third image was collected.
    CollectImage3,
    /// `0x06`: the third feature file was derived.
    GenerateFeature3,
    /// `0x07`: the fourth image was collected.
    CollectImage4,
    /// `0x08`: the fourth feature file was derived.
    GenerateFeature4,
    /// `0x09`: the fifth image was collected.
    CollectImage5,
    /// `0x0A`: the fifth feature file was derived.
    GenerateFeature5,
    /// `0x0B`: the sixth image was collected.
    CollectImage6,
    /// `0x0C`: the sixth feature file was derived.
    GenerateFeature6,
    /// `0x0D`: the library was checked for the same finger.
    Repeatfingerprint,
    /// `0x0E`: the feature files were merged.
    MergeFeature,
    /// `0x0F`: the template was stored.
    StorageTemplate,
}

impl AutoEnrollStep {
    /// The byte that stands for this value on the wire.
    pub open spec fn byte(self) -> u8 {
        match self {
            AutoEnrollStep::CollectImage1 => 0x01,
            AutoEnrollStep::GenerateFeature1 => 0x02,
            AutoEnrollStep::CollectImage2 => 0x03,
            AutoEnrollStep::GenerateFeature2 => 0x04,
            AutoEnrollStep::CollectImage3 => 0x05,
            AutoEnrollStep::GenerateFeature3 => 0x06,
            AutoEnrollStep::CollectImage4 => 0x07,
            AutoEnrollStep::GenerateFeature4 => 0x08,
            AutoEnrollStep::CollectImage5 => 0x09,
            AutoEnrollStep::GenerateFeature5 => 0x0A,
            AutoEnrollStep::CollectImage6 => 0x0B,
            AutoEnrollStep::GenerateFeature6 => 0x0C,
            AutoEnrollStep::Repeatfingerprint => 0x0D,
            AutoEnrollStep::MergeFeature => 0x0E,
            AutoEnrollStep::StorageTemplate => 0x0F,
        }
    }

    /// The value that `b` stands for, if any.
    pub open spec fn of_byte(b: u8) -> Option<Self> {
        if b == 0x01 {
            Some(AutoEnrollStep::CollectImage1)
        } else if b == 0x02 {
            Some(AutoEnrollStep::GenerateFeature1)
        } else if b == 0x03 {
            Some(AutoEnrollStep::CollectImage2)
        } else if b == 0x04 {
            Some(AutoEnrollStep::GenerateFeature2)
        } else if b == 0x05 {
            Some(AutoEnrollStep::CollectImage3)
        } else if b == 0x06 {
            Some(AutoEnrollStep::GenerateFeature3)
        } else if b == 0x07 {
            Some(AutoEnrollStep::CollectImage4)
        } else if b == 0x08 {
            Some(AutoEnrollStep::GenerateFeature4)
        } else if b == 0x09 {
            Some(AutoEnrollStep::CollectImage5)
        } else if b == 0x0A {
            Some(AutoEnrollStep::GenerateFeature5)
        } else if b == 0x0B {
            Some(AutoEnrollStep::CollectImage6)
        } else if b == 0x0C {
            Some(AutoEnrollStep::GenerateFeature6)
        } else if b == 0x0D {
            Some(AutoEnrollStep::Repeatfingerprint)
        } else if b == 0x0E {
            Some(AutoEnrollStep::MergeFeature)
        } else if b == 0x0F {
            Some(AutoEnrollStep::StorageTemplate)
        } else {
            None
        }
    }

    /// The byte that stands for this value on the wire.
    pub fn to_byte(self) -> (b: u8)
        ensures
            b == self.byte(),
    {
        match self {
            AutoEnrollStep::CollectImage1 => 0x01,
            AutoEnrollStep::GenerateFeature1 => 0x02,
            AutoEnrollStep::CollectImage2 => 0x03,
            AutoEnrollStep::GenerateFeature2 => 0x04,
            AutoEnrollStep::CollectImage3 => 0x05,
            AutoEnrollStep::GenerateFeature3 => 0x06,
            AutoEnrollStep::CollectImage4 => 0x07,
            AutoEnrollStep::GenerateFeature4 => 0x08,
            AutoEnrollStep::CollectImage5 => 0x09,
            AutoEnrollStep::GenerateFeature5 => 0x0A,
            AutoEnrollStep::CollectImage6 => 0x0B,
            AutoEnrollStep::GenerateFeature6 => 0x0C,
            AutoEnrollStep::Repeatfingerprint => 0x0D,
            AutoEnrollStep::MergeFeature => 0x0E,
            AutoEnrollStep::StorageTemplate => 0x0F,
        }
    }

    /// The value that `b` stands for, if any.
    pub fn from_byte(b: u8) -> (value: Option<Self>)
        ensures
            value == Self::of_byte(b),
    {
        match b {
            0x01 => Some(AutoEnrollStep::CollectImage1),
            0x02 => Some(AutoEnrollStep::GenerateFeature1),
            0x03 => Some(AutoEnrollStep::CollectImage2),
            0x04 => Some(AutoEnrollStep::GenerateFeature2),
            0x05 => Some(AutoEnrollStep::CollectImage3),
            0x06 => Some(AutoEnrollStep::GenerateFeature3),
            0x07 => Some(AutoEnrollStep::CollectImage4),
            0x08 => Some(AutoEnrollStep::GenerateFeature4),
            0x09 => Some(AutoEnrollStep::CollectImage5),
            0x0A => Some(AutoEnrollStep::GenerateFeature5),
            0x0B => Some(AutoEnrollStep::CollectImage6),
            0x0C => Some(AutoEnrollStep::GenerateFeature6),
            0x0D => Some(AutoEnrollStep::Repeatfingerprint),
            0x0E => Some(AutoEnrollStep::MergeFeature),
            0x0F => Some(AutoEnrollStep::StorageTemplate),
            _ => None,
        }
    }

    /// Decoding the byte of a value gives the value again.
    pub proof fn lemma_byte_round_trip(self)
        ensures
            Self::of_byte(self.byte()) == Some(self),
    {
    }

    /// A byte stands for at most one value, and that value for the byte.
    pub proof fn lemma_of_byte_exact(b: u8)
        ensures
            Self::of_byte(b) matches Some(value) ==> value.byte() == b,
    {
    }
}

impl From<AutoEnrollStep> for u8 {
    fn from(value: AutoEnrollStep) -> (b: u8) {
        value.to_byte()
    }
}

impl FromSpecImpl<AutoEnrollStep> for u8 {
    open spec fn obeys_from_spec() -> bool {
        true
    }

    open spec fn from_spec(value: AutoEnrollStep) -> u8 {
        value.byte()
    }
}

impl TryFrom<u8> for AutoEnrollStep {
    type Error = u8;

    fn try_from(value: u8) -> (r: Result<Self, u8>) {
        match Self::from_byte(value) {
            Some(v) => Ok(v),
            None => Err(value),
        }
    }
}

impl TryFromSpecImpl<u8> for AutoEnrollStep {
    open spec fn obeys_try_from_spec() -> bool {
        true
    }

    open spec fn try_from_spec(value: u8) -> Result<Self, u8> {
        match Self::of_byte(value) {
            Some(v) => Ok(v),
            None => Err(value),
        }
    }
}

impl ToWire for AutoEnrollStep {
    open spec fn wire(&self) -> Seq<u8> {
        seq![self.byte()]
    }

    fn size_on_wire(&self) -> (n: usize) {
        1
    }

    fn to_wire(&self, serial: &mut Serial, cksm: Option<&mut Checksum>) {
        self.to_byte().to_wire(serial, cksm)
    }
}

impl FromWire for AutoEnrollStep {
    open spec fn wire_len() -> nat {
        1
    }

    open spec fn decode(bytes: Seq<u8>) -> Option<Self> {
        Self::of_byte(bytes[0])
    }

    fn from_wire(serial: &mut Serial, cksm: Option<&mut Checksum>) -> (r: Result<Self, Error>) {
        match u8::from_wire(serial, cksm) {
            Ok(val) => match Self::from_byte(val) {
                Some(v) => Ok(v),
                None => Err(Error::IncorrectData),
            },
            Err(e) => Err(e),
        }
    }
}

/// The phase that an acknowledge of an automatic identification reports.
#[derive(Clone, Copy, Debug, PartialEq, Eq, Structural)]
pub enum AutoIdentifyStep {
    /// `0x01`: the image was collected.
    CollectImage,
    /// `0x02`: the feature file was derived.
    GenerateFeature,
    /// `0x03`: the library was searched.
    Search,
}

impl AutoIdentifyStep {
    /// The byte that stands for this value on the wire.
    pub open spec fn byte(self) -> u8 {
        match self {
            AutoIdentifyStep::CollectImage => 0x01,
            AutoIdentifyStep::GenerateFeature => 0x02,
            AutoIdentifyStep::Search => 0x03,
        }
    }

    /// The value that `b` stands for, if any.
    pub open spec fn of_byte(b: u8) -> Option<Self> {
        if b == 0x01 {
            Some(AutoIdentifyStep::CollectImage)
        } else if b == 0x02 {
            Some(AutoIdentifyStep::GenerateFeature)
        } else if b == 0x03 {
            Some(AutoIdentifyStep::Search)
        } else {
            None
        }
    }

    /// The byte that stands for this value on the wire.
    pub fn to_byte(self) -> (b: u8)
        ensures
            b == self.byte(),
    {
        match self {
            AutoIdentifyStep::CollectImage => 0x01,
            AutoIdentifyStep::GenerateFeature => 0x02,
            AutoIdentifyStep::Search => 0x03,
        }
    }

    /// The value that `b` stands for, if any.
    pub fn from_byte(b: u8) -> (value: Option<Self>)
        ensures
            value == Self::of_byte(b),
    {
        match b {
            0x01 => Some(AutoIdentifyStep::CollectImage),
            0x02 => Some(AutoIdentifyStep::GenerateFeature),
            0x03 => Some(AutoIdentifyStep::Search),
            _ => None,
        }
    }

    /// Decoding the byte of a value gives the value again.
    pub proof fn lemma_byte_round_trip(self)
        ensures
            Self::of_byte(self.byte()) == Some(self),
    {
    }

    /// A byte stands for at most one value, and that value for the byte.
    pub proof fn lemma_of_byte_exact(b: u8)
        ensures
            Self::of_byte(b) matches Some(value) ==> value.byte() == b,
    {
    }
}

impl From<AutoIdentifyStep> for u8 {
    fn from(value: AutoIdentifyStep) -> (b: u8) {
        value.to_byte()
    }
}

impl FromSpecImpl<AutoIdentifyStep> for u8 {
    open spec fn obeys_from_spec() -> bool {
        true
    }

    open spec fn from_spec(value: AutoIdentifyStep) -> u8 {
        value.byte()
    }
}

impl TryFrom<u8> for AutoIdentifyStep {
    type Error = u8;

    fn try_from(value: u8) -> (r: Result<Self, u8>) {
        match Self::from_byte(value) {
            Some(v) => Ok(v),
            None => Err(value),
        }
    }
}

impl TryFromSpecImpl<u8> for AutoIdentifyStep {
    open spec fn obeys_try_from_spec() -> bool {
        true
    }

    open spec fn try_from_spec(value: u8) -> Result<Self, u8> {
        match Self::of_byte(value) {
            Some(v) => Ok(v),
            None => Err(value),
        }
    }
}

impl ToWire for AutoIdentifyStep {
    open spec fn wire(&self) -> Seq<u8> {
        seq![self.byte()]
    }

    fn size_on_wire(&self) -> (n: usize) {
        1
    }

    fn to_wire(&self, serial: &mut Serial, cksm: Option<&mut Checksum>) {
        self.to_byte().to_wire(serial, cksm)
    }
}

impl FromWire for AutoIdentifyStep {
    open spec fn wire_len() -> nat {
        1
    }

    open spec fn decode(bytes: Seq<u8>) -> Option<Self> {
        Self::of_byte(bytes[0])
    }

    fn from_wire(serial: &mut Serial, cksm: Option<&mut Checksum>) -> (r: Result<Self, Error>) {
        match u8::from_wire(serial, cksm) {
            Ok(val) => match Self::from_byte(val) {
                Some(v) => Ok(v),
                None => Err(Error::IncorrectData),
            },
            Err(e) => Err(e),
        }
    }
}

/// What the LED ring does.
#[derive(Clone, Copy, Debug, PartialEq, Eq, Structural)]
pub enum AuraControlCode {
    /// `0x01`
    Breathing,
    /// `0x02`
    Flashing,
    /// `0x03`
    AlwaysOn,
    /// `0x04`
    AlwaysOff,
    /// `0x05`
    GraduallyOn,
    /// `0x06`
    GraduallyOff,
}

impl AuraControlCode {
    /// The byte that stands for this value on the wire.
    pub open spec fn byte(self) -> u8 {
        match self {
            AuraControlCode::Breathing => 0x01,
            AuraControlCode::Flashing => 0x02,
            AuraControlCode::AlwaysOn => 0x03,
            AuraControlCode::AlwaysOff => 0x04,
            AuraControlCode::GraduallyOn => 0x05,
            AuraControlCode::GraduallyOff => 0x06,
        }
    }

    /// The value that `b` stands for, if any.
    pub open spec fn of_byte(b: u8) -> Option<Self> {
        if b == 0x01 {
            Some(AuraControlCode::Breathing)
        } else if b == 0x02 {
            Some(AuraControlCode::Flashing)
        } else if b == 0x03 {
            Some(AuraControlCode::AlwaysOn)
        } else if b == 0x04 {
            Some(AuraControlCode::AlwaysOff)
        } else if b == 0x05 {
            Some(AuraControlCode::GraduallyOn)
        } else if b == 0x06 {
            Some(AuraControlCode::GraduallyOff)
        } else {
            None
        }
    }

    /// The byte that stands for this value on the wire.
    pub fn to_byte(self) -> (b: u8)
        ensures
            b == self.byte(),
    {
        match self {
            AuraControlCode::Breathing => 0x01,
            AuraControlCode::Flashing => 0x02,
            AuraControlCode::AlwaysOn => 0x03,
            AuraControlCode::AlwaysOff => 0x04,
            AuraControlCode::GraduallyOn => 0x05,
            AuraControlCode::GraduallyOff => 0x06,
        }
    }

    /// The value that `b` stands for, if any.
    pub fn from_byte(b: u8) -> (value: Option<Self>)
        ensures
            value == Self::of_byte(b),
    {
        match b {
            0x01 => Some(AuraControlCode::Breathing),
            0x02 => Some(AuraControlCode::Flashing),
            0x03 => Some(AuraControlCode::AlwaysOn),
            0x04 => Some(AuraControlCode::AlwaysOff),
            0x05 => Some(AuraControlCode::GraduallyOn),
            0x06 => Some(AuraControlCode::GraduallyOff),
            _ => None,
        }
    }

    /// Decoding the byte of a value gives the value again.
    pub proof fn lemma_byte_round_trip(self)
        ensures
            Self::of_byte(self.byte()) == Some(self),
    {
    }

    /// A byte stands for at most one value, and that value for the byte.
    pub proof fn lemma_of_byte_exact(b: u8)
        ensures
            Self::of_byte(b) matches Some(value) ==> value.byte() == b,
    {
    }
}

impl From<AuraControlCode> for u8 {
    fn from(value: AuraControlCode) -> (b: u8) {
        value.to_byte()
    }
}

impl FromSpecImpl<AuraControlCode> for u8 {
    open spec fn obeys_from_spec() -> bool {
        true
    }

    open spec fn from_spec(value: AuraControlCode) -> u8 {
        value.byte()
    }
}

impl TryFrom<u8> for AuraControlCode {
    type Error = u8;

    fn try_from(value: u8) -> (r: Result<Self, u8>) {
        match Self::from_byte(value) {
            Some(v) => Ok(v),
            None => Err(value),
        }
    }
}

impl TryFromSpecImpl<u8> for AuraControlCode {
    open spec fn obeys_try_from_spec() -> bool {
        true
    }

    open spec fn try_from_spec(value: u8) -> Result<Self, u8> {
        match Self::of_byte(value) {
            Some(v) => Ok(v),
            None => Err(value),
        }
    }
}

impl ToWire for AuraControlCode {
    open spec fn wire(&self) -> Seq<u8> {
        seq![self.byte()]
    }

    fn size_on_wire(&self) -> (n: usize) {
        1
    }

    fn to_wire(&self, serial: &mut Serial, cksm: Option<&mut Checksum>) {
        self.to_byte().to_wire(serial, cksm)
    }
}

impl FromWire for AuraControlCode {
    open spec fn wire_len() -> nat {
        1
    }

    open spec fn decode(bytes: Seq<u8>) -> Option<Self> {
        Self::of_byte(bytes[0])
    }

    fn from_wire(serial: &mut Serial, cksm: Option<&mut Checksum>) -> (r: Result<Self, Error>) {
        match u8::from_wire(serial, cksm) {
            Ok(val) => match Self::from_byte(val) {
                Some(v) => Ok(v),
                None => Err(Error::IncorrectData),
            },
            Err(e) => Err(e),
        }
    }
}

/// The colour of the LED ring.
#[derive(Clone, Copy, Debug, PartialEq, Eq, Structural)]
pub enum AuraColorIndex {
    /// `0x01`
    Red,
    /// `0x02`
    Blue,
    /// `0x03`
    Purple,
    /// `0x04`
    Green,
    /// `0x05`
    Yellow,
    /// `0x06`
    Cyan,
    /// `0x07`
    White,
}

impl AuraColorIndex {
    /// The byte that stands for this value on the wire.
    pub open spec fn byte(self) -> u8 {
        match self {
            AuraColorIndex::Red => 0x01,
            AuraColorIndex::Blue => 0x02,
            AuraColorIndex::Purple => 0x03,
            AuraColorIndex::Green => 0x04,
            AuraColorIndex::Yellow => 0x05,
            AuraColorIndex::Cyan => 0x06,
            AuraColorIndex::White => 0x07,
        }
    }

    /// The value that `b` stands for, if any.
    pub open spec fn of_byte(b: u8) -> Option<Self> {
        if b == 0x01 {
            Some(AuraColorIndex::Red)
        } else if b == 0x02 {
            Some(AuraColorIndex::Blue)
        } else if b == 0x03 {
            Some(AuraColorIndex::Purple)
        } else if b == 0x04 {
            Some(AuraColorIndex::Green)
        } else if b == 0x05 {
            Some(AuraColorIndex::Yellow)
        } else if b == 0x06 {
            Some(AuraColorIndex::Cyan)
        } else if b == 0x07 {
            Some(AuraColorIndex::White)
        } else {
            None
        }
    }

    /// The byte that stands for this value on the wire.
    pub fn to_byte(self) -> (b: u8)
        ensures
            b == self.byte(),
    {
        match self {
            AuraColorIndex::Red => 0x01,
            AuraColorIndex::Blue => 0x02,
            AuraColorIndex::Purple => 0x03,
            AuraColorIndex::Green => 0x04,
            AuraColorIndex::Yellow => 0x05,
            AuraColorIndex::Cyan => 0x06,
            AuraColorIndex::White => 0x07,
        }
    }

    /// The value that `b` stands for, if any.
    pub fn from_byte(b: u8) -> (value: Option<Self>)
        ensures
            value == Self::of_byte(b),
    {
        match b {
            0x01 => Some(AuraColorIndex::Red),
            0x02 => Some(AuraColorIndex::Blue),
            0x03 => Some(AuraColorIndex::Purple),
            0x04 => Some(AuraColorIndex::Green),
            0x05 => Some(AuraColorIndex::Yellow),
            0x06 => Some(AuraColorIndex::Cyan),
            0x07 => Some(AuraColorIndex::White),
            _ => None,
        }
    }

    /// Decoding the byte of a value gives the value again.
    pub proof fn lemma_byte_round_trip(self)
        ensures
            Self::of_byte(self.byte()) == Some(self),
    {
    }

    /// A byte stands for at most one value, and that value for the byte.
    pub proof fn lemma_of_byte_exact(b: u8)
        ensures
            Self::of_byte(b) matches Some(value) ==> value.byte() == b,
    {
    }
}

impl From<AuraColorIndex> for u8 {
    fn from(value: AuraColorIndex) -> (b: u8) {
        value.to_byte()
    }
}

impl FromSpecImpl<AuraColorIndex> for u8 {
    open spec fn obeys_from_spec() -> bool {
        true
    }

    open spec fn from_spec(value: AuraColorIndex) -> u8 {
        value.byte()
    }
}

impl TryFrom<u8> for AuraColorIndex {
    type Error = u8;

    fn try_from(value: u8) -> (r: Result<Self, u8>) {
        match Self::from_byte(value) {
            Some(v) => Ok(v),
            None => Err(value),
        }
    }
}

impl TryFromSpecImpl<u8> for AuraColorIndex {
    open spec fn obeys_try_from_spec() -> bool {
        true
    }

    open spec fn try_from_spec(value: u8) -> Result<Self, u8> {
        match Self::of_byte(value) {
            Some(v) => Ok(v),
            None => Err(value),
        }
    }
}

impl ToWire for AuraColorIndex {
    open spec fn wire(&self) -> Seq<u8> {
        seq![self.byte()]
    }

    fn size_on_wire(&self) -> (n: usize) {
        1
    }

    fn to_wire(&self, serial: &mut Serial, cksm: Option<&mut Checksum>) {
        self.to_byte().to_wire(serial, cksm)
    }
}

impl FromWire for AuraColorIndex {
    open spec fn wire_len() -> nat {
        1
    }

    open spec fn decode(bytes: Seq<u8>) -> Option<Self> {
        Self::of_byte(bytes[0])
    }

    fn from_wire(serial: &mut Serial, cksm: Option<&mut Checksum>) -> (r: Result<Self, Error>) {
        match u8::from_wire(serial, cksm) {
            Ok(val) => match Self::from_byte(val) {
                Some(v) => Ok(v),
                None => Err(Error::IncorrectData),
            },
            Err(e) => Err(e),
        }
    }
}

/// How fast the LED ring changes: the device's own unit, from 0 to 255.
pub type AuraSpeed = u8;

/// How many times the LED ring repeats its cycle.
#[derive(Clone, Copy, Debug, PartialEq, Eq, Structural)]
pub enum AuraCycleCount {
    /// Until told otherwise: `0x00` on the wire.
    Infinite,
    /// This many times: the number itself on the wire.
    Times(u8),
}

impl AuraCycleCount {
    /// The byte that stands for this count on the wire.
    pub open spec fn byte(self) -> u8 {
        match self {
            AuraCycleCount::Infinite => 0,
            AuraCycleCount::Times(n) => n,
        }
    }
}

impl ToWire for AuraCycleCount {
    open spec fn wire(&self) -> Seq<u8> {
        seq![self.byte()]
    }

    fn size_on_wire(&self) -> (n: usize) {
        1
    }

    fn to_wire(&self, serial: &mut Serial, cksm: Option<&mut Checksum>) {
        let value: u8 = match self {
            AuraCycleCount::Infinite => 0,
            AuraCycleCount::Times(n) => *n,
        };
        value.to_wire(serial, cksm)
    }
}

/// The body of the command that drives the LED ring.
#[derive(Clone, Copy, Debug, PartialEq, Eq, Structural)]
pub struct AuraControlPayload {
    pub ctrl_code: AuraControlCode,
    pub speed: AuraSpeed,
    pub color: AuraColorIndex,
    pub count: AuraCycleCount,
}

impl ToWire for AuraControlPayload {
    open spec fn wire(&self) -> Seq<u8> {
        seq![self.ctrl_code.byte(), self.speed, self.color.byte(), self.count.byte()]
    }

    fn size_on_wire(&self) -> (n: usize) {
        4
    }

    fn to_wire(&self, serial: &mut Serial, cksm: Option<&mut Checksum>) {
        let data = [
            self.ctrl_code.to_byte(),
            self.speed,
            self.color.to_byte(),
            match self.count {
                AuraCycleCount::Infinite => 0,
                AuraCycleCount::Times(n) => n,
            },
        ];
        proof {
            assert(data@ =~= self.wire());
        }
        data.as_slice().to_wire(serial, cksm)
    }
}

/// How often an automatic identification may fail before the device gives up.
#[derive(Clone, Copy, Debug, PartialEq, Eq, Structural)]
pub enum AutoIdentCount {
    /// Never give up: `0x00` on the wire.
    Infinite,
    /// Give up after this many failures: the number itself on the wire.
    TimesWithTimeout(u8),
}

impl AutoIdentCount {
    /// The byte that stands for this count on the wire.
    pub open spec fn byte(self) -> u8 {
        match self {
            AutoIdentCount::Infinite => 0,
            AutoIdentCount::TimesWithTimeout(n) => n,
        }
    }

    /// The count that `b` stands for.
    pub open spec fn of_byte(b: u8) -> Self {
        if b == 0 {
            AutoIdentCount::Infinite
        } else {
            AutoIdentCount::TimesWithTimeout(b)
        }
    }

    /// The byte that stands for this count on the wire.
    pub fn to_byte(self) -> (b: u8)
        ensures
            b == self.byte(),
    {
        match self {
            AutoIdentCount::Infinite => 0,
            AutoIdentCount::TimesWithTimeout(n) => n,
        }
    }

    /// The count that `b` stands for.
    pub fn from_byte(b: u8) -> (count: Self)
        ensures
            count == Self::of_byte(b),
    {
        if b == 0 {
            AutoIdentCount::Infinite
        } else {
            AutoIdentCount::TimesWithTimeout(b)
        }
    }

    /// The count after one failure was spent, if any is left to spend.
    pub open spec fn spent(self) -> Option<AutoIdentCount> {
        match self {
            AutoIdentCount::Infinite => Some(AutoIdentCount::Infinite),
            AutoIdentCount::TimesWithTimeout(n) => if n == 0 {
                None
            } else {
                Some(AutoIdentCount::TimesWithTimeout((n - 1) as u8))
            },
        }
    }

    /// The count after one failure was spent, if any is left to spend.
    pub fn spend(self) -> (left: Option<AutoIdentCount>)
        ensures
            left == self.spent(),
    {
        match self {
            AutoIdentCount::Infinite => Some(AutoIdentCount::Infinite),
            AutoIdentCount::TimesWithTimeout(n) => if n == 0 {
                None
            } else {
                Some(AutoIdentCount::TimesWithTimeout(n - 1))
            },
        }
    }

    /// Decoding the byte of a count gives a count with the same byte.
    pub proof fn lemma_of_byte_exact(b: u8)
        ensures
            Self::of_byte(b).byte() == b,
    {
    }
}

impl From<AutoIdentCount> for u8 {
    fn from(value: AutoIdentCount) -> (b: u8) {
        value.to_byte()
    }
}

impl FromSpecImpl<AutoIdentCount> for u8 {
    open spec fn obeys_from_spec() -> bool {
        true
    }

    open spec fn from_spec(value: AutoIdentCount) -> u8 {
        value.byte()
    }
}

impl From<u8> for AutoIdentCount {
    fn from(value: u8) -> (count: AutoIdentCount) {
        AutoIdentCount::from_byte(value)
    }
}

impl FromSpecImpl<u8> for AutoIdentCount {
    open spec fn obeys_from_spec() -> bool {
        true
    }

    open spec fn from_spec(value: u8) -> AutoIdentCount {
        AutoIdentCount::of_byte(value)
    }
}


} // verus!
