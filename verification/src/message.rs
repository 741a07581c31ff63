//! Command messages: the 7-byte Pelco D frame and its constructors.

use crate::error::Error;
use crate::spec_checksum;
use vstd::prelude::*;

verus! {

/// Bit-set for the "command 1" word of a standard message.
#[derive(Clone, Copy, Debug, PartialEq, Eq, Structural)]
pub struct Command1 {
    pub bits: u8,
}

impl Command1 {
    /// Sense bit: selects the "on"/"auto" interpretation of the camera
    /// on/off and scan bits.
    pub fn sense() -> (r: Command1)
        ensures
            r.bits == 0x80,
    {
        Command1 { bits: 0x80 }
    }

    /// Auto scan (with [`Command1::sense`]) or manual scan (without).
    pub fn auto_manual_scan() -> (r: Command1)
        ensures
            r.bits == 0x10,
    {
        Command1 { bits: 0x10 }
    }

    /// Camera on (with [`Command1::sense`]) or off (without).
    pub fn camera_on_off() -> (r: Command1)
        ensures
            r.bits == 0x08,
    {
        Command1 { bits: 0x08 }
    }

    /// Close the iris.
    pub fn iris_close() -> (r: Command1)
        ensures
            r.bits == 0x04,
    {
        Command1 { bits: 0x04 }
    }

    /// Open the iris.
    pub fn iris_open() -> (r: Command1)
        ensures
            r.bits == 0x02,
    {
        Command1 { bits: 0x02 }
    }

    /// Focus nearer.
    pub fn focus_near() -> (r: Command1)
        ensures
            r.bits == 0x01,
    {
        Command1 { bits: 0x01 }
    }

    /// The empty bit-set.
    pub fn empty() -> (r: Command1)
        ensures
            r.bits == 0,
    {
        Command1 { bits: 0 }
    }

    /// The union of two bit-sets.
    pub fn or(self, other: Command1) -> (r: Command1)
        ensures
            r.bits == self.bits | other.bits,
    {
        Command1 { bits: self.bits | other.bits }
    }
}

/// Bit-set for the "command 2" word of a standard message.
#[derive(Clone, Copy, Debug, PartialEq, Eq, Structural)]
pub struct Command2 {
    pub bits: u8,
}

impl Command2 {
    /// Focus farther.
    pub fn focus_far() -> (r: Command2)
        ensures
            r.bits == 0x80,
    {
        Command2 { bits: 0x80 }
    }

    /// Zoom wide.
    pub fn zoom_wide() -> (r: Command2)
        ensures
            r.bits == 0x40,
    {
        Command2 { bits: 0x40 }
    }

    /// Zoom tele.
    pub fn zoom_tele() -> (r: Command2)
        ensures
            r.bits == 0x20,
    {
        Command2 { bits: 0x20 }
    }

    /// Tilt down.
    pub fn down() -> (r: Command2)
        ensures
            r.bits == 0x10,
    {
        Command2 { bits: 0x10 }
    }

    /// Tilt up.
    pub fn up() -> (r: Command2)
        ensures
            r.bits == 0x08,
    {
        Command2 { bits: 0x08 }
    }

    /// Pan left.
    pub fn left() -> (r: Command2)
        ensures
            r.bits == 0x04,
    {
        Command2 { bits: 0x04 }
    }

    /// Pan right.
    pub fn right() -> (r: Command2)
        ensures
            r.bits == 0x02,
    {
        Command2 { bits: 0x02 }
    }

    /// The empty bit-set.
    pub fn empty() -> (r: Command2)
        ensures
            r.bits == 0,
    {
        Command2 { bits: 0 }
    }

    /// The union of two bit-sets.
    pub fn or(self, other: Command2) -> (r: Command2)
        ensures
            r.bits == self.bits | other.bits,
    {
        Command2 { bits: self.bits | other.bits }
    }
}

/// Bit-set for the direction parameter. The bits are pre-located at their
/// "command 2" positions, so a direction merges into [`Command2`] by a plain
/// bitwise or, without shifting.
#[derive(Clone, Copy, Debug, PartialEq, Eq, Structural)]
pub struct Direction {
    pub bits: u8,
}

impl Direction {
    /// Tilt down.
    pub fn down() -> (r: Direction)
        ensures
            r.bits == 0x10,
    {
        Direction { bits: 0x10 }
    }

    /// Tilt up.
    pub fn up() -> (r: Direction)
        ensures
            r.bits == 0x08,
    {
        Direction { bits: 0x08 }
    }

    /// Pan left.
    pub fn left() -> (r: Direction)
        ensures
            r.bits == 0x04,
    {
        Direction { bits: 0x04 }
    }

    /// Pan right.
    pub fn right() -> (r: Direction)
        ensures
            r.bits == 0x02,
    {
        Direction { bits: 0x02 }
    }

    /// The empty bit-set.
    pub fn empty() -> (r: Direction)
        ensures
            r.bits == 0,
    {
        Direction { bits: 0 }
    }

    /// The union of two bit-sets.
    pub fn or(self, other: Direction) -> (r: Direction)
        ensures
            r.bits == self.bits | other.bits,
    {
        Direction { bits: self.bits | other.bits }
    }
}

/// Argument type for zoom speed.
#[derive(Clone, Copy, Debug, PartialEq)]
pub enum ZoomSpeed {
    Slow,
    Medium,
    High,
    Highest,
}

impl ZoomSpeed {
    /// The protocol code of the speed.
    pub open spec fn spec_code(self) -> u8 {
        match self {
            ZoomSpeed::Slow => 0,
            ZoomSpeed::Medium => 1,
            ZoomSpeed::High => 2,
            ZoomSpeed::Highest => 3,
        }
    }

    /// The protocol code of the speed.
    #[verifier::when_used_as_spec(spec_code)]
    pub fn code(self) -> (r: u8)
        ensures
            r == self.spec_code(),
    {
        match self {
            ZoomSpeed::Slow => 0,
            ZoomSpeed::Medium => 1,
            ZoomSpeed::High => 2,
            ZoomSpeed::Highest => 3,
        }
    }
}

/// Argument type for focus speed.
#[derive(Clone, Copy, Debug, PartialEq)]
pub enum FocusSpeed {
    Slow,
    Medium,
    High,
    Highest,
}

impl FocusSpeed {
    /// The protocol code of the speed.
    pub open spec fn spec_code(self) -> u8 {
        match self {
            FocusSpeed::Slow => 0,
            FocusSpeed::Medium => 1,
            FocusSpeed::High => 2,
            FocusSpeed::Highest => 3,
        }
    }

    /// The protocol code of the speed.
    #[verifier::when_used_as_spec(spec_code)]
    pub fn code(self) -> (r: u8)
        ensures
            r == self.spec_code(),
    {
        match self {
            FocusSpeed::Slow => 0,
            FocusSpeed::Medium => 1,
            FocusSpeed::High => 2,
            FocusSpeed::Highest => 3,
        }
    }
}

/// Argument type for auto/off control.
#[derive(Clone, Copy, Debug, PartialEq)]
pub enum AutoCtrl {
    Auto,
    Off,
}

impl AutoCtrl {
    /// The protocol code of the control value.
    pub open spec fn spec_code(self) -> u8 {
        match self {
            AutoCtrl::Auto => 0,
            AutoCtrl::Off => 1,
        }
    }

    /// The protocol code of the control value.
    #[verifier::when_used_as_spec(spec_code)]
    pub fn code(self) -> (r: u8)
        ensures
            r == self.spec_code(),
    {
        match self {
            AutoCtrl::Auto => 0,
            AutoCtrl::Off => 1,
        }
    }
}

/// On/off argument type.
#[derive(Clone, Copy, Debug, PartialEq)]
pub enum OnOff {
    On,
    Off,
    /// Manual value for specific devices like Spectra IV.
    Value(u8),
}

/// Argument type for shutter speed.
///
/// Bytes can be given directly with `Bytes`. The other variants are provided
/// for convenience, but should be used in accordance with the target device's
/// capabilities.
#[derive(Clone, Copy, Debug, PartialEq)]
pub enum ShutterSpeed {
    /// Manual bytes input (data byte 1, data byte 2).
    Bytes(u8, u8),
    /// Spectra II and older.
    DefaultValue,
    /// Spectra II and older.
    Increment,
    /// Spectra II and older.
    Decrement,
    /// Spectra II and older.
    PAL,
    /// Spectra II and older.
    NTSC,
    /// Spectra II and older.
    Value(u16),
    /// Spectra III and newer.
    AutoShutter,
    /// Spectra III and newer.
    Index(u8),
}

impl ShutterSpeed {
    /// The two data bytes encoding the shutter speed; a `Value` is serialized
    /// big-endian.
    pub open spec fn spec_data_bytes(self) -> (u8, u8) {
        match self {
            ShutterSpeed::Bytes(d1, d2) => (d1, d2),
            ShutterSpeed::DefaultValue => (0, 0),
            ShutterSpeed::Increment => (0, 1),
            ShutterSpeed::Decrement => (0, 2),
            ShutterSpeed::PAL => (0, 50),
            ShutterSpeed::NTSC => (0, 60),
            ShutterSpeed::Value(secs) => (((secs as int) / 256) as u8, (secs % 256) as u8),
            ShutterSpeed::AutoShutter => (0, 0),
            ShutterSpeed::Index(idx) => (0, idx),
        }
    }
}

/// Argument type for the value adjustment commands: either a new absolute
/// value or a signed delta.
#[derive(Clone, Copy, Debug, PartialEq)]
pub enum AdjustmentValue {
    New(u16),
    Delta(i16),
}

impl AdjustmentValue {
    /// The leading byte distinguishing absolute mode from delta mode.
    pub open spec fn spec_mode_byte(self) -> u8 {
        match self {
            AdjustmentValue::New(_) => 0,
            AdjustmentValue::Delta(_) => 1,
        }
    }

    /// The two data bytes: the value in big-endian order, a delta in two's
    /// complement.
    pub open spec fn spec_data_bytes(self) -> (u8, u8) {
        match self {
            AdjustmentValue::New(value) => (((value as int) / 256) as u8, (value % 256) as u8),
            AdjustmentValue::Delta(value) => (
                (((value as u16) as int) / 256) as u8,
                ((value as u16) % 256) as u8,
            ),
        }
    }
}

/// The bytes of a complete frame: the sync byte, the address, the four
/// command/data words, and the checksum over everything but the sync byte.
pub open spec fn spec_frame(address: u8, word1: u8, word2: u8, word3: u8, word4: u8) -> Seq<u8> {
    let body = seq![address, word1, word2, word3, word4];
    seq![0xFFu8] + body + seq![spec_checksum(body)]
}

/// A well-formed frame: exactly 7 bytes, the fixed sync byte in front, and a
/// checksum byte that matches the six bytes before it.
pub open spec fn spec_frame_well_formed(s: Seq<u8>) -> bool {
    &&& s.len() == 7
    &&& s[0] == 0xFF
    &&& s[6] == spec_checksum(s.subrange(1, 6))
}

/// Every frame the constructors assemble is well-formed: the checksum byte is
/// never stale relative to the other six bytes.
pub proof fn lemma_spec_frame_well_formed(address: u8, word1: u8, word2: u8, word3: u8, word4: u8)
    ensures
        spec_frame_well_formed(spec_frame(address, word1, word2, word3, word4)),
{
    let s = spec_frame(address, word1, word2, word3, word4);
    assert(s.subrange(1, 6) =~= seq![address, word1, word2, word3, word4]);
}

/// Single command message.
///
/// There are several ways to build a message:
///
///  * The main constructor [`Message::new`] for "standard" messages.
///
///  * The builder pattern with [`MessageBuilder`].
///
///  * The convenience constructors provided for each "extended" command.
///
///  * [`Message::from_bytes`] takes the address and the four raw words, and
///    fills the sync byte and checksum.
///
///  * Full control over all seven bytes is possible with the `From<[u8; 7]>`
///    conversion.
///
/// The bytes of a message can be read with [`Message::as_bytes`].
#[derive(Clone, Copy, Debug, PartialEq)]
pub struct Message([u8; 7]);

impl View for Message {
    type V = Seq<u8>;

    closed spec fn view(&self) -> Seq<u8> {
        self.0@
    }
}

impl Message {
    /// The message holding exactly the seven bytes of the array, checksum
    /// byte included, none recomputed.
    pub closed spec fn spec_from_array(array: [u8; 7]) -> Message {
        Message(array)
    }

    /// New "standard" command message. This constructor cannot be used for
    /// "extended" commands, for which dedicated constructors or
    /// [`Message::from_bytes`] should be used.
    pub fn new(address: u8, cmd1: Command1, cmd2: Command2, data1: u8, data2: u8) -> (r: Message)
        ensures
            r@ == spec_frame(address, cmd1.bits, cmd2.bits, data1, data2),
    {
        Message::from_words(address, cmd1.bits, cmd2.bits, data1, data2)
    }

    /// Alternate constructor taking the four raw words to insert in the
    /// message. The sync byte and checksum are filled automatically.
    pub fn from_bytes(address: u8, words: [u8; 4]) -> (r: Message)
        ensures
            r@ == spec_frame(address, words[0], words[1], words[2], words[3]),
    {
        Message::from_words(address, words[0], words[1], words[2], words[3])
    }

    /// Common frame assembly: sync byte, address, the four words, and the
    /// checksum over bytes 1 to 5.
    fn from_words(address: u8, word1: u8, word2: u8, word3: u8, word4: u8) -> (r: Message)
        ensures
            r@ == spec_frame(address, word1, word2, word3, word4),
    {
        let body: [u8; 5] = [address, word1, word2, word3, word4];
        let ck = crate::checksum(body.as_slice());
        let msg = Message([0xFF, address, word1, word2, word3, word4, ck]);
        proof {
            assert(body@ =~= seq![address, word1, word2, word3, word4]);
            assert(msg@ =~= spec_frame(address, word1, word2, word3, word4));
        }
        msg
    }

    /// The seven bytes of the message.
    pub fn as_bytes(&self) -> (r: &[u8; 7])
        ensures
            r@ == self@,
    {
        &self.0
    }

    /// The message holding exactly the bytes of the slice, which must be 7
    /// bytes long; any other length is rejected with an error naming the
    /// expected size.
    pub fn try_from_bytes(value: &[u8]) -> (r: Result<Message, Error>)
        ensures
            value@.len() == 7 <==> r is Ok,
            r matches Ok(m) ==> m@ == value@,
            r matches Err(e) ==> e == Error::InvalidValue(
                "The slice must contain exactly 7 bytes",
                Some(value@.len() as usize),
            ),
    {
        if value.len() == 7 {
            let msg = Message(
                [value[0], value[1], value[2], value[3], value[4], value[5], value[6]],
            );
            proof {
                assert(msg@ =~= value@);
            }
            Ok(msg)
        } else {
            Err(Error::InvalidValue("The slice must contain exactly 7 bytes", Some(value.len())))
        }
    }
}

impl From<[u8; 7]> for Message {
    /// Create a message by specifying all seven bytes manually. No checksum
    /// is recomputed: the array is taken as it stands.
    fn from(array: [u8; 7]) -> (r: Message)
        ensures
            r == Message::spec_from_array(array),
    {
        Message(array)
    }
}

impl vstd::std_specs::convert::FromSpecImpl<[u8; 7]> for Message {
    open spec fn obeys_from_spec() -> bool {
        true
    }

    open spec fn from_spec(array: [u8; 7]) -> Message {
        Message::spec_from_array(array)
    }
}

/// Converting a 7-byte array to a message and reading the message's bytes
/// yields the original array unchanged.
pub proof fn lemma_frame_round_trip(array: [u8; 7])
    ensures
        Message::spec_from_array(array)@ == array@,
{
}

/// The frame of the "set preset" command.
pub open spec fn spec_set_preset(address: u8, preset_id: u8) -> Seq<u8> {
    spec_frame(address, 0x00, 0x03, 0x00, preset_id)
}

/// The frame of the "clear preset" command.
pub open spec fn spec_clear_preset(address: u8, preset_id: u8) -> Seq<u8> {
    spec_frame(address, 0x00, 0x05, 0x00, preset_id)
}

/// The frame of the "go to preset" command.
pub open spec fn spec_go_to_preset(address: u8, preset_id: u8) -> Seq<u8> {
    spec_frame(address, 0x00, 0x07, 0x00, preset_id)
}

/// The frame of the special preset "rotate 180 degrees".
pub open spec fn spec_flip_180(address: u8) -> Seq<u8> {
    spec_frame(address, 0x00, 0x07, 0x00, 0x21)
}

/// The frame of the special preset "go to zero pan".
pub open spec fn spec_go_to_zero_pan(address: u8) -> Seq<u8> {
    spec_frame(address, 0x00, 0x07, 0x00, 0x22)
}

fn arg_error(description: &'static str) -> (r: Error)
    ensures
        r == Error::InvalidValue(description, None::<usize>),
{
    Error::InvalidValue(description, None)
}

fn validate_preset_id(idx: u8) -> (r: Result<(), Error>)
    ensures
        idx != 0 <==> r is Ok,
        r matches Err(e) ==> e == Error::InvalidValue("Invalid Preset ID", None::<usize>),
{
    if idx != 0x00 {
        Ok(())
    } else {
        Err(arg_error("Invalid Preset ID"))
    }
}

// Extended command constructors.
impl Message {
    /// Set Preset. An error is returned if `preset_id` is 0 (the value is
    /// reserved), but special values (like "flip 180") are not checked.
    pub fn set_preset(address: u8, preset_id: u8) -> (r: Result<Message, Error>)
        ensures
            preset_id != 0 <==> r is Ok,
            r matches Ok(m) ==> m@ == spec_set_preset(address, preset_id),
            r matches Err(e) ==> e == Error::InvalidValue("Invalid Preset ID", None::<usize>),
    {
        match validate_preset_id(preset_id) {
            Ok(_) => Ok(Message::from_bytes(address, [0x00, 0x03, 0x00, preset_id])),
            Err(e) => Err(e),
        }
    }

    /// Clear Preset. An error is returned if `preset_id` is 0.
    pub fn clear_preset(address: u8, preset_id: u8) -> (r: Result<Message, Error>)
        ensures
            preset_id != 0 <==> r is Ok,
            r matches Ok(m) ==> m@ == spec_clear_preset(address, preset_id),
            r matches Err(e) ==> e == Error::InvalidValue("Invalid Preset ID", None::<usize>),
    {
        match validate_preset_id(preset_id) {
            Ok(_) => Ok(Message::from_bytes(address, [0x00, 0x05, 0x00, preset_id])),
            Err(e) => Err(e),
        }
    }

    /// Call Preset. An error is returned if `preset_id` is 0.
    pub fn go_to_preset(address: u8, preset_id: u8) -> (r: Result<Message, Error>)
        ensures
            preset_id != 0 <==> r is Ok,
            r matches Ok(m) ==> m@ == spec_go_to_preset(address, preset_id),
            r matches Err(e) ==> e == Error::InvalidValue("Invalid Preset ID", None::<usize>),
    {
        match validate_preset_id(preset_id) {
            Ok(_) => Ok(Message::from_bytes(address, [0x00, 0x07, 0x00, preset_id])),
            Err(e) => Err(e),
        }
    }

    /// Call the special preset "rotate 180 degrees".
    pub fn flip_180(address: u8) -> (r: Result<Message, Error>)
        ensures
            r is Ok,
            r matches Ok(m) ==> m@ == spec_flip_180(address),
    {
        Ok(Message::from_bytes(address, [0x00, 0x07, 0x00, 0x21]))
    }

    /// Call the special preset "go to zero pan".
    pub fn go_to_zero_pan(address: u8) -> (r: Result<Message, Error>)
        ensures
            r is Ok,
            r matches Ok(m) ==> m@ == spec_go_to_zero_pan(address),
    {
        Ok(Message::from_bytes(address, [0x00, 0x07, 0x00, 0x22]))
    }

    /// Set Auxiliary. No particular check is done on the arguments.
    pub fn set_auxiliary(address: u8, sub_opcode: u8, aux_id: u8) -> (r: Result<Message, Error>)
        ensures
            r is Ok,
            r matches Ok(m) ==> m@ == spec_frame(address, sub_opcode, 0x09, 0x00, aux_id),
    {
        Ok(Message::from_bytes(address, [sub_opcode, 0x09, 0x00, aux_id]))
    }

    /// Clear Auxiliary. No particular check is done on the arguments.
    pub fn clear_auxiliary(address: u8, sub_opcode: u8, aux_id: u8) -> (r: Result<Message, Error>)
        ensures
            r is Ok,
            r matches Ok(m) ==> m@ == spec_frame(address, sub_opcode, 0x0B, 0x00, aux_id),
    {
        Ok(Message::from_bytes(address, [sub_opcode, 0x0B, 0x00, aux_id]))
    }

    /// Remote Reset.
    pub fn remote_reset(address: u8) -> (r: Result<Message, Error>)
        ensures
            r is Ok,
            r matches Ok(m) ==> m@ == spec_frame(address, 0x00, 0x0F, 0x00, 0x00),
    {
        Ok(Message::from_bytes(address, [0x00, 0x0F, 0x00, 0x00]))
    }

    /// Set Zone Start.
    pub fn set_zone_start(address: u8, zone_id: u8) -> (r: Result<Message, Error>)
        ensures
            r is Ok,
            r matches Ok(m) ==> m@ == spec_frame(address, 0x00, 0x11, 0x00, zone_id),
    {
        Ok(Message::from_bytes(address, [0x00, 0x11, 0x00, zone_id]))
    }

    /// Set Zone End.
    pub fn set_zone_end(address: u8, zone_id: u8) -> (r: Result<Message, Error>)
        ensures
            r is Ok,
            r matches Ok(m) ==> m@ == spec_frame(address, 0x00, 0x13, 0x00, zone_id),
    {
        Ok(Message::from_bytes(address, [0x00, 0x13, 0x00, zone_id]))
    }

    /// Write Character To Screen. Only 7-bit ASCII code points are
    /// representable in the one data byte; any other character is rejected.
    pub fn write_char_to_screen(address: u8, column: u8, character: char) -> (r: Result<
        Message,
        Error,
    >)
        ensures
            (character as u32) < 128 <==> r is Ok,
            r matches Ok(m) ==> m@ == spec_frame(address, 0x00, 0x15, column, character as u8),
            r matches Err(e) ==> e == Error::InvalidValue("Invalid ASCII character", None::<usize>),
    {
        let code = character as u32;
        if code < 128 {
            let ascii = code as u8;
            Ok(Message::from_bytes(address, [0x00, 0x15, column, ascii]))
        } else {
            Err(arg_error("Invalid ASCII character"))
        }
    }

    /// Clear Screen.
    pub fn clear_screen(address: u8) -> (r: Result<Message, Error>)
        ensures
            r is Ok,
            r matches Ok(m) ==> m@ == spec_frame(address, 0x00, 0x17, 0x00, 0x00),
    {
        Ok(Message::from_bytes(address, [0x00, 0x17, 0x00, 0x00]))
    }

    /// Alarm Acknowledge.
    pub fn alarm_acknowledge(address: u8, alarm_no: u8) -> (r: Result<Message, Error>)
        ensures
            r is Ok,
            r matches Ok(m) ==> m@ == spec_frame(address, 0x00, 0x19, 0x00, alarm_no),
    {
        Ok(Message::from_bytes(address, [0x00, 0x19, 0x00, alarm_no]))
    }

    /// Zone Scan On.
    pub fn zone_scan_on(address: u8) -> (r: Result<Message, Error>)
        ensures
            r is Ok,
            r matches Ok(m) ==> m@ == spec_frame(address, 0x00, 0x1B, 0x00, 0x00),
    {
        Ok(Message::from_bytes(address, [0x00, 0x1B, 0x00, 0x00]))
    }

    /// Zone Scan Off.
    pub fn zone_scan_off(address: u8) -> (r: Result<Message, Error>)
        ensures
            r is Ok,
            r matches Ok(m) ==> m@ == spec_frame(address, 0x00, 0x1D, 0x00, 0x00),
    {
        Ok(Message::from_bytes(address, [0x00, 0x1D, 0x00, 0x00]))
    }

    /// Record Pattern Start.
    pub fn set_pattern_start(address: u8, pattern_id: u8) -> (r: Result<Message, Error>)
        ensures
            r is Ok,
            r matches Ok(m) ==> m@ == spec_frame(address, 0x00, 0x1F, 0x00, pattern_id),
    {
        Ok(Message::from_bytes(address, [0x00, 0x1F, 0x00, pattern_id]))
    }

    /// Record Pattern End.
    pub fn set_pattern_stop(address: u8, pattern_id: u8) -> (r: Result<Message, Error>)
        ensures
            r is Ok,
            r matches Ok(m) ==> m@ == spec_frame(address, 0x00, 0x21, 0x00, pattern_id),
    {
        Ok(Message::from_bytes(address, [0x00, 0x21, 0x00, pattern_id]))
    }

    /// Run Pattern.
    pub fn run_pattern(address: u8, pattern_id: u8) -> (r: Result<Message, Error>)
        ensures
            r is Ok,
            r matches Ok(m) ==> m@ == spec_frame(address, 0x00, 0x23, 0x00, pattern_id),
    {
        Ok(Message::from_bytes(address, [0x00, 0x23, 0x00, pattern_id]))
    }

    /// Set Zoom Speed.
    pub fn set_zoom_speed(address: u8, speed: ZoomSpeed) -> (r: Result<Message, Error>)
        ensures
            r is Ok,
            r matches Ok(m) ==> m@ == spec_frame(address, 0x00, 0x25, 0x00, speed.spec_code()),
    {
        Ok(Message::from_bytes(address, [0x00, 0x25, 0x00, speed.code()]))
    }

    /// Set Focus Speed.
    pub fn set_focus_speed(address: u8, speed: FocusSpeed) -> (r: Result<Message, Error>)
        ensures
            r is Ok,
            r matches Ok(m) ==> m@ == spec_frame(address, 0x00, 0x27, 0x00, speed.spec_code()),
    {
        Ok(Message::from_bytes(address, [0x00, 0x27, 0x00, speed.code()]))
    }

    /// Reset Camera to Defaults.
    pub fn reset_camera_to_defaults(address: u8) -> (r: Result<Message, Error>)
        ensures
            r is Ok,
            r matches Ok(m) ==> m@ == spec_frame(address, 0x00, 0x29, 0x00, 0x00),
    {
        Ok(Message::from_bytes(address, [0x00, 0x29, 0x00, 0x00]))
    }

    /// Auto Focus.
    pub fn auto_focus(address: u8, ctrl: AutoCtrl) -> (r: Result<Message, Error>)
        ensures
            r is Ok,
            r matches Ok(m) ==> m@ == spec_frame(address, 0x00, 0x2B, 0x00, ctrl.spec_code()),
    {
        Ok(Message::from_bytes(address, [0x00, 0x2B, 0x00, ctrl.code()]))
    }

    /// Auto Iris.
    pub fn auto_iris(address: u8, cmd: AutoCtrl) -> (r: Result<Message, Error>)
        ensures
            r is Ok,
            r matches Ok(m) ==> m@ == spec_frame(address, 0x00, 0x2D, 0x00, cmd.spec_code()),
    {
        Ok(Message::from_bytes(address, [0x00, 0x2D, 0x00, cmd.code()]))
    }

    /// Automatic Gain Control.
    pub fn agc(address: u8, cmd: AutoCtrl) -> (r: Result<Message, Error>)
        ensures
            r is Ok,
            r matches Ok(m) ==> m@ == spec_frame(address, 0x00, 0x2F, 0x00, cmd.spec_code()),
    {
        Ok(Message::from_bytes(address, [0x00, 0x2F, 0x00, cmd.code()]))
    }

    /// Backlight Compensation.
    pub fn backlight_compensation(address: u8, ctrl: OnOff) -> (r: Result<Message, Error>)
        ensures
            r is Ok,
            r matches Ok(m) ==> m@ == spec_frame(
                address,
                0x00,
                0x31,
                0x00,
                (match ctrl {
                    OnOff::On => 2u8,
                    OnOff::Off => 1u8,
                    OnOff::Value(x) => x,
                }),
            ),
    {
        let code = match ctrl {
            OnOff::On => 2,
            OnOff::Off => 1,
            OnOff::Value(x) => x,
        };
        Ok(Message::from_bytes(address, [0x00, 0x31, 0x00, code]))
    }

    /// Auto White Balance.
    pub fn auto_white_balance(address: u8, ctrl: OnOff) -> (r: Result<Message, Error>)
        ensures
            r is Ok,
            r matches Ok(m) ==> m@ == spec_frame(
                address,
                0x00,
                0x33,
                0x00,
                (match ctrl {
                    OnOff::On => 1u8,
                    OnOff::Off => 2u8,
                    OnOff::Value(x) => x,
                }),
            ),
    {
        let code = match ctrl {
            OnOff::On => 1,
            OnOff::Off => 2,
            OnOff::Value(x) => x,
        };
        Ok(Message::from_bytes(address, [0x00, 0x33, 0x00, code]))
    }

    /// Enable Device Phase Delay Mode.
    pub fn enable_device_phase_delay_mode(address: u8) -> (r: Result<Message, Error>)
        ensures
            r is Ok,
            r matches Ok(m) ==> m@ == spec_frame(address, 0x00, 0x35, 0x00, 0x00),
    {
        Ok(Message::from_bytes(address, [0x00, 0x35, 0x00, 0x00]))
    }

    /// Set Shutter Speed.
    pub fn set_shutter_speed(address: u8, ctrl: ShutterSpeed) -> (r: Result<Message, Error>)
        ensures
            r is Ok,
            r matches Ok(m) ==> m@ == spec_frame(
                address,
                0x00,
                0x37,
                ctrl.spec_data_bytes().0,
                ctrl.spec_data_bytes().1,
            ),
    {
        let (data1, data2): (u8, u8) = match ctrl {
            ShutterSpeed::Bytes(d1, d2) => (d1, d2),
            ShutterSpeed::DefaultValue => (0, 0),
            ShutterSpeed::Increment => (0, 1),
            ShutterSpeed::Decrement => (0, 2),
            ShutterSpeed::PAL => (0, 50),
            ShutterSpeed::NTSC => (0, 60),
            ShutterSpeed::Value(secs) => ((secs / 256) as u8, (secs % 256) as u8),
            ShutterSpeed::AutoShutter => (0, 0),
            ShutterSpeed::Index(idx) => (0, idx),
        };
        Ok(Message::from_bytes(address, [0x00, 0x37, data1, data2]))
    }

    /// Common constructor of the adjustment commands: the leading word
    /// selects absolute or delta mode, the data bytes carry the value
    /// big-endian.
    fn adjust(address: u8, opcode: u8, ctrl: AdjustmentValue) -> (r: Result<Message, Error>)
        ensures
            r is Ok,
            r matches Ok(m) ==> m@ == spec_frame(
                address,
                ctrl.spec_mode_byte(),
                opcode,
                ctrl.spec_data_bytes().0,
                ctrl.spec_data_bytes().1,
            ),
    {
        let (mode, data1, data2): (u8, u8, u8) = match ctrl {
            AdjustmentValue::New(value) => (0, (value / 256) as u8, (value % 256) as u8),
            AdjustmentValue::Delta(value) => {
                let bits = value as u16;
                (1, (bits / 256) as u8, (bits % 256) as u8)
            },
        };
        Ok(Message::from_bytes(address, [mode, opcode, data1, data2]))
    }

    /// Adjust Line Lock Phase Delay.
    pub fn adjust_line_lock_phase_delay(address: u8, ctrl: AdjustmentValue) -> (r: Result<
        Message,
        Error,
    >)
        ensures
            r is Ok,
            r matches Ok(m) ==> m@ == spec_frame(
                address,
                ctrl.spec_mode_byte(),
                0x39,
                ctrl.spec_data_bytes().0,
                ctrl.spec_data_bytes().1,
            ),
    {
        Message::adjust(address, 0x39, ctrl)
    }

    /// Adjust White Balance (R-B).
    pub fn adjust_white_balance_rb(address: u8, ctrl: AdjustmentValue) -> (r: Result<
        Message,
        Error,
    >)
        ensures
            r is Ok,
            r matches Ok(m) ==> m@ == spec_frame(
                address,
                ctrl.spec_mode_byte(),
                0x3B,
                ctrl.spec_data_bytes().0,
                ctrl.spec_data_bytes().1,
            ),
    {
        Message::adjust(address, 0x3B, ctrl)
    }

    /// Adjust White Balance (M-G).
    pub fn adjust_white_balance_mg(address: u8, ctrl: AdjustmentValue) -> (r: Result<
        Message,
        Error,
    >)
        ensures
            r is Ok,
            r matches Ok(m) ==> m@ == spec_frame(
                address,
                ctrl.spec_mode_byte(),
                0x3D,
                ctrl.spec_data_bytes().0,
                ctrl.spec_data_bytes().1,
            ),
    {
        Message::adjust(address, 0x3D, ctrl)
    }

    /// Adjust Gain.
    pub fn adjust_gain(address: u8, ctrl: AdjustmentValue) -> (r: Result<Message, Error>)
        ensures
            r is Ok,
            r matches Ok(m) ==> m@ == spec_frame(
                address,
                ctrl.spec_mode_byte(),
                0x3F,
                ctrl.spec_data_bytes().0,
                ctrl.spec_data_bytes().1,
            ),
    {
        Message::adjust(address, 0x3F, ctrl)
    }

    /// Adjust Auto-Iris Level.
    pub fn adjust_auto_iris_level(address: u8, ctrl: AdjustmentValue) -> (r: Result<
        Message,
        Error,
    >)
        ensures
            r is Ok,
            r matches Ok(m) ==> m@ == spec_frame(
                address,
                ctrl.spec_mode_byte(),
                0x41,
                ctrl.spec_data_bytes().0,
                ctrl.spec_data_bytes().1,
            ),
    {
        Message::adjust(address, 0x41, ctrl)
    }

    /// Adjust Auto-Iris Peak Value.
    pub fn adjust_auto_iris_peak(address: u8, ctrl: AdjustmentValue) -> (r: Result<
        Message,
        Error,
    >)
        ensures
            r is Ok,
            r matches Ok(m) ==> m@ == spec_frame(
                address,
                ctrl.spec_mode_byte(),
                0x43,
                ctrl.spec_data_bytes().0,
                ctrl.spec_data_bytes().1,
            ),
    {
        Message::adjust(address, 0x43, ctrl)
    }

    /// Query. The message is addressed to the broadcast address 0.
    pub fn query() -> (r: Result<Message, Error>)
        ensures
            r is Ok,
            r matches Ok(m) ==> m@ == spec_frame(0, 0x00, 0x45, 0x00, 0x00),
    {
        Ok(Message::from_bytes(0, [0x00, 0x45, 0x00, 0x00]))
    }
}

/// For every address, calling the "go to preset" command with the reserved
/// id 0x21 produces exactly the "flip 180 degrees" frame.
pub proof fn lemma_go_to_preset_flip_180(address: u8)
    ensures
        spec_go_to_preset(address, 0x21) == spec_flip_180(address),
{
}

/// For every address, calling the "go to preset" command with the reserved
/// id 0x22 produces exactly the "go to zero pan" frame.
pub proof fn lemma_go_to_preset_zero_pan(address: u8)
    ensures
        spec_go_to_preset(address, 0x22) == spec_go_to_zero_pan(address),
{
}

/// Builder of "standard" [`Message`] instances.
///
/// The provided methods fill the draft with the corresponding bits, then
/// [`MessageBuilder::finalize`] produces the final message. Every field has a
/// zero default, so finalization always succeeds.
///
/// The command bits accumulate by bitwise or only: calling
/// [`MessageBuilder::camera_off`] after [`MessageBuilder::camera_on`] leaves
/// both bits set, since `camera_off` does not clear the sense bit. This is an
/// inherent property of the bitmask-accumulation design, not a defect;
/// [`MessageBuilder::stop`] resets all four words at once.
#[derive(Clone, Copy, Debug, PartialEq)]
pub struct MessageBuilder {
    pub address: u8,
    pub cmd1: Command1,
    pub cmd2: Command2,
    pub data1: u8,
    pub data2: u8,
}

impl MessageBuilder {
    /// A fresh draft addressed to `address`, all words zero.
    pub open spec fn spec_new(address: u8) -> MessageBuilder {
        MessageBuilder {
            address,
            cmd1: Command1 { bits: 0 },
            cmd2: Command2 { bits: 0 },
            data1: 0,
            data2: 0,
        }
    }

    /// A fresh draft addressed to `address`, all words zero.
    pub fn new(address: u8) -> (r: MessageBuilder)
        ensures
            r == MessageBuilder::spec_new(address),
    {
        MessageBuilder {
            address,
            cmd1: Command1::empty(),
            cmd2: Command2::empty(),
            data1: 0,
            data2: 0,
        }
    }

    /// The draft after merging a direction into the "command 2" word.
    pub open spec fn spec_direction(self, direction: Direction) -> MessageBuilder {
        MessageBuilder { cmd2: Command2 { bits: self.cmd2.bits | direction.bits }, ..self }
    }

    /// Merge the direction's bits into the "command 2" word. The direction
    /// bits are pre-located at their "command 2" positions, so this is a
    /// plain bitwise or.
    pub fn direction(self, direction: Direction) -> (r: MessageBuilder)
        ensures
            r == self.spec_direction(direction),
    {
        MessageBuilder { cmd2: Command2 { bits: self.cmd2.bits | direction.bits }, ..self }
    }

    /// Tilt down.
    pub fn down(self) -> (r: MessageBuilder)
        ensures
            r == self.spec_direction(Direction { bits: 0x10 }),
    {
        self.direction(Direction::down())
    }

    /// Tilt up.
    pub fn up(self) -> (r: MessageBuilder)
        ensures
            r == self.spec_direction(Direction { bits: 0x08 }),
    {
        self.direction(Direction::up())
    }

    /// Pan left.
    pub fn left(self) -> (r: MessageBuilder)
        ensures
            r == self.spec_direction(Direction { bits: 0x04 }),
    {
        self.direction(Direction::left())
    }

    /// Pan right.
    pub fn right(self) -> (r: MessageBuilder)
        ensures
            r == self.spec_direction(Direction { bits: 0x02 }),
    {
        self.direction(Direction::right())
    }

    /// The draft after setting the pan speed byte.
    pub open spec fn spec_pan(self, speed_byte: u8) -> MessageBuilder {
        MessageBuilder { data1: speed_byte, ..self }
    }

    /// Set the pan speed. The byte is a quantized speed: 0x00 to 0x3F from
    /// slowest to full speed, or the turbo sentinel 0xFF.
    pub fn pan(self, speed_byte: u8) -> (r: MessageBuilder)
        ensures
            r == self.spec_pan(speed_byte),
    {
        MessageBuilder { data1: speed_byte, ..self }
    }

    /// The draft after setting the tilt speed byte.
    pub open spec fn spec_tilt(self, speed_byte: u8) -> MessageBuilder {
        MessageBuilder { data2: speed_byte, ..self }
    }

    /// Set the tilt speed. The byte is a quantized speed: 0x00 to 0x3F from
    /// slowest to full speed.
    pub fn tilt(self, speed_byte: u8) -> (r: MessageBuilder)
        ensures
            r == self.spec_tilt(speed_byte),
    {
        MessageBuilder { data2: speed_byte, ..self }
    }

    /// The draft after resetting every word; only the address is preserved.
    pub open spec fn spec_stop(self) -> MessageBuilder {
        MessageBuilder::spec_new(self.address)
    }

    /// Reset both command words and both data bytes to zero; the address is
    /// preserved.
    pub fn stop(self) -> (r: MessageBuilder)
        ensures
            r == self.spec_stop(),
    {
        MessageBuilder {
            address: self.address,
            cmd1: Command1::empty(),
            cmd2: Command2::empty(),
            data1: 0,
            data2: 0,
        }
    }

    /// The draft after merging bits into the "command 2" word.
    pub open spec fn spec_or_cmd2(self, bits: u8) -> MessageBuilder {
        MessageBuilder { cmd2: Command2 { bits: self.cmd2.bits | bits }, ..self }
    }

    /// The draft after merging bits into the "command 1" word.
    pub open spec fn spec_or_cmd1(self, bits: u8) -> MessageBuilder {
        MessageBuilder { cmd1: Command1 { bits: self.cmd1.bits | bits }, ..self }
    }

    /// Zoom in.
    pub fn zoom_in(self) -> (r: MessageBuilder)
        ensures
            r == self.spec_or_cmd2(0x20),
    {
        MessageBuilder { cmd2: self.cmd2.or(Command2::zoom_tele()), ..self }
    }

    /// Zoom out.
    pub fn zoom_out(self) -> (r: MessageBuilder)
        ensures
            r == self.spec_or_cmd2(0x40),
    {
        MessageBuilder { cmd2: self.cmd2.or(Command2::zoom_wide()), ..self }
    }

    /// Turn the camera on: sets the sense and camera bits.
    pub fn camera_on(self) -> (r: MessageBuilder)
        ensures
            r == self.spec_or_cmd1(0x88),
    {
        proof {
            assert(0x80u8 | 0x08u8 == 0x88u8) by (bit_vector);
        }
        MessageBuilder { cmd1: self.cmd1.or(Command1::sense().or(Command1::camera_on_off())), ..self }
    }

    /// Turn the camera off: sets the camera bit alone. The sense bit is not
    /// cleared if a previous call set it.
    pub fn camera_off(self) -> (r: MessageBuilder)
        ensures
            r == self.spec_or_cmd1(0x08),
    {
        MessageBuilder { cmd1: self.cmd1.or(Command1::camera_on_off()), ..self }
    }

    /// Auto scan: sets the sense and scan bits.
    pub fn auto_scan(self) -> (r: MessageBuilder)
        ensures
            r == self.spec_or_cmd1(0x90),
    {
        proof {
            assert(0x80u8 | 0x10u8 == 0x90u8) by (bit_vector);
        }
        MessageBuilder { cmd1: self.cmd1.or(Command1::sense().or(Command1::auto_manual_scan())), ..self }
    }

    /// Manual scan: sets the scan bit alone.
    pub fn manual_scan(self) -> (r: MessageBuilder)
        ensures
            r == self.spec_or_cmd1(0x10),
    {
        MessageBuilder { cmd1: self.cmd1.or(Command1::auto_manual_scan()), ..self }
    }

    /// Close the iris.
    pub fn close_iris(self) -> (r: MessageBuilder)
        ensures
            r == self.spec_or_cmd1(0x04),
    {
        MessageBuilder { cmd1: self.cmd1.or(Command1::iris_close()), ..self }
    }

    /// Open the iris.
    pub fn open_iris(self) -> (r: MessageBuilder)
        ensures
            r == self.spec_or_cmd1(0x02),
    {
        MessageBuilder { cmd1: self.cmd1.or(Command1::iris_open()), ..self }
    }

    /// Focus farther.
    pub fn focus_far(self) -> (r: MessageBuilder)
        ensures
            r == self.spec_or_cmd2(0x80),
    {
        MessageBuilder { cmd2: self.cmd2.or(Command2::focus_far()), ..self }
    }

    /// Focus nearer.
    pub fn focus_near(self) -> (r: MessageBuilder)
        ensures
            r == self.spec_or_cmd1(0x01),
    {
        MessageBuilder { cmd1: self.cmd1.or(Command1::focus_near()), ..self }
    }

    /// The frame that finalizing the draft produces.
    pub open spec fn spec_finalize(self) -> Seq<u8> {
        spec_frame(self.address, self.cmd1.bits, self.cmd2.bits, self.data1, self.data2)
    }

    /// Produce the message for the draft's current state. Finalization
    /// always succeeds, and does not consume the draft: it may be called
    /// repeatedly, each call producing a fresh snapshot.
    pub fn finalize(self) -> (r: Result<Message, Error>)
        ensures
            r is Ok,
            r matches Ok(m) ==> m@ == self.spec_finalize(),
    {
        Ok(Message::new(self.address, self.cmd1, self.cmd2, self.data1, self.data2))
    }
}

/// Building a message incrementally — camera on, focus far, tilt down at a
/// given speed — produces exactly the frame of the direct constructor with
/// the sense, camera, focus-far and down bits and the same speed byte.
pub proof fn lemma_builder_matches_new(address: u8, tilt_byte: u8)
    ensures
        MessageBuilder::spec_new(address).spec_or_cmd1(0x88).spec_or_cmd2(0x80).spec_direction(
            Direction { bits: 0x10 },
        ).spec_tilt(tilt_byte).spec_finalize() == spec_frame(
            address,
            0x80u8 | 0x08u8,
            0x80u8 | 0x10u8,
            0x00,
            tilt_byte,
        ),
{
    assert(0u8 | 0x88u8 == 0x88u8) by (bit_vector);
    assert(0u8 | 0x80u8 == 0x80u8) by (bit_vector);
    assert(0x80u8 | 0x10u8 == 0x90u8) by (bit_vector);
    assert(0x80u8 | 0x08u8 == 0x88u8) by (bit_vector);
}

} // verus!
