//! The SPI command protocol codec: command identifiers, parameter lists, the
//! frame encoder for commands sent to the coprocessor, and the frame parser
//! for its responses.
//!
//! A command frame on the bus is laid out as
//!
//! ```text
//! START (0xE0)
//! command byte with the high bit cleared
//! parameter count (one byte)
//! for each parameter: a length prefix, then that many payload bytes
//! END (0xEE)
//! zero padding until the total length is a multiple of four
//! ```
//!
//! The length prefix is one byte, or a big-endian two-byte word for the
//! data-carrying socket commands; the choice is a whole-frame property held
//! by [`Params`]. A response frame echoes the command byte with the high bit
//! set, then its own parameters in the same shape, closed by END and without
//! padding.

pub mod extras;
pub mod network;
pub mod socket;
pub mod wifi;

use vstd::prelude::*;

use crate::chip_select::WifiNinaChipSelectError;
use crate::transport::{CountdownTimer, InputLine, OutputLine, SpiTransfer};
use crate::{Error, WifiNina};

verus! {

/// Token that opens every frame in either direction.
pub const START_TOKEN: u8 = 0xE0;

/// Token that closes every frame in either direction.
pub const END_TOKEN: u8 = 0xEE;

/// Token the chip sends in place of START when it rejects a command.
pub const ERROR_TOKEN: u8 = 0xEF;

/// The one-byte parameter value that acknowledges a command.
pub const ACK_BYTE: u8 = 0x01;

/// Set on the echoed command byte of every reply.
pub const REPLY_FLAG: u8 = 0x80;

/// The commands of the WiFiNINA firmware. Not all of them are driven by this
/// library, but the identifiers are kept complete.
#[derive(Debug, Copy, Clone)]
pub enum NinaCommand {
    /// Joins a Wi-Fi network without a password.
    SetNetwork,
    /// Joins a Wi-Fi network with a password.
    SetNetworkAndPassphrase,
    /// Same as SetNetworkAndPassphrase, but with a WEP-sized key buffer.
    SetKey,
    /// Creates an access point.
    SetApNetwork,
    /// Creates an access point with a password.
    SetApPassphrase,
    /// Enables or disables debug logging on the chip's UART.
    SetDebug,
    /// Returns the chip's temperature.
    GetTemperature,
    /// Returns a status byte about the Wi-Fi connection.
    GetConnectionStatus,
    /// Returns IP, netmask and gateway.
    GetIpAddress,
    /// Returns SSIDs for the networks the chip can see.
    ScanNetworks,
    /// Starts a TCP, UDP, or multicast UDP server on a port.
    StartServerTcp,
    /// Returns 1 if the socket is for a TCP server.
    GetStateTcp,
    /// No-op on the firmware side.
    DataSentTcp,
    /// On a client socket, the number of readable bytes; on a server socket,
    /// the socket number of a waiting client, or 255 when none waits.
    AvailableDataTcp,
    /// Peeks at or reads a single byte from a socket.
    GetDataTcp,
    /// Starts a network connection on a socket.
    StartClientTcp,
    /// Closes a client socket.
    StopClientTcp,
    /// Returns the TCP state of a client socket.
    GetClientStateTcp,
    /// Resolves a host name; returns 1 when an address was found.
    RequestHostByName,
    /// Returns the address found by the last RequestHostByName.
    GetHostByName,
    /// No-op on the firmware side.
    StartScanNetworks,
    /// Returns the firmware version string.
    GetFirmwareVersion,
    /// Queues data on a UDP socket for a later SendUdpData.
    InsertDatabuf,
    /// Sends the data queued on a UDP socket.
    SendUdpData,
    /// Pings a host, with a given TTL.
    Ping,
    /// Allocates a new socket number.
    GetSocket,
    /// Writes a stream of bytes to a TCP or TLS socket.
    SendDataTcp,
    /// Reads a requested number of bytes from a socket.
    GetDatabufTcp,
    /// Not implemented in the Adafruit firmware.
    SetEnterpriseCaCert,
    /// Not implemented in the Adafruit firmware.
    SetEnterpriseCertKey,
    /// Sets the mode of a pin on the chip.
    SetPinMode,
    /// Drives a pin on the chip digitally.
    SetDigitalWrite,
    /// Drives a pin on the chip with a duty cycle.
    SetAnalogWrite,
    /// Reads a pin on the chip digitally.
    SetDigitalRead,
    /// Reads a pin on the chip as an analog level.
    SetAnalogRead,
}

impl NinaCommand {
    /// The wire identifier of the command.
    pub open spec fn spec_byte(self) -> u8 {
        match self {
            NinaCommand::SetNetwork => 0x10,
            NinaCommand::SetNetworkAndPassphrase => 0x11,
            NinaCommand::SetKey => 0x12,
            NinaCommand::SetApNetwork => 0x18,
            NinaCommand::SetApPassphrase => 0x19,
            NinaCommand::SetDebug => 0x1A,
            NinaCommand::GetTemperature => 0x1B,
            NinaCommand::GetConnectionStatus => 0x20,
            NinaCommand::GetIpAddress => 0x21,
            NinaCommand::ScanNetworks => 0x27,
            NinaCommand::StartServerTcp => 0x28,
            NinaCommand::GetStateTcp => 0x29,
            NinaCommand::DataSentTcp => 0x2A,
            NinaCommand::AvailableDataTcp => 0x2B,
            NinaCommand::GetDataTcp => 0x2C,
            NinaCommand::StartClientTcp => 0x2D,
            NinaCommand::StopClientTcp => 0x2E,
            NinaCommand::GetClientStateTcp => 0x2F,
            NinaCommand::RequestHostByName => 0x34,
            NinaCommand::GetHostByName => 0x35,
            NinaCommand::StartScanNetworks => 0x36,
            NinaCommand::GetFirmwareVersion => 0x37,
            NinaCommand::SendUdpData => 0x39,
            NinaCommand::Ping => 0x3E,
            NinaCommand::GetSocket => 0x3F,
            NinaCommand::SendDataTcp => 0x44,
            NinaCommand::GetDatabufTcp => 0x45,
            NinaCommand::InsertDatabuf => 0x46,
            NinaCommand::SetEnterpriseCaCert => 0x4D,
            NinaCommand::SetEnterpriseCertKey => 0x4E,
            NinaCommand::SetPinMode => 0x50,
            NinaCommand::SetDigitalWrite => 0x51,
            NinaCommand::SetAnalogWrite => 0x52,
            NinaCommand::SetDigitalRead => 0x53,
            NinaCommand::SetAnalogRead => 0x54,
        }
    }

    /// The wire identifier of the command.
    pub fn byte(self) -> (r: u8)
        ensures
            r == self.spec_byte(),
    {
        match self {
            NinaCommand::SetNetwork => 0x10,
            NinaCommand::SetNetworkAndPassphrase => 0x11,
            NinaCommand::SetKey => 0x12,
            NinaCommand::SetApNetwork => 0x18,
            NinaCommand::SetApPassphrase => 0x19,
            NinaCommand::SetDebug => 0x1A,
            NinaCommand::GetTemperature => 0x1B,
            NinaCommand::GetConnectionStatus => 0x20,
            NinaCommand::GetIpAddress => 0x21,
            NinaCommand::ScanNetworks => 0x27,
            NinaCommand::StartServerTcp => 0x28,
            NinaCommand::GetStateTcp => 0x29,
            NinaCommand::DataSentTcp => 0x2A,
            NinaCommand::AvailableDataTcp => 0x2B,
            NinaCommand::GetDataTcp => 0x2C,
            NinaCommand::StartClientTcp => 0x2D,
            NinaCommand::StopClientTcp => 0x2E,
            NinaCommand::GetClientStateTcp => 0x2F,
            NinaCommand::RequestHostByName => 0x34,
            NinaCommand::GetHostByName => 0x35,
            NinaCommand::StartScanNetworks => 0x36,
            NinaCommand::GetFirmwareVersion => 0x37,
            NinaCommand::SendUdpData => 0x39,
            NinaCommand::Ping => 0x3E,
            NinaCommand::GetSocket => 0x3F,
            NinaCommand::SendDataTcp => 0x44,
            NinaCommand::GetDatabufTcp => 0x45,
            NinaCommand::InsertDatabuf => 0x46,
            NinaCommand::SetEnterpriseCaCert => 0x4D,
            NinaCommand::SetEnterpriseCertKey => 0x4E,
            NinaCommand::SetPinMode => 0x50,
            NinaCommand::SetDigitalWrite => 0x51,
            NinaCommand::SetAnalogWrite => 0x52,
            NinaCommand::SetDigitalRead => 0x53,
            NinaCommand::SetAnalogRead => 0x54,
        }
    }
}

/// A parameter of a command frame sent to the chip.
#[derive(Debug)]
pub enum SendParam {
    /// A single byte.
    Byte(u8),
    /// A word, sent big-endian (network order).
    Word(u16),
    /// A word, sent little-endian; the protocol differs command to command.
    LEWord(u16),
    /// An arbitrary byte string, such as an SSID or a data chunk.
    Bytes(Vec<u8>),
}

/// The expected shape of one parameter of a response frame.
#[derive(Debug, Copy, Clone)]
pub enum RecvParam {
    /// The parameter must be the single acknowledgement byte.
    Ack,
    /// A single byte.
    Byte,
    /// A single byte that the chip may omit at the tail of a response.
    OptionalByte,
    /// A word in big-endian (network) order.
    Word,
    /// A word in little-endian order.
    LEWord,
    /// Four raw bytes holding a little-endian 32-bit float.
    Float,
    /// Exactly this many bytes.
    ByteArray(usize),
    /// Any number of bytes; at most this many are kept, the rest of the
    /// parameter is drained off the bus and dropped.
    Buffer(usize),
}

/// A parameter received from the chip, shaped by the matching [`RecvParam`].
#[derive(Debug)]
pub enum RecvValue {
    /// The acknowledgement byte was present.
    Ack,
    /// A single byte.
    Byte(u8),
    /// A byte that the chip may omit; `None` when it did.
    OptionalByte(Option<u8>),
    /// A word read in big-endian (network) order.
    Word(u16),
    /// A word read in little-endian order.
    LEWord(u16),
    /// The four raw little-endian bytes of a 32-bit float.
    Float([u8; 4]),
    /// Exactly the expected number of bytes.
    ByteArray(Vec<u8>),
    /// The kept prefix of a variable-length parameter, and the full length
    /// the chip reported for it.
    Buffer(Vec<u8>, usize),
}

/// The mathematical shadow of [`RecvValue`], over sequences.
#[verifier::ext_equal]
pub enum RecvValueV {
    Ack,
    Byte(u8),
    OptionalByte(Option<u8>),
    Word(u16),
    LEWord(u16),
    Float(Seq<u8>),
    ByteArray(Seq<u8>),
    Buffer(Seq<u8>, int),
}

impl View for RecvValue {
    type V = RecvValueV;

    open spec fn view(&self) -> RecvValueV {
        match self {
            RecvValue::Ack => RecvValueV::Ack,
            RecvValue::Byte(b) => RecvValueV::Byte(*b),
            RecvValue::OptionalByte(o) => RecvValueV::OptionalByte(*o),
            RecvValue::Word(w) => RecvValueV::Word(*w),
            RecvValue::LEWord(w) => RecvValueV::LEWord(*w),
            RecvValue::Float(f) => RecvValueV::Float(f@),
            RecvValue::ByteArray(v) => RecvValueV::ByteArray(v@),
            RecvValue::Buffer(v, n) => RecvValueV::Buffer(v@, *n as int),
        }
    }
}

/// The elementwise view of a sequence of received values.
pub open spec fn rv_views(vs: Seq<RecvValue>) -> Seq<RecvValueV> {
    vs.map_values(|v: RecvValue| v@)
}

/// The parameter list of one frame, together with the frame-wide choice of
/// length-prefix width.
pub struct Params<P> {
    /// The parameters, in wire order.
    pub params: Vec<P>,
    /// True for the data-carrying socket commands, whose length prefixes are
    /// two-byte big-endian words instead of single bytes.
    pub use_16_bit_length: bool,
}

impl<P> Params<P> {
    /// An empty parameter list with one-byte length prefixes.
    pub fn none() -> (r: Self)
        ensures
            r.params@.len() == 0,
            !r.use_16_bit_length,
    {
        Params { params: Vec::new(), use_16_bit_length: false }
    }

    /// A parameter list with one-byte length prefixes.
    pub fn of(params: Vec<P>) -> (r: Self)
        ensures
            r.params == params,
            !r.use_16_bit_length,
    {
        Params { params, use_16_bit_length: false }
    }

    /// A parameter list with two-byte big-endian length prefixes.
    pub fn with_16_bit_length(params: Vec<P>) -> (r: Self)
        ensures
            r.params == params,
            r.use_16_bit_length,
    {
        Params { params, use_16_bit_length: true }
    }

    /// The number of parameters, as the one-byte count sent on the wire.
    pub fn len(&self) -> (r: u8)
        requires
            self.params@.len() <= 255,
        ensures
            r == self.params@.len(),
    {
        self.params.len() as u8
    }

    /// Whether the frame uses two-byte length prefixes.
    pub fn use_16_bit_length(&self) -> (r: bool)
        ensures
            r == self.use_16_bit_length,
    {
        self.use_16_bit_length
    }
}

/// The payload bytes of one send parameter, without its length prefix.
pub open spec fn spec_send_payload(p: SendParam) -> Seq<u8> {
    match p {
        SendParam::Byte(b) => seq![b],
        SendParam::Word(w) => seq![(w / 256) as u8, (w % 256) as u8],
        SendParam::LEWord(w) => seq![(w % 256) as u8, (w / 256) as u8],
        SendParam::Bytes(v) => v@,
    }
}

/// The length prefix that announces a parameter of `n` payload bytes.
pub open spec fn spec_len_prefix(use16: bool, n: int) -> Seq<u8> {
    if use16 {
        seq![(n / 256) as u8, (n % 256) as u8]
    } else {
        seq![n as u8]
    }
}

/// The number a length prefix decodes back to.
pub open spec fn spec_decode_len(use16: bool, s: Seq<u8>) -> int {
    if use16 {
        s[0] * 256 + s[1]
    } else {
        s[0] as int
    }
}

/// One parameter on the wire: length prefix, then payload.
pub open spec fn spec_param_block(p: SendParam, use16: bool) -> Seq<u8> {
    spec_len_prefix(use16, spec_send_payload(p).len() as int) + spec_send_payload(p)
}

/// All parameters of a frame on the wire, in order.
pub open spec fn spec_params_bytes(ps: Seq<SendParam>, use16: bool) -> Seq<u8>
    decreases ps.len(),
{
    if ps.len() == 0 {
        Seq::empty()
    } else {
        spec_params_bytes(ps.drop_last(), use16) + spec_param_block(ps.last(), use16)
    }
}

/// A command frame before padding: START, command byte, parameter count,
/// parameters, END.
pub open spec fn spec_frame_core(cmd: u8, ps: Seq<SendParam>, use16: bool) -> Seq<u8> {
    seq![START_TOKEN, cmd & 0x7F, ps.len() as u8] + spec_params_bytes(ps, use16) + seq![
        END_TOKEN,
    ]
}

/// How many zero bytes pad a frame of `n` bytes to a multiple of four.
pub open spec fn spec_pad_len(n: int) -> int {
    (4 - n % 4) % 4
}

/// A complete command frame as it goes onto the bus.
pub open spec fn spec_frame(cmd: u8, ps: Seq<SendParam>, use16: bool) -> Seq<u8> {
    let core = spec_frame_core(cmd, ps, use16);
    core + Seq::new(spec_pad_len(core.len() as int) as nat, |i: int| 0u8)
}

/// A parameter list the frame layout can carry: at most 255 parameters, each
/// with a payload its length prefix can announce.
pub open spec fn send_params_wf(ps: Seq<SendParam>, use16: bool) -> bool {
    &&& ps.len() <= 255
    &&& forall|i: int|
        0 <= i < ps.len() ==> spec_send_payload(#[trigger] ps[i]).len() < if use16 {
            65536int
        } else {
            256
        }
}

/// Frame alignment: every command frame is a multiple of four bytes long.
pub proof fn lemma_frame_alignment(cmd: u8, ps: Seq<SendParam>, use16: bool)
    ensures
        spec_frame(cmd, ps, use16).len() % 4 == 0,
{
    let n = spec_frame_core(cmd, ps, use16).len() as int;
    assert((n + (4 - n % 4) % 4) % 4 == 0) by (nonlinear_arith);
}

/// Length symmetry: the length prefix of an `n`-byte payload decodes back to
/// `n` under the same prefix width.
pub proof fn lemma_length_prefix_symmetry(use16: bool, n: int)
    requires
        0 <= n < if use16 {
            65536int
        } else {
            256
        },
    ensures
        spec_len_prefix(use16, n).len() == if use16 {
            2int
        } else {
            1
        },
        spec_decode_len(use16, spec_len_prefix(use16, n)) == n,
{
}

/// The outcome of parsing a response prefix: the parser needs more bytes,
/// fails with a protocol error, or is done having consumed `used` bytes.
#[verifier::ext_equal]
pub enum ParseOutcomeV {
    NeedMore,
    Fail(Error),
    Done { values: Seq<RecvValueV>, used: int },
}

/// The bytes a length prefix occupies.
pub open spec fn spec_prefix_width(use16: bool) -> int {
    if use16 {
        2
    } else {
        1
    }
}

/// The payload size a receive slot insists on, or None for a buffer slot,
/// which accepts any size.
pub open spec fn spec_expected_size(rp: RecvParam) -> Option<int> {
    match rp {
        RecvParam::Ack => Some(1),
        RecvParam::Byte => Some(1),
        RecvParam::OptionalByte => Some(1),
        RecvParam::Word => Some(2),
        RecvParam::LEWord => Some(2),
        RecvParam::Float => Some(4),
        RecvParam::ByteArray(n) => Some(n as int),
        RecvParam::Buffer(_) => None,
    }
}

/// A two-byte big-endian word.
pub open spec fn spec_be16(s: Seq<u8>) -> u16 {
    (s[0] * 256 + s[1]) as u16
}

/// A two-byte little-endian word.
pub open spec fn spec_le16(s: Seq<u8>) -> u16 {
    (s[1] * 256 + s[0]) as u16
}

/// The value a receive slot builds from its payload bytes.
pub open spec fn spec_slot_value(rp: RecvParam, payload: Seq<u8>) -> RecvValueV {
    match rp {
        RecvParam::Ack => RecvValueV::Ack,
        RecvParam::Byte => RecvValueV::Byte(payload[0]),
        RecvParam::OptionalByte => RecvValueV::OptionalByte(Some(payload[0])),
        RecvParam::Word => RecvValueV::Word(spec_be16(payload)),
        RecvParam::LEWord => RecvValueV::LEWord(spec_le16(payload)),
        RecvParam::Float => RecvValueV::Float(payload),
        RecvParam::ByteArray(_) => RecvValueV::ByteArray(payload),
        RecvParam::Buffer(cap) => RecvValueV::Buffer(
            if payload.len() <= cap {
                payload
            } else {
                payload.take(cap as int)
            },
            payload.len() as int,
        ),
    }
}

/// Prepends one parsed value, and the bytes it consumed, to the outcome of
/// parsing the remaining slots.
pub open spec fn spec_cons_outcome(v: RecvValueV, used0: int, rest: ParseOutcomeV) -> ParseOutcomeV {
    match rest {
        ParseOutcomeV::NeedMore => ParseOutcomeV::NeedMore,
        ParseOutcomeV::Fail(e) => ParseOutcomeV::Fail(e),
        ParseOutcomeV::Done { values, used } => ParseOutcomeV::Done {
            values: seq![v] + values,
            used: used0 + used,
        },
    }
}

/// Parses the parameter section of a response against the expected slots.
///
/// `idx` counts the parameters consumed so far and `count` is the parameter
/// count the chip announced; once `idx` reaches `count`, only optional
/// slots may remain, and they absorb nothing. A chip that announces more
/// parameters than there are slots is a protocol error.
pub open spec fn spec_parse_slots(
    use16: bool,
    specs: Seq<RecvParam>,
    idx: int,
    count: u8,
    s: Seq<u8>,
) -> ParseOutcomeV
    decreases specs.len(),
{
    if specs.len() == 0 {
        if count > idx {
            ParseOutcomeV::Fail(Error::UnexpectedParam(count))
        } else {
            ParseOutcomeV::Done { values: Seq::empty(), used: 0 }
        }
    } else if idx >= count {
        match specs[0] {
            RecvParam::OptionalByte => spec_cons_outcome(
                RecvValueV::OptionalByte(None),
                0,
                spec_parse_slots(use16, specs.drop_first(), idx, count, s),
            ),
            _ => ParseOutcomeV::Fail(Error::MissingParam(idx as u8)),
        }
    } else {
        let lp = spec_prefix_width(use16);
        if s.len() < lp {
            ParseOutcomeV::NeedMore
        } else {
            let len = spec_decode_len(use16, s);
            match spec_expected_size(specs[0]) {
                Some(exp) => if len != exp {
                    ParseOutcomeV::Fail(Error::MismatchedParamSize(exp as usize, len as usize))
                } else if s.len() < lp + len {
                    ParseOutcomeV::NeedMore
                } else if specs[0] is Ack && s[lp] != ACK_BYTE {
                    ParseOutcomeV::Fail(Error::UnexpectedResponse(ACK_BYTE, s[lp]))
                } else {
                    spec_cons_outcome(
                        spec_slot_value(specs[0], s.subrange(lp, lp + len)),
                        lp + len,
                        spec_parse_slots(
                            use16,
                            specs.drop_first(),
                            idx + 1,
                            count,
                            s.skip(lp + len),
                        ),
                    )
                },
                None => if s.len() < lp + len {
                    ParseOutcomeV::NeedMore
                } else {
                    spec_cons_outcome(
                        spec_slot_value(specs[0], s.subrange(lp, lp + len)),
                        lp + len,
                        spec_parse_slots(
                            use16,
                            specs.drop_first(),
                            idx + 1,
                            count,
                            s.skip(lp + len),
                        ),
                    )
                },
            }
        }
    }
}

/// Parses a whole response, starting at the byte after the START token:
/// the echoed command byte with the reply flag, the parameter count, the
/// parameters, and the closing END token.
pub open spec fn spec_parse_response(
    cmd: u8,
    use16: bool,
    specs: Seq<RecvParam>,
    s: Seq<u8>,
) -> ParseOutcomeV {
    if s.len() < 1 {
        ParseOutcomeV::NeedMore
    } else if s[0] != (cmd | REPLY_FLAG) {
        ParseOutcomeV::Fail(Error::UnexpectedResponse(cmd | REPLY_FLAG, s[0]))
    } else if s.len() < 2 {
        ParseOutcomeV::NeedMore
    } else {
        match spec_parse_slots(use16, specs, 0, s[1], s.skip(2)) {
            ParseOutcomeV::NeedMore => ParseOutcomeV::NeedMore,
            ParseOutcomeV::Fail(e) => ParseOutcomeV::Fail(e),
            ParseOutcomeV::Done { values, used } => {
                let p = 2 + used;
                if s.len() <= p {
                    ParseOutcomeV::NeedMore
                } else if s[p] != END_TOKEN {
                    ParseOutcomeV::Fail(Error::UnexpectedResponse(END_TOKEN, s[p]))
                } else {
                    ParseOutcomeV::Done { values, used: p + 1 }
                }
            },
        }
    }
}

/// Reply echo: whenever a response parses completely, its first byte is
/// exactly the command byte with the reply flag set.
pub proof fn lemma_reply_echo(cmd: u8, use16: bool, specs: Seq<RecvParam>, s: Seq<u8>)
    requires
        spec_parse_response(cmd, use16, specs, s) is Done,
    ensures
        s.len() > 0,
        s[0] == (cmd | REPLY_FLAG),
{
}

/// What a parsed value looks like when its slot asked for `rp`.
pub open spec fn value_matches_shape(v: RecvValueV, rp: RecvParam) -> bool {
    match rp {
        RecvParam::Ack => v is Ack,
        RecvParam::Byte => v is Byte,
        RecvParam::OptionalByte => v is OptionalByte,
        RecvParam::Word => v is Word,
        RecvParam::LEWord => v is LEWord,
        RecvParam::Float => v matches RecvValueV::Float(p) && p.len() == 4,
        RecvParam::ByteArray(n) => v matches RecvValueV::ByteArray(p) && p.len() == n,
        RecvParam::Buffer(cap) => v matches RecvValueV::Buffer(p, n) && p.len() <= cap && p.len()
            <= n,
    }
}

/// A completed parse hands back one value per expected slot, each shaped as
/// its slot asked.
pub open spec fn values_match_shapes(vs: Seq<RecvValueV>, specs: Seq<RecvParam>) -> bool {
    &&& vs.len() == specs.len()
    &&& forall|i: int| 0 <= i < vs.len() ==> value_matches_shape(vs[i], #[trigger] specs[i])
}

proof fn lemma_slots_shape(use16: bool, specs: Seq<RecvParam>, idx: int, count: u8, s: Seq<u8>)
    ensures
        spec_parse_slots(use16, specs, idx, count, s) matches ParseOutcomeV::Done { values, .. }
            ==> values_match_shapes(values, specs),
    decreases specs.len(),
{
    if specs.len() == 0 {
    } else if idx >= count {
        if specs[0] is OptionalByte {
            lemma_slots_shape(use16, specs.drop_first(), idx, count, s);
            if let ParseOutcomeV::Done { values: vrest, .. } = spec_parse_slots(
                use16,
                specs.drop_first(),
                idx,
                count,
                s,
            ) {
                let vs = seq![RecvValueV::OptionalByte(None)] + vrest;
                assert forall|i: int| 0 <= i < vs.len() implies value_matches_shape(
                    vs[i],
                    #[trigger] specs[i],
                ) by {
                    if i > 0 {
                        assert(vs[i] == vrest[i - 1]);
                        assert(specs[i] == specs.drop_first()[i - 1]);
                    }
                }
            }
        }
    } else {
        let lp = spec_prefix_width(use16);
        if s.len() >= lp {
            let len = spec_decode_len(use16, s);
            lemma_slots_shape(use16, specs.drop_first(), idx + 1, count, s.skip(lp + len));
            if let ParseOutcomeV::Done { values: vrest, .. } = spec_parse_slots(
                use16,
                specs.drop_first(),
                idx + 1,
                count,
                s.skip(lp + len),
            ) {
                if spec_parse_slots(use16, specs, idx, count, s) is Done {
                    let v = spec_slot_value(specs[0], s.subrange(lp, lp + len));
                    let vs = seq![v] + vrest;
                    assert(value_matches_shape(v, specs[0]));
                    assert forall|i: int| 0 <= i < vs.len() implies value_matches_shape(
                        vs[i],
                        #[trigger] specs[i],
                    ) by {
                        if i > 0 {
                            assert(vs[i] == vrest[i - 1]);
                            assert(specs[i] == specs.drop_first()[i - 1]);
                        }
                    }
                }
            }
        }
    }
}

/// A completed response parse yields exactly the expected slot shapes.
pub proof fn lemma_response_shape(cmd: u8, use16: bool, specs: Seq<RecvParam>, s: Seq<u8>)
    ensures
        spec_parse_response(cmd, use16, specs, s) matches ParseOutcomeV::Done { values, .. }
            ==> values_match_shapes(values, specs),
{
    if s.len() >= 2 {
        lemma_slots_shape(use16, specs, 0, s[1], s.skip(2));
    }
}

/// Drain on truncate: a variable-length slot whose incoming size `n`
/// exceeds the buffer capacity keeps only the first `cap` bytes, yet the
/// parse consumes the length prefix plus all `n` incoming bytes, so the
/// frame stays aligned behind it.
pub proof fn lemma_drain_on_truncate(use16: bool, cap: usize, s: Seq<u8>)
    requires
        spec_prefix_width(use16) <= s.len(),
        spec_decode_len(use16, s) > cap,
        spec_prefix_width(use16) + spec_decode_len(use16, s) <= s.len(),
    ensures
        ({
            let lp = spec_prefix_width(use16);
            let n = spec_decode_len(use16, s);
            spec_parse_slots(use16, seq![RecvParam::Buffer(cap)], 0, 1, s)
                == ParseOutcomeV::Done {
                values: seq![RecvValueV::Buffer(s.subrange(lp, lp + cap), n)],
                used: lp + n,
            }
        }),
{
    let lp = spec_prefix_width(use16);
    let n = spec_decode_len(use16, s);
    let payload = s.subrange(lp, lp + n);
    assert(payload.len() == n);
    assert(payload.take(cap as int) =~= s.subrange(lp, lp + cap));
    let specs: Seq<RecvParam> = seq![RecvParam::Buffer(cap)];
    assert(specs.drop_first() =~= Seq::<RecvParam>::empty());
    let rest = spec_parse_slots(use16, specs.drop_first(), 1, 1, s.skip(lp + n));
    assert(rest == ParseOutcomeV::Done { values: Seq::<RecvValueV>::empty(), used: 0 });
    let v = spec_slot_value(specs[0], payload);
    assert(v == RecvValueV::Buffer(s.subrange(lp, lp + cap), n));
    assert(spec_parse_slots(use16, specs, 0, 1, s) == spec_cons_outcome(v, lp + n, rest));
    assert(seq![v] + Seq::<RecvValueV>::empty() =~= seq![v]);
}

/// The payload bytes of one send parameter.
fn send_payload_len(p: &SendParam) -> (r: usize)
    ensures
        r == spec_send_payload(*p).len(),
{
    match p {
        SendParam::Byte(_) => 1,
        SendParam::Word(_) => 2,
        SendParam::LEWord(_) => 2,
        SendParam::Bytes(v) => v.len(),
    }
}

/// Encodes a command and its parameters into one padded frame, exactly the
/// bytes that go onto the bus.
#[verifier::rlimit(100)]
pub fn encode_frame(cmd: u8, params: &Params<SendParam>) -> (r: Vec<u8>)
    requires
        send_params_wf(params.params@, params.use_16_bit_length),
    ensures
        r@ == spec_frame(cmd, params.params@, params.use_16_bit_length),
{
    let use16 = params.use_16_bit_length;
    let ghost ps = params.params@;
    let mut v: Vec<u8> = Vec::new();
    v.push(START_TOKEN);
    v.push(cmd & 0x7F);
    v.push(params.len());
    let ghost header = seq![START_TOKEN, cmd & 0x7F, ps.len() as u8];
    assert(v@ =~= header + spec_params_bytes(ps.take(0), use16));
    let mut i: usize = 0;
    while i < params.params.len()
        invariant
            i <= ps.len(),
            ps == params.params@,
            use16 == params.use_16_bit_length,
            send_params_wf(ps, use16),
            header == seq![START_TOKEN, cmd & 0x7F, ps.len() as u8],
            v@ == header + spec_params_bytes(ps.take(i as int), use16),
        decreases ps.len() - i,
    {
        let p = &params.params[i];
        let plen = send_payload_len(p);
        if use16 {
            v.push((plen / 256) as u8);
            v.push((plen % 256) as u8);
        } else {
            v.push(plen as u8);
        }
        assert(v@ =~= header + spec_params_bytes(ps.take(i as int), use16) + spec_len_prefix(
            use16,
            plen as int,
        ));
        match p {
            SendParam::Byte(b) => { v.push(*b) },
            SendParam::Word(w) => {
                v.push((*w / 256) as u8);
                v.push((*w % 256) as u8);
            },
            SendParam::LEWord(w) => {
                v.push((*w % 256) as u8);
                v.push((*w / 256) as u8);
            },
            SendParam::Bytes(bs) => {
                let ghost before = v@;
                let mut j: usize = 0;
                while j < bs.len()
                    invariant
                        j <= bs@.len(),
                        v@ == before + bs@.take(j as int),
                    decreases bs@.len() - j,
                {
                    v.push(bs[j]);
                    assert(v@ =~= before + bs@.take(j + 1));
                    j += 1;
                }
                assert(bs@.take(bs@.len() as int) =~= bs@);
            },
        }
        assert(v@ =~= header + spec_params_bytes(ps.take(i as int), use16) + spec_param_block(
            ps[i as int],
            use16,
        ));
        proof {
            assert(ps.take(i + 1).drop_last() =~= ps.take(i as int));
            assert(ps.take(i + 1).last() == ps[i as int]);
        }
        i += 1;
    }
    proof {
        assert(ps.take(ps.len() as int) =~= ps);
    }
    v.push(END_TOKEN);
    let ghost core = spec_frame_core(cmd, ps, use16);
    assert(v@ =~= core);
    let pad = (4 - (v.len() % 4)) % 4;
    let ghost target = spec_frame(cmd, ps, use16);
    let mut k: usize = 0;
    while k < pad
        invariant
            k <= pad,
            pad == spec_pad_len(core.len() as int),
            core == spec_frame_core(cmd, ps, use16),
            v@ == core + Seq::new(k as nat, |x: int| 0u8),
        decreases pad - k,
    {
        v.push(0);
        assert(v@ =~= core + Seq::new((k + 1) as nat, |x: int| 0u8));
        k += 1;
    }
    assert(v@ =~= spec_frame(cmd, ps, use16));
    v
}

/// How far the slot parser got, with parsed values appended to the caller's
/// vector; a completed parse consumed this many bytes.
pub enum ParseStep {
    NeedMore,
    Fail(Error),
    Done(usize),
}

/// The outcome of parsing a whole response prefix.
pub enum ParseOutcome {
    /// The bytes so far are a proper prefix of a response; read more.
    NeedMore,
    /// The bytes so far already contradict the expected response.
    Fail(Error),
    /// A full response: its values, and how many bytes it occupied.
    Done { values: Vec<RecvValue>, used: usize },
}

impl View for ParseOutcome {
    type V = ParseOutcomeV;

    open spec fn view(&self) -> ParseOutcomeV {
        match self {
            ParseOutcome::NeedMore => ParseOutcomeV::NeedMore,
            ParseOutcome::Fail(e) => ParseOutcomeV::Fail(*e),
            ParseOutcome::Done { values, used } => ParseOutcomeV::Done {
                values: rv_views(values@),
                used: *used as int,
            },
        }
    }
}

/// Parses the parameter section of a response, mirroring
/// [`spec_parse_slots`] slot by slot from `specs[si]` and `s[pos]` on.
#[verifier::rlimit(100)]
fn parse_slots(
    use16: bool,
    specs: &Vec<RecvParam>,
    si: usize,
    idx: u8,
    count: u8,
    s: &Vec<u8>,
    pos: usize,
    out: &mut Vec<RecvValue>,
) -> (r: ParseStep)
    requires
        si <= specs@.len(),
        pos <= s@.len(),
    ensures
        ({
            let sp = spec_parse_slots(
                use16,
                specs@.skip(si as int),
                idx as int,
                count,
                s@.skip(pos as int),
            );
            match sp {
                ParseOutcomeV::NeedMore => r is NeedMore,
                ParseOutcomeV::Fail(e) => r == ParseStep::Fail(e),
                ParseOutcomeV::Done { values, used } => {
                    &&& r matches ParseStep::Done(u) && u == used
                    &&& 0 <= used <= s@.len() - pos
                    &&& rv_views(final(out)@) == rv_views(old(out)@) + values
                },
            }
        }),
    decreases specs@.len() - si,
{
    let ghost sspec = specs@.skip(si as int);
    let ghost stail = s@.skip(pos as int);
    if si == specs.len() {
        if count > idx {
            return ParseStep::Fail(Error::UnexpectedParam(count));
        }
        assert(rv_views(out@) =~= rv_views(out@) + Seq::<RecvValueV>::empty());
        return ParseStep::Done(0);
    }
    let rp = specs[si];
    assert(sspec[0] == rp);
    if idx >= count {
        match rp {
            RecvParam::OptionalByte => {
                out.push(RecvValue::OptionalByte(None));
                let ghost mid = out@;
                assert(rv_views(mid) =~= rv_views(old(out)@).push(
                    RecvValueV::OptionalByte(None),
                ));
                proof {
                    assert(sspec.drop_first() =~= specs@.skip(si + 1));
                }
                let r2 = parse_slots(use16, specs, si + 1, idx, count, s, pos, out);
                proof {
                    let rest = spec_parse_slots(use16, specs@.skip(si + 1), idx as int, count, stail);
                    if let ParseOutcomeV::Done { values, used } = rest {
                        assert(rv_views(old(out)@) + (seq![RecvValueV::OptionalByte(None)] + values)
                            =~= rv_views(mid) + values);
                    }
                }
                return r2;
            },
            _ => {
                return ParseStep::Fail(Error::MissingParam(idx));
            },
        }
    }
    let lp: usize = if use16 {
        2
    } else {
        1
    };
    if s.len() - pos < lp {
        return ParseStep::NeedMore;
    }
    let len: usize = if use16 {
        (s[pos] as usize) * 256 + (s[pos + 1] as usize)
    } else {
        s[pos] as usize
    };
    assert(len == spec_decode_len(use16, stail));
    let expected: Option<usize> = match rp {
        RecvParam::Ack => Some(1),
        RecvParam::Byte => Some(1),
        RecvParam::OptionalByte => Some(1),
        RecvParam::Word => Some(2),
        RecvParam::LEWord => Some(2),
        RecvParam::Float => Some(4),
        RecvParam::ByteArray(n) => Some(n),
        RecvParam::Buffer(_) => None,
    };
    if let Some(exp) = expected {
        if len != exp {
            return ParseStep::Fail(Error::MismatchedParamSize(exp, len));
        }
    }
    if s.len() - pos - lp < len {
        return ParseStep::NeedMore;
    }
    let pstart = pos + lp;
    let ghost payload = stail.subrange(lp as int, lp + len);
    assert(payload =~= s@.subrange(pstart as int, pstart + len));
    let value: RecvValue = match rp {
        RecvParam::Ack => {
            if s[pstart] != ACK_BYTE {
                return ParseStep::Fail(Error::UnexpectedResponse(ACK_BYTE, s[pstart]));
            }
            RecvValue::Ack
        },
        RecvParam::Byte => RecvValue::Byte(s[pstart]),
        RecvParam::OptionalByte => RecvValue::OptionalByte(Some(s[pstart])),
        RecvParam::Word => RecvValue::Word(
            (s[pstart] as u16) * 256 + (s[pstart + 1] as u16),
        ),
        RecvParam::LEWord => RecvValue::LEWord(
            (s[pstart + 1] as u16) * 256 + (s[pstart] as u16),
        ),
        RecvParam::Float => {
            let arr: [u8; 4] = [s[pstart], s[pstart + 1], s[pstart + 2], s[pstart + 3]];
            assert(arr@ =~= payload);
            RecvValue::Float(arr)
        },
        RecvParam::ByteArray(_) => {
            let mut v: Vec<u8> = Vec::new();
            let mut j: usize = 0;
            while j < len
                invariant
                    j <= len,
                    pstart + len <= s@.len(),
                    s@.len() <= usize::MAX,
                    v@ == s@.subrange(pstart as int, pstart + j),
                decreases len - j,
            {
                v.push(s[pstart + j]);
                assert(v@ =~= s@.subrange(pstart as int, pstart + j + 1));
                j += 1;
            }
            RecvValue::ByteArray(v)
        },
        RecvParam::Buffer(cap) => {
            let keep: usize = if len <= cap {
                len
            } else {
                cap
            };
            let mut v: Vec<u8> = Vec::new();
            let mut j: usize = 0;
            while j < keep
                invariant
                    j <= keep,
                    keep <= len,
                    pstart + len <= s@.len(),
                    s@.len() <= usize::MAX,
                    v@ == s@.subrange(pstart as int, pstart + j),
                decreases keep - j,
            {
                v.push(s[pstart + j]);
                assert(v@ =~= s@.subrange(pstart as int, pstart + j + 1));
                j += 1;
            }
            assert(v@ =~= if payload.len() <= cap {
                payload
            } else {
                payload.take(cap as int)
            });
            RecvValue::Buffer(v, len)
        },
    };
    assert(value@ == spec_slot_value(rp, payload));
    out.push(value);
    let ghost mid = out@;
    assert(rv_views(mid) =~= rv_views(old(out)@).push(value@));
    proof {
        assert(sspec.drop_first() =~= specs@.skip(si + 1));
        assert(stail.skip(lp + len) =~= s@.skip(pstart + len));
    }
    let r2 = parse_slots(use16, specs, si + 1, idx + 1, count, s, pstart + len, out);
    proof {
        let rest = spec_parse_slots(
            use16,
            specs@.skip(si + 1),
            idx + 1 as int,
            count,
            stail.skip(lp + len),
        );
        if let ParseOutcomeV::Done { values, used } = rest {
            assert(rv_views(old(out)@) + (seq![value@] + values) =~= rv_views(mid) + values);
        }
    }
    match r2 {
        ParseStep::Done(u) => ParseStep::Done(lp + len + u),
        other => other,
    }
}

/// Parses a response against the expected parameter shapes, starting at the
/// byte after the START token. The bytes may be any prefix of the chip's
/// stream: the parser asks for more until the frame is complete or wrong.
pub fn parse_response(cmd: u8, params: &Params<RecvParam>, s: &Vec<u8>) -> (r: ParseOutcome)
    ensures
        r@ == spec_parse_response(cmd, params.use_16_bit_length, params.params@, s@),
{
    if s.len() < 1 {
        return ParseOutcome::NeedMore;
    }
    let reply = cmd | REPLY_FLAG;
    if s[0] != reply {
        return ParseOutcome::Fail(Error::UnexpectedResponse(reply, s[0]));
    }
    if s.len() < 2 {
        return ParseOutcome::NeedMore;
    }
    let count = s[1];
    let mut values: Vec<RecvValue> = Vec::new();
    let step = parse_slots(params.use_16_bit_length, &params.params, 0, 0, count, s, 2, &mut values);
    proof {
        assert(params.params@.skip(0) =~= params.params@);
    }
    match step {
        ParseStep::NeedMore => ParseOutcome::NeedMore,
        ParseStep::Fail(e) => ParseOutcome::Fail(e),
        ParseStep::Done(used) => {
            let p = 2 + used;
            if s.len() <= p {
                return ParseOutcome::NeedMore;
            }
            if s[p] != END_TOKEN {
                return ParseOutcome::Fail(Error::UnexpectedResponse(END_TOKEN, s[p]));
            }
            ParseOutcome::Done { values, used: p + 1 }
        },
    }
}

/// The byte value behind a slot known to hold one.
pub fn take_byte(vals: &Vec<RecvValue>, i: usize) -> (r: u8)
    requires
        i < vals@.len(),
        rv_views(vals@)[i as int] is Byte,
    ensures
        rv_views(vals@)[i as int] == RecvValueV::Byte(r),
{
    match &vals[i] {
        RecvValue::Byte(b) => *b,
        _ => {
            proof {
                assert(rv_views(vals@)[i as int] == vals@[i as int]@);
                assert(false);
            }
            0
        },
    }
}

/// The little-endian word behind a slot known to hold one.
pub fn take_le_word(vals: &Vec<RecvValue>, i: usize) -> (r: u16)
    requires
        i < vals@.len(),
        rv_views(vals@)[i as int] is LEWord,
    ensures
        rv_views(vals@)[i as int] == RecvValueV::LEWord(r),
{
    match &vals[i] {
        RecvValue::LEWord(w) => *w,
        _ => {
            proof {
                assert(rv_views(vals@)[i as int] == vals@[i as int]@);
                assert(false);
            }
            0
        },
    }
}

/// The possibly-absent byte behind a slot known to be optional.
pub fn take_optional_byte(vals: &Vec<RecvValue>, i: usize) -> (r: Option<u8>)
    requires
        i < vals@.len(),
        rv_views(vals@)[i as int] is OptionalByte,
    ensures
        rv_views(vals@)[i as int] == RecvValueV::OptionalByte(r),
{
    match &vals[i] {
        RecvValue::OptionalByte(o) => *o,
        _ => {
            proof {
                assert(rv_views(vals@)[i as int] == vals@[i as int]@);
                assert(false);
            }
            None
        },
    }
}

/// A copy of the bytes behind a fixed-length slot.
pub fn take_byte_array(vals: &Vec<RecvValue>, i: usize) -> (r: Vec<u8>)
    requires
        i < vals@.len(),
        rv_views(vals@)[i as int] is ByteArray,
    ensures
        rv_views(vals@)[i as int] == RecvValueV::ByteArray(r@),
{
    match &vals[i] {
        RecvValue::ByteArray(v) => {
            let c = v.clone();
            assert(c@ =~= v@);
            c
        },
        _ => {
            proof {
                assert(rv_views(vals@)[i as int] == vals@[i as int]@);
                assert(false);
            }
            Vec::new()
        },
    }
}

/// A copy of the kept bytes behind a variable-length slot, with the full
/// length the chip reported for it.
pub fn take_buffer(vals: &Vec<RecvValue>, i: usize) -> (r: (Vec<u8>, usize))
    requires
        i < vals@.len(),
        rv_views(vals@)[i as int] is Buffer,
    ensures
        rv_views(vals@)[i as int] == RecvValueV::Buffer(r.0@, r.1 as int),
{
    match &vals[i] {
        RecvValue::Buffer(v, n) => {
            let c = v.clone();
            assert(c@ =~= v@);
            (c, *n)
        },
        _ => {
            proof {
                assert(rv_views(vals@)[i as int] == vals@[i as int]@);
                assert(false);
            }
            (Vec::new(), 0)
        },
    }
}

/// The four raw float bytes behind a slot known to hold them.
pub fn take_float_bytes(vals: &Vec<RecvValue>, i: usize) -> (r: [u8; 4])
    requires
        i < vals@.len(),
        rv_views(vals@)[i as int] is Float,
    ensures
        rv_views(vals@)[i as int] == RecvValueV::Float(r@),
{
    match &vals[i] {
        RecvValue::Float(f) => *f,
        _ => {
            proof {
                assert(rv_views(vals@)[i as int] == vals@[i as int]@);
                assert(false);
            }
            [0u8, 0u8, 0u8, 0u8]
        },
    }
}

/// The driver-level name for a chip-select failure.
pub fn chip_select_error(e: WifiNinaChipSelectError) -> (r: Error)
    ensures
        r == (match e {
            WifiNinaChipSelectError::DeviceReadyTimeout => Error::ChipSelectTimeout,
            _ => Error::ChipSelectPinError,
        }),
{
    match e {
        WifiNinaChipSelectError::CsPinError => Error::ChipSelectPinError,
        WifiNinaChipSelectError::BusyPinError => Error::ChipSelectPinError,
        WifiNinaChipSelectError::DeviceReadyTimeout => Error::ChipSelectTimeout,
    }
}

/// A bound on the bytes a response to `n` expected parameters can occupy:
/// reply byte, count and END token, plus, for each parameter, a two-byte
/// prefix and the largest payload a prefix can announce.
pub open spec fn spec_response_bound(n: int) -> int {
    4 + n * 65538
}

/// A parameter list of single-byte parameters, one per input byte, in
/// order, with one-byte length prefixes.
pub fn byte_params(bytes: &Vec<u8>) -> (r: Params<SendParam>)
    ensures
        !r.use_16_bit_length,
        r.params@.len() == bytes@.len(),
        forall|i: int| 0 <= i < bytes@.len() ==> #[trigger] r.params@[i] == SendParam::Byte(
            bytes@[i],
        ),
{
    let mut ps: Vec<SendParam> = Vec::new();
    let mut i: usize = 0;
    while i < bytes.len()
        invariant
            i <= bytes@.len(),
            ps@.len() == i,
            forall|k: int| 0 <= k < i ==> #[trigger] ps@[k] == SendParam::Byte(bytes@[k]),
        decreases bytes@.len() - i,
    {
        ps.push(SendParam::Byte(bytes[i]));
        i += 1;
    }
    Params::of(ps)
}

/// What one byte read while waiting for a response means: the frame
/// opens, the chip rejected the command, or the byte is noise to skip.
#[derive(Debug, PartialEq, Eq, Structural, Clone, Copy)]
pub enum StartByteStep {
    /// The START token: the response begins after this byte.
    Started,
    /// The error token: the chip rejected the command.
    ChipRejected,
    /// Anything else is skipped while the wait lasts.
    Skip,
}

/// Classifies one byte read while waiting for a response to open.
pub fn interpret_start_byte(b: u8) -> (r: StartByteStep)
    ensures
        b == START_TOKEN ==> r == StartByteStep::Started,
        b == ERROR_TOKEN ==> r == StartByteStep::ChipRejected,
        b != START_TOKEN && b != ERROR_TOKEN ==> r == StartByteStep::Skip,
{
    if b == START_TOKEN {
        StartByteStep::Started
    } else if b == ERROR_TOKEN {
        StartByteStep::ChipRejected
    } else {
        StartByteStep::Skip
    }
}

impl<CS, B, T> WifiNina<CS, B, T> where CS: OutputLine, B: InputLine, T: CountdownTimer {
    /// Sends one command frame: selects the chip, writes exactly the bytes
    /// of [`spec_frame`] for the command and parameters, and deselects.
    ///
    /// Only the boundary itself can refuse this: a failure is a
    /// chip-select fault or an SPI fault, never a protocol error.
    pub fn send_command<S: SpiTransfer>(
        &mut self,
        spi: &mut S,
        cmd: NinaCommand,
        params: &Params<SendParam>,
    ) -> (r: Result<(), Error>)
        requires
            send_params_wf(params.params@, params.use_16_bit_length),
        ensures
            r matches Err(e) ==> (e == Error::ChipSelectPinError || e == Error::ChipSelectTimeout
                || e == Error::SpiError),
    {
        let frame = encode_frame(cmd.byte(), params);
        match self.chip_select.select(&mut self.timer) {
            Err(e) => {
                return Err(chip_select_error(e));
            },
            Ok(_) => {},
        }
        let mut i: usize = 0;
        while i < frame.len()
            invariant
                i <= frame@.len(),
            decreases frame@.len() - i,
        {
            if spi.write_byte(frame[i]).is_err() {
                self.chip_select.deselect();
                return Err(Error::SpiError);
            }
            i += 1;
        }
        self.chip_select.deselect();
        Ok(())
    }

    /// Waits up to 100 ms for the chip to open its response with START,
    /// classifying each byte with [`interpret_start_byte`]: noise before
    /// the START token is skipped, the chip's error token fails with
    /// `ErrorResponse`, and silence past the deadline fails with
    /// `ResponseTimeout`.
    fn wait_for_response_start<S: SpiTransfer>(spi: &mut S, timer: &mut T) -> (r: Result<(), Error>)
        ensures
            r matches Err(e) ==> (e == Error::SpiError || e == Error::ErrorResponse || e
                == Error::ResponseTimeout),
    {
        timer.start_ms(100);
        let mut fuel: u32 = 0;
        while fuel < u32::MAX
            decreases u32::MAX - fuel,
        {
            match spi.transfer_byte() {
                Err(_) => {
                    return Err(Error::SpiError);
                },
                Ok(b) => {
                    match interpret_start_byte(b) {
                        StartByteStep::Started => {
                            return Ok(());
                        },
                        StartByteStep::ChipRejected => {
                            return Err(Error::ErrorResponse);
                        },
                        StartByteStep::Skip => {},
                    }
                },
            }
            if timer.expired() {
                return Err(Error::ResponseTimeout);
            }
            fuel += 1;
        }
        Err(Error::ResponseTimeout)
    }

    /// Receives one response frame: selects the chip, waits for START, then
    /// pulls bytes one at a time until they parse completely against the
    /// expected parameter shapes, and deselects.
    ///
    /// Whatever bytes the chip produces, a successful return carries one
    /// value per expected slot, shaped as the slot asked
    /// ([`values_match_shapes`]).
    pub fn receive_response<S: SpiTransfer>(
        &mut self,
        spi: &mut S,
        cmd: NinaCommand,
        params: &Params<RecvParam>,
    ) -> (r: Result<Vec<RecvValue>, Error>)
        requires
            params.params@.len() <= 255,
        ensures
            r matches Ok(values) ==> values_match_shapes(rv_views(values@), params.params@),
    {
        match self.chip_select.select(&mut self.timer) {
            Err(e) => {
                return Err(chip_select_error(e));
            },
            Ok(_) => {},
        }
        match Self::wait_for_response_start(spi, &mut self.timer) {
            Err(e) => {
                self.chip_select.deselect();
                return Err(e);
            },
            Ok(_) => {},
        }
        let bound: usize = 4 + params.params.len() * 65538;
        let mut rx: Vec<u8> = Vec::new();
        while rx.len() < bound
            invariant
                params.params@.len() <= 255,
                bound == spec_response_bound(params.params@.len() as int),
            decreases bound - rx@.len(),
        {
            match parse_response(cmd.byte(), params, &rx) {
                ParseOutcome::Done { values, used: _ } => {
                    proof {
                        lemma_response_shape(
                            cmd.spec_byte(),
                            params.use_16_bit_length,
                            params.params@,
                            rx@,
                        );
                    }
                    self.chip_select.deselect();
                    return Ok(values);
                },
                ParseOutcome::Fail(e) => {
                    self.chip_select.deselect();
                    return Err(e);
                },
                ParseOutcome::NeedMore => {
                    match spi.transfer_byte() {
                        Ok(b) => {
                            rx.push(b);
                        },
                        Err(_) => {
                            self.chip_select.deselect();
                            return Err(Error::SpiError);
                        },
                    }
                },
            }
        }
        self.chip_select.deselect();
        Err(Error::ResponseTimeout)
    }

    /// Sends a command and receives its response as one exchange.
    pub fn send_and_receive<S: SpiTransfer>(
        &mut self,
        spi: &mut S,
        command: NinaCommand,
        send_params: &Params<SendParam>,
        recv_params: &Params<RecvParam>,
    ) -> (r: Result<Vec<RecvValue>, Error>)
        requires
            send_params_wf(send_params.params@, send_params.use_16_bit_length),
            recv_params.params@.len() <= 255,
        ensures
            r matches Ok(values) ==> values_match_shapes(rv_views(values@), recv_params.params@),
    {
        self.send_command(spi, command, send_params)?;
        self.receive_response(spi, command, recv_params)
    }
}

} // verus!
