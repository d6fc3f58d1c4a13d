//! Socket commands: allocation, connection, streaming read and write,
//! server accept, and release of coprocessor socket handles.
//!
//! The chip holds a finite pool of sockets and names each by a byte; `255`
//! is not a handle but the marker for "no socket available". The host keeps
//! each allocated handle in a [`Socket`] value that cannot be copied, so
//! that a handle has exactly one owner until it is given back with
//! [`WifiNina::socket_close`].

use vstd::prelude::*;

use crate::commands::{
    rv_views, send_params_wf, take_byte, take_buffer, take_le_word, take_optional_byte,
    value_matches_shape, NinaCommand, Params, RecvParam, SendParam,
};
use crate::transport::{CountdownTimer, InputLine, OutputLine, SpiTransfer};
use crate::{Error, NbError, WifiNina};

verus! {

/// The most payload bytes one data-carrying frame may hold. The chip's SPI
/// buffer holds 4092 bytes; staying at 4000 leaves room for the framing.
pub const MAX_WRITE_BYTES: usize = 4000;

/// The TCP state byte the chip reports for a client socket.
#[derive(Debug, PartialEq, Eq, Structural, Clone, Copy)]
pub enum SocketStatus {
    Closed,
    Listen,
    SynSent,
    SynReceived,
    Established,
    FinWait1,
    FinWait2,
    CloseWait,
    Closing,
    LastAck,
    TimeWait,
    UnknownStatus,
}

impl SocketStatus {
    /// The status a reported byte stands for.
    pub open spec fn spec_from_byte(b: u8) -> SocketStatus {
        match b {
            0u8 => SocketStatus::Closed,
            1u8 => SocketStatus::Listen,
            2u8 => SocketStatus::SynSent,
            3u8 => SocketStatus::SynReceived,
            4u8 => SocketStatus::Established,
            5u8 => SocketStatus::FinWait1,
            6u8 => SocketStatus::FinWait2,
            7u8 => SocketStatus::CloseWait,
            8u8 => SocketStatus::Closing,
            9u8 => SocketStatus::LastAck,
            10u8 => SocketStatus::TimeWait,
            _ => SocketStatus::UnknownStatus,
        }
    }

    /// The status a reported byte stands for.
    pub fn from_byte(b: u8) -> (r: SocketStatus)
        ensures
            r == SocketStatus::spec_from_byte(b),
    {
        match b {
            0u8 => SocketStatus::Closed,
            1u8 => SocketStatus::Listen,
            2u8 => SocketStatus::SynSent,
            3u8 => SocketStatus::SynReceived,
            4u8 => SocketStatus::Established,
            5u8 => SocketStatus::FinWait1,
            6u8 => SocketStatus::FinWait2,
            7u8 => SocketStatus::CloseWait,
            8u8 => SocketStatus::Closing,
            9u8 => SocketStatus::LastAck,
            10u8 => SocketStatus::TimeWait,
            _ => SocketStatus::UnknownStatus,
        }
    }
}

/// A client socket handle allocated on the chip.
///
/// Not copyable: a handle has one owner, and closing consumes it, so a
/// handle cannot be used after it was given back.
#[derive(Debug)]
pub struct Socket {
    num: u8,
}

impl View for Socket {
    type V = u8;

    closed spec fn view(&self) -> u8 {
        self.num
    }
}

impl Socket {
    /// The handle's number on the chip.
    pub fn num(&self) -> (r: u8)
        ensures
            r == self@,
    {
        self.num
    }
}

/// A server (listening) socket handle.
///
/// The firmware has no command to stop a server once started, so the
/// handle is copyable: it can never be given back anyway.
#[derive(Debug, Clone, Copy)]
pub struct ServerSocket {
    num: u8,
}

impl View for ServerSocket {
    type V = u8;

    closed spec fn view(&self) -> u8 {
        self.num
    }
}

impl ServerSocket {
    /// Marks an allocated socket as a server socket.
    pub fn from_socket(s: Socket) -> (r: ServerSocket)
        ensures
            r@ == s@,
    {
        ServerSocket { num: s.num }
    }

    /// The handle's number on the chip.
    pub fn num(&self) -> (r: u8)
        ensures
            r == self@,
    {
        self.num
    }
}

/// The protocols a socket can speak.
#[derive(Debug, PartialEq, Eq, Structural, Clone, Copy)]
pub enum Protocol {
    Tcp,
    Udp,
    Tls,
    UdpMulticast,
}

impl Protocol {
    /// The wire byte for the protocol.
    pub open spec fn spec_byte(self) -> u8 {
        match self {
            Protocol::Tcp => 0,
            Protocol::Udp => 1,
            Protocol::Tls => 2,
            Protocol::UdpMulticast => 3,
        }
    }

    /// The wire byte for the protocol.
    pub fn byte(self) -> (r: u8)
        ensures
            r == self.spec_byte(),
    {
        match self {
            Protocol::Tcp => 0,
            Protocol::Udp => 1,
            Protocol::Tls => 2,
            Protocol::UdpMulticast => 3,
        }
    }
}

/// Where a connection should go: a literal address, or a name to resolve
/// first. The firmware's own name-based connect does not work, so a name
/// is always resolved on the host's behalf and the literal address passed
/// to the chip.
#[derive(Debug)]
pub enum Destination {
    Ip([u8; 4]),
    Hostname(Vec<u8>),
}

/// What the byte answering a `GetSocket` request means: `255` is "no
/// socket available", anything else is the allocated handle.
pub fn interpret_get_socket(reply: u8) -> (r: Result<Socket, Error>)
    ensures
        reply == 255 ==> r == Err::<Socket, Error>(Error::NoSocketAvailable),
        reply != 255 ==> (r matches Ok(s) && s@ == reply),
{
    if reply == 255 {
        Err(Error::NoSocketAvailable)
    } else {
        Ok(Socket { num: reply })
    }
}

/// What the word answering a server-side `AvailableDataTcp` means: `255`
/// is "no client waiting" and asks the caller to retry, another byte-sized
/// value is the handle of the accepted client, and anything larger is a
/// protocol fault, since handles are bytes.
pub fn interpret_server_select(reply: u16) -> (r: Result<u8, NbError>)
    ensures
        reply == 255 ==> r == Err::<u8, NbError>(NbError::WouldBlock),
        reply < 255 ==> (r matches Ok(n) && n == reply),
        reply > 255 ==> r == Err::<u8, NbError>(
            NbError::Other(Error::UnexpectedResponse(0, (reply / 256) as u8)),
        ),
{
    if reply == 255 {
        Err(NbError::WouldBlock)
    } else if reply < 255 {
        Ok(reply as u8)
    } else {
        Err(NbError::Other(Error::UnexpectedResponse(0, (reply / 256) as u8)))
    }
}

/// The single parameter that most socket commands carry: the socket
/// number as one byte.
pub fn socket_num_params(socket_num: u8) -> (r: Params<SendParam>)
    ensures
        !r.use_16_bit_length,
        r.params@.len() == 1,
        r.params@[0] == SendParam::Byte(socket_num),
{
    let mut ps: Vec<SendParam> = Vec::new();
    ps.push(SendParam::Byte(socket_num));
    Params::of(ps)
}

/// The parameters of a `StartClientTcp` command, in wire order: the
/// four address bytes, the port as a big-endian word, the socket number,
/// and the protocol byte, all with one-byte length prefixes.
pub fn start_client_tcp_params(
    ip: [u8; 4],
    port: u16,
    socket_num: u8,
    protocol: Protocol,
) -> (r: Params<SendParam>)
    ensures
        !r.use_16_bit_length,
        r.params@.len() == 4,
        r.params@[0] matches SendParam::Bytes(b) && b@ == ip@,
        r.params@[1] == SendParam::Word(port),
        r.params@[2] == SendParam::Byte(socket_num),
        r.params@[3] == SendParam::Byte(protocol.spec_byte()),
{
    let mut ip_bytes: Vec<u8> = Vec::new();
    ip_bytes.push(ip[0]);
    ip_bytes.push(ip[1]);
    ip_bytes.push(ip[2]);
    ip_bytes.push(ip[3]);
    assert(ip_bytes@ =~= ip@);
    let mut ps: Vec<SendParam> = Vec::new();
    ps.push(SendParam::Bytes(ip_bytes));
    ps.push(SendParam::Word(port));
    ps.push(SendParam::Byte(socket_num));
    ps.push(SendParam::Byte(protocol.byte()));
    Params::of(ps)
}

/// The parameters of a `StartServerTcp` command: port, socket and
/// protocol, preceded by the multicast address when one is given.
pub fn server_start_params(
    protocol: Protocol,
    port: u16,
    socket_num: u8,
    multicast_ip: Option<[u8; 4]>,
) -> (r: Params<SendParam>)
    ensures
        !r.use_16_bit_length,
        multicast_ip matches Some(ip) ==> {
            &&& r.params@.len() == 4
            &&& r.params@[0] matches SendParam::Bytes(b) && b@ == ip@
            &&& r.params@[1] == SendParam::Word(port)
            &&& r.params@[2] == SendParam::Byte(socket_num)
            &&& r.params@[3] == SendParam::Byte(protocol.spec_byte())
        },
        multicast_ip is None ==> {
            &&& r.params@.len() == 3
            &&& r.params@[0] == SendParam::Word(port)
            &&& r.params@[1] == SendParam::Byte(socket_num)
            &&& r.params@[2] == SendParam::Byte(protocol.spec_byte())
        },
{
    let mut ps: Vec<SendParam> = Vec::new();
    match multicast_ip {
        Some(ip) => {
            let mut ip_bytes: Vec<u8> = Vec::new();
            ip_bytes.push(ip[0]);
            ip_bytes.push(ip[1]);
            ip_bytes.push(ip[2]);
            ip_bytes.push(ip[3]);
            assert(ip_bytes@ =~= ip@);
            ps.push(SendParam::Bytes(ip_bytes));
            ps.push(SendParam::Word(port));
            ps.push(SendParam::Byte(socket_num));
            ps.push(SendParam::Byte(protocol.byte()));
        },
        None => {
            ps.push(SendParam::Word(port));
            ps.push(SendParam::Byte(socket_num));
            ps.push(SendParam::Byte(protocol.byte()));
        },
    }
    Params::of(ps)
}

/// The parameters of one data-carrying frame (`SendDataTcp` or
/// `InsertDatabuf`): the socket number and the chunk, with two-byte
/// big-endian length prefixes.
pub fn send_data_params(socket_num: u8, chunk: Vec<u8>) -> (r: Params<SendParam>)
    ensures
        r.use_16_bit_length,
        r.params@.len() == 2,
        r.params@[0] == SendParam::Byte(socket_num),
        r.params@[1] matches SendParam::Bytes(b) && b@ == chunk@,
{
    let mut ps: Vec<SendParam> = Vec::new();
    ps.push(SendParam::Byte(socket_num));
    ps.push(SendParam::Bytes(chunk));
    Params::with_16_bit_length(ps)
}

/// The parameters of a `GetDatabufTcp` command: the socket number and
/// the requested byte count as a little-endian word, with two-byte
/// big-endian length prefixes.
pub fn get_databuf_params(socket_num: u8, limit: u16) -> (r: Params<SendParam>)
    ensures
        r.use_16_bit_length,
        r.params@.len() == 2,
        r.params@[0] == SendParam::Byte(socket_num),
        r.params@[1] == SendParam::LEWord(limit),
{
    let mut ps: Vec<SendParam> = Vec::new();
    ps.push(SendParam::Byte(socket_num));
    ps.push(SendParam::LEWord(limit));
    Params::with_16_bit_length(ps)
}

/// What a host-name lookup's outcome means for a connect: an address to
/// hand the chip, or the `Closed` status a connect to an unresolvable
/// name reports.
pub fn interpret_connect_resolution(resolved: Option<[u8; 4]>) -> (r: Result<
    [u8; 4],
    SocketStatus,
>)
    ensures
        resolved matches Some(ip) ==> r == Ok::<[u8; 4], SocketStatus>(ip),
        resolved is None ==> r == Err::<[u8; 4], SocketStatus>(SocketStatus::Closed),
{
    match resolved {
        Some(ip) => Ok(ip),
        None => Err(SocketStatus::Closed),
    }
}

/// What the optional byte answering `StartClientTcp` means: the firmware
/// sends nothing back when its connect call fails outright, and any byte
/// at all when the attempt is under way.
pub fn interpret_connect_reply(reply: Option<u8>) -> (r: Result<(), Error>)
    ensures
        reply is Some ==> r == Ok::<(), Error>(()),
        reply is None ==> r == Err::<(), Error>(
            Error::SocketConnectionFailed(SocketStatus::UnknownStatus),
        ),
{
    match reply {
        Some(_) => Ok(()),
        None => Err(Error::SocketConnectionFailed(SocketStatus::UnknownStatus)),
    }
}

/// Whether one status poll ends the connect wait: only `Established`
/// does; every other status polls again until the attempt times out.
pub fn interpret_connect_poll(status: SocketStatus) -> (r: bool)
    ensures
        r == (status == SocketStatus::Established),
{
    status == SocketStatus::Established
}

/// What a read should do when the chip reports nothing to read: a closed
/// socket is at end of stream, any other is merely idle.
#[derive(Debug, PartialEq, Eq, Structural, Clone, Copy)]
pub enum ReadDecision {
    /// The socket is closed: report end of stream.
    EndOfStream,
    /// The socket is open but idle: ask the caller to retry.
    TryLater,
}

/// Decides between end of stream and retry for a socket with nothing to
/// read, from its reported status.
pub fn interpret_idle_read(status: SocketStatus) -> (r: ReadDecision)
    ensures
        r == (if status == SocketStatus::Closed {
            ReadDecision::EndOfStream
        } else {
            ReadDecision::TryLater
        }),
{
    if status == SocketStatus::Closed {
        ReadDecision::EndOfStream
    } else {
        ReadDecision::TryLater
    }
}

/// How many bytes a read requests: the smaller of what the chip has and
/// what the caller can take, the latter clamped to the largest count the
/// wire word can carry.
pub open spec fn spec_read_limit(available: u16, max_len: usize) -> int {
    let cap: int = if max_len <= 65535 {
        max_len as int
    } else {
        65535
    };
    if available <= cap {
        available as int
    } else {
        cap
    }
}

/// The byte count to request from the chip, or nothing when the chip
/// reported nothing to read.
pub fn read_request_limit(available: u16, max_len: usize) -> (r: Option<u16>)
    ensures
        available == 0 ==> r is None,
        available != 0 ==> (r matches Some(n) && n == spec_read_limit(available, max_len)),
{
    if available == 0 {
        return None;
    }
    let cap: u16 = if max_len > 65535 {
        65535
    } else {
        max_len as u16
    };
    Some(if available < cap {
        available
    } else {
        cap
    })
}

/// The count of bytes the chip acknowledged for one chunk: its reported
/// little-endian word, clamped to the chunk actually sent, since it
/// cannot have accepted more than it was handed.
pub fn clamp_accepted(reported: u16, chunk_len: usize) -> (r: usize)
    ensures
        r == (if reported <= chunk_len {
            reported as int
        } else {
            chunk_len as int
        }),
        r <= chunk_len,
{
    let reported_usize = reported as usize;
    if reported_usize > chunk_len {
        chunk_len
    } else {
        reported_usize
    }
}

/// The sum of a list of chunk sizes.
pub open spec fn spec_sum(s: Seq<usize>) -> int
    decreases s.len(),
{
    if s.len() == 0 {
        0
    } else {
        s.first() + spec_sum(s.drop_first())
    }
}

proof fn lemma_sum_snoc(s: Seq<usize>, x: usize)
    ensures
        spec_sum(s.push(x)) == spec_sum(s) + x,
    decreases s.len(),
{
    if s.len() == 0 {
        assert(s.push(x)[0] == x);
        assert(s.push(x).drop_first() =~= Seq::<usize>::empty());
        assert(spec_sum(s.push(x).drop_first()) == 0);
        assert(spec_sum(s.push(x)) == x + spec_sum(s.push(x).drop_first()));
    } else {
        assert(s.push(x)[0] == s[0]);
        assert(s.push(x).drop_first() =~= s.drop_first().push(x));
        lemma_sum_snoc(s.drop_first(), x);
        assert(spec_sum(s.push(x)) == s[0] + spec_sum(s.push(x).drop_first()));
        assert(spec_sum(s) == s[0] + spec_sum(s.drop_first()));
    }
}

proof fn lemma_sum_skip_unfold(s: Seq<usize>, i: int)
    requires
        0 <= i < s.len(),
    ensures
        spec_sum(s.skip(i)) == s[i] + spec_sum(s.skip(i + 1)),
{
    assert(s.skip(i).drop_first() =~= s.skip(i + 1));
}

proof fn lemma_sum_nonneg(s: Seq<usize>)
    ensures
        spec_sum(s) >= 0,
    decreases s.len(),
{
    if s.len() > 0 {
        lemma_sum_nonneg(s.drop_first());
    }
}

/// How a write of `total` bytes is chunked for the bus: full chunks of
/// [`MAX_WRITE_BYTES`], then whatever remains. The chunks are all
/// positive, only the last is short, and they add up to `total` exactly.
pub fn write_chunk_sizes(total: usize) -> (r: Vec<usize>)
    ensures
        spec_sum(r@) == total,
        forall|i: int| 0 <= i < r@.len() ==> 0 < #[trigger] r@[i] <= MAX_WRITE_BYTES,
        forall|i: int| 0 <= i < r@.len() - 1 ==> #[trigger] r@[i] == MAX_WRITE_BYTES,
        r@.len() == 0 <==> total == 0,
{
    let mut sizes: Vec<usize> = Vec::new();
    let mut left: usize = total;
    while left > 0
        invariant
            left <= total,
            spec_sum(sizes@) == total - left,
            forall|i: int| 0 <= i < sizes@.len() ==> 0 < #[trigger] sizes@[i] <= MAX_WRITE_BYTES,
            forall|i: int| 0 <= i < sizes@.len() - 1 ==> #[trigger] sizes@[i] == MAX_WRITE_BYTES,
            left > 0 && sizes@.len() > 0 ==> sizes@.last() == MAX_WRITE_BYTES,
            sizes@.len() == 0 ==> left == total,
            total == 0 ==> sizes@.len() == 0,
        decreases left,
    {
        let k: usize = if left > MAX_WRITE_BYTES {
            MAX_WRITE_BYTES
        } else {
            left
        };
        proof {
            lemma_sum_snoc(sizes@, k);
        }
        sizes.push(k);
        left -= k;
    }
    sizes
}

impl<CS, B, T> WifiNina<CS, B, T> where CS: OutputLine, B: InputLine, T: CountdownTimer {
    /// Allocates a socket on the chip. Fails with `NoSocketAvailable` when
    /// the chip's pool is exhausted.
    pub fn socket_new<S: SpiTransfer>(&mut self, spi: &mut S) -> (r: Result<Socket, Error>)
        ensures
            r matches Ok(s) ==> s@ != 255,
    {
        let send: Params<SendParam> = Params::none();
        let mut rs: Vec<RecvParam> = Vec::new();
        rs.push(RecvParam::Byte);
        let recv = Params::of(rs);
        let vals = self.send_and_receive(spi, NinaCommand::GetSocket, &send, &recv)?;
        assert(value_matches_shape(rv_views(vals@)[0], recv.params@[0]));
        interpret_get_socket(take_byte(&vals, 0))
    }

    /// Returns the TCP state of the given client socket: sends
    /// `GetClientStateTcp` with [`socket_num_params`] and maps the reply
    /// byte through [`SocketStatus::from_byte`].
    pub fn socket_status<S: SpiTransfer>(&mut self, spi: &mut S, socket: &Socket) -> (r: Result<
        SocketStatus,
        Error,
    >) {
        let send = socket_num_params(socket.num());
        assert(send_params_wf(send.params@, send.use_16_bit_length));
        let mut rs: Vec<RecvParam> = Vec::new();
        rs.push(RecvParam::Byte);
        let recv = Params::of(rs);
        let vals = self.send_and_receive(spi, NinaCommand::GetClientStateTcp, &send, &recv)?;
        assert(value_matches_shape(rv_views(vals@)[0], recv.params@[0]));
        Ok(SocketStatus::from_byte(take_byte(&vals, 0)))
    }

    /// Opens a network connection on the socket and waits up to three
    /// seconds, polling every 10 ms, for it to be established.
    ///
    /// A host name is resolved first and the literal address handed to the
    /// chip; a name the DNS does not know yields `Ok(Closed)`. Every other
    /// success is `Ok(Established)`.
    pub fn socket_open<S: SpiTransfer>(
        &mut self,
        spi: &mut S,
        socket: &Socket,
        protocol: Protocol,
        destination: &Destination,
        port: u16,
    ) -> (r: Result<SocketStatus, Error>)
        requires
            destination matches Destination::Hostname(n) ==> n@.len() < 256,
        ensures
            r matches Ok(st) ==> st == SocketStatus::Established || st == SocketStatus::Closed,
    {
        let ip: [u8; 4] = match destination {
            Destination::Ip(ip) => *ip,
            Destination::Hostname(name) => {
                let resolved = self.resolve_host_name(spi, name.as_slice())?;
                match interpret_connect_resolution(resolved) {
                    Ok(ip) => ip,
                    Err(status) => {
                        return Ok(status);
                    },
                }
            },
        };
        let send = start_client_tcp_params(ip, port, socket.num(), protocol);
        assert(send_params_wf(send.params@, send.use_16_bit_length));
        let mut rs: Vec<RecvParam> = Vec::new();
        rs.push(RecvParam::OptionalByte);
        let recv = Params::of(rs);
        let vals = self.send_and_receive(spi, NinaCommand::StartClientTcp, &send, &recv)?;
        assert(value_matches_shape(rv_views(vals@)[0], recv.params@[0]));
        interpret_connect_reply(take_optional_byte(&vals, 0))?;
        let mut last_status = SocketStatus::UnknownStatus;
        let mut i: usize = 0;
        while i < 300
            invariant
                i <= 300,
            decreases 300 - i,
        {
            last_status = self.socket_status(spi, socket)?;
            if interpret_connect_poll(last_status) {
                return Ok(SocketStatus::Established);
            }
            self.timer.start_ms(10);
            self.wait_timer();
            i += 1;
        }
        Err(Error::SocketConnectionFailed(last_status))
    }

    /// Closes the socket on the chip, freeing its handle: sends
    /// `StopClientTcp` with [`socket_num_params`] and insists on the
    /// acknowledgement byte in the reply. Consumes the [`Socket`] so the
    /// handle cannot be used again on the host.
    pub fn socket_close<S: SpiTransfer>(&mut self, spi: &mut S, socket: Socket) -> (r: Result<
        (),
        Error,
    >) {
        let send = socket_num_params(socket.num());
        assert(send_params_wf(send.params@, send.use_16_bit_length));
        let mut rs: Vec<RecvParam> = Vec::new();
        rs.push(RecvParam::Ack);
        let recv = Params::of(rs);
        self.send_and_receive(spi, NinaCommand::StopClientTcp, &send, &recv)?;
        Ok(())
    }

    /// Allocates a socket, connects it, and wraps it as a
    /// [`ConnectedSocket`].
    pub fn connect<S: SpiTransfer>(
        &mut self,
        spi: &mut S,
        protocol: Protocol,
        destination: &Destination,
        port: u16,
    ) -> (r: Result<ConnectedSocket, Error>)
        requires
            destination matches Destination::Hostname(n) ==> n@.len() < 256,
        ensures
            r matches Ok(c) ==> c@ != 255,
    {
        let socket = self.socket_new(spi)?;
        self.socket_open(spi, &socket, protocol, destination, port)?;
        Ok(ConnectedSocket::new(socket))
    }

    /// Wraps a suspended socket as a [`ConnectedSocket`] again. Purely a
    /// host-side move; nothing is sent to the chip.
    pub fn socket_resume(&mut self, socket: Socket) -> (r: ConnectedSocket)
        ensures
            r@ == socket@,
    {
        ConnectedSocket::new(socket)
    }

    /// Starts a server socket listening on the port. Provide the multicast
    /// address when the protocol is [`Protocol::UdpMulticast`].
    ///
    /// The firmware cannot stop a server once started: the handle is spent
    /// until the chip resets.
    pub fn server_start<S: SpiTransfer>(
        &mut self,
        spi: &mut S,
        protocol: Protocol,
        port: u16,
        multicast_ip: Option<[u8; 4]>,
    ) -> (r: Result<ServerSocket, Error>)
        ensures
            r matches Ok(s) ==> s@ != 255,
    {
        let socket = self.socket_new(spi)?;
        let send = server_start_params(protocol, port, socket.num(), multicast_ip);
        assert(send_params_wf(send.params@, send.use_16_bit_length));
        let mut rs: Vec<RecvParam> = Vec::new();
        rs.push(RecvParam::Ack);
        let recv = Params::of(rs);
        self.send_and_receive(spi, NinaCommand::StartServerTcp, &send, &recv)?;
        Ok(ServerSocket::from_socket(socket))
    }

    /// Accepts the next client waiting on a server socket, or asks the
    /// caller to retry with `WouldBlock` when none waits.
    ///
    /// On a listening socket, `AvailableDataTcp` answers with a whole
    /// little-endian word holding either a fresh client handle or the
    /// no-client marker.
    pub fn server_select<S: SpiTransfer>(
        &mut self,
        spi: &mut S,
        server_socket: &ServerSocket,
    ) -> (r: Result<ConnectedSocket, NbError>)
        ensures
            r matches Ok(c) ==> c@ != 255,
    {
        let send = socket_num_params(server_socket.num());
        assert(send_params_wf(send.params@, send.use_16_bit_length));
        let mut rs: Vec<RecvParam> = Vec::new();
        rs.push(RecvParam::LEWord);
        let recv = Params::of(rs);
        let vals = match self.send_and_receive(spi, NinaCommand::AvailableDataTcp, &send, &recv) {
            Ok(vals) => vals,
            Err(e) => {
                return Err(NbError::Other(e));
            },
        };
        assert(value_matches_shape(rv_views(vals@)[0], recv.params@[0]));
        let num = interpret_server_select(take_le_word(&vals, 0))?;
        Ok(ConnectedSocket::new(Socket { num }))
    }

    /// Sends data in chunks of at most [`MAX_WRITE_BYTES`] under the given
    /// command, and returns how many bytes the chip acknowledged, at most
    /// the length of `data`.
    fn write_chunked<S: SpiTransfer>(
        &mut self,
        spi: &mut S,
        cmd: NinaCommand,
        socket_num: u8,
        data: &[u8],
    ) -> (r: Result<usize, Error>)
        ensures
            r matches Ok(n) ==> n <= data@.len(),
            data@.len() == 0 ==> r == Ok::<usize, Error>(0),
    {
        let total = data.len();
        let sizes = write_chunk_sizes(total);
        proof {
            assert(sizes@.skip(0) =~= sizes@);
        }
        let mut sent: usize = 0;
        let mut acc: usize = 0;
        let mut ci: usize = 0;
        while ci < sizes.len()
            invariant
                ci <= sizes@.len(),
                acc <= sent <= data@.len(),
                data@.len() <= usize::MAX,
                sent + spec_sum(sizes@.skip(ci as int)) == data@.len(),
                forall|i: int| 0 <= i < sizes@.len() ==> 0 < #[trigger] sizes@[i] <= MAX_WRITE_BYTES,
            decreases sizes@.len() - ci,
        {
            let k = sizes[ci];
            proof {
                lemma_sum_skip_unfold(sizes@, ci as int);
                lemma_sum_nonneg(sizes@.skip(ci + 1));
            }
            let mut chunk: Vec<u8> = Vec::new();
            let mut j: usize = 0;
            while j < k
                invariant
                    j <= k,
                    sent + k <= data@.len(),
                    data@.len() <= usize::MAX,
                    chunk@ == data@.subrange(sent as int, sent + j),
                decreases k - j,
            {
                chunk.push(data[sent + j]);
                assert(chunk@ =~= data@.subrange(sent as int, sent + j + 1));
                j += 1;
            }
            let send = send_data_params(socket_num, chunk);
            assert(send_params_wf(send.params@, send.use_16_bit_length));
            let mut rs: Vec<RecvParam> = Vec::new();
            rs.push(RecvParam::LEWord);
            let recv = Params::of(rs);
            let vals = self.send_and_receive(spi, cmd, &send, &recv)?;
            assert(value_matches_shape(rv_views(vals@)[0], recv.params@[0]));
            let accepted = clamp_accepted(take_le_word(&vals, 0), k);
            acc += accepted;
            sent += k;
            ci += 1;
        }
        Ok(acc)
    }

    /// Writes a stream of bytes to a TCP or TLS client socket, in frames
    /// of at most [`MAX_WRITE_BYTES`] payload bytes each, and returns the
    /// total byte count the chip acknowledged.
    pub fn socket_write<S: SpiTransfer>(
        &mut self,
        spi: &mut S,
        socket: &Socket,
        data: &[u8],
    ) -> (r: Result<usize, Error>)
        ensures
            r matches Ok(n) ==> n <= data@.len(),
            data@.len() == 0 ==> r == Ok::<usize, Error>(0),
    {
        self.write_chunked(spi, NinaCommand::SendDataTcp, socket.num(), data)
    }

    /// Queues a stream of bytes on a UDP socket, chunked like
    /// [`Self::socket_write`]; nothing leaves the chip until
    /// [`Self::socket_send_udp`].
    pub fn socket_write_udp<S: SpiTransfer>(
        &mut self,
        spi: &mut S,
        socket: &ServerSocket,
        data: &[u8],
    ) -> (r: Result<usize, Error>)
        ensures
            r matches Ok(n) ==> n <= data@.len(),
            data@.len() == 0 ==> r == Ok::<usize, Error>(0),
    {
        self.write_chunked(spi, NinaCommand::InsertDatabuf, socket.num(), data)
    }

    /// Sends whatever has been queued on a UDP socket with
    /// [`Self::socket_write_udp`].
    pub fn socket_send_udp<S: SpiTransfer>(
        &mut self,
        spi: &mut S,
        socket: &ServerSocket,
    ) -> (r: Result<usize, Error>)
        ensures
            r matches Ok(n) ==> n <= 65535,
    {
        let send = socket_num_params(socket.num());
        assert(send_params_wf(send.params@, send.use_16_bit_length));
        let mut rs: Vec<RecvParam> = Vec::new();
        rs.push(RecvParam::LEWord);
        let recv = Params::of(rs);
        let vals = self.send_and_receive(spi, NinaCommand::SendUdpData, &send, &recv)?;
        assert(value_matches_shape(rv_views(vals@)[0], recv.params@[0]));
        Ok(take_le_word(&vals, 0) as usize)
    }

    /// Reads up to `max_len` bytes from a client socket.
    ///
    /// Asks the chip how much is readable first: nothing readable on a
    /// closed socket is end of stream (`Ok` with no bytes), nothing
    /// readable otherwise asks the caller to retry with `WouldBlock`.
    pub fn socket_read<S: SpiTransfer>(
        &mut self,
        spi: &mut S,
        socket: &Socket,
        max_len: usize,
    ) -> (r: Result<Vec<u8>, NbError>)
        ensures
            r matches Ok(v) ==> v@.len() <= max_len,
    {
        let send = socket_num_params(socket.num());
        assert(send_params_wf(send.params@, send.use_16_bit_length));
        let mut rs: Vec<RecvParam> = Vec::new();
        rs.push(RecvParam::LEWord);
        let recv = Params::of(rs);
        let vals = match self.send_and_receive(spi, NinaCommand::AvailableDataTcp, &send, &recv) {
            Ok(vals) => vals,
            Err(e) => {
                return Err(NbError::Other(e));
            },
        };
        assert(value_matches_shape(rv_views(vals@)[0], recv.params@[0]));
        let available = take_le_word(&vals, 0);
        let read_limit: u16 = match read_request_limit(available, max_len) {
            None => {
                let status = match self.socket_status(spi, socket) {
                    Ok(status) => status,
                    Err(e) => {
                        return Err(NbError::Other(e));
                    },
                };
                return match interpret_idle_read(status) {
                    ReadDecision::EndOfStream => Ok(Vec::new()),
                    ReadDecision::TryLater => Err(NbError::WouldBlock),
                };
            },
            Some(limit) => limit,
        };
        let send2 = get_databuf_params(socket.num(), read_limit);
        assert(send_params_wf(send2.params@, send2.use_16_bit_length));
        let mut rs2: Vec<RecvParam> = Vec::new();
        rs2.push(RecvParam::Buffer(max_len));
        let recv2 = Params::with_16_bit_length(rs2);
        let vals2 = match self.send_and_receive(spi, NinaCommand::GetDatabufTcp, &send2, &recv2) {
            Ok(vals) => vals,
            Err(e) => {
                return Err(NbError::Other(e));
            },
        };
        assert(value_matches_shape(rv_views(vals2@)[0], recv2.params@[0]));
        let (data, _reported) = take_buffer(&vals2, 0);
        Ok(data)
    }
}

/// A connected client socket.
///
/// Owns the [`Socket`] handle; reading and writing borrow the driver and
/// bus per call. [`Self::close`] gives the handle back to the chip, and
/// [`Self::suspend`] releases the bare handle without closing it.
#[derive(Debug)]
pub struct ConnectedSocket {
    socket: Socket,
}

impl View for ConnectedSocket {
    type V = u8;

    closed spec fn view(&self) -> u8 {
        self.socket@
    }
}

impl ConnectedSocket {
    /// Wraps an open socket handle.
    pub fn new(socket: Socket) -> (r: ConnectedSocket)
        ensures
            r@ == socket@,
    {
        ConnectedSocket { socket }
    }

    /// Reads up to `max_len` bytes; see [`WifiNina::socket_read`].
    pub fn read<CS: OutputLine, B: InputLine, T: CountdownTimer, S: SpiTransfer>(
        &mut self,
        wifi: &mut WifiNina<CS, B, T>,
        spi: &mut S,
        max_len: usize,
    ) -> (r: Result<Vec<u8>, NbError>)
        ensures
            r matches Ok(v) ==> v@.len() <= max_len,
            final(self)@ == old(self)@,
    {
        wifi.socket_read(spi, &self.socket, max_len)
    }

    /// Writes the bytes; see [`WifiNina::socket_write`].
    pub fn write<CS: OutputLine, B: InputLine, T: CountdownTimer, S: SpiTransfer>(
        &mut self,
        wifi: &mut WifiNina<CS, B, T>,
        spi: &mut S,
        buf: &[u8],
    ) -> (r: Result<usize, Error>)
        ensures
            r matches Ok(n) ==> n <= buf@.len(),
            buf@.len() == 0 ==> r == Ok::<usize, Error>(0),
            final(self)@ == old(self)@,
    {
        wifi.socket_write(spi, &self.socket, buf)
    }

    /// Releases the bare handle without closing it, so the driver and bus
    /// are free for other work; resume with [`WifiNina::socket_resume`],
    /// or close the handle later with [`WifiNina::socket_close`].
    pub fn suspend(self) -> (r: Socket)
        ensures
            r@ == self@,
    {
        self.socket
    }

    /// Closes the socket on the chip, consuming this wrapper.
    pub fn close<CS: OutputLine, B: InputLine, T: CountdownTimer, S: SpiTransfer>(
        self,
        wifi: &mut WifiNina<CS, B, T>,
        spi: &mut S,
    ) -> (r: Result<(), Error>) {
        wifi.socket_close(spi, self.socket)
    }
}

} // verus!
