//! Network information, host-name resolution, and ping.

use vstd::prelude::*;

use crate::commands::{
    rv_views, send_params_wf, take_byte, take_byte_array, take_le_word, value_matches_shape,
    NinaCommand, Params, RecvParam, RecvValue, SendParam,
};
use crate::transport::{CountdownTimer, InputLine, OutputLine, SpiTransfer};
use crate::{Error, WifiNina};

verus! {

/// The chip's view of its network: IP address, netmask, and gateway.
#[derive(Debug, Clone, Copy)]
pub struct NetworkInfo {
    pub ip: [u8; 4],
    pub netmask: [u8; 4],
    pub gateway_ip: [u8; 4],
}

/// The single parameter of a `RequestHostByName` command: the name bytes.
pub fn host_lookup_params(name: &[u8]) -> (r: Params<SendParam>)
    ensures
        !r.use_16_bit_length,
        r.params@.len() == 1,
        r.params@[0] matches SendParam::Bytes(b) && b@ == name@,
{
    let mut ps: Vec<SendParam> = Vec::new();
    ps.push(SendParam::Bytes(vstd::slice::slice_to_vec(name)));
    Params::of(ps)
}

/// Whether the byte answering `RequestHostByName` says an address was
/// found: zero means the lookup failed, anything else that `GetHostByName`
/// can fetch it.
pub fn lookup_found(success: u8) -> (r: bool)
    ensures
        r == (success != 0),
{
    success != 0
}

/// The parameters of a `Ping` command: the four address bytes, then the
/// time-to-live byte.
pub fn ping_params(ip: &[u8; 4], ttl: u8) -> (r: Params<SendParam>)
    ensures
        !r.use_16_bit_length,
        r.params@.len() == 2,
        r.params@[0] matches SendParam::Bytes(b) && b@ == ip@,
        r.params@[1] == SendParam::Byte(ttl),
{
    let mut ip_bytes: Vec<u8> = Vec::new();
    ip_bytes.push(ip[0]);
    ip_bytes.push(ip[1]);
    ip_bytes.push(ip[2]);
    ip_bytes.push(ip[3]);
    assert(ip_bytes@ =~= ip@);
    let mut ps: Vec<SendParam> = Vec::new();
    ps.push(SendParam::Bytes(ip_bytes));
    ps.push(SendParam::Byte(ttl));
    Params::of(ps)
}

/// The four bytes of an address slot, as an array.
fn ip_from_vals(vals: &Vec<RecvValue>, i: usize) -> (r: [u8; 4])
    requires
        i < vals@.len(),
        rv_views(vals@)[i as int] matches crate::commands::RecvValueV::ByteArray(p) && p.len()
            == 4,
    ensures
        rv_views(vals@)[i as int] == crate::commands::RecvValueV::ByteArray(r@),
{
    let v = take_byte_array(vals, i);
    let r: [u8; 4] = [v[0], v[1], v[2], v[3]];
    assert(r@ =~= v@);
    r
}

impl<CS, B, T> WifiNina<CS, B, T> where CS: OutputLine, B: InputLine, T: CountdownTimer {
    /// Queries the chip for its IP address, netmask, and gateway.
    pub fn network_info<S: SpiTransfer>(&mut self, spi: &mut S) -> (r: Result<NetworkInfo, Error>) {
        let send: Params<SendParam> = Params::none();
        let mut rs: Vec<RecvParam> = Vec::new();
        rs.push(RecvParam::ByteArray(4));
        rs.push(RecvParam::ByteArray(4));
        rs.push(RecvParam::ByteArray(4));
        let recv = Params::of(rs);
        let vals = self.send_and_receive(spi, NinaCommand::GetIpAddress, &send, &recv)?;
        assert(value_matches_shape(rv_views(vals@)[0], recv.params@[0]));
        assert(value_matches_shape(rv_views(vals@)[1], recv.params@[1]));
        assert(value_matches_shape(rv_views(vals@)[2], recv.params@[2]));
        let ip = ip_from_vals(&vals, 0);
        let netmask = ip_from_vals(&vals, 1);
        let gateway_ip = ip_from_vals(&vals, 2);
        Ok(NetworkInfo { ip, netmask, gateway_ip })
    }

    /// Asks the chip to resolve a host name over DNS. Returns `None` when
    /// the lookup found no address.
    ///
    /// The lookup is split across two commands by the firmware: the first
    /// reports success or failure, the second hands out the address.
    pub fn resolve_host_name<S: SpiTransfer>(&mut self, spi: &mut S, name: &[u8]) -> (r: Result<
        Option<[u8; 4]>,
        Error,
    >)
        requires
            name@.len() < 256,
    {
        let send = host_lookup_params(name);
        assert(send_params_wf(send.params@, send.use_16_bit_length));
        let mut rs: Vec<RecvParam> = Vec::new();
        rs.push(RecvParam::Byte);
        let recv = Params::of(rs);
        let vals = self.send_and_receive(spi, NinaCommand::RequestHostByName, &send, &recv)?;
        assert(value_matches_shape(rv_views(vals@)[0], recv.params@[0]));
        if !lookup_found(take_byte(&vals, 0)) {
            return Ok(None);
        }
        let send2: Params<SendParam> = Params::none();
        let mut rs2: Vec<RecvParam> = Vec::new();
        rs2.push(RecvParam::ByteArray(4));
        let recv2 = Params::of(rs2);
        let vals2 = self.send_and_receive(spi, NinaCommand::GetHostByName, &send2, &recv2)?;
        assert(value_matches_shape(rv_views(vals2@)[0], recv2.params@[0]));
        let ip = ip_from_vals(&vals2, 0);
        Ok(Some(ip))
    }

    /// Pings the given address with the given TTL and returns the time in
    /// milliseconds the chip reports.
    pub fn ping<S: SpiTransfer>(&mut self, spi: &mut S, ip: &[u8; 4], ttl: u8) -> (r: Result<
        u16,
        Error,
    >) {
        let send = ping_params(ip, ttl);
        assert(send_params_wf(send.params@, send.use_16_bit_length));
        let mut rs: Vec<RecvParam> = Vec::new();
        rs.push(RecvParam::LEWord);
        let recv = Params::of(rs);
        let vals = self.send_and_receive(spi, NinaCommand::Ping, &send, &recv)?;
        assert(value_matches_shape(rv_views(vals@)[0], recv.params@[0]));
        Ok(take_le_word(&vals, 0))
    }
}

} // verus!
