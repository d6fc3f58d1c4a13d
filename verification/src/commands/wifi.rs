//! Wi-Fi station and access-point commands.

use vstd::prelude::*;

use crate::commands::{
    rv_views, send_params_wf, take_byte, value_matches_shape, NinaCommand, Params, RecvParam,
    SendParam, END_TOKEN, REPLY_FLAG,
};
use crate::transport::{CountdownTimer, InputLine, OutputLine, SpiTransfer};
use crate::{Error, WifiNina};

verus! {

/// The connection status byte the chip reports for its Wi-Fi interface.
#[derive(Debug, PartialEq, Eq, Structural, Clone, Copy)]
pub enum WifiStatus {
    Idle,
    NoSsidAvailable,
    ScanCompleted,
    Connected,
    ConnectFailed,
    ConnectionLost,
    Disconnected,
    ApListening,
    ApConnected,
    ApFailed,
    UnknownStatus,
}

impl WifiStatus {
    /// The status a reported byte stands for.
    pub open spec fn spec_from_byte(b: u8) -> WifiStatus {
        match b {
            0u8 => WifiStatus::Idle,
            1u8 => WifiStatus::NoSsidAvailable,
            2u8 => WifiStatus::ScanCompleted,
            3u8 => WifiStatus::Connected,
            4u8 => WifiStatus::ConnectFailed,
            5u8 => WifiStatus::ConnectionLost,
            6u8 => WifiStatus::Disconnected,
            7u8 => WifiStatus::ApListening,
            8u8 => WifiStatus::ApConnected,
            9u8 => WifiStatus::ApFailed,
            _ => WifiStatus::UnknownStatus,
        }
    }

    /// The status a reported byte stands for.
    pub fn from_byte(b: u8) -> (r: WifiStatus)
        ensures
            r == WifiStatus::spec_from_byte(b),
    {
        match b {
            0u8 => WifiStatus::Idle,
            1u8 => WifiStatus::NoSsidAvailable,
            2u8 => WifiStatus::ScanCompleted,
            3u8 => WifiStatus::Connected,
            4u8 => WifiStatus::ConnectFailed,
            5u8 => WifiStatus::ConnectionLost,
            6u8 => WifiStatus::Disconnected,
            7u8 => WifiStatus::ApListening,
            8u8 => WifiStatus::ApConnected,
            9u8 => WifiStatus::ApFailed,
            _ => WifiStatus::UnknownStatus,
        }
    }
}

/// What one status poll decides while joining a network or standing up
/// an access point.
#[derive(Debug, PartialEq, Eq, Structural, Clone, Copy)]
pub enum PollVerdict {
    /// The wait is over and succeeded.
    Success,
    /// The chip reported a terminal failure; stop waiting.
    GiveUp,
    /// Nothing decided yet; poll again until the wait runs out.
    Again,
}

/// Decides one poll while joining a network: `Connected` succeeds;
/// `ConnectFailed`, `ConnectionLost` and `Disconnected` give up early;
/// everything else polls again.
pub fn interpret_join_poll(status: WifiStatus) -> (r: PollVerdict)
    ensures
        r == (match status {
            WifiStatus::Connected => PollVerdict::Success,
            WifiStatus::ConnectFailed | WifiStatus::ConnectionLost | WifiStatus::Disconnected
                => PollVerdict::GiveUp,
            _ => PollVerdict::Again,
        }),
{
    match status {
        WifiStatus::Connected => PollVerdict::Success,
        WifiStatus::ConnectFailed => PollVerdict::GiveUp,
        WifiStatus::ConnectionLost => PollVerdict::GiveUp,
        WifiStatus::Disconnected => PollVerdict::GiveUp,
        _ => PollVerdict::Again,
    }
}

/// Decides one poll while standing up an access point: `ApListening` and
/// `ApConnected` succeed; `ApFailed` gives up early; everything else
/// polls again.
pub fn interpret_ap_poll(status: WifiStatus) -> (r: PollVerdict)
    ensures
        r == (match status {
            WifiStatus::ApListening | WifiStatus::ApConnected => PollVerdict::Success,
            WifiStatus::ApFailed => PollVerdict::GiveUp,
            _ => PollVerdict::Again,
        }),
{
    match status {
        WifiStatus::ApListening => PollVerdict::Success,
        WifiStatus::ApConnected => PollVerdict::Success,
        WifiStatus::ApFailed => PollVerdict::GiveUp,
        _ => PollVerdict::Again,
    }
}

/// The parameters of the join command: the SSID, and the passphrase when
/// one is given (`SetNetworkAndPassphrase` versus `SetNetwork`).
pub fn join_network_params(ssid: &[u8], password: Option<&[u8]>) -> (r: Params<SendParam>)
    ensures
        !r.use_16_bit_length,
        password matches Some(p) ==> {
            &&& r.params@.len() == 2
            &&& r.params@[0] matches SendParam::Bytes(b) && b@ == ssid@
            &&& r.params@[1] matches SendParam::Bytes(b2) && b2@ == p@
        },
        password is None ==> r.params@.len() == 1 && (r.params@[0] matches SendParam::Bytes(b)
            && b@ == ssid@),
{
    let mut ps: Vec<SendParam> = Vec::new();
    ps.push(SendParam::Bytes(vstd::slice::slice_to_vec(ssid)));
    match password {
        Some(p) => {
            ps.push(SendParam::Bytes(vstd::slice::slice_to_vec(p)));
        },
        None => {},
    }
    Params::of(ps)
}

/// The parameters of the access-point command: the name, the passphrase
/// when one is given (`SetApPassphrase` versus `SetApNetwork`), and the
/// channel byte last.
pub fn create_ap_params(name: &[u8], password: Option<&[u8]>, channel: u8) -> (r: Params<
    SendParam,
>)
    ensures
        !r.use_16_bit_length,
        password matches Some(p) ==> {
            &&& r.params@.len() == 3
            &&& r.params@[0] matches SendParam::Bytes(b) && b@ == name@
            &&& r.params@[1] matches SendParam::Bytes(b2) && b2@ == p@
            &&& r.params@[2] == SendParam::Byte(channel)
        },
        password is None ==> {
            &&& r.params@.len() == 2
            &&& r.params@[0] matches SendParam::Bytes(b) && b@ == name@
            &&& r.params@[1] == SendParam::Byte(channel)
        },
{
    let mut ps: Vec<SendParam> = Vec::new();
    ps.push(SendParam::Bytes(vstd::slice::slice_to_vec(name)));
    match password {
        Some(p) => {
            ps.push(SendParam::Bytes(vstd::slice::slice_to_vec(p)));
        },
        None => {},
    }
    ps.push(SendParam::Byte(channel));
    Params::of(ps)
}

/// The networks a scan found: at most ten SSIDs of at most 255 bytes each.
#[derive(Debug)]
pub struct WifiScanResults {
    /// The SSIDs read from the chip, in the order it reported them.
    pub ssids: Vec<Vec<u8>>,
    /// The network count the chip announced, which can exceed the ten
    /// SSIDs kept.
    pub ssids_count: usize,
}

impl Default for WifiScanResults {
    /// An empty result set, ready for [`WifiNina::wifi_scan`] to fill.
    fn default() -> (r: Self)
        ensures
            r.ssids@.len() == 0,
            r.ssids_count == 0,
    {
        WifiScanResults { ssids: Vec::new(), ssids_count: 0 }
    }
}

/// The deep view of a list of SSIDs.
pub open spec fn ssid_views(items: Seq<Vec<u8>>) -> Seq<Seq<u8>> {
    items.map_values(|v: Vec<u8>| v@)
}

/// The outcome of parsing a scan response prefix, whose parameter count is
/// data-dependent: the announced network count, the SSIDs read, and the
/// bytes consumed.
#[verifier::ext_equal]
pub enum ScanParseV {
    NeedMore,
    Fail(Error),
    Done { count: u8, items: Seq<Seq<u8>>, used: int },
}

/// Parses `k` length-prefixed SSIDs.
pub open spec fn spec_parse_scan_items(k: int, s: Seq<u8>) -> ScanParseV
    decreases k,
{
    if k <= 0 {
        ScanParseV::Done { count: 0, items: Seq::empty(), used: 0 }
    } else if s.len() < 1 {
        ScanParseV::NeedMore
    } else {
        let len = s[0] as int;
        if s.len() < 1 + len {
            ScanParseV::NeedMore
        } else {
            match spec_parse_scan_items(k - 1, s.skip(1 + len)) {
                ScanParseV::NeedMore => ScanParseV::NeedMore,
                ScanParseV::Fail(e) => ScanParseV::Fail(e),
                ScanParseV::Done { count: _, items, used } => ScanParseV::Done {
                    count: 0,
                    items: seq![s.subrange(1, 1 + len)] + items,
                    used: 1 + len + used,
                },
            }
        }
    }
}

/// Parses a whole scan response, starting at the byte after START: the
/// echoed command byte, the network count, up to ten length-prefixed
/// SSIDs, and the closing END token.
pub open spec fn spec_parse_scan(s: Seq<u8>) -> ScanParseV {
    let reply = NinaCommand::ScanNetworks.spec_byte() | REPLY_FLAG;
    if s.len() < 1 {
        ScanParseV::NeedMore
    } else if s[0] != reply {
        ScanParseV::Fail(Error::UnexpectedResponse(reply, s[0]))
    } else if s.len() < 2 {
        ScanParseV::NeedMore
    } else {
        let count = s[1];
        let k: int = if count > 10 {
            10
        } else {
            count as int
        };
        match spec_parse_scan_items(k, s.skip(2)) {
            ScanParseV::NeedMore => ScanParseV::NeedMore,
            ScanParseV::Fail(e) => ScanParseV::Fail(e),
            ScanParseV::Done { count: _, items, used } => {
                let p = 2 + used;
                if s.len() <= p {
                    ScanParseV::NeedMore
                } else if s[p] != END_TOKEN {
                    ScanParseV::Fail(Error::UnexpectedResponse(END_TOKEN, s[p]))
                } else {
                    ScanParseV::Done { count, items, used: p + 1 }
                }
            },
        }
    }
}

/// How far the exec scan parser got.
pub enum ScanStep {
    NeedMore,
    Fail(Error),
    Done(usize),
}

/// Parses `k` length-prefixed SSIDs from `s[pos]` on, appending them to
/// `out`; mirrors [`spec_parse_scan_items`].
fn parse_scan_items(k: u8, s: &Vec<u8>, pos: usize, out: &mut Vec<Vec<u8>>) -> (r: ScanStep)
    requires
        pos <= s@.len(),
    ensures
        ({
            let sp = spec_parse_scan_items(k as int, s@.skip(pos as int));
            match sp {
                ScanParseV::NeedMore => r is NeedMore,
                ScanParseV::Fail(e) => r == ScanStep::Fail(e),
                ScanParseV::Done { count: _, items, used } => {
                    &&& r matches ScanStep::Done(u) && u == used
                    &&& 0 <= used <= s@.len() - pos
                    &&& ssid_views(final(out)@) == ssid_views(old(out)@) + items
                    &&& final(out)@.len() <= old(out)@.len() + k
                    &&& forall|i: int|
                        old(out)@.len() <= i < final(out)@.len()
                            ==> (#[trigger] final(out)@[i])@.len() <= 255
                },
            }
        }),
    decreases k,
{
    let ghost stail = s@.skip(pos as int);
    if k == 0 {
        assert(ssid_views(out@) =~= ssid_views(out@) + Seq::<Seq<u8>>::empty());
        return ScanStep::Done(0);
    }
    if s.len() - pos < 1 {
        return ScanStep::NeedMore;
    }
    let len: usize = s[pos] as usize;
    if s.len() - pos - 1 < len {
        return ScanStep::NeedMore;
    }
    let mut item: Vec<u8> = Vec::new();
    let mut j: usize = 0;
    while j < len
        invariant
            j <= len,
            pos + 1 + len <= s@.len(),
            s@.len() <= usize::MAX,
            item@ == s@.subrange(pos + 1, pos + 1 + j),
        decreases len - j,
    {
        item.push(s[pos + 1 + j]);
        assert(item@ =~= s@.subrange(pos + 1, pos + 1 + j + 1));
        j += 1;
    }
    assert(item@ =~= stail.subrange(1, 1 + len as int));
    out.push(item);
    let ghost mid = out@;
    assert(ssid_views(mid) =~= ssid_views(old(out)@).push(stail.subrange(1, 1 + len as int)));
    proof {
        assert(stail.skip(1 + len as int) =~= s@.skip(pos + 1 + len));
    }
    let r2 = parse_scan_items(k - 1, s, pos + 1 + len, out);
    proof {
        let rest = spec_parse_scan_items(k - 1 as int, stail.skip(1 + len as int));
        if let ScanParseV::Done { count: _, items, used } = rest {
            assert(ssid_views(old(out)@) + (seq![stail.subrange(1, 1 + len as int)] + items)
                =~= ssid_views(mid) + items);
            assert forall|i: int|
                old(out)@.len() <= i < out@.len() implies (#[trigger] out@[i])@.len()
                <= 255 by {
                assert(ssid_views(out@)[i] == out@[i]@);
                if i < mid.len() {
                    assert(ssid_views(out@)[i] == ssid_views(mid)[i]);
                    assert(ssid_views(mid)[i] == mid[i]@);
                    assert(mid[i] == item);
                }
            }
        }
    }
    match r2 {
        ScanStep::Done(u) => ScanStep::Done(1 + len + u),
        other => other,
    }
}

/// The outcome of parsing a whole scan response.
pub enum ScanParse {
    NeedMore,
    Fail(Error),
    Done { count: u8, items: Vec<Vec<u8>>, used: usize },
}

/// Parses a scan response prefix, mirroring [`spec_parse_scan`].
pub fn parse_scan(s: &Vec<u8>) -> (r: ScanParse)
    ensures
        ({
            let sp = spec_parse_scan(s@);
            match sp {
                ScanParseV::NeedMore => r is NeedMore,
                ScanParseV::Fail(e) => r == ScanParse::Fail(e),
                ScanParseV::Done { count, items, used } => (r matches ScanParse::Done {
                    count: c,
                    items: its,
                    used: u,
                } && c == count && u == used && ssid_views(its@) == items && its@.len() <= 10
                    && (forall|i: int| 0 <= i < its@.len() ==> #[trigger] its@[i]@.len() <= 255)),
            }
        }),
{
    let reply = NinaCommand::ScanNetworks.byte() | REPLY_FLAG;
    if s.len() < 1 {
        return ScanParse::NeedMore;
    }
    if s[0] != reply {
        return ScanParse::Fail(Error::UnexpectedResponse(reply, s[0]));
    }
    if s.len() < 2 {
        return ScanParse::NeedMore;
    }
    let count = s[1];
    let k: u8 = if count > 10 {
        10
    } else {
        count
    };
    let mut items: Vec<Vec<u8>> = Vec::new();
    assert(ssid_views(items@) =~= Seq::<Seq<u8>>::empty());
    let step = parse_scan_items(k, s, 2, &mut items);
    proof {
        if let ScanParseV::Done { items: sitems, .. } = spec_parse_scan_items(k as int, s@.skip(2))
             {
            assert(Seq::<Seq<u8>>::empty() + sitems =~= sitems);
        }
    }
    match step {
        ScanStep::NeedMore => ScanParse::NeedMore,
        ScanStep::Fail(e) => ScanParse::Fail(e),
        ScanStep::Done(used) => {
            let p = 2 + used;
            if s.len() <= p {
                return ScanParse::NeedMore;
            }
            if s[p] != END_TOKEN {
                return ScanParse::Fail(Error::UnexpectedResponse(END_TOKEN, s[p]));
            }
            ScanParse::Done { count, items, used: p + 1 }
        },
    }
}

impl<CS, B, T> WifiNina<CS, B, T> where CS: OutputLine, B: InputLine, T: CountdownTimer {
    /// Returns the chip's current Wi-Fi connection status: sends
    /// `GetConnectionStatus` with no parameters and maps the reply byte
    /// through [`WifiStatus::from_byte`].
    pub fn wifi_status<S: SpiTransfer>(&mut self, spi: &mut S) -> (r: Result<WifiStatus, Error>) {
        let send: Params<SendParam> = Params::none();
        let mut rs: Vec<RecvParam> = Vec::new();
        rs.push(RecvParam::Byte);
        let recv = Params::of(rs);
        let vals = self.send_and_receive(spi, NinaCommand::GetConnectionStatus, &send, &recv)?;
        assert(value_matches_shape(rv_views(vals@)[0], recv.params@[0]));
        Ok(WifiStatus::from_byte(take_byte(&vals, 0)))
    }

    /// Joins a Wi-Fi network, then polls the connection status once per
    /// second for up to fifteen seconds. Success means the chip reported
    /// `Connected`; a failed, lost or disconnected status gives up early
    /// with `ConnectionFailed`.
    pub fn wifi_connect<S: SpiTransfer>(
        &mut self,
        spi: &mut S,
        ssid: &[u8],
        password: Option<&[u8]>,
    ) -> (r: Result<WifiStatus, Error>)
        requires
            ssid@.len() < 256,
            password matches Some(p) ==> p@.len() < 256,
        ensures
            r matches Ok(st) ==> st == WifiStatus::Connected,
    {
        let mut rs: Vec<RecvParam> = Vec::new();
        rs.push(RecvParam::Ack);
        let recv = Params::of(rs);
        let send = join_network_params(ssid, password);
        assert(send_params_wf(send.params@, send.use_16_bit_length));
        let cmd = if password.is_some() {
            NinaCommand::SetNetworkAndPassphrase
        } else {
            NinaCommand::SetNetwork
        };
        self.send_and_receive(spi, cmd, &send, &recv)?;
        let mut last_status = WifiStatus::UnknownStatus;
        let mut i: usize = 0;
        while i < 15
            invariant
                i <= 15,
            decreases 15 - i,
        {
            last_status = self.wifi_status(spi)?;
            match interpret_join_poll(last_status) {
                PollVerdict::Success => {
                    return Ok(last_status);
                },
                PollVerdict::GiveUp => {
                    return Err(Error::ConnectionFailed(last_status));
                },
                PollVerdict::Again => {},
            }
            self.timer.start_ms(1_000);
            self.wait_timer();
            i += 1;
        }
        Err(Error::ConnectionFailed(last_status))
    }

    /// Starts an access point with the given name, optional password, and
    /// 802.11b channel, then polls once per second for up to fifteen
    /// seconds until the chip reports the access point up.
    pub fn wifi_create_ap<S: SpiTransfer>(
        &mut self,
        spi: &mut S,
        name: &[u8],
        password: Option<&[u8]>,
        channel: u8,
    ) -> (r: Result<WifiStatus, Error>)
        requires
            name@.len() < 256,
            password matches Some(p) ==> p@.len() < 256,
        ensures
            r matches Ok(st) ==> st == WifiStatus::ApListening || st == WifiStatus::ApConnected,
    {
        let mut rs: Vec<RecvParam> = Vec::new();
        rs.push(RecvParam::Ack);
        let recv = Params::of(rs);
        let send = create_ap_params(name, password, channel);
        assert(send_params_wf(send.params@, send.use_16_bit_length));
        let cmd = if password.is_some() {
            NinaCommand::SetApPassphrase
        } else {
            NinaCommand::SetApNetwork
        };
        self.send_and_receive(spi, cmd, &send, &recv)?;
        let mut last_status = WifiStatus::UnknownStatus;
        let mut i: usize = 0;
        while i < 15
            invariant
                i <= 15,
            decreases 15 - i,
        {
            last_status = self.wifi_status(spi)?;
            match interpret_ap_poll(last_status) {
                PollVerdict::Success => {
                    return Ok(last_status);
                },
                PollVerdict::GiveUp => {
                    return Err(Error::ConnectionFailed(last_status));
                },
                PollVerdict::Again => {},
            }
            self.timer.start_ms(1_000);
            self.wait_timer();
            i += 1;
        }
        Err(Error::ConnectionFailed(last_status))
    }

    /// Scans for networks and fills `result` with up to ten SSIDs.
    /// Returns the network count the chip announced.
    ///
    /// The response's parameter count is data-dependent, so this reads the
    /// frame with its own parser rather than the fixed-shape one. Note
    /// that the firmware drops any current connection when it scans.
    pub fn wifi_scan<S: SpiTransfer>(
        &mut self,
        spi: &mut S,
        result: &mut WifiScanResults,
    ) -> (r: Result<u8, Error>)
        ensures
            r matches Ok(n) ==> {
                &&& final(result).ssids_count == n as int
                &&& final(result).ssids@.len() <= 10
                &&& forall|i: int|
                    0 <= i < final(result).ssids@.len()
                        ==> (#[trigger] final(result).ssids@[i])@.len() <= 255
            },
    {
        let send: Params<SendParam> = Params::none();
        self.send_command(spi, NinaCommand::ScanNetworks, &send)?;
        match self.chip_select.select(&mut self.timer) {
            Err(e) => {
                return Err(crate::commands::chip_select_error(e));
            },
            Ok(_) => {},
        }
        match Self::wait_for_response_start(spi, &mut self.timer) {
            Err(e) => {
                self.chip_select.deselect();
                return Err(e);
            },
            Ok(_) => {},
        }
        let bound: usize = 3 + 10 * 256;
        let mut rx: Vec<u8> = Vec::new();
        while rx.len() < bound
            invariant
                bound == 3 + 10 * 256,
            decreases bound - rx@.len(),
        {
            match parse_scan(&rx) {
                ScanParse::Done { count, items, used: _ } => {
                    self.chip_select.deselect();
                    result.ssids = items;
                    result.ssids_count = count as usize;
                    return Ok(count);
                },
                ScanParse::Fail(e) => {
                    self.chip_select.deselect();
                    return Err(e);
                },
                ScanParse::NeedMore => {
                    match spi.transfer_byte() {
                        Ok(b) => {
                            rx.push(b);
                        },
                        Err(_) => {
                            self.chip_select.deselect();
                            return Err(Error::SpiError);
                        },
                    }
                },
            }
        }
        self.chip_select.deselect();
        Err(Error::ResponseTimeout)
    }
}

} // verus!
