//! Decisions of the Enttec widget driver: resynchronising on a start delimiter,
//! picking the widget's serial-number reply out of unrelated traffic, building the
//! outbound envelopes, and reading a discovery response.
//!
//! The driver's I/O loop hands each step the bytes or the package it has read and
//! performs the action that comes back.

use vstd::prelude::*;
use crate::message::{
    declared_length, frame, parse_frame, EnttecMessage, END_OF_MESSAGE_DELIMITER,
    MAX_DATA_LENGTH, MIN_PACKAGE_SIZE, START_OF_MESSAGE_DELIMITER,
};

verus! {

pub const ENTTEC_MANUFACTURER_ID: u16 = 0x454E;

pub const RECEIVED_DMX_PACKET: u8 = 5;

pub const SEND_DMX_PACKET_REQUEST: u8 = 6;

pub const SEND_RDM_PACKET_REQUEST: u8 = 7;

pub const GET_WIDGET_SERIAL_NUMBER: u8 = 10;

pub const SEND_RDM_DISCOVERY_REQUEST: u8 = 11;

/// The start code of a plain DMX frame.
pub const DMX_NULL_START: u8 = 0x00;

/// The RDM parameter id of a discovery-unique-branch request.
pub const DISC_UNIQUE_BRANCH: u16 = 0x0001;

/// Read and write timeout configured on the widget's serial link, in milliseconds.
pub const SERIAL_TIMEOUT_MILLIS: u64 = 50;

/// Delay after every RDM send, giving the widget time to finish the transaction.
pub const RDM_SETTLE_MILLIS: u64 = 5;

/// Errors of the widget driver.
#[derive(Debug, Clone, Copy, PartialEq, Eq, Structural)]
pub enum EnttecProError {
    /// The data size in the received package is too big.
    LengthOutOfRange,
    /// The received package couldn't be deserialized.
    EnttecDeserializationError,
    /// The received rdm package couldn't be deserialized.
    RdmDeserializationError,
    /// The widget reported a serial number that is no valid device id.
    InvalidUniqueIdentifier,
    /// The serial link did not deliver the requested bytes in time.
    Timeout,
    /// The serial link reported another failure.
    FtdiError,
}

impl EnttecProError {
    /// A short description of the error.
    pub fn message(&self) -> (r: &'static str)
        ensures
            *self == EnttecProError::LengthOutOfRange ==> r@ == "length out of range"@,
            *self == EnttecProError::EnttecDeserializationError ==> r@
                == "package couldn't been deserialized"@,
            *self == EnttecProError::RdmDeserializationError ==> r@
                == "rdm package couldn't been deserialized"@,
            *self == EnttecProError::InvalidUniqueIdentifier ==> r@ == "invalid unique identifier"@,
            *self == EnttecProError::Timeout ==> r@ == "timeout"@,
            *self == EnttecProError::FtdiError ==> r@ == "ftdi error"@,
    {
        match self {
            EnttecProError::LengthOutOfRange => "length out of range",
            EnttecProError::EnttecDeserializationError => "package couldn't been deserialized",
            EnttecProError::RdmDeserializationError => "rdm package couldn't been deserialized",
            EnttecProError::InvalidUniqueIdentifier => "invalid unique identifier",
            EnttecProError::Timeout => "timeout",
            EnttecProError::FtdiError => "ftdi error",
        }
    }
}

/// An RDM unique identifier: a manufacturer id and a device id, neither of them
/// all ones (that value is reserved for broadcast).
#[derive(Debug, Clone, Copy, PartialEq, Eq, Structural)]
pub struct Uid {
    pub manufacturer_uid: u16,
    pub device_uid: u32,
}

impl Uid {
    pub open spec fn valid(manufacturer_uid: u16, device_uid: u32) -> bool {
        manufacturer_uid != 0xFFFF && device_uid != 0xFFFF_FFFF
    }

    /// The identifier with these two parts, or `None` when either is reserved.
    pub fn new(manufacturer_uid: u16, device_uid: u32) -> (r: Option<Uid>)
        ensures
            r == (if Uid::valid(manufacturer_uid, device_uid) {
                Some(Uid { manufacturer_uid, device_uid })
            } else {
                None
            }),
    {
        if device_uid == 0xFFFF_FFFF || manufacturer_uid == 0xFFFF {
            None
        } else {
            Some(Uid { manufacturer_uid, device_uid })
        }
    }
}

/// Index of the first start delimiter in `s`, or `s.len()` when there is none.
pub open spec fn first_start(s: Seq<u8>) -> int
    decreases s.len(),
{
    if s.len() == 0 {
        0
    } else if s[0] == START_OF_MESSAGE_DELIMITER {
        0
    } else {
        1 + first_start(s.drop_first())
    }
}

/// What the scanner makes of the bytes received so far.
pub enum ScanView {
    NeedMore(nat),
    Found(u8, Seq<u8>, nat),
    Failed(EnttecProError),
}

/// The scanner's verdict on `s` once the bytes before position `p` have been skipped.
pub open spec fn scan_at(s: Seq<u8>, p: int) -> ScanView {
    let rest = s.subrange(p, s.len() as int);
    if rest.len() == 0 {
        ScanView::NeedMore(1)
    } else if rest.len() < 4 {
        ScanView::NeedMore((4 - rest.len()) as nat)
    } else if declared_length(rest) > MAX_DATA_LENGTH {
        ScanView::Failed(EnttecProError::LengthOutOfRange)
    } else if rest.len() < MIN_PACKAGE_SIZE + declared_length(rest) {
        ScanView::NeedMore((MIN_PACKAGE_SIZE + declared_length(rest) - rest.len()) as nat)
    } else {
        match parse_frame(rest.subrange(0, MIN_PACKAGE_SIZE + declared_length(rest))) {
            Some((label, data)) => ScanView::Found(
                label,
                data,
                (p + MIN_PACKAGE_SIZE + declared_length(rest)) as nat,
            ),
            None => ScanView::Failed(EnttecProError::EnttecDeserializationError),
        }
    }
}

/// The scanner's verdict on the bytes `s` received so far: everything before the
/// first start delimiter is skipped.
pub open spec fn scan_spec(s: Seq<u8>) -> ScanView {
    scan_at(s, first_start(s))
}

/// What the scanner makes of the bytes received so far.
#[derive(Debug)]
pub enum ScanOutcome {
    /// Read this many more bytes and scan again with them appended.
    NeedMore(usize),
    /// A package, and the number of bytes it and the skipped bytes before it took.
    Found(EnttecMessage, usize),
    /// The package after the start delimiter is not acceptable.
    Failed(EnttecProError),
}

impl View for ScanOutcome {
    type V = ScanView;

    open spec fn view(&self) -> ScanView {
        match self {
            ScanOutcome::NeedMore(n) => ScanView::NeedMore(*n as nat),
            ScanOutcome::Found(m, n) => ScanView::Found(m.label, m.data@, *n as nat),
            ScanOutcome::Failed(e) => ScanView::Failed(*e),
        }
    }
}

proof fn lemma_first_start(s: Seq<u8>, p: int)
    requires
        0 <= p <= s.len(),
        p < s.len() ==> s[p] == START_OF_MESSAGE_DELIMITER,
        forall|j: int| 0 <= j < p ==> s[j] != START_OF_MESSAGE_DELIMITER,
    ensures
        first_start(s) == p,
    decreases s.len(),
{
    if s.len() > 0 && s[0] != START_OF_MESSAGE_DELIMITER {
        let t = s.drop_first();
        assert forall|j: int| 0 <= j < p - 1 implies t[j] != START_OF_MESSAGE_DELIMITER by {
            assert(t[j] == s[j + 1]);
        }
        lemma_first_start(t, p - 1);
    }
}

/// Number of bytes before the first start delimiter in `s` (all of `s` when it
/// holds none): bytes that no package can use and a reader may drop.
pub fn garbage_length(s: &[u8]) -> (p: usize)
    ensures
        p <= s@.len(),
        p == first_start(s@),
{
    let mut i: usize = 0;
    while i < s.len() && s[i] != START_OF_MESSAGE_DELIMITER
        invariant
            0 <= i <= s@.len(),
            forall|j: int| 0 <= j < i ==> s@[j] != START_OF_MESSAGE_DELIMITER,
        decreases s@.len() - i,
    {
        i = i + 1;
    }
    proof {
        lemma_first_start(s@, i as int);
    }
    i
}

/// Scans the bytes received so far for a package: bytes before the first start
/// delimiter are skipped, a declared length over `MAX_DATA_LENGTH` is refused
/// before the body is read, and the envelope is then checked whole.
pub fn scan_package(received: &[u8]) -> (r: ScanOutcome)
    ensures
        r@ == scan_spec(received@),
{
    let p = garbage_length(received);
    let len = received.len();
    let rest = vstd::slice::slice_subrange(received, p, len);
    let n = rest.len();
    if n == 0 {
        return ScanOutcome::NeedMore(1);
    }
    if n < 4 {
        return ScanOutcome::NeedMore(4 - n);
    }
    let data_size = rest[2] as usize + 256 * (rest[3] as usize);
    assert(data_size == declared_length(rest@));
    if data_size > MAX_DATA_LENGTH {
        return ScanOutcome::Failed(EnttecProError::LengthOutOfRange);
    }
    if n < MIN_PACKAGE_SIZE + data_size {
        return ScanOutcome::NeedMore(MIN_PACKAGE_SIZE + data_size - n);
    }
    let package = vstd::slice::slice_subrange(rest, 0, MIN_PACKAGE_SIZE + data_size);
    match EnttecMessage::deserialize(package) {
        Some(message) => ScanOutcome::Found(message, p + MIN_PACKAGE_SIZE + data_size),
        None => ScanOutcome::Failed(EnttecProError::EnttecDeserializationError),
    }
}

/// Bytes that precede a well-formed envelope and hold no start delimiter are
/// skipped: the scanner recovers exactly that envelope's message, whatever follows.
pub proof fn lemma_resynchronizes(garbage: Seq<u8>, label: u8, data: Seq<u8>, after: Seq<u8>)
    requires
        data.len() <= MAX_DATA_LENGTH,
        forall|i: int| 0 <= i < garbage.len() ==> garbage[i] != START_OF_MESSAGE_DELIMITER,
    ensures
        scan_spec(garbage + frame(label, data) + after) == ScanView::Found(
            label,
            data,
            (garbage.len() + data.len() + MIN_PACKAGE_SIZE) as nat,
        ),
{
    let f = frame(label, data);
    let s = garbage + f + after;
    let g = garbage.len() as int;
    assert(s[g] == START_OF_MESSAGE_DELIMITER);
    assert forall|j: int| 0 <= j < g implies s[j] != START_OF_MESSAGE_DELIMITER by {
        assert(s[j] == garbage[j]);
    }
    lemma_first_start(s, g);
    let rest = s.subrange(g, s.len() as int);
    assert(rest =~= f + after);
    assert(declared_length(rest) == data.len());
    assert(rest.subrange(0, MIN_PACKAGE_SIZE + data.len()) =~= f);
    crate::message::lemma_round_trip(label, data);
}

/// The 32-bit little-endian value of four bytes.
pub open spec fn le_u32(d: Seq<u8>) -> int {
    d[0] as int + 256 * (d[1] as int) + 65536 * (d[2] as int) + 16777216 * (d[3] as int)
}

/// The payload of a received package without its leading start code.
pub open spec fn after_start_code(d: Seq<u8>) -> Seq<u8> {
    if d.len() == 0 {
        d
    } else {
        d.drop_first()
    }
}

/// What the driver does next while waiting for the widget's serial number.
#[derive(Debug, Clone, Copy, PartialEq, Eq, Structural)]
pub enum UidStep {
    /// The package answered something else: read the next one.
    KeepReading,
    /// The widget's identifier.
    Done(Uid),
    Failed(EnttecProError),
}

/// The envelope that asks the widget for its serial number.
pub fn serial_number_request() -> (r: Vec<u8>)
    ensures
        r@ == frame(GET_WIDGET_SERIAL_NUMBER, Seq::empty()),
{
    let message = EnttecMessage { label: GET_WIDGET_SERIAL_NUMBER, data: Vec::new() };
    message.serialize()
}

/// Handles one package read while waiting for the serial-number reply: packages
/// with another label are skipped, a reply must hold exactly four bytes, and the
/// identifier is the Enttec manufacturer id with the little-endian serial number.
pub fn serial_number_step(read: Result<EnttecMessage, EnttecProError>) -> (r: UidStep)
    ensures
        match read {
            Err(e) => r == UidStep::Failed(e),
            Ok(m) => if m.label != GET_WIDGET_SERIAL_NUMBER {
                r == UidStep::KeepReading
            } else if m.data@.len() != 4 {
                r == UidStep::Failed(EnttecProError::LengthOutOfRange)
            } else if Uid::valid(ENTTEC_MANUFACTURER_ID, le_u32(m.data@) as u32) {
                r == UidStep::Done(
                    Uid {
                        manufacturer_uid: ENTTEC_MANUFACTURER_ID,
                        device_uid: le_u32(m.data@) as u32,
                    },
                )
            } else {
                r == UidStep::Failed(EnttecProError::InvalidUniqueIdentifier)
            },
        },
{
    match read {
        Err(e) => UidStep::Failed(e),
        Ok(m) => {
            if m.label != GET_WIDGET_SERIAL_NUMBER {
                UidStep::KeepReading
            } else if m.data.len() != 4 {
                UidStep::Failed(EnttecProError::LengthOutOfRange)
            } else {
                let device_address: u32 = m.data[0] as u32 + 256 * (m.data[1] as u32) + 65536 * (
                m.data[2] as u32) + 16777216 * (m.data[3] as u32);
                match Uid::new(ENTTEC_MANUFACTURER_ID, device_address) {
                    Some(uid) => UidStep::Done(uid),
                    None => UidStep::Failed(EnttecProError::InvalidUniqueIdentifier),
                }
            }
        },
    }
}

/// The envelope that sends a frame with the given start code and slots.
pub fn custom_package_frame(start_code: u8, package: &[u8]) -> (r: Vec<u8>)
    requires
        package@.len() < MAX_DATA_LENGTH,
    ensures
        r@ == frame(SEND_DMX_PACKET_REQUEST, seq![start_code] + package@),
{
    let mut data: Vec<u8> = Vec::new();
    data.push(start_code);
    let mut i: usize = 0;
    while i < package.len()
        invariant
            0 <= i <= package@.len(),
            data@ == seq![start_code] + package@.subrange(0, i as int),
        decreases package@.len() - i,
    {
        data.push(package[i]);
        i = i + 1;
        assert(data@ =~= seq![start_code] + package@.subrange(0, i as int));
    }
    assert(package@.subrange(0, i as int) =~= package@);
    let message = EnttecMessage { label: SEND_DMX_PACKET_REQUEST, data };
    message.serialize()
}

/// The envelope that sends a DMX frame (null start code) with the given slots.
pub fn dmx_package_frame(package: &[u8]) -> (r: Vec<u8>)
    requires
        package@.len() < MAX_DATA_LENGTH,
    ensures
        r@ == frame(SEND_DMX_PACKET_REQUEST, seq![DMX_NULL_START] + package@),
{
    custom_package_frame(DMX_NULL_START, package)
}

/// The label of an RDM send: discovery for a request of the discovery-unique-branch
/// parameter, a plain RDM send for any other request and for a response.
pub open spec fn rdm_label_spec(request_parameter_id: Option<u16>) -> u8 {
    if request_parameter_id == Some(DISC_UNIQUE_BRANCH) {
        SEND_RDM_DISCOVERY_REQUEST
    } else {
        SEND_RDM_PACKET_REQUEST
    }
}

/// The label of an RDM send. `request_parameter_id` is the parameter id of a
/// request, `None` for a response.
pub fn rdm_label(request_parameter_id: Option<u16>) -> (r: u8)
    ensures
        r == rdm_label_spec(request_parameter_id),
{
    match request_parameter_id {
        Some(parameter_id) => if parameter_id == DISC_UNIQUE_BRANCH {
            SEND_RDM_DISCOVERY_REQUEST
        } else {
            SEND_RDM_PACKET_REQUEST
        },
        None => SEND_RDM_PACKET_REQUEST,
    }
}

/// The envelope that sends the serialized RDM package `rdm_package`.
pub fn rdm_package_frame(request_parameter_id: Option<u16>, rdm_package: &[u8]) -> (r: Vec<u8>)
    requires
        rdm_package@.len() <= MAX_DATA_LENGTH,
    ensures
        r@ == frame(rdm_label_spec(request_parameter_id), rdm_package@),
{
    let label = rdm_label(request_parameter_id);
    let message = EnttecMessage { label, data: vstd::slice::slice_to_vec(rdm_package) };
    message.serialize()
}

/// The bytes of `d` after the start code.
fn strip_start_code(d: &[u8]) -> (r: &[u8])
    ensures
        r@ == after_start_code(d@),
{
    if d.len() == 0 {
        d
    } else {
        let r = vstd::slice::slice_subrange(d, 1, d.len());
        assert(r@ =~= d@.drop_first());
        r
    }
}

/// What the driver does next while waiting for an RDM package.
#[derive(Debug)]
pub enum RdmStep {
    /// The package is not received DMX/RDM data: read the next one.
    KeepReading,
    /// The RDM package's bytes, start code stripped.
    Payload(Vec<u8>),
    Failed(EnttecProError),
}

/// Handles one package read while waiting for an RDM package.
pub fn rdm_payload_step(read: Result<EnttecMessage, EnttecProError>) -> (r: RdmStep)
    ensures
        match read {
            Err(e) => r == RdmStep::Failed(e),
            Ok(m) => if m.label != RECEIVED_DMX_PACKET {
                r is KeepReading
            } else {
                r matches RdmStep::Payload(p) && p@ == after_start_code(m.data@)
            },
        },
{
    match read {
        Err(e) => RdmStep::Failed(e),
        Ok(m) => {
            if m.label != RECEIVED_DMX_PACKET {
                RdmStep::KeepReading
            } else {
                RdmStep::Payload(vstd::slice::slice_to_vec(strip_start_code(m.data.as_slice())))
            }
        },
    }
}

/// The identifier that dmx_rdm reads from a discovery response, as manufacturer
/// id and device id, or `None` when it refuses the bytes.
pub uninterp spec fn discovery_uid_of(b: Seq<u8>) -> Option<(u16, u32)>;

/// Relies on dmx_rdm::rdm_data::deserialize_discovery_response: decodes the
/// encoded identifier of a discovery response and checks its checksum; the result
/// depends on the bytes alone.
#[verifier::external_body]
fn parse_discovery_response(b: &[u8]) -> (r: Option<(u16, u32)>)
    ensures
        r == discovery_uid_of(b@),
{
    match dmx_rdm::rdm_data::deserialize_discovery_response(b) {
        Ok(uid) => Some((uid.manufacturer_uid(), uid.device_uid())),
        Err(_) => None,
    }
}

/// The outcome of a discovery round.
#[derive(Debug, Clone, Copy, PartialEq, Eq, Structural)]
pub enum DiscoveryOption {
    /// Exactly one device answered.
    Found(Uid),
    /// Several devices answered at once.
    Collision,
    /// No device answered.
    NoDevice,
}

pub open spec fn discovery_option_spec(parsed: Option<(u16, u32)>) -> DiscoveryOption {
    match parsed {
        Some((manufacturer_uid, device_uid)) => DiscoveryOption::Found(
            Uid { manufacturer_uid, device_uid },
        ),
        None => DiscoveryOption::Collision,
    }
}

/// A parsed identifier means one device answered; a response that does not parse
/// is a collision of several.
pub fn discovery_option(parsed: Option<(u16, u32)>) -> (r: DiscoveryOption)
    ensures
        r == discovery_option_spec(parsed),
{
    match parsed {
        Some((manufacturer_uid, device_uid)) => DiscoveryOption::Found(
            Uid { manufacturer_uid, device_uid },
        ),
        None => DiscoveryOption::Collision,
    }
}

/// What the driver does next while waiting for a discovery response.
#[derive(Debug, Clone, Copy, PartialEq, Eq, Structural)]
pub enum DiscoveryStep {
    /// The package is not received DMX/RDM data: read the next one.
    KeepReading,
    Done(DiscoveryOption),
    Failed(EnttecProError),
}

/// Handles one package read while waiting for a discovery response: a timeout
/// means no device answered, and a response either names one device or is a
/// collision; neither is an error.
pub fn discovery_step(read: Result<EnttecMessage, EnttecProError>) -> (r: DiscoveryStep)
    ensures
        match read {
            Err(e) => if e == EnttecProError::Timeout {
                r == DiscoveryStep::Done(DiscoveryOption::NoDevice)
            } else {
                r == DiscoveryStep::Failed(e)
            },
            Ok(m) => if m.label != RECEIVED_DMX_PACKET {
                r == DiscoveryStep::KeepReading
            } else {
                r == DiscoveryStep::Done(
                    discovery_option_spec(discovery_uid_of(after_start_code(m.data@))),
                )
            },
        },
{
    match read {
        Err(EnttecProError::Timeout) => DiscoveryStep::Done(DiscoveryOption::NoDevice),
        Err(e) => DiscoveryStep::Failed(e),
        Ok(m) => {
            if m.label != RECEIVED_DMX_PACKET {
                DiscoveryStep::KeepReading
            } else {
                let parsed = parse_discovery_response(strip_start_code(m.data.as_slice()));
                DiscoveryStep::Done(discovery_option(parsed))
            }
        },
    }
}

} // verus!
