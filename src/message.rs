//! The Enttec widget message envelope:
//! `0x7E, label, len_lo, len_hi, data.., 0xE7`.

use vstd::prelude::*;

verus! {

pub const START_OF_MESSAGE_DELIMITER: u8 = 0x7E;

pub const END_OF_MESSAGE_DELIMITER: u8 = 0xE7;

pub const MAX_DATA_LENGTH: usize = 600;

pub const MIN_PACKAGE_SIZE: usize = 5;

/// The little-endian 16-bit length field of an envelope whose header starts at `b[0]`.
pub open spec fn declared_length(b: Seq<u8>) -> int {
    b[2] as int + 256 * (b[3] as int)
}

/// The wire form of a message with the given label and payload.
pub open spec fn frame(label: u8, data: Seq<u8>) -> Seq<u8> {
    seq![
        START_OF_MESSAGE_DELIMITER,
        label,
        (data.len() % 256) as u8,
        (data.len() / 256) as u8,
    ] + data + seq![END_OF_MESSAGE_DELIMITER]
}

/// The message that a buffer holds, when it is exactly one well-formed envelope.
pub open spec fn parse_frame(b: Seq<u8>) -> Option<(u8, Seq<u8>)> {
    if b.len() < MIN_PACKAGE_SIZE || b[0] != START_OF_MESSAGE_DELIMITER || b.last()
        != END_OF_MESSAGE_DELIMITER {
        None
    } else if declared_length(b) > MAX_DATA_LENGTH || b.len() != MIN_PACKAGE_SIZE
        + declared_length(b) {
        None
    } else {
        Some((b[1], b.subrange(4, 4 + declared_length(b))))
    }
}

/// One message to or from the widget: an operation label and its payload.
#[derive(Debug, Clone)]
pub struct EnttecMessage {
    pub label: u8,
    pub data: Vec<u8>,
}

impl View for EnttecMessage {
    type V = (u8, Seq<u8>);

    open spec fn view(&self) -> (u8, Seq<u8>) {
        (self.label, self.data@)
    }
}

/// Appends every byte of `s` to `v`.
fn push_all(v: &mut Vec<u8>, s: &[u8])
    ensures
        final(v)@ == old(v)@ + s@,
{
    let mut i: usize = 0;
    while i < s.len()
        invariant
            0 <= i <= s@.len(),
            v@ == old(v)@ + s@.subrange(0, i as int),
        decreases s@.len() - i,
    {
        v.push(s[i]);
        i = i + 1;
        assert(v@ =~= old(v)@ + s@.subrange(0, i as int));
    }
    assert(s@.subrange(0, i as int) =~= s@);
}

impl EnttecMessage {
    /// The envelope of this message.
    pub fn serialize(&self) -> (r: Vec<u8>)
        requires
            self.data@.len() <= MAX_DATA_LENGTH,
        ensures
            r@ == frame(self.label, self.data@),
            r@.len() == self.data@.len() + MIN_PACKAGE_SIZE,
    {
        let n = self.data.len();
        let mut result: Vec<u8> = Vec::new();
        result.push(START_OF_MESSAGE_DELIMITER);
        result.push(self.label);
        result.push((n % 256) as u8);
        result.push((n / 256) as u8);
        push_all(&mut result, self.data.as_slice());
        result.push(END_OF_MESSAGE_DELIMITER);
        assert(result@ =~= frame(self.label, self.data@));
        result
    }

    /// The message held by `data`, or `None` when `data` is not exactly one
    /// well-formed envelope.
    pub fn deserialize(data: &[u8]) -> (r: Option<Self>)
        ensures
            r.is_some() == parse_frame(data@).is_some(),
            r.is_some() ==> parse_frame(data@) == Some(r.unwrap()@),
    {
        if data.len() < MIN_PACKAGE_SIZE {
            return None;
        }
        if data[0] != START_OF_MESSAGE_DELIMITER || data[data.len() - 1]
            != END_OF_MESSAGE_DELIMITER {
            return None;
        }
        let label = data[1];
        let data_length = data[2] as usize + 256 * (data[3] as usize);
        if data_length > MAX_DATA_LENGTH || data.len() != MIN_PACKAGE_SIZE + data_length {
            return None;
        }
        let payload = vstd::slice::slice_subrange(data, 4, data_length + 4);
        let enttec_data = vstd::slice::slice_to_vec(payload);
        Some(EnttecMessage { label, data: enttec_data })
    }
}

/// Decoding the envelope of a message gives the message back, for every label and
/// every payload of at most `MAX_DATA_LENGTH` bytes.
pub proof fn lemma_round_trip(label: u8, data: Seq<u8>)
    requires
        data.len() <= MAX_DATA_LENGTH,
    ensures
        parse_frame(frame(label, data)) == Some((label, data)),
{
    let b = frame(label, data);
    assert(declared_length(b) == data.len());
    assert(b.subrange(4, 4 + data.len() as int) =~= data);
}

/// A buffer is refused when it is shorter than the minimal envelope, when a
/// delimiter is wrong, when its declared length exceeds `MAX_DATA_LENGTH`, or when
/// the declared length disagrees with the buffer's size.
pub proof fn lemma_deserialize_rejects(b: Seq<u8>)
    ensures
        b.len() < MIN_PACKAGE_SIZE ==> parse_frame(b) is None,
        b.len() >= MIN_PACKAGE_SIZE && b[0] != START_OF_MESSAGE_DELIMITER ==> parse_frame(
            b,
        ) is None,
        b.len() >= MIN_PACKAGE_SIZE && b.last() != END_OF_MESSAGE_DELIMITER ==> parse_frame(
            b,
        ) is None,
        b.len() >= MIN_PACKAGE_SIZE && declared_length(b) > MAX_DATA_LENGTH ==> parse_frame(
            b,
        ) is None,
        b.len() >= MIN_PACKAGE_SIZE && b.len() != MIN_PACKAGE_SIZE + declared_length(b)
            ==> parse_frame(b) is None,
{
}

} // verus!
