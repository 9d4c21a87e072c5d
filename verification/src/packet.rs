//! Fixed-size binary frame codec.
//!
//! A packet is one request or one response of the vendor protocol. Its
//! encoded form has a constant byte length: status, command class and
//! command id, a fixed-length argument area, and a trailing checksum byte
//! computed by XOR-folding all preceding bytes. The leading report-id byte
//! of the HID transport is not part of the frame; the transport prefixes it
//! separately.

use vstd::prelude::*;

use crate::error::Error;

verus! {

broadcast use vstd::array::group_array_axioms;

/// Byte length of a packet's argument area.
pub const ARGS_LEN: usize = 80;

/// Constant byte length of an encoded frame: status, command class,
/// command id, the argument area, and the checksum byte.
pub const FRAME_LEN: usize = 84;

/// Status byte of a freshly built request.
pub const STATUS_NEW: u8 = 0x00;

/// Status byte of a response whose command is still being processed.
pub const STATUS_BUSY: u8 = 0x01;

/// Status byte of a response that denotes success.
pub const STATUS_SUCCESS: u8 = 0x02;

/// Status byte of a response that denotes failure.
pub const STATUS_FAILURE: u8 = 0x03;

/// One request or response frame, in decoded form.
#[derive(Clone, Copy, Debug, PartialEq, Eq)]
pub struct Packet {
    pub status: u8,
    pub command_class: u8,
    pub command_id: u8,
    pub args: [u8; 80],
}

/// Mathematical model of a packet: the same fields with the argument area
/// as an unbounded sequence.
pub struct PacketModel {
    pub status: u8,
    pub command_class: u8,
    pub command_id: u8,
    pub args: Seq<u8>,
}

impl PacketModel {
    /// A model is well formed when its argument area has the fixed length.
    pub open spec fn wf(self) -> bool {
        self.args.len() == ARGS_LEN
    }
}

impl View for Packet {
    type V = PacketModel;

    open spec fn view(&self) -> PacketModel {
        PacketModel {
            status: self.status,
            command_class: self.command_class,
            command_id: self.command_id,
            args: self.args@,
        }
    }
}

/// The model of every packet value is well formed.
pub proof fn lemma_packet_view_wf(p: &Packet)
    ensures
        p@.wf(),
{
}

/// XOR of all bytes of a sequence; zero for the empty sequence.
pub open spec fn spec_xor_fold(s: Seq<u8>) -> u8
    decreases s.len(),
{
    if s.len() == 0 {
        0
    } else {
        spec_xor_fold(s.drop_last()) ^ s.last()
    }
}

/// The frame bytes before the checksum: status, class, id, arguments.
pub open spec fn spec_frame_body(p: PacketModel) -> Seq<u8> {
    seq![p.status, p.command_class, p.command_id] + p.args
}

/// The full encoded frame: body plus trailing checksum byte.
pub open spec fn spec_encode(p: PacketModel) -> Seq<u8> {
    spec_frame_body(p) + seq![spec_xor_fold(spec_frame_body(p))]
}

/// The packet a frame decodes to: `None` when the length is not the fixed
/// frame length or the stored checksum disagrees with the computed one.
pub open spec fn spec_decode(bytes: Seq<u8>) -> Option<PacketModel> {
    if bytes.len() != FRAME_LEN {
        None
    } else if spec_xor_fold(bytes.subrange(0, FRAME_LEN - 1)) != bytes[FRAME_LEN - 1] {
        None
    } else {
        Some(
            PacketModel {
                status: bytes[0],
                command_class: bytes[1],
                command_id: bytes[2],
                args: bytes.subrange(3, FRAME_LEN - 1),
            },
        )
    }
}

/// A response answers a request exactly when command class and command id
/// agree and the response status denotes success. Argument bytes play no
/// part: read commands intentionally return different argument bytes than
/// they were sent with.
pub open spec fn spec_matches(response: PacketModel, request: PacketModel) -> bool {
    &&& response.command_class == request.command_class
    &&& response.command_id == request.command_id
    &&& response.status == STATUS_SUCCESS
}

/// XOR of the first `upto` bytes of a slice.
pub fn xor_fold_prefix(bytes: &[u8], upto: usize) -> (r: u8)
    requires
        upto <= bytes@.len(),
    ensures
        r == spec_xor_fold(bytes@.subrange(0, upto as int)),
{
    let mut acc: u8 = 0;
    let mut i: usize = 0;
    while i < upto
        invariant
            i <= upto <= bytes@.len(),
            acc == spec_xor_fold(bytes@.subrange(0, i as int)),
        decreases upto - i,
    {
        proof {
            assert(bytes@.subrange(0, i + 1).drop_last() =~= bytes@.subrange(0, i as int));
            assert(bytes@.subrange(0, i + 1).last() == bytes@[i as int]);
        }
        acc = acc ^ bytes[i];
        i = i + 1;
    }
    acc
}

impl Packet {
    /// A fresh request for the given command, with unset status and an
    /// all-zero argument area.
    pub fn new(command_class: u8, command_id: u8) -> (r: Packet)
        ensures
            r@.status == STATUS_NEW,
            r@.command_class == command_class,
            r@.command_id == command_id,
            r@.args.len() == ARGS_LEN,
            forall|i: int| 0 <= i < ARGS_LEN ==> r@.args[i] == 0,
    {
        Packet { status: STATUS_NEW, command_class, command_id, args: [0u8; 80] }
    }

    /// Serialises the packet into its constant-length frame.
    pub fn encode(&self) -> (r: Vec<u8>)
        ensures
            r@ == spec_encode(self@),
            r@.len() == FRAME_LEN,
    {
        let mut out: Vec<u8> = Vec::new();
        out.push(self.status);
        out.push(self.command_class);
        out.push(self.command_id);
        let mut i: usize = 0;
        while i < ARGS_LEN
            invariant
                i <= ARGS_LEN,
                out@ =~= seq![self.status, self.command_class, self.command_id]
                    + self@.args.subrange(0, i as int),
        decreases ARGS_LEN - i,
        {
            out.push(self.args[i]);
            i = i + 1;
        }
        proof {
            assert(self@.args.subrange(0, ARGS_LEN as int) =~= self@.args);
            assert(out@ =~= spec_frame_body(self@));
        }
        let ck = xor_fold_prefix(out.as_slice(), FRAME_LEN - 1);
        proof {
            assert(out@.subrange(0, FRAME_LEN - 1) =~= out@);
        }
        out.push(ck);
        proof {
            assert(out@ =~= spec_encode(self@));
        }
        out
    }

    /// Deserialises a frame, rejecting a wrong byte length with
    /// [`Error::FrameError`] and a corrupt frame with
    /// [`Error::ChecksumMismatch`].
    pub fn decode(bytes: &[u8]) -> (r: Result<Packet, Error>)
        ensures
            r matches Ok(p) ==> spec_decode(bytes@) == Some(p@),
            spec_decode(bytes@) matches Some(m) ==> r matches Ok(p) && p@ == m,
            r == Err::<Packet, Error>(Error::FrameError) <==> bytes@.len() != FRAME_LEN,
            r == Err::<Packet, Error>(Error::ChecksumMismatch) <==> (bytes@.len() == FRAME_LEN
                && spec_xor_fold(bytes@.subrange(0, FRAME_LEN - 1)) != bytes@[FRAME_LEN - 1]),
    {
        if bytes.len() != FRAME_LEN {
            return Err(Error::FrameError);
        }
        let ck = xor_fold_prefix(bytes, FRAME_LEN - 1);
        if ck != bytes[FRAME_LEN - 1] {
            return Err(Error::ChecksumMismatch);
        }
        let mut args: [u8; 80] = [0u8; 80];
        let mut i: usize = 0;
        while i < ARGS_LEN
            invariant
                i <= ARGS_LEN,
                bytes@.len() == FRAME_LEN,
                args@.len() == ARGS_LEN,
                forall|j: int| 0 <= j < i ==> args@[j] == bytes@[3 + j],
            decreases ARGS_LEN - i,
        {
            args[i] = bytes[3 + i];
            i = i + 1;
        }
        let p = Packet { status: bytes[0], command_class: bytes[1], command_id: bytes[2], args };
        proof {
            assert(p@.args =~= bytes@.subrange(3, FRAME_LEN - 1));
        }
        Ok(p)
    }

    /// Whether this response answers the given request: class and id agree
    /// and the status denotes success, independent of argument bytes.
    pub fn matches(&self, request: &Packet) -> (r: bool)
        ensures
            r == spec_matches(self@, request@),
    {
        self.command_class == request.command_class && self.command_id == request.command_id
            && self.status == STATUS_SUCCESS
    }
}

/// Round trip: decoding an encoded packet gives back exactly that packet.
pub proof fn lemma_decode_encode_roundtrip(p: PacketModel)
    requires
        p.wf(),
    ensures
        spec_decode(spec_encode(p)) == Some(p),
{
    let frame = spec_encode(p);
    let body = spec_frame_body(p);
    assert(frame.len() == FRAME_LEN);
    assert(frame.subrange(0, FRAME_LEN - 1) =~= body);
    assert(frame[FRAME_LEN - 1] == spec_xor_fold(body));
    assert(frame.subrange(3, FRAME_LEN - 1) =~= p.args);
    assert(spec_decode(frame) == Some(p));
}

/// The encoded frame has the same constant length for every packet.
pub proof fn lemma_encode_len_constant(p: PacketModel)
    requires
        p.wf(),
    ensures
        spec_encode(p).len() == FRAME_LEN,
{
}

/// Whether a response matches a request never depends on the argument
/// bytes of either side.
pub proof fn lemma_matches_ignores_args(
    response: PacketModel,
    request: PacketModel,
    response_args: Seq<u8>,
    request_args: Seq<u8>,
)
    ensures
        spec_matches(
            PacketModel { args: response_args, ..response },
            PacketModel { args: request_args, ..request },
        ) == spec_matches(response, request),
{
}

} // verus!
