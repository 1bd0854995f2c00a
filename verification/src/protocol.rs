//! The packets that daemon and clients exchange, and how packets are told apart in a stream of
//! bytes.
//!
//! A packet is one frame: the length of its encoding in two bytes, the high byte first, and the
//! encoding.
use crate::daemon::service_threads::{ServiceState, ServiceThreadCommand};
use crate::daemon::{Service, ServiceView};
use vstd::prelude::*;

verus! {

/// A request of a client, or the answer of the daemon.
#[derive(Debug)]
pub enum Packet {
    AddService(Service),
    AddServiceResponse(Result<(), String>),
    RunCommand(String, ServiceThreadCommand),
    RunCommandResponse(Result<ServiceState, String>),
    ServicesInfo(),
    ServicesInfoResponse(Result<Vec<(Service, ServiceState)>, String>),
}

/// The contents of a [`Packet`].
pub enum PacketView {
    AddService(ServiceView),
    AddServiceResponse(Result<(), Seq<char>>),
    RunCommand(Seq<char>, ServiceThreadCommand),
    RunCommandResponse(Result<ServiceState, Seq<char>>),
    ServicesInfo(),
    ServicesInfoResponse(Result<Seq<(ServiceView, ServiceState)>, Seq<char>>),
}

impl View for Packet {
    type V = PacketView;

    open spec fn view(&self) -> PacketView {
        match self {
            Packet::AddService(service) => PacketView::AddService(service@),
            Packet::AddServiceResponse(response) => PacketView::AddServiceResponse(
                match response {
                    Ok(()) => Ok(()),
                    Err(message) => Err(message@),
                },
            ),
            Packet::RunCommand(name, command) => PacketView::RunCommand(name@, *command),
            Packet::RunCommandResponse(response) => PacketView::RunCommandResponse(
                match response {
                    Ok(state) => Ok(*state),
                    Err(message) => Err(message@),
                },
            ),
            Packet::ServicesInfo() => PacketView::ServicesInfo(),
            Packet::ServicesInfoResponse(response) => PacketView::ServicesInfoResponse(
                match response {
                    Ok(info) => Ok(info.deep_view()),
                    Err(message) => Err(message@),
                },
            ),
        }
    }
}

/// The number of bytes that stand before the encoding of a packet.
pub const HEADER_LEN: usize = 2;

/// The longest encoding that a header can tell the length of.
pub const MAX_PAYLOAD_LEN: usize = 65535;

/// The header of a frame. Of a length that does not fit in two bytes only the low bytes are
/// kept.
pub open spec fn header(payload_len: nat) -> Seq<u8> {
    seq![((payload_len / 256) % 256) as u8, (payload_len % 256) as u8]
}

/// The frame around the encoding of a packet.
pub open spec fn frame(payload: Seq<u8>) -> Seq<u8> {
    header(payload.len()) + payload
}

/// The frames of several packets, one after the other.
pub open spec fn frames(payloads: Seq<Seq<u8>>) -> Seq<u8>
    decreases payloads.len(),
{
    if payloads.len() == 0 {
        Seq::empty()
    } else {
        frame(payloads.first()) + frames(payloads.drop_first())
    }
}

/// The length of the encoding that the header at the start of a stream announces.
pub open spec fn announced_len(stream: Seq<u8>) -> nat
    recommends
        stream.len() >= HEADER_LEN,
{
    (stream[0] as nat) * 256 + stream[1] as nat
}

/// Whether a stream starts with a whole frame.
pub open spec fn has_frame(stream: Seq<u8>) -> bool {
    stream.len() >= HEADER_LEN && stream.len() >= HEADER_LEN + announced_len(stream)
}

/// The encoding in the frame at the start of a stream.
pub open spec fn first_payload(stream: Seq<u8>) -> Seq<u8>
    recommends
        has_frame(stream),
{
    stream.subrange(HEADER_LEN as int, HEADER_LEN + announced_len(stream))
}

/// What follows in a stream on its first frame.
pub open spec fn after_first_frame(stream: Seq<u8>) -> Seq<u8>
    recommends
        has_frame(stream),
{
    stream.skip(HEADER_LEN + announced_len(stream))
}

/// The encodings of all whole frames at the start of a stream.
pub open spec fn all_payloads(stream: Seq<u8>) -> Seq<Seq<u8>>
    decreases stream.len(),
{
    if has_frame(stream) {
        seq![first_payload(stream)] + all_payloads(after_first_frame(stream))
    } else {
        Seq::empty()
    }
}

impl Packet {
    /// The frame around `encoding`, the encoding of a packet.
    pub fn build(encoding: &Vec<u8>) -> (bytes: Vec<u8>)
        ensures
            bytes@ == frame(encoding@),
    {
        let len: usize = encoding.len();
        let mut bytes: Vec<u8> = Vec::new();
        bytes.push(((len / 256) % 256) as u8);
        bytes.push((len % 256) as u8);
        let mut i: usize = 0;
        while i < len
            invariant
                i <= len,
                len == encoding.len(),
                bytes@ == header(len as nat) + encoding@.take(i as int),
            decreases len - i,
        {
            bytes.push(encoding[i]);
            i += 1;
            assert(bytes@ =~= header(len as nat) + encoding@.take(i as int));
        }
        assert(encoding@.take(i as int) =~= encoding@);
        bytes
    }

    /// Reads one frame from `stream`, starting at `position`. Returns the encoding in it, and the
    /// position behind the frame; `None` where the stream ends too early.
    pub fn from_stream(stream: &Vec<u8>, position: usize) -> (frame: Option<(Vec<u8>, usize)>)
        requires
            position <= stream.len(),
        ensures
            ({
                let rest = stream@.skip(position as int);
                match frame {
                    Some((payload, end)) => {
                        &&& has_frame(rest)
                        &&& payload@ == first_payload(rest)
                        &&& end <= stream.len()
                        &&& stream@.skip(end as int) == after_first_frame(rest)
                    },
                    None => !has_frame(rest),
                }
            }),
    {
        let ghost rest = stream@.skip(position as int);
        let mut reader = FrameReader::new();
        let mut i: usize = position;
        assert(rest.take(0) =~= reader@);
        while reader.missing() > 0
            invariant
                position <= i <= stream.len(),
                reader.wf(),
                rest == stream@.skip(position as int),
                reader@ == rest.take(i - position),
            decreases stream.len() - i,
        {
            if i == stream.len() {
                assert(rest.take(i - position) =~= rest);
                return None;
            }
            let mut chunk: Vec<u8> = Vec::new();
            chunk.push(stream[i]);
            reader.push(&chunk);
            i += 1;
            assert(reader@ =~= rest.take(i - position));
        }
        assert(rest.take(i - position).len() == i - position);
        assert(announced_len(rest.take(i - position)) == announced_len(rest));
        let payload = reader.into_payload();
        assert(payload@ =~= first_payload(rest));
        assert(stream@.skip(i as int) =~= after_first_frame(rest));
        Some((payload, i))
    }
}

/// Collects the bytes of one frame as they come in.
#[derive(Debug)]
pub struct FrameReader {
    received: Vec<u8>,
}

impl View for FrameReader {
    type V = Seq<u8>;

    /// The bytes so far.
    closed spec fn view(&self) -> Seq<u8> {
        self.received@
    }
}

/// How many bytes to read next for the frame that starts with `received`: first those of the
/// header, and then those of the encoding.
pub open spec fn missing_len(received: Seq<u8>) -> int {
    if received.len() < HEADER_LEN {
        HEADER_LEN - received.len()
    } else {
        HEADER_LEN + announced_len(received) - received.len()
    }
}

impl FrameReader {
    /// There are no more bytes than the frame has.
    pub open spec fn wf(&self) -> bool {
        missing_len(self@) >= 0
    }

    /// A reader that has no byte yet.
    pub fn new() -> (reader: FrameReader)
        ensures
            reader.wf(),
            reader@ == Seq::<u8>::empty(),
    {
        FrameReader { received: Vec::new() }
    }

    /// How many bytes to read next. The frame is complete when there are none.
    pub fn missing(&self) -> (missing: usize)
        requires
            self.wf(),
        ensures
            missing == missing_len(self@),
    {
        let len: usize = self.received.len();
        if len < HEADER_LEN {
            HEADER_LEN - len
        } else {
            HEADER_LEN + (self.received[0] as usize) * 256 + (self.received[1] as usize) - len
        }
    }

    /// Takes bytes, no more than are missing.
    pub fn push(&mut self, bytes: &Vec<u8>)
        requires
            old(self).wf(),
            bytes.len() <= missing_len(old(self)@),
        ensures
            final(self).wf(),
            final(self)@ == old(self)@ + bytes@,
    {
        let mut i: usize = 0;
        while i < bytes.len()
            invariant
                i <= bytes.len(),
                self@ == old(self)@ + bytes@.take(i as int),
            decreases bytes.len() - i,
        {
            self.received.push(bytes[i]);
            i += 1;
            assert(self@ =~= old(self)@ + bytes@.take(i as int));
        }
        assert(bytes@.take(i as int) =~= bytes@);
    }

    /// The encoding in the complete frame.
    pub fn into_payload(self) -> (payload: Vec<u8>)
        requires
            missing_len(self@) == 0,
        ensures
            payload@ == first_payload(self@),
    {
        let mut payload: Vec<u8> = Vec::new();
        let mut i: usize = HEADER_LEN;
        while i < self.received.len()
            invariant
                HEADER_LEN <= i <= self.received.len(),
                payload@ == self@.subrange(HEADER_LEN as int, i as int),
            decreases self.received.len() - i,
        {
            payload.push(self.received[i]);
            i += 1;
            assert(payload@ =~= self@.subrange(HEADER_LEN as int, i as int));
        }
        payload
    }
}

/// The path of the socket on which the daemon of a user listens.
pub fn socket_path(user_id: &str) -> (path: String)
    ensures
        path@ == "/var/run/user/"@ + user_id@ + "/rsm.sock"@,
{
    let mut path: String = "/var/run/user/".to_owned();
    path.append(user_id);
    path.append("/rsm.sock");
    path
}

/// The header of a frame announces the length of the encoding as far as two bytes can tell it: a
/// longer encoding is read back cut short.
pub proof fn header_announces_the_length(payload: Seq<u8>, rest: Seq<u8>)
    ensures
        announced_len(frame(payload) + rest) == payload.len() % 65536,
        payload.len() <= MAX_PAYLOAD_LEN ==> announced_len(frame(payload) + rest) == payload.len(),
{
    let stream = frame(payload) + rest;
    let n = payload.len();
    assert(stream[0] == ((n / 256) % 256) as u8);
    assert(stream[1] == (n % 256) as u8);
    assert(((n / 256) % 256) * 256 + n % 256 == n % 65536);
}

/// What is read is what was written: of a stream that starts with the frame of an encoding, the
/// first frame holds that encoding and the rest of the stream is left. This holds of encodings
/// whose length fits in the header.
pub proof fn read_gives_back_what_was_written(payload: Seq<u8>, rest: Seq<u8>)
    requires
        payload.len() <= MAX_PAYLOAD_LEN,
    ensures
        has_frame(frame(payload) + rest),
        first_payload(frame(payload) + rest) == payload,
        after_first_frame(frame(payload) + rest) == rest,
{
    header_announces_the_length(payload, rest);
    assert(first_payload(frame(payload) + rest) =~= payload);
    assert(after_first_frame(frame(payload) + rest) =~= rest);
}

/// The frames of several packets, one after the other, are read back as the same packets in the
/// same order.
pub proof fn stream_gives_back_all_packets(payloads: Seq<Seq<u8>>)
    requires
        forall|i: int|
            0 <= i < payloads.len() ==> (#[trigger] payloads[i]).len() <= MAX_PAYLOAD_LEN,
    ensures
        all_payloads(frames(payloads)) == payloads,
    decreases payloads.len(),
{
    if payloads.len() > 0 {
        let others = payloads.drop_first();
        assert forall|i: int| 0 <= i < others.len() implies (#[trigger] others[i]).len()
            <= MAX_PAYLOAD_LEN by {
            assert(others[i] == payloads[i + 1]);
        }
        stream_gives_back_all_packets(others);
        read_gives_back_what_was_written(payloads.first(), frames(others));
        assert(payloads =~= seq![payloads.first()] + others);
    }
}

/// Packets come through a stream unchanged and in their order, whatever their encoding is, as
/// long as decoding undoes it.
pub proof fn packets_come_through(
    packets: Seq<PacketView>,
    encode: spec_fn(PacketView) -> Seq<u8>,
    decode: spec_fn(Seq<u8>) -> Option<PacketView>,
)
    requires
        forall|i: int|
            0 <= i < packets.len() ==> {
                &&& decode(encode(#[trigger] packets[i])) == Some(packets[i])
                &&& encode(packets[i]).len() <= MAX_PAYLOAD_LEN
            },
    ensures
        all_payloads(frames(packets.map_values(encode))).map_values(decode) == packets.map_values(
            |packet: PacketView| Some(packet),
        ),
{
    let payloads = packets.map_values(encode);
    assert forall|i: int| 0 <= i < payloads.len() implies (#[trigger] payloads[i]).len()
        <= MAX_PAYLOAD_LEN by {
        assert(payloads[i] == encode(packets[i]));
    }
    stream_gives_back_all_packets(payloads);
    assert(payloads.map_values(decode) =~= packets.map_values(|packet: PacketView| Some(packet)));
}

/// A frame comes out the same in whatever pieces its bytes arrive: as long as bytes are missing
/// no piece holds the whole frame, and when none are the bytes are exactly the frame.
pub proof fn pieces_do_not_matter(payload: Seq<u8>, received: int)
    requires
        payload.len() <= MAX_PAYLOAD_LEN,
        0 <= received <= frame(payload).len(),
    ensures
        ({
            let bytes = frame(payload).take(received);
            &&& missing_len(bytes) >= 0
            &&& missing_len(bytes) <= frame(payload).len() - received
            &&& missing_len(bytes) == 0 <==> received == frame(payload).len()
            &&& missing_len(bytes) == 0 ==> first_payload(bytes) == payload
        }),
{
    let bytes = frame(payload).take(received);
    header_announces_the_length(payload, Seq::empty());
    assert(frame(payload) + Seq::<u8>::empty() =~= frame(payload));
    if received >= HEADER_LEN {
        assert(announced_len(bytes) == payload.len());
    }
    if received == frame(payload).len() {
        assert(bytes =~= frame(payload));
        assert(first_payload(bytes) =~= payload);
    }
}

/// The contents of a packet are of its kind and leave nothing out.
pub proof fn contents_of_a_packet(
    service: Service,
    name: String,
    command: ServiceThreadCommand,
    state: ServiceState,
    info: Vec<(Service, ServiceState)>,
    message: String,
)
    ensures
        Packet::AddService(service)@ == PacketView::AddService(service@),
        Packet::AddServiceResponse(Ok(()))@ == PacketView::AddServiceResponse(Ok(())),
        Packet::AddServiceResponse(Err(message))@ == PacketView::AddServiceResponse(Err(message@)),
        Packet::RunCommand(name, command)@ == PacketView::RunCommand(name@, command),
        Packet::RunCommandResponse(Ok(state))@ == PacketView::RunCommandResponse(Ok(state)),
        Packet::RunCommandResponse(Err(message))@ == PacketView::RunCommandResponse(Err(message@)),
        Packet::ServicesInfo()@ == PacketView::ServicesInfo(),
        Packet::ServicesInfoResponse(Ok(info))@ == PacketView::ServicesInfoResponse(
            Ok(info.deep_view()),
        ),
        Packet::ServicesInfoResponse(Err(message))@ == PacketView::ServicesInfoResponse(
            Err(message@),
        ),
        info.deep_view().len() == info.len(),
        forall|i: int|
            0 <= i < info.len() ==> {
                &&& (#[trigger] info.deep_view()[i]).0 == info[i].0@
                &&& info.deep_view()[i].1 == info[i].1
            },
{
}

/// A frame is two bytes and the encoding. The two bytes are the length of the encoding, as far as
/// they can tell it, the high byte first.
pub proof fn frame_is_length_and_encoding(payload: Seq<u8>)
    ensures
        frame(payload).len() == payload.len() + 2,
        frame(payload).skip(2) == payload,
        frame(payload)[0] * 256 + frame(payload)[1] == payload.len() % 65536,
{
    header_announces_the_length(payload, Seq::empty());
    assert(frame(payload) + Seq::<u8>::empty() =~= frame(payload));
    assert(frame(payload).skip(2) =~= payload);
}

/// A stream starts with a whole frame exactly when it has two bytes, and behind them as many as the
/// two say, the high byte first. It is then these two bytes, the encoding and what follows.
pub proof fn frame_is_cut_off_the_stream(stream: Seq<u8>)
    ensures
        has_frame(stream) <==> stream.len() >= 2 && stream.len() >= 2 + stream[0] * 256
            + stream[1],
        has_frame(stream) ==> {
            &&& first_payload(stream).len() == stream[0] * 256 + stream[1]
            &&& stream.take(2) + first_payload(stream) + after_first_frame(stream) == stream
        },
{
    if has_frame(stream) {
        assert(stream.take(2) + first_payload(stream) + after_first_frame(stream) =~= stream);
    }
}

/// A reader first asks for the rest of the two bytes, and then for the rest of as many bytes as the
/// two say.
pub proof fn reader_asks_for_what_is_missing(received: Seq<u8>)
    ensures
        received.len() < 2 ==> received.len() + missing_len(received) == 2,
        received.len() >= 2 ==> received.len() + missing_len(received) == 2 + received[0] * 256
            + received[1],
{
}

} // verus!
