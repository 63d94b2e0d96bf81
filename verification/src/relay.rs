//! The relay between a container and the local waypipe socket: its frames, its
//! streams, its command lines.
use vstd::prelude::*;
use vstd::string::*;

use crate::text::{
    concat3, contains, count_text, decimal, decimal_text, drop_empty, lemma_deep_push, lines,
    lines_of, same, split_first, split_once, trim, trimmed, without_empty,
};

verus! {

// ---------------------------------------------------------------------------
// Frames
// ---------------------------------------------------------------------------
pub const RELAY_FRAME_OPEN: u8 = 1;

pub const RELAY_FRAME_DATA: u8 = 2;

pub const RELAY_FRAME_CLOSE: u8 = 3;

pub const RELAY_FRAME_HEADER_LEN: usize = 9;

pub const RELAY_FRAME_MAX_PAYLOAD: usize = 16777216;

pub const RELAY_V2_READY_LINE: &'static str = "COCOA_WAY_TRANSPORT_V2_READY";

/// One frame: what happens to a stream, and the bytes it carries.
#[derive(Debug)]
pub struct RelayFrame {
    pub kind: u8,
    pub id: u32,
    pub payload: Vec<u8>,
}

/// The first bytes of a frame, which say how many follow.
#[derive(Debug, Clone, Copy, PartialEq, Eq, Structural)]
pub struct RelayFrameHeader {
    pub kind: u8,
    pub id: u32,
    pub length: usize,
}

/// Bytes that are read from the front.
pub struct ByteReader {
    pub bytes: Vec<u8>,
    pub position: usize,
}

impl ByteReader {
    pub open spec fn well_formed(&self) -> bool {
        self.position <= self.bytes@.len()
    }

    /// The bytes that were not read yet.
    pub open spec fn rest(&self) -> Seq<u8> {
        self.bytes@.skip(self.position as int)
    }

    pub fn new(bytes: Vec<u8>) -> (result: Self)
        ensures
            result.well_formed(),
            result.rest() == bytes@,
    {
        let result = ByteReader { bytes, position: 0 };
        assert(result.rest() == bytes@);
        result
    }
}

/// A number as four bytes, the most significant first.
pub open spec fn big_endian(value: u32) -> Seq<u8> {
    seq![
        (value / 0x1000000) as u8,
        ((value / 0x10000) % 256) as u8,
        ((value / 0x100) % 256) as u8,
        (value % 256) as u8,
    ]
}

/// The number that four bytes hold, the most significant first.
pub open spec fn from_big_endian(bytes: Seq<u8>) -> int {
    bytes[0] * 0x1000000 + bytes[1] * 0x10000 + bytes[2] * 0x100 + bytes[3]
}

/// A frame as bytes: its kind, its stream, the length of its payload, and the
/// payload.
pub open spec fn frame_bytes(kind: u8, id: u32, payload: Seq<u8>) -> Seq<u8> {
    seq![kind] + big_endian(id) + big_endian(payload.len() as u32) + payload
}

/// What the front of a byte stream holds.
pub enum FrontFrame {
    /// Fewer bytes than a header: the stream has ended.
    End,
    /// A header that announces more than a payload may have.
    TooLarge { length: int },
    /// A header whose payload is not all there.
    Cut,
    /// A whole frame.
    Whole { kind: u8, id: int, payload: Seq<u8> },
}

pub open spec fn front_frame(bytes: Seq<u8>) -> FrontFrame {
    if bytes.len() < 9 {
        FrontFrame::End
    } else {
        let id = from_big_endian(bytes.subrange(1, 5));
        let length = from_big_endian(bytes.subrange(5, 9));
        if length > RELAY_FRAME_MAX_PAYLOAD {
            FrontFrame::TooLarge { length }
        } else if bytes.len() < 9 + length {
            FrontFrame::Cut
        } else {
            FrontFrame::Whole { kind: bytes[0], id, payload: bytes.subrange(9, 9 + length) }
        }
    }
}

pub open spec fn too_large_message(length: int) -> Seq<char> {
    "container relay frame is too large: "@ + decimal(length as nat) + " bytes"@
}

/// The number that the four bytes at a place hold.
pub fn big_endian_at(bytes: &[u8], at: usize) -> (result: u32)
    requires
        at + 4 <= bytes@.len(),
    ensures
        result == from_big_endian(bytes@.subrange(at as int, at + 4)),
{
    let ghost part = bytes@.subrange(at as int, at + 4);
    assert(part[0] == bytes@[at as int]);
    assert(part[1] == bytes@[at + 1]);
    assert(part[2] == bytes@[at + 2]);
    assert(part[3] == bytes@[at + 3]);
    bytes[at] as u32 * 0x1000000 + bytes[at + 1] as u32 * 0x10000 + bytes[at + 2] as u32 * 0x100
        + bytes[at + 3] as u32
}

/// Reads the header of a frame. A payload that is larger than a frame may
/// carry is refused.
pub fn read_relay_header(header: &[u8]) -> (result: Result<RelayFrameHeader, String>)
    requires
        header@.len() == RELAY_FRAME_HEADER_LEN,
    ensures
        ({
            let length = from_big_endian(header@.subrange(5, 9));
            match result {
                Ok(read) => {
                    &&& length <= RELAY_FRAME_MAX_PAYLOAD
                    &&& read.kind == header@[0]
                    &&& read.id == from_big_endian(header@.subrange(1, 5))
                    &&& read.length == length
                },
                Err(message) => {
                    &&& length > RELAY_FRAME_MAX_PAYLOAD
                    &&& message@ == too_large_message(length)
                },
            }
        }),
{
    let id: u32 = big_endian_at(header, 1);
    let length: usize = big_endian_at(header, 5) as usize;
    if length > RELAY_FRAME_MAX_PAYLOAD {
        let count = count_text(length);
        return Err(concat3("container relay frame is too large: ", count.as_str(), " bytes"));
    }
    Ok(RelayFrameHeader { kind: header[0], id, length })
}

/// Reads one frame. A stream that ends before a whole header holds no further
/// frame; one that ends inside a payload is broken.
pub fn read_relay_frame(reader: &mut ByteReader) -> (result: Result<Option<RelayFrame>, String>)
    requires
        old(reader).well_formed(),
    ensures
        final(reader).well_formed(),
        final(reader).bytes@ == old(reader).bytes@,
        match front_frame(old(reader).rest()) {
            FrontFrame::End => {
                &&& result matches Ok(frame)
                &&& frame is None
                &&& final(reader).rest().len() == 0
            },
            FrontFrame::TooLarge { length } => {
                &&& result matches Err(message)
                &&& message@ == too_large_message(length)
                &&& final(reader).rest() == old(reader).rest().skip(9)
            },
            FrontFrame::Cut => {
                &&& result matches Err(message)
                &&& message@
                    == "failed to read container relay payload: failed to fill whole buffer"@
                &&& final(reader).rest().len() == 0
            },
            FrontFrame::Whole { kind, id, payload } => {
                &&& result matches Ok(Some(frame))
                &&& frame.kind == kind
                &&& frame.id == id
                &&& frame.payload@ == payload
                &&& final(reader).rest() == old(reader).rest().skip((9 + payload.len()) as int)
            },
        },
{
    let ghost rest = reader.rest();
    let total: usize = reader.bytes.len();
    if total - reader.position < RELAY_FRAME_HEADER_LEN {
        reader.position = total;
        return Ok(None);
    }
    let from: usize = reader.position;
    let mut header: Vec<u8> = Vec::new();
    for i in 0..9usize
        invariant
            reader.position == from,
            from + 9 <= reader.bytes@.len(),
            from + 9 <= usize::MAX,
            rest == reader.bytes@.skip(from as int),
            header@ == rest.take(i as int),
    {
        header.push(reader.bytes[from + i]);
    }
    assert(header@.subrange(1, 5) == rest.subrange(1, 5));
    assert(header@.subrange(5, 9) == rest.subrange(5, 9));
    reader.position = from + 9;
    assert(reader.rest() == rest.skip(9));
    let read = match read_relay_header(header.as_slice()) {
        Ok(read) => read,
        Err(message) => return Err(message),
    };
    let start: usize = from + 9;
    if total - start < read.length {
        reader.position = total;
        return Err(
            "failed to read container relay payload: failed to fill whole buffer".to_owned(),
        );
    }
    let mut payload: Vec<u8> = Vec::new();
    for i in 0..read.length
        invariant
            start == from + 9,
            start + read.length <= reader.bytes@.len(),
            start + read.length <= usize::MAX,
            rest == reader.bytes@.skip(from as int),
            payload@ == rest.subrange(9, 9 + i),
    {
        payload.push(reader.bytes[start + i]);
        assert(rest.subrange(9, 9 + i + 1) == rest.subrange(9, 9 + i).push(rest[9 + i]));
    }
    reader.position = start + read.length;
    assert(reader.rest() == rest.skip(9 + read.length));
    Ok(Some(RelayFrame { kind: read.kind, id: read.id, payload }))
}

fn put_number(writer: &mut Vec<u8>, value: u32)
    ensures
        final(writer)@ == old(writer)@ + big_endian(value),
{
    writer.push((value / 0x1000000) as u8);
    writer.push(((value / 0x10000) % 256) as u8);
    writer.push(((value / 0x100) % 256) as u8);
    writer.push((value % 256) as u8);
}

/// Writes one frame. A payload whose length does not fit in four bytes is
/// refused, and nothing is written of it.
pub fn write_relay_frame(writer: &mut Vec<u8>, kind: u8, id: u32, payload: &[u8]) -> (result: Result<
    (),
    String,
>)
    ensures
        match result {
            Ok(_) => {
                &&& payload@.len() <= u32::MAX
                &&& final(writer)@ == old(writer)@ + frame_bytes(kind, id, payload@)
            },
            Err(message) => {
                &&& payload@.len() > u32::MAX
                &&& message@ == "container relay payload is too large"@
                &&& final(writer)@ == old(writer)@
            },
        },
{
    let ghost start = writer@;
    let length: usize = payload.len();
    if length > 0xffff_ffff {
        return Err("container relay payload is too large".to_owned());
    }
    writer.push(kind);
    put_number(writer, id);
    put_number(writer, length as u32);
    let ghost head = writer@;
    for i in 0..length
        invariant
            length == payload@.len(),
            writer@ == head + payload@.take(i as int),
    {
        writer.push(payload[i]);
    }
    assert(payload@.take(length as int) == payload@);
    assert(writer@ == start + frame_bytes(kind, id, payload@));
    Ok(())
}

proof fn lemma_big_endian(value: u32)
    ensures
        from_big_endian(big_endian(value)) == value,
{
    let a = value / 0x1000000;
    let b = (value / 0x10000) % 256;
    let c = (value / 0x100) % 256;
    let d = value % 256;
    assert(a < 256);
    assert(a * 0x1000000 + b * 0x10000 + c * 0x100 + d == value) by (nonlinear_arith)
        requires
            a == value / 0x1000000,
            b == (value / 0x10000) % 256,
            c == (value / 0x100) % 256,
            d == value % 256,
    ;
}

/// A frame is read back as it was written, whatever follows it, and the reader
/// then stands behind it.
pub proof fn law_frame_round_trip(kind: u8, id: u32, payload: Seq<u8>, rest: Seq<u8>)
    requires
        payload.len() <= RELAY_FRAME_MAX_PAYLOAD,
    ensures
        front_frame(frame_bytes(kind, id, payload) + rest) == (FrontFrame::Whole {
            kind,
            id: id as int,
            payload,
        }),
        (frame_bytes(kind, id, payload) + rest).skip((9 + payload.len()) as int) == rest,
{
    let bytes = frame_bytes(kind, id, payload) + rest;
    lemma_big_endian(id);
    lemma_big_endian(payload.len() as u32);
    assert(bytes.subrange(1, 5) == big_endian(id));
    assert(bytes.subrange(5, 9) == big_endian(payload.len() as u32));
    assert(bytes.subrange(9, (9 + payload.len()) as int) == payload);
    assert(bytes.skip((9 + payload.len()) as int) == rest);
}

// ---------------------------------------------------------------------------
// Streams
// ---------------------------------------------------------------------------
/// The streams that are connected to the local socket.
pub struct RelayStreams {
    pub ids: Vec<u32>,
}

/// What a frame from the container asks of the relay.
#[derive(Debug, Clone, Copy, PartialEq, Eq, Structural)]
pub enum RelayAction {
    /// Connect a new stream to the local socket.
    Connect(u32),
    /// Write the frame's payload to the stream.
    Forward(u32),
    /// Shut the stream down.
    Shutdown(u32),
    /// Nothing: the stream is not connected.
    Skip,
}

/// What a read from a stream came back with.
#[derive(Debug, Clone, Copy, PartialEq, Eq, Structural)]
pub enum StreamRead {
    Bytes(usize),
    Interrupted,
    Failed,
}

/// What the reader of a stream does next.
#[derive(Debug, Clone, Copy, PartialEq, Eq, Structural)]
pub enum StreamStep {
    /// Send the bytes in a data frame.
    Send,
    /// Read again.
    Retry,
    /// Send a close frame and stop.
    Close,
}

impl RelayStreams {
    pub open spec fn well_formed(&self) -> bool {
        self.ids@.no_duplicates()
    }

    pub open spec fn connected(&self) -> Set<u32> {
        self.ids@.to_set()
    }

    pub fn new() -> (result: Self)
        ensures
            result.well_formed(),
            result.connected() == Set::<u32>::empty(),
    {
        let result = RelayStreams { ids: Vec::new() };
        assert(result.connected() =~= Set::<u32>::empty());
        result
    }

    fn place(&self, id: u32) -> (result: Option<usize>)
        ensures
            match result {
                Some(place) => place < self.ids@.len() && self.ids@[place as int] == id,
                None => !self.connected().contains(id),
            },
    {
        for i in 0..self.ids.len()
            invariant
                forall|j: int| 0 <= j < i ==> self.ids@[j] != id,
        {
            if self.ids[i] == id {
                return Some(i);
            }
        }
        None
    }

    fn forget(&mut self, id: u32) -> (result: bool)
        requires
            old(self).well_formed(),
        ensures
            final(self).well_formed(),
            final(self).connected() == old(self).connected().remove(id),
            result == old(self).connected().contains(id),
    {
        let ghost before = self.ids@;
        match self.place(id) {
            Some(place) => {
                let _ = self.ids.remove(place);
                let ghost after = self.ids@;
                assert(after == before.remove(place as int));
                assert forall|x: u32| after.to_set().contains(x) == before.to_set().remove(id).contains(
                    x,
                ) by {
                    if after.to_set().contains(x) {
                        let k = after.index_of(x);
                        let origin = if k < place { k } else { k + 1 };
                        assert(before[origin] == x);
                    }
                    if before.to_set().remove(id).contains(x) {
                        let k = before.index_of(x);
                        if k < place {
                            assert(after[k] == x);
                        } else {
                            assert(after[k - 1] == x);
                        }
                    }
                }
                assert(after.to_set() =~= before.to_set().remove(id));
                assert(before.to_set().contains(before[place as int]));
                true
            },
            None => {
                assert(self.connected() =~= old(self).connected().remove(id));
                false
            },
        }
    }

    /// Decides what a frame asks for. A close frame disconnects its stream; an
    /// unknown kind ends the relay.
    pub fn on_frame(&mut self, kind: u8, id: u32) -> (result: Result<RelayAction, String>)
        requires
            old(self).well_formed(),
        ensures
            final(self).well_formed(),
            final(self).connected() == (if kind == RELAY_FRAME_CLOSE {
                old(self).connected().remove(id)
            } else {
                old(self).connected()
            }),
            match result {
                Ok(action) => {
                    &&& 1 <= kind <= 3
                    &&& action == (if kind == RELAY_FRAME_OPEN {
                        RelayAction::Connect(id)
                    } else if !old(self).connected().contains(id) {
                        RelayAction::Skip
                    } else if kind == RELAY_FRAME_DATA {
                        RelayAction::Forward(id)
                    } else {
                        RelayAction::Shutdown(id)
                    })
                },
                Err(message) => {
                    &&& !(1 <= kind <= 3)
                    &&& message@ == "unknown container relay frame type "@ + decimal(kind as nat)
                },
            },
    {
        if kind == RELAY_FRAME_OPEN {
            Ok(RelayAction::Connect(id))
        } else if kind == RELAY_FRAME_DATA {
            match self.place(id) {
                Some(place) => {
                    assert(self.ids@.to_set().contains(self.ids@[place as int]));
                    Ok(RelayAction::Forward(id))
                },
                None => Ok(RelayAction::Skip),
            }
        } else if kind == RELAY_FRAME_CLOSE {
            if self.forget(id) {
                Ok(RelayAction::Shutdown(id))
            } else {
                Ok(RelayAction::Skip)
            }
        } else {
            let number = decimal_text(kind as u128);
            Err(crate::text::concat("unknown container relay frame type ", number.as_str()))
        }
    }

    /// Records that a stream is connected; an older stream of the same number
    /// is replaced.
    pub fn on_connected(&mut self, id: u32)
        requires
            old(self).well_formed(),
        ensures
            final(self).well_formed(),
            final(self).connected() == old(self).connected().insert(id),
    {
        let ghost before = self.ids@;
        match self.place(id) {
            Some(place) => {
                assert(before.to_set().contains(before[place as int]));
                assert(before.to_set() =~= before.to_set().insert(id));
            },
            None => {
                self.ids.push(id);
                let ghost after = self.ids@;
                assert forall|x: u32| after.to_set().contains(x) == before.to_set().insert(
                    id,
                ).contains(x) by {
                    if before.to_set().contains(x) {
                        assert(after[before.index_of(x)] == x);
                    }
                    assert(after[before.len() as int] == id);
                    if after.to_set().contains(x) && x != id {
                        assert(before[after.index_of(x)] == x);
                    }
                }
                assert(after.to_set() =~= before.to_set().insert(id));
                assert forall|i: int, j: int| 0 <= i < j < after.len() implies after[i]
                    != after[j] by {
                    if j == before.len() {
                        assert(before.to_set().contains(before[i]));
                    }
                }
            },
        }
    }

    /// Records that a stream no longer takes bytes. Its peer is then sent a
    /// close frame.
    pub fn on_write_failed(&mut self, id: u32)
        requires
            old(self).well_formed(),
        ensures
            final(self).well_formed(),
            final(self).connected() == old(self).connected().remove(id),
    {
        let _ = self.forget(id);
    }

    /// The relay has ended: every stream is dropped.
    pub fn on_end(&mut self)
        ensures
            final(self).well_formed(),
            final(self).connected() == Set::<u32>::empty(),
    {
        self.ids.clear();
        assert(self.connected() =~= Set::<u32>::empty());
    }
}

/// What the reader of a stream does with what a read came back with.
pub fn stream_step(read: StreamRead) -> (result: StreamStep)
    ensures
        result == (match read {
            StreamRead::Bytes(0) => StreamStep::Close,
            StreamRead::Bytes(_) => StreamStep::Send,
            StreamRead::Interrupted => StreamStep::Retry,
            StreamRead::Failed => StreamStep::Close,
        }),
{
    match read {
        StreamRead::Bytes(count) => if count == 0 {
            StreamStep::Close
        } else {
            StreamStep::Send
        },
        StreamRead::Interrupted => StreamStep::Retry,
        StreamRead::Failed => StreamStep::Close,
    }
}

// ---------------------------------------------------------------------------
// Arguments of the relay
// ---------------------------------------------------------------------------
/// What waypipe hands to the program that it takes for ssh.
#[derive(Debug)]
pub struct WaypipeRelayArgs {
    pub remote_socket: String,
    pub local_socket: String,
    pub remote_command: Vec<String>,
}

/// The two ends of the last socket mapping before the command, and the command.
pub struct RelayScan {
    pub sockets: Option<(Seq<char>, Seq<char>)>,
    pub command: Option<Seq<Seq<char>>>,
}

/// Reads arguments from the front: `-R` takes a mapping, `--` ends them.
pub open spec fn relay_scan(
    args: Seq<Seq<char>>,
    sockets: Option<(Seq<char>, Seq<char>)>,
) -> Result<RelayScan, Seq<char>>
    decreases args.len(),
{
    if args.len() == 0 {
        Ok(RelayScan { sockets, command: None })
    } else if args[0] == "-R"@ && args.len() > 1 {
        match split_first(args[1], ':') {
            Some(pair) => relay_scan(args.skip(2), Some(pair)),
            None => Err("invalid -R socket mapping `"@ + args[1] + "`"@),
        }
    } else if args[0] == "--"@ {
        Ok(RelayScan { sockets, command: Some(args.skip(1)) })
    } else {
        relay_scan(args.skip(1), sockets)
    }
}

/// The remote socket, the local socket and the command that the arguments name.
pub open spec fn relay_arguments(args: Seq<Seq<char>>) -> Result<
    (Seq<char>, Seq<char>, Seq<Seq<char>>),
    Seq<char>,
> {
    match relay_scan(args, None) {
        Err(message) => Err(message),
        Ok(scan) => match scan.sockets {
            None => Err("missing ssh -R remote socket"@),
            Some(sockets) => match scan.command {
                None => Err("missing remote command"@),
                Some(command) => if command.len() == 0 {
                    Err("empty remote command"@)
                } else {
                    Ok((sockets.0, sockets.1, command))
                },
            },
        },
    }
}

pub fn parse_waypipe_ssh_relay_args(args: &Vec<String>) -> (result: Result<
    WaypipeRelayArgs,
    String,
>)
    ensures
        match result {
            Ok(relay) => relay_arguments(args.deep_view()) == Ok::<_, Seq<char>>(
                (relay.remote_socket@, relay.local_socket@, relay.remote_command.deep_view()),
            ),
            Err(message) => relay_arguments(args.deep_view()) == Err::<
                (Seq<char>, Seq<char>, Seq<Seq<char>>),
                _,
            >(message@),
        },
{
    broadcast use lemma_deep_push;

    let ghost all = args.deep_view();
    let mut sockets: Option<(String, String)> = None;
    let mut i: usize = 0;
    assert(all.skip(0) == all);
    while i < args.len()
        invariant
            i <= args.len(),
            all == args.deep_view(),
            relay_scan(all, None) == relay_scan(all.skip(i as int), sockets.deep_view()),
        decreases args.len() - i,
    {
        let ghost rest = all.skip(i as int);
        assert(rest[0] == args@[i as int]@);
        assert(rest.len() > 1 ==> rest[1] == args@[i + 1]@);
        if same(args[i].as_str(), "-R") && args.len() - i > 1 {
            match split_once(args[i + 1].as_str(), ':') {
                Some(pair) => {
                    sockets = Some((pair.0.to_owned(), pair.1.to_owned()));
                    assert(rest.skip(2) == all.skip(i + 2));
                    i += 2;
                },
                None => {
                    return Err(
                        concat3("invalid -R socket mapping `", args[i + 1].as_str(), "`"),
                    );
                },
            }
        } else if same(args[i].as_str(), "--") {
            let mut command: Vec<String> = Vec::new();
            assert(command.deep_view() == rest.subrange(1, 1));
            for j in i + 1..args.len()
                invariant
                    i + 1 <= args@.len(),
                    all == args.deep_view(),
                    rest == all.skip(i as int),
                    command.deep_view() == rest.subrange(1, j - i),
            {
                command.push(args[j].clone());
                assert(rest.subrange(1, j + 1 - i) == rest.subrange(1, j - i).push(rest[j - i]));
            }
            assert(command.deep_view() == rest.skip(1));
            return match sockets {
                None => Err("missing ssh -R remote socket".to_owned()),
                Some(pair) => if command.len() == 0 {
                    Err("empty remote command".to_owned())
                } else {
                    Ok(
                        WaypipeRelayArgs {
                            remote_socket: pair.0,
                            local_socket: pair.1,
                            remote_command: command,
                        },
                    )
                },
            };
        } else {
            assert(rest.skip(1) == all.skip(i + 1));
            i += 1;
        }
    }
    match sockets {
        None => Err("missing ssh -R remote socket".to_owned()),
        Some(_) => Err("missing remote command".to_owned()),
    }
}

/// The trimmed lines of a text that are not empty.
pub open spec fn listed(value: Seq<char>) -> Seq<Seq<char>> {
    without_empty(lines_of(value).map_values(|line: Seq<char>| trimmed(line)))
}

/// The entries of a list that an environment variable carries, one a line.
pub fn relay_env_list(value: Option<&str>) -> (result: Vec<String>)
    ensures
        result.deep_view() == (match value {
            Some(value) => listed(value@),
            None => Seq::empty(),
        }),
{
    match value {
        Some(value) => listed_lines(value),
        None => {
            let none: Vec<String> = Vec::new();
            assert(none.deep_view() == Seq::<Seq<char>>::empty());
            none
        },
    }
}

pub fn listed_lines(value: &str) -> (result: Vec<String>)
    ensures
        result.deep_view() == listed(value@),
{
    broadcast use lemma_deep_push;

    let all = lines(value);
    let ghost wanted = lines_of(value@).map_values(|line: Seq<char>| trimmed(line));
    let mut parts: Vec<String> = Vec::new();
    assert(parts.deep_view() == wanted.take(0));
    for i in 0..all.len()
        invariant
            all.deep_view() == lines_of(value@),
            wanted == lines_of(value@).map_values(|line: Seq<char>| trimmed(line)),
            parts.deep_view() == wanted.take(i as int),
    {
        assert(lines_of(value@)[i as int] == all@[i as int]@);
        assert(wanted.take(i + 1) == wanted.take(i as int).push(trimmed(all@[i as int]@)));
        parts.push(trim(all[i].as_str()).to_owned());
    }
    assert(wanted.take(wanted.len() as int) == wanted);
    drop_empty(parts)
}

} // verus!
