//! The network endpoint: the rules of the listener and of the loops that serve one
//! client, and of the loops that talk to a remote host in place of a device.

use crate::term_switch::ClientMsg;
use crate::term_switch::MsgType;
use crate::term_switch::NetAddr;
use crate::text::block;
use crate::text::join3;
use crate::text::push_signed;
use crate::text::signed_decimal;
use crate::text::take_block;
use vstd::prelude::*;
use vstd::string::StringExecFns;

verus! {

/// Whether the listener accepts one more client, where `clients` are connected and
/// `maxclients` is the cap.
pub fn has_room(clients: i8, maxclients: i8) -> (room: bool)
    ensures
        room == (clients < maxclients),
{
    clients < maxclients
}

/// The notice that a client has connected from `addr` at the time `now`.
pub open spec fn joined_notice(now: Seq<char>, addr: Seq<char>) -> Seq<char> {
    "\r\nClient connection established at "@ + now + " from "@ + addr
}

/// The notice that the client from `addr` has closed its connection at the time `now`.
pub open spec fn left_notice(now: Seq<char>, addr: Seq<char>) -> Seq<char> {
    "Client connection closed at "@ + now + " from "@ + addr
}

/// The notice that a client from `addr` was refused at the time `now` because
/// `maxclients` clients are connected.
pub open spec fn rejected_notice(now: Seq<char>, addr: Seq<char>, maxclients: i8) -> Seq<char> {
    "Client rejected at "@ + now + " from "@ + addr + ": Maximum clients connected: "@
        + signed_decimal(maxclients as int)
}

fn at_from(head: &str, now: &str, addr: &str) -> (text: String)
    ensures
        text@ == head@ + now@ + " from "@ + addr@,
{
    let mut text = join3(head, now, " from ");
    text.append(addr);
    text
}

/// Writes the notice that a client has connected.
pub fn joined_text(now: &str, addr: &str) -> (text: String)
    ensures
        text@ == joined_notice(now@, addr@),
{
    at_from("\r\nClient connection established at ", now, addr)
}

/// Writes the notice that a client has closed its connection.
pub fn left_text(now: &str, addr: &str) -> (text: String)
    ensures
        text@ == left_notice(now@, addr@),
{
    at_from("Client connection closed at ", now, addr)
}

/// Writes the notice that a client was refused.
pub fn rejected_text(now: &str, addr: &str, maxclients: i8) -> (text: String)
    ensures
        text@ == rejected_notice(now@, addr@, maxclients),
{
    let mut text = at_from("Client rejected at ", now, addr);
    text.append(": Maximum clients connected: ");
    push_signed(&mut text, maxclients as i64);
    text
}

/// How a read from a socket ended.
#[derive(Clone, Copy, Debug, PartialEq, Eq, Structural)]
pub enum SocketRead {
    /// This many bytes were read; none means that the peer has closed.
    Data(usize),
    /// The socket failed.
    Failed,
}

/// What the writer of a client does with a message of the client's queue.
#[derive(Clone, Copy, Debug, PartialEq, Eq, Structural)]
pub enum ClientOrder {
    /// Write this byte to the client's socket.
    Write(u8),
    /// Tell the switch that the client is removed, and end the writer.
    Leave,
}

/// Decides what the writer of a client does with `msg`.
pub fn client_order(msg: ClientMsg) -> (order: ClientOrder)
    ensures
        order == (match msg {
            ClientMsg::Console(val) => ClientOrder::Write(val),
            ClientMsg::Exit => ClientOrder::Leave,
        }),
{
    match msg {
        ClientMsg::Console(val) => ClientOrder::Write(val),
        ClientMsg::Exit => ClientOrder::Leave,
    }
}

/// The event that the writer of the client `addr` publishes when it is told to exit.
pub fn client_farewell(addr: NetAddr) -> (msg: MsgType)
    ensures
        msg == MsgType::Remove(addr),
{
    MsgType::Remove(addr)
}

/// The bytes `bytes` as console bytes, in order.
pub open spec fn console_events(bytes: Seq<u8>) -> Seq<MsgType> {
    bytes.map_values(|b: u8| MsgType::Console(b))
}

/// The bytes `bytes` as backend bytes, in order.
pub open spec fn serial_events(bytes: Seq<u8>) -> Seq<MsgType> {
    bytes.map_values(|b: u8| MsgType::Serial(b))
}

/// Makes console events of bytes.
pub fn to_console_events(bytes: &Vec<u8>) -> (events: Vec<MsgType>)
    ensures
        events@ == console_events(bytes@),
{
    let mut events: Vec<MsgType> = Vec::new();
    let mut i: usize = 0;
    while i < bytes.len()
        invariant
            i <= bytes.len(),
            events@.len() == i,
            forall|j: int| 0 <= j < i ==> events@[j] == MsgType::Console(bytes@[j]),
        decreases bytes.len() - i,
    {
        events.push(MsgType::Console(bytes[i]));
        i += 1;
    }
    events
}

/// Makes backend events of bytes.
pub fn to_serial_events(bytes: &Vec<u8>) -> (events: Vec<MsgType>)
    ensures
        events@ == serial_events(bytes@),
{
    let mut events: Vec<MsgType> = Vec::new();
    let mut i: usize = 0;
    while i < bytes.len()
        invariant
            i <= bytes.len(),
            events@.len() == i,
            forall|j: int| 0 <= j < i ==> events@[j] == MsgType::Serial(bytes@[j]),
        decreases bytes.len() - i,
    {
        events.push(MsgType::Serial(bytes[i]));
        i += 1;
    }
    events
}

/// What a reader publishes to the switch after a read, and whether it ends.
#[derive(Debug)]
pub struct Publish {
    /// The events to publish, in order.
    pub events: Vec<MsgType>,
    /// Whether the reader ends.
    pub stop: bool,
}

/// What the reader of the client `addr` publishes after a read into `buffer`: the
/// client's exit when the peer has closed, a global exit when the socket failed, and
/// the bytes read, as console bytes, otherwise.
pub open spec fn client_events_of(buffer: Seq<u8>, read: SocketRead, addr: NetAddr) -> Seq<
    MsgType,
> {
    match read {
        SocketRead::Data(cnt) => if cnt == 0 {
            seq![MsgType::NetClientExit(addr)]
        } else {
            console_events(block(buffer, cnt as nat))
        },
        SocketRead::Failed => seq![MsgType::Exit],
    }
}

/// Decides what the reader of the client `addr` does after a read into `buffer`.
pub fn client_readings(buffer: &[u8], read: SocketRead, addr: NetAddr) -> (out: Publish)
    ensures
        out.events@ == client_events_of(buffer@, read, addr),
        out.stop == (read == SocketRead::Failed || read == SocketRead::Data(0)),
{
    match read {
        SocketRead::Data(cnt) => {
            if cnt == 0 {
                let mut events: Vec<MsgType> = Vec::new();
                events.push(MsgType::NetClientExit(addr));
                Publish { events, stop: true }
            } else {
                let bytes = take_block(buffer, cnt);
                Publish { events: to_console_events(&bytes), stop: false }
            }
        },
        SocketRead::Failed => {
            let mut events: Vec<MsgType> = Vec::new();
            events.push(MsgType::Exit);
            Publish { events, stop: true }
        },
    }
}

/// What the writer to a remote host does with an event of the backend queue.
#[derive(Clone, Copy, Debug, PartialEq, Eq, Structural)]
pub enum RemoteOrder {
    /// Write this byte to the socket.
    Write(u8),
    /// End the writer.
    Stop,
    /// Pass the event over.
    Ignore,
}

/// What an event of the backend queue means for the socket to a remote host.
pub open spec fn remote_order_of(msg: MsgType) -> RemoteOrder {
    match msg {
        MsgType::Serial(val) => RemoteOrder::Write(val),
        MsgType::Exit => RemoteOrder::Stop,
        _ => RemoteOrder::Ignore,
    }
}

/// Decides what the writer to a remote host does with the event `msg`.
pub fn remote_order(msg: &MsgType) -> (order: RemoteOrder)
    ensures
        order == remote_order_of(*msg),
{
    match msg {
        MsgType::Serial(val) => RemoteOrder::Write(*val),
        MsgType::Exit => RemoteOrder::Stop,
        _ => RemoteOrder::Ignore,
    }
}

/// What the reader from a remote host does after a read.
#[derive(Debug)]
pub enum RemoteInput {
    /// Publish these events to the switch.
    Events(Vec<MsgType>),
    /// The host has closed the connection: end the program.
    Closed,
    /// The connection failed: end the program.
    Reset,
}

/// Decides what the reader from a remote host does after a read into `buffer`. The
/// remote host is the backend, so what it sends is published as backend bytes.
pub fn remote_readings(buffer: &[u8], read: SocketRead) -> (out: RemoteInput)
    ensures
        match read {
            SocketRead::Data(cnt) => if cnt == 0 {
                out is Closed
            } else {
                out matches RemoteInput::Events(events) && events@ == serial_events(
                    block(buffer@, cnt as nat),
                )
            },
            SocketRead::Failed => out is Reset,
        },
{
    match read {
        SocketRead::Data(cnt) => {
            if cnt == 0 {
                RemoteInput::Closed
            } else {
                let bytes = take_block(buffer, cnt);
                RemoteInput::Events(to_serial_events(&bytes))
            }
        },
        SocketRead::Failed => RemoteInput::Reset,
    }
}

} // verus!
