//! The serial endpoint: what the events of the backend queue mean for the device,
//! what a read from the device means for the switch, and when to reconnect.

use crate::term_switch::MsgType;
use crate::text::block;
use crate::text::debug_repr;
use crate::text::debug_text;
use crate::text::decimal;
use crate::text::join3;
use crate::text::join;
use crate::text::push_decimal;
use crate::text::take_block;
use vstd::prelude::*;
use vstd::string::StringExecFns;

verus! {

/// How long the break line is held, in milliseconds.
pub const BREAK_MS: u64 = 100;

/// After how many milliseconds a read from the device gives up.
pub const READ_TIMEOUT_MS: u64 = 100;

/// How many bytes one read from the device asks for.
pub const READ_BLOCK: usize = 1024;

/// How many seconds pass between two attempts to open a lost device.
pub const RETRY_SECS: u64 = 1;

/// What the writer does with an event of the backend queue.
#[derive(Clone, Copy, Debug, PartialEq, Eq, Structural)]
pub enum SerialOrder {
    /// Write this byte to the device.
    Write(u8),
    /// Pulse the break line.
    Break,
    /// End the writer.
    Close,
    /// Pass the event over.
    Ignore,
}

/// What an event of the backend queue means for the device.
pub open spec fn serial_order_of(msg: MsgType) -> SerialOrder {
    match msg {
        MsgType::Serial(val) => SerialOrder::Write(val),
        MsgType::SerialBreak => SerialOrder::Break,
        MsgType::SerialClose => SerialOrder::Close,
        _ => SerialOrder::Ignore,
    }
}

/// Decides what the writer does with the event `msg`.
pub fn serial_order(msg: &MsgType) -> (order: SerialOrder)
    ensures
        order == serial_order_of(*msg),
{
    match msg {
        MsgType::Serial(val) => SerialOrder::Write(*val),
        MsgType::SerialBreak => SerialOrder::Break,
        MsgType::SerialClose => SerialOrder::Close,
        _ => SerialOrder::Ignore,
    }
}

/// How a read from the device ended.
#[derive(Clone, Copy, Debug, PartialEq, Eq, Structural)]
pub enum DeviceRead {
    /// This many bytes were read.
    Data(usize),
    /// Nothing arrived in time.
    TimedOut,
    /// The device failed.
    Failed,
}

/// What the reader does after a read from the device.
#[derive(Debug)]
pub struct Readings {
    /// The bytes to publish to the switch, each as a backend byte.
    pub bytes: Vec<u8>,
    /// Whether to publish that the backend is lost, and end the reader.
    pub lost: bool,
}

/// Decides what the reader does after a read into `buffer`: the bytes read go to the
/// switch, a timeout is no event, and any other failure means that the backend is
/// lost.
pub fn device_readings(buffer: &[u8], read: DeviceRead) -> (out: Readings)
    ensures
        out.bytes@ == (match read {
            DeviceRead::Data(cnt) => block(buffer@, cnt as nat),
            _ => Seq::<u8>::empty(),
        }),
        out.lost == (read == DeviceRead::Failed),
{
    match read {
        DeviceRead::Data(cnt) => Readings { bytes: take_block(buffer, cnt), lost: false },
        DeviceRead::TimedOut => Readings { bytes: Vec::new(), lost: false },
        DeviceRead::Failed => Readings { bytes: Vec::new(), lost: true },
    }
}

/// What the endpoint does after an attempt to open the device.
#[derive(Clone, Copy, Debug, PartialEq, Eq, Structural)]
pub enum Reconnect {
    /// The device is open: announce it and pass bytes until it is lost.
    Run,
    /// The device is gone and the endpoint was not told to keep running: give up.
    Fatal,
    /// The device has just been lost: announce it and try again.
    Announce,
    /// The device is still gone: wait, then try again.
    Wait,
}

/// What follows an attempt to open the device, where `opened` tells whether it
/// succeeded, `keeprunning` whether a lost device is to be waited for, and `running`
/// whether the device was open at the attempt before.
pub open spec fn reconnect_of(opened: bool, keeprunning: bool, running: bool) -> Reconnect {
    if opened {
        Reconnect::Run
    } else if !keeprunning {
        Reconnect::Fatal
    } else if running {
        Reconnect::Announce
    } else {
        Reconnect::Wait
    }
}

/// Decides what follows an attempt to open the device and whether the device counts
/// as open from now on.
pub fn reconnect_step(opened: bool, keeprunning: bool, running: bool) -> (next: (Reconnect, bool))
    ensures
        next.0 == reconnect_of(opened, keeprunning, running),
        next.1 == (opened || (!keeprunning && running)),
{
    if opened {
        (Reconnect::Run, true)
    } else if !keeprunning {
        (Reconnect::Fatal, running)
    } else if running {
        (Reconnect::Announce, false)
    } else {
        (Reconnect::Wait, false)
    }
}

/// The notice that the device `portname` is lost.
pub open spec fn disconnect_notice(portname: Seq<char>) -> Seq<char> {
    "Disconnected from: "@ + debug_repr(portname)
}

/// The notice that the device `portname` is open at `baudrate`.
pub open spec fn connect_notice(portname: Seq<char>, baudrate: u32) -> Seq<char> {
    "Connected to: "@ + debug_repr(portname) + " - baudrate: "@ + decimal(baudrate as nat)
}

/// The reason given when the device `portname` is gone for good.
pub open spec fn disappeared_notice(portname: Seq<char>) -> Seq<char> {
    "The "@ + portname + " port has disappeared"@
}

/// Writes the notice that the device is lost.
pub fn disconnect_text(portname: &str) -> (text: String)
    ensures
        text@ == disconnect_notice(portname@),
{
    join("Disconnected from: ", debug_text(portname).as_str())
}

/// Writes the notice that the device is open.
pub fn connect_text(portname: &str, baudrate: u32) -> (text: String)
    ensures
        text@ == connect_notice(portname@, baudrate),
{
    let mut text = join3("Connected to: ", debug_text(portname).as_str(), " - baudrate: ");
    push_decimal(&mut text, baudrate as u64);
    text
}

/// Writes the reason given when the device is gone for good.
pub fn disappeared_text(portname: &str) -> (text: String)
    ensures
        text@ == disappeared_notice(portname@),
{
    let mut text = String::from_str("The ");
    text.append(portname);
    text.append(" port has disappeared");
    text
}

} // verus!
