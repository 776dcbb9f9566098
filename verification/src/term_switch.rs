//! The switch: the hub that routes every event between the console, the backend
//! device, the fleet of network clients and the script helper.
//!
//! Routing is decided by [`plan`], a function of the event and of the mode flags.
//! [`Switch::handle`] carries a plan out on the queues and keeps the fleet of network
//! clients; it reports which plan it followed and which clients it reached.

use crossbeam_channel::Receiver;
use crossbeam_channel::Sender;
use crate::channel::Outlet;
use crossbeam_channel::unbounded;
use std::sync::Arc;
use std::sync::atomic::AtomicBool;
use std::sync::atomic::AtomicI8;
use std::sync::atomic::AtomicU32;
use std::sync::atomic::Ordering;
use vstd::prelude::*;

verus! {

/// The address of a network client, as plain values: an IP address, widened to 128
/// bits, a port, and the two extra fields that an IPv6 socket address carries.
#[derive(Clone, Copy, Debug, PartialEq, Eq, Hash, Structural)]
pub struct NetAddr {
    /// True for an IPv6 address.
    pub v6: bool,
    /// The address bits; an IPv4 address occupies the low 32 bits.
    pub ip: u128,
    /// The port.
    pub port: u16,
    /// IPv6 flow information, zero for IPv4.
    pub flowinfo: u32,
    /// IPv6 scope, zero for IPv4.
    pub scope_id: u32,
}

/// What the switch sends to the writer of one network client.
#[derive(Clone, Copy, Debug, PartialEq, Eq, Structural)]
pub enum ClientMsg {
    /// A byte from the backend, to be written to the client's socket.
    Console(u8),
    /// The client is to be closed.
    Exit,
}

/// The events that travel between the endpoints and the switch.
#[derive(Debug, Clone)]
pub enum MsgType {
    /// A network client has connected.
    Add(NetAddr),
    /// Reply to `Add`: the reading end of the new client's queue.
    Added(Receiver<ClientMsg>),
    /// A network client has closed cleanly.
    Remove(NetAddr),
    /// A network client's socket has reached its end.
    NetClientExit(NetAddr),
    /// A byte typed by a local or remote operator, bound for the backend.
    Console(u8),
    /// A byte from the backend, bound for every observer.
    Serial(u8),
    /// The backend is lost.
    SerialClose,
    /// Send a break pulse on the backend line.
    SerialBreak,
    /// A byte typed in answer to a script's prompt.
    ScriptAlertResponse(u8),
    /// The script has finished.
    ScriptDone,
    /// Global shutdown.
    Exit,
}

/// What the switch does with one event.
#[derive(Debug)]
pub enum Plan {
    /// Open a queue for a new client, record the client, answer `Added` on the
    /// network queue.
    Join(NetAddr),
    /// Tell the client with this address to exit and forget it.
    Leave(NetAddr),
    /// Pass messages on: to every client of the fleet, to the script, to the console
    /// and to the backend, each only where one is given.
    Forward {
        fleet: Option<ClientMsg>,
        script: Option<MsgType>,
        console: Option<MsgType>,
        serial: Option<MsgType>,
    },
}

/// A plan that passes nothing on.
pub open spec fn nothing() -> Plan {
    Plan::Forward { fleet: None, script: None, console: None, serial: None }
}

/// The routing table: the plan for `msg` when the switch runs with a listener
/// (`server`), the script has process id `script_pid` (zero: no script) and the
/// script's binary mode is `binary_mode`.
pub open spec fn plan(msg: MsgType, server: bool, script_pid: u32, binary_mode: bool) -> Plan {
    match msg {
        MsgType::Add(addr) => Plan::Join(addr),
        MsgType::Added(_) => nothing(),
        MsgType::Remove(addr) => Plan::Leave(addr),
        MsgType::NetClientExit(addr) => Plan::Leave(addr),
        MsgType::Console(b) => Plan::Forward {
            fleet: None,
            script: None,
            console: None,
            serial: Some(MsgType::Serial(b)),
        },
        MsgType::Serial(b) => Plan::Forward {
            fleet: if server {
                Some(ClientMsg::Console(b))
            } else {
                None
            },
            script: if script_pid != 0 {
                Some(MsgType::Console(b))
            } else {
                None
            },
            console: if script_pid != 0 && binary_mode {
                None
            } else {
                Some(MsgType::Console(b))
            },
            serial: None,
        },
        MsgType::SerialClose => Plan::Forward {
            fleet: None,
            script: None,
            console: None,
            serial: Some(MsgType::SerialClose),
        },
        MsgType::SerialBreak => Plan::Forward {
            fleet: None,
            script: None,
            console: None,
            serial: Some(MsgType::SerialBreak),
        },
        MsgType::ScriptAlertResponse(b) => Plan::Forward {
            fleet: None,
            script: Some(MsgType::ScriptAlertResponse(b)),
            console: None,
            serial: None,
        },
        MsgType::ScriptDone => Plan::Forward {
            fleet: None,
            script: Some(MsgType::ScriptDone),
            console: None,
            serial: None,
        },
        MsgType::Exit => Plan::Forward {
            fleet: if server {
                Some(ClientMsg::Exit)
            } else {
                None
            },
            script: None,
            console: if server {
                None
            } else {
                Some(MsgType::Exit)
            },
            serial: None,
        },
    }
}

/// Computes the plan for `msg` under the given mode flags.
pub fn plan_for(msg: &MsgType, server: bool, script_pid: u32, binary_mode: bool) -> (p: Plan)
    ensures
        p == plan(*msg, server, script_pid, binary_mode),
{
    match msg {
        MsgType::Add(addr) => Plan::Join(*addr),
        MsgType::Added(_) => Plan::Forward { fleet: None, script: None, console: None, serial: None },
        MsgType::Remove(addr) => Plan::Leave(*addr),
        MsgType::NetClientExit(addr) => Plan::Leave(*addr),
        MsgType::Console(b) => Plan::Forward {
            fleet: None,
            script: None,
            console: None,
            serial: Some(MsgType::Serial(*b)),
        },
        MsgType::Serial(b) => {
            let b = *b;
            let fleet = if server {
                Some(ClientMsg::Console(b))
            } else {
                None
            };
            if script_pid != 0 {
                let console = if binary_mode {
                    None
                } else {
                    Some(MsgType::Console(b))
                };
                Plan::Forward { fleet, script: Some(MsgType::Console(b)), console, serial: None }
            } else {
                Plan::Forward { fleet, script: None, console: Some(MsgType::Console(b)), serial: None }
            }
        },
        MsgType::SerialClose => Plan::Forward {
            fleet: None,
            script: None,
            console: None,
            serial: Some(MsgType::SerialClose),
        },
        MsgType::SerialBreak => Plan::Forward {
            fleet: None,
            script: None,
            console: None,
            serial: Some(MsgType::SerialBreak),
        },
        MsgType::ScriptAlertResponse(b) => Plan::Forward {
            fleet: None,
            script: Some(MsgType::ScriptAlertResponse(*b)),
            console: None,
            serial: None,
        },
        MsgType::ScriptDone => Plan::Forward {
            fleet: None,
            script: Some(MsgType::ScriptDone),
            console: None,
            serial: None,
        },
        MsgType::Exit => {
            if server {
                Plan::Forward { fleet: Some(ClientMsg::Exit), script: None, console: None, serial: None }
            } else {
                Plan::Forward { fleet: None, script: None, console: Some(MsgType::Exit), serial: None }
            }
        },
    }
}

/// The largest fleet that the client counter can express.
pub const FLEET_MAX: usize = 127;

impl Plan {
    /// What the plan hands to the script queue.
    pub open spec fn to_script(self) -> Seq<MsgType> {
        match self {
            Plan::Forward { script: Some(m), .. } => seq![m],
            _ => Seq::empty(),
        }
    }

    /// What the plan hands to the console queue.
    pub open spec fn to_console(self) -> Seq<MsgType> {
        match self {
            Plan::Forward { console: Some(m), .. } => seq![m],
            _ => Seq::empty(),
        }
    }

    /// What the plan hands to the backend queue.
    pub open spec fn to_serial(self) -> Seq<MsgType> {
        match self {
            Plan::Forward { serial: Some(m), .. } => seq![m],
            _ => Seq::empty(),
        }
    }
}

/// A network client as the switch knows it: its address, and the messages that the
/// switch has handed to its queue, oldest first.
pub struct ClientModel {
    pub addr: NetAddr,
    pub sent: Seq<ClientMsg>,
}

/// A client that has just joined from `addr`.
pub open spec fn newcomer(addr: NetAddr) -> ClientModel {
    ClientModel { addr, sent: Seq::empty() }
}

/// The client `c` after `msg` has been handed to its queue.
pub open spec fn handed(c: ClientModel, msg: ClientMsg) -> ClientModel {
    ClientModel { addr: c.addr, sent: c.sent.push(msg) }
}

/// The addresses of `clients`, in order.
pub open spec fn addrs_of(clients: Seq<ClientModel>) -> Seq<NetAddr> {
    clients.map_values(|c: ClientModel| c.addr)
}

/// `clients` without its first client from `addr`; `clients` itself if there is none.
pub open spec fn without_first(clients: Seq<ClientModel>, addr: NetAddr) -> Seq<ClientModel>
    decreases clients.len(),
{
    if clients.len() == 0 {
        clients
    } else if clients[0].addr == addr {
        clients.drop_first()
    } else {
        seq![clients[0]] + without_first(clients.drop_first(), addr)
    }
}

/// The position of the first of `clients` that is from `addr`; the number of clients
/// where none is.
pub open spec fn position_of(clients: Seq<ClientModel>, addr: NetAddr) -> int
    decreases clients.len(),
{
    if clients.len() == 0 {
        0
    } else if clients[0].addr == addr {
        0
    } else {
        1 + position_of(clients.drop_first(), addr)
    }
}

/// The record of dismissed clients, which was `gone`, after the oldest of `clients`
/// from `addr` has been dismissed: that client joins the record, with `Exit` handed
/// to it as the last message. Where no client is from `addr`, the record stays.
pub open spec fn dismissed_after(
    clients: Seq<ClientModel>,
    gone: Seq<ClientModel>,
    addr: NetAddr,
) -> Seq<ClientModel> {
    let i = position_of(clients, addr);
    if 0 <= i < clients.len() {
        gone.push(handed(clients[i], ClientMsg::Exit))
    } else {
        gone
    }
}

/// Of the first `n` of `clients`, those whose flag in `delivered` is set, in order,
/// each with `msg` handed to it.
pub open spec fn reached_upto(
    clients: Seq<ClientModel>,
    delivered: Seq<bool>,
    msg: ClientMsg,
    n: nat,
) -> Seq<ClientModel>
    decreases n,
{
    if n == 0 {
        Seq::empty()
    } else {
        let rest = reached_upto(clients, delivered, msg, (n - 1) as nat);
        if delivered[n - 1] {
            rest.push(handed(clients[n - 1], msg))
        } else {
            rest
        }
    }
}

/// The fleet after `msg` has been sent to every one of `clients`: those whose flag
/// in `delivered` is set, in order, each with `msg` handed to it.
pub open spec fn reached(clients: Seq<ClientModel>, delivered: Seq<bool>, msg: ClientMsg) -> Seq<
    ClientModel,
> {
    reached_upto(clients, delivered, msg, clients.len())
}

/// `senders` without the one at position `at`; `senders` itself where it has no such
/// position.
pub open spec fn senders_without(senders: Seq<Sender<ClientMsg>>, at: int) -> Seq<
    Sender<ClientMsg>,
> {
    if 0 <= at < senders.len() {
        senders.remove(at)
    } else {
        senders
    }
}

/// Of the first `n` of `senders`, those whose flag in `delivered` is set, in order.
pub open spec fn kept_senders_upto(
    senders: Seq<Sender<ClientMsg>>,
    delivered: Seq<bool>,
    n: nat,
) -> Seq<Sender<ClientMsg>>
    decreases n,
{
    if n == 0 {
        Seq::empty()
    } else {
        let rest = kept_senders_upto(senders, delivered, (n - 1) as nat);
        if delivered[n - 1] {
            rest.push(senders[n - 1])
        } else {
            rest
        }
    }
}

/// Those of `senders` whose flag in `delivered` is set, in order.
pub open spec fn kept_senders(senders: Seq<Sender<ClientMsg>>, delivered: Seq<bool>) -> Seq<
    Sender<ClientMsg>,
> {
    kept_senders_upto(senders, delivered, senders.len())
}

/// `kept_senders_upto` looks only at the first `n` flags.
pub proof fn lemma_kept_senders_prefix(
    senders: Seq<Sender<ClientMsg>>,
    d1: Seq<bool>,
    d2: Seq<bool>,
    n: nat,
)
    requires
        n <= d1.len(),
        n <= d2.len(),
        forall|j: int| 0 <= j < n ==> d1[j] == d2[j],
    ensures
        kept_senders_upto(senders, d1, n) == kept_senders_upto(senders, d2, n),
    decreases n,
{
    if n > 0 {
        lemma_kept_senders_prefix(senders, d1, d2, (n - 1) as nat);
    }
}

/// The first client from `addr` stands where one from `addr` stands with none from
/// `addr` before it.
pub proof fn lemma_position_at(clients: Seq<ClientModel>, addr: NetAddr, i: int)
    requires
        0 <= i <= clients.len(),
        i < clients.len() ==> clients[i].addr == addr,
        forall|j: int| 0 <= j < i ==> clients[j].addr != addr,
    ensures
        position_of(clients, addr) == i,
    decreases clients.len(),
{
    if i > 0 {
        let rest = clients.drop_first();
        assert forall|j: int| 0 <= j < i - 1 implies rest[j].addr != addr by {
            assert(rest[j] == clients[j + 1]);
        }
        lemma_position_at(rest, addr, i - 1);
    }
}

/// Removing the client at the first position that holds `addr` is `without_first`.
pub proof fn lemma_without_first_at(clients: Seq<ClientModel>, addr: NetAddr, i: int)
    requires
        0 <= i < clients.len(),
        clients[i].addr == addr,
        forall|j: int| 0 <= j < i ==> clients[j].addr != addr,
    ensures
        without_first(clients, addr) == clients.remove(i),
    decreases clients.len(),
{
    if i == 0 {
    } else {
        let rest = clients.drop_first();
        assert forall|j: int| 0 <= j < i - 1 implies rest[j].addr != addr by {
        }
        lemma_without_first_at(rest, addr, i - 1);
    }
}

/// Where no client is from `addr`, `without_first` changes nothing.
pub proof fn lemma_without_first_absent(clients: Seq<ClientModel>, addr: NetAddr)
    requires
        forall|j: int| 0 <= j < clients.len() ==> clients[j].addr != addr,
    ensures
        without_first(clients, addr) == clients,
    decreases clients.len(),
{
    if clients.len() > 0 {
        let rest = clients.drop_first();
        assert forall|j: int| 0 <= j < rest.len() implies rest[j].addr != addr by {
        }
        lemma_without_first_absent(rest, addr);
    }
}

/// `reached_upto` looks only at the first `n` entries of both sequences.
pub proof fn lemma_reached_upto_prefix(
    c1: Seq<ClientModel>,
    d1: Seq<bool>,
    c2: Seq<ClientModel>,
    d2: Seq<bool>,
    msg: ClientMsg,
    n: nat,
)
    requires
        n <= c1.len(),
        n <= c2.len(),
        n <= d1.len(),
        n <= d2.len(),
        forall|j: int| 0 <= j < n ==> c1[j] == c2[j] && d1[j] == d2[j],
    ensures
        reached_upto(c1, d1, msg, n) == reached_upto(c2, d2, msg, n),
    decreases n,
{
    if n > 0 {
        lemma_reached_upto_prefix(c1, d1, c2, d2, msg, (n - 1) as nat);
    }
}

/// No more clients are reached than were sent to.
pub proof fn lemma_reached_upto_len(
    clients: Seq<ClientModel>,
    delivered: Seq<bool>,
    msg: ClientMsg,
    n: nat,
)
    ensures
        reached_upto(clients, delivered, msg, n).len() <= n,
    decreases n,
{
    if n > 0 {
        lemma_reached_upto_len(clients, delivered, msg, (n - 1) as nat);
    }
}

/// One connected network client: its address, the writing end of its queue, and the
/// record of what was handed to the queue.
struct NetClient {
    addr: NetAddr,
    out: Outlet<ClientMsg>,
}

impl NetClient {
    spec fn model(&self) -> ClientModel {
        ClientModel { addr: self.addr, sent: self.out.sent() }
    }

    spec fn sender(&self) -> Sender<ClientMsg> {
        self.out.sender()
    }

    fn post(&mut self, msg: ClientMsg) -> (delivered: bool)
        ensures
            final(self).model() == handed(old(self).model(), msg),
            final(self).sender() == old(self).sender(),
    {
        self.out.post(msg)
    }
}

/// The network clients that are connected, in the order in which they joined,
/// with the number that the listener goes by.
pub struct Fleet {
    clients: Vec<NetClient>,
    count: i8,
    gone: Ghost<Seq<ClientModel>>,
}

impl View for Fleet {
    type V = Seq<ClientModel>;

    closed spec fn view(&self) -> Seq<ClientModel> {
        self.clients@.map_values(|c: NetClient| c.model())
    }
}

impl Fleet {
    /// The client counter.
    pub closed spec fn count(&self) -> int {
        self.count as int
    }

    /// The clients that were dismissed, oldest dismissal first, each with everything
    /// that was handed to its queue.
    pub closed spec fn dismissed(&self) -> Seq<ClientModel> {
        self.gone@
    }

    /// The writing end of each client's queue, in the order of the clients.
    pub closed spec fn senders(&self) -> Seq<Sender<ClientMsg>> {
        self.clients@.map_values(|c: NetClient| c.sender())
    }

    /// The counter equals the number of clients, which the counter's type can
    /// express, and each client has its writing end.
    pub open spec fn wf(&self) -> bool {
        &&& self.count() == self@.len()
        &&& self@.len() <= FLEET_MAX
        &&& self.senders().len() == self@.len()
    }

    /// An empty fleet, from which no client was dismissed.
    pub fn new() -> (fleet: Fleet)
        ensures
            fleet.wf(),
            fleet@ == Seq::<ClientModel>::empty(),
            fleet.senders() == Seq::<Sender<ClientMsg>>::empty(),
            fleet.dismissed() == Seq::<ClientModel>::empty(),
    {
        Fleet { clients: Vec::new(), count: 0, gone: Ghost(Seq::empty()) }
    }

    /// The number of connected clients.
    pub fn client_count(&self) -> (n: i8)
        requires
            self.wf(),
        ensures
            n as int == self@.len(),
    {
        self.count
    }

    /// The address of every connected client, in joining order.
    pub fn addrs(&self) -> (list: Vec<NetAddr>)
        ensures
            list@ == addrs_of(self@),
    {
        let mut list: Vec<NetAddr> = Vec::new();
        let mut i: usize = 0;
        while i < self.clients.len()
            invariant
                i <= self.clients.len(),
                list@ == addrs_of(self@).take(i as int),
            decreases self.clients.len() - i,
        {
            list.push(self.clients[i].addr);
            i += 1;
        }
        list
    }

    /// Takes a client in: opens its queue, records it as the newest, and hands out the
    /// queue's reading end. A fleet of `FLEET_MAX` clients takes no one in.
    pub fn join(&mut self, addr: NetAddr) -> (rx: Option<Receiver<ClientMsg>>)
        requires
            old(self).wf(),
        ensures
            final(self).wf(),
            rx is Some <==> old(self)@.len() < FLEET_MAX,
            rx is Some ==> final(self)@ == old(self)@.push(newcomer(addr)),
            rx is Some ==> final(self).senders().len() == old(self).senders().len() + 1
                && final(self).senders().drop_last() == old(self).senders(),
            rx is None ==> final(self)@ == old(self)@,
            rx is None ==> final(self).senders() == old(self).senders(),
            final(self).dismissed() == old(self).dismissed(),
    {
        if self.clients.len() >= FLEET_MAX {
            return None;
        }
        let (tx, rx) = unbounded();
        self.clients.push(NetClient { addr, out: Outlet::new(tx) });
        self.count = self.count + 1;
        assert(self.senders().drop_last() =~= old(self).senders());
        Some(rx)
    }

    /// Dismisses the oldest client from `addr`, if there is one: hands `Exit` to its
    /// queue, whether or not its writer still listens, and forgets the client. The
    /// other clients stay as they are, and are handed nothing.
    pub fn leave(&mut self, addr: NetAddr) -> (found: bool)
        requires
            old(self).wf(),
        ensures
            final(self).wf(),
            final(self)@ == without_first(old(self)@, addr),
            final(self).senders() == senders_without(
                old(self).senders(),
                position_of(old(self)@, addr),
            ),
            final(self).dismissed() == dismissed_after(old(self)@, old(self).dismissed(), addr),
            found == addrs_of(old(self)@).contains(addr),
    {
        let mut i: usize = 0;
        while i < self.clients.len()
            invariant
                i <= self.clients.len(),
                *self == *old(self),
                self.wf(),
                forall|j: int| 0 <= j < i ==> self@[j].addr != addr,
            decreases self.clients.len() - i,
        {
            if self.clients[i].addr == addr {
                assert(addrs_of(self@)[i as int] == addr);
                let mut leaver = self.clients.remove(i);
                let _ = leaver.post(ClientMsg::Exit);
                self.count = self.count - 1;
                proof {
                    lemma_without_first_at(old(self)@, addr, i as int);
                    lemma_position_at(old(self)@, addr, i as int);
                    assert(self.senders() =~= old(self).senders().remove(i as int));
                    self.gone@ = self.gone@.push(leaver.model());
                }
                return true;
            }
            i += 1;
        }
        proof {
            lemma_without_first_absent(self@, addr);
            lemma_position_at(self@, addr, self@.len() as int);
        }
        false
    }

    /// Sends `msg` to every client, oldest first, and forgets each client whose queue
    /// no longer has a reader. The result tells, for each client of the fleet as it
    /// was, whether the message was delivered.
    pub fn broadcast(&mut self, msg: ClientMsg) -> (delivered: Vec<bool>)
        requires
            old(self).wf(),
        ensures
            final(self).wf(),
            delivered@.len() == old(self)@.len(),
            final(self)@ == reached(old(self)@, delivered@, msg),
            final(self).senders() == kept_senders(old(self).senders(), delivered@),
            final(self).dismissed() == old(self).dismissed(),
    {
        let ghost orig = self.clients@;
        let ghost before = self@;
        let ghost writers = self.senders();
        let mut delivered: Vec<bool> = Vec::new();
        let mut i: usize = 0;
        while i < self.clients.len()
            invariant
                before == orig.map_values(|c: NetClient| c.model()),
                writers == orig.map_values(|c: NetClient| c.sender()),
                self.senders().take(i as int) == kept_senders_upto(
                    writers,
                    delivered@,
                    delivered@.len(),
                ),
                orig.len() <= FLEET_MAX,
                i <= self.clients.len(),
                delivered@.len() <= orig.len(),
                self.clients@.len() - i == orig.len() - delivered@.len(),
                self.clients@.skip(i as int) == orig.skip(delivered@.len() as int),
                self@.take(i as int) == reached_upto(before, delivered@, msg, delivered@.len()),
                self.count as int == self.clients@.len(),
                self.gone == old(self).gone,
            decreases self.clients.len() - i,
        {
            let ghost k = delivered@.len() as int;
            let ghost flags = delivered@;
            let ghost shown = self@;
            let ghost held = self.senders();
            assert(orig[k] == orig.skip(k)[0]);
            let mut client = self.clients.remove(i);
            let ok = client.post(msg);
            delivered.push(ok);
            proof {
                lemma_reached_upto_prefix(before, flags, before, delivered@, msg, k as nat);
                lemma_kept_senders_prefix(writers, flags, delivered@, k as nat);
                assert(orig.skip(k + 1) =~= orig.skip(k).drop_first());
                assert(self.senders().take(i as int) =~= held.take(i as int));
            }
            if ok {
                self.clients.insert(i, client);
                proof {
                    assert(self@.take(i + 1) =~= shown.take(i as int).push(
                        handed(before[k], msg),
                    ));
                    assert(self.senders().take(i + 1) =~= held.take(i as int).push(writers[k]));
                }
                i += 1;
            } else {
                self.count = self.count - 1;
            }
        }
        proof {
            lemma_reached_upto_len(before, delivered@, msg, delivered@.len());
            assert(self.senders().take(i as int) =~= self.senders());
        }
        delivered
    }
}

/// The fleet after a plan has been carried out, where `delivered` tells which
/// clients a broadcast reached.
pub open spec fn fleet_after(clients: Seq<ClientModel>, p: Plan, delivered: Seq<bool>) -> Seq<
    ClientModel,
> {
    match p {
        Plan::Join(addr) => if clients.len() < FLEET_MAX {
            clients.push(newcomer(addr))
        } else {
            clients
        },
        Plan::Leave(addr) => without_first(clients, addr),
        Plan::Forward { fleet: Some(msg), .. } => reached(clients, delivered, msg),
        Plan::Forward { fleet: None, .. } => clients,
    }
}

/// The record of dismissed clients, which was `gone`, after a plan has been carried
/// out on the fleet `clients`: a plan to leave dismisses a client, no other plan does.
pub open spec fn dismissed_by(clients: Seq<ClientModel>, gone: Seq<ClientModel>, p: Plan) -> Seq<
    ClientModel,
> {
    match p {
        Plan::Leave(addr) => dismissed_after(clients, gone, addr),
        _ => gone,
    }
}

/// Whether `after` are the writing ends of the fleet once a plan has been carried out
/// on the fleet `clients`, whose writing ends were `before`: a client that joins
/// brings one more, a client that leaves takes its own away, a fan-out keeps those
/// that it reached, and every other writing end stays in its place.
pub open spec fn senders_after(
    before: Seq<Sender<ClientMsg>>,
    after: Seq<Sender<ClientMsg>>,
    clients: Seq<ClientModel>,
    p: Plan,
    delivered: Seq<bool>,
) -> bool {
    match p {
        Plan::Join(_) => if clients.len() < FLEET_MAX {
            after.len() == before.len() + 1 && after.drop_last() == before
        } else {
            after == before
        },
        Plan::Leave(addr) => after == senders_without(before, position_of(clients, addr)),
        Plan::Forward { fleet: Some(_), .. } => after == kept_senders(before, delivered),
        Plan::Forward { fleet: None, .. } => after == before,
    }
}

/// The number of delivery flags that carrying out `p` on a fleet of `n` clients gives.
pub open spec fn deliveries(n: nat, p: Plan) -> nat {
    match p {
        Plan::Forward { fleet: Some(_), .. } => n,
        _ => 0,
    }
}

/// Whether `reply` answers a client that asks to join from `addr`: with the reading
/// end of its queue where the fleet had room, with its removal where it had none.
pub open spec fn answers_join(reply: MsgType, addr: NetAddr, room: bool) -> bool {
    if room {
        reply is Added
    } else {
        reply == MsgType::Remove(addr)
    }
}

/// The network queue after a plan has been carried out on a fleet of `n` clients:
/// a plan to join gets one reply, any other plan none.
pub open spec fn network_after(before: Seq<MsgType>, after: Seq<MsgType>, p: Plan, n: nat) -> bool {
    match p {
        Plan::Join(addr) => {
            &&& after.len() == before.len() + 1
            &&& after.drop_last() == before
            &&& answers_join(after.last(), addr, n < FLEET_MAX)
        },
        _ => after == before,
    }
}

/// What the switch did with one event.
#[derive(Debug)]
pub struct Handled {
    /// The script's process id that the switch read (zero: no script).
    pub script_pid: u32,
    /// The binary-mode flag that the switch read.
    pub binary_mode: bool,
    /// The plan that the switch followed.
    pub plan: Plan,
    /// For a plan that addresses the fleet: for each client, whether it was reached.
    pub delivered: Vec<bool>,
}

/// The endpoints' side of the switch: the way in, the four ways out, and the shared
/// mode flags.
pub struct TermSwitch {
    switch_tx: Sender<MsgType>,
    console_rx: Receiver<MsgType>,
    serial_rx: Receiver<MsgType>,
    network_rx: Receiver<MsgType>,
    script_rx: Receiver<MsgType>,
    script_pid: Arc<AtomicU32>,
    binary_mode: Arc<AtomicBool>,
    clients: Arc<AtomicI8>,
    halt: Arc<AtomicBool>,
    stop: bool,
}

impl TermSwitch {
    /// Whether `stop` has been called on this handle.
    pub closed spec fn stopped(&self) -> bool {
        self.stop
    }

    /// Asks the routing loop to return at its next turn. The handle keeps its queue
    /// ends and its cells.
    pub fn stop(&mut self)
        ensures
            final(self).stopped(),
            final(self).switch_tx() == old(self).switch_tx(),
            final(self).serial_rx() == old(self).serial_rx(),
            final(self).console_rx() == old(self).console_rx(),
            final(self).network_rx() == old(self).network_rx(),
            final(self).script_rx() == old(self).script_rx(),
            final(self).script_pid_flag() == old(self).script_pid_flag(),
            final(self).binary_mode_flag() == old(self).binary_mode_flag(),
            final(self).client_counter() == old(self).client_counter(),
    {
        self.stop = true;
        self.halt.store(true, Ordering::Relaxed);
    }

    /// The writing end of the switch's inbound queue that this handle holds.
    pub closed spec fn switch_tx(&self) -> Sender<MsgType> {
        self.switch_tx
    }

    /// The reading end of the queue to the backend that this handle holds.
    pub closed spec fn serial_rx(&self) -> Receiver<MsgType> {
        self.serial_rx
    }

    /// The reading end of the queue to the console that this handle holds.
    pub closed spec fn console_rx(&self) -> Receiver<MsgType> {
        self.console_rx
    }

    /// The reading end of the queue to the listener that this handle holds.
    pub closed spec fn network_rx(&self) -> Receiver<MsgType> {
        self.network_rx
    }

    /// The reading end of the queue to the script that this handle holds.
    pub closed spec fn script_rx(&self) -> Receiver<MsgType> {
        self.script_rx
    }

    /// The cell that holds the process id of the running script.
    pub closed spec fn script_pid_flag(&self) -> Arc<AtomicU32> {
        self.script_pid
    }

    /// The cell that holds the binary-mode flag.
    pub closed spec fn binary_mode_flag(&self) -> Arc<AtomicBool> {
        self.binary_mode
    }

    /// The cell that holds the published number of network clients.
    pub closed spec fn client_counter(&self) -> Arc<AtomicI8> {
        self.clients
    }

    /// A writing end of the switch's inbound queue: a clone of the one that this
    /// handle holds.
    pub fn get_switch_tx(&self) -> (tx: Sender<MsgType>)
        ensures
            tx == self.switch_tx(),
    {
        self.switch_tx.clone()
    }

    /// A reading end of the queue to the backend: a clone of the one that this handle
    /// holds.
    pub fn get_serial_rx(&self) -> (rx: Receiver<MsgType>)
        ensures
            rx == self.serial_rx(),
    {
        self.serial_rx.clone()
    }

    /// A reading end of the queue to the console: a clone of the one that this handle
    /// holds.
    pub fn get_console_rx(&self) -> (rx: Receiver<MsgType>)
        ensures
            rx == self.console_rx(),
    {
        self.console_rx.clone()
    }

    /// A reading end of the queue to the listener: a clone of the one that this handle
    /// holds.
    pub fn get_network_rx(&self) -> (rx: Receiver<MsgType>)
        ensures
            rx == self.network_rx(),
    {
        self.network_rx.clone()
    }

    /// A reading end of the queue to the script: a clone of the one that this handle
    /// holds.
    pub fn get_script_rx(&self) -> (rx: Receiver<MsgType>)
        ensures
            rx == self.script_rx(),
    {
        self.script_rx.clone()
    }

    /// The shared process id of the running script, zero while none runs: the very
    /// cell that the routing side reads.
    pub fn get_script_pid(&self) -> (flag: Arc<AtomicU32>)
        ensures
            flag == self.script_pid_flag(),
    {
        self.script_pid.clone()
    }

    /// The shared binary-mode flag: the very cell that the routing side reads.
    pub fn get_binary_mode(&self) -> (flag: Arc<AtomicBool>)
        ensures
            flag == self.binary_mode_flag(),
    {
        self.binary_mode.clone()
    }

    /// The shared number of connected network clients: the very cell that the
    /// routing side writes.
    pub fn get_clients(&self) -> (counter: Arc<AtomicI8>)
        ensures
            counter == self.client_counter(),
    {
        self.clients.clone()
    }
}

fn post_if_any(out: &mut Outlet<MsgType>, msg: Option<MsgType>)
    ensures
        final(out).sender() == old(out).sender(),
        final(out).sent() == old(out).sent() + (match msg {
            Some(m) => seq![m],
            None => Seq::empty(),
        }),
{
    if let Some(m) = msg {
        let _ = out.post(m);
    }
}

/// The routing side of the switch: sole reader of the inbound queue, sole writer of
/// the outbound queues, sole owner of the fleet.
pub struct Switch {
    switch_rx: Receiver<MsgType>,
    console: Outlet<MsgType>,
    serial: Outlet<MsgType>,
    network: Outlet<MsgType>,
    script: Outlet<MsgType>,
    script_pid: Arc<AtomicU32>,
    binary_mode: Arc<AtomicBool>,
    clients: Arc<AtomicI8>,
    halt: Arc<AtomicBool>,
    server: bool,
    fleet: Fleet,
    published: Ghost<int>,
}

impl Switch {
    /// Whether the switch serves a listener.
    pub closed spec fn server(&self) -> bool {
        self.server
    }

    /// The connected clients, in joining order.
    pub closed spec fn fleet(&self) -> Seq<ClientModel> {
        self.fleet@
    }

    /// The client counter.
    pub closed spec fn client_count(&self) -> int {
        self.fleet.count()
    }

    /// The number that the switch has last stored in the cell that publishes the
    /// client counter.
    pub closed spec fn published_count(&self) -> int {
        self.published@
    }

    /// The clients that were dismissed, oldest dismissal first, each with everything
    /// that was handed to its queue.
    pub closed spec fn dismissed(&self) -> Seq<ClientModel> {
        self.fleet.dismissed()
    }

    /// The writing end of each client's queue, in the order of the clients.
    pub closed spec fn senders(&self) -> Seq<Sender<ClientMsg>> {
        self.fleet.senders()
    }

    /// Everything that the switch has handed to the console queue, oldest first.
    pub closed spec fn console_sent(&self) -> Seq<MsgType> {
        self.console.sent()
    }

    /// Everything that the switch has handed to the backend queue, oldest first.
    pub closed spec fn serial_sent(&self) -> Seq<MsgType> {
        self.serial.sent()
    }

    /// Everything that the switch has handed to the network queue, oldest first.
    pub closed spec fn network_sent(&self) -> Seq<MsgType> {
        self.network.sent()
    }

    /// Everything that the switch has handed to the script queue, oldest first.
    pub closed spec fn script_sent(&self) -> Seq<MsgType> {
        self.script.sent()
    }

    /// The cell from which the switch reads the process id of the running script.
    pub closed spec fn script_pid_flag(&self) -> Arc<AtomicU32> {
        self.script_pid
    }

    /// The cell from which the switch reads the binary-mode flag.
    pub closed spec fn binary_mode_flag(&self) -> Arc<AtomicBool> {
        self.binary_mode
    }

    /// The cell in which the switch publishes the number of network clients.
    pub closed spec fn client_counter(&self) -> Arc<AtomicI8> {
        self.clients
    }

    /// The client counter equals the size of the fleet, and each client has its
    /// writing end.
    pub open spec fn wf(&self) -> bool {
        &&& self.client_count() == self.fleet().len()
        &&& self.fleet().len() <= FLEET_MAX
        &&& self.senders().len() == self.fleet().len()
    }

    /// Whether `self` is what becomes of the switch `before` by carrying out what
    /// `done` reports: the fleet changes as the plan says, each outbound queue is
    /// handed what the plan holds for it, after what it was handed before, a client
    /// that leaves is handed `Exit`, and the client counter is right again and stored
    /// in the cell that publishes it.
    pub open spec fn follows(&self, before: Switch, done: Handled) -> bool {
        &&& self.wf()
        &&& self.server() == before.server()
        &&& self.script_pid_flag() == before.script_pid_flag()
        &&& self.binary_mode_flag() == before.binary_mode_flag()
        &&& self.client_counter() == before.client_counter()
        &&& self.published_count() == self.fleet().len()
        &&& self.dismissed() == dismissed_by(before.fleet(), before.dismissed(), done.plan)
        &&& senders_after(
            before.senders(),
            self.senders(),
            before.fleet(),
            done.plan,
            done.delivered@,
        )
        &&& done.delivered@.len() == deliveries(before.fleet().len(), done.plan)
        &&& self.fleet() == fleet_after(before.fleet(), done.plan, done.delivered@)
        &&& self.script_sent() == before.script_sent() + done.plan.to_script()
        &&& self.console_sent() == before.console_sent() + done.plan.to_console()
        &&& self.serial_sent() == before.serial_sent() + done.plan.to_serial()
        &&& network_after(
            before.network_sent(),
            self.network_sent(),
            done.plan,
            before.fleet().len(),
        )
    }

    /// The addresses of the connected clients, in joining order.
    pub fn clients(&self) -> (list: Vec<NetAddr>)
        ensures
            list@ == addrs_of(self.fleet()),
    {
        self.fleet.addrs()
    }

    /// The number of connected clients.
    pub fn count(&self) -> (n: i8)
        requires
            self.wf(),
        ensures
            n as int == self.fleet().len(),
    {
        self.fleet.client_count()
    }

    fn read_script_pid(&self) -> u32 {
        self.script_pid.load(Ordering::Relaxed)
    }

    fn read_binary_mode(&self) -> bool {
        self.binary_mode.load(Ordering::Relaxed)
    }

    fn halted(&self) -> bool {
        self.halt.load(Ordering::Relaxed)
    }

    fn publish_count(&mut self)
        requires
            old(self).wf(),
        ensures
            final(self).published_count() == old(self).fleet().len(),
            final(self).fleet == old(self).fleet,
            final(self).console == old(self).console,
            final(self).serial == old(self).serial,
            final(self).network == old(self).network,
            final(self).script == old(self).script,
            final(self).server == old(self).server,
            final(self).script_pid == old(self).script_pid,
            final(self).binary_mode == old(self).binary_mode,
            final(self).clients == old(self).clients,
    {
        self.clients.store(self.fleet.client_count(), Ordering::Relaxed);
        proof {
            self.published@ = self.fleet.count();
        }
    }

    /// Routes one event: reads the mode flags and carries the event out under them.
    pub fn handle(&mut self, msg: MsgType) -> (done: Handled)
        requires
            old(self).wf(),
        ensures
            done.plan == plan(msg, old(self).server(), done.script_pid, done.binary_mode),
            final(self).follows(*old(self), done),
    {
        let script_pid = self.read_script_pid();
        let binary_mode = self.read_binary_mode();
        self.carry_out(msg, script_pid, binary_mode)
    }

    /// Carries one event out, where the script has process id `script_pid` (zero: no
    /// script) and its binary mode is `binary_mode`: follows the plan that the routing
    /// table gives, and publishes the client counter. A send to an endpoint that no
    /// longer listens is dropped; a client that no longer listens is forgotten. When
    /// the fleet is full, a joining client is answered with `Remove` in place of
    /// `Added`.
    pub fn carry_out(&mut self, msg: MsgType, script_pid: u32, binary_mode: bool) -> (done:
        Handled)
        requires
            old(self).wf(),
        ensures
            done.script_pid == script_pid,
            done.binary_mode == binary_mode,
            done.plan == plan(msg, old(self).server(), script_pid, binary_mode),
            final(self).follows(*old(self), done),
    {
        let report = plan_for(&msg, self.server, script_pid, binary_mode);
        let mut delivered: Vec<bool> = Vec::new();
        match plan_for(&msg, self.server, script_pid, binary_mode) {
            Plan::Join(addr) => {
                let reply = match self.fleet.join(addr) {
                    Some(rx) => MsgType::Added(rx),
                    None => MsgType::Remove(addr),
                };
                let _ = self.network.post(reply);
                assert(self.network.sent().drop_last() =~= old(self).network.sent());
            },
            Plan::Leave(addr) => {
                let _ = self.fleet.leave(addr);
            },
            Plan::Forward { fleet, script, console, serial } => {
                if let Some(m) = fleet {
                    delivered = self.fleet.broadcast(m);
                }
                post_if_any(&mut self.script, script);
                post_if_any(&mut self.console, console);
                post_if_any(&mut self.serial, serial);
            },
        }
        self.publish_count();
        Handled { script_pid, binary_mode, plan: report, delivered }
    }

    /// One turn of the routing loop: returns `None` when a stop was asked for or when
    /// the inbound queue has no writer left, and otherwise waits for the next event,
    /// routes it and reports what was done.
    pub fn step(&mut self) -> (done: Option<Handled>)
        requires
            old(self).wf(),
        ensures
            match done {
                Some(h) => {
                    &&& final(self).follows(*old(self), h)
                    &&& exists|msg: MsgType|
                        h.plan == #[trigger] plan(
                            msg,
                            old(self).server(),
                            h.script_pid,
                            h.binary_mode,
                        )
                },
                None => *final(self) == *old(self),
            },
    {
        if self.halted() {
            return None;
        }
        match self.switch_rx.recv() {
            Ok(msg) => Some(self.handle(msg)),
            Err(_) => None,
        }
    }
}

/// Creates the switch: its five queues and its shared flags, with no script, binary
/// mode off, an empty fleet, and nothing handed to any queue. The first result is for
/// the endpoints, the second for the thread that routes.
pub fn start(server: bool) -> (halves: (TermSwitch, Switch))
    ensures
        !halves.0.stopped(),
        halves.1.wf(),
        halves.1.server() == server,
        halves.0.script_pid_flag() == halves.1.script_pid_flag(),
        halves.0.binary_mode_flag() == halves.1.binary_mode_flag(),
        halves.0.client_counter() == halves.1.client_counter(),
        halves.1.fleet() == Seq::<ClientModel>::empty(),
        halves.1.dismissed() == Seq::<ClientModel>::empty(),
        halves.1.published_count() == 0,
        halves.1.console_sent() == Seq::<MsgType>::empty(),
        halves.1.serial_sent() == Seq::<MsgType>::empty(),
        halves.1.network_sent() == Seq::<MsgType>::empty(),
        halves.1.script_sent() == Seq::<MsgType>::empty(),
{
    let (switch_tx, switch_rx) = unbounded();
    let (console_tx, console_rx) = unbounded();
    let (serial_tx, serial_rx) = unbounded();
    let (network_tx, network_rx) = unbounded();
    let (script_tx, script_rx) = unbounded();
    let script_pid = Arc::new(AtomicU32::new(0));
    let binary_mode = Arc::new(AtomicBool::new(false));
    let clients = Arc::new(AtomicI8::new(0));
    let halt = Arc::new(AtomicBool::new(false));
    let termswx = TermSwitch {
        switch_tx,
        console_rx,
        serial_rx,
        network_rx,
        script_rx,
        script_pid: script_pid.clone(),
        binary_mode: binary_mode.clone(),
        clients: clients.clone(),
        halt: halt.clone(),
        stop: false,
    };
    let switch = Switch {
        switch_rx,
        console: Outlet::new(console_tx),
        serial: Outlet::new(serial_tx),
        network: Outlet::new(network_tx),
        script: Outlet::new(script_tx),
        script_pid,
        binary_mode,
        clients,
        halt,
        server,
        fleet: Fleet::new(),
        published: Ghost(0),
    };
    (termswx, switch)
}

} // verus!
