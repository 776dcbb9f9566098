use std::sync::atomic::Ordering;
use termswx::term_switch::plan_for;
use termswx::term_switch::start;
use termswx::term_switch::ClientMsg;
use termswx::term_switch::Fleet;
use termswx::term_switch::MsgType;
use termswx::term_switch::NetAddr;
use termswx::term_switch::Plan;
use termswx::term_switch::FLEET_MAX;

fn addr(port: u16) -> NetAddr {
    NetAddr { v6: false, ip: 0x7f00_0001, port, flowinfo: 0, scope_id: 0 }
}

#[test]
fn plan_for_fleet_events() {
    assert!(matches!(plan_for(&MsgType::Add(addr(1)), true, 0, false), Plan::Join(a) if a == addr(1)));
    assert!(matches!(plan_for(&MsgType::Remove(addr(2)), true, 0, false), Plan::Leave(a) if a == addr(2)));
    assert!(matches!(
        plan_for(&MsgType::NetClientExit(addr(3)), false, 9, true),
        Plan::Leave(a) if a == addr(3)
    ));
}

#[test]
fn plan_for_console_byte() {
    for (server, pid, binary) in [(false, 0, false), (true, 7, true), (true, 0, true)] {
        assert!(matches!(
            plan_for(&MsgType::Console(0x61), server, pid, binary),
            Plan::Forward { fleet: None, script: None, console: None, serial: Some(MsgType::Serial(0x61)) }
        ));
    }
}

#[test]
fn plan_for_backend_byte() {
    assert!(matches!(
        plan_for(&MsgType::Serial(0x62), false, 0, false),
        Plan::Forward { fleet: None, script: None, console: Some(MsgType::Console(0x62)), serial: None }
    ));
    assert!(matches!(
        plan_for(&MsgType::Serial(0x62), false, 0, true),
        Plan::Forward { fleet: None, script: None, console: Some(MsgType::Console(0x62)), serial: None }
    ));
    assert!(matches!(
        plan_for(&MsgType::Serial(0x62), true, 0, false),
        Plan::Forward {
            fleet: Some(ClientMsg::Console(0x62)),
            script: None,
            console: Some(MsgType::Console(0x62)),
            serial: None
        }
    ));
    assert!(matches!(
        plan_for(&MsgType::Serial(0x62), false, 41, false),
        Plan::Forward {
            fleet: None,
            script: Some(MsgType::Console(0x62)),
            console: Some(MsgType::Console(0x62)),
            serial: None
        }
    ));
    assert!(matches!(
        plan_for(&MsgType::Serial(0x62), true, 41, true),
        Plan::Forward {
            fleet: Some(ClientMsg::Console(0x62)),
            script: Some(MsgType::Console(0x62)),
            console: None,
            serial: None
        }
    ));
}

#[test]
fn plan_for_the_rest() {
    assert!(matches!(
        plan_for(&MsgType::SerialBreak, true, 1, true),
        Plan::Forward { fleet: None, script: None, console: None, serial: Some(MsgType::SerialBreak) }
    ));
    assert!(matches!(
        plan_for(&MsgType::SerialClose, false, 0, false),
        Plan::Forward { fleet: None, script: None, console: None, serial: Some(MsgType::SerialClose) }
    ));
    assert!(matches!(
        plan_for(&MsgType::ScriptAlertResponse(0x0d), false, 0, false),
        Plan::Forward {
            fleet: None,
            script: Some(MsgType::ScriptAlertResponse(0x0d)),
            console: None,
            serial: None
        }
    ));
    assert!(matches!(
        plan_for(&MsgType::ScriptDone, true, 3, false),
        Plan::Forward { fleet: None, script: Some(MsgType::ScriptDone), console: None, serial: None }
    ));
    assert!(matches!(
        plan_for(&MsgType::Exit, true, 0, false),
        Plan::Forward { fleet: Some(ClientMsg::Exit), script: None, console: None, serial: None }
    ));
    assert!(matches!(
        plan_for(&MsgType::Exit, false, 0, false),
        Plan::Forward { fleet: None, script: None, console: Some(MsgType::Exit), serial: None }
    ));
    let (_tx, rx) = crossbeam_channel::unbounded();
    assert!(matches!(
        plan_for(&MsgType::Added(rx), true, 1, false),
        Plan::Forward { fleet: None, script: None, console: None, serial: None }
    ));
}

#[test]
fn fleet_join_leave_and_count() {
    let mut fleet = Fleet::new();
    assert_eq!(fleet.client_count(), 0);
    let _rx1 = fleet.join(addr(1)).expect("room for one");
    let _rx2 = fleet.join(addr(2)).expect("room for two");
    let _rx3 = fleet.join(addr(1)).expect("room for three");
    assert_eq!(fleet.addrs(), vec![addr(1), addr(2), addr(1)]);
    assert_eq!(fleet.client_count(), 3);
    assert!(fleet.leave(addr(1)));
    assert_eq!(fleet.addrs(), vec![addr(2), addr(1)]);
    assert!(!fleet.leave(addr(9)));
    assert_eq!(fleet.addrs(), vec![addr(2), addr(1)]);
    assert_eq!(fleet.client_count(), 2);
}

#[test]
fn fleet_leave_tells_the_client_to_exit() {
    let mut fleet = Fleet::new();
    let rx = fleet.join(addr(1)).expect("room");
    assert!(fleet.leave(addr(1)));
    assert_eq!(rx.try_recv(), Ok(ClientMsg::Exit));
    assert_eq!(fleet.client_count(), 0);
}

#[test]
fn fleet_broadcast_forgets_dead_clients() {
    let mut fleet = Fleet::new();
    let rx1 = fleet.join(addr(1)).expect("room");
    let rx2 = fleet.join(addr(2)).expect("room");
    let rx3 = fleet.join(addr(3)).expect("room");
    let rx4 = fleet.join(addr(4)).expect("room");
    drop(rx1);
    drop(rx3);
    let delivered = fleet.broadcast(ClientMsg::Console(0x55));
    assert_eq!(delivered, vec![false, true, false, true]);
    assert_eq!(fleet.addrs(), vec![addr(2), addr(4)]);
    assert_eq!(fleet.client_count(), 2);
    assert_eq!(rx2.try_recv(), Ok(ClientMsg::Console(0x55)));
    assert_eq!(rx4.try_recv(), Ok(ClientMsg::Console(0x55)));
    assert_eq!(fleet.broadcast(ClientMsg::Exit), vec![true, true]);
    assert_eq!(fleet.broadcast(ClientMsg::Exit).len(), 2);
}

#[test]
fn fleet_is_capped() {
    let mut fleet = Fleet::new();
    let mut keep = Vec::new();
    for i in 0..FLEET_MAX {
        keep.push(fleet.join(addr(i as u16)).expect("room"));
    }
    assert_eq!(fleet.client_count(), 127);
    assert!(fleet.join(addr(9999)).is_none());
    assert_eq!(fleet.client_count(), 127);
    assert_eq!(fleet.addrs().len(), 127);
}

#[test]
fn switch_adds_clients_and_counts_them() {
    let (termswx, mut switch) = start(true);
    let network_rx = termswx.get_network_rx();
    let clients = termswx.get_clients();
    assert_eq!(clients.load(Ordering::Relaxed), 0);

    let done = switch.handle(MsgType::Add(addr(1)));
    assert!(matches!(done.plan, Plan::Join(a) if a == addr(1)));
    assert!(matches!(network_rx.try_recv(), Ok(MsgType::Added(_))));
    assert_eq!(clients.load(Ordering::Relaxed), 1);
    assert_eq!(switch.count(), 1);
    assert_eq!(switch.clients(), vec![addr(1)]);

    switch.handle(MsgType::Add(addr(2)));
    assert_eq!(clients.load(Ordering::Relaxed), 2);
    switch.handle(MsgType::Remove(addr(1)));
    assert_eq!(clients.load(Ordering::Relaxed), 1);
    assert_eq!(switch.clients(), vec![addr(2)]);
    switch.handle(MsgType::NetClientExit(addr(2)));
    assert_eq!(clients.load(Ordering::Relaxed), 0);
    assert_eq!(switch.count(), 0);
}

#[test]
fn switch_broadcast_after_client_death() {
    let (termswx, mut switch) = start(true);
    let network_rx = termswx.get_network_rx();
    let console_rx = termswx.get_console_rx();
    switch.handle(MsgType::Add(addr(1)));
    switch.handle(MsgType::Add(addr(2)));
    let rx1 = match network_rx.try_recv() {
        Ok(MsgType::Added(rx)) => rx,
        other => panic!("unexpected: {:?}", other),
    };
    let rx2 = match network_rx.try_recv() {
        Ok(MsgType::Added(rx)) => rx,
        other => panic!("unexpected: {:?}", other),
    };

    // The first client's socket closes: its reader publishes NetClientExit.
    switch.handle(MsgType::NetClientExit(addr(1)));
    assert_eq!(rx1.try_recv(), Ok(ClientMsg::Exit));
    assert_eq!(termswx.get_clients().load(Ordering::Relaxed), 1);

    let done = switch.handle(MsgType::Serial(0x41));
    assert_eq!(done.delivered, vec![true]);
    assert_eq!(rx2.try_recv(), Ok(ClientMsg::Console(0x41)));
    assert!(rx1.try_recv().is_err());
    assert!(matches!(console_rx.try_recv(), Ok(MsgType::Console(0x41))));
    assert_eq!(termswx.get_clients().load(Ordering::Relaxed), 1);
    assert_eq!(switch.count(), 1);
}

#[test]
fn switch_forgets_a_client_that_no_longer_listens() {
    let (termswx, mut switch) = start(true);
    let network_rx = termswx.get_network_rx();
    switch.handle(MsgType::Add(addr(1)));
    switch.handle(MsgType::Add(addr(2)));
    let rx1 = match network_rx.try_recv() {
        Ok(MsgType::Added(rx)) => rx,
        other => panic!("unexpected: {:?}", other),
    };
    let rx2 = match network_rx.try_recv() {
        Ok(MsgType::Added(rx)) => rx,
        other => panic!("unexpected: {:?}", other),
    };
    drop(rx1);
    let done = switch.handle(MsgType::Serial(0x42));
    assert_eq!(done.delivered, vec![false, true]);
    assert_eq!(rx2.try_recv(), Ok(ClientMsg::Console(0x42)));
    assert_eq!(switch.clients(), vec![addr(2)]);
    assert_eq!(termswx.get_clients().load(Ordering::Relaxed), 1);
}

#[test]
fn switch_routes_by_mode() {
    let (termswx, mut switch) = start(false);
    let console_rx = termswx.get_console_rx();
    let serial_rx = termswx.get_serial_rx();
    let script_rx = termswx.get_script_rx();

    switch.handle(MsgType::Console(0x31));
    assert!(matches!(serial_rx.try_recv(), Ok(MsgType::Serial(0x31))));
    assert!(console_rx.try_recv().is_err());

    switch.handle(MsgType::Serial(0x32));
    assert!(matches!(console_rx.try_recv(), Ok(MsgType::Console(0x32))));
    assert!(script_rx.try_recv().is_err());

    termswx.get_script_pid().store(4711, Ordering::Relaxed);
    let done = switch.handle(MsgType::Serial(0x33));
    assert_eq!(done.script_pid, 4711);
    assert!(!done.binary_mode);
    assert!(matches!(script_rx.try_recv(), Ok(MsgType::Console(0x33))));
    assert!(matches!(console_rx.try_recv(), Ok(MsgType::Console(0x33))));

    termswx.get_binary_mode().store(true, Ordering::Relaxed);
    let done = switch.handle(MsgType::Serial(0x34));
    assert!(done.binary_mode);
    assert!(matches!(script_rx.try_recv(), Ok(MsgType::Console(0x34))));
    assert!(console_rx.try_recv().is_err());

    switch.handle(MsgType::ScriptAlertResponse(0x35));
    assert!(matches!(script_rx.try_recv(), Ok(MsgType::ScriptAlertResponse(0x35))));
    switch.handle(MsgType::ScriptDone);
    assert!(matches!(script_rx.try_recv(), Ok(MsgType::ScriptDone)));
    switch.handle(MsgType::SerialBreak);
    assert!(matches!(serial_rx.try_recv(), Ok(MsgType::SerialBreak)));
    switch.handle(MsgType::SerialClose);
    assert!(matches!(serial_rx.try_recv(), Ok(MsgType::SerialClose)));
    switch.handle(MsgType::Exit);
    assert!(matches!(console_rx.try_recv(), Ok(MsgType::Exit)));
}

#[test]
fn switch_exit_in_server_mode_goes_to_the_fleet() {
    let (termswx, mut switch) = start(true);
    let network_rx = termswx.get_network_rx();
    switch.handle(MsgType::Add(addr(1)));
    let rx1 = match network_rx.try_recv() {
        Ok(MsgType::Added(rx)) => rx,
        other => panic!("unexpected: {:?}", other),
    };
    switch.handle(MsgType::Exit);
    assert_eq!(rx1.try_recv(), Ok(ClientMsg::Exit));
    assert!(termswx.get_console_rx().try_recv().is_err());
}

#[test]
fn switch_refuses_a_client_when_the_fleet_is_full() {
    let (termswx, mut switch) = start(true);
    let network_rx = termswx.get_network_rx();
    for i in 0..127u16 {
        switch.handle(MsgType::Add(addr(i)));
    }
    let mut readers = Vec::new();
    while let Ok(MsgType::Added(rx)) = network_rx.try_recv() {
        readers.push(rx);
    }
    assert_eq!(readers.len(), 127);
    assert_eq!(switch.count(), 127);
    switch.handle(MsgType::Add(addr(500)));
    assert!(matches!(network_rx.try_recv(), Ok(MsgType::Remove(a)) if a == addr(500)));
    assert_eq!(switch.count(), 127);
    assert_eq!(termswx.get_clients().load(Ordering::Relaxed), 127);
}

#[test]
fn switch_step_takes_events_from_the_inbound_queue() {
    let (mut termswx, mut switch) = start(false);
    let tx = termswx.get_switch_tx();
    tx.send(MsgType::Console(0x41)).unwrap();
    tx.send(MsgType::Serial(0x42)).unwrap();
    let first = switch.step().expect("an event is waiting");
    assert!(matches!(first.plan, Plan::Forward { serial: Some(MsgType::Serial(0x41)), .. }));
    let second = switch.step().expect("an event is waiting");
    assert!(matches!(second.plan, Plan::Forward { console: Some(MsgType::Console(0x42)), .. }));
    tx.send(MsgType::Console(0x43)).unwrap();
    termswx.stop();
    assert!(switch.step().is_none());
    assert!(termswx.get_serial_rx().try_recv().is_ok());
    assert!(termswx.get_serial_rx().try_recv().is_err());
}

#[test]
fn switch_step_ends_when_no_writer_is_left() {
    let (termswx, mut switch) = start(false);
    drop(termswx);
    assert!(switch.step().is_none());
}
