use pomodoro_timer::relay::{
    join_handle, Delivery, Hub, LinkCommand, LinkEvent, Offer, PeerAddr, PeerRegistry,
    TimerMessage,
};
use pomodoro_timer::timer::TimerAction;

fn addr(port: u16) -> PeerAddr {
    PeerAddr::V4 {
        octets: 0x7f00_0001,
        port,
    }
}

fn delivery(to: u16, message: TimerMessage, accepted: bool) -> Delivery {
    Delivery {
        to: addr(to),
        message,
        accepted,
    }
}

fn offer(message: TimerMessage, accepted: bool) -> Option<Offer> {
    Some(Offer { message, accepted })
}

fn pause_from(port: u16) -> TimerMessage {
    TimerMessage {
        action: TimerAction::Pause,
        sender: addr(port),
    }
}

#[test]
fn a_registry_holds_one_entry_for_an_address() {
    let mut registry = PeerRegistry::new();
    assert_eq!(registry.len(), 0);
    let (first, first_rx) = flume::unbounded();
    let (second, second_rx) = flume::unbounded();
    registry.register(addr(1), first);
    registry.register(addr(2), flume::unbounded().0);
    registry.register(addr(1), second);
    assert_eq!(registry.len(), 2);
    assert!(registry.contains(addr(1)));
    assert!(registry.contains(addr(2)));
    assert!(!registry.contains(addr(3)));
    assert_eq!(registry.addrs(), vec![addr(2), addr(1)]);
    // The later channel took the place of the earlier one.
    registry.broadcast(pause_from(9));
    assert!(first_rx.try_recv().is_err());
    assert_eq!(second_rx.try_recv().unwrap(), pause_from(9));
}

#[test]
fn addresses_differ_by_every_part() {
    let mut registry = PeerRegistry::new();
    registry.register(addr(1), flume::unbounded().0);
    let six = PeerAddr::V6 {
        segments: 1,
        port: 1,
        flowinfo: 0,
        scope_id: 0,
    };
    let scoped = PeerAddr::V6 {
        segments: 1,
        port: 1,
        flowinfo: 0,
        scope_id: 3,
    };
    registry.register(six, flume::unbounded().0);
    registry.register(scoped, flume::unbounded().0);
    registry.register(
        PeerAddr::V4 {
            octets: 0x7f00_0002,
            port: 1,
        },
        flume::unbounded().0,
    );
    assert_eq!(registry.len(), 4);
    assert!(registry.deregister(six));
    assert!(!registry.contains(six));
    assert!(registry.contains(scoped));
}

#[test]
fn deregistering_takes_out_the_one_peer() {
    let mut registry = PeerRegistry::new();
    for port in 1..=4 {
        registry.register(addr(port), flume::unbounded().0);
    }
    assert!(registry.deregister(addr(2)));
    assert!(!registry.deregister(addr(2)));
    assert!(!registry.deregister(addr(7)));
    assert_eq!(registry.addrs(), vec![addr(1), addr(3), addr(4)]);
}

#[test]
fn a_broadcast_reaches_all_but_the_sender() {
    let mut registry = PeerRegistry::new();
    let mut inboxes = Vec::new();
    for port in 1..=3 {
        let (tx, rx) = flume::unbounded();
        registry.register(addr(port), tx);
        inboxes.push(rx);
    }
    let report = registry.broadcast(pause_from(2));
    assert_eq!(
        report,
        vec![
            delivery(1, pause_from(2), true),
            delivery(3, pause_from(2), true),
        ]
    );
    assert_eq!(inboxes[0].try_recv().unwrap(), pause_from(2));
    assert!(inboxes[1].try_recv().is_err());
    assert_eq!(inboxes[2].try_recv().unwrap(), pause_from(2));
    assert!(inboxes[0].try_recv().is_err());
    assert_eq!(registry.len(), 3);
}

#[test]
fn the_other_of_two_peers_receives_that_very_message() {
    let mut registry = PeerRegistry::new();
    let (txa, rxa) = flume::unbounded();
    let (txb, rxb) = flume::unbounded();
    registry.register(addr(9001), txa);
    registry.register(addr(9002), txb);
    let report = registry.broadcast(pause_from(9001));
    assert_eq!(report, vec![delivery(9002, pause_from(9001), true)]);
    assert_eq!(rxa.len(), 0);
    assert_eq!(rxb.len(), 1);
    let arrived = rxb.try_recv().unwrap();
    assert_eq!(arrived.action, TimerAction::Pause);
    assert_eq!(arrived.sender, addr(9001));
    assert_eq!(registry.addrs(), vec![addr(9001), addr(9002)]);
}

#[test]
fn with_all_channels_open_each_other_peer_gets_the_message_once() {
    let mut registry = PeerRegistry::new();
    let mut inboxes = Vec::new();
    for port in 1..=6u16 {
        let (tx, rx) = flume::unbounded();
        registry.register(addr(port), tx);
        inboxes.push((port, rx));
    }
    let message = TimerMessage {
        action: TimerAction::Quit,
        sender: addr(4),
    };
    let report = registry.broadcast(message);
    assert_eq!(report.len(), 5);
    for (port, inbox) in &inboxes {
        if *port == 4 {
            assert_eq!(inbox.len(), 0);
        } else {
            assert_eq!(inbox.len(), 1);
            assert_eq!(inbox.try_recv().unwrap(), message);
        }
    }
    assert_eq!(registry.len(), 6);
    assert_eq!(
        registry.addrs(),
        vec![addr(1), addr(2), addr(3), addr(4), addr(5), addr(6)]
    );
}

#[test]
fn no_sequence_of_broadcasts_echoes() {
    let mut registry = PeerRegistry::new();
    let mut inboxes = Vec::new();
    for port in 1..=5u16 {
        let (tx, rx) = flume::unbounded();
        registry.register(addr(port), tx);
        inboxes.push((port, rx));
    }
    for round in 0..40u16 {
        let from = round % 7;
        let action = if round % 3 == 0 {
            TimerAction::Quit
        } else {
            TimerAction::Pause
        };
        let message = TimerMessage {
            action,
            sender: addr(from),
        };
        let report = registry.broadcast(message);
        for delivery in &report {
            assert_eq!(delivery.message, message);
            assert_ne!(delivery.to, delivery.message.sender);
        }
        if round % 11 == 5 {
            registry.deregister(addr(from));
        }
        if round % 13 == 6 {
            let (tx, rx) = flume::unbounded();
            registry.register(addr(from), tx);
            inboxes.push((from, rx));
        }
    }
    for (port, inbox) in &inboxes {
        while let Ok(message) = inbox.try_recv() {
            assert_ne!(message.sender, addr(*port));
        }
    }
}

#[test]
fn one_failure_among_three_spares_the_others() {
    let mut registry = PeerRegistry::new();
    let (first, first_rx) = flume::unbounded();
    let (second, second_rx) = flume::unbounded();
    let (third, third_rx) = flume::unbounded();
    registry.register(addr(1), first);
    registry.register(addr(2), second);
    registry.register(addr(3), third);
    drop(second_rx);
    let message = TimerMessage {
        action: TimerAction::Quit,
        sender: addr(9),
    };
    let report = registry.broadcast(message);
    assert_eq!(
        report,
        vec![
            delivery(1, message, true),
            delivery(2, message, false),
            delivery(3, message, true),
        ]
    );
    assert_eq!(first_rx.try_recv().unwrap(), message);
    assert_eq!(third_rx.try_recv().unwrap(), message);
    // The peer that failed has lost its place, the others keep theirs.
    assert_eq!(registry.addrs(), vec![addr(1), addr(3)]);
    let report = registry.broadcast(pause_from(1));
    assert_eq!(
        report,
        vec![delivery(3, pause_from(1), true)]
    );
    assert_eq!(third_rx.try_recv().unwrap(), pause_from(1));
    assert!(first_rx.try_recv().is_err());
}

#[test]
fn a_full_channel_counts_as_a_failure() {
    let mut registry = PeerRegistry::new();
    let (narrow, narrow_rx) = flume::bounded(1);
    let (wide, wide_rx) = flume::unbounded();
    registry.register(addr(1), narrow);
    registry.register(addr(2), wide);
    assert_eq!(registry.broadcast(pause_from(9)).len(), 2);
    let report = registry.broadcast(pause_from(9));
    assert_eq!(
        report,
        vec![
            delivery(1, pause_from(9), false),
            delivery(2, pause_from(9), true),
        ]
    );
    assert_eq!(registry.addrs(), vec![addr(2)]);
    assert_eq!(narrow_rx.len(), 1);
    assert_eq!(wide_rx.len(), 2);
}

#[test]
fn a_sender_that_failed_before_is_not_pruned_by_its_own_message() {
    let mut registry = PeerRegistry::new();
    let (gone, gone_rx) = flume::unbounded();
    registry.register(addr(1), gone);
    drop(gone_rx);
    let report = registry.broadcast(pause_from(1));
    assert!(report.is_empty());
    assert_eq!(registry.addrs(), vec![addr(1)]);
}

#[test]
fn the_host_passes_a_peer_message_to_the_application_and_the_others() {
    let (to_app, app_rx) = flume::unbounded();
    let mut hub = Hub::new(to_app);
    let (first, first_rx) = flume::unbounded();
    let (second, second_rx) = flume::unbounded();
    hub.connect(addr(1), first);
    hub.connect(addr(2), second);
    assert_eq!(hub.peers(), vec![addr(1), addr(2)]);

    let routed = hub.handle(addr(1), LinkEvent::Received(pause_from(1)));
    assert_eq!(routed.command, LinkCommand::Continue);
    assert_eq!(routed.to_app, offer(pause_from(1), true));
    assert_eq!(
        routed.report,
        vec![delivery(2, pause_from(1), true)]
    );
    assert_eq!(app_rx.try_recv().unwrap(), pause_from(1));
    assert_eq!(second_rx.try_recv().unwrap(), pause_from(1));
    assert!(first_rx.try_recv().is_err());
}

#[test]
fn the_host_passes_its_own_action_to_every_peer() {
    let (to_app, app_rx) = flume::unbounded();
    let mut hub = Hub::new(to_app);
    let (first, first_rx) = flume::unbounded();
    let (second, second_rx) = flume::unbounded();
    hub.connect(addr(1), first);
    hub.connect(addr(2), second);
    let local = pause_from(8080);
    let routed = hub.handle(addr(1), LinkEvent::Local(local));
    assert_eq!(routed.command, LinkCommand::Continue);
    assert_eq!(routed.to_app, None);
    assert_eq!(routed.report.len(), 2);
    assert_eq!(first_rx.try_recv().unwrap(), local);
    assert_eq!(second_rx.try_recv().unwrap(), local);
    assert!(app_rx.try_recv().is_err());
    let report = hub.broadcast(local);
    assert_eq!(report.len(), 2);
}

#[test]
fn the_host_writes_what_is_staged_and_drops_what_is_garbled() {
    let (to_app, app_rx) = flume::unbounded();
    let mut hub = Hub::new(to_app);
    let (first, first_rx) = flume::unbounded();
    hub.connect(addr(1), first);
    let routed = hub.handle(addr(1), LinkEvent::Staged(pause_from(2)));
    assert_eq!(routed.command, LinkCommand::Write(pause_from(2)));
    assert_eq!(routed.to_app, None);
    assert!(routed.report.is_empty());
    let routed = hub.handle(addr(1), LinkEvent::Garbled);
    assert_eq!(routed.command, LinkCommand::Continue);
    assert_eq!(routed.to_app, None);
    assert!(routed.report.is_empty());
    assert_eq!(hub.peers(), vec![addr(1)]);
    assert!(app_rx.try_recv().is_err());
    assert!(first_rx.try_recv().is_err());
}

#[test]
fn a_closed_connection_leaves_the_registry() {
    let (to_app, _app_rx) = flume::unbounded();
    let mut hub = Hub::new(to_app);
    let (first, _first_rx) = flume::unbounded();
    let (second, second_rx) = flume::unbounded();
    hub.connect(addr(1), first);
    hub.connect(addr(2), second);
    let routed = hub.handle(addr(1), LinkEvent::Closed);
    assert_eq!(routed.command, LinkCommand::Stop);
    assert_eq!(hub.peers(), vec![addr(2)]);
    let routed = hub.handle(addr(2), LinkEvent::Received(pause_from(2)));
    assert!(routed.report.is_empty());
    assert!(second_rx.try_recv().is_err());
}

#[test]
fn the_host_goes_on_when_its_application_is_gone() {
    let (to_app, app_rx) = flume::unbounded();
    let mut hub = Hub::new(to_app);
    let (first, first_rx) = flume::unbounded();
    hub.connect(addr(1), first);
    drop(app_rx);
    let routed = hub.handle(addr(2), LinkEvent::Received(pause_from(2)));
    assert_eq!(routed.to_app, offer(pause_from(2), false));
    assert_eq!(routed.command, LinkCommand::Continue);
    assert_eq!(first_rx.try_recv().unwrap(), pause_from(2));
}

#[test]
fn the_joining_side_relays_between_its_application_and_the_wire() {
    let (to_app, app_rx) = flume::unbounded();
    let routed = join_handle(&to_app, LinkEvent::Received(pause_from(1)));
    assert_eq!(routed.command, LinkCommand::Continue);
    assert_eq!(routed.to_app, offer(pause_from(1), true));
    assert!(routed.report.is_empty());
    assert_eq!(app_rx.try_recv().unwrap(), pause_from(1));

    let routed = join_handle(&to_app, LinkEvent::Local(pause_from(2)));
    assert_eq!(routed.command, LinkCommand::Write(pause_from(2)));
    assert_eq!(routed.to_app, None);
    assert!(app_rx.try_recv().is_err());

    let routed = join_handle(&to_app, LinkEvent::Staged(pause_from(3)));
    assert_eq!(routed.command, LinkCommand::Write(pause_from(3)));
    let routed = join_handle(&to_app, LinkEvent::Garbled);
    assert_eq!(routed.command, LinkCommand::Continue);
    let routed = join_handle(&to_app, LinkEvent::Closed);
    assert_eq!(routed.command, LinkCommand::Stop);
    assert!(app_rx.try_recv().is_err());
}
