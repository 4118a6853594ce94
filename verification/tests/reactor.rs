use knet::channel::Channel;
use knet::event::ChannelCbEvent;
use knet::native::{Command, Handler, Opened};
use knet::reactor::{CLoopWrapper, Dispatch, Loop, Registration};

const REACTOR: usize = 0x1000;

fn live() -> (CLoopWrapper, Loop) {
    let mut registry = CLoopWrapper::new();
    let net_loop = Loop::new(&mut registry, REACTOR).unwrap();
    (registry, net_loop)
}

fn nothing() -> Registration {
    Registration { channel: None, before: None, dispatch: None, after: None }
}

#[test]
fn a_fresh_registry_has_no_reactor() {
    let registry = CLoopWrapper::new();
    assert_eq!(registry.loop_ptr(), 0);
    assert_eq!(registry.count(), 0);
    assert_eq!(registry.len(), 0);
    assert!(registry.wants_reactor());
    assert!(!registry.contains(0));
    assert_eq!(registry.get(0), None);
}

#[test]
fn first_loop_takes_the_created_reactor() {
    let (registry, net_loop) = live();
    assert_eq!(net_loop.loop_ptr(), REACTOR);
    assert!(!net_loop.is_close());
    assert_eq!(registry.loop_ptr(), REACTOR);
    assert_eq!(registry.count(), 1);
    assert!(!registry.wants_reactor());
}

#[test]
fn failed_creation_gives_no_loop() {
    let mut registry = CLoopWrapper::new();
    assert_eq!(Loop::new(&mut registry, 0), None);
    assert_eq!(registry.loop_ptr(), 0);
    assert_eq!(registry.count(), 0);
    assert!(registry.wants_reactor());
}

#[test]
fn loops_on_one_thread_share_the_reactor() {
    let (mut registry, first) = live();
    let second = Loop::new(&mut registry, 0x9999).unwrap();
    let third = Loop::new(&mut registry, 0).unwrap();
    assert_eq!(first.loop_ptr(), REACTOR);
    assert_eq!(second.loop_ptr(), REACTOR);
    assert_eq!(third.loop_ptr(), REACTOR);
    assert_eq!(registry.loop_ptr(), REACTOR);
    assert_eq!(registry.count(), 3);
}

#[test]
fn reactor_is_released_with_the_last_loop() {
    let (mut registry, mut first) = live();
    let mut second = Loop::new(&mut registry, 0).unwrap();
    let mut third = Loop::new(&mut registry, 0).unwrap();
    assert_eq!(second.destroy(&mut registry), None);
    assert_eq!(registry.count(), 2);
    assert_eq!(registry.loop_ptr(), REACTOR);
    assert_eq!(first.destroy(&mut registry), None);
    assert_eq!(registry.count(), 1);
    assert_eq!(registry.loop_ptr(), REACTOR);
    assert_eq!(
        third.destroy(&mut registry),
        Some(Command::DestroyLoop { loop_ptr: REACTOR })
    );
    assert_eq!(registry.count(), 0);
    assert_eq!(registry.loop_ptr(), 0);
    assert!(registry.wants_reactor());
}

#[test]
fn a_new_reactor_may_follow_a_released_one() {
    let (mut registry, mut first) = live();
    assert!(first.destroy(&mut registry).is_some());
    let second = Loop::new(&mut registry, 0x3000).unwrap();
    assert_eq!(second.loop_ptr(), 0x3000);
    assert_eq!(registry.loop_ptr(), 0x3000);
    assert_eq!(registry.count(), 1);
}

#[test]
fn destroy_is_idempotent() {
    let (mut registry, mut first) = live();
    let _second = Loop::new(&mut registry, 0).unwrap();
    assert_eq!(first.destroy(&mut registry), None);
    assert!(first.is_close());
    assert_eq!(registry.count(), 1);
    for _ in 0..3 {
        assert_eq!(first.destroy(&mut registry), None);
        assert!(first.is_close());
        assert_eq!(registry.count(), 1);
        assert_eq!(registry.loop_ptr(), REACTOR);
    }
}

#[test]
fn channels_outlive_all_but_the_last_loop() {
    let (mut registry, mut first) = live();
    let mut second = Loop::new(&mut registry, 0).unwrap();
    let opened = Opened { channel_ptr: 0x2000, uuid: 7, status: 0 };
    first.accept(&mut registry, Some(opened), Handler::Listener);
    assert_eq!(registry.len(), 1);
    first.destroy(&mut registry);
    assert_eq!(registry.len(), 1);
    assert!(registry.contains(7));
    second.destroy(&mut registry);
    assert_eq!(registry.len(), 0);
    assert!(!registry.contains(7));
}

#[test]
fn tick_runs_once_until_destroyed() {
    let (mut registry, mut net_loop) = live();
    assert_eq!(net_loop.tick(), Some(Command::RunOnce { loop_ptr: REACTOR }));
    assert_eq!(net_loop.tick(), Some(Command::RunOnce { loop_ptr: REACTOR }));
    net_loop.destroy(&mut registry);
    assert_eq!(net_loop.tick(), None);
}

#[test]
fn accept_command_names_the_limits_of_the_channel() {
    let (mut registry, mut net_loop) = live();
    assert_eq!(
        net_loop.accept_command("0.0.0.0", 8080, 16, Handler::Listener),
        Some(Command::Accept {
            loop_ptr: REACTOR,
            ip: "0.0.0.0".to_string(),
            port: 8080,
            backlog: 16,
            max_send_list_len: 1024,
            recv_ring_len: 1024,
            cb: Handler::Listener,
        })
    );
    net_loop.destroy(&mut registry);
    assert_eq!(net_loop.accept_command("0.0.0.0", 8080, 16, Handler::Listener), None);
}

#[test]
fn connect_command_names_the_limits_of_the_channel() {
    let (mut registry, mut net_loop) = live();
    assert_eq!(
        net_loop.connect_command("10.1.2.3", 443, 5, Handler::Connector),
        Some(Command::Connect {
            loop_ptr: REACTOR,
            ip: "10.1.2.3".to_string(),
            port: 443,
            timeout: 5,
            max_send_list_len: 1024,
            recv_ring_len: 1024,
            cb: Handler::Connector,
        })
    );
    net_loop.destroy(&mut registry);
    assert_eq!(net_loop.connect_command("10.1.2.3", 443, 5, Handler::Connector), None);
}

#[test]
fn accept_registers_and_announces_the_listener() {
    let (mut registry, net_loop) = live();
    let opened = Opened { channel_ptr: 0x2000, uuid: 7, status: 0 };
    let r = net_loop.accept(&mut registry, Some(opened), Handler::Listener);
    let channel = Channel::new(0x2000, 7, false, Handler::Listener);
    assert_eq!(
        r,
        Registration {
            channel: Some(7),
            before: None,
            dispatch: Some(Dispatch { channel, event: ChannelCbEvent::ChannelCbEventAccept }),
            after: None,
        }
    );
    assert_eq!(registry.get(7), Some(channel));
    assert_eq!(registry.len(), 1);
}

#[test]
fn accept_failure_registers_a_closed_channel() {
    let (mut registry, net_loop) = live();
    let opened = Opened { channel_ptr: 0x2000, uuid: 7, status: -1 };
    let r = net_loop.accept(&mut registry, Some(opened), Handler::Listener);
    let channel = Channel::new(0x2000, 7, true, Handler::Listener);
    assert_eq!(
        r,
        Registration {
            channel: None,
            before: None,
            dispatch: Some(Dispatch {
                channel,
                event: ChannelCbEvent::ChannelCbEventAcceptFailed
            }),
            after: Some(Command::CloseChannel { channel_ptr: 0x2000 }),
        }
    );
    assert_eq!(registry.get(7), Some(channel));
    assert_eq!(net_loop.close(&mut registry, 7), None);
    assert_eq!(net_loop.send(&registry, 7, &vec![1]), None);
}

#[test]
fn accept_without_a_native_channel_does_nothing() {
    let (mut registry, net_loop) = live();
    assert_eq!(net_loop.accept(&mut registry, None, Handler::Listener), nothing());
    assert_eq!(net_loop.connect(&mut registry, None, Handler::Connector), nothing());
    assert_eq!(registry.len(), 0);
}

#[test]
fn a_destroyed_loop_registers_nothing() {
    let (mut registry, mut first) = live();
    let _second = Loop::new(&mut registry, 0).unwrap();
    first.destroy(&mut registry);
    let opened = Opened { channel_ptr: 0x2000, uuid: 7, status: 0 };
    assert_eq!(first.accept(&mut registry, Some(opened), Handler::Listener), nothing());
    assert_eq!(first.connect(&mut registry, Some(opened), Handler::Connector), nothing());
    assert_eq!(registry.len(), 0);
}

#[test]
fn connect_registers_without_announcing() {
    let (mut registry, net_loop) = live();
    let opened = Opened { channel_ptr: 0x2100, uuid: 8, status: 0 };
    let r = net_loop.connect(&mut registry, Some(opened), Handler::Connector);
    assert_eq!(r, Registration { channel: Some(8), before: None, dispatch: None, after: None });
    assert_eq!(registry.get(8), Some(Channel::new(0x2100, 8, false, Handler::Connector)));
}

#[test]
fn connect_failure_announces_and_releases() {
    let (mut registry, net_loop) = live();
    let opened = Opened { channel_ptr: 0x2100, uuid: 8, status: 111 };
    let r = net_loop.connect(&mut registry, Some(opened), Handler::Connector);
    let channel = Channel::new(0x2100, 8, true, Handler::Connector);
    assert_eq!(
        r,
        Registration {
            channel: None,
            before: None,
            dispatch: Some(Dispatch {
                channel,
                event: ChannelCbEvent::ChannelCbEventConnectFailed
            }),
            after: Some(Command::CloseChannel { channel_ptr: 0x2100 }),
        }
    );
    assert_eq!(registry.get(8), Some(channel));
}

#[test]
fn close_of_an_unknown_channel_is_a_no_op() {
    let (mut registry, net_loop) = live();
    assert_eq!(net_loop.close(&mut registry, 99), None);
    assert_eq!(registry.len(), 0);
    assert_eq!(registry.count(), 1);
}

#[test]
fn close_closes_the_native_channel_once() {
    let (mut registry, net_loop) = live();
    let opened = Opened { channel_ptr: 0x2100, uuid: 8, status: 0 };
    net_loop.connect(&mut registry, Some(opened), Handler::Connector);
    assert_eq!(
        net_loop.close(&mut registry, 8),
        Some(Command::CloseChannel { channel_ptr: 0x2100 })
    );
    assert_eq!(registry.get(8), Some(Channel::new(0x2100, 8, true, Handler::Connector)));
    assert_eq!(net_loop.close(&mut registry, 8), None);
    assert_eq!(net_loop.close(&mut registry, 8), None);
    assert_eq!(registry.get(8), Some(Channel::new(0x2100, 8, true, Handler::Connector)));
    assert_eq!(registry.len(), 1);
}

#[test]
fn send_pushes_on_open_channels_only() {
    let (mut registry, net_loop) = live();
    let opened = Opened { channel_ptr: 0x2100, uuid: 8, status: 0 };
    net_loop.connect(&mut registry, Some(opened), Handler::Connector);
    let data = vec![1, 2, 3];
    assert_eq!(
        net_loop.send(&registry, 8, &data),
        Some(Command::Push { channel_ptr: 0x2100, data: vec![1, 2, 3] })
    );
    assert_eq!(net_loop.send(&registry, 9, &data), None);
    net_loop.close(&mut registry, 8);
    assert_eq!(net_loop.send(&registry, 8, &data), None);
}

#[test]
fn client_close_hands_over_a_closed_channel_and_forgets_it() {
    let (mut registry, net_loop) = live();
    let opened = Opened { channel_ptr: 0x2100, uuid: 8, status: 0 };
    net_loop.connect(&mut registry, Some(opened), Handler::Connector);
    let d = Loop::client_cb(&mut registry, 8, ChannelCbEvent::ChannelCbEventClose);
    assert_eq!(
        d,
        Some(Dispatch {
            channel: Channel::new(0x2100, 8, true, Handler::Connector),
            event: ChannelCbEvent::ChannelCbEventClose,
        })
    );
    assert!(!registry.contains(8));
    assert_eq!(registry.len(), 0);
    let mut handed = d.unwrap().channel;
    assert_eq!(handed.close(), None);
}

#[test]
fn client_close_after_a_close_request_is_still_announced() {
    let (mut registry, net_loop) = live();
    let opened = Opened { channel_ptr: 0x2100, uuid: 8, status: 0 };
    net_loop.connect(&mut registry, Some(opened), Handler::Connector);
    assert!(net_loop.close(&mut registry, 8).is_some());
    let d = Loop::client_cb(&mut registry, 8, ChannelCbEvent::ChannelCbEventClose);
    assert_eq!(
        d,
        Some(Dispatch {
            channel: Channel::new(0x2100, 8, true, Handler::Connector),
            event: ChannelCbEvent::ChannelCbEventClose,
        })
    );
    assert!(!registry.contains(8));
}

#[test]
fn client_events_reach_the_handler() {
    let (mut registry, net_loop) = live();
    let opened = Opened { channel_ptr: 0x2100, uuid: 8, status: 0 };
    net_loop.connect(&mut registry, Some(opened), Handler::Connector);
    let channel = Channel::new(0x2100, 8, false, Handler::Connector);
    for event in [
        ChannelCbEvent::ChannelCbEventConnect,
        ChannelCbEvent::ChannelCbEventRecv,
        ChannelCbEvent::ChannelCbEventConnectTimeout,
    ] {
        assert_eq!(
            Loop::client_cb(&mut registry, 8, event),
            Some(Dispatch { channel, event })
        );
        assert_eq!(registry.get(8), Some(channel));
    }
}

#[test]
fn client_cb_passes_over_events_of_other_roles() {
    let (mut registry, net_loop) = live();
    let opened = Opened { channel_ptr: 0x2100, uuid: 8, status: 0 };
    net_loop.connect(&mut registry, Some(opened), Handler::Connector);
    for event in [
        ChannelCbEvent::ChannelCbEventAccept,
        ChannelCbEvent::ChannelCbEventSend,
        ChannelCbEvent::ChannelCbEventTimeout,
        ChannelCbEvent::ChannelCbEventAcceptFailed,
        ChannelCbEvent::ChannelCbEventAcceptClient,
        ChannelCbEvent::ChannelCbEventConnectFailed,
    ] {
        assert_eq!(Loop::client_cb(&mut registry, 8, event), None);
        assert_eq!(registry.get(8), Some(Channel::new(0x2100, 8, false, Handler::Connector)));
    }
}

#[test]
fn acceptor_registers_the_new_peer_with_the_handler_of_the_listener() {
    let (mut registry, net_loop) = live();
    let opened = Opened { channel_ptr: 0x2000, uuid: 7, status: 0 };
    net_loop.accept(&mut registry, Some(opened), Handler::Listener);
    let r = Loop::acceptor_cb(&mut registry, 7, 0x2200, 12, ChannelCbEvent::ChannelCbEventAccept);
    let peer = Channel::new(0x2200, 12, false, Handler::Listener);
    assert_eq!(
        r,
        Registration {
            channel: Some(12),
            before: Some(Command::SetClientCallback { channel_ptr: 0x2200 }),
            dispatch: Some(Dispatch {
                channel: peer,
                event: ChannelCbEvent::ChannelCbEventAcceptClient
            }),
            after: None,
        }
    );
    assert_eq!(registry.get(12), Some(peer));
    assert_eq!(registry.get(7), Some(Channel::new(0x2000, 7, false, Handler::Listener)));
    assert_eq!(registry.len(), 2);
}

#[test]
fn acceptor_passes_over_every_other_event() {
    let (mut registry, net_loop) = live();
    let opened = Opened { channel_ptr: 0x2000, uuid: 7, status: 0 };
    net_loop.accept(&mut registry, Some(opened), Handler::Listener);
    for event in [
        ChannelCbEvent::ChannelCbEventConnect,
        ChannelCbEvent::ChannelCbEventRecv,
        ChannelCbEvent::ChannelCbEventSend,
        ChannelCbEvent::ChannelCbEventClose,
        ChannelCbEvent::ChannelCbEventTimeout,
        ChannelCbEvent::ChannelCbEventConnectTimeout,
        ChannelCbEvent::ChannelCbEventAcceptFailed,
        ChannelCbEvent::ChannelCbEventAcceptClient,
        ChannelCbEvent::ChannelCbEventConnectFailed,
    ] {
        assert_eq!(Loop::acceptor_cb(&mut registry, 7, 0x2200, 12, event), nothing());
        assert_eq!(Loop::acceptor_cb(&mut registry, 99, 0x2200, 12, event), nothing());
        assert_eq!(registry.len(), 1);
    }
}

#[test]
fn channels_are_filed_under_their_own_identifiers() {
    let (mut registry, net_loop) = live();
    for (i, uuid) in [3u64, 1, 2, u64::MAX].into_iter().enumerate() {
        let opened = Opened { channel_ptr: 0x4000 + i, uuid, status: 0 };
        net_loop.connect(&mut registry, Some(opened), Handler::Connector);
    }
    assert_eq!(registry.len(), 4);
    for uuid in [3u64, 1, 2, u64::MAX] {
        assert_eq!(registry.get(uuid).unwrap().get_uuid(), uuid);
    }
    let again = Opened { channel_ptr: 0x5000, uuid: 2, status: 0 };
    net_loop.connect(&mut registry, Some(again), Handler::Connector);
    assert_eq!(registry.len(), 4);
    assert_eq!(registry.get(2), Some(Channel::new(0x5000, 2, false, Handler::Connector)));
}

#[test]
fn a_new_handler_hears_the_next_event() {
    let (mut registry, net_loop) = live();
    let opened = Opened { channel_ptr: 0x2100, uuid: 8, status: 0 };
    net_loop.connect(&mut registry, Some(opened), Handler::Connector);
    assert!(registry.set_handler(8, Handler::Listener));
    assert!(!registry.set_handler(9, Handler::Listener));
    assert_eq!(registry.len(), 1);
    assert_eq!(
        Loop::client_cb(&mut registry, 8, ChannelCbEvent::ChannelCbEventRecv),
        Some(Dispatch {
            channel: Channel::new(0x2100, 8, false, Handler::Listener),
            event: ChannelCbEvent::ChannelCbEventRecv,
        })
    );
}
