//! The event loop and the registry of the channels of one thread.
//!
//! The registry is an explicit value that the owner of the thread's reactor
//! passes to every operation. It holds the one native reactor handle of the
//! thread, the number of loops that share it, and the channels by identifier.

use crate::channel::{Channel, ChannelView};
use crate::event::ChannelCbEvent;
use crate::native::{
    Command,
    CommandView,
    Handler,
    Opened,
    command_view,
    MAX_SEND_LIST_LEN,
    RECV_RING_LEN,
};
use std::collections::HashMap;
use vstd::prelude::*;

verus! {

broadcast use vstd::std_specs::hash::group_hash_axioms;

/// The registry of one thread.
pub struct CLoopWrapper {
    loop_ptr: usize,
    count: i32,
    channel_map: HashMap<u64, Channel>,
}

/// The mathematical value of a [`CLoopWrapper`].
pub struct RegistryView {
    /// The native reactor of the thread; zero while there is none.
    pub loop_ptr: usize,
    /// The number of live loops on the thread.
    pub count: i32,
    /// The channels of the thread by identifier.
    pub channels: Map<u64, ChannelView>,
}

/// One event loop: a share in the native reactor of its thread.
#[derive(Debug, PartialEq, Eq)]
pub struct Loop {
    loop_ptr: usize,
    close_flag: bool,
}

/// The mathematical value of a [`Loop`].
pub struct LoopView {
    pub loop_ptr: usize,
    pub close_flag: bool,
}

/// An event on its way to a handler: the channel as the handler sees it, and
/// what happened to it. The handler is `channel`'s.
#[derive(Clone, Copy, Debug, PartialEq, Eq)]
pub struct Dispatch {
    pub channel: Channel,
    pub event: ChannelCbEvent,
}

/// The mathematical value of a [`Dispatch`].
pub struct DispatchView {
    pub channel: ChannelView,
    pub event: ChannelCbEvent,
}

impl View for Dispatch {
    type V = DispatchView;

    open spec fn view(&self) -> DispatchView {
        DispatchView { channel: self.channel@, event: self.event }
    }
}

/// The view of a dispatch that may be absent.
pub open spec fn dispatch_view(d: Option<Dispatch>) -> Option<DispatchView> {
    match d {
        Some(x) => Some(x@),
        None => None,
    }
}

/// What came of registering a channel, in the order in which it is to be
/// acted on: the native work to do before the handler hears of anything, the
/// event to hand to the handler, and the native work to do once the handler
/// has returned. A new peer's callback is switched before its listener's
/// handler hears of it; a channel that could not be opened is released after
/// its handler has heard of the failure.
#[derive(Debug, PartialEq, Eq)]
pub struct Registration {
    /// The identifier under which the caller may use the channel.
    pub channel: Option<u64>,
    /// The native work to do first.
    pub before: Option<Command>,
    /// The event for the handler.
    pub dispatch: Option<Dispatch>,
    /// The native work to do last.
    pub after: Option<Command>,
}

/// The mathematical value of a [`Registration`].
pub struct RegistrationView {
    pub channel: Option<u64>,
    pub before: Option<CommandView>,
    pub dispatch: Option<DispatchView>,
    pub after: Option<CommandView>,
}

impl View for Registration {
    type V = RegistrationView;

    open spec fn view(&self) -> RegistrationView {
        RegistrationView {
            channel: self.channel,
            before: command_view(self.before),
            dispatch: dispatch_view(self.dispatch),
            after: command_view(self.after),
        }
    }
}

impl RegistrationView {
    /// Nothing was registered and nothing is to be done.
    pub open spec fn nothing() -> RegistrationView {
        RegistrationView { channel: None, before: None, dispatch: None, after: None }
    }
}

impl View for Loop {
    type V = LoopView;

    closed spec fn view(&self) -> LoopView {
        LoopView { loop_ptr: self.loop_ptr, close_flag: self.close_flag }
    }
}

impl View for CLoopWrapper {
    type V = RegistryView;

    closed spec fn view(&self) -> RegistryView {
        RegistryView {
            loop_ptr: self.loop_ptr,
            count: self.count,
            channels: Map::new(
                |k: u64| self.channel_map@.contains_key(k),
                |k: u64| self.channel_map@[k]@,
            ),
        }
    }
}

impl RegistryView {
    /// The registry is sound: it has a reactor exactly while loops are alive,
    /// and every channel is filed under its own identifier, so that no two
    /// entries share one.
    pub open spec fn wf(self) -> bool {
        &&& self.count >= 0
        &&& (self.loop_ptr == 0) == (self.count == 0)
        &&& forall|k: u64| #[trigger]
            self.channels.contains_key(k) ==> self.channels[k].uuid == k
    }

    /// Whether a new loop needs the native layer to create a reactor first.
    pub open spec fn wants_reactor(self) -> bool {
        self.loop_ptr == 0
    }

    /// The registry after a loop was asked for, and that loop. `created` is
    /// the reactor that the native layer made, zero where it made none; it
    /// counts only while the registry has no reactor.
    pub open spec fn create(self, created: usize) -> (RegistryView, Option<LoopView>) {
        if self.loop_ptr != 0 {
            if self.count < i32::MAX {
                (
                    RegistryView { count: (self.count + 1) as i32, ..self },
                    Some(LoopView { loop_ptr: self.loop_ptr, close_flag: false }),
                )
            } else {
                (self, None)
            }
        } else if created == 0 {
            (self, None)
        } else {
            (
                RegistryView { loop_ptr: created, count: 1, ..self },
                Some(LoopView { loop_ptr: created, close_flag: false }),
            )
        }
    }

    /// The registry after one live loop left it, and the native work that
    /// this calls for: the reactor is released with the last loop, and the
    /// channels go with it.
    pub open spec fn release(self) -> (RegistryView, Option<CommandView>) {
        if self.count <= 0 {
            (self, None)
        } else if self.count == 1 {
            (
                RegistryView { loop_ptr: 0, count: 0, channels: Map::empty() },
                Some(CommandView::DestroyLoop { loop_ptr: self.loop_ptr }),
            )
        } else {
            (RegistryView { count: (self.count - 1) as i32, ..self }, None)
        }
    }

    /// The registry with `channel` filed under its identifier.
    pub open spec fn with(self, channel: ChannelView) -> RegistryView {
        RegistryView { channels: self.channels.insert(channel.uuid, channel), ..self }
    }

    /// The registry without the channel `chan_id`.
    pub open spec fn without(self, chan_id: u64) -> RegistryView {
        RegistryView { channels: self.channels.remove(chan_id), ..self }
    }

    /// The registry after the handler of the channel `chan_id` was replaced
    /// by `cb`: the events of the channel that are dispatched from then on
    /// go to `cb`. Nothing changes where there is no such channel.
    pub open spec fn set_handler(self, chan_id: u64, cb: Handler) -> RegistryView {
        if self.channels.contains_key(chan_id) {
            self.with(ChannelView { cb, ..self.channels[chan_id] })
        } else {
            self
        }
    }

    /// The registry after `close(chan_id)`, and the command that it hands
    /// out.
    pub open spec fn close(self, chan_id: u64) -> (RegistryView, Option<CommandView>) {
        if self.channels.contains_key(chan_id) {
            let (closed, command) = self.channels[chan_id].close();
            (self.with(closed), command)
        } else {
            (self, None)
        }
    }

    /// The command that `send(chan_id, data)` hands out.
    pub open spec fn send(self, chan_id: u64, data: Seq<u8>) -> Option<CommandView> {
        if self.channels.contains_key(chan_id) && !self.channels[chan_id].close_flag && data.len()
            <= i32::MAX {
            Some(CommandView::Push { channel_ptr: self.channels[chan_id].channel_ptr, data })
        } else {
            None
        }
    }

    /// The registry after the native layer answered a request to open a
    /// channel, and what follows from the answer. `failed` is the event that
    /// tells the handler of a failure, `ready` the one that tells it of
    /// success, if any does.
    pub open spec fn open(
        self,
        opened: Option<Opened>,
        cb: Handler,
        ready: Option<ChannelCbEvent>,
        failed: ChannelCbEvent,
    ) -> (RegistryView, RegistrationView) {
        match opened {
            None => (self, RegistrationView::nothing()),
            Some(o) => {
                let channel = ChannelView {
                    channel_ptr: o.channel_ptr,
                    uuid: o.uuid,
                    close_flag: o.status != 0,
                    cb,
                };
                if o.status == 0 {
                    (
                        self.with(channel),
                        RegistrationView {
                            channel: Some(o.uuid),
                            before: None,
                            dispatch: match ready {
                                Some(event) => Some(DispatchView { channel, event }),
                                None => None,
                            },
                            after: None,
                        },
                    )
                } else {
                    (
                        self.with(channel),
                        RegistrationView {
                            channel: None,
                            before: None,
                            dispatch: Some(DispatchView { channel, event: failed }),
                            after: Some(CommandView::CloseChannel { channel_ptr: o.channel_ptr }),
                        },
                    )
                }
            },
        }
    }

    /// The registry after the native layer reported `e` for the connection
    /// `chan_id`, and the event that goes to the handler. A close leaves the
    /// handler a closed channel and takes the entry out of the registry.
    /// Events that do not belong to a connection are ignored.
    pub open spec fn client_event(self, chan_id: u64, e: ChannelCbEvent) -> (
        RegistryView,
        Option<DispatchView>,
    ) {
        let channel = self.channels[chan_id];
        match e {
            ChannelCbEvent::ChannelCbEventClose => (
                self.without(chan_id),
                Some(DispatchView { channel: ChannelView { close_flag: true, ..channel }, event: e }),
            ),
            ChannelCbEvent::ChannelCbEventConnect
            | ChannelCbEvent::ChannelCbEventRecv
            | ChannelCbEvent::ChannelCbEventConnectTimeout => (
                self,
                Some(DispatchView { channel, event: e }),
            ),
            _ => (self, None),
        }
    }

    /// The registry after the native layer reported `e` for a channel that
    /// the listener `accept_chan_id` spawned, and what follows. A new peer is
    /// registered with the listener's handler; first its native callback is
    /// switched to that of a connection, then the handler hears of it as
    /// `AcceptClient`. Every other event is ignored.
    pub open spec fn acceptor_event(
        self,
        accept_chan_id: u64,
        channel_ptr: usize,
        chan_id: u64,
        e: ChannelCbEvent,
    ) -> (RegistryView, RegistrationView) {
        if e == ChannelCbEvent::ChannelCbEventAccept {
            let channel = ChannelView {
                channel_ptr,
                uuid: chan_id,
                close_flag: false,
                cb: self.channels[accept_chan_id].cb,
            };
            (
                self.with(channel),
                RegistrationView {
                    channel: Some(chan_id),
                    before: Some(CommandView::SetClientCallback { channel_ptr }),
                    dispatch: Some(
                        DispatchView { channel, event: ChannelCbEvent::ChannelCbEventAcceptClient },
                    ),
                    after: None,
                },
            )
        } else {
            (self, RegistrationView::nothing())
        }
    }
}

impl LoopView {
    /// The command of `tick`.
    pub open spec fn tick(self) -> Option<CommandView> {
        if self.close_flag {
            None
        } else {
            Some(CommandView::RunOnce { loop_ptr: self.loop_ptr })
        }
    }

    /// The command of `accept_command`.
    pub open spec fn accept_command(self, ip: Seq<char>, port: i32, backlog: i32, cb: Handler)
        -> Option<CommandView> {
        if self.close_flag {
            None
        } else {
            Some(
                CommandView::Accept {
                    loop_ptr: self.loop_ptr,
                    ip,
                    port,
                    backlog,
                    max_send_list_len: MAX_SEND_LIST_LEN,
                    recv_ring_len: RECV_RING_LEN,
                    cb,
                },
            )
        }
    }

    /// The command of `connect_command`.
    pub open spec fn connect_command(self, ip: Seq<char>, port: i32, timeout: i32, cb: Handler)
        -> Option<CommandView> {
        if self.close_flag {
            None
        } else {
            Some(
                CommandView::Connect {
                    loop_ptr: self.loop_ptr,
                    ip,
                    port,
                    timeout,
                    max_send_list_len: MAX_SEND_LIST_LEN,
                    recv_ring_len: RECV_RING_LEN,
                    cb,
                },
            )
        }
    }

    /// The loop after `destroy`, the registry after it, and the command that
    /// it hands out.
    pub open spec fn destroy(self, registry: RegistryView) -> (
        LoopView,
        RegistryView,
        Option<CommandView>,
    ) {
        if self.close_flag {
            (self, registry, None)
        } else {
            (LoopView { close_flag: true, ..self }, registry.release().0, registry.release().1)
        }
    }
}

impl CLoopWrapper {
    /// The registry of a thread without a reactor.
    pub fn new() -> (registry: CLoopWrapper)
        ensures
            registry@ == (RegistryView { loop_ptr: 0, count: 0, channels: Map::empty() }),
            registry@.wf(),
    {
        let registry = CLoopWrapper { loop_ptr: 0, count: 0, channel_map: HashMap::new() };
        assert(registry@.channels =~= Map::empty());
        registry
    }

    /// The native reactor of the thread; zero while there is none.
    pub fn loop_ptr(&self) -> (p: usize)
        ensures
            p == self@.loop_ptr,
    {
        self.loop_ptr
    }

    /// The number of live loops on the thread.
    pub fn count(&self) -> (n: i32)
        ensures
            n == self@.count,
    {
        self.count
    }

    /// Whether a new loop needs the native layer to create a reactor first.
    pub fn wants_reactor(&self) -> (b: bool)
        ensures
            b == self@.wants_reactor(),
    {
        self.loop_ptr == 0
    }

    /// Whether a channel is registered as `chan_id`.
    pub fn contains(&self, chan_id: u64) -> (b: bool)
        ensures
            b == self@.channels.contains_key(chan_id),
    {
        self.channel_map.contains_key(&chan_id)
    }

    /// The channel registered as `chan_id`.
    pub fn get(&self, chan_id: u64) -> (channel: Option<Channel>)
        ensures
            match channel {
                Some(c) => self@.channels.contains_key(chan_id) && c@ == self@.channels[chan_id],
                None => !self@.channels.contains_key(chan_id),
            },
    {
        match self.channel_map.get(&chan_id) {
            Some(c) => Some(*c),
            None => None,
        }
    }

    /// Replaces the handler of the channel `chan_id`, if there is one: see
    /// `Channel::set_handler`. Returns whether there is.
    pub fn set_handler(&mut self, chan_id: u64, cb: Handler) -> (found: bool)
        ensures
            final(self)@ == old(self)@.set_handler(chan_id, cb),
            found == old(self)@.channels.contains_key(chan_id),
            old(self)@.wf() ==> final(self)@.wf(),
    {
        match self.get(chan_id) {
            Some(mut channel) => {
                channel.set_handler(cb);
                self.insert(channel);
                true
            },
            None => false,
        }
    }

    /// The number of registered channels.
    pub fn len(&self) -> (n: usize)
        ensures
            n == self@.channels.len(),
    {
        proof {
            assert(self@.channels.dom() =~= self.channel_map@.dom());
        }
        self.channel_map.len()
    }

    fn insert(&mut self, channel: Channel)
        ensures
            final(self)@ == old(self)@.with(channel@),
    {
        let uuid: u64 = channel.get_uuid();
        self.channel_map.insert(uuid, channel);
        assert(self@.channels =~= old(self)@.channels.insert(channel@.uuid, channel@));
    }

    fn remove(&mut self, chan_id: u64)
        ensures
            final(self)@ == old(self)@.without(chan_id),
    {
        self.channel_map.remove(&chan_id);
        assert(self@.channels =~= old(self)@.channels.remove(chan_id));
    }

    fn clear(&mut self)
        ensures
            final(self)@ == (RegistryView { channels: Map::empty(), ..old(self)@ }),
    {
        self.channel_map.clear();
        assert(self@.channels =~= Map::empty());
    }
}

/// The view of a loop that may be absent.
pub open spec fn loop_view(l: Option<Loop>) -> Option<LoopView> {
    match l {
        Some(x) => Some(x@),
        None => None,
    }
}

impl CLoopWrapper {
    fn open(
        &mut self,
        opened: Option<Opened>,
        cb: Handler,
        ready: Option<ChannelCbEvent>,
        failed: ChannelCbEvent,
    ) -> (r: Registration)
        ensures
            (final(self)@, r@) == old(self)@.open(opened, cb, ready, failed),
    {
        match opened {
            None => Registration { channel: None, before: None, dispatch: None, after: None },
            Some(o) => {
                let channel = Channel::new(o.channel_ptr, o.uuid, o.status != 0, cb);
                self.insert(channel);
                if o.status == 0 {
                    let dispatch = match ready {
                        Some(event) => Some(Dispatch { channel, event }),
                        None => None,
                    };
                    Registration { channel: Some(o.uuid), before: None, dispatch, after: None }
                } else {
                    Registration {
                        channel: None,
                        before: None,
                        dispatch: Some(Dispatch { channel, event: failed }),
                        after: Some(Command::CloseChannel { channel_ptr: o.channel_ptr }),
                    }
                }
            },
        }
    }
}

impl Loop {
    /// A new loop on the thread of `registry`. Where the thread has a reactor
    /// already, the loop shares it and `created` is not looked at. Where it
    /// has none, `created` is the reactor that the native layer made for this
    /// call, zero if it could not: then there is no loop. There is none
    /// either where the count of loops cannot grow.
    pub fn new(registry: &mut CLoopWrapper, created: usize) -> (l: Option<Loop>)
        ensures
            (final(registry)@, loop_view(l)) == old(registry)@.create(created),
            old(registry)@.wf() ==> final(registry)@.wf(),
    {
        if registry.loop_ptr != 0 {
            if registry.count < i32::MAX {
                registry.count = registry.count + 1;
                Some(Loop { loop_ptr: registry.loop_ptr, close_flag: false })
            } else {
                None
            }
        } else if created == 0 {
            None
        } else {
            registry.loop_ptr = created;
            registry.count = 1;
            Some(Loop { loop_ptr: created, close_flag: false })
        }
    }

    /// Whether the loop is destroyed.
    pub fn is_close(&self) -> (b: bool)
        ensures
            b == self@.close_flag,
    {
        self.close_flag
    }

    /// The native reactor that the loop shares.
    pub fn loop_ptr(&self) -> (p: usize)
        ensures
            p == self@.loop_ptr,
    {
        self.loop_ptr
    }

    /// Destroys the loop; a second call does nothing. The loop leaves the
    /// registry, and with the last loop of the thread the reactor is released
    /// and the channels are forgotten.
    pub fn destroy(&mut self, registry: &mut CLoopWrapper) -> (command: Option<Command>)
        ensures
            (final(self)@, final(registry)@, command_view(command)) == old(self)@.destroy(
                old(registry)@,
            ),
            old(registry)@.wf() ==> final(registry)@.wf(),
    {
        if self.close_flag {
            return None;
        }
        self.close_flag = true;
        if registry.count <= 0 {
            None
        } else if registry.count == 1 {
            let released: usize = registry.loop_ptr;
            registry.clear();
            registry.count = 0;
            registry.loop_ptr = 0;
            Some(Command::DestroyLoop { loop_ptr: released })
        } else {
            registry.count = registry.count - 1;
            None
        }
    }

    /// One iteration of the reactor: the command to run it, or nothing once
    /// the loop is destroyed.
    pub fn tick(&self) -> (command: Option<Command>)
        ensures
            command_view(command) == self@.tick(),
    {
        if self.close_flag {
            None
        } else {
            Some(Command::RunOnce { loop_ptr: self.loop_ptr })
        }
    }

    /// Closes the channel `chan_id`, if there is one: see `Channel::close`.
    pub fn close(&self, registry: &mut CLoopWrapper, chan_id: u64) -> (command: Option<Command>)
        ensures
            (final(registry)@, command_view(command)) == old(registry)@.close(chan_id),
            old(registry)@.wf() ==> final(registry)@.wf(),
    {
        match registry.get(chan_id) {
            Some(mut channel) => {
                let command = channel.close();
                registry.insert(channel);
                command
            },
            None => None,
        }
    }

    /// Sends `data` on the channel `chan_id`: the command that enqueues it,
    /// or nothing where there is no such channel, where it is closed, and
    /// where `data` is longer than the native layer can count.
    pub fn send(&self, registry: &CLoopWrapper, chan_id: u64, data: &Vec<u8>) -> (command: Option<
        Command,
    >)
        ensures
            command_view(command) == registry@.send(chan_id, data@),
    {
        match registry.get(chan_id) {
            Some(channel) => channel.push_command(data),
            None => None,
        }
    }

    /// The command that opens a listener on `ip:port`, or nothing once the
    /// loop is destroyed. What the native layer answers goes to `accept`.
    pub fn accept_command(&self, ip: &str, port: i32, backlog: i32, cb: Handler) -> (command:
        Option<Command>)
        ensures
            command_view(command) == self@.accept_command(ip@, port, backlog, cb),
    {
        if self.close_flag {
            None
        } else {
            Some(
                Command::Accept {
                    loop_ptr: self.loop_ptr,
                    ip: ip.to_owned(),
                    port,
                    backlog,
                    max_send_list_len: MAX_SEND_LIST_LEN,
                    recv_ring_len: RECV_RING_LEN,
                    cb,
                },
            )
        }
    }

    /// Registers the listener that the native layer opened. `opened` is its
    /// answer to the command of `accept_command`, `None` where it could not
    /// create a channel. A listener that is bound is registered open, its
    /// handler hears `Accept`, and its identifier is returned. One that could
    /// not be bound is registered closed for good, its handler hears
    /// `AcceptFailed`, its native handle is to be released once the handler
    /// has returned (`after`), and no identifier is returned. A destroyed
    /// loop registers nothing.
    pub fn accept(&self, registry: &mut CLoopWrapper, opened: Option<Opened>, cb: Handler) -> (r:
        Registration)
        ensures
            (final(registry)@, r@) == if self@.close_flag {
                (old(registry)@, RegistrationView::nothing())
            } else {
                old(registry)@.open(
                    opened,
                    cb,
                    Some(ChannelCbEvent::ChannelCbEventAccept),
                    ChannelCbEvent::ChannelCbEventAcceptFailed,
                )
            },
            old(registry)@.wf() ==> final(registry)@.wf(),
    {
        if self.close_flag {
            return Registration { channel: None, before: None, dispatch: None, after: None };
        }
        registry.open(
            opened,
            cb,
            Some(ChannelCbEvent::ChannelCbEventAccept),
            ChannelCbEvent::ChannelCbEventAcceptFailed,
        )
    }

    /// The command that opens a connection to `ip:port`, or nothing once the
    /// loop is destroyed. What the native layer answers goes to `connect`.
    pub fn connect_command(&self, ip: &str, port: i32, timeout: i32, cb: Handler) -> (command:
        Option<Command>)
        ensures
            command_view(command) == self@.connect_command(ip@, port, timeout, cb),
    {
        if self.close_flag {
            None
        } else {
            Some(
                Command::Connect {
                    loop_ptr: self.loop_ptr,
                    ip: ip.to_owned(),
                    port,
                    timeout,
                    max_send_list_len: MAX_SEND_LIST_LEN,
                    recv_ring_len: RECV_RING_LEN,
                    cb,
                },
            )
        }
    }

    /// Registers the connection that the native layer opened. `opened` is
    /// its answer to the command of `connect_command`, `None` where it could
    /// not create a channel. A connection that is under way is registered
    /// open and its identifier is returned; its handler hears nothing yet,
    /// `Connect` comes with a later iteration. One that failed at once is
    /// registered closed for good, its handler hears `ConnectFailed`, its
    /// native handle is to be released once the handler has returned
    /// (`after`), and no identifier is returned. A destroyed loop registers
    /// nothing.
    pub fn connect(&self, registry: &mut CLoopWrapper, opened: Option<Opened>, cb: Handler) -> (r:
        Registration)
        ensures
            (final(registry)@, r@) == if self@.close_flag {
                (old(registry)@, RegistrationView::nothing())
            } else {
                old(registry)@.open(opened, cb, None, ChannelCbEvent::ChannelCbEventConnectFailed)
            },
            old(registry)@.wf() ==> final(registry)@.wf(),
    {
        if self.close_flag {
            return Registration { channel: None, before: None, dispatch: None, after: None };
        }
        registry.open(opened, cb, None, ChannelCbEvent::ChannelCbEventConnectFailed)
    }

    /// Routes an event that the native layer reports for the connection
    /// `chan_id`: see `RegistryView::client_event`. The channel must be
    /// registered: an event for an unknown channel means that registry and
    /// native layer have come apart, which no caller may let pass.
    pub fn client_cb(registry: &mut CLoopWrapper, chan_id: u64, e: ChannelCbEvent) -> (dispatch:
        Option<Dispatch>)
        requires
            old(registry)@.channels.contains_key(chan_id),
        ensures
            (final(registry)@, dispatch_view(dispatch)) == old(registry)@.client_event(chan_id, e),
            old(registry)@.wf() ==> final(registry)@.wf(),
    {
        let found = registry.get(chan_id);
        let mut channel = found.unwrap();
        match e {
            ChannelCbEvent::ChannelCbEventClose => {
                channel.set_dispose();
                registry.remove(chan_id);
                Some(Dispatch { channel, event: e })
            },
            ChannelCbEvent::ChannelCbEventConnect
            | ChannelCbEvent::ChannelCbEventRecv
            | ChannelCbEvent::ChannelCbEventConnectTimeout => Some(Dispatch { channel, event: e }),
            _ => None,
        }
    }

    /// Routes an event that the native layer reports for the channel
    /// `channel_ptr`, identifier `chan_id`, which the listener
    /// `accept_chan_id` spawned: see `RegistryView::acceptor_event`. For a
    /// new peer the listener must be registered. The command that switches
    /// the peer's native callback comes back as `before`: it is to be carried
    /// out before the handler hears of the peer.
    pub fn acceptor_cb(
        registry: &mut CLoopWrapper,
        accept_chan_id: u64,
        channel_ptr: usize,
        chan_id: u64,
        e: ChannelCbEvent,
    ) -> (r: Registration)
        requires
            e == ChannelCbEvent::ChannelCbEventAccept ==> old(registry)@.channels.contains_key(
                accept_chan_id,
            ),
        ensures
            (final(registry)@, r@) == old(registry)@.acceptor_event(
                accept_chan_id,
                channel_ptr,
                chan_id,
                e,
            ),
            old(registry)@.wf() ==> final(registry)@.wf(),
    {
        match e {
            ChannelCbEvent::ChannelCbEventAccept => {
                let found = registry.get(accept_chan_id);
                let acceptor = found.unwrap();
                let channel = Channel::new(channel_ptr, chan_id, false, acceptor.handler());
                registry.insert(channel);
                Registration {
                    channel: Some(chan_id),
                    before: Some(Command::SetClientCallback { channel_ptr }),
                    dispatch: Some(
                        Dispatch { channel, event: ChannelCbEvent::ChannelCbEventAcceptClient },
                    ),
                    after: None,
                }
            },
            _ => Registration { channel: None, before: None, dispatch: None, after: None },
        }
    }
}

/// Identifiers are unique in a registry: two entries with one identifier are
/// one entry.
pub proof fn lemma_identifiers_are_unique(registry: RegistryView, a: u64, b: u64)
    requires
        registry.wf(),
        registry.channels.contains_key(a),
        registry.channels.contains_key(b),
        registry.channels[a].uuid == registry.channels[b].uuid,
    ensures
        a == b,
{
}

/// Registering a channel under an identifier that the registry does not hold
/// adds exactly that identifier and touches no other entry: whether the
/// channel was opened for `accept` or `connect`, and whether or not it could
/// be opened. That the native layer gives every channel an identifier of its
/// own is its promise; an identifier that is given twice replaces the entry.
pub proof fn lemma_a_new_identifier_adds_one_entry(
    registry: RegistryView,
    opened: Opened,
    cb: Handler,
    ready: Option<ChannelCbEvent>,
    failed: ChannelCbEvent,
)
    requires
        registry.wf(),
        !registry.channels.contains_key(opened.uuid),
    ensures
        registry.open(Some(opened), cb, ready, failed).0.channels.dom()
            == registry.channels.dom().insert(opened.uuid),
        forall|k: u64| #[trigger]
            registry.channels.contains_key(k) ==> registry.open(
                Some(opened),
                cb,
                ready,
                failed,
            ).0.channels[k] == registry.channels[k],
        registry.open(Some(opened), cb, ready, failed).0.channels[opened.uuid].uuid == opened.uuid,
        registry.open(Some(opened), cb, ready, failed).0.wf(),
        registry.open(Some(opened), cb, ready, failed).0.loop_ptr == registry.loop_ptr,
        registry.open(Some(opened), cb, ready, failed).0.count == registry.count,
{
    let after = registry.open(Some(opened), cb, ready, failed).0;
    assert(after.channels.dom() =~= registry.channels.dom().insert(opened.uuid));
}

/// A new peer under an identifier that the registry does not hold adds
/// exactly that identifier and touches no other entry, its listener's
/// included.
pub proof fn lemma_a_new_peer_adds_one_entry(
    registry: RegistryView,
    accept_chan_id: u64,
    channel_ptr: usize,
    chan_id: u64,
)
    requires
        registry.wf(),
        registry.channels.contains_key(accept_chan_id),
        !registry.channels.contains_key(chan_id),
    ensures
        ({
            let after = registry.acceptor_event(
                accept_chan_id,
                channel_ptr,
                chan_id,
                ChannelCbEvent::ChannelCbEventAccept,
            ).0;
            &&& after.channels.dom() == registry.channels.dom().insert(chan_id)
            &&& forall|k: u64| #[trigger]
                registry.channels.contains_key(k) ==> after.channels[k] == registry.channels[k]
            &&& after.channels[chan_id].cb == registry.channels[accept_chan_id].cb
            &&& after.wf()
        }),
{
    let after = registry.acceptor_event(
        accept_chan_id,
        channel_ptr,
        chan_id,
        ChannelCbEvent::ChannelCbEventAccept,
    ).0;
    assert(after.channels.dom() =~= registry.channels.dom().insert(chan_id));
}

/// A new handler is the one that the next event of the channel goes to.
pub proof fn lemma_new_handler_hears_the_next_event(
    registry: RegistryView,
    chan_id: u64,
    cb: Handler,
    e: ChannelCbEvent,
)
    requires
        registry.wf(),
        registry.channels.contains_key(chan_id),
    ensures
        registry.set_handler(chan_id, cb).client_event(chan_id, e).1 matches Some(d)
            ==> d.channel.cb == cb && d.channel.uuid == chan_id,
{
}

/// A thread never has more than one reactor: while it has one, a new loop
/// shares it, whatever the native layer may have created besides, and the
/// registry keeps the handle it had.
pub proof fn lemma_one_reactor_per_thread(registry: RegistryView, created: usize)
    requires
        registry.wf(),
        registry.loop_ptr != 0,
    ensures
        registry.create(created).0.loop_ptr == registry.loop_ptr,
        registry.create(created).1 matches Some(l) ==> l.loop_ptr == registry.loop_ptr,
        registry.create(created).0.wf(),
{
}

/// Every loop that is handed out shares the reactor that the registry holds
/// afterwards, and is counted.
pub proof fn lemma_loops_share_the_reactor(registry: RegistryView, created: usize)
    requires
        registry.wf(),
    ensures
        registry.create(created).1 matches Some(l) ==> l.loop_ptr == registry.create(
            created,
        ).0.loop_ptr && l.loop_ptr != 0 && registry.create(created).0.count == registry.count + 1,
        registry.create(created).1 is None ==> registry.create(created).0 == registry,
{
}

/// The reactor is released only with the last loop: destroying a loop hands
/// out the command that destroys the reactor exactly when the loop was alive
/// and the only one left, and the command names the reactor of the registry.
pub proof fn lemma_released_with_the_last_loop(l: LoopView, registry: RegistryView)
    requires
        registry.wf(),
    ensures
        l.destroy(registry).2 is Some <==> !l.close_flag && registry.count == 1,
        l.destroy(registry).2 is Some ==> l.destroy(registry).2 == Some(
            CommandView::DestroyLoop { loop_ptr: registry.loop_ptr },
        ) && l.destroy(registry).1.loop_ptr == 0 && l.destroy(registry).1.channels
            == Map::<u64, ChannelView>::empty(),
        l.destroy(registry).2 is None ==> l.destroy(registry).1.loop_ptr == registry.loop_ptr,
        l.destroy(registry).1.wf(),
        l.destroy(registry).0.destroy(l.destroy(registry).1) == (
            l.destroy(registry).0,
            l.destroy(registry).1,
            None::<CommandView>,
        ),
{
}

} // verus!
