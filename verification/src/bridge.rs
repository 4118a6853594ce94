//! The bridge between a consumer thread and the worker that owns the
//! reactor: two bounded mailboxes, the requests that go in, the notifications
//! that come out, and the tables that turn channel events into notifications.

use crate::channel::{Channel, ChannelView};
use crate::event::{ChannelCbEvent, NetEvent, NetEventView};
use crate::native::{Command, CommandView, Handler, Opened, Stream, command_view};
use crate::queue::{EventQueue, spec_capacity};
use crate::reactor::{CLoopWrapper, Dispatch, Loop, LoopView, RegistryView};
use vstd::prelude::*;

verus! {

/// The backlog of every listener that the worker opens.
pub const LISTEN_BACKLOG: i32 = 512;

/// The time, in seconds, that the worker gives every connection attempt.
pub const CONNECT_TIMEOUT: i32 = 512;

/// What a handler needs the native layer to report before it can turn an
/// event into a notification.
#[derive(Clone, Copy, Debug, PartialEq, Eq, Structural)]
pub enum Query {
    /// Nothing.
    Nothing,
    /// The local address of the channel.
    LocalAddress { channel_ptr: usize },
    /// The state of the channel's stream and the bytes buffered in it.
    Stream { channel_ptr: usize },
}

/// What the native layer reported in answer to a [`Query`].
#[derive(Debug, PartialEq, Eq)]
pub enum Reading {
    /// Nothing was asked or nothing could be had.
    Nothing,
    /// An address.
    Address { ip: String, port: i32 },
    /// The read side of a stream.
    Stream { stream: Stream },
}

/// The mathematical value of a [`Reading`].
pub enum ReadingView {
    Nothing,
    Address { ip: Seq<char>, port: i32 },
    Stream { present: bool, bytes: Seq<u8> },
}

impl View for Reading {
    type V = ReadingView;

    open spec fn view(&self) -> ReadingView {
        match *self {
            Reading::Nothing => ReadingView::Nothing,
            Reading::Address { ip, port } => ReadingView::Address { ip: ip@, port },
            Reading::Stream { stream } => ReadingView::Stream {
                present: stream.present(),
                bytes: stream.bytes(),
            },
        }
    }
}

/// What a handler made of an event: the notification for the consumer, and
/// the native work that goes with it.
#[derive(Debug, PartialEq, Eq)]
pub struct Handled {
    pub notify: Option<NetEvent>,
    pub command: Option<Command>,
}

/// The mathematical value of a [`Handled`].
pub struct HandledView {
    pub notify: Option<NetEventView>,
    pub command: Option<CommandView>,
}

/// The view of an event that may be absent.
pub open spec fn event_view(e: Option<NetEvent>) -> Option<NetEventView> {
    match e {
        Some(x) => Some(x@),
        None => None,
    }
}

impl View for Handled {
    type V = HandledView;

    open spec fn view(&self) -> HandledView {
        HandledView { notify: event_view(self.notify), command: command_view(self.command) }
    }
}

impl HandledView {
    /// The event calls for nothing.
    pub open spec fn nothing() -> HandledView {
        HandledView { notify: None, command: None }
    }

    /// A notification and no native work.
    pub open spec fn notify(e: NetEventView) -> HandledView {
        HandledView { notify: Some(e), command: None }
    }
}

/// What a handler asks of the native layer for the event `e` on `channel`:
/// the buffered bytes where data arrived, the local address where an
/// acknowledgement carries one, and nothing of a closed channel.
pub open spec fn spec_query(channel: ChannelView, e: ChannelCbEvent) -> Query {
    if channel.close_flag {
        Query::Nothing
    } else {
        match (channel.cb, e) {
            (_, ChannelCbEvent::ChannelCbEventRecv) => Query::Stream {
                channel_ptr: channel.channel_ptr,
            },
            (Handler::Listener, ChannelCbEvent::ChannelCbEventAccept)
            | (Handler::Listener, ChannelCbEvent::ChannelCbEventAcceptFailed)
            | (Handler::Connector, ChannelCbEvent::ChannelCbEventConnect)
            | (Handler::Connector, ChannelCbEvent::ChannelCbEventConnectFailed)
            | (Handler::Connector, ChannelCbEvent::ChannelCbEventConnectTimeout) => {
                Query::LocalAddress { channel_ptr: channel.channel_ptr }
            },
            _ => Query::Nothing,
        }
    }
}

/// The local address that an acknowledgement carries: the reported one for
/// an open channel, an empty placeholder otherwise.
pub open spec fn spec_address(channel: ChannelView, reading: ReadingView) -> (Seq<char>, i32) {
    if !channel.close_flag && reading is Address {
        (reading->ip, reading->port)
    } else {
        (Seq::empty(), 0)
    }
}

/// What arriving data becomes: a notification with all the buffered bytes,
/// which then leave the native stream. Nothing comes of it where the channel
/// is closed, has no stream, or nothing is buffered.
pub open spec fn spec_received(channel: ChannelView, reading: ReadingView) -> HandledView {
    if reading is Stream && channel.serves(
        reading->present,
        reading->bytes.len(),
        reading->bytes.len() as int,
    ) {
        HandledView {
            notify: Some(NetEventView::DataNtf { chan_id: channel.uuid, data: reading->bytes }),
            command: Some(
                CommandView::Eat {
                    channel_ptr: channel.channel_ptr,
                    size: reading->bytes.len() as i32,
                },
            ),
        }
    } else {
        HandledView::nothing()
    }
}

/// The table of a listener and of the connections that it accepted.
pub open spec fn spec_listen_handler(channel: ChannelView, e: ChannelCbEvent, reading: ReadingView)
    -> HandledView {
    match e {
        ChannelCbEvent::ChannelCbEventRecv => spec_received(channel, reading),
        ChannelCbEvent::ChannelCbEventAccept => HandledView::notify(
            NetEventView::ListenAck {
                ip: spec_address(channel, reading).0,
                port: spec_address(channel, reading).1,
                success: true,
            },
        ),
        ChannelCbEvent::ChannelCbEventAcceptFailed => HandledView::notify(
            NetEventView::ListenAck {
                ip: spec_address(channel, reading).0,
                port: spec_address(channel, reading).1,
                success: false,
            },
        ),
        ChannelCbEvent::ChannelCbEventAcceptClient => HandledView::notify(
            NetEventView::Accept { chan_id: channel.uuid },
        ),
        ChannelCbEvent::ChannelCbEventClose => HandledView::notify(
            NetEventView::CloseNtf { chan_id: channel.uuid },
        ),
        _ => HandledView::nothing(),
    }
}

/// The table of an outgoing connection.
pub open spec fn spec_connect_handler(
    channel: ChannelView,
    e: ChannelCbEvent,
    reading: ReadingView,
) -> HandledView {
    match e {
        ChannelCbEvent::ChannelCbEventConnect => HandledView::notify(
            NetEventView::ConnectAck {
                chan_id: channel.uuid,
                ip: spec_address(channel, reading).0,
                port: spec_address(channel, reading).1,
                success: true,
            },
        ),
        ChannelCbEvent::ChannelCbEventConnectFailed
        | ChannelCbEvent::ChannelCbEventConnectTimeout => HandledView::notify(
            NetEventView::ConnectAck {
                chan_id: channel.uuid,
                ip: spec_address(channel, reading).0,
                port: spec_address(channel, reading).1,
                success: false,
            },
        ),
        ChannelCbEvent::ChannelCbEventRecv => spec_received(channel, reading),
        ChannelCbEvent::ChannelCbEventClose => HandledView::notify(
            NetEventView::CloseNtf { chan_id: channel.uuid },
        ),
        _ => HandledView::nothing(),
    }
}

/// What the handler of `channel` makes of the event `e`.
pub open spec fn spec_handle(channel: ChannelView, e: ChannelCbEvent, reading: ReadingView)
    -> HandledView {
    match channel.cb {
        Handler::Listener => spec_listen_handler(channel, e, reading),
        Handler::Connector => spec_connect_handler(channel, e, reading),
    }
}

/// What the handler of `chan` asks of the native layer before it handles `e`.
pub fn query(chan: &Channel, e: ChannelCbEvent) -> (q: Query)
    ensures
        q == spec_query(chan@, e),
{
    match chan.native() {
        None => Query::Nothing,
        Some(channel_ptr) => match (chan.handler(), e) {
            (_, ChannelCbEvent::ChannelCbEventRecv) => Query::Stream { channel_ptr },
            (Handler::Listener, ChannelCbEvent::ChannelCbEventAccept)
            | (Handler::Listener, ChannelCbEvent::ChannelCbEventAcceptFailed)
            | (Handler::Connector, ChannelCbEvent::ChannelCbEventConnect)
            | (Handler::Connector, ChannelCbEvent::ChannelCbEventConnectFailed)
            | (Handler::Connector, ChannelCbEvent::ChannelCbEventConnectTimeout) => {
                Query::LocalAddress { channel_ptr }
            },
            _ => Query::Nothing,
        },
    }
}

fn local_address(chan: &Channel, reading: Reading) -> (address: (String, i32))
    ensures
        (address.0@, address.1) == spec_address(chan@, reading@),
{
    let reported = match reading {
        Reading::Address { ip, port } => Some((ip, port)),
        _ => None,
    };
    chan.get_local_address(reported)
}

fn received(chan: &Channel, reading: Reading) -> (h: Handled)
    ensures
        h@ == spec_received(chan@, reading@),
{
    match reading {
        Reading::Stream { stream } => {
            let mut stream = stream;
            let size: i32 = chan.available(&stream);
            let mut data: Vec<u8> = Vec::new();
            let uuid: u64 = chan.get_uuid();
            let n: i32 = chan.read(&mut stream, &mut data, size);
            if n == 0 {
                return Handled { notify: None, command: None };
            }
            match chan.native() {
                Some(channel_ptr) => {
                    assert(data@ =~= reading@->bytes);
                    Handled {
                        notify: Some(NetEvent::EventDataNtf { chan_id: uuid, data }),
                        command: Some(Command::Eat { channel_ptr, size }),
                    }
                },
                None => Handled { notify: None, command: None },
            }
        },
        _ => Handled { notify: None, command: None },
    }
}

/// The table of a listener and of the connections that it accepted. Arriving
/// data becomes `EventDataNtf`, unless nothing could be read; a listener that
/// is ready becomes `EventListenAck` with its bound address; one that failed
/// becomes `EventListenAck` without success; a new peer becomes
/// `EventAccept`; a close becomes `EventCloseNtf`. Nothing comes of any other
/// event.
pub fn listen_handler(chan: &Channel, e: ChannelCbEvent, reading: Reading) -> (h: Handled)
    ensures
        h@ == spec_listen_handler(chan@, e, reading@),
{
    match e {
        ChannelCbEvent::ChannelCbEventRecv => received(chan, reading),
        ChannelCbEvent::ChannelCbEventAccept => {
            let address = local_address(chan, reading);
            Handled {
                notify: Some(
                    NetEvent::EventListenAck { ip: address.0, port: address.1, success: true },
                ),
                command: None,
            }
        },
        ChannelCbEvent::ChannelCbEventAcceptFailed => {
            let address = local_address(chan, reading);
            Handled {
                notify: Some(
                    NetEvent::EventListenAck { ip: address.0, port: address.1, success: false },
                ),
                command: None,
            }
        },
        ChannelCbEvent::ChannelCbEventAcceptClient => Handled {
            notify: Some(NetEvent::EventAccept { chan_id: chan.get_uuid() }),
            command: None,
        },
        ChannelCbEvent::ChannelCbEventClose => Handled {
            notify: Some(NetEvent::EventCloseNtf { chan_id: chan.get_uuid() }),
            command: None,
        },
        _ => Handled { notify: None, command: None },
    }
}

/// The table of an outgoing connection. A connection that stands becomes
/// `EventConnectAck` with its local address; one that failed or ran out of
/// time becomes `EventConnectAck` without success; arriving data becomes
/// `EventDataNtf`, unless nothing could be read; a close becomes
/// `EventCloseNtf`. Nothing comes of any other event.
pub fn connect_handler(chan: &Channel, e: ChannelCbEvent, reading: Reading) -> (h: Handled)
    ensures
        h@ == spec_connect_handler(chan@, e, reading@),
{
    match e {
        ChannelCbEvent::ChannelCbEventConnect => {
            let address = local_address(chan, reading);
            Handled {
                notify: Some(
                    NetEvent::EventConnectAck {
                        chan_id: chan.get_uuid(),
                        ip: address.0,
                        port: address.1,
                        success: true,
                    },
                ),
                command: None,
            }
        },
        ChannelCbEvent::ChannelCbEventConnectFailed => {
            let address = local_address(chan, reading);
            Handled {
                notify: Some(
                    NetEvent::EventConnectAck {
                        chan_id: chan.get_uuid(),
                        ip: address.0,
                        port: address.1,
                        success: false,
                    },
                ),
                command: None,
            }
        },
        ChannelCbEvent::ChannelCbEventRecv => received(chan, reading),
        ChannelCbEvent::ChannelCbEventClose => Handled {
            notify: Some(NetEvent::EventCloseNtf { chan_id: chan.get_uuid() }),
            command: None,
        },
        ChannelCbEvent::ChannelCbEventConnectTimeout => {
            let address = local_address(chan, reading);
            Handled {
                notify: Some(
                    NetEvent::EventConnectAck {
                        chan_id: chan.get_uuid(),
                        ip: address.0,
                        port: address.1,
                        success: false,
                    },
                ),
                command: None,
            }
        },
        _ => Handled { notify: None, command: None },
    }
}

/// Hands the event `e` on `chan` to the handler of `chan`.
pub fn handle(chan: &Channel, e: ChannelCbEvent, reading: Reading) -> (h: Handled)
    ensures
        h@ == spec_handle(chan@, e, reading@),
{
    match chan.handler() {
        Handler::Listener => listen_handler(chan, e, reading),
        Handler::Connector => connect_handler(chan, e, reading),
    }
}

/// One call that the consumer's `tick` owes to a registered callback.
#[derive(Debug, Clone, PartialEq, Eq)]
pub enum Callback {
    /// For `on_accept`: a listen request was served.
    OnAccept { ip: String, port: i32, success: bool },
    /// For `on_connect`: a connect request was served.
    OnConnect { chan_id: u64, ip: String, port: i32, success: bool },
    /// For `on_data`: bytes arrived.
    OnData { chan_id: u64, data: Vec<u8> },
    /// For `on_close`: a channel is closed.
    OnClose { chan_id: u64 },
    /// For `on_client`: a peer connected to a listener.
    OnClient { chan_id: u64 },
}

/// The mathematical value of a [`Callback`].
pub enum CallbackView {
    OnAccept { ip: Seq<char>, port: i32, success: bool },
    OnConnect { chan_id: u64, ip: Seq<char>, port: i32, success: bool },
    OnData { chan_id: u64, data: Seq<u8> },
    OnClose { chan_id: u64 },
    OnClient { chan_id: u64 },
}

impl View for Callback {
    type V = CallbackView;

    open spec fn view(&self) -> CallbackView {
        match *self {
            Callback::OnAccept { ip, port, success } => CallbackView::OnAccept {
                ip: ip@,
                port,
                success,
            },
            Callback::OnConnect { chan_id, ip, port, success } => CallbackView::OnConnect {
                chan_id,
                ip: ip@,
                port,
                success,
            },
            Callback::OnData { chan_id, data } => CallbackView::OnData { chan_id, data: data@ },
            Callback::OnClose { chan_id } => CallbackView::OnClose { chan_id },
            Callback::OnClient { chan_id } => CallbackView::OnClient { chan_id },
        }
    }
}

/// The views of a list of callbacks, in order.
pub open spec fn callback_views(v: Seq<Callback>) -> Seq<CallbackView> {
    Seq::new(v.len(), |i: int| v[i]@)
}

/// The callback that a notification is owed; none for a request, which has
/// no business in the mailbox of notifications and is passed over.
pub open spec fn spec_callback(e: NetEventView) -> Option<CallbackView> {
    match e {
        NetEventView::ListenAck { ip, port, success } => Some(
            CallbackView::OnAccept { ip, port, success },
        ),
        NetEventView::ConnectAck { chan_id, ip, port, success } => Some(
            CallbackView::OnConnect { chan_id, ip, port, success },
        ),
        NetEventView::CloseNtf { chan_id } => Some(CallbackView::OnClose { chan_id }),
        NetEventView::Accept { chan_id } => Some(CallbackView::OnClient { chan_id }),
        NetEventView::DataNtf { chan_id, data } => Some(CallbackView::OnData { chan_id, data }),
        _ => None,
    }
}

/// The callbacks that a mailbox of notifications is owed, oldest first.
pub open spec fn spec_callbacks(events: Seq<NetEventView>) -> Seq<CallbackView>
    decreases events.len(),
{
    if events.len() == 0 {
        Seq::empty()
    } else {
        match spec_callback(events.first()) {
            Some(c) => seq![c] + spec_callbacks(events.drop_first()),
            None => spec_callbacks(events.drop_first()),
        }
    }
}

/// What the worker is left with after a round of requests: native work to
/// do, a notification that the full mailbox of the consumer refused, or
/// both. A close request on a full mailbox leaves both: the command that
/// closes the channel and the confirmation that found no room. The command
/// is to be carried out in either case.
#[derive(Debug, PartialEq, Eq)]
pub struct Step {
    pub command: Option<Command>,
    pub refused: Option<NetEvent>,
}

/// The mathematical value of a [`Step`].
pub struct StepView {
    pub command: Option<CommandView>,
    pub refused: Option<NetEventView>,
}

impl View for Step {
    type V = StepView;

    open spec fn view(&self) -> StepView {
        StepView { command: command_view(self.command), refused: event_view(self.refused) }
    }
}

impl StepView {
    /// Nothing is left to do.
    pub open spec fn nothing() -> StepView {
        StepView { command: None, refused: None }
    }

    /// Whether nothing is left to do.
    pub open spec fn is_nothing(self) -> bool {
        self.command is None && self.refused is None
    }
}

/// The bridge: whether the worker runs, the mailbox of requests to it and
/// the mailbox of notifications from it.
pub struct KnetNetwork {
    running: bool,
    net_to_worker_queue: EventQueue,
    worker_to_net_queue: EventQueue,
}

/// The mathematical value of a [`KnetNetwork`].
pub struct NetworkView {
    /// Whether the worker runs.
    pub running: bool,
    /// The requests that wait for the worker, oldest first.
    pub requests: Seq<NetEventView>,
    /// The notifications that wait for the consumer, oldest first.
    pub responses: Seq<NetEventView>,
}

impl View for KnetNetwork {
    type V = NetworkView;

    closed spec fn view(&self) -> NetworkView {
        NetworkView {
            running: self.running,
            requests: self.net_to_worker_queue@,
            responses: self.worker_to_net_queue@,
        }
    }
}

impl NetworkView {
    /// The bridge after the consumer handed in the request `e`, and whether
    /// the request was taken. A full mailbox takes nothing and keeps what it
    /// holds.
    pub open spec fn request(self, e: NetEventView) -> (NetworkView, bool) {
        if self.requests.len() < spec_capacity() {
            (NetworkView { requests: self.requests.push(e), ..self }, true)
        } else {
            (self, false)
        }
    }

    /// The bridge after the worker handed in the notification `e`, and
    /// whether the notification was taken.
    pub open spec fn notify(self, e: NetEventView) -> (NetworkView, bool) {
        if self.responses.len() < spec_capacity() {
            (NetworkView { responses: self.responses.push(e), ..self }, true)
        } else {
            (self, false)
        }
    }

    /// The bridge and the registry after the worker served the request `e`,
    /// which it has taken out of the mailbox, and what is left for it to do.
    /// A close is confirmed to the consumer whether or not the channel is
    /// known. A notification among the requests is passed over.
    pub open spec fn serve(self, registry: RegistryView, l: LoopView, e: NetEventView) -> (
        NetworkView,
        RegistryView,
        StepView,
    ) {
        match e {
            NetEventView::ListenReq { ip, port } => (
                self,
                registry,
                StepView {
                    command: l.accept_command(ip, port, LISTEN_BACKLOG, Handler::Listener),
                    refused: None,
                },
            ),
            NetEventView::ConnectReq { ip, port } => (
                self,
                registry,
                StepView {
                    command: l.connect_command(ip, port, CONNECT_TIMEOUT, Handler::Connector),
                    refused: None,
                },
            ),
            NetEventView::CloseReq { chan_id } => {
                let confirmation = NetEventView::CloseNtf { chan_id };
                (
                    self.notify(confirmation).0,
                    registry.close(chan_id).0,
                    StepView {
                        command: registry.close(chan_id).1,
                        refused: if self.notify(confirmation).1 {
                            None
                        } else {
                            Some(confirmation)
                        },
                    },
                )
            },
            NetEventView::SendNtf { chan_id, data } => (
                self,
                registry,
                StepView { command: registry.send(chan_id, data), refused: None },
            ),
            _ => (self, registry, StepView::nothing()),
        }
    }

    /// The bridge and the registry after a round of the worker: it serves the
    /// requests in the order in which they came, up to the first that leaves
    /// it something to do, or until none is left.
    pub open spec fn work(self, registry: RegistryView, l: LoopView) -> (
        NetworkView,
        RegistryView,
        StepView,
    )
        decreases self.requests.len(),
    {
        if self.requests.len() == 0 {
            (self, registry, StepView::nothing())
        } else {
            let taken = NetworkView { requests: self.requests.drop_first(), ..self };
            let served = taken.serve(registry, l, self.requests.first());
            if served.2.is_nothing() {
                served.0.work(served.1, l)
            } else {
                served
            }
        }
    }

    /// The bridge after the worker handled the event of `dispatch`, and what
    /// it hands back: the native work that goes with the notification, or the
    /// notification itself where the full mailbox refused it. In that case
    /// the native work is not to be done.
    pub open spec fn deliver(self, handled: HandledView) -> (
        NetworkView,
        Result<Option<CommandView>, NetEventView>,
    ) {
        match handled.notify {
            None => (self, Ok(handled.command)),
            Some(e) => if self.notify(e).1 {
                (self.notify(e).0, Ok(handled.command))
            } else {
                (self, Err(e))
            },
        }
    }
}

/// The view of what `dispatch` hands back.
pub open spec fn outcome_view(r: Result<Option<Command>, NetEvent>) -> Result<
    Option<CommandView>,
    NetEventView,
> {
    match r {
        Ok(c) => Ok(command_view(c)),
        Err(e) => Err(e@),
    }
}

/// Whether `r` tells of the request `e` what `taken` says: taken, or handed
/// back because the mailbox was full.
pub open spec fn answers(r: Result<(), NetEvent>, e: NetEventView, taken: bool) -> bool {
    match r {
        Ok(_) => taken,
        Err(back) => !taken && back@ == e,
    }
}

impl KnetNetwork {
    /// A bridge whose worker does not run and whose mailboxes are empty.
    pub fn new() -> (net: KnetNetwork)
        ensures
            net@ == (NetworkView { running: false, requests: Seq::empty(), responses: Seq::empty() }),
    {
        KnetNetwork {
            running: false,
            net_to_worker_queue: EventQueue::new(),
            worker_to_net_queue: EventQueue::new(),
        }
    }

    /// Whether the worker is to go on.
    pub fn is_running(&self) -> (b: bool)
        ensures
            b == self@.running,
    {
        self.running
    }

    /// The number of requests that wait for the worker.
    pub fn pending_requests(&self) -> (n: usize)
        ensures
            n == self@.requests.len(),
            n <= spec_capacity(),
    {
        self.net_to_worker_queue.len()
    }

    /// The number of notifications that wait for the consumer.
    pub fn pending_responses(&self) -> (n: usize)
        ensures
            n == self@.responses.len(),
            n <= spec_capacity(),
    {
        self.worker_to_net_queue.len()
    }

    /// Starts the bridge. Returns whether a worker thread is to be spawned:
    /// not where one runs already.
    pub fn start(&mut self) -> (spawn: bool)
        ensures
            spawn == !old(self)@.running,
            final(self)@ == (NetworkView { running: true, ..old(self)@ }),
    {
        if self.running {
            return false;
        }
        self.running = true;
        true
    }

    /// Stops the bridge. Returns whether a worker thread is to be waited for:
    /// not where none runs.
    pub fn stop(&mut self) -> (join: bool)
        ensures
            join == old(self)@.running,
            final(self)@ == (NetworkView { running: false, ..old(self)@ }),
    {
        if !self.running {
            return false;
        }
        self.running = false;
        true
    }

    /// Asks the worker to listen on `ip:port`. A full mailbox hands the
    /// request back and keeps what it holds.
    pub fn listen(&mut self, ip: String, port: i32) -> (r: Result<(), NetEvent>)
        ensures
            final(self)@ == old(self)@.request(NetEventView::ListenReq { ip: ip@, port }).0,
            answers(
                r,
                NetEventView::ListenReq { ip: ip@, port },
                old(self)@.request(NetEventView::ListenReq { ip: ip@, port }).1,
            ),
    {
        self.notify_worker(NetEvent::EventListenReq { ip, port })
    }

    /// Asks the worker to connect to `ip:port`. A full mailbox hands the
    /// request back and keeps what it holds.
    pub fn connect(&mut self, ip: String, port: i32) -> (r: Result<(), NetEvent>)
        ensures
            final(self)@ == old(self)@.request(NetEventView::ConnectReq { ip: ip@, port }).0,
            answers(
                r,
                NetEventView::ConnectReq { ip: ip@, port },
                old(self)@.request(NetEventView::ConnectReq { ip: ip@, port }).1,
            ),
    {
        self.notify_worker(NetEvent::EventConnectReq { ip, port })
    }

    /// Hands the waiting notifications to the consumer: see
    /// `process_net_event`.
    pub fn tick(&mut self) -> (calls: Vec<Callback>)
        ensures
            callback_views(calls@) == spec_callbacks(old(self)@.responses),
            final(self)@ == (NetworkView { responses: Seq::empty(), ..old(self)@ }),
    {
        self.process_net_event()
    }

    /// Asks the worker to send `data` on the channel `chan_id`. A full
    /// mailbox hands the request back and keeps what it holds.
    pub fn send(&mut self, chan_id: u64, data: &Vec<u8>) -> (r: Result<(), NetEvent>)
        ensures
            final(self)@ == old(self)@.request(NetEventView::SendNtf { chan_id, data: data@ }).0,
            answers(
                r,
                NetEventView::SendNtf { chan_id, data: data@ },
                old(self)@.request(NetEventView::SendNtf { chan_id, data: data@ }).1,
            ),
    {
        self.notify_worker(NetEvent::EventSendNtf { chan_id, data: data.clone() })
    }

    /// Asks the worker to close the channel `chan_id`. A full mailbox hands
    /// the request back and keeps what it holds.
    pub fn close(&mut self, chan_id: u64) -> (r: Result<(), NetEvent>)
        ensures
            final(self)@ == old(self)@.request(NetEventView::CloseReq { chan_id }).0,
            answers(
                r,
                NetEventView::CloseReq { chan_id },
                old(self)@.request(NetEventView::CloseReq { chan_id }).1,
            ),
    {
        self.notify_worker(NetEvent::EventCloseReq { chan_id })
    }

    /// Puts `e` into the mailbox of the consumer, behind what waits there. A
    /// full mailbox hands it back and keeps what it holds.
    pub fn notify_main(&mut self, e: NetEvent) -> (r: Result<(), NetEvent>)
        ensures
            final(self)@ == old(self)@.notify(e@).0,
            answers(r, e@, old(self)@.notify(e@).1),
    {
        self.worker_to_net_queue.enqueue(e)
    }

    /// Puts `e` into the mailbox of the worker, behind what waits there. A
    /// full mailbox hands it back and keeps what it holds.
    pub fn notify_worker(&mut self, e: NetEvent) -> (r: Result<(), NetEvent>)
        ensures
            final(self)@ == old(self)@.request(e@).0,
            answers(r, e@, old(self)@.request(e@).1),
    {
        self.net_to_worker_queue.enqueue(e)
    }

    /// The command that opens the listener of a listen request: on `ip:port`,
    /// with the worker's backlog, handled by the listener's table. Nothing
    /// once the loop is destroyed.
    pub fn process_listen_in_worker(net_loop: &Loop, ip: &str, port: i32) -> (command: Option<
        Command,
    >)
        ensures
            command_view(command) == net_loop@.accept_command(
                ip@,
                port,
                LISTEN_BACKLOG,
                Handler::Listener,
            ),
    {
        net_loop.accept_command(ip, port, LISTEN_BACKLOG, Handler::Listener)
    }

    /// The command that opens the connection of a connect request: to
    /// `ip:port`, with the worker's timeout, handled by the connection's
    /// table. Nothing once the loop is destroyed.
    pub fn process_connect_in_worker(net_loop: &Loop, ip: &str, port: i32) -> (command: Option<
        Command,
    >)
        ensures
            command_view(command) == net_loop@.connect_command(
                ip@,
                port,
                CONNECT_TIMEOUT,
                Handler::Connector,
            ),
    {
        net_loop.connect_command(ip, port, CONNECT_TIMEOUT, Handler::Connector)
    }

    fn serve(&mut self, net_loop: &Loop, registry: &mut CLoopWrapper, e: NetEvent) -> (step: Step)
        ensures
            (final(self)@, final(registry)@, step@) == old(self)@.serve(
                old(registry)@,
                net_loop@,
                e@,
            ),
            old(registry)@.wf() ==> final(registry)@.wf(),
    {
        match e {
            NetEvent::EventListenReq { ip, port } => Step {
                command: KnetNetwork::process_listen_in_worker(net_loop, ip.as_str(), port),
                refused: None,
            },
            NetEvent::EventConnectReq { ip, port } => Step {
                command: KnetNetwork::process_connect_in_worker(net_loop, ip.as_str(), port),
                refused: None,
            },
            NetEvent::EventCloseReq { chan_id } => {
                let command = net_loop.close(registry, chan_id);
                let refused = match self.notify_main(NetEvent::EventCloseNtf { chan_id }) {
                    Ok(_) => None,
                    Err(back) => Some(back),
                };
                Step { command, refused }
            },
            NetEvent::EventSendNtf { chan_id, data } => Step {
                command: net_loop.send(registry, chan_id, &data),
                refused: None,
            },
            _ => Step { command: None, refused: None },
        }
    }

    /// One round of the worker on the mailbox of requests. It serves them in
    /// the order in which they came: a listen or connect request becomes the
    /// command that opens the channel, a send request the command that
    /// enqueues the bytes, and a close request closes the channel and
    /// confirms to the consumer, whether or not the channel is known. The
    /// round ends with the first request that leaves something to do, which
    /// is handed back, or with an empty mailbox.
    pub fn process_worker_event(&mut self, net_loop: &Loop, registry: &mut CLoopWrapper) -> (step:
        Step)
        ensures
            (final(self)@, final(registry)@, step@) == old(self)@.work(old(registry)@, net_loop@),
            old(registry)@.wf() ==> final(registry)@.wf(),
    {
        while self.net_to_worker_queue.len() > 0
            invariant
                self@.work(registry@, net_loop@) == old(self)@.work(old(registry)@, net_loop@),
                old(registry)@.wf() ==> registry@.wf(),
            decreases self@.requests.len(),
        {
            let ghost before = self@;
            let taken = self.net_to_worker_queue.dequeue();
            let request = taken.unwrap();
            assert(self@ == (NetworkView { requests: before.requests.drop_first(), ..before }));
            let step = self.serve(net_loop, registry, request);
            if step.command.is_some() || step.refused.is_some() {
                return step;
            }
        }
        Step { command: None, refused: None }
    }

    /// Hands the waiting notifications to the consumer, oldest first, and
    /// leaves the mailbox empty: for each the call that its callback is owed.
    /// An acknowledged listen goes to `on_accept`, an acknowledged connect to
    /// `on_connect`, a close to `on_close`, a new peer to `on_client`, data
    /// to `on_data`. A request that strayed into the mailbox is passed over.
    pub fn process_net_event(&mut self) -> (calls: Vec<Callback>)
        ensures
            callback_views(calls@) == spec_callbacks(old(self)@.responses),
            final(self)@ == (NetworkView { responses: Seq::empty(), ..old(self)@ }),
    {
        let mut calls: Vec<Callback> = Vec::new();
        assert(callback_views(calls@) =~= Seq::empty());
        while self.worker_to_net_queue.len() > 0
            invariant
                self@.running == old(self)@.running,
                self@.requests == old(self)@.requests,
                callback_views(calls@) + spec_callbacks(self@.responses) == spec_callbacks(
                    old(self)@.responses,
                ),
            decreases self@.responses.len(),
        {
            let ghost before = calls@;
            let taken = self.worker_to_net_queue.dequeue();
            let notification = taken.unwrap();
            match notification {
                NetEvent::EventListenAck { ip, port, success } => {
                    calls.push(Callback::OnAccept { ip, port, success });
                },
                NetEvent::EventConnectAck { chan_id, ip, port, success } => {
                    calls.push(Callback::OnConnect { chan_id, ip, port, success });
                },
                NetEvent::EventCloseNtf { chan_id } => {
                    calls.push(Callback::OnClose { chan_id });
                },
                NetEvent::EventAccept { chan_id } => {
                    calls.push(Callback::OnClient { chan_id });
                },
                NetEvent::EventDataNtf { chan_id, data } => {
                    calls.push(Callback::OnData { chan_id, data });
                },
                _ => {},
            }
            proof {
                match spec_callback(notification@) {
                    Some(c) => {
                        assert(callback_views(calls@) =~= callback_views(before) + seq![c]);
                    },
                    None => {
                        assert(callback_views(calls@) =~= callback_views(before));
                    },
                }
            }
        }
        assert(self@.responses =~= Seq::empty());
        calls
    }

    /// Hands the event of `dispatch` to the handler of its channel, with what
    /// the native layer reported in answer to `query`, and puts the
    /// notification that comes of it into the mailbox of the consumer.
    /// Returns the native work that goes with it. Where the full mailbox
    /// refuses the notification, it is handed back instead, nothing changes
    /// and the native work is not to be done.
    pub fn dispatch(&mut self, dispatch: Dispatch, reading: Reading) -> (r: Result<
        Option<Command>,
        NetEvent,
    >)
        ensures
            (final(self)@, outcome_view(r)) == old(self)@.deliver(
                spec_handle(dispatch@.channel, dispatch@.event, reading@),
            ),
    {
        let handled = handle(&dispatch.channel, dispatch.event, reading);
        match handled.notify {
            None => Ok(handled.command),
            Some(e) => match self.notify_main(e) {
                Ok(_) => Ok(handled.command),
                Err(back) => Err(back),
            },
        }
    }
}

/// Every notification is owed a callback, and no request is: `tick` passes
/// over nothing but requests.
pub proof fn lemma_callbacks_are_for_notifications(e: NetEventView)
    ensures
        spec_callback(e) is Some <==> e.is_notification(),
        spec_callback(e) is None <==> e.is_request(),
{
}

/// Delivery keeps the order: the callbacks of a mailbox with one more
/// notification behind are the callbacks of the mailbox, followed by the
/// callback of that notification.
pub proof fn lemma_callbacks_keep_the_order(events: Seq<NetEventView>, e: NetEventView)
    ensures
        spec_callbacks(events.push(e)) == spec_callbacks(events) + match spec_callback(e) {
            Some(c) => seq![c],
            None => Seq::empty(),
        },
    decreases events.len(),
{
    let tail = match spec_callback(e) {
        Some(c) => seq![c],
        None => Seq::empty(),
    };
    if events.len() == 0 {
        assert(events.push(e).drop_first() =~= Seq::<NetEventView>::empty());
        assert(spec_callbacks(events.push(e).drop_first()) =~= Seq::<CallbackView>::empty());
        assert(spec_callbacks(events.push(e)) =~= spec_callbacks(events) + tail);
    } else {
        lemma_callbacks_keep_the_order(events.drop_first(), e);
        assert(events.push(e).drop_first() =~= events.drop_first().push(e));
        assert(events.push(e).first() == events.first());
        assert(spec_callbacks(events.push(e)) =~= spec_callbacks(events) + tail);
    }
}

/// The bytes that a notification carries: those of arrived data, none
/// otherwise.
pub open spec fn payload(e: NetEventView) -> Seq<u8> {
    match e {
        NetEventView::DataNtf { data, .. } => data,
        _ => Seq::empty(),
    }
}

/// The bytes that a run of notifications carries, in order.
pub open spec fn payloads(events: Seq<NetEventView>) -> Seq<u8>
    decreases events.len(),
{
    if events.len() == 0 {
        Seq::empty()
    } else {
        payloads(events.drop_last()) + payload(events.last())
    }
}

/// The bytes of a run of chunks, in order.
pub open spec fn joined(chunks: Seq<Seq<u8>>) -> Seq<u8>
    decreases chunks.len(),
{
    if chunks.len() == 0 {
        Seq::empty()
    } else {
        joined(chunks.drop_last()) + chunks.last()
    }
}

/// Whether `e` tells of data, at least one byte of it, on the channel
/// `chan_id`.
pub open spec fn is_data_of(e: NetEventView, chan_id: u64) -> bool {
    e matches NetEventView::DataNtf { chan_id: id, data } && id == chan_id && data.len() > 0
}

/// The notifications that come of `chunks` arriving one after the other on
/// `channel`: each chunk is what the stream holds when its event is handled.
pub open spec fn received_all(channel: ChannelView, chunks: Seq<Seq<u8>>) -> Seq<NetEventView>
    decreases chunks.len(),
{
    if chunks.len() == 0 {
        Seq::empty()
    } else {
        let earlier = received_all(channel, chunks.drop_last());
        let reading = ReadingView::Stream { present: true, bytes: chunks.last() };
        match spec_handle(channel, ChannelCbEvent::ChannelCbEventRecv, reading).notify {
            Some(e) => earlier.push(e),
            None => earlier,
        }
    }
}

/// Data keeps its bytes and their order on the way to the consumer: whatever
/// chunks arrive on an open channel, the notifications that come of them
/// carry, put end to end, exactly the bytes of the chunks put end to end.
/// Where one chunk ends and the next begins is not kept: an empty chunk
/// leaves no notification.
pub proof fn lemma_received_bytes_keep_their_order(channel: ChannelView, chunks: Seq<Seq<u8>>)
    requires
        !channel.close_flag,
    ensures
        payloads(received_all(channel, chunks)) == joined(chunks),
        forall|i: int|
            0 <= i < received_all(channel, chunks).len() ==> is_data_of(
                #[trigger] received_all(channel, chunks)[i],
                channel.uuid,
            ),
    decreases chunks.len(),
{
    if chunks.len() > 0 {
        lemma_received_bytes_keep_their_order(channel, chunks.drop_last());
        let earlier = received_all(channel, chunks.drop_last());
        let reading = ReadingView::Stream { present: true, bytes: chunks.last() };
        match spec_handle(channel, ChannelCbEvent::ChannelCbEventRecv, reading).notify {
            Some(e) => {
                assert(earlier.push(e).drop_last() =~= earlier);
                assert(e == NetEventView::DataNtf { chan_id: channel.uuid, data: chunks.last() });
            },
            None => {
                assert(chunks.last() =~= Seq::<u8>::empty());
                assert(joined(chunks) =~= joined(chunks.drop_last()));
            },
        }
    }
}

/// A close request is confirmed whatever the registry holds: serving it
/// puts the confirmation for that identifier behind the notifications that
/// wait, provided the mailbox has room. Where the channel is unknown, that is
/// all that happens.
pub proof fn lemma_close_is_always_confirmed(
    net: NetworkView,
    registry: RegistryView,
    l: LoopView,
    chan_id: u64,
)
    requires
        net.responses.len() < spec_capacity(),
    ensures
        net.serve(registry, l, NetEventView::CloseReq { chan_id }).0.responses
            == net.responses.push(NetEventView::CloseNtf { chan_id }),
        net.serve(registry, l, NetEventView::CloseReq { chan_id }).2.refused is None,
        !registry.channels.contains_key(chan_id) ==> net.serve(
            registry,
            l,
            NetEventView::CloseReq { chan_id },
        ).1 == registry && net.serve(registry, l, NetEventView::CloseReq { chan_id }).2.command
            is None,
{
}

/// A round of the worker on a single close request ends with exactly one
/// more notification, the confirmation, and an empty mailbox of requests.
pub proof fn lemma_single_close_round(
    net: NetworkView,
    registry: RegistryView,
    l: LoopView,
    chan_id: u64,
)
    requires
        net.requests == seq![NetEventView::CloseReq { chan_id }],
        net.responses.len() < spec_capacity(),
    ensures
        net.work(registry, l).0.responses == net.responses.push(
            NetEventView::CloseNtf { chan_id },
        ),
        net.work(registry, l).0.requests == Seq::<NetEventView>::empty(),
{
    let taken = NetworkView { requests: net.requests.drop_first(), ..net };
    assert(taken.requests =~= Seq::empty());
    let served = taken.serve(registry, l, NetEventView::CloseReq { chan_id });
    assert(net.requests.first() == NetEventView::CloseReq { chan_id });
    assert(served.0.work(served.1, l) == (served.0, served.1, StepView::nothing()));
}

/// A full mailbox refuses a request and loses nothing: the requests that
/// wait are the same, in the same order. A mailbox with room takes the
/// request behind those that wait, which keep their places.
pub proof fn lemma_overflow_keeps_the_mailbox(net: NetworkView, e: NetEventView)
    ensures
        net.requests.len() >= spec_capacity() ==> net.request(e) == (net, false),
        net.requests.len() < spec_capacity() ==> net.request(e).1 && net.request(e).0.requests.len()
            == net.requests.len() + 1 && net.request(e).0.requests.last() == e && (forall|i: int|
            0 <= i < net.requests.len() ==> net.request(e).0.requests[i] == net.requests[i]),
        net.request(e).0.responses == net.responses,
        net.request(e).0.running == net.running,
{
}

/// The bytes that a run of callbacks hands to `on_data`, in order.
pub open spec fn callback_payloads(calls: Seq<CallbackView>) -> Seq<u8>
    decreases calls.len(),
{
    if calls.len() == 0 {
        Seq::empty()
    } else {
        callback_payloads(calls.drop_last()) + match calls.last() {
            CallbackView::OnData { data, .. } => data,
            _ => Seq::empty(),
        }
    }
}

/// `tick` loses, adds and reorders no byte: what its callbacks hand to
/// `on_data`, put end to end, is what the notifications in the mailbox carry,
/// put end to end.
pub proof fn lemma_data_reaches_the_callbacks_in_order(events: Seq<NetEventView>)
    ensures
        callback_payloads(spec_callbacks(events)) == payloads(events),
    decreases events.len(),
{
    if events.len() > 0 {
        let earlier = events.drop_last();
        let last = events.last();
        assert(events =~= earlier.push(last));
        lemma_data_reaches_the_callbacks_in_order(earlier);
        lemma_callbacks_keep_the_order(earlier, last);
        match spec_callback(last) {
            Some(c) => {
                let calls = spec_callbacks(earlier) + seq![c];
                assert(calls.drop_last() =~= spec_callbacks(earlier));
                assert(calls.last() == c);
            },
            None => {
                assert(spec_callbacks(earlier) + Seq::<CallbackView>::empty() =~= spec_callbacks(
                    earlier,
                ));
                assert(payloads(earlier) + payload(last) =~= payloads(earlier));
            },
        }
    } else {
        assert(spec_callbacks(events) =~= Seq::<CallbackView>::empty());
    }
}

/// From the stream to the consumer: whatever chunks arrive on an open
/// channel, the calls that `tick` owes `on_data` for them carry, put end to
/// end, exactly the bytes of the chunks put end to end.
pub proof fn lemma_arrived_bytes_reach_on_data(channel: ChannelView, chunks: Seq<Seq<u8>>)
    requires
        !channel.close_flag,
    ensures
        callback_payloads(spec_callbacks(received_all(channel, chunks))) == joined(chunks),
{
    lemma_received_bytes_keep_their_order(channel, chunks);
    lemma_data_reaches_the_callbacks_in_order(received_all(channel, chunks));
}

/// A close request reaches `on_close` exactly once, whatever the registry
/// holds: after a round of the worker on that request alone, `tick` owes the
/// callbacks that it owed before and, behind them, one call of `on_close`
/// with the identifier of the request.
pub proof fn lemma_close_reaches_on_close(
    net: NetworkView,
    registry: RegistryView,
    l: LoopView,
    chan_id: u64,
)
    requires
        net.requests == seq![NetEventView::CloseReq { chan_id }],
        net.responses.len() < spec_capacity(),
    ensures
        spec_callbacks(net.work(registry, l).0.responses) == spec_callbacks(net.responses)
            + seq![CallbackView::OnClose { chan_id }],
{
    lemma_single_close_round(net, registry, l, chan_id);
    lemma_callbacks_keep_the_order(net.responses, NetEventView::CloseNtf { chan_id });
}

/// A listen request that the native layer can serve is acknowledged exactly
/// once. Serving the request leaves the command that opens the listener and
/// no notification. When the native layer answers with a bound channel, the
/// handler asks for the local address, and handling the event puts one
/// acknowledgement with success and the reported address behind the
/// notifications that wait: `tick` then owes `on_accept` one call more, with
/// that address.
pub proof fn lemma_listen_is_acknowledged_once(
    net: NetworkView,
    registry: RegistryView,
    l: LoopView,
    ip: Seq<char>,
    port: i32,
    opened: Opened,
    bound_ip: Seq<char>,
    bound_port: i32,
)
    requires
        !l.close_flag,
        opened.status == 0,
        net.responses.len() < spec_capacity(),
    ensures
        ({
            let request = NetEventView::ListenReq { ip, port };
            let served = net.serve(registry, l, request);
            let opening = registry.open(
                Some(opened),
                Handler::Listener,
                Some(ChannelCbEvent::ChannelCbEventAccept),
                ChannelCbEvent::ChannelCbEventAcceptFailed,
            );
            let d = opening.1.dispatch->0;
            let reading = ReadingView::Address { ip: bound_ip, port: bound_port };
            let delivered = served.0.deliver(spec_handle(d.channel, d.event, reading));
            &&& served.0 == net
            &&& served.1 == registry
            &&& served.2.refused is None
            &&& served.2.command == l.accept_command(ip, port, LISTEN_BACKLOG, Handler::Listener)
            &&& served.2.command is Some
            &&& opening.1.channel == Some(opened.uuid)
            &&& opening.1.dispatch is Some
            &&& opening.1.before is None
            &&& opening.1.after is None
            &&& spec_query(d.channel, d.event) == (Query::LocalAddress {
                channel_ptr: opened.channel_ptr,
            })
            &&& delivered.1 == Ok::<Option<CommandView>, NetEventView>(None)
            &&& delivered.0.responses == net.responses.push(
                NetEventView::ListenAck { ip: bound_ip, port: bound_port, success: true },
            )
            &&& spec_callbacks(delivered.0.responses) == spec_callbacks(net.responses)
                + seq![CallbackView::OnAccept { ip: bound_ip, port: bound_port, success: true }]
        }),
{
    lemma_callbacks_keep_the_order(
        net.responses,
        NetEventView::ListenAck { ip: bound_ip, port: bound_port, success: true },
    );
}

/// A connect request that fails at once is acknowledged exactly once, and
/// nothing more comes of its channel. The channel is registered closed, no
/// identifier is handed out, and the handler asks nothing of the native
/// layer. Handling the failure puts one acknowledgement without success
/// behind the notifications that wait, so that `tick` owes `on_connect` one
/// call more, and the native handle is released afterwards. From then on a
/// send or a close for the identifier asks nothing of the native layer, and
/// data reported for it leaves no notification.
pub proof fn lemma_failed_connect_is_acknowledged_once(
    net: NetworkView,
    registry: RegistryView,
    opened: Opened,
    reading: ReadingView,
    later: ReadingView,
    data: Seq<u8>,
)
    requires
        opened.status != 0,
        net.responses.len() < spec_capacity(),
    ensures
        ({
            let opening = registry.open(
                Some(opened),
                Handler::Connector,
                None,
                ChannelCbEvent::ChannelCbEventConnectFailed,
            );
            let d = opening.1.dispatch->0;
            let delivered = net.deliver(spec_handle(d.channel, d.event, reading));
            let ack = NetEventView::ConnectAck {
                chan_id: opened.uuid,
                ip: Seq::empty(),
                port: 0,
                success: false,
            };
            let recv = opening.0.client_event(opened.uuid, ChannelCbEvent::ChannelCbEventRecv);
            &&& opening.1.channel is None
            &&& opening.1.dispatch is Some
            &&& opening.1.before is None
            &&& opening.1.after == Some(
                CommandView::CloseChannel { channel_ptr: opened.channel_ptr },
            )
            &&& spec_query(d.channel, d.event) == Query::Nothing
            &&& delivered.1 == Ok::<Option<CommandView>, NetEventView>(None)
            &&& delivered.0.responses == net.responses.push(ack)
            &&& spec_callbacks(delivered.0.responses) == spec_callbacks(net.responses)
                + seq![
                CallbackView::OnConnect {
                    chan_id: opened.uuid,
                    ip: Seq::empty(),
                    port: 0,
                    success: false,
                },
            ]
            &&& opening.0.send(opened.uuid, data) is None
            &&& opening.0.close(opened.uuid).1 is None
            &&& recv.1 is Some
            &&& spec_handle(recv.1->0.channel, recv.1->0.event, later) == HandledView::nothing()
        }),
{
    lemma_callbacks_keep_the_order(
        net.responses,
        NetEventView::ConnectAck {
            chan_id: opened.uuid,
            ip: Seq::empty(),
            port: 0,
            success: false,
        },
    );
}

} // verus!
