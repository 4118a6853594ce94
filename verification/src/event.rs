//! The events that travel between the native layer, the reactor and the
//! consumer thread.

use vstd::prelude::*;

verus! {

/// What the native layer, or the reactor on its behalf, reports of a channel.
#[derive(Clone, Copy, Debug, PartialEq, Eq, Structural)]
pub enum ChannelCbEvent {
    /// An outgoing connection is established.
    ChannelCbEventConnect,
    /// A listener is ready, or (from the native layer) a peer has arrived.
    ChannelCbEventAccept,
    /// Bytes are buffered for reading.
    ChannelCbEventRecv,
    /// Bytes were sent; reserved.
    ChannelCbEventSend,
    /// The channel is closed.
    ChannelCbEventClose,
    /// The channel has been idle for reading.
    ChannelCbEventTimeout,
    /// An outgoing connection attempt ran out of time.
    ChannelCbEventConnectTimeout,
    /// Binding or listening failed.
    ChannelCbEventAcceptFailed,
    /// A peer connected to a listener.
    ChannelCbEventAcceptClient,
    /// An outgoing connection attempt failed at once.
    ChannelCbEventConnectFailed,
}

impl ChannelCbEvent {
    /// The number by which the native layer knows this event.
    pub open spec fn spec_code(self) -> int {
        match self {
            ChannelCbEvent::ChannelCbEventConnect => 1,
            ChannelCbEvent::ChannelCbEventAccept => 2,
            ChannelCbEvent::ChannelCbEventRecv => 4,
            ChannelCbEvent::ChannelCbEventSend => 8,
            ChannelCbEvent::ChannelCbEventClose => 16,
            ChannelCbEvent::ChannelCbEventTimeout => 32,
            ChannelCbEvent::ChannelCbEventConnectTimeout => 64,
            ChannelCbEvent::ChannelCbEventAcceptFailed => 65,
            ChannelCbEvent::ChannelCbEventAcceptClient => 66,
            ChannelCbEvent::ChannelCbEventConnectFailed => 67,
        }
    }

    /// The number by which the native layer knows this event.
    pub fn code(self) -> (c: i32)
        ensures
            c == self.spec_code(),
    {
        match self {
            ChannelCbEvent::ChannelCbEventConnect => 1,
            ChannelCbEvent::ChannelCbEventAccept => 2,
            ChannelCbEvent::ChannelCbEventRecv => 4,
            ChannelCbEvent::ChannelCbEventSend => 8,
            ChannelCbEvent::ChannelCbEventClose => 16,
            ChannelCbEvent::ChannelCbEventTimeout => 32,
            ChannelCbEvent::ChannelCbEventConnectTimeout => 64,
            ChannelCbEvent::ChannelCbEventAcceptFailed => 65,
            ChannelCbEvent::ChannelCbEventAcceptClient => 66,
            ChannelCbEvent::ChannelCbEventConnectFailed => 67,
        }
    }

    /// The event that the native layer knows by `code`, if there is one.
    pub fn from_code(code: i32) -> (e: Option<ChannelCbEvent>)
        ensures
            match e {
                Some(ev) => ev.spec_code() == code,
                None => forall|ev: ChannelCbEvent| ev.spec_code() != code,
            },
    {
        if code == 1 {
            Some(ChannelCbEvent::ChannelCbEventConnect)
        } else if code == 2 {
            Some(ChannelCbEvent::ChannelCbEventAccept)
        } else if code == 4 {
            Some(ChannelCbEvent::ChannelCbEventRecv)
        } else if code == 8 {
            Some(ChannelCbEvent::ChannelCbEventSend)
        } else if code == 16 {
            Some(ChannelCbEvent::ChannelCbEventClose)
        } else if code == 32 {
            Some(ChannelCbEvent::ChannelCbEventTimeout)
        } else if code == 64 {
            Some(ChannelCbEvent::ChannelCbEventConnectTimeout)
        } else if code == 65 {
            Some(ChannelCbEvent::ChannelCbEventAcceptFailed)
        } else if code == 66 {
            Some(ChannelCbEvent::ChannelCbEventAcceptClient)
        } else if code == 67 {
            Some(ChannelCbEvent::ChannelCbEventConnectFailed)
        } else {
            None
        }
    }
}

/// A request to the worker or a notification from it. Every variant carries
/// plain data only, so that it can cross to another thread.
#[derive(Debug, Clone, PartialEq, Eq)]
pub enum NetEvent {
    /// Request: listen on `ip:port`.
    EventListenReq { ip: String, port: i32 },
    /// Notification: a listen request was served; `port` is the bound port.
    EventListenAck { ip: String, port: i32, success: bool },
    /// Request: connect to `ip:port`.
    EventConnectReq { ip: String, port: i32 },
    /// Notification: a connect request was served.
    EventConnectAck { chan_id: u64, ip: String, port: i32, success: bool },
    /// Request: send `data` on the channel `chan_id`.
    EventSendNtf { chan_id: u64, data: Vec<u8> },
    /// Request: close the channel `chan_id`.
    EventCloseReq { chan_id: u64 },
    /// Notification: the channel `chan_id` is closed.
    EventCloseNtf { chan_id: u64 },
    /// Notification: a peer connected; `chan_id` is the new channel.
    EventAccept { chan_id: u64 },
    /// Notification: `data` arrived on the channel `chan_id`.
    EventDataNtf { chan_id: u64, data: Vec<u8> },
}

/// The mathematical value of a [`NetEvent`]: strings as sequences of
/// characters, payloads as sequences of bytes.
pub enum NetEventView {
    ListenReq { ip: Seq<char>, port: i32 },
    ListenAck { ip: Seq<char>, port: i32, success: bool },
    ConnectReq { ip: Seq<char>, port: i32 },
    ConnectAck { chan_id: u64, ip: Seq<char>, port: i32, success: bool },
    SendNtf { chan_id: u64, data: Seq<u8> },
    CloseReq { chan_id: u64 },
    CloseNtf { chan_id: u64 },
    Accept { chan_id: u64 },
    DataNtf { chan_id: u64, data: Seq<u8> },
}

impl View for NetEvent {
    type V = NetEventView;

    open spec fn view(&self) -> NetEventView {
        match *self {
            NetEvent::EventListenReq { ip, port } => NetEventView::ListenReq { ip: ip@, port },
            NetEvent::EventListenAck { ip, port, success } => NetEventView::ListenAck {
                ip: ip@,
                port,
                success,
            },
            NetEvent::EventConnectReq { ip, port } => NetEventView::ConnectReq { ip: ip@, port },
            NetEvent::EventConnectAck { chan_id, ip, port, success } => NetEventView::ConnectAck {
                chan_id,
                ip: ip@,
                port,
                success,
            },
            NetEvent::EventSendNtf { chan_id, data } => NetEventView::SendNtf {
                chan_id,
                data: data@,
            },
            NetEvent::EventCloseReq { chan_id } => NetEventView::CloseReq { chan_id },
            NetEvent::EventCloseNtf { chan_id } => NetEventView::CloseNtf { chan_id },
            NetEvent::EventAccept { chan_id } => NetEventView::Accept { chan_id },
            NetEvent::EventDataNtf { chan_id, data } => NetEventView::DataNtf {
                chan_id,
                data: data@,
            },
        }
    }
}

impl NetEventView {
    /// Whether the event is one that the consumer sends to the worker.
    pub open spec fn is_request(self) -> bool {
        self is ListenReq || self is ConnectReq || self is SendNtf || self is CloseReq
    }

    /// Whether the event is one that the worker sends to the consumer.
    pub open spec fn is_notification(self) -> bool {
        !self.is_request()
    }
}

} // verus!
