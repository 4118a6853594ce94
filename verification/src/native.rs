//! The boundary to the native I/O layer: what the library asks of it, and what
//! it hears back, as plain values. A handle is the native pointer held as a
//! number; zero is no handle.

use vstd::prelude::*;

verus! {

/// Which of the worker's two tables turns a channel's events into
/// notifications.
#[derive(Clone, Copy, Debug, PartialEq, Eq, Structural)]
pub enum Handler {
    /// The table of a listener and of the connections that it accepted.
    Listener,
    /// The table of an outgoing connection.
    Connector,
}

/// The most entries that a new channel's send list may hold.
pub const MAX_SEND_LIST_LEN: u32 = 1024;

/// The size of a new channel's receive ring.
pub const RECV_RING_LEN: u32 = 1024;

/// One piece of work for the native layer. The library decides it; the
/// embedding program carries it out.
#[derive(Debug, Clone, PartialEq, Eq)]
pub enum Command {
    /// Release the reactor.
    DestroyLoop { loop_ptr: usize },
    /// Run one non-blocking iteration of the reactor.
    RunOnce { loop_ptr: usize },
    /// Create a channel in listener role, tag it with its own identifier so
    /// that the channels it spawns name their listener, then bind it and
    /// listen. The answer is an [`Opened`].
    Accept {
        loop_ptr: usize,
        ip: String,
        port: i32,
        backlog: i32,
        max_send_list_len: u32,
        recv_ring_len: u32,
        cb: Handler,
    },
    /// Create a channel in connection role, then start connecting. The
    /// answer is an [`Opened`].
    Connect {
        loop_ptr: usize,
        ip: String,
        port: i32,
        timeout: i32,
        max_send_list_len: u32,
        recv_ring_len: u32,
        cb: Handler,
    },
    /// Route the later events of an accepted connection as those of a
    /// connection, no longer as those of its listener.
    SetClientCallback { channel_ptr: usize },
    /// Close the channel and release its handle.
    CloseChannel { channel_ptr: usize },
    /// Enqueue `data` for sending.
    Push { channel_ptr: usize, data: Vec<u8> },
    /// Drop the first `size` buffered bytes, which the library has read.
    Eat { channel_ptr: usize, size: i32 },
}

/// The mathematical value of a [`Command`].
pub enum CommandView {
    DestroyLoop { loop_ptr: usize },
    RunOnce { loop_ptr: usize },
    Accept {
        loop_ptr: usize,
        ip: Seq<char>,
        port: i32,
        backlog: i32,
        max_send_list_len: u32,
        recv_ring_len: u32,
        cb: Handler,
    },
    Connect {
        loop_ptr: usize,
        ip: Seq<char>,
        port: i32,
        timeout: i32,
        max_send_list_len: u32,
        recv_ring_len: u32,
        cb: Handler,
    },
    SetClientCallback { channel_ptr: usize },
    CloseChannel { channel_ptr: usize },
    Push { channel_ptr: usize, data: Seq<u8> },
    Eat { channel_ptr: usize, size: i32 },
}

impl View for Command {
    type V = CommandView;

    open spec fn view(&self) -> CommandView {
        match *self {
            Command::DestroyLoop { loop_ptr } => CommandView::DestroyLoop { loop_ptr },
            Command::RunOnce { loop_ptr } => CommandView::RunOnce { loop_ptr },
            Command::Accept {
                loop_ptr,
                ip,
                port,
                backlog,
                max_send_list_len,
                recv_ring_len,
                cb,
            } => CommandView::Accept {
                loop_ptr,
                ip: ip@,
                port,
                backlog,
                max_send_list_len,
                recv_ring_len,
                cb,
            },
            Command::Connect {
                loop_ptr,
                ip,
                port,
                timeout,
                max_send_list_len,
                recv_ring_len,
                cb,
            } => CommandView::Connect {
                loop_ptr,
                ip: ip@,
                port,
                timeout,
                max_send_list_len,
                recv_ring_len,
                cb,
            },
            Command::SetClientCallback { channel_ptr } => CommandView::SetClientCallback {
                channel_ptr,
            },
            Command::CloseChannel { channel_ptr } => CommandView::CloseChannel { channel_ptr },
            Command::Push { channel_ptr, data } => CommandView::Push { channel_ptr, data: data@ },
            Command::Eat { channel_ptr, size } => CommandView::Eat { channel_ptr, size },
        }
    }
}

/// The view of a command that may be absent.
pub open spec fn command_view(c: Option<Command>) -> Option<CommandView> {
    match c {
        Some(cmd) => Some(cmd@),
        None => None,
    }
}

/// What the native layer reports after `Command::Accept` or
/// `Command::Connect`: the new channel, its identifier, and the status of the
/// bind or connect call, zero for success.
#[derive(Clone, Copy, Debug, PartialEq, Eq, Structural)]
pub struct Opened {
    pub channel_ptr: usize,
    pub uuid: u64,
    pub status: i32,
}

/// The read side of a channel's byte stream as the native layer reports it:
/// whether the channel has a stream, and the bytes buffered in it.
#[derive(Debug, PartialEq, Eq)]
pub struct Stream {
    buffered: Option<Vec<u8>>,
}

impl Stream {
    #[verifier::type_invariant]
    spec fn fits(self) -> bool {
        self.buffered matches Some(v) ==> v@.len() <= i32::MAX
    }

    /// Whether the channel has a stream.
    pub closed spec fn present(self) -> bool {
        self.buffered is Some
    }

    /// The buffered bytes, oldest first; none where there is no stream.
    pub closed spec fn bytes(self) -> Seq<u8> {
        match self.buffered {
            Some(v) => v@,
            None => Seq::empty(),
        }
    }

    /// The stream of a channel that has none.
    pub fn absent() -> (s: Stream)
        ensures
            !s.present(),
            s.bytes() == Seq::<u8>::empty(),
    {
        Stream { buffered: None }
    }

    /// A stream that holds `data`. The native layer counts buffered bytes in
    /// an `i32`, which bounds `data`.
    pub fn new(data: Vec<u8>) -> (s: Stream)
        requires
            data@.len() <= i32::MAX,
        ensures
            s.present(),
            s.bytes() == data@,
    {
        Stream { buffered: Some(data) }
    }

    /// Whether the channel has a stream.
    pub fn is_present(&self) -> (b: bool)
        ensures
            b == self.present(),
    {
        self.buffered.is_some()
    }

    /// The number of buffered bytes.
    pub fn available(&self) -> (n: i32)
        ensures
            n == self.bytes().len(),
    {
        proof {
            use_type_invariant(self);
        }
        match &self.buffered {
            Some(v) => v.len() as i32,
            None => 0,
        }
    }

    /// Moves the first `size` buffered bytes into `buffer`, replacing what it
    /// held. Returns zero for success; otherwise nothing changes.
    pub fn pop(&mut self, buffer: &mut Vec<u8>, size: i32) -> (status: i32)
        ensures
            final(self).present() == old(self).present(),
            old(self).present() && 0 <= size <= old(self).bytes().len() ==> status == 0
                && final(buffer)@ == old(self).bytes().subrange(0, size as int)
                && final(self).bytes() == old(self).bytes().subrange(
                size as int,
                old(self).bytes().len() as int,
            ),
            !(old(self).present() && 0 <= size <= old(self).bytes().len()) ==> status != 0
                && final(buffer)@ == old(buffer)@ && final(self).bytes() == old(self).bytes(),
    {
        proof {
            use_type_invariant(&*self);
        }
        let mut taken = Stream { buffered: None };
        core::mem::swap(self, &mut taken);
        match taken.buffered {
            Some(mut v) => {
                if size < 0 || size as usize > v.len() {
                    *self = Stream { buffered: Some(v) };
                    1
                } else {
                    let rest = v.split_off(size as usize);
                    *buffer = v;
                    *self = Stream { buffered: Some(rest) };
                    0
                }
            },
            None => 1,
        }
    }

    /// Copies the first `size` buffered bytes into `buffer`, replacing what it
    /// held, and leaves the stream as it is. Returns zero for success;
    /// otherwise nothing changes.
    pub fn copy(&self, buffer: &mut Vec<u8>, size: i32) -> (status: i32)
        ensures
            self.present() && 0 <= size <= self.bytes().len() ==> status == 0 && final(buffer)@
                == self.bytes().subrange(0, size as int),
            !(self.present() && 0 <= size <= self.bytes().len()) ==> status != 0 && final(buffer)@
                == old(buffer)@,
    {
        match &self.buffered {
            Some(v) => {
                if size < 0 || size as usize > v.len() {
                    1
                } else {
                    let mut head = v.clone();
                    head.truncate(size as usize);
                    *buffer = head;
                    0
                }
            },
            None => 1,
        }
    }
}

} // verus!
