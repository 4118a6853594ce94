//! One connection or listener: its native handle, its identifier, its close
//! flag and the handler that its events go to.

use crate::native::{Command, CommandView, Handler, Stream, command_view};
use vstd::prelude::*;

verus! {

/// A channel. Once it is closed, none of its operations asks anything of the
/// native layer again.
#[derive(Clone, Copy, Debug, PartialEq, Eq)]
pub struct Channel {
    channel_ptr: usize,
    uuid: u64,
    close_flag: bool,
    cb: Handler,
}

/// The mathematical value of a [`Channel`].
pub struct ChannelView {
    /// The native handle.
    pub channel_ptr: usize,
    /// The identifier that the native layer gave the channel.
    pub uuid: u64,
    /// Whether the channel is closed. It never goes back to `false`.
    pub close_flag: bool,
    /// The handler of the channel's events.
    pub cb: Handler,
}

impl View for Channel {
    type V = ChannelView;

    closed spec fn view(&self) -> ChannelView {
        ChannelView {
            channel_ptr: self.channel_ptr,
            uuid: self.uuid,
            close_flag: self.close_flag,
            cb: self.cb,
        }
    }
}

impl ChannelView {
    /// The channel after `close`, and the command that `close` hands out.
    pub open spec fn close(self) -> (ChannelView, Option<CommandView>) {
        if self.close_flag {
            (self, None)
        } else {
            (
                ChannelView { close_flag: true, ..self },
                Some(CommandView::CloseChannel { channel_ptr: self.channel_ptr }),
            )
        }
    }

    /// The channel after `n` calls of `close`, and the number of them that
    /// handed out a command.
    pub open spec fn close_times(self, n: nat) -> (ChannelView, nat)
        decreases n,
    {
        if n == 0 {
            (self, 0)
        } else {
            let (next, command) = self.close();
            let (last, count) = next.close_times((n - 1) as nat);
            (
                last,
                if command is Some {
                    count + 1
                } else {
                    count
                },
            )
        }
    }

    /// Whether a read of `size` bytes is served on a stream that is there or
    /// not and holds `available` bytes.
    pub open spec fn serves(self, present: bool, available: nat, size: int) -> bool {
        !self.close_flag && present && 0 < size <= available
    }
}

/// A closed channel stays as it is however often it is closed again, and
/// asks for no native close.
pub proof fn lemma_closed_stays_closed(c: ChannelView, n: nat)
    requires
        c.close_flag,
    ensures
        c.close_times(n) == (c, 0nat),
    decreases n,
{
    if n > 0 {
        lemma_closed_stays_closed(c, (n - 1) as nat);
    }
}

/// Closing is idempotent: however many times a channel is closed, at least
/// once, it ends up closed with nothing else changed, and exactly one native
/// close is asked for if it was open, none if it was closed already.
pub proof fn lemma_close_idempotent(c: ChannelView, n: nat)
    requires
        n >= 1,
    ensures
        c.close_times(n).0 == (ChannelView { close_flag: true, ..c }),
        c.close_times(n).1 == if c.close_flag {
            0nat
        } else {
            1nat
        },
        c.close_times(n).0 == c.close_times(1).0,
{
    lemma_closed_stays_closed(c.close().0, (n - 1) as nat);
    lemma_closed_stays_closed(c.close().0, 0);
    assert(c.close_times(1) == (
        c.close().0,
        if c.close().1 is Some {
            1nat
        } else {
            0nat
        },
    )) by {
        assert(c.close().0.close_times(0) == (c.close().0, 0nat));
    }
}

impl Channel {
    /// A channel over the native handle `channel_ptr`.
    pub fn new(channel_ptr: usize, uuid: u64, close_flag: bool, cb: Handler) -> (c: Channel)
        ensures
            c@ == (ChannelView { channel_ptr, uuid, close_flag, cb }),
    {
        Channel { channel_ptr, uuid, close_flag, cb }
    }

    /// Closes the channel. The first call hands out the command that closes
    /// the native channel; every later call does nothing.
    pub fn close(&mut self) -> (command: Option<Command>)
        ensures
            (final(self)@, command_view(command)) == old(self)@.close(),
    {
        if self.close_flag {
            return None;
        }
        self.close_flag = true;
        Some(Command::CloseChannel { channel_ptr: self.channel_ptr })
    }

    /// Whether the channel is closed.
    pub fn is_close(&self) -> (b: bool)
        ensures
            b == self@.close_flag,
    {
        self.close_flag
    }

    /// Marks the channel closed without a native close: the native layer has
    /// closed it already.
    pub fn set_dispose(&mut self)
        ensures
            final(self)@ == (ChannelView { close_flag: true, ..old(self)@ }),
    {
        self.close_flag = true;
    }

    /// The identifier of the channel.
    pub fn get_uuid(&self) -> (uuid: u64)
        ensures
            uuid == self@.uuid,
    {
        self.uuid
    }

    /// The handler of the channel's events.
    pub fn handler(&self) -> (cb: Handler)
        ensures
            cb == self@.cb,
    {
        self.cb
    }

    /// The handle through which the native layer may be asked about the
    /// channel: none once the channel is closed.
    pub fn native(&self) -> (handle: Option<usize>)
        ensures
            handle == if self@.close_flag {
                None
            } else {
                Some(self@.channel_ptr)
            },
    {
        if self.close_flag {
            None
        } else {
            Some(self.channel_ptr)
        }
    }

    /// The number of bytes buffered for reading: zero for a closed channel
    /// and for one without a stream.
    pub fn available(&self, stream: &Stream) -> (n: i32)
        ensures
            n == if self@.close_flag || !stream.present() {
                0
            } else {
                stream.bytes().len() as int
            },
    {
        if self.close_flag {
            return 0;
        }
        if !stream.is_present() {
            0
        } else {
            stream.available()
        }
    }

    /// Replaces the handler; the events dispatched from now on go to `cb`.
    pub fn set_handler(&mut self, cb: Handler)
        ensures
            final(self)@ == (ChannelView { cb, ..old(self)@ }),
    {
        self.cb = cb;
    }

    /// Reads exactly `size` bytes or nothing. Where the channel is open, has
    /// a stream and the stream holds at least `size` bytes, these leave the
    /// stream and become the contents of `buffer`, and `size` is returned.
    /// Otherwise zero is returned and neither `buffer` nor the stream
    /// changes.
    pub fn read(&self, stream: &mut Stream, buffer: &mut Vec<u8>, size: i32) -> (n: i32)
        ensures
            final(stream).present() == old(stream).present(),
            self@.serves(old(stream).present(), old(stream).bytes().len(), size as int) ==> n
                == size && final(buffer)@ == old(stream).bytes().subrange(0, size as int)
                && final(stream).bytes() == old(stream).bytes().subrange(
                size as int,
                old(stream).bytes().len() as int,
            ),
            !self@.serves(old(stream).present(), old(stream).bytes().len(), size as int) ==> n == 0
                && final(buffer)@ == old(buffer)@ && final(stream).bytes() == old(stream).bytes(),
    {
        if self.close_flag {
            return 0;
        }
        if !stream.is_present() {
            return 0;
        }
        let bytes: i32 = stream.available();
        if size > bytes || size <= 0 {
            return 0;
        }
        if 0 == stream.pop(buffer, size) {
            size
        } else {
            0
        }
    }

    /// Like `read`, but the bytes stay in the stream.
    pub fn copy(&self, stream: &Stream, buffer: &mut Vec<u8>, size: i32) -> (n: i32)
        ensures
            self@.serves(stream.present(), stream.bytes().len(), size as int) ==> n == size
                && final(buffer)@ == stream.bytes().subrange(0, size as int),
            !self@.serves(stream.present(), stream.bytes().len(), size as int) ==> n == 0
                && final(buffer)@ == old(buffer)@,
    {
        if self.close_flag {
            return 0;
        }
        if !stream.is_present() {
            return 0;
        }
        let bytes: i32 = stream.available();
        if size > bytes || size <= 0 {
            return 0;
        }
        if 0 == stream.copy(buffer, size) {
            size
        } else {
            0
        }
    }

    /// The command that enqueues `buffer` for sending: none for a closed
    /// channel, and none for a buffer longer than the native layer can count.
    pub fn push_command(&self, buffer: &Vec<u8>) -> (command: Option<Command>)
        ensures
            command_view(command) == if self@.close_flag || buffer@.len() > i32::MAX {
                None
            } else {
                Some(CommandView::Push { channel_ptr: self@.channel_ptr, data: buffer@ })
            },
    {
        if self.close_flag || buffer.len() > i32::MAX as usize {
            None
        } else {
            Some(Command::Push { channel_ptr: self.channel_ptr, data: buffer.clone() })
        }
    }

    /// The result of writing `buffer`, given what became of the command of
    /// `push_command`: `pushed` is the status that the native push returned,
    /// zero for success, or `None` where the channel has no stream or no push
    /// was made. Returns the length of `buffer` where the channel is open and
    /// the push succeeded, zero otherwise.
    pub fn write(&self, buffer: &Vec<u8>, pushed: Option<i32>) -> (n: i32)
        ensures
            n == if !self@.close_flag && buffer@.len() <= i32::MAX && pushed == Some(0i32) {
                buffer@.len() as int
            } else {
                0
            },
    {
        if self.close_flag || buffer.len() > i32::MAX as usize {
            return 0;
        }
        match pushed {
            Some(status) => {
                if status == 0 {
                    buffer.len() as i32
                } else {
                    0
                }
            },
            None => 0,
        }
    }

    /// The local address of the channel, given what the native layer reports
    /// for it: an empty placeholder for a closed channel and where nothing is
    /// reported.
    pub fn get_local_address(&self, reported: Option<(String, i32)>) -> (address: (String, i32))
        ensures
            self@.close_flag || reported is None ==> address.0@ == Seq::<char>::empty()
                && address.1 == 0,
            !self@.close_flag && reported is Some ==> address == reported->0,
    {
        self.address(reported)
    }

    /// The address of the channel's peer, given what the native layer reports
    /// for it: an empty placeholder for a closed channel and where nothing is
    /// reported.
    pub fn get_peer_address(&self, reported: Option<(String, i32)>) -> (address: (String, i32))
        ensures
            self@.close_flag || reported is None ==> address.0@ == Seq::<char>::empty()
                && address.1 == 0,
            !self@.close_flag && reported is Some ==> address == reported->0,
    {
        self.address(reported)
    }

    fn address(&self, reported: Option<(String, i32)>) -> (address: (String, i32))
        ensures
            self@.close_flag || reported is None ==> address.0@ == Seq::<char>::empty()
                && address.1 == 0,
            !self@.close_flag && reported is Some ==> address == reported->0,
    {
        if self.close_flag {
            return (String::new(), 0);
        }
        match reported {
            Some(a) => a,
            None => (String::new(), 0),
        }
    }
}

} // verus!
