use knet::channel::Channel;
use knet::native::{Command, Handler, Stream};

fn open_channel() -> Channel {
    Channel::new(0x2000, 7, false, Handler::Listener)
}

fn closed_channel() -> Channel {
    Channel::new(0x2000, 7, true, Handler::Listener)
}

#[test]
fn close_is_idempotent() {
    let mut c = open_channel();
    assert!(!c.is_close());
    assert_eq!(c.close(), Some(Command::CloseChannel { channel_ptr: 0x2000 }));
    assert!(c.is_close());
    let closed = c;
    let mut natives = 0;
    for _ in 0..5 {
        if c.close().is_some() {
            natives += 1;
        }
        assert_eq!(c, closed);
    }
    assert_eq!(natives, 0);
}

#[test]
fn close_of_a_channel_registered_closed_asks_nothing() {
    let mut c = closed_channel();
    assert_eq!(c.close(), None);
    assert!(c.is_close());
}

#[test]
fn set_dispose_closes_without_a_native_close() {
    let mut c = open_channel();
    c.set_dispose();
    assert!(c.is_close());
    assert_eq!(c.close(), None);
    assert_eq!(c.get_uuid(), 7);
}

#[test]
fn closed_channel_hides_its_native_handle() {
    let mut c = open_channel();
    assert_eq!(c.native(), Some(0x2000));
    c.close();
    assert_eq!(c.native(), None);
}

#[test]
fn uuid_and_handler_are_kept() {
    let mut c = Channel::new(1, u64::MAX, false, Handler::Connector);
    assert_eq!(c.get_uuid(), u64::MAX);
    assert_eq!(c.handler(), Handler::Connector);
    c.set_handler(Handler::Listener);
    assert_eq!(c.handler(), Handler::Listener);
    assert_eq!(c.get_uuid(), u64::MAX);
    assert!(!c.is_close());
    assert_eq!(c.native(), Some(1));
}

#[test]
fn available_counts_buffered_bytes() {
    let c = open_channel();
    assert_eq!(c.available(&Stream::new(vec![9, 8, 7])), 3);
    assert_eq!(c.available(&Stream::new(Vec::new())), 0);
}

#[test]
fn available_is_zero_when_closed_or_without_stream() {
    assert_eq!(closed_channel().available(&Stream::new(vec![9, 8, 7])), 0);
    assert_eq!(open_channel().available(&Stream::absent()), 0);
}

#[test]
fn read_takes_exactly_the_requested_bytes() {
    let c = open_channel();
    let mut stream = Stream::new(vec![1, 2, 3, 4, 5]);
    let mut buffer = vec![0xaa, 0xbb, 0xcc, 0xdd];
    assert_eq!(c.read(&mut stream, &mut buffer, 2), 2);
    assert_eq!(buffer, vec![1, 2]);
    assert_eq!(stream, Stream::new(vec![3, 4, 5]));
    assert_eq!(c.read(&mut stream, &mut buffer, 3), 3);
    assert_eq!(buffer, vec![3, 4, 5]);
    assert_eq!(stream, Stream::new(Vec::new()));
    assert_eq!(c.available(&stream), 0);
}

#[test]
fn read_is_all_or_nothing() {
    let c = open_channel();
    let mut stream = Stream::new(vec![1, 2, 3]);
    let mut buffer = vec![0xaa, 0xbb];
    assert_eq!(c.read(&mut stream, &mut buffer, 4), 0);
    assert_eq!(buffer, vec![0xaa, 0xbb]);
    assert_eq!(stream, Stream::new(vec![1, 2, 3]));
    assert_eq!(c.read(&mut stream, &mut buffer, i32::MAX), 0);
    assert_eq!(buffer, vec![0xaa, 0xbb]);
    assert_eq!(stream, Stream::new(vec![1, 2, 3]));
}

#[test]
fn read_on_a_closed_channel_returns_zero() {
    let c = closed_channel();
    let mut stream = Stream::new(vec![1, 2, 3]);
    let mut buffer = vec![0xaa];
    assert_eq!(c.read(&mut stream, &mut buffer, 2), 0);
    assert_eq!(buffer, vec![0xaa]);
    assert_eq!(stream, Stream::new(vec![1, 2, 3]));
}

#[test]
fn read_without_a_stream_returns_zero() {
    let c = open_channel();
    let mut stream = Stream::absent();
    let mut buffer = vec![0xaa];
    assert_eq!(c.read(&mut stream, &mut buffer, 1), 0);
    assert_eq!(buffer, vec![0xaa]);
    assert_eq!(stream, Stream::absent());
}

#[test]
fn read_of_no_bytes_changes_nothing() {
    let c = open_channel();
    let mut stream = Stream::new(vec![1, 2, 3]);
    let mut buffer = vec![0xaa];
    assert_eq!(c.read(&mut stream, &mut buffer, 0), 0);
    assert_eq!(c.read(&mut stream, &mut buffer, -1), 0);
    assert_eq!(c.read(&mut stream, &mut buffer, i32::MIN), 0);
    assert_eq!(buffer, vec![0xaa]);
    assert_eq!(stream, Stream::new(vec![1, 2, 3]));
}

#[test]
fn copy_leaves_the_stream_untouched() {
    let c = open_channel();
    let stream = Stream::new(vec![1, 2, 3]);
    let mut buffer = Vec::new();
    assert_eq!(c.copy(&stream, &mut buffer, 2), 2);
    assert_eq!(buffer, vec![1, 2]);
    assert_eq!(c.copy(&stream, &mut buffer, 3), 3);
    assert_eq!(buffer, vec![1, 2, 3]);
    assert_eq!(stream, Stream::new(vec![1, 2, 3]));
    assert_eq!(c.available(&stream), 3);
}

#[test]
fn copy_is_all_or_nothing() {
    let stream = Stream::new(vec![1, 2, 3]);
    let mut buffer = vec![0xaa, 0xbb];
    assert_eq!(open_channel().copy(&stream, &mut buffer, 4), 0);
    assert_eq!(closed_channel().copy(&stream, &mut buffer, 1), 0);
    assert_eq!(open_channel().copy(&Stream::absent(), &mut buffer, 1), 0);
    assert_eq!(open_channel().copy(&stream, &mut buffer, 0), 0);
    assert_eq!(open_channel().copy(&stream, &mut buffer, -3), 0);
    assert_eq!(buffer, vec![0xaa, 0xbb]);
}

#[test]
fn stream_pop_and_copy_report_a_status() {
    let mut stream = Stream::new(vec![1, 2, 3]);
    let mut buffer = vec![0xaa];
    assert_ne!(stream.pop(&mut buffer, 4), 0);
    assert_ne!(stream.copy(&mut buffer, 4), 0);
    assert_ne!(stream.pop(&mut buffer, -1), 0);
    assert_eq!(buffer, vec![0xaa]);
    assert_eq!(stream.available(), 3);
    assert_eq!(stream.copy(&mut buffer, 1), 0);
    assert_eq!(buffer, vec![1]);
    assert_eq!(stream.pop(&mut buffer, 0), 0);
    assert_eq!(buffer, Vec::<u8>::new());
    assert_eq!(stream.pop(&mut buffer, 3), 0);
    assert_eq!(buffer, vec![1, 2, 3]);
    assert_eq!(stream.available(), 0);
    assert!(stream.is_present());
    let mut none = Stream::absent();
    assert!(!none.is_present());
    assert_eq!(none.available(), 0);
    assert_ne!(none.pop(&mut buffer, 0), 0);
    assert_ne!(none.copy(&mut buffer, 0), 0);
    assert_eq!(buffer, vec![1, 2, 3]);
}

#[test]
fn push_command_is_for_open_channels_only() {
    let data = vec![5, 6, 7];
    assert_eq!(
        open_channel().push_command(&data),
        Some(Command::Push { channel_ptr: 0x2000, data: vec![5, 6, 7] })
    );
    assert_eq!(
        open_channel().push_command(&Vec::new()),
        Some(Command::Push { channel_ptr: 0x2000, data: Vec::new() })
    );
    assert_eq!(closed_channel().push_command(&data), None);
}

#[test]
fn write_returns_the_length_when_the_push_succeeded() {
    let data = vec![5, 6, 7];
    assert_eq!(open_channel().write(&data, Some(0)), 3);
    assert_eq!(open_channel().write(&Vec::new(), Some(0)), 0);
}

#[test]
fn write_fails_softly() {
    let data = vec![5, 6, 7];
    assert_eq!(closed_channel().write(&data, Some(0)), 0);
    assert_eq!(open_channel().write(&data, None), 0);
    assert_eq!(open_channel().write(&data, Some(1)), 0);
    assert_eq!(open_channel().write(&data, Some(-1)), 0);
}

#[test]
fn addresses_are_those_that_the_native_layer_reports() {
    let c = open_channel();
    assert_eq!(
        c.get_local_address(Some(("127.0.0.1".to_string(), 8080))),
        ("127.0.0.1".to_string(), 8080)
    );
    assert_eq!(
        c.get_peer_address(Some(("10.0.0.9".to_string(), 51000))),
        ("10.0.0.9".to_string(), 51000)
    );
}

#[test]
fn addresses_of_a_closed_channel_are_placeholders() {
    let c = closed_channel();
    assert_eq!(
        c.get_local_address(Some(("127.0.0.1".to_string(), 8080))),
        (String::new(), 0)
    );
    assert_eq!(
        c.get_peer_address(Some(("10.0.0.9".to_string(), 51000))),
        (String::new(), 0)
    );
    assert_eq!(open_channel().get_local_address(None), (String::new(), 0));
    assert_eq!(open_channel().get_peer_address(None), (String::new(), 0));
}
