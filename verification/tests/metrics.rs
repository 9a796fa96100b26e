use hyper::rt::ReadBuf;
use hyper_inspect_io::metrics::{Meter, Metered};
use hyper_inspect_io::{CountInspect, Io};
use std::collections::VecDeque;
use std::io::{self, IoSlice};
use std::task::Poll;

fn counts(meter: &Meter) -> (u64, u64, u64, u64) {
    (meter.established(), meter.closed(), meter.bytes_read(), meter.bytes_written())
}

fn filled_with<'a>(raw: &'a mut [u8], bytes: &[u8]) -> ReadBuf<'a> {
    let mut buf = ReadBuf::new(raw);
    buf.unfilled().put_slice(bytes);
    buf
}

#[test]
fn a_new_connection_is_established_once() {
    let meter = Meter::open();
    assert_eq!(counts(&meter), (1, 0, 0, 0));
}

#[test]
fn reads_count_what_was_filled_in() {
    let mut raw = [0u8; 32];
    let mut meter = Meter::open();
    let (polled, advance) = meter.read(Poll::Ready(Ok(())), &filled_with(&mut raw, b"hello"));
    assert!(matches!(polled, Poll::Ready(Ok(()))));
    assert_eq!(advance, 5);
    let (_, advance) = meter.read(Poll::Ready(Ok(())), &filled_with(&mut raw, b"abc"));
    assert_eq!(advance, 3);
    assert_eq!(counts(&meter), (1, 0, 8, 0));
}

#[test]
fn end_of_stream_counts_nothing() {
    let mut raw = [0u8; 32];
    let mut meter = Meter::open();
    let (polled, advance) = meter.read(Poll::Ready(Ok(())), &filled_with(&mut raw, b""));
    assert!(matches!(polled, Poll::Ready(Ok(()))));
    assert_eq!(advance, 0);
    assert_eq!(counts(&meter), (1, 0, 0, 0));
}

#[test]
fn pending_and_failed_polls_count_nothing() {
    let mut raw = [0u8; 32];
    let mut meter = Meter::open();
    let buf = filled_with(&mut raw, b"stale");
    let (polled, advance) = meter.read(Poll::Pending, &buf);
    assert!(matches!(polled, Poll::Pending));
    assert_eq!(advance, 0);
    let error = io::Error::new(io::ErrorKind::ConnectionReset, "reset");
    let (polled, advance) = meter.read(Poll::Ready(Err(error)), &buf);
    assert!(matches!(polled, Poll::Ready(Err(ref e)) if e.kind() == io::ErrorKind::ConnectionReset));
    assert_eq!(advance, 0);
    assert!(matches!(meter.write(Poll::Pending), Poll::Pending));
    let error = io::Error::new(io::ErrorKind::BrokenPipe, "gone");
    assert!(matches!(
        meter.write(Poll::Ready(Err(error))),
        Poll::Ready(Err(ref e)) if e.kind() == io::ErrorKind::BrokenPipe
    ));
    assert!(matches!(meter.write_vectored(Poll::Pending), Poll::Pending));
    assert_eq!(counts(&meter), (1, 0, 0, 0));
}

#[test]
fn writes_count_the_reported_length() {
    let mut meter = Meter::open();
    assert!(matches!(meter.write(Poll::Ready(Ok(4))), Poll::Ready(Ok(4))));
    assert!(matches!(meter.write_vectored(Poll::Ready(Ok(6))), Poll::Ready(Ok(6))));
    assert!(matches!(meter.write(Poll::Ready(Ok(0))), Poll::Ready(Ok(0))));
    assert_eq!(counts(&meter), (1, 0, 0, 10));
}

#[test]
fn flush_and_shutdown_move_no_counter() {
    let mut meter = Meter::open();
    assert!(matches!(meter.flush(Poll::Ready(Ok(()))), Poll::Ready(Ok(()))));
    assert!(matches!(meter.flush(Poll::Pending), Poll::Pending));
    assert!(matches!(meter.shutdown(Poll::Ready(Ok(()))), Poll::Ready(Ok(()))));
    let error = io::Error::new(io::ErrorKind::NotConnected, "closed");
    assert!(matches!(
        meter.shutdown(Poll::Ready(Err(error))),
        Poll::Ready(Err(ref e)) if e.kind() == io::ErrorKind::NotConnected
    ));
    assert_eq!(counts(&meter), (1, 0, 0, 0));
}

#[test]
fn teardown_counts_once_however_often() {
    let mut meter = Meter::open();
    let _ = meter.write(Poll::Ready(Ok(3)));
    meter.teardown();
    assert_eq!(counts(&meter), (1, 1, 0, 3));
    meter.teardown();
    meter.teardown();
    assert_eq!(counts(&meter), (1, 1, 0, 3));
}

#[test]
fn teardown_right_after_connect() {
    let mut meter = Meter::open();
    meter.teardown();
    assert_eq!(counts(&meter), (1, 1, 0, 0));
}

#[test]
fn byte_counters_stop_at_the_top() {
    let mut meter = Meter::open();
    let _ = meter.write(Poll::Ready(Ok(usize::MAX)));
    let _ = meter.write(Poll::Ready(Ok(usize::MAX)));
    let expected = (usize::MAX as u128 * 2).min(u64::MAX as u128) as u64;
    assert_eq!(meter.bytes_written(), expected);
    let _ = meter.write(Poll::Ready(Ok(1)));
    assert_eq!(meter.bytes_written(), expected.saturating_add(1));
}

#[test]
fn connect_labels_the_stream_once() {
    let mut calls = 0;
    let made = Metered::connect(Ok::<_, io::Error>(String::from("peer:443")), |stream: &String| {
        calls += 1;
        stream.len()
    });
    let (metered, labels) = made.unwrap();
    assert_eq!(labels, 8);
    assert_eq!(calls, 1);
    assert_eq!(metered.get_ref(), "peer:443");
    assert_eq!(counts(metered.meter()), (1, 0, 0, 0));
}

#[test]
fn a_failed_connect_labels_and_counts_nothing() {
    let mut calls = 0;
    let failed: Result<String, io::Error> =
        Err(io::Error::new(io::ErrorKind::ConnectionRefused, "refused"));
    let made = Metered::connect(failed, |_stream: &String| {
        calls += 1;
    });
    assert_eq!(made.err().map(|error| error.kind()), Some(io::ErrorKind::ConnectionRefused));
    assert_eq!(calls, 0);
}

#[test]
fn a_metered_stream_counts_and_closes() {
    let mut raw = [0u8; 16];
    let (mut metered, ()) =
        Metered::connect(Ok::<_, io::Error>(vec![0u8]), |_stream: &Vec<u8>| ()).unwrap();
    metered.get_mut().push(1);
    let (_, advance) = metered.poll_read(Poll::Ready(Ok(())), &filled_with(&mut raw, b"abcd"));
    assert_eq!(advance, 4);
    assert!(matches!(metered.poll_write(Poll::Ready(Ok(2))), Poll::Ready(Ok(2))));
    assert!(matches!(metered.poll_write_vectored(Poll::Ready(Ok(7))), Poll::Ready(Ok(7))));
    assert!(matches!(metered.poll_flush(Poll::Ready(Ok(()))), Poll::Ready(Ok(()))));
    assert!(matches!(metered.poll_shutdown(Poll::Pending), Poll::Pending));
    assert_eq!(counts(metered.meter()), (1, 0, 4, 9));
    let (stream, meter) = metered.close();
    assert_eq!(stream, vec![0u8, 1]);
    assert_eq!(counts(&meter), (1, 1, 4, 9));
}

#[test]
fn into_parts_does_not_close() {
    let (metered, ()) = Metered::connect(Ok::<_, io::Error>(9u8), |_stream: &u8| ()).unwrap();
    let (stream, meter) = metered.into_parts();
    assert_eq!(stream, 9);
    assert_eq!(counts(&meter), (1, 0, 0, 0));
}

/// One direction of a connection: what one end has written and the other has
/// not read yet.
#[derive(Default)]
struct Wire {
    bytes: VecDeque<u8>,
}

impl Wire {
    /// Takes at most `most` bytes of `buf` and says how many.
    fn accept(&mut self, buf: &[u8], most: usize) -> usize {
        let len = buf.len().min(most);
        self.bytes.extend(&buf[..len]);
        len
    }

    /// Hands out at most `most` bytes.
    fn deliver(&mut self, most: usize) -> Vec<u8> {
        let len = self.bytes.len().min(most);
        self.bytes.drain(..len).collect()
    }
}

fn send_all(meter: &mut Meter, wire: &mut Wire, message: &[u8], chunk: usize) {
    let mut rest = message;
    while !rest.is_empty() {
        let len = wire.accept(rest, chunk);
        match meter.write(Poll::Ready(Ok(len))) {
            Poll::Ready(Ok(written)) => rest = &rest[written..],
            other => panic!("write did not complete: {:?}", other),
        }
    }
}

fn receive_all(meter: &mut Meter, wire: &mut Wire, chunk: usize) -> Vec<u8> {
    let mut message = Vec::new();
    loop {
        let bytes = wire.deliver(chunk);
        let mut raw = [0u8; 64];
        let (polled, advance) = meter.read(Poll::Ready(Ok(())), &filled_with(&mut raw, &bytes));
        assert!(matches!(polled, Poll::Ready(Ok(()))));
        assert_eq!(advance, bytes.len());
        if advance == 0 {
            return message;
        }
        message.extend(bytes);
    }
}

#[test]
fn both_ends_of_a_connection_agree() {
    const REQUEST: &[u8] = b"GET / HTTP/1.1\r\nhost: localhost\r\n\r\n";
    const BODY: &[u8] = b"hello world";
    let mut response = b"HTTP/1.1 200 OK\r\ncontent-length: 11\r\n\r\n".to_vec();
    response.extend(BODY);

    let mut client = Meter::open();
    let mut server = Meter::open();
    let mut upstream = Wire::default();
    let mut downstream = Wire::default();

    send_all(&mut client, &mut upstream, REQUEST, 7);
    assert_eq!(receive_all(&mut server, &mut upstream, 5), REQUEST);
    send_all(&mut server, &mut downstream, &response, 16);
    assert_eq!(receive_all(&mut client, &mut downstream, 9), response);
    client.teardown();
    server.teardown();

    assert!(server.bytes_read() > 0);
    assert!(server.bytes_written() > BODY.len() as u64);
    assert!(client.bytes_read() > BODY.len() as u64);
    assert!(client.bytes_written() > 0);
    assert_eq!(server.bytes_read(), client.bytes_written());
    assert_eq!(server.bytes_written(), client.bytes_read());
    assert_eq!(client.bytes_written(), REQUEST.len() as u64);
    assert_eq!(client.bytes_read(), response.len() as u64);
    assert_eq!((client.established(), client.closed()), (1, 1));
    assert_eq!((server.established(), server.closed()), (1, 1));
}

#[test]
fn observers_on_both_ends_agree() {
    const BODY: &[u8] = b"hello world";
    let head = b"HTTP/1.1 200 OK\r\ncontent-length: 11\r\n\r\n";
    let request = b"GET / HTTP/1.1\r\n\r\n";

    let mut client = Io::new(Wire::default(), CountInspect::new());
    let mut server = Io::new(Wire::default(), CountInspect::new());

    // The client writes the request into the server's wire, in two polls.
    let len = server.get_mut().accept(request, 10);
    let _ = client.poll_write(Poll::Ready(Ok(len)), request);
    let rest = &request[len..];
    let len = server.get_mut().accept(rest, 100);
    let _ = client.poll_write(Poll::Ready(Ok(len)), rest);
    let _ = client.poll_flush(Poll::Ready(Ok(())));

    // The server reads it, in small pieces, up to the end of what is there.
    loop {
        let bytes = server.get_mut().deliver(4);
        let mut raw = [0u8; 32];
        let (_, advance) = server.poll_read(Poll::Ready(Ok(())), &filled_with(&mut raw, &bytes));
        if advance == 0 {
            break;
        }
    }

    // The server answers with one vectored write that goes out in two polls.
    let bufs = [IoSlice::new(head), IoSlice::new(BODY)];
    let total = head.len() + BODY.len();
    let first = head.len() + 3;
    client.get_mut().accept(head, head.len());
    client.get_mut().accept(BODY, 3);
    let _ = server.poll_write_vectored(Poll::Ready(Ok(first)), &bufs);
    let rest = [IoSlice::new(&BODY[3..])];
    client.get_mut().accept(&BODY[3..], 100);
    let _ = server.poll_write_vectored(Poll::Ready(Ok(total - first)), &rest);

    // The client reads the answer.
    loop {
        let bytes = client.get_mut().deliver(16);
        let mut raw = [0u8; 32];
        let (_, advance) = client.poll_read(Poll::Ready(Ok(())), &filled_with(&mut raw, &bytes));
        if advance == 0 {
            break;
        }
    }

    let (_, client) = client.into_parts();
    let (_, server) = server.into_parts();
    assert!(server.bytes_read() > 0);
    assert!(server.bytes_written() > BODY.len());
    assert!(client.bytes_read() > BODY.len());
    assert!(client.bytes_written() > 0);
    assert_eq!(server.bytes_read(), client.bytes_written());
    assert_eq!(server.bytes_written(), client.bytes_read());
    assert_eq!(client.bytes_written(), request.len());
    assert_eq!(server.bytes_written(), head.len() + BODY.len());
}
