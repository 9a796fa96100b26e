use hyper_inspect_io::{CountInspect, InspectRead, InspectWrite, Io};
use std::io::{self, IoSlice};
use std::task::Poll;

fn counts(observer: &CountInspect) -> (usize, usize) {
    (observer.bytes_read(), observer.bytes_written())
}

#[test]
fn a_new_observer_has_counted_nothing() {
    assert_eq!(counts(&CountInspect::new()), (0, 0));
}

#[test]
fn reads_and_writes_are_counted_apart() {
    let mut observer = CountInspect::new();
    observer.inspect_read(Ok(b"hello"));
    observer.inspect_read(Ok(b""));
    observer.inspect_write(Ok(b"hi"));
    observer.inspect_read(Ok(b"abc"));
    assert_eq!(counts(&observer), (8, 2));
}

#[test]
fn errors_flushes_and_shutdowns_count_nothing() {
    let error = io::Error::new(io::ErrorKind::Other, "boom");
    let mut observer = CountInspect::new();
    observer.inspect_write(Ok(b"abc"));
    observer.inspect_read(Err(&error));
    observer.inspect_write(Err(&error));
    observer.inspect_flush(Ok(()));
    observer.inspect_flush(Err(&error));
    observer.inspect_shutdown(Ok(()));
    observer.inspect_shutdown(Err(&error));
    observer.inspect_write_vectored(Err(&error));
    assert_eq!(counts(&observer), (0, 3));
}

#[test]
fn a_vectored_write_is_counted_piece_by_piece() {
    let mut observer = CountInspect::new();
    observer.inspect_write_vectored(Ok(&[b"abc", b"", b"de"]));
    assert_eq!(counts(&observer), (0, 5));
    observer.inspect_write_vectored(Ok(&[]));
    assert_eq!(counts(&observer), (0, 5));
}

#[test]
fn through_the_decorator_the_reported_total_is_counted() {
    let bufs = [IoSlice::new(b"abc"), IoSlice::new(b"defgh"), IoSlice::new(b"ij")];
    let mut io = Io::new((), CountInspect::new());
    let _ = io.poll_write(Poll::Ready(Ok(5)), b"hello world");
    assert_eq!(counts(&CountInspect::new()), (0, 0));
    let _ = io.poll_write_vectored(Poll::Ready(Ok(6)), &bufs);
    let _ = io.poll_write_vectored(Poll::Pending, &bufs);
    let _ = io.poll_flush(Poll::Ready(Ok(())));
    let (_, observer) = io.into_parts();
    assert_eq!(counts(&observer), (0, 11));
}

#[test]
fn counting_goes_on_after_the_decoration_is_taken_off() {
    let mut io = Io::new((), CountInspect::new());
    let (_, mut observer) = {
        let _ = io.poll_write(Poll::Ready(Ok(3)), b"abc");
        io.into_parts()
    };
    assert_eq!(observer.bytes_written(), 3);
    observer.inspect_write(Ok(b"d"));
    assert_eq!(observer.bytes_written(), 4);
}
