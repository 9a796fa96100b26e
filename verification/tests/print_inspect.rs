use hyper_inspect_io::print_inspect::{decimal, render, total_len, Line};
use hyper_inspect_io::{InspectRead, InspectWrite, Io, PrintInspect};
use std::io::{self, IoSlice};
use std::task::Poll;

fn out(text: &str) -> (bool, String) {
    (false, text.to_string())
}

fn err(text: &str) -> (bool, String) {
    (true, text.to_string())
}

fn shapes(lines: Vec<Line>) -> Vec<(bool, String)> {
    lines
        .into_iter()
        .map(|line| match line {
            Line::Stdout(text) => (false, text),
            Line::Stderr(text) => (true, text),
        })
        .collect()
}

#[test]
fn decimal_numerals() {
    assert_eq!(decimal(0), "0");
    assert_eq!(decimal(7), "7");
    assert_eq!(decimal(10), "10");
    assert_eq!(decimal(1234567890), "1234567890");
    assert_eq!(decimal(usize::MAX), usize::MAX.to_string());
}

#[test]
fn render_each_kind_of_line() {
    assert_eq!(shapes(vec![render("flush", Ok(None))]), vec![out("flush")]);
    assert_eq!(shapes(vec![render("read", Ok(Some(42)))]), vec![out("read: 42")]);
    let error = io::Error::new(io::ErrorKind::Other, "boom");
    assert_eq!(shapes(vec![render("write", Err(&error))]), vec![err("write: boom")]);
}

#[test]
fn total_len_adds_up() {
    assert_eq!(total_len(&[]), 0);
    assert_eq!(total_len(&[b"abc", b"", b"de"]), 5);
}

#[test]
fn every_hook_queues_its_line() {
    let mut observer = PrintInspect::new();
    observer.inspect_read(Ok(b"hello"));
    observer.inspect_write(Ok(b"hi"));
    observer.inspect_flush(Ok(()));
    observer.inspect_shutdown(Ok(()));
    observer.inspect_write_vectored(Ok(&[b"abc", b"def"]));
    assert_eq!(
        shapes(observer.take_lines()),
        vec![
            out("read: 5"),
            out("write: 2"),
            out("flush"),
            out("shutdown"),
            out("write_vectored: 6"),
        ]
    );
    assert!(observer.take_lines().is_empty());
}

#[test]
fn errors_go_to_the_standard_error() {
    let error = io::Error::new(io::ErrorKind::Other, "boom");
    let mut observer = PrintInspect::new();
    observer.inspect_read(Err(&error));
    observer.inspect_write(Err(&error));
    observer.inspect_flush(Err(&error));
    observer.inspect_shutdown(Err(&error));
    observer.inspect_write_vectored(Err(&error));
    assert_eq!(
        shapes(observer.take_lines()),
        vec![
            err("read: boom"),
            err("write: boom"),
            err("flush: boom"),
            err("shutdown: boom"),
            err("write_vectored: boom"),
        ]
    );
}

#[test]
fn close_ends_with_drop() {
    let mut observer = PrintInspect::new();
    observer.inspect_flush(Ok(()));
    assert_eq!(shapes(observer.close()), vec![out("flush"), out("drop")]);
    assert_eq!(shapes(PrintInspect::new().close()), vec![out("drop")]);
}

#[test]
fn through_the_decorator() {
    let bufs = [IoSlice::new(b"abc"), IoSlice::new(b"defgh"), IoSlice::new(b"ij")];
    let mut io = Io::new((), PrintInspect::new());
    let _ = io.poll_write(Poll::Ready(Ok(4)), b"hello world");
    let _ = io.poll_write_vectored(Poll::Ready(Ok(6)), &bufs);
    let _ = io.poll_flush(Poll::Pending);
    let (_, observer) = io.into_parts();
    assert_eq!(
        shapes(observer.close()),
        vec![out("write: 4"), out("write_vectored: 6"), out("drop")]
    );
}
