use stdout_channel::{Buffer, MAX_BUFFER_CAPACITY};

#[test]
fn test_write_line_appends_newline() {
    let mut buf = Buffer::new();
    assert_eq!(buf.write_line("abc").as_slice(), b"abc\n");
}

#[test]
fn test_write_line_empty() {
    let mut buf = Buffer::new();
    assert_eq!(buf.write_line("").as_slice(), b"\n");
}

#[test]
fn test_write_line_overwrites_previous() {
    let mut buf = Buffer::new();
    buf.write_line("a much longer first line");
    assert_eq!(buf.write_line("short").as_slice(), b"short\n");
}

#[test]
fn test_write_line_utf8() {
    let mut buf = Buffer::new();
    assert_eq!(buf.write_line("héllo wörld").as_slice(), "héllo wörld\n".as_bytes());
}

#[test]
fn test_write_line_large() {
    let big = "x".repeat(3 * MAX_BUFFER_CAPACITY);
    let mut buf = Buffer::new();
    let out = buf.write_line(big.as_str());
    assert_eq!(out.len(), 3 * MAX_BUFFER_CAPACITY + 1);
    assert_eq!(out[out.len() - 1], b'\n');
    assert!(out[..out.len() - 1].iter().all(|&b| b == b'x'));
}

#[test]
fn test_capacity_capped_after_large_line() {
    let big = "y".repeat(3 * MAX_BUFFER_CAPACITY);
    let mut buf = Buffer::new();
    buf.write_line(big.as_str());
    assert!(buf.capacity() > MAX_BUFFER_CAPACITY);
    assert_eq!(buf.write_line("tiny").as_slice(), b"tiny\n");
    assert!(buf.capacity() <= MAX_BUFFER_CAPACITY);
}
