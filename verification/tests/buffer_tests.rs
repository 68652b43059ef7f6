use cadence::buffer::LineBuffer;

fn bytes(s: &str) -> Vec<u8> {
    s.as_bytes().to_vec()
}

#[test]
fn test_buffer_accumulates_below_capacity() {
    let mut buf = LineBuffer::new(16);
    assert!(buf.is_empty());
    let out = buf.append(&bytes("aaaa"));
    assert!(out.is_empty());
    let out = buf.append(&bytes("bbbb"));
    assert!(out.is_empty());
    assert_eq!(9, buf.len());
    let taken = buf.flush();
    assert_eq!(Some(bytes("aaaa\nbbbb")), taken);
    assert!(buf.is_empty());
    assert_eq!(None, buf.flush());
}

#[test]
fn test_buffer_no_split_and_order() {
    // The line "cc" does not fit behind "aaaa\nbbbb" within 10 bytes, so the
    // pending content goes out whole, and no line is ever split: all the
    // datagrams' lines, followed by what is still pending, are the appended
    // lines in order.
    let mut buf = LineBuffer::new(10);
    let mut sent: Vec<Vec<u8>> = Vec::new();
    for line in ["aaaa", "bbbb", "cc", "dd"] {
        sent.extend(buf.append(&bytes(line)));
    }
    assert_eq!(vec![bytes("aaaa\nbbbb")], sent);
    let pending = buf.flush();
    assert_eq!(Some(bytes("cc\ndd")), pending);
    let mut all: Vec<u8> = Vec::new();
    for d in sent.iter().chain(pending.iter()) {
        if !all.is_empty() {
            all.push(b'\n');
        }
        all.extend_from_slice(d);
    }
    assert_eq!(bytes("aaaa\nbbbb\ncc\ndd"), all);
}

#[test]
fn test_buffer_exact_fill_flushes_at_once() {
    let mut buf = LineBuffer::new(16);
    assert!(buf.append(&bytes("aaaa")).is_empty());
    assert!(buf.append(&bytes("bbbb")).is_empty());
    // 9 pending + 1 separator + 6 == 16: the line fills the buffer exactly,
    // so it is flushed at once and the buffer is left empty.
    let out = buf.append(&bytes("cccccc"));
    assert_eq!(vec![bytes("aaaa\nbbbb\ncccccc")], out);
    assert!(buf.is_empty());
    assert_eq!(0, buf.len());
}

#[test]
fn test_buffer_oversize_line_sent_standalone() {
    let mut buf = LineBuffer::new(8);
    assert!(buf.append(&bytes("aaa")).is_empty());
    // A line longer than the whole capacity: pending content is flushed
    // first, then the oversize line goes out as its own datagram, untouched.
    let out = buf.append(&bytes("bbbbbbbbbb"));
    assert_eq!(vec![bytes("aaa"), bytes("bbbbbbbbbb")], out);
    assert!(buf.is_empty());
}

#[test]
fn test_buffer_oversize_line_when_empty() {
    let mut buf = LineBuffer::new(4);
    let out = buf.append(&bytes("bbbbbb"));
    assert_eq!(vec![bytes("bbbbbb")], out);
    assert!(buf.is_empty());
}
