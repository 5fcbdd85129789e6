use ollama_session::LineAssembler;

fn feed_chunks(chunks: &[&[u8]]) -> Vec<String> {
    let mut a = LineAssembler::new();
    let mut out = Vec::new();
    for c in chunks {
        if let Some(line) = a.feed(c) {
            out.push(line);
        }
    }
    out
}

#[test]
fn whole_line_in_one_chunk() {
    let mut a = LineAssembler::new();
    assert_eq!(a.feed(b"hello\n"), Some("hello\n".to_string()));
    assert!(a.pending().is_empty());
}

#[test]
fn line_without_terminator_is_held_back() {
    let mut a = LineAssembler::new();
    assert_eq!(a.feed(b"hel"), None);
    assert_eq!(a.pending(), b"hel");
    assert_eq!(a.feed(b"lo"), None);
    assert_eq!(a.feed(b"\n"), Some("hello\n".to_string()));
    assert!(a.pending().is_empty());
}

#[test]
fn empty_chunk_changes_nothing() {
    let mut a = LineAssembler::new();
    assert_eq!(a.feed(b""), None);
    assert_eq!(a.feed(b"ab"), None);
    assert_eq!(a.feed(b""), None);
    assert_eq!(a.pending(), b"ab");
}

#[test]
fn multibyte_line_split_at_every_position() {
    let line = "h\u{e9}llo \u{20ac} \u{1f600}\n".as_bytes();
    let whole = feed_chunks(&[line]);
    assert_eq!(whole, vec!["h\u{e9}llo \u{20ac} \u{1f600}\n".to_string()]);
    for i in 0..=line.len() {
        let (a, b) = line.split_at(i);
        assert_eq!(feed_chunks(&[a, b]), whole);
    }
    for i in 0..=line.len() {
        for j in i..=line.len() {
            assert_eq!(feed_chunks(&[&line[..i], &line[i..j], &line[j..]]), whole);
        }
    }
}

#[test]
fn byte_by_byte_feeding_gives_the_same_line() {
    let line = "\u{3053}\u{3093}\u{306b}\u{3061}\u{306f}\n".as_bytes();
    let chunks: Vec<&[u8]> = line.chunks(1).collect();
    assert_eq!(feed_chunks(&chunks), feed_chunks(&[line]));
}

#[test]
fn invalid_bytes_stall_the_line() {
    let mut a = LineAssembler::new();
    assert_eq!(a.feed(&[0xff, b'a', b'\n']), None);
    assert_eq!(a.feed(b"more\n"), None);
    assert_eq!(a.pending(), &[0xff, b'a', b'\n', b'm', b'o', b'r', b'e', b'\n']);
}

#[test]
fn consecutive_lines_start_afresh() {
    let mut a = LineAssembler::new();
    assert_eq!(a.feed(b"one\n"), Some("one\n".to_string()));
    assert_eq!(a.feed(b"tw"), None);
    assert_eq!(a.feed(b"o\n"), Some("two\n".to_string()));
}
