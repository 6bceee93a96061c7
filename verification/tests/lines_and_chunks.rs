use combatlog::chunk::bytes_to_read;
use combatlog::chunk::chunk_of;
use combatlog::chunk::MAX_CHUNK_BYTES;
use combatlog::chunk::MAX_CHUNK_LINES;
use combatlog::lines::lines_of_text;
use combatlog::lines::split_lines;
use combatlog::lines::LineBuffer;

#[test]
fn complete_lines_are_split_off() {
    let (lines, used) = split_lines(b"one\r\ntwo\n\nthr", 10);
    assert_eq!(lines, vec!["one", "two", ""]);
    assert_eq!(used, 10);
}

#[test]
fn the_limit_holds() {
    let (lines, used) = split_lines(b"a\nb\nc\n", 2);
    assert_eq!(lines, vec!["a", "b"]);
    assert_eq!(used, 4);
    let (none, zero) = split_lines(b"a\n", 0);
    assert!(none.is_empty());
    assert_eq!(zero, 0);
}

#[test]
fn only_one_carriage_return_goes() {
    let (lines, _) = split_lines(b"a\r\r\n\r\n", 9);
    assert_eq!(lines, vec!["a\r", ""]);
}

#[test]
fn bad_bytes_are_replaced() {
    let (lines, _) = split_lines(b"a\xffb\n\xc3\xa4\n", 9);
    assert_eq!(lines, vec!["a\u{fffd}b", "\u{e4}"]);
}

#[test]
fn pieces_give_the_same_lines() {
    let all = b"first\r\nsecond\nthird\nrest";
    for cut in 0..all.len() {
        let mut buffer = LineBuffer::new();
        let mut got = buffer.feed(&all[..cut]);
        got.extend(buffer.feed(&all[cut..]));
        assert_eq!(got, vec!["first", "second", "third"]);
        assert_eq!(buffer.feed(b"!\n"), vec!["rest!"]);
    }
}

#[test]
fn text_is_split_as_std_does() {
    for raw in ["", "a", "a\n", "a\r\nb", "\n\n", "a\rb\n", "x\r", "\r\n", "a\n\r"] {
        let want: Vec<String> = raw.lines().map(|s| s.to_string()).collect();
        assert_eq!(lines_of_text(raw), want, "{:?}", raw);
    }
}

#[test]
fn reads_are_bounded() {
    assert_eq!(bytes_to_read(0, 0), 0);
    assert_eq!(bytes_to_read(10, 10), 0);
    assert_eq!(bytes_to_read(10, 3), 0);
    assert_eq!(bytes_to_read(10, 17), 7);
    assert_eq!(bytes_to_read(0, MAX_CHUNK_BYTES + 1), 8 * 1024 * 1024);
}

#[test]
fn a_chunk_ends_past_a_line_feed() {
    let chunk = chunk_of(b"x\ny\nhalf", 100, 108);
    assert_eq!(chunk.lines, vec!["x", "y"]);
    assert_eq!(chunk.new_offset, 104);
    assert_eq!(chunk.file_size, 108);
}

#[test]
fn an_untouched_file_gives_nothing() {
    let chunk = chunk_of(b"", 100, 40);
    assert!(chunk.lines.is_empty());
    assert_eq!(chunk.new_offset, 100);
    assert_eq!(chunk.file_size, 40);
}

#[test]
fn reading_in_pieces_loses_no_line() {
    let mut file = Vec::new();
    let mut want = Vec::new();
    for i in 0..MAX_CHUNK_LINES + 1200 {
        want.push(format!("line {i}"));
        file.extend_from_slice(format!("line {i}\r\n").as_bytes());
    }
    file.extend_from_slice(b"unfinished");
    let size = file.len() as u64;
    let mut offset = 0u64;
    let mut got = Vec::new();
    loop {
        let n = (bytes_to_read(offset, size) as usize).min(20_011);
        let from = offset as usize;
        let chunk = chunk_of(&file[from..from + n], offset, size);
        if chunk.lines.is_empty() {
            break;
        }
        assert!(chunk.lines.len() <= MAX_CHUNK_LINES);
        assert_eq!(file[chunk.new_offset as usize - 1], b'\n');
        offset = chunk.new_offset;
        got.extend(chunk.lines);
    }
    assert_eq!(got, want);
    assert_eq!(&file[offset as usize..], b"unfinished");
}
