use eventfold::{hash_window, last_line_hash, line_hash, scan_lines, AppendResult, LineSpan};

fn record(kind: &str) -> Vec<u8> {
    format!("{{\"type\":\"{kind}\",\"data\":{{}},\"ts\":1}}").into_bytes()
}

fn log_of(lines: &[Vec<u8>]) -> Vec<u8> {
    let mut out = Vec::new();
    for l in lines {
        out.extend_from_slice(l);
        out.push(b'\n');
    }
    out
}

#[test]
fn line_hash_of_empty_line_is_xxh64_seed_zero() {
    assert_eq!(line_hash(b""), "ef46db3751d8e999");
}

#[test]
fn line_hash_is_sixteen_lowercase_hex_digits() {
    let h = line_hash(b"{\"type\":\"click\"}");
    assert_eq!(h.len(), 16);
    assert!(h.chars().all(|c| c.is_ascii_digit() || ('a'..='f').contains(&c)));
}

#[test]
fn line_hash_same_bytes_same_hash() {
    let a = record("click");
    let b = record("click");
    assert_eq!(line_hash(&a), line_hash(&b));
}

#[test]
fn line_hash_different_bytes_different_hash() {
    assert_ne!(line_hash(&record("click")), line_hash(&record("clack")));
    assert_ne!(line_hash(b"a"), line_hash(b"b"));
}

#[test]
fn append_and_read_one_line() {
    let line = record("click");
    let r = AppendResult::for_line(0, &line).unwrap();
    assert_eq!(r.start_offset, 0);
    assert_eq!(r.end_offset, line.len() as u64 + 1);
    assert_eq!(r.line_hash, line_hash(&line));
    let buf = log_of(&[line.clone()]);
    let spans = scan_lines(&buf, 0);
    assert_eq!(spans.len(), 1);
    assert_eq!(spans[0], LineSpan { start: 0, end: line.len() as u64 });
    assert_eq!(spans[0].next_offset(), r.end_offset);
}

#[test]
fn append_result_refuses_embedded_newline() {
    assert!(AppendResult::for_line(0, b"{\"a\":1}\n{\"b\":2}").is_none());
}

#[test]
fn append_result_refuses_offset_overflow() {
    assert!(AppendResult::for_line(u64::MAX - 3, b"abc").is_none());
    assert!(AppendResult::for_line(u64::MAX - 4, b"abc").is_some());
}

#[test]
fn append_result_at_nonzero_offset() {
    let r = AppendResult::for_line(100, b"abcd").unwrap();
    assert_eq!(r.start_offset, 100);
    assert_eq!(r.end_offset, 105);
}

#[test]
fn crash_mid_write_three_lines_and_partial() {
    let lines = vec![record("a"), record("b"), record("c")];
    let mut buf = log_of(&lines);
    let complete_len = buf.len() as u64;
    buf.extend_from_slice(b"{\"type\":\"partial\"");
    let spans = scan_lines(&buf, 0);
    assert_eq!(spans.len(), 3);
    assert_eq!(spans[2].next_offset(), complete_len);
    // A later append lands after the partial bytes and is the fourth line.
    let appended = record("d");
    let start = buf.len() as u64;
    buf.extend_from_slice(&appended);
    buf.push(b'\n');
    let after = scan_lines(&buf, 0);
    assert_eq!(after.len(), 4);
    assert_eq!(after[3].end, start + appended.len() as u64);
}

#[test]
fn partial_tail_every_prefix_is_ignored() {
    let lines = vec![record("a"), record("b")];
    let next = record("c");
    for cut in 0..next.len() {
        let mut buf = log_of(&lines);
        buf.extend_from_slice(&next[..cut]);
        assert_eq!(scan_lines(&buf, 0).len(), 2);
    }
}

#[test]
fn empty_lines_are_skipped() {
    let buf = b"\n\nabc\n\ndef\n".to_vec();
    let spans = scan_lines(&buf, 0);
    assert_eq!(spans, vec![LineSpan { start: 2, end: 5 }, LineSpan { start: 7, end: 10 }]);
}

#[test]
fn scan_from_an_offset_reports_log_offsets() {
    let buf = b"abc\nde\n".to_vec();
    let spans = scan_lines(&buf, 40);
    assert_eq!(spans, vec![LineSpan { start: 40, end: 43 }, LineSpan { start: 44, end: 46 }]);
    assert_eq!(spans[1].next_offset(), 47);
}

#[test]
fn scan_of_empty_buffer_is_empty() {
    assert!(scan_lines(b"", 0).is_empty());
    assert!(scan_lines(b"no terminator", 0).is_empty());
}

#[test]
fn hash_window_none_at_zero_or_past_end() {
    assert_eq!(hash_window(0, 10), None);
    assert_eq!(hash_window(11, 10), None);
    assert_eq!(hash_window(10, 10), Some((0, 9)));
}

#[test]
fn hash_window_reaches_back_eight_kib() {
    assert_eq!(hash_window(10_000, 20_000), Some((10_000 - 1 - 8192, 9_999)));
    assert_eq!(hash_window(8193, 9000), Some((0, 8192)));
    assert_eq!(hash_window(8194, 9000), Some((1, 8193)));
}

#[test]
fn last_line_hash_finds_the_line_before_the_terminator() {
    let buf = log_of(&[record("a"), record("b")]);
    let offset = buf.len() as u64;
    let (from, to) = hash_window(offset, buf.len() as u64).unwrap();
    let h = last_line_hash(&buf[from as usize..to as usize]);
    assert_eq!(h, line_hash(&record("b")));
}

#[test]
fn last_line_hash_of_first_line() {
    let buf = log_of(&[record("a")]);
    let (from, to) = hash_window(buf.len() as u64, buf.len() as u64).unwrap();
    assert_eq!(last_line_hash(&buf[from as usize..to as usize]), line_hash(&record("a")));
}

#[test]
fn full_history_in_append_order_across_rotation() {
    // Lines 1..3 were sealed into the archive; 4..5 are in the active log.
    let all: Vec<Vec<u8>> = (1..=5).map(|i| record(&format!("e{i}"))).collect();
    let archive = log_of(&all[..3]);
    let active = log_of(&all[3..]);
    let mut seen = Vec::new();
    for buf in [&archive, &active] {
        for s in scan_lines(buf, 0) {
            seen.push(buf[s.start as usize..s.end as usize].to_vec());
        }
    }
    assert_eq!(seen, all);
    // Without the rotation the same lines come out of one stream.
    let single = log_of(&all);
    let spans = scan_lines(&single, 0);
    let lines: Vec<Vec<u8>> =
        spans.iter().map(|s| single[s.start as usize..s.end as usize].to_vec()).collect();
    assert_eq!(lines, all);
}
