use ollama_core::frame::LineFramer;

#[test]
fn lines_split_across_chunks_are_reassembled() {
    let mut f = LineFramer::new();
    assert!(f.push("hel").is_empty());
    assert_eq!(f.push("lo\nwor"), vec!["hello".to_string()]);
    assert_eq!(f.push("ld\n"), vec!["world".to_string()]);
}

#[test]
fn several_lines_in_one_chunk_come_out_in_order() {
    let mut f = LineFramer::new();
    assert_eq!(f.push("x\ny\nz"), vec!["x".to_string(), "y".to_string()]);
    // "z" is still pending; its newline completes it.
    assert_eq!(f.push("\n"), vec!["z".to_string()]);
}

#[test]
fn carriage_returns_are_stripped_from_line_ends() {
    let mut f = LineFramer::new();
    assert_eq!(f.push("a\r\nb\n"), vec!["a".to_string(), "b".to_string()]);
}

#[test]
fn empty_lines_are_kept() {
    let mut f = LineFramer::new();
    assert_eq!(f.push("\n\n"), vec!["".to_string(), "".to_string()]);
}

#[test]
fn a_trailing_partial_line_is_never_emitted() {
    let mut f = LineFramer::new();
    assert_eq!(f.push("done\npartial"), vec!["done".to_string()]);
    // Stream ends here: the partial line stays unobserved, as the relay
    // discards a final line with no newline.
    assert!(f.push("").is_empty());
}
