use llama_interactive::decode::{decode_output, MAX_OUTPUT_BUFFER_SIZE};

#[test]
fn decodes_reported_bytes() {
    let mut buffer = vec![0u8; MAX_OUTPUT_BUFFER_SIZE];
    buffer[..5].copy_from_slice(b"hello");
    assert_eq!(decode_output(&buffer, 5), "hello");
}

#[test]
fn nothing_reported_is_empty() {
    let buffer = vec![b'x'; 16];
    assert_eq!(decode_output(&buffer, 0), "");
}

#[test]
fn cap_is_twenty_four_kib() {
    assert_eq!(MAX_OUTPUT_BUFFER_SIZE, 24576);
}

#[test]
fn bytes_beyond_cap_are_dropped() {
    let buffer = vec![b'a'; MAX_OUTPUT_BUFFER_SIZE + 10];
    let text = decode_output(&buffer, MAX_OUTPUT_BUFFER_SIZE + 10);
    assert_eq!(text.len(), MAX_OUTPUT_BUFFER_SIZE);
}

#[test]
fn cut_inside_a_character_is_lossy() {
    let mut buffer = vec![b'a'; MAX_OUTPUT_BUFFER_SIZE + 1];
    buffer[MAX_OUTPUT_BUFFER_SIZE - 2] = 0xE2;
    buffer[MAX_OUTPUT_BUFFER_SIZE - 1] = 0x82;
    buffer[MAX_OUTPUT_BUFFER_SIZE] = 0xAC;
    let text = decode_output(&buffer, MAX_OUTPUT_BUFFER_SIZE + 1);
    assert!(text.ends_with('\u{FFFD}'));
    assert!(!text.contains('\u{20AC}'));
    assert_eq!(text.chars().filter(|c| *c == 'a').count(), MAX_OUTPUT_BUFFER_SIZE - 2);
}

#[test]
fn report_past_buffer_reads_the_buffer() {
    let buffer = b"abc".to_vec();
    assert_eq!(decode_output(&buffer, 10), "abc");
}

#[test]
fn multibyte_text_is_kept() {
    let buffer = "h\u{E9}llo \u{20AC}".as_bytes().to_vec();
    assert_eq!(decode_output(&buffer, buffer.len()), "h\u{E9}llo \u{20AC}");
}

#[test]
fn full_buffer_of_ascii_is_kept_whole() {
    let buffer = vec![b'a'; MAX_OUTPUT_BUFFER_SIZE];
    assert_eq!(decode_output(&buffer, 30000), "a".repeat(MAX_OUTPUT_BUFFER_SIZE));
}
