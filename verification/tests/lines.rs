use esp8266::text::Line;

#[test]
fn text_becomes_a_line() {
    let line = Line::from_text("AT+CIPSTA_CUR?").unwrap();
    assert_eq!(line.as_bytes(), b"AT+CIPSTA_CUR?");
}

#[test]
fn text_of_full_capacity_becomes_a_line() {
    let text = "x".repeat(128);
    assert_eq!(Line::from_text(&text).unwrap().as_bytes(), text.as_bytes());
}

#[test]
fn text_beyond_the_capacity_is_refused() {
    assert!(Line::from_text(&"x".repeat(129)).is_none());
    // Two bytes for each character.
    assert!(Line::from_text(&"\u{e9}".repeat(64)).is_some());
    assert!(Line::from_text(&"\u{e9}".repeat(65)).is_none());
}

#[test]
fn commands_are_terminated() {
    let line = Line::from_text("AT+CIPCLOSE=1").unwrap().terminate();
    assert_eq!(line.as_bytes(), b"AT+CIPCLOSE=1\r\n");
}

#[test]
fn the_end_of_a_line_takes_the_last_two_bytes() {
    let line = Line::from_text(&"x".repeat(126)).unwrap().terminate();
    assert_eq!(line.as_bytes().len(), 128);
    assert!(line.as_bytes().ends_with(b"x\r\n"));
}

#[test]
fn a_command_without_room_for_the_end_stays_as_it_is() {
    for n in [127, 128] {
        let text = "x".repeat(n);
        let line = Line::from_text(&text).unwrap().terminate();
        assert_eq!(line.as_bytes(), text.as_bytes());
    }
}

#[test]
fn payloads_are_kept_byte_by_byte() {
    let bytes = "GET / \u{20ac}\r\n".as_bytes();
    assert_eq!(Line::from_payload(bytes).unwrap().as_bytes(), bytes);
    assert_eq!(Line::from_payload(&[]).unwrap().as_bytes(), b"");
    assert_eq!(Line::from_payload(&[7; 128]).unwrap().as_bytes(), &[7; 128]);
}

#[test]
fn payloads_that_are_too_long_are_refused() {
    assert!(Line::from_payload(&[b'x'; 129]).is_none());
}

#[test]
fn payloads_that_are_not_text_are_refused() {
    assert!(Line::from_payload(&[0, 159, 146, 150]).is_none());
    assert!(Line::from_payload(&[0xff]).is_none());
    assert!(Line::from_payload(&[0xed, 0xa0, 0x80]).is_none());
}
