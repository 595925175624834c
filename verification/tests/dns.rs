use hogg::common::dnslib::{first_question_name, read_name, DnsError};

fn header(qdcount: u16) -> Vec<u8> {
    let mut h = vec![0x12, 0x34, 0x81, 0x80];
    h.extend_from_slice(&qdcount.to_be_bytes());
    h.extend_from_slice(&[0, 1, 0, 0, 0, 0]);
    h
}

fn encode(name: &str) -> Vec<u8> {
    let mut out = Vec::new();
    for label in name.split('.') {
        out.push(label.len() as u8);
        out.extend_from_slice(label.as_bytes());
    }
    out.push(0);
    out
}

#[test]
fn reads_the_first_question() {
    let mut p = header(1);
    p.extend(encode("www.example.com"));
    p.extend_from_slice(&[0, 1, 0, 1]);
    assert_eq!(first_question_name(&p), Ok(Some(b"www.example.com".to_vec())));
}

#[test]
fn no_question_gives_none() {
    let mut p = header(0);
    p.extend(encode("example.com"));
    assert_eq!(first_question_name(&p), Ok(None));
}

#[test]
fn short_header_is_an_error() {
    assert_eq!(first_question_name(&[0, 1, 2]), Err(DnsError::EndOfBuffer));
}

#[test]
fn truncated_label_is_an_error() {
    let mut p = header(1);
    p.extend_from_slice(&[7, b'e', b'x']);
    assert_eq!(first_question_name(&p), Err(DnsError::EndOfBuffer));
}

#[test]
fn missing_terminator_is_an_error() {
    let mut p = header(1);
    p.extend_from_slice(&[3, b'c', b'o', b'm']);
    assert_eq!(first_question_name(&p), Err(DnsError::EndOfBuffer));
}

#[test]
fn root_name_is_empty() {
    let mut p = header(1);
    p.push(0);
    assert_eq!(first_question_name(&p), Ok(Some(Vec::new())));
}

#[test]
fn compression_pointers_are_followed() {
    // "mail" followed by a pointer to "example.com" at offset 12.
    let mut p = header(1);
    p.extend(encode("example.com"));
    let at = p.len();
    p.extend_from_slice(&[4, b'm', b'a', b'i', b'l', 0xC0, 12]);
    assert_eq!(read_name(&p, at), Ok(b"mail.example.com".to_vec()));
}

#[test]
fn pointer_loops_stop_after_five_jumps() {
    let mut p = header(1);
    p.extend_from_slice(&[0xC0, 12]);
    assert_eq!(first_question_name(&p), Err(DnsError::TooManyJumps));
}

#[test]
fn five_jumps_are_allowed() {
    let mut p = header(1);
    // offsets 12,14,16,18,20 each point to the next; 22 holds the name.
    for k in 0..5u8 {
        p.extend_from_slice(&[0xC0, 14 + 2 * k]);
    }
    p.extend(encode("a.b"));
    assert_eq!(first_question_name(&p), Ok(Some(b"a.b".to_vec())));
    let mut q = header(1);
    for k in 0..6u8 {
        q.extend_from_slice(&[0xC0, 14 + 2 * k]);
    }
    q.extend(encode("a.b"));
    assert_eq!(first_question_name(&q), Err(DnsError::TooManyJumps));
}

#[test]
fn pointer_at_the_end_is_an_error() {
    let mut p = header(1);
    p.push(0xC0);
    assert_eq!(first_question_name(&p), Err(DnsError::EndOfBuffer));
}

#[test]
fn written_names_read_back_wherever_they_stand() {
    let mut p = header(1);
    p.extend_from_slice(&[9, 9, 9]);
    let at = p.len();
    p.extend(encode("deep.sub.example.org"));
    p.extend_from_slice(&[0xFF, 0xC0]);
    assert_eq!(read_name(&p, at), Ok(b"deep.sub.example.org".to_vec()));
}
