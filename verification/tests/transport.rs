use home_client::commands::Request;
use home_client::error::ProtocolError;
use home_client::transport::{JsonSender, PREFIX_LEN};

#[test]
fn frame_puts_the_byte_length_first() {
    let frame = JsonSender::frame("{}");
    assert_eq!(frame.prefix, vec![2, 0, 0, 0, 0, 0, 0, 0]);
    assert_eq!(frame.body, b"{}".to_vec());
}

#[test]
fn frame_of_the_empty_text() {
    let frame = JsonSender::frame("");
    assert_eq!(frame.prefix, vec![0; 8]);
    assert!(frame.body.is_empty());
}

#[test]
fn frame_prefix_is_little_endian() {
    let text = "a".repeat(300);
    let frame = JsonSender::frame(&text);
    assert_eq!(frame.prefix.len(), PREFIX_LEN);
    assert_eq!(frame.prefix, vec![44, 1, 0, 0, 0, 0, 0, 0]);
    assert_eq!(frame.body.len(), 300);
    let text = "b".repeat(65536 + 2);
    let frame = JsonSender::frame(&text);
    assert_eq!(frame.prefix, vec![2, 0, 1, 0, 0, 0, 0, 0]);
}

#[test]
fn frame_counts_bytes_not_characters() {
    let frame = JsonSender::frame("é\u{20ac}");
    assert_eq!(frame.prefix, vec![5, 0, 0, 0, 0, 0, 0, 0]);
    assert_eq!(frame.body, vec![0xc3, 0xa9, 0xe2, 0x82, 0xac]);
}

#[test]
fn send_writes_a_set_request_as_json() {
    let frame = JsonSender::send_json_to_server(&Request::set("On", "kitchen").record()).unwrap();
    let text = r#"{"command":"set","locate":"kitchen","value":"on"}"#;
    assert_eq!(frame.body, text.as_bytes().to_vec());
    assert_eq!(frame.prefix, (text.len() as u64).to_le_bytes().to_vec());
}

#[test]
fn send_writes_a_get_request_as_json() {
    let frame = JsonSender::send_json_to_server(&Request::get("den").record()).unwrap();
    assert_eq!(frame.body, br#"{"command":"get","locate":"den"}"#.to_vec());
    assert_eq!(frame.prefix, vec![32, 0, 0, 0, 0, 0, 0, 0]);
}

#[test]
fn send_writes_a_get_all_request_as_json() {
    let frame = JsonSender::send_json_to_server(&Request::get_all().record()).unwrap();
    assert_eq!(frame.body, br#"{"command":"get_all"}"#.to_vec());
    assert_eq!(frame.prefix, vec![21, 0, 0, 0, 0, 0, 0, 0]);
}

#[test]
fn send_escapes_what_json_escapes() {
    let frame = JsonSender::send_json_to_server(&Request::get("a\"b\\c\n").record()).unwrap();
    assert_eq!(frame.body, br#"{"command":"get","locate":"a\"b\\c\n"}"#.to_vec());
}

#[test]
fn request_json_parses_back_to_its_members() {
    let frame = JsonSender::send_json_to_server(&Request::set("OFF", "den").record()).unwrap();
    let value: serde_json::Value = serde_json::from_slice(&frame.body).unwrap();
    let object = value.as_object().unwrap();
    assert_eq!(object.len(), 3);
    assert_eq!(object["locate"].as_str(), Some("den"));
    assert_eq!(object["value"].as_str(), Some("off"));
    assert_eq!(object["command"].as_str(), Some("set"));
}

#[test]
fn announced_length_reads_little_endian() {
    assert_eq!(JsonSender::announced_length(&[2, 0, 0, 0, 0, 0, 0, 0]), Ok(2));
    assert_eq!(JsonSender::announced_length(&[44, 1, 0, 0, 0, 0, 0, 0]), Ok(300));
    assert_eq!(JsonSender::announced_length(&[0, 0, 0, 0, 0, 0, 0, 1]), Ok(1u64 << 56));
    assert_eq!(JsonSender::announced_length(&[0xff; 8]), Ok(u64::MAX));
}

#[test]
fn announced_length_wants_eight_bytes() {
    assert_eq!(JsonSender::announced_length(&[]), Err(ProtocolError::Prefix));
    assert_eq!(JsonSender::announced_length(&[1, 0, 0, 0, 0, 0, 0]), Err(ProtocolError::Prefix));
    assert_eq!(
        JsonSender::announced_length(&[1, 0, 0, 0, 0, 0, 0, 0, 0]),
        Err(ProtocolError::Prefix)
    );
}

#[test]
fn receive_gives_back_the_text() {
    let text = JsonSender::receive_json_from_server(&[2, 0, 0, 0, 0, 0, 0, 0], b"{}");
    assert_eq!(text, Ok("{}".to_string()));
}

#[test]
fn receive_refuses_a_short_prefix() {
    let text = JsonSender::receive_json_from_server(&[2, 0, 0, 0], b"{}");
    assert_eq!(text, Err(ProtocolError::Prefix));
}

#[test]
fn receive_refuses_a_body_of_another_length() {
    let prefix = [3, 0, 0, 0, 0, 0, 0, 0];
    assert_eq!(JsonSender::receive_json_from_server(&prefix, b"{}"), Err(ProtocolError::Body));
    assert_eq!(JsonSender::receive_json_from_server(&prefix, b"{}  "), Err(ProtocolError::Body));
    assert_eq!(JsonSender::receive_json_from_server(&prefix, b""), Err(ProtocolError::Body));
}

#[test]
fn receive_replaces_bytes_that_are_not_utf8() {
    let text = JsonSender::receive_json_from_server(&[3, 0, 0, 0, 0, 0, 0, 0], &[0x66, 0xff, 0x6f]);
    assert_eq!(text, Ok("f\u{fffd}o".to_string()));
}

#[test]
fn receive_of_an_empty_body() {
    let text = JsonSender::receive_json_from_server(&[0; 8], b"");
    assert_eq!(text, Ok(String::new()));
}

#[test]
fn framed_request_comes_back_byte_for_byte() {
    for request in [Request::set("On", "kitchen"), Request::get("caf\u{e9}"), Request::get_all()] {
        let frame = JsonSender::send_json_to_server(&request.record()).unwrap();
        let text = JsonSender::receive_json_from_server(&frame.prefix, &frame.body).unwrap();
        assert_eq!(text.as_bytes(), &frame.body[..]);
    }
}

#[test]
fn framed_text_comes_back_unchanged() {
    for text in ["", "{}", "plain", "\u{1f4a1} on", "{\"locate\":\"s\u{e3}o\"}"] {
        let frame = JsonSender::frame(text);
        let back = JsonSender::receive_json_from_server(&frame.prefix, &frame.body);
        assert_eq!(back, Ok(text.to_string()));
    }
}
