use slack_webhook::types::{
    Block, MsgType, OwnedBlock, OwnedSlackMessageBody, SlackMessageBody, TextType,
};

#[test]
fn render_mode_tokens() {
    assert_eq!(TextType::PlainText.token(), "plain_text");
    assert_eq!(TextType::Mrkdwn.token(), "mrkdwn");
}

#[test]
fn block_kind_tokens() {
    assert_eq!(MsgType::Header.token(), "header");
    assert_eq!(MsgType::Section.token(), "section");
    assert_eq!(MsgType::Divider.token(), "divider");
}

#[test]
fn empty_blocks_key_omitted() {
    let with_empty = SlackMessageBody::new("hello".to_string(), Some(Vec::new()));
    let json = with_empty.to_json();
    let v: serde_json::Value = serde_json::from_str(&json).unwrap();
    assert_eq!(v.get("text").unwrap().as_str().unwrap(), "hello");
    assert!(v.get("blocks").is_none());

    let with_none = SlackMessageBody::new("hello".to_string(), None);
    assert_eq!(with_none.to_json(), json);
    assert_eq!(json, "{\"text\":\"hello\"}");
}

#[test]
fn divider_always_serializes_without_text() {
    let b = Block::divider();
    assert_eq!(b.to_json(), "{\"type\":\"divider\"}");
    let v: serde_json::Value = serde_json::from_str(&b.to_json()).unwrap();
    assert!(v.get("text").is_none());

    let owned = OwnedBlock::divider();
    assert_eq!(owned.as_block().to_json(), "{\"type\":\"divider\"}");
}

#[test]
fn textless_block_omits_text_key() {
    let b = Block::new(MsgType::Header, TextType::PlainText, None);
    assert_eq!(b.to_json(), "{\"type\":\"header\"}");
    let v: serde_json::Value = serde_json::from_str(&b.to_json()).unwrap();
    assert!(v.get("text").is_none());
}

#[test]
fn header_block_wire_form() {
    let b = Block::header("Hi".to_string());
    assert_eq!(
        b.to_json(),
        "{\"type\":\"header\",\"text\":{\"type\":\"plain_text\",\"text\":\"Hi\"}}"
    );
}

#[test]
fn section_block_wire_form() {
    let b = Block::section("*bold*".to_string());
    assert_eq!(
        b.to_json(),
        "{\"type\":\"section\",\"text\":{\"type\":\"mrkdwn\",\"text\":\"*bold*\"}}"
    );
}

#[test]
fn message_with_blocks_wire_form() {
    let blocks = vec![Block::header("Title".to_string()), Block::divider()];
    let m = SlackMessageBody::new("Title".to_string(), Some(blocks));
    assert_eq!(
        m.to_json(),
        "{\"text\":\"Title\",\"blocks\":[{\"type\":\"header\",\"text\":{\"type\":\"plain_text\",\
         \"text\":\"Title\"}},{\"type\":\"divider\"}]}"
    );
}

#[test]
fn string_escaping_round_trips() {
    let text = "a \"quoted\" \\ backslash\nnewline\ttab\rreturn \u{1} control and s\u{f6}me \u{2713}";
    let m = SlackMessageBody::new(text.to_string(), None);
    let v: serde_json::Value = serde_json::from_str(&m.to_json()).unwrap();
    assert_eq!(v.get("text").unwrap().as_str().unwrap(), text);
}

#[test]
fn with_header_and_no_info() {
    let m = SlackMessageBody::with_header("X".to_string(), None);
    let v: serde_json::Value = serde_json::from_str(&m.to_json()).unwrap();
    assert_eq!(v.get("text").unwrap().as_str().unwrap(), "X");
    let blocks = v.get("blocks").unwrap().as_array().unwrap();
    assert_eq!(blocks.len(), 1);
    assert_eq!(blocks[0].get("type").unwrap().as_str().unwrap(), "header");
    let text = blocks[0].get("text").unwrap();
    assert_eq!(text.get("type").unwrap().as_str().unwrap(), "plain_text");
    assert_eq!(text.get("text").unwrap().as_str().unwrap(), "X");
}

#[test]
fn with_header_and_info() {
    let m = SlackMessageBody::with_header("X".to_string(), Some("Y".to_string()));
    let v: serde_json::Value = serde_json::from_str(&m.to_json()).unwrap();
    assert_eq!(v.get("text").unwrap().as_str().unwrap(), "X");
    let blocks = v.get("blocks").unwrap().as_array().unwrap();
    assert_eq!(blocks.len(), 2);
    assert_eq!(blocks[0].get("type").unwrap().as_str().unwrap(), "header");
    assert_eq!(
        blocks[0].get("text").unwrap().get("text").unwrap().as_str().unwrap(),
        "X"
    );
    assert_eq!(blocks[1].get("type").unwrap().as_str().unwrap(), "section");
    let info = blocks[1].get("text").unwrap();
    assert_eq!(info.get("type").unwrap().as_str().unwrap(), "mrkdwn");
    assert_eq!(info.get("text").unwrap().as_str().unwrap(), "Y");
}

#[test]
fn mrkdwn_shape() {
    let m = SlackMessageBody::mrkdwn("hi".to_string());
    let v: serde_json::Value = serde_json::from_str(&m.to_json()).unwrap();
    assert_eq!(v.get("text").unwrap().as_str().unwrap(), "hi");
    let blocks = v.get("blocks").unwrap().as_array().unwrap();
    assert_eq!(blocks.len(), 1);
    assert_eq!(blocks[0].get("type").unwrap().as_str().unwrap(), "section");
    let text = blocks[0].get("text").unwrap();
    assert_eq!(text.get("type").unwrap().as_str().unwrap(), "mrkdwn");
    assert_eq!(text.get("text").unwrap().as_str().unwrap(), "hi");
}

#[test]
fn owned_and_borrowed_forms_serialize_alike() {
    let borrowed = SlackMessageBody::new(
        "note".to_string(),
        Some(vec![
            Block::header("H".to_string()),
            Block::section("S".to_string()),
            Block::divider(),
        ]),
    );
    let owned = OwnedSlackMessageBody::new(
        "note".to_string(),
        Some(vec![
            OwnedBlock::header("H".to_string()),
            OwnedBlock::section("S".to_string()),
            OwnedBlock::divider(),
        ]),
    );
    assert_eq!(borrowed.to_json(), owned.to_json());
}

#[test]
fn owned_block_new_matches_block_new() {
    let owned = OwnedBlock::new(MsgType::Section, TextType::PlainText, Some("p".to_string()));
    let direct = Block::new(MsgType::Section, TextType::PlainText, Some("p".to_string()));
    assert_eq!(owned.as_block().to_json(), direct.to_json());
    assert_eq!(
        owned.text.as_ref().unwrap().as_block_text().text,
        "p".to_string()
    );
}
