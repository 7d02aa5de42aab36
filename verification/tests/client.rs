use slack_webhook::client::{classify_response, is_success, ChunkedSend, Client, SendError};
use slack_webhook::types::{OwnedBlock, OwnedBlocks};

#[test]
fn client_stores_url_verbatim() {
    let c = Client::new("not even a url".to_string());
    assert_eq!(c.url(), "not even a url");
    let copy = c.clone();
    assert_eq!(copy.url(), "not even a url");
}

#[test]
fn status_200_is_success_regardless_of_body() {
    assert!(is_success(200));
    assert!(classify_response(200, "any body at all".to_string()).is_ok());
    assert!(classify_response(200, String::new()).is_ok());
}

#[test]
fn non_200_statuses_carry_status_and_body() {
    assert!(!is_success(400));
    assert!(!is_success(500));
    match classify_response(400, "bad request".to_string()) {
        Err(SendError::HttpStatus { status, body }) => {
            assert_eq!(status, 400);
            assert_eq!(body, "bad request");
        },
        _ => panic!("expected a status failure"),
    }
    match classify_response(500, "server error".to_string()) {
        Err(SendError::HttpStatus { status, body }) => {
            assert_eq!(status, 500);
            assert_eq!(body, "server error");
        },
        _ => panic!("expected a status failure"),
    }
}

#[test]
fn error_descriptions() {
    let e = SendError::http_status(503, "busy".to_string());
    assert_eq!(e.describe(), "status: 503 | text: busy");
    let e = SendError::transport("connection refused".to_string());
    assert_eq!(e.describe(), "transport error: connection refused");
}

fn sections(n: usize) -> OwnedBlocks {
    let mut blocks = OwnedBlocks::default();
    let mut i: usize = 0;
    while i < n {
        blocks.push_section(format!("block {}", i));
        i += 1;
    }
    blocks
}

#[test]
fn chunks_split_positionally() {
    let blocks = sections(120);
    let chunks = blocks.chunks(50);
    assert_eq!(chunks.len(), 3);
    assert_eq!(chunks[0].len(), 50);
    assert_eq!(chunks[1].len(), 50);
    assert_eq!(chunks[2].len(), 20);
}

#[test]
fn chunked_send_issues_three_requests_in_order() {
    let blocks = sections(120);
    let mut plan = ChunkedSend::new("note", &blocks, 50);
    assert_eq!(plan.remaining(), 3);
    let mut sizes: Vec<usize> = Vec::new();
    let mut first_texts: Vec<String> = Vec::new();
    while let Some(body) = plan.next_request() {
        let v: serde_json::Value = serde_json::from_str(&body).unwrap();
        assert_eq!(v.get("text").unwrap().as_str().unwrap(), "note");
        let sent = v.get("blocks").unwrap().as_array().unwrap();
        sizes.push(sent.len());
        first_texts.push(
            sent[0].get("text").unwrap().get("text").unwrap().as_str().unwrap().to_string(),
        );
    }
    assert_eq!(sizes, vec![50, 50, 20]);
    // positional grouping: each chunk starts where the previous one ended
    assert_eq!(first_texts, vec!["block 0", "block 50", "block 100"]);
    assert_eq!(plan.remaining(), 0);
    assert!(plan.next_request().is_none());
}

#[test]
fn chunk_failure_short_circuits() {
    let blocks = sections(120);
    let mut plan = ChunkedSend::new("note", &blocks, 50);
    let mut issued: usize = 0;
    let mut outcome: Result<(), SendError> = Ok(());
    while let Some(_body) = plan.next_request() {
        issued += 1;
        let status: u16 = if issued == 2 { 500 } else { 200 };
        if let Err(e) = classify_response(status, "chunk rejected".to_string()) {
            outcome = Err(e);
            break;
        }
    }
    // the second request failed, so the third was never issued
    assert_eq!(issued, 2);
    assert_eq!(plan.remaining(), 1);
    match outcome {
        Err(SendError::HttpStatus { status, body }) => {
            assert_eq!(status, 500);
            assert_eq!(body, "chunk rejected");
        },
        _ => panic!("expected the second chunk's status failure"),
    }
}

#[test]
fn short_final_chunk_keeps_order() {
    let blocks = sections(5);
    let mut plan = ChunkedSend::new("t", &blocks, 2);
    assert_eq!(plan.remaining(), 3);
    let mut sizes: Vec<usize> = Vec::new();
    while let Some(body) = plan.next_request() {
        let v: serde_json::Value = serde_json::from_str(&body).unwrap();
        sizes.push(v.get("blocks").unwrap().as_array().unwrap().len());
    }
    assert_eq!(sizes, vec![2, 2, 1]);
}

#[test]
fn empty_collection_plans_no_requests() {
    let blocks = OwnedBlocks::default();
    assert_eq!(blocks.chunks(50).len(), 0);
    let mut plan = ChunkedSend::new("t", &blocks, 50);
    assert_eq!(plan.remaining(), 0);
    assert!(plan.next_request().is_none());
}

#[test]
fn owned_blocks_building() {
    let mut blocks = OwnedBlocks::default();
    blocks.push_header("H".to_string());
    blocks.push_section("S".to_string());
    blocks.push_divider();
    blocks.push(OwnedBlock::section("tail".to_string()));
    blocks.inner_mut().push(OwnedBlock::divider());
    assert_eq!(blocks.inner().len(), 5);

    let from_vec = OwnedBlocks::from(vec![OwnedBlock::header("H".to_string())]);
    assert_eq!(from_vec.chunks(1).len(), 1);

    let v = blocks.into_inner();
    assert_eq!(v.len(), 5);
    assert_eq!(v[0].as_block().to_json().contains("header"), true);
    assert_eq!(v[4].as_block().to_json(), "{\"type\":\"divider\"}");
}
