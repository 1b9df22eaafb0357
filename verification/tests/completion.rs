use clanker::completion::{stream_event, StreamEvent, WAITING_NOTICE};
use clanker::sink::{OutputSink, SinkStep};
use gemini_rust::{Candidate, ClientError, Content, GenerationResponse};

#[allow(deprecated)]
fn response_with(content: Content) -> GenerationResponse {
    GenerationResponse {
        candidates: vec![Candidate {
            content,
            safety_ratings: None,
            citation_metadata: None,
            grounding_metadata: None,
            finish_reason: None,
            index: None,
        }],
        prompt_feedback: None,
        usage_metadata: None,
        model_version: None,
        response_id: None,
    }
}

#[test]
fn item_with_text_is_a_chunk_with_that_text() {
    let polled = Ok(Some(response_with(Content::text("Hello, "))));
    match stream_event(&polled) {
        StreamEvent::Chunk(text) => assert_eq!(text, "Hello, "),
        other => panic!("unexpected event {:?}", other),
    }
}

#[test]
fn item_without_parts_is_an_empty_chunk() {
    let polled = Ok(Some(response_with(Content::default())));
    match stream_event(&polled) {
        StreamEvent::Chunk(text) => assert_eq!(text, ""),
        other => panic!("unexpected event {:?}", other),
    }
}

#[test]
fn no_item_is_the_end() {
    let polled: Result<Option<GenerationResponse>, ClientError> = Ok(None);
    assert!(matches!(stream_event(&polled), StreamEvent::End));
}

#[test]
fn error_is_a_failure() {
    let polled: Result<Option<GenerationResponse>, ClientError> =
        Err(ClientError::BadResponse { code: 429, description: None });
    assert!(matches!(stream_event(&polled), StreamEvent::Failed));
}

#[test]
fn polled_items_drive_the_sink() {
    let polls: Vec<Result<Option<GenerationResponse>, ClientError>> = vec![
        Ok(Some(response_with(Content::text("Hello, ")))),
        Ok(Some(response_with(Content::text("world!")))),
        Ok(None),
    ];
    let mut sink = OutputSink::new();
    let mut echoed = String::new();
    let mut written: Option<String> = None;
    for polled in &polls {
        match sink.step(stream_event(polled)) {
            SinkStep::Echo { text, sink: next } => {
                echoed.push_str(&text);
                sink = next;
            }
            SinkStep::Persist { contents, .. } => {
                written = Some(contents);
                break;
            }
            SinkStep::Abort => panic!("the stream did not fail"),
        }
    }
    assert_eq!(echoed, "Hello, world!");
    assert_eq!(written, Some("Hello, world!".to_string()));
}

#[test]
fn waiting_notice_is_fixed() {
    assert_eq!(WAITING_NOTICE, "Waiting for clanker...");
}

#[test]
fn item_whose_first_part_is_not_text_is_an_empty_chunk() {
    let content = Content {
        parts: Some(vec![gemini_rust::Part::InlineData {
            inline_data: gemini_rust::Blob::new("image/png", "AAAA"),
            media_resolution: None,
        }]),
        role: None,
    };
    match stream_event(&Ok(Some(response_with(content)))) {
        StreamEvent::Chunk(text) => assert_eq!(text, ""),
        other => panic!("unexpected event {:?}", other),
    }
}

#[test]
fn chunk_text_is_the_text_of_the_first_part_only() {
    let content = Content {
        parts: Some(vec![
            gemini_rust::Part::Text {
                text: "first".to_string(),
                thought: None,
                thought_signature: None,
            },
            gemini_rust::Part::Text {
                text: "second".to_string(),
                thought: None,
                thought_signature: None,
            },
        ]),
        role: None,
    };
    match stream_event(&Ok(Some(response_with(content)))) {
        StreamEvent::Chunk(text) => assert_eq!(text, "first"),
        other => panic!("unexpected event {:?}", other),
    }
}
