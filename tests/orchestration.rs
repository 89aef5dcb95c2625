use base64::Engine;
use tars::capture::{encode_png, select_display, CaptureError, Frame};
use tars::message::{InlineData, Message, MessagePart, Role};
use tars::query::{ask_about_screen, endpoint_url, plan_conversation, plan_screen_query, QueryError};
use tars::record::{new_record, record_attributes, record_with_id, stored_message, table_name, ConversationData};
use tars::response::{first_text, interpret_reply, is_success, Candidate, Content, ModelResponse};
use tars::window::{capture_and_reveal, capture_only, toggle_action, WindowAction};

const BASE: &str = "https://generativelanguage.googleapis.com/v1beta/models/gemini-2.5-flash-lite-preview-06-17:generateContent?key=";

fn text(t: &str) -> MessagePart {
    MessagePart { text: Some(t.to_string()), inline_data: None }
}

fn turn(role: Role, t: &str) -> Message {
    Message { role, parts: vec![text(t)] }
}

fn frame_2x1() -> Frame {
    Frame { width: 2, height: 1, rgba: vec![255, 0, 0, 255, 0, 255, 0, 128] }
}

fn reply_with(parts: Vec<MessagePart>) -> ModelResponse {
    ModelResponse { candidates: vec![Candidate { content: Content { parts } }] }
}

fn data() -> ConversationData {
    ConversationData {
        question: "What is on screen?".to_string(),
        response: "A terminal.".to_string(),
        context: "screen".to_string(),
        timestamp: "2024-06-17T10:00:00Z".to_string(),
        mode: "screenshot".to_string(),
    }
}

#[test]
fn conversation_is_forwarded_in_order() {
    let history = vec![turn(Role::User, "hi"), turn(Role::Model, "hello"), turn(Role::User, "and now?")];
    let req = plan_conversation(&Some("KEY".to_string()), history).unwrap();
    assert_eq!(req.url, format!("{}KEY", BASE));
    assert_eq!(req.body.contents.len(), 3);
    let texts: Vec<String> = req.body.contents.iter().map(|m| m.parts[0].text.clone().unwrap()).collect();
    assert_eq!(texts, vec!["hi", "hello", "and now?"]);
    assert_eq!(req.body.contents[1].role, Role::Model);
}

#[test]
fn conversation_without_credential_is_refused() {
    let r = plan_conversation(&None, vec![turn(Role::User, "hi")]);
    assert!(matches!(r, Err(QueryError::MissingCredential)));
}

#[test]
fn screen_question_is_one_turn_of_two_parts() {
    let req = ask_about_screen(&Some("K".to_string()), "what is this?".to_string(), Ok(frame_2x1())).unwrap();
    assert_eq!(req.url, format!("{}K", BASE));
    assert_eq!(req.body.contents.len(), 1);
    let m = &req.body.contents[0];
    assert_eq!(m.role, Role::User);
    assert_eq!(m.parts.len(), 2);
    assert_eq!(m.parts[0].text.as_deref(), Some("what is this?"));
    assert!(m.parts[0].inline_data.is_none());
    assert!(m.parts[1].text.is_none());
    let d = m.parts[1].inline_data.as_ref().unwrap();
    assert_eq!(d.mime_type, "image/png");
    let png = base64::engine::general_purpose::STANDARD.decode(&d.data).unwrap();
    assert_eq!(&png[..8], &[137u8, 80, 78, 71, 13, 10, 26, 10]);
}

#[test]
fn screen_question_without_credential_is_refused() {
    let r = ask_about_screen(&None, "p".to_string(), Ok(frame_2x1()));
    assert!(matches!(r, Err(QueryError::MissingCredential)));
}

#[test]
fn screen_query_encodes_png_as_base64() {
    let req = plan_screen_query(&Some("K".to_string()), "p".to_string(), &vec![0u8, 1, 2, 250]).unwrap();
    let d = req.body.contents[0].parts[1].inline_data.clone().unwrap();
    assert_eq!(d.data, "AAEC+g==");
}

#[test]
fn no_display_fails_the_same_everywhere() {
    let e = select_display(0).unwrap_err();
    assert!(matches!(e, CaptureError::NoDisplay));
    assert!(matches!(capture_only(Err(e.clone())), Err(QueryError::NoDisplay)));
    assert!(matches!(capture_and_reveal(Err(e.clone()), false), Err(QueryError::NoDisplay)));
    assert!(matches!(ask_about_screen(&Some("K".to_string()), "p".to_string(), Err(e)), Err(QueryError::NoDisplay)));
}

#[test]
fn first_display_is_chosen() {
    assert_eq!(select_display(3).unwrap(), 0);
    assert_eq!(select_display(1).unwrap(), 0);
}

#[test]
fn capture_failure_keeps_its_detail() {
    let r = capture_only(Err(CaptureError::CaptureFailed("denied".to_string())));
    assert!(matches!(r, Err(QueryError::CaptureFailed(d)) if d == "denied"));
}

#[test]
fn capture_only_returns_raw_pixels() {
    assert_eq!(capture_only(Ok(frame_2x1())).unwrap(), frame_2x1().rgba);
}

#[test]
fn empty_candidates_is_empty_response() {
    let body = "{\"candidates\":[]}".to_string();
    let r = interpret_reply(200, body.clone(), Ok(ModelResponse { candidates: vec![] }));
    assert!(matches!(r, Err(QueryError::EmptyResponse(b)) if b == body));
}

#[test]
fn rejected_status_keeps_raw_body() {
    let body = "Too Many Requests".to_string();
    let r = interpret_reply(429, body.clone(), Err("expected value at line 1 column 1".to_string()));
    assert!(matches!(r, Err(QueryError::RemoteRejected(429, b)) if b == body));
}

#[test]
fn unparsable_success_is_malformed() {
    let r = interpret_reply(200, "<html>".to_string(), Err("expected value".to_string()));
    assert!(matches!(r, Err(QueryError::MalformedResponse(d, b)) if d == "expected value" && b == "<html>"));
}

#[test]
fn first_text_of_first_candidate_is_the_answer() {
    let mut resp = reply_with(vec![text("first"), text("second")]);
    resp.candidates.push(Candidate { content: Content { parts: vec![text("other")] } });
    assert_eq!(interpret_reply(200, "{}".to_string(), Ok(resp)).unwrap(), "first");
}

#[test]
fn missing_parts_or_text_is_empty() {
    assert_eq!(first_text(&reply_with(vec![])), None);
    let image_only = MessagePart {
        text: None,
        inline_data: Some(InlineData { mime_type: "image/png".to_string(), data: "AA==".to_string() }),
    };
    assert_eq!(first_text(&reply_with(vec![image_only.clone(), text("late")])), None);
    let r = interpret_reply(200, "b".to_string(), Ok(reply_with(vec![image_only])));
    assert!(matches!(r, Err(QueryError::EmptyResponse(_))));
}

#[test]
fn success_class_bounds() {
    assert!(!is_success(199));
    assert!(is_success(200));
    assert!(is_success(299));
    assert!(!is_success(300));
}

#[test]
fn reveal_twice_shows_then_hides() {
    let first = capture_and_reveal(Ok(frame_2x1()), false).unwrap();
    assert_eq!(first.action, WindowAction::ShowAndFocus);
    assert_eq!(first.pixels, frame_2x1().rgba);
    let other = Frame { width: 1, height: 1, rgba: vec![1, 2, 3, 4] };
    let second = capture_and_reveal(Ok(other), true).unwrap();
    assert_eq!(second.action, WindowAction::Hide);
    assert_eq!(second.pixels, vec![1, 2, 3, 4]);
    assert_eq!(toggle_action(false), WindowAction::ShowAndFocus);
}

#[test]
fn png_encoding_of_a_frame() {
    let png = encode_png(&frame_2x1()).unwrap();
    assert_eq!(&png[..8], &[137u8, 80, 78, 71, 13, 10, 26, 10]);
    assert!(png.len() > 8);
}

#[test]
fn mismatched_buffer_is_an_encoding_failure() {
    let bad = Frame { width: 2, height: 2, rgba: vec![0; 5] };
    assert!(matches!(encode_png(&bad), Err(CaptureError::EncodingFailed(_))));
    let r = ask_about_screen(&Some("K".to_string()), "p".to_string(), Ok(bad));
    assert!(matches!(r, Err(QueryError::EncodingFailed(_))));
}

#[test]
fn two_stores_get_distinct_ids() {
    let a = new_record(data());
    let b = new_record(data());
    assert_ne!(a.id, b.id);
    assert_eq!(a.id.len(), 36);
    let chars: Vec<char> = a.id.chars().collect();
    for (i, c) in chars.iter().enumerate() {
        if i == 8 || i == 13 || i == 18 || i == 23 {
            assert_eq!(*c, '-');
        } else {
            assert!(c.is_ascii_digit() || ('a'..='f').contains(c));
        }
    }
    assert_eq!(chars[14], '4');
    assert!(matches!(chars[19], '8' | '9' | 'a' | 'b'));
    assert_eq!(a.question, b.question);
    assert_eq!(a.mode, "screenshot");
}

#[test]
fn record_attributes_in_order() {
    let rec = record_with_id("abc".to_string(), data());
    let attrs = record_attributes(&rec);
    let names: Vec<&str> = attrs.iter().map(|p| p.0.as_str()).collect();
    assert_eq!(names, vec!["id", "question", "response", "context", "timestamp", "mode"]);
    assert_eq!(attrs[0].1, "abc");
    assert_eq!(attrs[2].1, "A terminal.");
    assert_eq!(table_name(), "tars-conversations");
    assert_eq!(stored_message("abc"), "Conversation stored with ID: abc");
}

#[test]
fn endpoint_is_parameterized_by_the_credential_only() {
    assert_eq!(endpoint_url("xyz"), format!("{}xyz", BASE));
    assert_eq!(endpoint_url(""), BASE);
}

#[test]
fn role_names_round_trip() {
    assert_eq!(Role::User.name(), "user");
    assert_eq!(Role::Model.name(), "model");
    assert_eq!(Role::from_name(&"model".to_string()), Some(Role::Model));
    assert_eq!(Role::from_name(&"system".to_string()), None);
}

#[test]
fn store_outcome_confirms_or_reports() {
    assert_eq!(tars::record::store_outcome("id-1", Ok(())).unwrap(), "Conversation stored with ID: id-1");
    let r = tars::record::store_outcome("id-1", Err("throttled".to_string()));
    assert!(matches!(r, Err(QueryError::PersistenceFailed(d)) if d == "throttled"));
}

#[test]
fn empty_frame_is_refused_by_the_encoder() {
    let empty = Frame { width: 0, height: 3, rgba: vec![] };
    assert!(matches!(encode_png(&empty), Err(CaptureError::EncodingFailed(_))));
    let r = ask_about_screen(&None, "p".to_string(), Ok(empty));
    assert!(matches!(r, Err(QueryError::EncodingFailed(_))));
}

#[test]
fn encodable_frame_without_credential_is_missing_credential() {
    let r = ask_about_screen(&None, "p".to_string(), Ok(frame_2x1()));
    assert!(matches!(r, Err(QueryError::MissingCredential)));
}
