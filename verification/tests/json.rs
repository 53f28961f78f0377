use fractal_worker::connexion::{
    decode_task, encode_frame, encode_request_message, encode_result_message,
};
use fractal_worker::json::{
    locate_task, message_text, task_of_document, task_of_parsed, text_of_rendered, wrap_message,
    MessageKind,
};
use fractal_worker::{PixelIntensity, ProtocolError};
use serde_json::Value;

fn parse(text: &str) -> Value {
    serde_json::from_str(text).unwrap()
}

const TASK: &str = "{\"FragmentTask\":{\"id\":{\"offset\":0,\"count\":8},\"max_iteration\":50,\
\"resolution\":{\"nx\":2,\"ny\":2},\"range\":{\"min\":{\"x\":-1.0,\"y\":-1.0},\
\"max\":{\"x\":1.0,\"y\":1.0}},\"fractal\":{\"Mandelbrot\":{}}}}";

#[test]
fn task_is_found_under_its_key() {
    let task = locate_task(TASK.as_bytes()).unwrap();
    assert_eq!(task.get("max_iteration").and_then(Value::as_u64), Some(50));
    assert_eq!(task["resolution"]["nx"].as_u64(), Some(2));
    assert_eq!(task["range"]["min"]["x"].as_f64(), Some(-1.0));
    assert!(task["fractal"].get("Mandelbrot").is_some());
    assert!(task.get("FragmentTask").is_none());
}

#[test]
fn document_without_a_task_is_refused() {
    assert_eq!(locate_task(b"{}"), Err(ProtocolError::MissingTask));
    assert_eq!(locate_task(b"{\"FragmentRequest\":{}}"), Err(ProtocolError::MissingTask));
    assert_eq!(locate_task(b"{\"fragmenttask\":{}}"), Err(ProtocolError::MissingTask));
}

#[test]
fn document_that_is_no_object_has_no_task() {
    assert_eq!(locate_task(b"[1,2]"), Err(ProtocolError::MissingTask));
    assert_eq!(locate_task(b"\"FragmentTask\""), Err(ProtocolError::MissingTask));
    assert_eq!(locate_task(b"null"), Err(ProtocolError::MissingTask));
}

#[test]
fn text_that_is_no_json_is_malformed() {
    assert_eq!(locate_task(b""), Err(ProtocolError::MalformedJson));
    assert_eq!(locate_task(b"{\"FragmentTask\":"), Err(ProtocolError::MalformedJson));
    assert_eq!(locate_task(b"{} trailing"), Err(ProtocolError::MalformedJson));
}

#[test]
fn invalid_utf8_outside_strings_is_malformed() {
    assert_eq!(locate_task(&[0xff, b'{', b'}']), Err(ProtocolError::MalformedJson));
}

#[test]
fn invalid_utf8_inside_a_string_is_replaced() {
    let mut bytes = b"{\"FragmentTask\":\"a".to_vec();
    bytes.push(0xff);
    bytes.extend_from_slice(b"b\"}");
    let task = locate_task(&bytes).unwrap();
    assert_eq!(task.as_str(), Some("a\u{fffd}b"));
}

#[test]
fn a_null_task_is_still_a_task() {
    assert_eq!(locate_task(b"{\"FragmentTask\":null}"), Ok(Value::Null));
}

#[test]
fn task_of_document_reads_given_documents() {
    assert_eq!(task_of_document(&parse("{\"FragmentTask\":7}")), Ok(parse("7")));
    assert_eq!(
        task_of_document(&parse("{\"a\":1,\"FragmentTask\":{\"b\":[1,2]}}")),
        Ok(parse("{\"b\":[1,2]}"))
    );
    assert_eq!(task_of_document(&parse("{\"a\":1}")), Err(ProtocolError::MissingTask));
    assert_eq!(task_of_document(&parse("3")), Err(ProtocolError::MissingTask));
}

#[test]
fn task_of_parsed_tells_failure_from_absence() {
    let failure = serde_json::from_str::<Value>("{");
    assert!(failure.is_err());
    assert_eq!(task_of_parsed(failure), Err(ProtocolError::MalformedJson));
    assert_eq!(
        task_of_parsed(serde_json::from_str::<Value>("{}")),
        Err(ProtocolError::MissingTask)
    );
    assert_eq!(
        task_of_parsed(serde_json::from_str::<Value>("{\"FragmentTask\":true}")),
        Ok(Value::Bool(true))
    );
}

#[test]
fn each_kind_has_its_key() {
    assert_eq!(MessageKind::Request.key(), "FragmentRequest");
    assert_eq!(MessageKind::Task.key(), "FragmentTask");
    assert_eq!(MessageKind::Result.key(), "FragmentResult");
}

#[test]
fn wrapping_puts_the_body_under_the_key() {
    let body = parse("{\"worker_name\":\"w\",\"maximal_work_load\":10}");
    let document = wrap_message(MessageKind::Request, body.clone());
    assert_eq!(document.get("FragmentRequest"), Some(&body));
    assert_eq!(document.as_object().map(|o| o.len()), Some(1));
    assert_ne!(document, body);
}

#[test]
fn a_wrapped_task_is_found_again() {
    let body = parse("{\"max_iteration\":50}");
    let document = wrap_message(MessageKind::Task, body.clone());
    assert_eq!(task_of_document(&document), Ok(body.clone()));
    let other = wrap_message(MessageKind::Result, body.clone());
    assert_eq!(task_of_document(&other), Err(ProtocolError::MissingTask));
    let request = wrap_message(MessageKind::Request, body);
    assert_eq!(task_of_document(&request), Err(ProtocolError::MissingTask));
}

#[test]
fn request_text_is_exact() {
    let body = parse("{\"worker_name\":\"worker-1\",\"maximal_work_load\":10}");
    assert_eq!(
        message_text(MessageKind::Request, body).unwrap(),
        "{\"FragmentRequest\":{\"maximal_work_load\":10,\"worker_name\":\"worker-1\"}}"
    );
}

#[test]
fn result_text_is_exact() {
    let body = parse(
        "{\"id\":{\"offset\":0,\"count\":8},\"resolution\":{\"nx\":2,\"ny\":2},\
         \"range\":{\"min\":{\"x\":-1.0,\"y\":-1.0},\"max\":{\"x\":1.0,\"y\":1.0}},\
         \"pixels\":{\"offset\":8,\"count\":4}}",
    );
    assert_eq!(
        message_text(MessageKind::Result, body).unwrap(),
        "{\"FragmentResult\":{\"id\":{\"count\":8,\"offset\":0},\
         \"pixels\":{\"count\":4,\"offset\":8},\
         \"range\":{\"max\":{\"x\":1.0,\"y\":1.0},\"min\":{\"x\":-1.0,\"y\":-1.0}},\
         \"resolution\":{\"nx\":2,\"ny\":2}}}"
    );
}

#[test]
fn written_text_reads_back_as_the_same_message() {
    let body = parse(TASK)["FragmentTask"].clone();
    let text = message_text(MessageKind::Task, body.clone()).unwrap();
    assert_eq!(locate_task(text.as_bytes()), Ok(body));
}

#[test]
fn rendered_outcome_is_passed_on() {
    assert_eq!(text_of_rendered(Ok("{}".to_string())), Ok("{}".to_string()));
    let failure = serde_json::from_str::<Value>("").map(|v| v.to_string());
    assert_eq!(text_of_rendered(failure), Err(ProtocolError::EncodeFailed));
}

#[test]
fn task_frame_is_decoded_whole() {
    let id = [1u8, 2, 3, 4, 5, 6, 7, 8];
    let frame = encode_frame(TASK.as_bytes(), &id).unwrap();
    let (task, data) = decode_task(&frame).unwrap();
    assert_eq!(task, parse(TASK)["FragmentTask"]);
    assert_eq!(data, id);
}

#[test]
fn task_frame_failures_are_told_apart() {
    assert_eq!(decode_task(&[0, 0, 0]), Err(ProtocolError::Truncated));
    assert_eq!(
        decode_task(&[0, 0, 0, 1, 0, 0, 0, 2, b'{', b'}']),
        Err(ProtocolError::LengthMismatch)
    );
    let no_json = encode_frame(b"{", &[]).unwrap();
    assert_eq!(decode_task(&no_json), Err(ProtocolError::MalformedJson));
    let no_task = encode_frame(b"{\"FragmentResult\":{}}", &[9]).unwrap();
    assert_eq!(decode_task(&no_task), Err(ProtocolError::MissingTask));
    let mut cut = encode_frame(TASK.as_bytes(), &[1, 2]).unwrap();
    cut.truncate(cut.len() - 1);
    assert_eq!(decode_task(&cut), Err(ProtocolError::Truncated));
}

#[test]
fn request_message_is_framed_text() {
    let body = parse("{\"worker_name\":\"w\",\"maximal_work_load\":1}");
    let frame = encode_request_message(body).unwrap();
    let text = "{\"FragmentRequest\":{\"maximal_work_load\":1,\"worker_name\":\"w\"}}";
    let len = text.len() as u32;
    let mut expected = len.to_be_bytes().to_vec();
    expected.extend_from_slice(&len.to_be_bytes());
    expected.extend_from_slice(text.as_bytes());
    assert_eq!(frame, expected);
}

#[test]
fn result_message_is_text_then_id_then_pixels() {
    let body = parse("{\"pixels\":{\"offset\":4,\"count\":1}}");
    let pixels = [PixelIntensity::new(0x0102_0304, 0x0506_0708)];
    let frame = encode_result_message(body, &[0xaa, 0xbb], &pixels).unwrap();
    let text = "{\"FragmentResult\":{\"pixels\":{\"count\":1,\"offset\":4}}}";
    let json_len = text.len() as u32;
    let total_len = json_len + 2 + 8;
    let mut expected = total_len.to_be_bytes().to_vec();
    expected.extend_from_slice(&json_len.to_be_bytes());
    expected.extend_from_slice(text.as_bytes());
    expected.extend_from_slice(&[0xaa, 0xbb, 1, 2, 3, 4, 5, 6, 7, 8]);
    assert_eq!(frame, expected);
}
