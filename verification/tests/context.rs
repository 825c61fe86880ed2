use bytes::Bytes;
use step_bot::{BodyError, Bot, Context, HttpRequester, Method, Request, Settings};

struct Unused;

impl step_bot::Stepable for Unused {
    fn name(&self) -> String {
        String::new()
    }

    fn on_request(&self) -> Request {
        Request::default()
    }

    fn on_success(&self, _ctx: &mut Context) {}

    fn on_error(&self, _ctx: &mut Context, _err: step_bot::StepError) {}

    fn on_timeout(&self, _ctx: &mut Context) {}
}

#[test]
fn new_context_is_ready_to_send_the_default_request() {
    let ctx = Context::new();
    assert_eq!(ctx.request, Request::default());
    assert_eq!(ctx.current_step, None);
    assert_eq!(ctx.http_requester, HttpRequester::new());
    let handle = ctx.request_builder.as_ref().expect("a fresh context holds its request");
    assert_eq!(handle.request(), &Request::default());
    assert_eq!(handle.settings(), &Settings::new());
    assert_eq!(ctx.response, None);
    assert_eq!(ctx.next_step, None);
    assert_eq!(ctx.status_codes, None);
    assert_eq!(ctx.time_elapsed, 0);
}

#[test]
fn context_for_a_request_takes_its_settings_and_codes() {
    let req = Request::new(Method::GET, "https://example.test/".to_string())
        .with_proxy("http://proxy.test:3128".to_string())
        .with_user_agent("agent/2".to_string())
        .with_compression(true)
        .with_status_codes(vec![200, 304]);
    let ctx = Bot::<Unused>::new_context(req.clone());
    assert_eq!(ctx.request, req);
    assert_eq!(ctx.current_step, None);
    assert_eq!(ctx.http_requester.settings.proxy(), Some("http://proxy.test:3128".to_string()));
    assert_eq!(ctx.http_requester.settings.user_agent(), "agent/2");
    assert!(ctx.http_requester.settings.compression());
    let handle = ctx.request_builder.as_ref().expect("a fresh context holds its request");
    assert_eq!(handle.request(), &req);
    assert_eq!(handle.settings(), &ctx.http_requester.settings);
    assert_eq!(ctx.response, None);
    assert_eq!(ctx.next_step, None);
    assert_eq!(ctx.status_codes, Some(vec![200, 304]));
    assert_eq!(ctx.time_elapsed, 0);
}

#[test]
fn next_step_is_set_read_and_cleared() {
    let mut ctx = Context::new();
    assert_eq!(ctx.get_next_step(), None);
    ctx.set_next_step("X".to_string());
    assert_eq!(ctx.get_next_step(), Some("X".to_string()));
    assert_eq!(ctx.get_next_step(), Some("X".to_string()));
    ctx.set_next_step("Y".to_string());
    assert_eq!(ctx.get_next_step(), Some("Y".to_string()));
    ctx.clear_next_step();
    assert_eq!(ctx.get_next_step(), None);
}

#[test]
fn time_elapsed_is_set_and_read() {
    let mut ctx = Context::new();
    assert_eq!(ctx.get_time_elapsed(), 0);
    ctx.set_time_elapsed(1234);
    assert_eq!(ctx.get_time_elapsed(), 1234);
    ctx.set_time_elapsed(u64::MAX);
    assert_eq!(ctx.get_time_elapsed(), u64::MAX);
}

#[test]
fn request_is_given_out_once() {
    let mut ctx = Context::new();
    let handle = ctx.take_request_builder().expect("present before sending");
    assert_eq!(handle.request(), &Request::default());
    assert!(ctx.request_builder.is_none());
    assert!(ctx.take_request_builder().is_none());
    ctx.set_request_builder(handle);
    assert!(ctx.request_builder.is_some());
}

#[test]
fn body_bytes_is_a_copy_of_the_response() {
    let mut ctx = Context::new();
    assert_eq!(ctx.body_bytes(), None);
    ctx.set_response(Bytes::from_static(b"\x00\x01hello\xff"));
    assert_eq!(ctx.body_bytes(), Some(Bytes::from_static(b"\x00\x01hello\xff")));
    assert_eq!(ctx.body_bytes(), Some(Bytes::from_static(b"\x00\x01hello\xff")));
    assert_eq!(ctx.response, Some(Bytes::from_static(b"\x00\x01hello\xff")));
}

#[test]
fn body_text_without_a_response_is_empty() {
    let ctx = Context::new();
    assert_eq!(ctx.body_text(), "");
    assert_eq!(ctx.try_body_text(), Some(String::new()));
}

#[test]
fn body_text_decodes_utf8() {
    let mut ctx = Context::new();
    ctx.set_response(Bytes::from("gr\u{fc}\u{df}e, \u{4e16}\u{754c}".to_string()));
    assert_eq!(ctx.body_text(), "gr\u{fc}\u{df}e, \u{4e16}\u{754c}");
    assert_eq!(ctx.try_body_text(), Some("gr\u{fc}\u{df}e, \u{4e16}\u{754c}".to_string()));
}

#[test]
fn body_text_leaves_the_byte_order_mark_out() {
    let mut ctx = Context::new();
    ctx.set_response(Bytes::from_static(b"\xef\xbb\xbfhi"));
    assert_eq!(ctx.body_text(), "hi");
}

#[test]
fn body_text_replaces_malformed_bytes() {
    let mut ctx = Context::new();
    ctx.set_response(Bytes::from_static(b"a\xffb"));
    assert_eq!(ctx.body_text(), "a\u{fffd}b");
}

#[test]
fn body_text_of_an_empty_body_is_empty() {
    let mut ctx = Context::new();
    ctx.set_response(Bytes::new());
    assert_eq!(ctx.body_text(), "");
}

#[test]
fn body_json_without_a_response_fails() {
    let ctx = Context::new();
    let result: Result<u32, BodyError> = ctx.body_json();
    assert!(matches!(result, Err(BodyError::NoResponse)));
}

#[test]
fn body_json_reads_the_shape_asked_for() {
    let mut ctx = Context::new();
    ctx.set_response(Bytes::from_static(b"[1, 2, 3]"));
    let numbers: Vec<u32> = ctx.body_json().expect("a list of numbers");
    assert_eq!(numbers, vec![1, 2, 3]);
    let again: Vec<u32> = ctx.body_json().expect("the body is still there");
    assert_eq!(again, vec![1, 2, 3]);
}

#[test]
fn body_json_reads_an_object() {
    let mut ctx = Context::new();
    ctx.set_response(Bytes::from_static(b"{\"next\": \"Ping\", \"n\": 2}"));
    let value: serde_json::Value = ctx.body_json().expect("an object");
    assert_eq!(value["next"].as_str(), Some("Ping"));
    assert_eq!(value["n"].as_u64(), Some(2));
}

#[test]
fn body_json_of_another_shape_fails_with_a_decode_error() {
    let mut ctx = Context::new();
    ctx.set_response(Bytes::from_static(b"\"text\""));
    let result: Result<u32, BodyError> = ctx.body_json();
    match result {
        Err(BodyError::Decode(error)) => assert!(error.is_data()),
        _ => panic!("a string is no number"),
    }
}

#[test]
fn body_json_of_broken_json_fails_with_a_decode_error() {
    let mut ctx = Context::new();
    ctx.set_response(Bytes::from_static(b"{\"a\": "));
    let result: Result<serde_json::Value, BodyError> = ctx.body_json();
    match result {
        Err(BodyError::Decode(error)) => assert!(error.is_eof()),
        _ => panic!("the object is cut short"),
    }
}

#[test]
fn body_text_of_the_bytes_of_a_text_is_that_text() {
    let texts = ["", "a", "plain ascii", "\u{e9}t\u{e9}", "\u{1f600} and \u{10348}", "x\u{feff}y"];
    for text in texts {
        let mut ctx = Context::new();
        ctx.set_response(Bytes::from(text.to_string()));
        assert_eq!(ctx.body_text(), text);
        assert_eq!(ctx.try_body_text(), Some(text.to_string()));
    }
}

#[test]
fn body_text_reads_a_utf16_body_behind_its_byte_order_mark() {
    let mut ctx = Context::new();
    ctx.set_response(Bytes::from_static(b"\xff\xfeh\x00i\x00"));
    assert_eq!(ctx.body_text(), "hi");
    ctx.set_response(Bytes::from_static(b"\xfe\xff\x00h\x00i"));
    assert_eq!(ctx.body_text(), "hi");
}

#[test]
fn body_json_reads_the_bytes_of_the_response_it_holds() {
    let mut ctx = Context::new();
    ctx.set_response(Bytes::from_static(b"17"));
    assert_eq!(ctx.body_json::<u32>().unwrap(), 17);
    ctx.set_response(Bytes::from_static(b"[true, false]"));
    assert_eq!(ctx.body_json::<Vec<bool>>().unwrap(), vec![true, false]);
    ctx.set_response(Bytes::from_static(b"{not json"));
    assert!(matches!(ctx.body_json::<serde_json::Value>(), Err(BodyError::Decode(_))));
    ctx.set_response(Bytes::new());
    assert!(matches!(ctx.body_json::<u32>(), Err(BodyError::Decode(_))));
}
