use openai_client::error::ApiError;
use openai_client::error::TransportError;
use openai_client::exchange::Next;
use openai_client::exchange::Payload;
use openai_client::exchange::Status;
use openai_client::json::Json;
use openai_client::stt::after_send;
use openai_client::stt::get_response;
use openai_client::stt::request;
use openai_client::stt::OpenAiResponse;
use openai_client::stt::Request;
use openai_client::stt::ResponseFormat;

const FORMATS: [ResponseFormat; 5] = [
    ResponseFormat::Json,
    ResponseFormat::Text,
    ResponseFormat::Srt,
    ResponseFormat::VerboseJson,
    ResponseFormat::Vtt,
];

fn pairs(fields: &[(String, String)]) -> Vec<(&str, &str)> {
    fields.iter().map(|(name, value)| (name.as_str(), value.as_str())).collect()
}

fn lost() -> TransportError {
    TransportError { message: String::from("connection reset") }
}

#[test]
fn a_new_request_has_the_defaults() {
    let req = Request::new(vec![1, 2, 3]);
    assert_eq!(req.response_format(), ResponseFormat::Json);
    let form = req.form().expect("a form");
    assert_eq!(
        pairs(&form.fields),
        vec![
            ("model", "whisper-1"),
            ("language", "en"),
            ("prompt", ""),
            ("response_format", "json"),
            ("temperature", "0"),
        ]
    );
    assert_eq!(form.file.name, "file");
    assert_eq!(form.file.file_name, "filename.mp3");
    assert_eq!(form.file.mime, "audio/mpeg");
    assert_eq!(form.file.content, vec![1, 2, 3]);
}

#[test]
fn each_step_changes_its_own_field() {
    let req = Request::new(Vec::new())
        .with_language(String::from("fa"))
        .with_prompt(String::from("names: Verus"))
        .with_response_format(ResponseFormat::VerboseJson)
        .with_temperature(String::from("0.2"));
    assert_eq!(req.response_format(), ResponseFormat::VerboseJson);
    let form = req.form().expect("a form");
    assert_eq!(
        pairs(&form.fields),
        vec![
            ("model", "whisper-1"),
            ("language", "fa"),
            ("prompt", "names: Verus"),
            ("response_format", "verbose_json"),
            ("temperature", "0.2"),
        ]
    );
    assert!(form.file.content.is_empty());
}

#[test]
fn a_later_step_overrides_an_earlier_one() {
    let form = Request::new(vec![9])
        .with_language(String::from("fa"))
        .with_language(String::from("de"))
        .with_response_format(ResponseFormat::Srt)
        .form_given(true)
        .expect("a form");
    assert_eq!(form.fields[1], (String::from("language"), String::from("de")));
    assert_eq!(form.fields[3], (String::from("response_format"), String::from("srt")));
    assert_eq!(form.file.content, vec![9]);
}

#[test]
fn a_media_type_that_is_not_accepted_gives_the_unknown_error() {
    match Request::new(vec![1]).form_given(false) {
        Err(ApiError::Error(message)) => assert_eq!(message, "Unknown Error"),
        other => panic!("unexpected: {:?}", other),
    }
}

#[test]
fn the_request_goes_to_the_transcription_endpoint_with_the_key() {
    let post = request("sk-test", Request::new(vec![7, 8])).expect("a request");
    assert_eq!(post.url, "https://api.openai.com/v1/audio/transcriptions");
    assert_eq!(post.bearer, "sk-test");
    match post.payload {
        Payload::Multipart(form) => {
            assert_eq!(form.fields.len(), 5);
            assert_eq!(form.file.content, vec![7, 8]);
        }
        other => panic!("no form: {:?}", other),
    }
}

#[test]
fn each_format_has_its_word() {
    assert_eq!(ResponseFormat::Json.to_string(), "json");
    assert_eq!(ResponseFormat::Text.to_string(), "text");
    assert_eq!(ResponseFormat::Srt.to_string(), "srt");
    assert_eq!(ResponseFormat::VerboseJson.to_string(), "verbose_json");
    assert_eq!(ResponseFormat::Vtt.to_string(), "vtt");
}

#[test]
fn each_word_names_its_format() {
    for format in FORMATS {
        assert_eq!(ResponseFormat::from_str(&format.to_string()), Some(format));
    }
    assert_eq!(ResponseFormat::from_str("verbose_json"), Some(ResponseFormat::VerboseJson));
    assert_eq!(ResponseFormat::from_str(""), None);
    assert_eq!(ResponseFormat::from_str("JSON"), None);
    assert_eq!(ResponseFormat::from_str("Json"), None);
    assert_eq!(ResponseFormat::from_str("json "), None);
    assert_eq!(ResponseFormat::from_str("mp3"), None);
}

#[test]
fn a_json_body_gives_the_text_in_the_envelope() {
    let body = br#"{"text":"hello"}"#.to_vec();
    assert_eq!(get_response(ResponseFormat::Json, Ok(body)).expect("a transcript"), "hello");
    let body = r#"{"task":"transcribe","text":"h\u00e9llo \"you\"","duration":1.5}"#.as_bytes().to_vec();
    assert_eq!(
        get_response(ResponseFormat::Json, Ok(body)).expect("a transcript"),
        "h\u{e9}llo \"you\""
    );
}

#[test]
fn a_json_body_without_an_envelope_gives_the_empty_transcript() {
    for body in [&b"hello"[..], b"", br#"{"txt":"hello"}"#, br#"{"text":5}"#, br#"["hello"]"#] {
        assert_eq!(
            get_response(ResponseFormat::Json, Ok(body.to_vec())).expect("a transcript"),
            ""
        );
    }
}

#[test]
fn a_text_body_is_the_transcript_verbatim() {
    let body = "  Hello,\nworld. \u{e9}\u{1F600}\n";
    for format in [ResponseFormat::Text, ResponseFormat::Srt] {
        assert_eq!(
            get_response(format, Ok(body.as_bytes().to_vec())).expect("a transcript"),
            body
        );
    }
    let srt = "1\n00:00:00,000 --> 00:00:01,000\nhello\n\n";
    assert_eq!(
        get_response(ResponseFormat::Srt, Ok(srt.as_bytes().to_vec())).expect("a transcript"),
        srt
    );
    assert_eq!(
        get_response(ResponseFormat::Text, Ok(br#"{"text":"hello"}"#.to_vec()))
            .expect("a transcript"),
        r#"{"text":"hello"}"#
    );
    assert_eq!(get_response(ResponseFormat::Text, Ok(Vec::new())).expect("a transcript"), "");
}

#[test]
fn bytes_that_are_no_utf8_are_replaced_in_a_text_body() {
    assert_eq!(
        get_response(ResponseFormat::Text, Ok(vec![b'a', 0xff, b'b'])).expect("a transcript"),
        "a\u{fffd}b"
    );
}

#[test]
fn a_body_that_could_not_be_read_gives_the_empty_transcript() {
    for format in [ResponseFormat::Json, ResponseFormat::Text, ResponseFormat::Srt] {
        assert_eq!(get_response(format, Err(lost())).expect("a transcript"), "");
    }
}

#[test]
fn the_other_formats_are_refused() {
    for format in [ResponseFormat::VerboseJson, ResponseFormat::Vtt] {
        match get_response(format, Ok(br#"{"text":"hello"}"#.to_vec())) {
            Err(ApiError::Error(message)) => assert_eq!(message, "response format not supported"),
            other => panic!("unexpected: {:?}", other),
        }
        match get_response(format, Err(lost())) {
            Err(ApiError::Error(message)) => assert_eq!(message, "response format not supported"),
            other => panic!("unexpected: {:?}", other),
        }
    }
}

#[test]
fn the_envelope_is_an_object_with_a_string_named_text() {
    let read = |text: &[u8]| OpenAiResponse::from_json(&Json::from_bytes(text).expect("valid JSON"));
    assert_eq!(read(br#"{"text":"hello"}"#).expect("an envelope").text, "hello");
    assert_eq!(read(br#"{"text":""}"#).expect("an envelope").text, "");
    assert!(read(br#"{"text":null}"#).is_none());
    assert!(read(br#"{}"#).is_none());
    assert!(read(br#""hello""#).is_none());
}

#[test]
fn a_format_that_is_not_decoded_stops_before_the_body_is_read() {
    let ok = || Ok(Status::new(200).expect("a status"));
    for format in [ResponseFormat::Json, ResponseFormat::Text, ResponseFormat::Srt] {
        assert!(matches!(after_send(format, ok()), Next::ReadBody));
    }
    for format in [ResponseFormat::VerboseJson, ResponseFormat::Vtt] {
        match after_send(format, ok()) {
            Next::Stop(ApiError::Error(message)) => {
                assert_eq!(message, "response format not supported")
            }
            other => panic!("unexpected: {:?}", other),
        }
    }
}

#[test]
fn the_status_is_judged_before_the_format() {
    for format in FORMATS {
        match after_send(format, Ok(Status::new(401).expect("a status"))) {
            Next::Stop(ApiError::Error(message)) => assert_eq!(message, "401 Unauthorized"),
            other => panic!("unexpected: {:?}", other),
        }
        match after_send(format, Err(lost())) {
            Next::Stop(ApiError::RequestError(cause)) => {
                assert_eq!(cause.message, "connection reset")
            }
            other => panic!("unexpected: {:?}", other),
        }
    }
}
