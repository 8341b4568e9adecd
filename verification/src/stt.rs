//! Speech to text: audio goes out in a multipart form, a transcript comes back
//! in the format that was asked for.

use crate::error::ApiError;
use crate::error::TransportError;
use crate::exchange;
use crate::exchange::code_digits;
use crate::exchange::field_views;
use crate::exchange::occurs_in;
use crate::exchange::status_line;
use crate::exchange::FilePart;
use crate::exchange::Form;
use crate::exchange::Next;
use crate::exchange::Payload;
use crate::exchange::Post;
use crate::exchange::Status;
use crate::json::json_parse;
use crate::json::Json;
use crate::json::JsonView;
use vstd::prelude::*;
use vstd::string::*;
use vstd::utf8::decode_utf8;
use vstd::utf8::valid_utf8;

verus! {

/// Where transcriptions are asked for.
pub const ENDPOINT: &'static str = "https://api.openai.com/v1/audio/transcriptions";

/// The name of the form field that holds the audio.
pub const FILE_FIELD: &'static str = "file";

/// The file name that the audio is sent under.
pub const FILE_NAME: &'static str = "filename.mp3";

/// The media type that the audio is sent as.
pub const MIME: &'static str = "audio/mpeg";

/// The text of the error for a form that could not be put together.
pub const UNKNOWN: &'static str = "Unknown Error";

/// The text of the error for a format that transcripts are not decoded from.
pub const UNSUPPORTED: &'static str = "response format not supported";

/// The format in which a transcript is asked for.
#[derive(Debug, Clone, Copy, PartialEq, Eq, Structural)]
pub enum ResponseFormat {
    Json,
    Text,
    Srt,
    VerboseJson,
    Vtt,
}

impl ResponseFormat {
    /// The word that names the format on the wire.
    pub open spec fn token(self) -> Seq<char> {
        match self {
            ResponseFormat::Json => "json"@,
            ResponseFormat::Text => "text"@,
            ResponseFormat::Srt => "srt"@,
            ResponseFormat::VerboseJson => "verbose_json"@,
            ResponseFormat::Vtt => "vtt"@,
        }
    }

    /// The format that a word names.
    pub open spec fn named(word: Seq<char>) -> Option<ResponseFormat> {
        if word == "json"@ {
            Some(ResponseFormat::Json)
        } else if word == "text"@ {
            Some(ResponseFormat::Text)
        } else if word == "srt"@ {
            Some(ResponseFormat::Srt)
        } else if word == "verbose_json"@ {
            Some(ResponseFormat::VerboseJson)
        } else if word == "vtt"@ {
            Some(ResponseFormat::Vtt)
        } else {
            None
        }
    }

    /// Whether transcripts are decoded from the format.
    pub open spec fn supported(self) -> bool {
        self is Json || self is Text || self is Srt
    }

    /// The word that names the format on the wire.
    pub fn to_string(&self) -> (word: String)
        ensures
            word@ == self.token(),
    {
        match self {
            ResponseFormat::Json => String::from_str("json"),
            ResponseFormat::Text => String::from_str("text"),
            ResponseFormat::Srt => String::from_str("srt"),
            ResponseFormat::VerboseJson => String::from_str("verbose_json"),
            ResponseFormat::Vtt => String::from_str("vtt"),
        }
    }

    /// The format that `word` names, if it names one.
    pub fn from_str(word: &str) -> (found: Option<ResponseFormat>)
        ensures
            found == ResponseFormat::named(word@),
    {
        let word = word.to_owned();
        if word == String::from_str("json") {
            Some(ResponseFormat::Json)
        } else if word == String::from_str("text") {
            Some(ResponseFormat::Text)
        } else if word == String::from_str("srt") {
            Some(ResponseFormat::Srt)
        } else if word == String::from_str("verbose_json") {
            Some(ResponseFormat::VerboseJson)
        } else if word == String::from_str("vtt") {
            Some(ResponseFormat::Vtt)
        } else {
            None
        }
    }
}

/// Every format is named by its own word and by no other format's.
pub proof fn lemma_format_round_trip(format: ResponseFormat)
    ensures
        ResponseFormat::named(format.token()) == Some(format),
{
    reveal_strlit("json");
    reveal_strlit("text");
    reveal_strlit("srt");
    reveal_strlit("verbose_json");
    reveal_strlit("vtt");
    assert("json"@[0] != "text"@[0]);
    assert("srt"@[0] != "vtt"@[0]);
    assert("json"@.len() == 4 && "text"@.len() == 4 && "srt"@.len() == 3);
    assert("verbose_json"@.len() == 12 && "vtt"@.len() == 3);
}

/// The envelope that holds a transcript asked for as JSON.
#[derive(Debug)]
pub struct OpenAiResponse {
    pub text: String,
}

impl View for OpenAiResponse {
    type V = Seq<char>;

    open spec fn view(&self) -> Seq<char> {
        self.text@
    }
}

/// The transcript in the envelope that a JSON value stands for: an object whose
/// member `text` is a string.
pub open spec fn envelope_from_json(tree: JsonView) -> Option<Seq<char>> {
    tree.text_field("text"@)
}

impl OpenAiResponse {
    /// Reads the envelope from a JSON value.
    pub fn from_json(tree: &Json) -> (found: Option<OpenAiResponse>)
        ensures
            match found {
                Some(envelope) => envelope_from_json(tree@) == Some(envelope@),
                None => envelope_from_json(tree@) is None,
            },
    {
        match tree.text_field("text") {
            Some(text) => Some(OpenAiResponse { text }),
            None => None,
        }
    }
}

/// A transcription to ask for: the audio and what the service should know of it.
#[derive(Debug)]
pub struct Request {
    model: String,
    language: String,
    prompt: String,
    response_format: ResponseFormat,
    temperature: String,
    content: Vec<u8>,
}

/// A request as mathematics.
pub struct RequestView {
    pub model: Seq<char>,
    /// The language of the speech, as a code such as "en".
    pub language: Seq<char>,
    /// Text that guides the transcription.
    pub prompt: Seq<char>,
    pub response_format: ResponseFormat,
    /// The sampling temperature, in the decimal notation in which it is sent.
    pub temperature: Seq<char>,
    /// The audio.
    pub content: Seq<u8>,
}

impl View for Request {
    type V = RequestView;

    closed spec fn view(&self) -> RequestView {
        RequestView {
            model: self.model@,
            language: self.language@,
            prompt: self.prompt@,
            response_format: self.response_format,
            temperature: self.temperature@,
            content: self.content@,
        }
    }
}

impl RequestView {
    /// The text fields of the form that carries the request, in order.
    pub open spec fn fields(self) -> Seq<(Seq<char>, Seq<char>)> {
        seq![
            ("model"@, self.model),
            ("language"@, self.language),
            ("prompt"@, self.prompt),
            ("response_format"@, self.response_format.token()),
            ("temperature"@, self.temperature),
        ]
    }
}

/// Whether `reqwest::multipart::Part::mime_str` takes `mime` for a media type.
pub uninterp spec fn mime_accepted(mime: Seq<char>) -> bool;

/// Calls `reqwest::multipart::Part::mime_str` on an empty part: it succeeds
/// where `mime` parses as a media type.
#[verifier::external_body]
fn accepts_mime(mime: &str) -> (accepted: bool)
    ensures
        accepted == mime_accepted(mime@),
{
    reqwest::multipart::Part::bytes(Vec::new()).mime_str(mime).is_ok()
}

/// The text that `String::from_utf8_lossy` makes of `bytes`.
pub uninterp spec fn utf8_lossy(bytes: Seq<u8>) -> Seq<char>;

/// Calls `String::from_utf8_lossy`: bytes that are UTF-8 give the text they
/// encode; in other bytes each malformed sequence gives U+FFFD.
#[verifier::external_body]
fn text_of_bytes(bytes: &[u8]) -> (text: String)
    ensures
        text@ == utf8_lossy(bytes@),
        valid_utf8(bytes@) ==> text@ == decode_utf8(bytes@),
{
    String::from_utf8_lossy(bytes).into_owned()
}

impl Request {
    /// A request for the transcript of `content`, with the defaults: the model
    /// "whisper-1", English, no prompt, JSON, temperature 0.
    pub fn new(content: Vec<u8>) -> (request: Request)
        ensures
            request@ == (RequestView {
                model: "whisper-1"@,
                language: "en"@,
                prompt: ""@,
                response_format: ResponseFormat::Json,
                temperature: "0"@,
                content: content@,
            }),
    {
        Request {
            content,
            model: String::from_str("whisper-1"),
            language: String::from_str("en"),
            prompt: String::from_str(""),
            response_format: ResponseFormat::Json,
            temperature: String::from_str("0"),
        }
    }

    /// The same request, asking for `response_format`.
    pub fn with_response_format(self, response_format: ResponseFormat) -> (request: Request)
        ensures
            request@ == (RequestView { response_format, ..self@ }),
    {
        let mut request = self;
        request.response_format = response_format;
        request
    }

    /// The same request, for speech in `language`.
    pub fn with_language(self, language: String) -> (request: Request)
        ensures
            request@ == (RequestView { language: language@, ..self@ }),
    {
        let mut request = self;
        request.language = language;
        request
    }

    /// The same request, guided by `prompt`.
    pub fn with_prompt(self, prompt: String) -> (request: Request)
        ensures
            request@ == (RequestView { prompt: prompt@, ..self@ }),
    {
        let mut request = self;
        request.prompt = prompt;
        request
    }

    /// The same request, at the sampling temperature that `temperature` writes
    /// in decimal notation.
    pub fn with_temperature(self, temperature: String) -> (request: Request)
        ensures
            request@ == (RequestView { temperature: temperature@, ..self@ }),
    {
        let mut request = self;
        request.temperature = temperature;
        request
    }

    /// The format that the transcript is asked for in.
    pub fn response_format(&self) -> (format: ResponseFormat)
        ensures
            format == self@.response_format,
    {
        self.response_format
    }

    /// The form that carries the request, given whether the media type of the
    /// audio was accepted.
    ///
    /// With the media type accepted, the form holds the five text fields and the
    /// audio as a file. Otherwise there is no form, and the error says no more
    /// than that.
    pub fn form_given(self, accepted: bool) -> (outcome: Result<Form, ApiError>)
        ensures
            accepted ==> {
                &&& outcome matches Ok(form)
                &&& field_views(form.fields@) == self@.fields()
                &&& form.file.name@ == FILE_FIELD@
                &&& form.file.file_name@ == FILE_NAME@
                &&& form.file.mime@ == MIME@
                &&& form.file.content@ == self@.content
            },
            !accepted ==> {
                &&& outcome matches Err(ApiError::Error(message))
                &&& message@ == UNKNOWN@
            },
    {
        if !accepted {
            return Err(ApiError::Error(String::from_str(UNKNOWN)));
        }
        let ghost wanted = self@.fields();
        let mut fields: Vec<(String, String)> = Vec::new();
        fields.push((String::from_str("model"), self.model));
        fields.push((String::from_str("language"), self.language));
        fields.push((String::from_str("prompt"), self.prompt));
        fields.push((String::from_str("response_format"), self.response_format.to_string()));
        fields.push((String::from_str("temperature"), self.temperature));
        assert(field_views(fields@) =~= wanted);
        Ok(
            Form {
                fields,
                file: FilePart {
                    name: String::from_str(FILE_FIELD),
                    file_name: String::from_str(FILE_NAME),
                    mime: String::from_str(MIME),
                    content: self.content,
                },
            },
        )
    }

    /// The form that carries the request: the text fields `model`, `language`,
    /// `prompt`, `response_format` and `temperature`, and the audio as the file
    /// `file`. It fails where the media type of the audio is not accepted.
    pub fn form(self) -> (outcome: Result<Form, ApiError>)
        ensures
            mime_accepted(MIME@) ==> {
                &&& outcome matches Ok(form)
                &&& field_views(form.fields@) == self@.fields()
                &&& form.file.name@ == FILE_FIELD@
                &&& form.file.file_name@ == FILE_NAME@
                &&& form.file.mime@ == MIME@
                &&& form.file.content@ == self@.content
            },
            !mime_accepted(MIME@) ==> {
                &&& outcome matches Err(ApiError::Error(message))
                &&& message@ == UNKNOWN@
            },
    {
        let accepted = accepts_mime(MIME);
        self.form_given(accepted)
    }
}

/// The request that asks the endpoint for a transcript: the form of `req`, sent
/// in the name of `api_key`.
pub fn request(api_key: &str, req: Request) -> (outcome: Result<Post, ApiError>)
    ensures
        mime_accepted(MIME@) ==> {
            &&& outcome matches Ok(post)
            &&& post.url@ == ENDPOINT@
            &&& post.bearer@ == api_key@
            &&& post.payload matches Payload::Multipart(form)
            &&& field_views(form.fields@) == req@.fields()
            &&& form.file.name@ == FILE_FIELD@
            &&& form.file.file_name@ == FILE_NAME@
            &&& form.file.mime@ == MIME@
            &&& form.file.content@ == req@.content
        },
        !mime_accepted(MIME@) ==> {
            &&& outcome matches Err(ApiError::Error(message))
            &&& message@ == UNKNOWN@
        },
{
    match req.form() {
        Ok(form) => Ok(
            Post {
                url: String::from_str(ENDPOINT),
                bearer: String::from_str(api_key),
                payload: Payload::Multipart(form),
            },
        ),
        Err(error) => Err(error),
    }
}

/// Decides on what sending gave, for a transcript asked for in `response_format`.
///
/// As for any exchange, a transport failure or a status outside 200 to 299 ends
/// it. Beyond that, a successful response in a format that transcripts are not
/// decoded from ends it before the body is read.
pub fn after_send(
    response_format: ResponseFormat,
    sent: Result<Status, TransportError>,
) -> (next: Next)
    ensures
        match sent {
            Err(cause) => next == Next::Stop(ApiError::RequestError(cause)),
            Ok(status) => if !(200 <= status@ < 300) {
                &&& next matches Next::Stop(ApiError::Error(message))
                &&& message@ == status_line(status@)
                &&& message@.len() >= 4
                &&& message@.subrange(0, 3) == code_digits(status@)
                &&& occurs_in(code_digits(status@), message@)
            } else if response_format.supported() {
                next is ReadBody
            } else {
                &&& next matches Next::Stop(ApiError::Error(message))
                &&& message@ == UNSUPPORTED@
            },
        },
{
    match exchange::after_send(sent) {
        Next::ReadBody => match response_format {
            ResponseFormat::VerboseJson | ResponseFormat::Vtt => Next::Stop(
                ApiError::Error(String::from_str(UNSUPPORTED)),
            ),
            _ => Next::ReadBody,
        },
        Next::Stop(error) => Next::Stop(error),
    }
}

/// The transcript in a body that was asked for as JSON: the member `text` of the
/// object that the bytes write, and the empty text where they write none.
pub open spec fn transcript_of_json(bytes: Seq<u8>) -> Seq<char> {
    match json_parse(bytes) {
        Some(tree) => match envelope_from_json(tree) {
            Some(text) => text,
            None => Seq::empty(),
        },
        None => Seq::empty(),
    }
}

/// The transcript that a body holds, read in the format that was asked for.
///
/// Asked for as JSON, it is the text in the envelope, or empty where the body
/// holds no envelope. Asked for as plain text or as subtitles, it is the body
/// itself, read as UTF-8. A body that could not be read gives the empty
/// transcript. The other formats are refused.
pub fn get_response(
    response_format: ResponseFormat,
    body: Result<Vec<u8>, TransportError>,
) -> (outcome: Result<String, ApiError>)
    ensures
        !response_format.supported() ==> {
            &&& outcome matches Err(ApiError::Error(message))
            &&& message@ == UNSUPPORTED@
        },
        response_format.supported() ==> {
            &&& outcome matches Ok(transcript)
            &&& match body {
                Err(_) => transcript@ == Seq::<char>::empty(),
                Ok(bytes) => if response_format is Json {
                    transcript@ == transcript_of_json(bytes@)
                } else {
                    &&& transcript@ == utf8_lossy(bytes@)
                    &&& valid_utf8(bytes@) ==> transcript@ == decode_utf8(bytes@)
                },
            }
        },
{
    match response_format {
        ResponseFormat::Json => {
            match body {
                Ok(bytes) => {
                    let envelope = match Json::from_bytes(bytes.as_slice()) {
                        Some(tree) => OpenAiResponse::from_json(&tree),
                        None => None,
                    };
                    match envelope {
                        Some(envelope) => Ok(envelope.text),
                        None => Ok(String::new()),
                    }
                },
                Err(_) => Ok(String::new()),
            }
        },
        ResponseFormat::Text | ResponseFormat::Srt => {
            match body {
                Ok(bytes) => Ok(text_of_bytes(bytes.as_slice())),
                Err(_) => Ok(String::new()),
            }
        },
        ResponseFormat::VerboseJson | ResponseFormat::Vtt => Err(
            ApiError::Error(String::from_str(UNSUPPORTED)),
        ),
    }
}

} // verus!
