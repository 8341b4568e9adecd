//! Text to speech: text and a choice of voice go out as JSON, audio comes back.

use crate::error::ApiError;
use crate::error::TransportError;
use crate::exchange::Payload;
use crate::exchange::Post;
use crate::json::json_bytes;
use crate::json::lemma_object_view;
use crate::json::member_views;
use crate::json::print;
use crate::json::Json;
use crate::json::JsonView;
use vstd::prelude::*;
use vstd::string::*;

verus! {

/// Where speech is asked for.
pub const ENDPOINT: &'static str = "https://api.openai.com/v1/audio/speech";

/// The text of the error for audio that could not be read.
pub const UNREADABLE: &'static str = "Error in posting data";

/// The encoding in which the audio is asked for.
#[derive(Debug, Clone, Copy, PartialEq, Eq, Structural)]
pub enum ResponseFormat {
    Mp3,
    Opus,
    Aac,
    Flac,
}

impl ResponseFormat {
    /// The word that names the encoding on the wire.
    pub open spec fn token(self) -> Seq<char> {
        match self {
            ResponseFormat::Mp3 => "mp3"@,
            ResponseFormat::Opus => "opus"@,
            ResponseFormat::Aac => "aac"@,
            ResponseFormat::Flac => "flac"@,
        }
    }

    /// The word that names the encoding on the wire.
    pub fn as_str(&self) -> (word: &'static str)
        ensures
            word@ == self.token(),
    {
        match self {
            ResponseFormat::Mp3 => "mp3",
            ResponseFormat::Opus => "opus",
            ResponseFormat::Aac => "aac",
            ResponseFormat::Flac => "flac",
        }
    }
}

/// The voice that speaks.
#[derive(Debug, Clone, Copy, PartialEq, Eq, Structural)]
pub enum Voice {
    Alloy,
    Echo,
    Fable,
    Onyx,
    Nova,
    Shimmer,
}

impl Voice {
    /// The word that names the voice on the wire.
    pub open spec fn token(self) -> Seq<char> {
        match self {
            Voice::Alloy => "alloy"@,
            Voice::Echo => "echo"@,
            Voice::Fable => "fable"@,
            Voice::Onyx => "onyx"@,
            Voice::Nova => "nova"@,
            Voice::Shimmer => "shimmer"@,
        }
    }

    /// The word that names the voice on the wire.
    pub fn as_str(&self) -> (word: &'static str)
        ensures
            word@ == self.token(),
    {
        match self {
            Voice::Alloy => "alloy",
            Voice::Echo => "echo",
            Voice::Fable => "fable",
            Voice::Onyx => "onyx",
            Voice::Nova => "nova",
            Voice::Shimmer => "shimmer",
        }
    }
}

/// Speech to ask for.
#[derive(Debug)]
pub struct Request {
    model: String,
    input: String,
    voice: Voice,
    response_format: ResponseFormat,
}

/// A request as mathematics.
pub struct RequestView {
    pub model: Seq<char>,
    /// The text to speak.
    pub input: Seq<char>,
    pub voice: Voice,
    pub response_format: ResponseFormat,
}

impl View for Request {
    type V = RequestView;

    closed spec fn view(&self) -> RequestView {
        RequestView {
            model: self.model@,
            input: self.input@,
            voice: self.voice,
            response_format: self.response_format,
        }
    }
}

impl RequestView {
    /// The JSON object that stands for the request: its members `model`, `input`,
    /// `voice` and `response_format`, in this order, the last two as the words
    /// that name them.
    pub open spec fn to_json(self) -> JsonView {
        JsonView::Object(
            seq![
                ("model"@, JsonView::Text(self.model)),
                ("input"@, JsonView::Text(self.input)),
                ("voice"@, JsonView::Text(self.voice.token())),
                ("response_format"@, JsonView::Text(self.response_format.token())),
            ],
        )
    }
}

impl Request {
    /// A request to have `input` spoken by `voice`, as MP3.
    pub fn new(model: String, input: String, voice: Voice) -> (request: Request)
        ensures
            request@ == (RequestView {
                model: model@,
                input: input@,
                voice,
                response_format: ResponseFormat::Mp3,
            }),
    {
        Request { model, input, voice, response_format: ResponseFormat::Mp3 }
    }

    /// The same request, asking for `response_format`.
    pub fn with_response_format(self, response_format: ResponseFormat) -> (request: Request)
        ensures
            request@ == (RequestView { response_format, ..self@ }),
    {
        let mut request = self;
        request.response_format = response_format;
        request
    }

    /// The request as a JSON object.
    pub fn to_json(&self) -> (tree: Json)
        ensures
            tree@ == self@.to_json(),
    {
        let mut members: Vec<(String, Json)> = Vec::new();
        members.push((String::from_str("model"), Json::Text(self.model.clone())));
        members.push((String::from_str("input"), Json::Text(self.input.clone())));
        members.push((String::from_str("voice"), Json::Text(String::from_str(self.voice.as_str()))));
        members.push(
            (
                String::from_str("response_format"),
                Json::Text(String::from_str(self.response_format.as_str())),
            ),
        );
        proof {
            lemma_object_view(members);
            assert(member_views(members@) =~= self@.to_json()->Object_0);
        }
        Json::Object(members)
    }
}

/// The request that asks the endpoint for speech: the JSON of `req`, sent in
/// the name of `api_key`.
pub fn request(req: Request, api_key: &str) -> (post: Post)
    ensures
        post.url@ == ENDPOINT@,
        post.bearer@ == api_key@,
        post.payload matches Payload::Json(body) && body@ == json_bytes(req@.to_json()),
{
    Post {
        url: String::from_str(ENDPOINT),
        bearer: String::from_str(api_key),
        payload: Payload::Json(print(&req.to_json())),
    }
}

/// Concludes the call from what reading the body gave: the audio as it came, or
/// an `Error` where it could not be read.
pub fn audio(body: Result<Vec<u8>, TransportError>) -> (outcome: Result<Vec<u8>, ApiError>)
    ensures
        match body {
            Ok(bytes) => outcome == Ok::<Vec<u8>, ApiError>(bytes),
            Err(_) => outcome matches Err(ApiError::Error(message)) && message@ == UNREADABLE@,
        },
{
    match body {
        Ok(bytes) => Ok(bytes),
        Err(_) => Err(ApiError::Error(String::from_str(UNREADABLE))),
    }
}

} // verus!
