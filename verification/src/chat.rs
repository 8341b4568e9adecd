//! Chat completions: a conversation goes out as JSON, candidate replies and the
//! token count come back.

use crate::error::ApiError;
use crate::error::TransportError;
use crate::exchange::Payload;
use crate::exchange::Post;
use crate::json::item_views;
use crate::json::json_bytes;
use crate::json::json_parse;
use crate::json::lemma_array_view;
use crate::json::lemma_object_view;
use crate::json::lemma_member_found;
use crate::json::member_views;
use crate::json::print;
use crate::json::Json;
use crate::json::JsonView;
use vstd::prelude::*;
use vstd::string::*;

verus! {

/// Where chat completions are asked for.
pub const ENDPOINT: &'static str = "https://api.openai.com/v1/chat/completions";

/// The text of the error for a body that does not hold a response.
pub const UNDECODABLE: &'static str = "error decoding response body";

/// One turn of a conversation.
#[derive(Debug)]
pub struct Message {
    /// Who speaks: by convention "system", "user" or "assistant".
    pub role: String,
    pub content: String,
}

/// A message as mathematics: its two texts.
pub struct MessageView {
    pub role: Seq<char>,
    pub content: Seq<char>,
}

impl View for Message {
    type V = MessageView;

    open spec fn view(&self) -> MessageView {
        MessageView { role: self.role@, content: self.content@ }
    }
}

/// The views of the messages of a conversation, in order.
pub open spec fn conversation(messages: Seq<Message>) -> Seq<MessageView> {
    messages.map_values(|message: Message| message@)
}

impl MessageView {
    /// The JSON object that stands for the message.
    pub open spec fn to_json(self) -> JsonView {
        JsonView::Object(
            seq![("role"@, JsonView::Text(self.role)), ("content"@, JsonView::Text(self.content))],
        )
    }

    /// The message that a JSON value stands for: an object whose members `role`
    /// and `content` are strings. Other members are passed over.
    pub open spec fn from_json(tree: JsonView) -> Option<MessageView> {
        match (tree.text_field("role"@), tree.text_field("content"@)) {
            (Some(role), Some(content)) => Some(MessageView { role, content }),
            _ => None,
        }
    }
}

/// The JSON array that stands for a conversation.
pub open spec fn conversation_to_json(messages: Seq<MessageView>) -> JsonView {
    JsonView::Array(messages.map_values(|message: MessageView| message.to_json()))
}

/// The conversation that a JSON value stands for: an array of which every item
/// stands for a message.
pub open spec fn conversation_from_json(tree: JsonView) -> Option<Seq<MessageView>> {
    match tree {
        JsonView::Array(items) => if forall|i: int|
            0 <= i < items.len() ==> (#[trigger] MessageView::from_json(items[i])) is Some {
            Some(items.map_values(|item: JsonView| MessageView::from_json(item)->0))
        } else {
            None
        },
        _ => None,
    }
}

impl Message {
    /// The message as a JSON object.
    pub fn to_json(&self) -> (tree: Json)
        ensures
            tree@ == self@.to_json(),
    {
        let mut members: Vec<(String, Json)> = Vec::new();
        members.push((String::from_str("role"), Json::Text(self.role.clone())));
        members.push((String::from_str("content"), Json::Text(self.content.clone())));
        proof {
            lemma_object_view(members);
            assert(member_views(members@) =~= self@.to_json()->Object_0);
        }
        Json::Object(members)
    }

    /// Reads a message from a JSON value.
    pub fn from_json(tree: &Json) -> (found: Option<Message>)
        ensures
            match found {
                Some(message) => MessageView::from_json(tree@) == Some(message@),
                None => MessageView::from_json(tree@) is None,
            },
    {
        match tree.text_field("role") {
            Some(role) => match tree.text_field("content") {
                Some(content) => Some(Message { role, content }),
                None => None,
            },
            None => None,
        }
    }
}

/// A whole conversation as a JSON array.
pub fn conversation_json(messages: &Vec<Message>) -> (tree: Json)
    ensures
        tree@ == conversation_to_json(conversation(messages@)),
{
    let mut items: Vec<Json> = Vec::new();
    let mut i: usize = 0;
    while i < messages.len()
        invariant
            i <= messages.len(),
            items.len() == i,
            forall|k: int| 0 <= k < i ==> (#[trigger] items[k])@ == messages[k]@.to_json(),
        decreases messages.len() - i,
    {
        items.push(messages[i].to_json());
        i = i + 1;
    }
    proof {
        lemma_array_view(items);
        assert(item_views(items@) =~= conversation_to_json(conversation(messages@))->Array_0);
    }
    Json::Array(items)
}

/// Reads a conversation from a JSON value.
pub fn conversation_of_json(tree: &Json) -> (found: Option<Vec<Message>>)
    ensures
        match found {
            Some(messages) => conversation_from_json(tree@) == Some(conversation(messages@)),
            None => conversation_from_json(tree@) is None,
        },
{
    match tree {
        Json::Array(items) => {
            proof {
                lemma_array_view(*items);
            }
            let mut messages: Vec<Message> = Vec::new();
            let mut i: usize = 0;
            while i < items.len()
                invariant
                    i <= items.len(),
                    messages.len() == i,
                    tree@ == JsonView::Array(item_views(items@)),
                    forall|k: int|
                        0 <= k < i ==> MessageView::from_json(#[trigger] items[k]@) == Some(
                            messages[k]@,
                        ),
                decreases items.len() - i,
            {
                match Message::from_json(&items[i]) {
                    Some(message) => {
                        messages.push(message);
                    },
                    None => {
                        proof {
                            assert(item_views(items@)[i as int] == items[i as int]@);
                        }
                        return None;
                    },
                }
                i = i + 1;
            }
            proof {
                let views = item_views(items@);
                assert forall|k: int| 0 <= k < views.len() implies (
                #[trigger] MessageView::from_json(views[k])) is Some by {
                    assert(views[k] == items[k]@);
                }
                assert(conversation_from_json(tree@)->0 =~= conversation(messages@));
            }
            Some(messages)
        },
        _ => None,
    }
}

/// A message survives the way into JSON and back, field for field.
pub proof fn lemma_message_round_trip(message: MessageView)
    ensures
        MessageView::from_json(message.to_json()) == Some(message),
{
    reveal_strlit("role");
    reveal_strlit("content");
    let members = message.to_json()->Object_0;
    assert(members[0].0.len() == 4 && members[1].0.len() == 7);
    lemma_member_found(members, 0);
    lemma_member_found(members, 1);
}

/// A conversation survives the way into JSON and back: the same messages in the
/// same order.
pub proof fn lemma_conversation_round_trip(messages: Seq<MessageView>)
    ensures
        conversation_from_json(conversation_to_json(messages)) == Some(messages),
{
    let items = conversation_to_json(messages)->Array_0;
    assert forall|i: int| 0 <= i < items.len() implies (#[trigger] MessageView::from_json(
        items[i],
    )) == Some(messages[i]) by {
        lemma_message_round_trip(messages[i]);
    }
    assert(conversation_from_json(conversation_to_json(messages))->0 =~= messages);
}

/// What a chat completion is asked with. The conversation stays the caller's.
#[derive(Debug)]
pub struct ChatCompletionRequest<'a> {
    pub messages: &'a Vec<Message>,
    /// The most tokens that the reply may have.
    pub max_tokens: u32,
    pub model: String,
}

/// A request as mathematics, with the conversation it borrows.
pub struct ChatCompletionRequestView {
    pub messages: Seq<MessageView>,
    pub max_tokens: u32,
    pub model: Seq<char>,
}

impl<'a> View for ChatCompletionRequest<'a> {
    type V = ChatCompletionRequestView;

    open spec fn view(&self) -> ChatCompletionRequestView {
        ChatCompletionRequestView {
            messages: conversation(self.messages@),
            max_tokens: self.max_tokens,
            model: self.model@,
        }
    }
}

impl ChatCompletionRequestView {
    /// The JSON object that stands for the request: its members `messages`,
    /// `max_tokens` and `model`, in this order.
    pub open spec fn to_json(self) -> JsonView {
        JsonView::Object(
            seq![
                ("messages"@, conversation_to_json(self.messages)),
                ("max_tokens"@, JsonView::Number(Some(self.max_tokens as u64))),
                ("model"@, JsonView::Text(self.model)),
            ],
        )
    }
}

impl<'a> ChatCompletionRequest<'a> {
    /// The request as a JSON object.
    pub fn to_json(&self) -> (tree: Json)
        ensures
            tree@ == self@.to_json(),
    {
        let mut members: Vec<(String, Json)> = Vec::new();
        members.push((String::from_str("messages"), conversation_json(self.messages)));
        members.push((String::from_str("max_tokens"), Json::Number(Some(self.max_tokens as u64))));
        members.push((String::from_str("model"), Json::Text(self.model.clone())));
        proof {
            lemma_object_view(members);
            assert(member_views(members@) =~= self@.to_json()->Object_0);
        }
        Json::Object(members)
    }
}

/// Everything that a request was built with can be read back from its JSON:
/// the conversation with the same messages in the same order, the token limit
/// and the model.
pub proof fn lemma_request_round_trip(request: ChatCompletionRequestView)
    ensures
        request.to_json().field("messages"@) == Some(conversation_to_json(request.messages)),
        conversation_from_json(conversation_to_json(request.messages)) == Some(request.messages),
        request.to_json().u32_field("max_tokens"@) == Some(request.max_tokens),
        request.to_json().text_field("model"@) == Some(request.model),
{
    reveal_strlit("messages");
    reveal_strlit("max_tokens");
    reveal_strlit("model");
    let members = request.to_json()->Object_0;
    assert(members[0].0.len() == 8 && members[1].0.len() == 10 && members[2].0.len() == 5);
    lemma_member_found(members, 0);
    lemma_member_found(members, 1);
    lemma_member_found(members, 2);
    lemma_conversation_round_trip(request.messages);
}

/// The request that asks the endpoint for a completion: the JSON of `req`, sent
/// in the name of `api_key`.
pub fn request(api_key: &str, req: ChatCompletionRequest<'_>) -> (post: Post)
    ensures
        post.url@ == ENDPOINT@,
        post.bearer@ == api_key@,
        post.payload matches Payload::Json(body) && body@ == json_bytes(req@.to_json()),
{
    Post {
        url: String::from_str(ENDPOINT),
        bearer: String::from_str(api_key),
        payload: Payload::Json(print(&req.to_json())),
    }
}

/// How many tokens an exchange took.
#[derive(Debug)]
pub struct Usage {
    pub prompt_tokens: u32,
    pub completion_tokens: u32,
    pub total_tokens: u32,
}

/// The token count that a JSON value stands for: an object whose members
/// `prompt_tokens`, `completion_tokens` and `total_tokens` are unsigned integers
/// of 32 bits.
pub open spec fn usage_from_json(tree: JsonView) -> Option<Usage> {
    match (
        tree.u32_field("prompt_tokens"@),
        tree.u32_field("completion_tokens"@),
        tree.u32_field("total_tokens"@),
    ) {
        (Some(prompt_tokens), Some(completion_tokens), Some(total_tokens)) => Some(
            Usage { prompt_tokens, completion_tokens, total_tokens },
        ),
        _ => None,
    }
}

impl Usage {
    /// Reads a token count from a JSON value.
    pub fn from_json(tree: &Json) -> (found: Option<Usage>)
        ensures
            found == usage_from_json(tree@),
    {
        match tree.u32_field("prompt_tokens") {
            Some(prompt_tokens) => match tree.u32_field("completion_tokens") {
                Some(completion_tokens) => match tree.u32_field("total_tokens") {
                    Some(total_tokens) => Some(
                        Usage { prompt_tokens, completion_tokens, total_tokens },
                    ),
                    None => None,
                },
                None => None,
            },
            None => None,
        }
    }
}

/// One candidate reply.
#[derive(Debug)]
pub struct Choice {
    /// The place of the candidate among those returned.
    pub index: u8,
    pub message: Message,
    /// Why the model stopped.
    pub finish_reason: String,
}

/// A candidate as mathematics.
pub struct ChoiceView {
    pub index: u8,
    pub message: MessageView,
    pub finish_reason: Seq<char>,
}

impl View for Choice {
    type V = ChoiceView;

    open spec fn view(&self) -> ChoiceView {
        ChoiceView {
            index: self.index,
            message: self.message@,
            finish_reason: self.finish_reason@,
        }
    }
}

/// The views of candidates, in order.
pub open spec fn choice_views(choices: Seq<Choice>) -> Seq<ChoiceView> {
    choices.map_values(|choice: Choice| choice@)
}

impl ChoiceView {
    /// The candidate that a JSON value stands for: an object whose member `index`
    /// is an unsigned integer of 8 bits, whose member `message` stands for a
    /// message and whose member `finish_reason` is a string.
    pub open spec fn from_json(tree: JsonView) -> Option<ChoiceView> {
        match (tree.u8_field("index"@), tree.field("message"@), tree.text_field("finish_reason"@)) {
            (Some(index), Some(message), Some(finish_reason)) => match MessageView::from_json(
                message,
            ) {
                Some(message) => Some(ChoiceView { index, message, finish_reason }),
                None => None,
            },
            _ => None,
        }
    }
}

/// The candidates that a JSON value stands for: an array of which every item
/// stands for a candidate.
pub open spec fn choices_from_json(tree: JsonView) -> Option<Seq<ChoiceView>> {
    match tree {
        JsonView::Array(items) => if forall|i: int|
            0 <= i < items.len() ==> (#[trigger] ChoiceView::from_json(items[i])) is Some {
            Some(items.map_values(|item: JsonView| ChoiceView::from_json(item)->0))
        } else {
            None
        },
        _ => None,
    }
}

impl Choice {
    /// Reads a candidate from a JSON value.
    pub fn from_json(tree: &Json) -> (found: Option<Choice>)
        ensures
            match found {
                Some(choice) => ChoiceView::from_json(tree@) == Some(choice@),
                None => ChoiceView::from_json(tree@) is None,
            },
    {
        match tree.u8_field("index") {
            Some(index) => match tree.get("message") {
                Some(message) => match tree.text_field("finish_reason") {
                    Some(finish_reason) => match Message::from_json(message) {
                        Some(message) => Some(Choice { index, message, finish_reason }),
                        None => None,
                    },
                    None => None,
                },
                None => None,
            },
            None => None,
        }
    }
}

/// Reads the candidates from a JSON value.
fn choices_of_json(tree: &Json) -> (found: Option<Vec<Choice>>)
    ensures
        match found {
            Some(choices) => choices_from_json(tree@) == Some(choice_views(choices@)),
            None => choices_from_json(tree@) is None,
        },
{
    match tree {
        Json::Array(items) => {
            proof {
                lemma_array_view(*items);
            }
            let mut choices: Vec<Choice> = Vec::new();
            let mut i: usize = 0;
            while i < items.len()
                invariant
                    i <= items.len(),
                    choices.len() == i,
                    tree@ == JsonView::Array(item_views(items@)),
                    forall|k: int|
                        0 <= k < i ==> ChoiceView::from_json(#[trigger] items[k]@) == Some(
                            choices[k]@,
                        ),
                decreases items.len() - i,
            {
                match Choice::from_json(&items[i]) {
                    Some(choice) => {
                        choices.push(choice);
                    },
                    None => {
                        proof {
                            assert(item_views(items@)[i as int] == items[i as int]@);
                        }
                        return None;
                    },
                }
                i = i + 1;
            }
            proof {
                let views = item_views(items@);
                assert forall|k: int| 0 <= k < views.len() implies (
                #[trigger] ChoiceView::from_json(views[k])) is Some by {
                    assert(views[k] == items[k]@);
                }
                assert(choices_from_json(tree@)->0 =~= choice_views(choices@));
            }
            Some(choices)
        },
        _ => None,
    }
}

/// What the endpoint answers a chat completion with.
#[derive(Debug)]
pub struct ChatCompletionResponse {
    pub id: String,
    pub object: String,
    /// When the completion was made, in seconds since the epoch.
    pub created: u64,
    pub model: String,
    pub choices: Vec<Choice>,
    pub usage: Usage,
}

/// A response as mathematics.
pub struct ChatCompletionResponseView {
    pub id: Seq<char>,
    pub object: Seq<char>,
    pub created: u64,
    pub model: Seq<char>,
    pub choices: Seq<ChoiceView>,
    pub usage: Usage,
}

impl View for ChatCompletionResponse {
    type V = ChatCompletionResponseView;

    open spec fn view(&self) -> ChatCompletionResponseView {
        ChatCompletionResponseView {
            id: self.id@,
            object: self.object@,
            created: self.created,
            model: self.model@,
            choices: choice_views(self.choices@),
            usage: self.usage,
        }
    }
}

impl ChatCompletionResponseView {
    /// The response that a JSON value stands for: an object whose members `id`,
    /// `object` and `model` are strings, whose member `created` is an unsigned
    /// integer of 64 bits, whose member `choices` stands for candidates and whose
    /// member `usage` stands for a token count. Other members are passed over.
    pub open spec fn from_json(tree: JsonView) -> Option<ChatCompletionResponseView> {
        match (
            tree.text_field("id"@),
            tree.text_field("object"@),
            tree.uint_field("created"@),
            tree.text_field("model"@),
            tree.field("choices"@),
            tree.field("usage"@),
        ) {
            (Some(id), Some(object), Some(created), Some(model), Some(choices), Some(usage)) => match (
                choices_from_json(choices),
                usage_from_json(usage),
            ) {
                (Some(choices), Some(usage)) => Some(
                    ChatCompletionResponseView { id, object, created, model, choices, usage },
                ),
                _ => None,
            },
            _ => None,
        }
    }

    /// The response that the bytes of a body hold: they have to be JSON text that
    /// stands for one.
    pub open spec fn from_bytes(bytes: Seq<u8>) -> Option<ChatCompletionResponseView> {
        match json_parse(bytes) {
            Some(tree) => ChatCompletionResponseView::from_json(tree),
            None => None,
        }
    }
}

impl ChatCompletionResponse {
    /// Reads a response from a JSON value.
    pub fn from_json(tree: &Json) -> (found: Option<ChatCompletionResponse>)
        ensures
            match found {
                Some(response) => ChatCompletionResponseView::from_json(tree@) == Some(response@),
                None => ChatCompletionResponseView::from_json(tree@) is None,
            },
    {
        let id = match tree.text_field("id") {
            Some(id) => id,
            None => { return None; },
        };
        let object = match tree.text_field("object") {
            Some(object) => object,
            None => { return None; },
        };
        let created = match tree.uint_field("created") {
            Some(created) => created,
            None => { return None; },
        };
        let model = match tree.text_field("model") {
            Some(model) => model,
            None => { return None; },
        };
        let choices = match tree.get("choices") {
            Some(choices) => choices,
            None => { return None; },
        };
        let usage = match tree.get("usage") {
            Some(usage) => usage,
            None => { return None; },
        };
        match choices_of_json(choices) {
            Some(choices) => match Usage::from_json(usage) {
                Some(usage) => Some(
                    ChatCompletionResponse { id, object, created, model, choices, usage },
                ),
                None => None,
            },
            None => None,
        }
    }
}

/// Appends what the user said to the conversation.
pub fn append_user(conversation: &mut Vec<Message>, content: String)
    ensures
        final(conversation)@.len() == old(conversation)@.len() + 1,
        final(conversation)@.subrange(0, old(conversation)@.len() as int) == old(conversation)@,
        final(conversation)@.last()@ == (MessageView { role: "user"@, content: content@ }),
{
    conversation.push(Message { role: String::from_str("user"), content });
}

/// Appends the reply to the conversation: a copy of the first candidate's
/// message. A response without candidates leaves the conversation as it is.
pub fn append_reply(
    conversation: &mut Vec<Message>,
    response: &ChatCompletionResponse,
) -> (appended: bool)
    ensures
        appended == (response.choices@.len() > 0),
        appended ==> {
            &&& final(conversation)@.len() == old(conversation)@.len() + 1
            &&& final(conversation)@.subrange(0, old(conversation)@.len() as int) == old(
                conversation,
            )@
            &&& final(conversation)@.last()@ == response.choices@[0].message@
        },
        !appended ==> final(conversation)@ == old(conversation)@,
{
    if response.choices.len() > 0 {
        let first = &response.choices[0];
        conversation.push(
            Message { role: first.message.role.clone(), content: first.message.content.clone() },
        );
        true
    } else {
        false
    }
}

/// Concludes the call from what reading the body gave.
///
/// A body that holds a response gives that response. One that holds none ends
/// the call in an `Error` that says so. Where the body could not be read at all,
/// the failure is folded into an `Error` that keeps its text.
pub fn response(
    body: Result<Vec<u8>, TransportError>,
) -> (outcome: Result<ChatCompletionResponse, ApiError>)
    ensures
        match body {
            Err(cause) => outcome == Err::<ChatCompletionResponse, ApiError>(
                ApiError::Error(cause.message),
            ),
            Ok(bytes) => match ChatCompletionResponseView::from_bytes(bytes@) {
                Some(response) => outcome matches Ok(got) && got@ == response,
                None => outcome matches Err(ApiError::Error(message)) && message@
                    == UNDECODABLE@,
            },
        },
{
    match body {
        Err(cause) => Err(ApiError::from(cause)),
        Ok(bytes) => {
            let decoded = match Json::from_bytes(bytes.as_slice()) {
                Some(tree) => ChatCompletionResponse::from_json(&tree),
                None => None,
            };
            match decoded {
                Some(response) => Ok(response),
                None => Err(ApiError::Error(String::from_str(UNDECODABLE))),
            }
        },
    }
}

} // verus!
