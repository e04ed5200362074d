//! The messaging platform: the inbound update and the requests that send a
//! text or a video back.

use crate::json::Json;
use crate::text::{decimal, i64_to_string};
use vstd::prelude::*;
use vstd::string::*;

verus! {

/// One inbound chat event.
#[derive(Debug, PartialEq, Eq)]
pub struct Update {
    pub message: Message,
}

/// A chat message: who sent it and what it says.
#[derive(Debug, PartialEq, Eq)]
pub struct Message {
    pub from: User,
    pub text: String,
}

/// The sender of a message.
#[derive(Debug, PartialEq, Eq)]
pub struct User {
    pub id: i64,
}

/// Mathematical content of an [`Update`]: who sent the message and what it
/// says.
pub struct UpdateView {
    pub id: i64,
    pub text: Seq<char>,
}

impl View for Update {
    type V = UpdateView;

    open spec fn view(&self) -> UpdateView {
        UpdateView { id: self.message.from.id, text: self.message.text@ }
    }
}

/// The view of an optional update.
pub open spec fn update_view(update: Option<Update>) -> Option<UpdateView> {
    match update {
        Some(u) => Some(u@),
        None => None,
    }
}

/// The sender that a JSON value holds: a record of one field, `id`, which
/// is an integer.
pub open spec fn decode_user(value: Json) -> Option<i64> {
    match value.field_model("id"@, 0, 1) {
        Some(Json::Integer(id)) => Some(id),
        _ => None,
    }
}

/// The message that a JSON value holds: a record of two fields, the sender
/// `from` and the string `text`.
pub open spec fn decode_message(value: Json) -> Option<UpdateView> {
    match (value.field_model("from"@, 0, 2), value.field_model("text"@, 1, 2)) {
        (Some(from), Some(Json::Text(text))) => match decode_user(from) {
            Some(id) => Some(UpdateView { id, text: text@ }),
            None => None,
        },
        _ => None,
    }
}

/// The update that a JSON value holds: a record of one field, `message`.
/// Members of an object beyond the fields read are ignored; a missing
/// field, or one of another type, leaves no update.
pub open spec fn decode_update(value: Json) -> Option<UpdateView> {
    match value.field_model("message"@, 0, 1) {
        Some(message) => decode_message(message),
        None => None,
    }
}

impl User {
    /// Reads a sender out of a JSON value.
    pub fn decode(value: &Json) -> (user: Option<User>)
        ensures
            match user {
                Some(u) => decode_user(*value) == Some(u.id),
                None => decode_user(*value) is None,
            },
    {
        match value.field("id", 0, 1) {
            Some(Json::Integer(id)) => Some(User { id: *id }),
            _ => None,
        }
    }
}

impl Message {
    /// Reads a message out of a JSON value.
    pub fn decode(value: &Json) -> (message: Option<Message>)
        ensures
            match message {
                Some(m) => decode_message(*value) == Some(
                    UpdateView { id: m.from.id, text: m.text@ },
                ),
                None => decode_message(*value) is None,
            },
    {
        let from = match value.field("from", 0, 2) {
            Some(from) => from,
            None => {
                return None;
            },
        };
        let text = match value.field("text", 1, 2) {
            Some(Json::Text(text)) => text,
            _ => {
                return None;
            },
        };
        match User::decode(from) {
            Some(from) => Some(Message { from, text: text.clone() }),
            None => None,
        }
    }
}

impl Update {
    /// Reads an update out of a JSON value.
    pub fn decode(value: &Json) -> (update: Option<Update>)
        ensures
            update_view(update) == decode_update(*value),
    {
        match value.field("message", 0, 1) {
            Some(message) => match Message::decode(message) {
                Some(message) => Some(Update { message }),
                None => None,
            },
            None => None,
        }
    }
}

/// The view of the outcome of an operation that yields nothing: success, or
/// the description of a failure.
pub open spec fn outcome_view(outcome: Result<(), String>) -> Result<(), Seq<char>> {
    match outcome {
        Ok(_) => Ok(()),
        Err(e) => Err(e@),
    }
}

/// Where the platform's API lives, up to the bot's token.
pub open spec fn api_base() -> Seq<char> {
    "https://api.telegram.org/bot"@
}

/// The address that sends `text` to `chat_id` when fetched. The text is put
/// into the query as it is.
pub open spec fn send_message_url(token: Seq<char>, chat_id: i64, text: Seq<char>) -> Seq<char> {
    api_base() + token + "/sendMessage?chat_id="@ + decimal(chat_id as int) + "&text="@ + text
}

/// The address that takes a video for `chat_id`.
pub open spec fn send_video_url(token: Seq<char>, chat_id: i64) -> Seq<char> {
    api_base() + token + "/sendVideo?chat_id="@ + decimal(chat_id as int)
}

/// Whether an HTTP status code reports success: 200 to 299.
pub open spec fn is_success(status: u16) -> bool {
    200 <= status <= 299
}

/// What the platform's answer to a request means: nothing to report on
/// success, else a description made of a fixed prefix and the status.
pub open spec fn response_outcome(status: u16, status_text: Seq<char>) -> Result<(), Seq<char>> {
    if is_success(status) {
        Ok(())
    } else {
        Err("Failed to send message: "@ + status_text)
    }
}

/// A video upload to perform: a multipart form posted to `url`, with the
/// file's bytes in a part named `field` that carries `file_name` and
/// `mime`.
#[derive(Debug, PartialEq, Eq)]
pub struct VideoUpload {
    pub url: String,
    pub field: String,
    pub file_name: String,
    pub mime: String,
}

/// Mathematical content of a [`VideoUpload`].
pub struct VideoUploadView {
    pub url: Seq<char>,
    pub field: Seq<char>,
    pub file_name: Seq<char>,
    pub mime: Seq<char>,
}

impl View for VideoUpload {
    type V = VideoUploadView;

    open spec fn view(&self) -> VideoUploadView {
        VideoUploadView {
            url: self.url@,
            field: self.field@,
            file_name: self.file_name@,
            mime: self.mime@,
        }
    }
}

/// The platform's API as seen by one bot: it knows the bot's token and
/// says which requests send a text or a video.
#[derive(Debug, PartialEq, Eq)]
pub struct TelegramAPI {
    token: String,
}

impl View for TelegramAPI {
    type V = Seq<char>;

    closed spec fn view(&self) -> Seq<char> {
        self.token@
    }
}

impl TelegramAPI {
    /// The API for the bot with the given token.
    pub fn new(token: String) -> (api: TelegramAPI)
        ensures
            api@ == token@,
    {
        TelegramAPI { token }
    }

    /// The address to fetch in order to send `text` to `chat_id`.
    pub fn send_message(&self, chat_id: i64, text: String) -> (url: String)
        ensures
            url@ == send_message_url(self@, chat_id, text@),
    {
        String::from_str("https://api.telegram.org/bot").concat(self.token.as_str()).concat(
            "/sendMessage?chat_id=",
        ).concat(i64_to_string(chat_id).as_str()).concat("&text=").concat(text.as_str())
    }

    /// The upload that sends the file `video` to `chat_id`: the file goes
    /// into the part `video` under its own path as file name, as MP4.
    pub fn send_video(&self, chat_id: i64, video: String) -> (upload: VideoUpload)
        ensures
            upload@ == (VideoUploadView {
                url: send_video_url(self@, chat_id),
                field: "video"@,
                file_name: video@,
                mime: "video/mp4"@,
            }),
    {
        let url = String::from_str("https://api.telegram.org/bot").concat(
            self.token.as_str(),
        ).concat("/sendVideo?chat_id=").concat(i64_to_string(chat_id).as_str());
        VideoUpload {
            url,
            field: String::from_str("video"),
            file_name: video,
            mime: String::from_str("video/mp4"),
        }
    }

    /// Reads the platform's answer: `status` is the HTTP status code and
    /// `status_text` its rendering for the description of a failure.
    pub fn check_response(status: u16, status_text: &str) -> (outcome: Result<(), String>)
        ensures
            outcome_view(outcome) == response_outcome(status, status_text@),
    {
        if 200 <= status && status <= 299 {
            Ok(())
        } else {
            Err(String::from_str("Failed to send message: ").concat(status_text))
        }
    }
}

} // verus!
