//! The values that the pipeline works on: what comes in, what is asked of
//! the caller, what the caller reports, and where a request stands. Each
//! comes with its mathematical content.

use crate::api::telegram::{decode_update, outcome_view, Update};
use crate::json::Json;
use crate::job::{DownloadJob, JobView, OperationContext};
use crate::logging::{records_view, LogRecord, LogRecordView};
use vstd::prelude::*;
use vstd::string::*;

verus! {

/// Largest video that is delivered, in bytes: 50 MiB.
pub const MAX_VIDEO_BYTES: u64 = 50 * 1024 * 1024;

/// What the relay is configured with: the one sender it serves.
#[derive(Debug, PartialEq, Eq)]
pub struct Config {
    pub personal_id: String,
}

/// The body of a webhook call after decoding.
#[derive(Debug, PartialEq, Eq)]
pub enum Inbound {
    /// The body could not be decoded; `raw` is its text, kept for the log.
    Malformed { raw: String },
    /// The body decoded to an update.
    Decoded(Update),
}

/// Mathematical content of an [`Inbound`].
pub enum InboundView {
    Malformed { raw: Seq<char> },
    Decoded { id: i64, text: Seq<char> },
}

impl View for Inbound {
    type V = InboundView;

    open spec fn view(&self) -> InboundView {
        match self {
            Inbound::Malformed { raw } => InboundView::Malformed { raw: raw@ },
            Inbound::Decoded(update) => InboundView::Decoded {
                id: update.message.from.id,
                text: update.message.text@,
            },
        }
    }
}

/// What the body of a webhook call decodes to: `body` is the JSON value
/// that the body holds, if it is JSON at all, and `raw` its text. A body
/// that holds an update is that update; any other body is malformed.
pub open spec fn inbound_of(body: Option<Json>, raw: Seq<char>) -> InboundView {
    match body {
        Some(value) => match decode_update(value) {
            Some(update) => InboundView::Decoded { id: update.id, text: update.text },
            None => InboundView::Malformed { raw },
        },
        None => InboundView::Malformed { raw },
    }
}

impl Inbound {
    /// Decodes the body of a webhook call, given the JSON value that the
    /// body holds, if it is JSON at all, and its text.
    pub fn from_body(body: Option<&Json>, raw: String) -> (inbound: Inbound)
        ensures
            inbound@ == inbound_of(
                match body {
                    Some(value) => Some(*value),
                    None => None,
                },
                raw@,
            ),
    {
        match body {
            Some(value) => match Update::decode(value) {
                Some(update) => Inbound::Decoded(update),
                None => Inbound::Malformed { raw },
            },
            None => Inbound::Malformed { raw },
        }
    }
}

impl InboundView {
    /// The message text, empty where the body did not decode.
    pub open spec fn text(self) -> Seq<char> {
        match self {
            InboundView::Malformed { .. } => Seq::empty(),
            InboundView::Decoded { text, .. } => text,
        }
    }
}

/// The fixed texts that the relay answers with.
#[derive(Clone, Copy, Debug, PartialEq, Eq, Structural)]
pub enum Reply {
    Greeting,
    InvalidUrl,
    NotReddit,
    DownloadFailed,
    TooLarge,
}

impl Reply {
    /// The wording of the reply.
    pub open spec fn wording(self) -> Seq<char> {
        match self {
            Reply::Greeting => "Hello!"@,
            Reply::InvalidUrl => "Please send a valid URL"@,
            Reply::NotReddit => "Please send a valid reddit post"@,
            Reply::DownloadFailed => "Failed to download video"@,
            Reply::TooLarge => "Video is too large"@,
        }
    }

    /// The text to send for this reply.
    pub fn text(&self) -> (s: String)
        ensures
            s@ == self.wording(),
    {
        match self {
            Reply::Greeting => String::from_str("Hello!"),
            Reply::InvalidUrl => String::from_str("Please send a valid URL"),
            Reply::NotReddit => String::from_str("Please send a valid reddit post"),
            Reply::DownloadFailed => String::from_str("Failed to download video"),
            Reply::TooLarge => String::from_str("Video is too large"),
        }
    }
}

/// What the caller is asked to do next.
#[derive(Debug, PartialEq, Eq)]
pub enum Action {
    /// Send `reply` as a text message to `chat_id`.
    SendMessage { chat_id: i64, reply: Reply },
    /// Run the downloader on `url`, writing into `output_dir` under the
    /// name template `output_template`.
    Download { output_dir: String, output_template: String, url: String },
    /// List the directory `path` and report its first entry.
    ListDirectory { path: String },
    /// Open the file at `path` and report its size.
    InspectFile { path: String },
    /// Delete the file at `path`.
    DeleteFile { path: String },
    /// Upload the file at `path` as a video to `chat_id`.
    SendVideo { chat_id: i64, path: String },
    /// Answer the webhook call with success; the request is over.
    Respond,
}

/// Mathematical content of an [`Action`].
pub enum ActionView {
    SendMessage { chat_id: i64, reply: Reply },
    Download { output_dir: Seq<char>, output_template: Seq<char>, url: Seq<char> },
    ListDirectory { path: Seq<char> },
    InspectFile { path: Seq<char> },
    DeleteFile { path: Seq<char> },
    SendVideo { chat_id: i64, path: Seq<char> },
    Respond,
}

impl View for Action {
    type V = ActionView;

    open spec fn view(&self) -> ActionView {
        match self {
            Action::SendMessage { chat_id, reply } => ActionView::SendMessage {
                chat_id: *chat_id,
                reply: *reply,
            },
            Action::Download { output_dir, output_template, url } => ActionView::Download {
                output_dir: output_dir@,
                output_template: output_template@,
                url: url@,
            },
            Action::ListDirectory { path } => ActionView::ListDirectory { path: path@ },
            Action::InspectFile { path } => ActionView::InspectFile { path: path@ },
            Action::DeleteFile { path } => ActionView::DeleteFile { path: path@ },
            Action::SendVideo { chat_id, path } => ActionView::SendVideo {
                chat_id: *chat_id,
                path: path@,
            },
            Action::Respond => ActionView::Respond,
        }
    }
}

/// What the caller reports after performing an action. Failures of the
/// messaging platform and of the file system carry their description.
#[derive(Debug, PartialEq, Eq)]
pub enum Event {
    /// A text message was sent, or sending failed.
    MessageSent(Result<(), String>),
    /// The downloader could not be set up.
    DownloaderFailed,
    /// The downloader ran and failed.
    DownloadFailed,
    /// The downloader ran and succeeded.
    Downloaded,
    /// The output directory could not be listed.
    ListingFailed,
    /// The output directory was listed: its first entry, if it has any.
    Listed(Option<String>),
    /// The expected file could not be opened.
    OpenFailed,
    /// The expected file was opened and its size could not be read.
    MetadataFailed,
    /// The expected file is there and has this many bytes.
    Inspected(u64),
    /// The file was deleted, or deleting failed.
    Deleted(Result<(), String>),
    /// The video was uploaded, or uploading failed.
    VideoSent(Result<(), String>),
}

/// Mathematical content of an [`Event`].
pub enum EventView {
    MessageSent(Result<(), Seq<char>>),
    DownloaderFailed,
    DownloadFailed,
    Downloaded,
    ListingFailed,
    Listed(Option<Seq<char>>),
    OpenFailed,
    MetadataFailed,
    Inspected(u64),
    Deleted(Result<(), Seq<char>>),
    VideoSent(Result<(), Seq<char>>),
}

impl View for Event {
    type V = EventView;

    open spec fn view(&self) -> EventView {
        match self {
            Event::MessageSent(outcome) => EventView::MessageSent(outcome_view(*outcome)),
            Event::DownloaderFailed => EventView::DownloaderFailed,
            Event::DownloadFailed => EventView::DownloadFailed,
            Event::Downloaded => EventView::Downloaded,
            Event::ListingFailed => EventView::ListingFailed,
            Event::Listed(entry) => EventView::Listed(
                match entry {
                    Some(e) => Some(e@),
                    None => None,
                },
            ),
            Event::OpenFailed => EventView::OpenFailed,
            Event::MetadataFailed => EventView::MetadataFailed,
            Event::Inspected(size) => EventView::Inspected(*size),
            Event::Deleted(outcome) => EventView::Deleted(outcome_view(*outcome)),
            Event::VideoSent(outcome) => EventView::VideoSent(outcome_view(*outcome)),
        }
    }
}

/// Where a request stands: which answer of the caller it waits for.
#[derive(Debug, PartialEq, Eq)]
pub enum Stage {
    /// A final text reply is on its way.
    Replying,
    /// The downloader is running.
    Downloading { chat_id: i64, job: DownloadJob },
    /// The output directory is being listed.
    Listing { chat_id: i64, job: DownloadJob },
    /// The downloaded file is being opened and measured.
    Inspecting { chat_id: i64, job: DownloadJob },
    /// The file was too large; the reply that says so is on its way.
    Rejecting { job: DownloadJob },
    /// The oversized file is being deleted.
    Deleting,
    /// The video is being uploaded.
    Uploading,
    /// The request is over.
    Done,
}

/// Mathematical content of a [`Stage`].
pub enum StageView {
    Replying,
    Downloading { chat_id: i64, job: JobView },
    Listing { chat_id: i64, job: JobView },
    Inspecting { chat_id: i64, job: JobView },
    Rejecting { job: JobView },
    Deleting,
    Uploading,
    Done,
}

impl View for Stage {
    type V = StageView;

    open spec fn view(&self) -> StageView {
        match self {
            Stage::Replying => StageView::Replying,
            Stage::Downloading { chat_id, job } => StageView::Downloading {
                chat_id: *chat_id,
                job: job@,
            },
            Stage::Listing { chat_id, job } => StageView::Listing { chat_id: *chat_id, job: job@ },
            Stage::Inspecting { chat_id, job } => StageView::Inspecting {
                chat_id: *chat_id,
                job: job@,
            },
            Stage::Rejecting { job } => StageView::Rejecting { job: job@ },
            Stage::Deleting => StageView::Deleting,
            Stage::Uploading => StageView::Uploading,
            Stage::Done => StageView::Done,
        }
    }
}

/// One request in flight: its correlation identifier and its stage.
#[derive(Debug, PartialEq, Eq)]
pub struct Pipeline {
    pub ctx: OperationContext,
    pub stage: Stage,
}

/// Mathematical content of a [`Pipeline`].
pub struct PipelineView {
    pub operation_id: Seq<char>,
    pub stage: StageView,
}

impl View for Pipeline {
    type V = PipelineView;

    open spec fn view(&self) -> PipelineView {
        PipelineView { operation_id: self.ctx.operation_id@, stage: self.stage@ }
    }
}

impl PipelineView {
    /// The identifier of the download job at hand, empty where there is
    /// none.
    pub open spec fn job_id(self) -> Seq<char> {
        match self.stage {
            StageView::Downloading { job, .. } => job.job_id,
            StageView::Listing { job, .. } => job.job_id,
            StageView::Inspecting { job, .. } => job.job_id,
            StageView::Rejecting { job } => job.job_id,
            _ => Seq::empty(),
        }
    }
}

/// The result of one move of the pipeline: the lines to log, then the
/// action to perform.
#[derive(Debug, PartialEq, Eq)]
pub struct Step {
    pub logs: Vec<LogRecord>,
    pub action: Action,
}

/// Mathematical content of a [`Step`].
pub struct StepView {
    pub logs: Seq<LogRecordView>,
    pub action: ActionView,
}

impl View for Step {
    type V = StepView;

    open spec fn view(&self) -> StepView {
        StepView { logs: records_view(self.logs@), action: self.action@ }
    }
}

} // verus!
