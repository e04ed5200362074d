//! What the pipeline does, as mathematics: the first move for a request
//! and the move on each event.

use crate::job::{output_dir, output_template_of, JobView};
use crate::link::{is_reddit_host, ParsedUrlView};
use crate::logging::{Level, LogRecordView};
use crate::pipeline::types::{
    ActionView, EventView, InboundView, PipelineView, Reply, StageView, StepView, MAX_VIDEO_BYTES,
};
use crate::text::decimal;
use vstd::prelude::*;

verus! {

/// Whether the sender `id` is the configured one: its decimal rendering
/// equals the configured identity, character for character.
pub open spec fn is_authorized(personal_id: Seq<char>, id: i64) -> bool {
    decimal(id as int) == personal_id
}

/// The command that asks for a greeting.
pub open spec fn start_command() -> Seq<char> {
    "/start"@
}

/// Whether the request carries text that is to be read as a link: it
/// decoded, comes from the configured sender and is not the start command.
pub open spec fn wants_link(personal_id: Seq<char>, inbound: InboundView) -> bool {
    match inbound {
        InboundView::Malformed { .. } => false,
        InboundView::Decoded { id, text } => is_authorized(personal_id, id) && text
            != start_command(),
    }
}

/// A log line of the operation `operation_id`.
pub open spec fn line(level: Level, operation_id: Seq<char>, message: Seq<char>) -> LogRecordView {
    LogRecordView { level, target: operation_id, message }
}

/// The end of a request: the given lines are logged and the webhook call
/// is answered.
pub open spec fn finished(operation_id: Seq<char>, logs: Seq<LogRecordView>) -> (
    PipelineView,
    StepView,
) {
    (
        PipelineView { operation_id, stage: StageView::Done },
        StepView { logs, action: ActionView::Respond },
    )
}

/// A failure around the download: the cause is logged as an error and the
/// sender is told that the download failed.
pub open spec fn failed(operation_id: Seq<char>, chat_id: i64, cause: Seq<char>) -> (
    PipelineView,
    StepView,
) {
    (
        PipelineView { operation_id, stage: StageView::Replying },
        StepView {
            logs: seq![line(Level::Error, operation_id, cause)],
            action: ActionView::SendMessage { chat_id, reply: Reply::DownloadFailed },
        },
    )
}

/// What is logged after an attempt that is only worth a line when it
/// failed: nothing on success, else an error line made of `prefix` and the
/// failure's description.
pub open spec fn failure_lines(
    operation_id: Seq<char>,
    prefix: Seq<char>,
    outcome: Result<(), Seq<char>>,
) -> Seq<LogRecordView> {
    match outcome {
        Ok(_) => Seq::empty(),
        Err(e) => seq![line(Level::Error, operation_id, prefix + e)],
    }
}

/// What is logged after an upload.
pub open spec fn upload_lines(operation_id: Seq<char>, outcome: Result<(), Seq<char>>) -> Seq<LogRecordView> {
    match outcome {
        Ok(_) => seq![line(Level::Info, operation_id, "Video sent"@)],
        Err(e) => seq![line(Level::Error, operation_id, "Failed to send video: "@ + e)],
    }
}

/// The first move of the pipeline for a request, given the identifier of
/// the operation, what parsing the message text as a URL gave, and the
/// identifier to use should a download start.
///
/// A body that did not decode and a sender other than the configured one
/// end the request at once, without a reply. The start command is answered
/// with a greeting. Any other text must parse as a URL whose host contains
/// the marker; if so the download starts, else the sender is told what to
/// send.
pub open spec fn start_model(
    personal_id: Seq<char>,
    inbound: InboundView,
    parsed: Option<ParsedUrlView>,
    operation_id: Seq<char>,
    job_id: Seq<char>,
) -> (PipelineView, StepView) {
    let started = line(Level::Info, operation_id, "Started handler"@);
    let done = PipelineView { operation_id, stage: StageView::Done };
    let replying = PipelineView { operation_id, stage: StageView::Replying };
    match inbound {
        InboundView::Malformed { raw } => (
            done,
            StepView {
                logs: seq![
                    started,
                    line(Level::Error, operation_id, "Failed to deserialize update: "@ + raw),
                ],
                action: ActionView::Respond,
            },
        ),
        InboundView::Decoded { id, text } => if !is_authorized(personal_id, id) {
            (
                done,
                StepView {
                    logs: seq![
                        started,
                        line(
                            Level::Info,
                            operation_id,
                            "Message is not from personal id: "@ + decimal(id as int),
                        ),
                    ],
                    action: ActionView::Respond,
                },
            )
        } else if text == start_command() {
            (
                replying,
                StepView {
                    logs: seq![started],
                    action: ActionView::SendMessage { chat_id: id, reply: Reply::Greeting },
                },
            )
        } else {
            match parsed {
                None => (
                    replying,
                    StepView {
                        logs: seq![
                            started,
                            line(Level::Warn, operation_id, "Failed to parse URL: "@ + text),
                        ],
                        action: ActionView::SendMessage { chat_id: id, reply: Reply::InvalidUrl },
                    },
                ),
                Some(url) => if !is_reddit_host(url.host) {
                    (
                        replying,
                        StepView {
                            logs: seq![
                                started,
                                line(
                                    Level::Warn,
                                    operation_id,
                                    "URL is not a reddit post: "@ + text,
                                ),
                            ],
                            action: ActionView::SendMessage {
                                chat_id: id,
                                reply: Reply::NotReddit,
                            },
                        },
                    )
                } else {
                    (
                        PipelineView {
                            operation_id,
                            stage: StageView::Downloading {
                                chat_id: id,
                                job: JobView::new(job_id, url.href),
                            },
                        },
                        StepView {
                            logs: seq![started],
                            action: ActionView::Download {
                                output_dir: output_dir(),
                                output_template: output_template_of(job_id),
                                url: url.href,
                            },
                        },
                    )
                },
            }
        },
    }
}

/// The move of the pipeline on an event.
///
/// Each stage waits for the answer to the action that led to it. A failed
/// download, listing or inspection is logged and answered with the generic
/// failure reply. A file above the size limit is refused and then deleted;
/// any other file is uploaded. Failures to send or to delete are logged and
/// change nothing else. An event that the stage does not wait for ends the
/// request.
pub open spec fn step_model(p: PipelineView, event: EventView) -> (PipelineView, StepView) {
    let op = p.operation_id;
    match (p.stage, event) {
        (StageView::Replying, EventView::MessageSent(outcome)) => finished(
            op,
            failure_lines(op, "Failed to send message: "@, outcome),
        ),
        (StageView::Downloading { chat_id, job }, EventView::DownloaderFailed) => failed(
            op,
            chat_id,
            "Failed to create YoutubeDL instance"@,
        ),
        (StageView::Downloading { chat_id, job }, EventView::DownloadFailed) => failed(
            op,
            chat_id,
            "Failed to start download"@,
        ),
        (StageView::Downloading { chat_id, job }, EventView::Downloaded) => (
            PipelineView { operation_id: op, stage: StageView::Listing { chat_id, job } },
            StepView {
                logs: Seq::empty(),
                action: ActionView::ListDirectory { path: output_dir() },
            },
        ),
        (StageView::Listing { chat_id, job }, EventView::ListingFailed) => failed(
            op,
            chat_id,
            "Failed to read /tmp"@,
        ),
        (StageView::Listing { chat_id, job }, EventView::Listed(None)) => failed(
            op,
            chat_id,
            "Video not found"@,
        ),
        (StageView::Listing { chat_id, job }, EventView::Listed(Some(entry))) => (
            PipelineView { operation_id: op, stage: StageView::Inspecting { chat_id, job } },
            StepView {
                logs: seq![line(Level::Info, op, "Video file: "@ + entry)],
                action: ActionView::InspectFile { path: job.output_path },
            },
        ),
        (StageView::Inspecting { chat_id, job }, EventView::OpenFailed) => failed(
            op,
            chat_id,
            "Failed to open video"@,
        ),
        (StageView::Inspecting { chat_id, job }, EventView::MetadataFailed) => failed(
            op,
            chat_id,
            "Failed to get video metadata"@,
        ),
        (StageView::Inspecting { chat_id, job }, EventView::Inspected(size)) => if size
            > MAX_VIDEO_BYTES {
            (
                PipelineView { operation_id: op, stage: StageView::Rejecting { job } },
                StepView {
                    logs: seq![
                        line(
                            Level::Warn,
                            op,
                            "Video is too large to send: "@ + decimal(size as int) + " bytes"@,
                        ),
                    ],
                    action: ActionView::SendMessage { chat_id, reply: Reply::TooLarge },
                },
            )
        } else {
            (
                PipelineView { operation_id: op, stage: StageView::Uploading },
                StepView {
                    logs: Seq::empty(),
                    action: ActionView::SendVideo { chat_id, path: job.output_path },
                },
            )
        },
        (StageView::Rejecting { job }, EventView::MessageSent(outcome)) => (
            PipelineView { operation_id: op, stage: StageView::Deleting },
            StepView {
                logs: failure_lines(op, "Failed to send message: "@, outcome),
                action: ActionView::DeleteFile { path: job.output_path },
            },
        ),
        (StageView::Deleting, EventView::Deleted(outcome)) => finished(
            op,
            failure_lines(op, "Failed to delete video: "@, outcome),
        ),
        (StageView::Uploading, EventView::VideoSent(outcome)) => finished(
            op,
            upload_lines(op, outcome),
        ),
        _ => finished(op, Seq::empty()),
    }
}

} // verus!
