//! The request pipeline: one inbound webhook call is checked, routed and,
//! for an accepted link, carried through download, size gate and delivery.
//!
//! The pipeline performs no I/O. It is a state machine: [`get_video`] and
//! [`Pipeline::step`] each hand back the next [`Action`] for the caller to
//! perform, and the caller reports what happened as an [`Event`]. What the
//! machine does is defined by [`start_model`] and [`step_model`].

pub mod model;
pub mod types;

pub use crate::pipeline::model::{
    failed, failure_lines, finished, is_authorized, line, start_command, start_model, step_model,
    upload_lines, wants_link,
};
pub use crate::pipeline::types::{
    inbound_of, Action, ActionView, Config, Event, EventView, Inbound, InboundView, Pipeline,
    PipelineView, Reply, Stage, StageView, Step, StepView, MAX_VIDEO_BYTES,
};

use crate::api::telegram::outcome_view;
use crate::job::{fresh_id, is_uuid_text, DownloadJob, OperationContext};
use crate::link::{parse_url, parsed_view, url_parse, ParsedUrl};
use crate::logging::{records_view, Level, LogRecord, LogRecordView};
use crate::text::{i64_to_string, str_eq, u64_to_string};
use vstd::prelude::*;
use vstd::string::*;

verus! {

fn record(level: Level, ctx: &OperationContext, message: String) -> (r: LogRecord)
    ensures
        r@ == line(level, ctx.operation_id@, message@),
{
    LogRecord { level, target: ctx.operation_id.clone(), message }
}

fn no_lines() -> (logs: Vec<LogRecord>)
    ensures
        records_view(logs@) == Seq::<LogRecordView>::empty(),
{
    let logs: Vec<LogRecord> = Vec::new();
    assert(records_view(logs@) =~= Seq::<LogRecordView>::empty());
    logs
}

fn one_line(first: LogRecord) -> (logs: Vec<LogRecord>)
    ensures
        records_view(logs@) == seq![first@],
{
    let mut logs: Vec<LogRecord> = Vec::new();
    logs.push(first);
    assert(records_view(logs@) =~= seq![first@]);
    logs
}

fn two_lines(first: LogRecord, second: LogRecord) -> (logs: Vec<LogRecord>)
    ensures
        records_view(logs@) == seq![first@, second@],
{
    let mut logs: Vec<LogRecord> = Vec::new();
    logs.push(first);
    logs.push(second);
    assert(records_view(logs@) =~= seq![first@, second@]);
    logs
}

fn failure_log(ctx: &OperationContext, prefix: &str, outcome: Result<(), String>) -> (logs: Vec<LogRecord>)
    ensures
        records_view(logs@) == failure_lines(ctx.operation_id@, prefix@, outcome_view(outcome)),
{
    match outcome {
        Ok(_) => no_lines(),
        Err(e) => one_line(
            record(Level::Error, ctx, String::from_str(prefix).concat(e.as_str())),
        ),
    }
}

fn finish(ctx: OperationContext, logs: Vec<LogRecord>) -> (r: (Pipeline, Step))
    ensures
        (r.0@, r.1@) == finished(ctx.operation_id@, records_view(logs@)),
{
    (Pipeline { ctx, stage: Stage::Done }, Step { logs, action: Action::Respond })
}

fn fail(ctx: OperationContext, chat_id: i64, cause: &str) -> (r: (Pipeline, Step))
    ensures
        (r.0@, r.1@) == failed(ctx.operation_id@, chat_id, cause@),
{
    let logs = one_line(record(Level::Error, &ctx, String::from_str(cause)));
    (
        Pipeline { ctx, stage: Stage::Replying },
        Step { logs, action: Action::SendMessage { chat_id, reply: Reply::DownloadFailed } },
    )
}

impl Config {
    /// Whether the sender `id` is the configured one.
    pub fn authorizes(&self, id: i64) -> (b: bool)
        ensures
            b == is_authorized(self.personal_id@, id),
    {
        i64_to_string(id) == self.personal_id
    }
}

impl Inbound {
    /// Whether the request carries text that is to be read as a link.
    pub fn wants_link(&self, config: &Config) -> (b: bool)
        ensures
            b == wants_link(config.personal_id@, self@),
    {
        match self {
            Inbound::Malformed { .. } => false,
            Inbound::Decoded(update) => config.authorizes(update.message.from.id) && !str_eq(
                update.message.text.as_str(),
                "/start",
            ),
        }
    }
}

impl Pipeline {
    /// Whether the request is over.
    pub fn is_done(&self) -> (b: bool)
        ensures
            b == (self@.stage is Done),
    {
        match self.stage {
            Stage::Done => true,
            _ => false,
        }
    }

    /// Makes the first move for a request, given its operation context,
    /// what parsing the message text as a URL gave, and the identifier to
    /// use should a download start.
    pub fn start(
        config: &Config,
        inbound: Inbound,
        ctx: OperationContext,
        parsed: Option<ParsedUrl>,
        job_id: String,
    ) -> (r: (Pipeline, Step))
        ensures
            (r.0@, r.1@) == start_model(
                config.personal_id@,
                inbound@,
                parsed_view(parsed),
                ctx.operation_id@,
                job_id@,
            ),
    {
        let started = record(Level::Info, &ctx, String::from_str("Started handler"));
        match inbound {
            Inbound::Malformed { raw } => {
                let message = String::from_str("Failed to deserialize update: ").concat(
                    raw.as_str(),
                );
                let logs = two_lines(started, record(Level::Error, &ctx, message));
                finish(ctx, logs)
            },
            Inbound::Decoded(update) => {
                let id = update.message.from.id;
                let text = update.message.text;
                if !config.authorizes(id) {
                    let message = String::from_str("Message is not from personal id: ").concat(
                        i64_to_string(id).as_str(),
                    );
                    let logs = two_lines(started, record(Level::Info, &ctx, message));
                    finish(ctx, logs)
                } else if str_eq(text.as_str(), "/start") {
                    (
                        Pipeline { ctx, stage: Stage::Replying },
                        Step {
                            logs: one_line(started),
                            action: Action::SendMessage { chat_id: id, reply: Reply::Greeting },
                        },
                    )
                } else {
                    match parsed {
                        None => {
                            let message = String::from_str("Failed to parse URL: ").concat(
                                text.as_str(),
                            );
                            let logs = two_lines(started, record(Level::Warn, &ctx, message));
                            (
                                Pipeline { ctx, stage: Stage::Replying },
                                Step {
                                    logs,
                                    action: Action::SendMessage {
                                        chat_id: id,
                                        reply: Reply::InvalidUrl,
                                    },
                                },
                            )
                        },
                        Some(url) => {
                            if !url.is_reddit() {
                                let message = String::from_str("URL is not a reddit post: ").concat(
                                    text.as_str(),
                                );
                                let logs = two_lines(started, record(Level::Warn, &ctx, message));
                                (
                                    Pipeline { ctx, stage: Stage::Replying },
                                    Step {
                                        logs,
                                        action: Action::SendMessage {
                                            chat_id: id,
                                            reply: Reply::NotReddit,
                                        },
                                    },
                                )
                            } else {
                                let job = DownloadJob::new(job_id, url.href);
                                let action = Action::Download {
                                    output_dir: job.output_dir(),
                                    output_template: job.output_template(),
                                    url: job.source_url().clone(),
                                };
                                (
                                    Pipeline { ctx, stage: Stage::Downloading { chat_id: id, job } },
                                    Step { logs: one_line(started), action },
                                )
                            }
                        },
                    }
                }
            },
        }
    }

    /// Makes the next move: takes what the caller reports and hands back
    /// the lines to log and the next action.
    pub fn step(self, event: Event) -> (r: (Pipeline, Step))
        ensures
            (r.0@, r.1@) == step_model(self@, event@),
    {
        let Pipeline { ctx, stage } = self;
        match (stage, event) {
            (Stage::Replying, Event::MessageSent(outcome)) => {
                let logs = failure_log(&ctx, "Failed to send message: ", outcome);
                finish(ctx, logs)
            },
            (Stage::Downloading { chat_id, job }, Event::DownloaderFailed) => fail(
                ctx,
                chat_id,
                "Failed to create YoutubeDL instance",
            ),
            (Stage::Downloading { chat_id, job }, Event::DownloadFailed) => fail(
                ctx,
                chat_id,
                "Failed to start download",
            ),
            (Stage::Downloading { chat_id, job }, Event::Downloaded) => {
                let action = Action::ListDirectory { path: job.output_dir() };
                (
                    Pipeline { ctx, stage: Stage::Listing { chat_id, job } },
                    Step { logs: no_lines(), action },
                )
            },
            (Stage::Listing { chat_id, job }, Event::ListingFailed) => fail(
                ctx,
                chat_id,
                "Failed to read /tmp",
            ),
            (Stage::Listing { chat_id, job }, Event::Listed(None)) => fail(
                ctx,
                chat_id,
                "Video not found",
            ),
            (Stage::Listing { chat_id, job }, Event::Listed(Some(entry))) => {
                let message = String::from_str("Video file: ").concat(entry.as_str());
                let logs = one_line(record(Level::Info, &ctx, message));
                let action = Action::InspectFile { path: job.output_path().clone() };
                (Pipeline { ctx, stage: Stage::Inspecting { chat_id, job } }, Step { logs, action })
            },
            (Stage::Inspecting { chat_id, job }, Event::OpenFailed) => fail(
                ctx,
                chat_id,
                "Failed to open video",
            ),
            (Stage::Inspecting { chat_id, job }, Event::MetadataFailed) => fail(
                ctx,
                chat_id,
                "Failed to get video metadata",
            ),
            (Stage::Inspecting { chat_id, job }, Event::Inspected(size)) => {
                if size > MAX_VIDEO_BYTES {
                    let message = String::from_str("Video is too large to send: ").concat(
                        u64_to_string(size).as_str(),
                    ).concat(" bytes");
                    let logs = one_line(record(Level::Warn, &ctx, message));
                    (
                        Pipeline { ctx, stage: Stage::Rejecting { job } },
                        Step {
                            logs,
                            action: Action::SendMessage { chat_id, reply: Reply::TooLarge },
                        },
                    )
                } else {
                    let action = Action::SendVideo { chat_id, path: job.output_path().clone() };
                    (Pipeline { ctx, stage: Stage::Uploading }, Step { logs: no_lines(), action })
                }
            },
            (Stage::Rejecting { job }, Event::MessageSent(outcome)) => {
                let logs = failure_log(&ctx, "Failed to send message: ", outcome);
                let action = Action::DeleteFile { path: job.output_path().clone() };
                (Pipeline { ctx, stage: Stage::Deleting }, Step { logs, action })
            },
            (Stage::Deleting, Event::Deleted(outcome)) => {
                let logs = failure_log(&ctx, "Failed to delete video: ", outcome);
                finish(ctx, logs)
            },
            (Stage::Uploading, Event::VideoSent(outcome)) => {
                let logs = match outcome {
                    Ok(_) => one_line(record(Level::Info, &ctx, String::from_str("Video sent"))),
                    Err(e) => one_line(
                        record(
                            Level::Error,
                            &ctx,
                            String::from_str("Failed to send video: ").concat(e.as_str()),
                        ),
                    ),
                };
                finish(ctx, logs)
            },
            _ => finish(ctx, no_lines()),
        }
    }
}

/// Handles one webhook call up to its first action: mints the operation
/// identifier, parses the message text as a URL where the request calls for
/// it, mints a job identifier where a download starts, and makes the first
/// move.
pub fn get_video(config: &Config, inbound: Inbound) -> (r: (Pipeline, Step))
    ensures
        is_uuid_text(r.0@.operation_id),
        r.0@.stage is Downloading ==> is_uuid_text(r.0@.job_id()),
        (r.0@, r.1@) == start_model(
            config.personal_id@,
            inbound@,
            url_parse(inbound@.text()),
            r.0@.operation_id,
            r.0@.job_id(),
        ),
{
    let ctx = OperationContext::fresh();
    let parsed = match &inbound {
        Inbound::Decoded(update) => if inbound.wants_link(config) {
            parse_url(update.message.text.as_str())
        } else {
            None
        },
        Inbound::Malformed { .. } => None,
    };
    let accepted = match &parsed {
        Some(url) => url.is_reddit(),
        None => false,
    };
    let job_id = if accepted {
        fresh_id()
    } else {
        String::new()
    };
    Pipeline::start(config, inbound, ctx, parsed, job_id)
}

/// The answer to a webhook call, whatever became of the request: the
/// status code of success and a fixed body.
pub fn webhook_response() -> (response: (u16, &'static str))
    ensures
        response.0 == 200,
        response.1@ == "Ok"@,
{
    (200, "Ok")
}

/// The page served at the root of the site.
pub fn handler() -> (page: &'static str)
    ensures
        page@ == "<h1>Hello, World!</h1>"@,
{
    "<h1>Hello, World!</h1>"
}

} // verus!
