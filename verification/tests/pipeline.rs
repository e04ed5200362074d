use reddit_save_bot::api::telegram::{Message, Update, User};
use reddit_save_bot::job::{DownloadJob, OperationContext};
use reddit_save_bot::link::ParsedUrl;
use reddit_save_bot::logging::{Level, LogRecord};
use reddit_save_bot::pipeline::{
    get_video, handler, webhook_response, Action, Config, Event, Inbound, Pipeline, Reply, Stage,
    Step, MAX_VIDEO_BYTES,
};

fn config() -> Config {
    Config { personal_id: "42".to_string() }
}

fn update(id: i64, text: &str) -> Inbound {
    Inbound::Decoded(Update { message: Message { from: User { id }, text: text.to_string() } })
}

fn parsed(host: &str, href: &str) -> Option<ParsedUrl> {
    Some(ParsedUrl { host: Some(host.to_string()), href: href.to_string() })
}

fn line(level: Level, message: &str) -> LogRecord {
    LogRecord { level, target: "op-1".to_string(), message: message.to_string() }
}

fn start(inbound: Inbound, parsed: Option<ParsedUrl>) -> (Pipeline, Step) {
    let ctx = OperationContext::new("op-1".to_string());
    Pipeline::start(&config(), inbound, ctx, parsed, "job-1".to_string())
}

fn job() -> DownloadJob {
    DownloadJob::new("job-1".to_string(), "https://www.reddit.com/r/rust/1".to_string())
}

fn at(stage: Stage) -> Pipeline {
    Pipeline { ctx: OperationContext::new("op-1".to_string()), stage }
}

fn downloading() -> (Pipeline, Step) {
    start(
        update(42, "https://www.reddit.com/r/rust/1"),
        parsed("www.reddit.com", "https://www.reddit.com/r/rust/1"),
    )
}

fn looks_random(id: &str) -> bool {
    id.len() == 36 && id.chars().filter(|c| *c == '-').count() == 4
}

#[test]
fn size_limit_is_fifty_binary_megabytes() {
    assert_eq!(MAX_VIDEO_BYTES, 52_428_800);
    assert_eq!(MAX_VIDEO_BYTES, 50 * 1024 * 1024);
}

#[test]
fn replies_have_their_fixed_wording() {
    assert_eq!(Reply::Greeting.text(), "Hello!");
    assert_eq!(Reply::InvalidUrl.text(), "Please send a valid URL");
    assert_eq!(Reply::NotReddit.text(), "Please send a valid reddit post");
    assert_eq!(Reply::DownloadFailed.text(), "Failed to download video");
    assert_eq!(Reply::TooLarge.text(), "Video is too large");
}

#[test]
fn webhook_is_always_answered_with_success() {
    assert_eq!(webhook_response(), (200, "Ok"));
}

#[test]
fn root_page_is_the_greeting_page() {
    assert_eq!(handler(), "<h1>Hello, World!</h1>");
}

#[test]
fn sender_is_compared_as_text() {
    assert!(config().authorizes(42));
    assert!(!config().authorizes(-42));
    assert!(!config().authorizes(420));
    assert!(!config().authorizes(4));
    assert!(!Config { personal_id: "042".to_string() }.authorizes(42));
    assert!(!Config { personal_id: "+42".to_string() }.authorizes(42));
    assert!(!Config { personal_id: String::new() }.authorizes(0));
    assert!(Config { personal_id: "-7".to_string() }.authorizes(-7));
}

#[test]
fn only_text_from_the_sender_is_read_as_a_link() {
    let cfg = config();
    assert!(update(42, "https://www.reddit.com/r/x").wants_link(&cfg));
    assert!(update(42, "hello").wants_link(&cfg));
    assert!(!update(42, "/start").wants_link(&cfg));
    assert!(!update(7, "https://www.reddit.com/r/x").wants_link(&cfg));
    assert!(!Inbound::Malformed { raw: "{".to_string() }.wants_link(&cfg));
}

#[test]
fn malformed_body_is_dropped_in_silence() {
    let (pipeline, step) = start(Inbound::Malformed { raw: "{\"message\":1}".to_string() }, None);
    assert_eq!(step.action, Action::Respond);
    assert_eq!(
        step.logs,
        vec![
            line(Level::Info, "Started handler"),
            line(Level::Error, "Failed to deserialize update: {\"message\":1}"),
        ]
    );
    assert!(pipeline.is_done());
    assert_eq!(pipeline.stage, Stage::Done);
}

#[test]
fn stranger_is_dropped_in_silence() {
    let (pipeline, step) = start(
        update(7, "https://www.reddit.com/r/rust/1"),
        parsed("www.reddit.com", "https://www.reddit.com/r/rust/1"),
    );
    assert_eq!(step.action, Action::Respond);
    assert_eq!(
        step.logs,
        vec![
            line(Level::Info, "Started handler"),
            line(Level::Info, "Message is not from personal id: 7"),
        ]
    );
    assert!(pipeline.is_done());
}

#[test]
fn stranger_sending_the_start_command_gets_no_greeting() {
    let (pipeline, step) = start(update(-5, "/start"), None);
    assert_eq!(step.action, Action::Respond);
    assert_eq!(step.logs[1], line(Level::Info, "Message is not from personal id: -5"));
    assert!(pipeline.is_done());
}

#[test]
fn start_command_is_greeted() {
    let (pipeline, step) = start(update(42, "/start"), None);
    assert_eq!(step.action, Action::SendMessage { chat_id: 42, reply: Reply::Greeting });
    assert_eq!(step.logs, vec![line(Level::Info, "Started handler")]);
    assert_eq!(pipeline.stage, Stage::Replying);
    assert!(!pipeline.is_done());
    let (pipeline, step) = pipeline.step(Event::MessageSent(Ok(())));
    assert_eq!(step.action, Action::Respond);
    assert!(step.logs.is_empty());
    assert!(pipeline.is_done());
}

#[test]
fn start_command_wins_over_a_parse_result() {
    let (_, step) = start(update(42, "/start"), parsed("www.reddit.com", "https://www.reddit.com/"));
    assert_eq!(step.action, Action::SendMessage { chat_id: 42, reply: Reply::Greeting });
}

#[test]
fn failed_greeting_is_logged_and_not_retried() {
    let (pipeline, _) = start(update(42, "/start"), None);
    let (pipeline, step) = pipeline.step(Event::MessageSent(Err("timed out".to_string())));
    assert_eq!(step.action, Action::Respond);
    assert_eq!(step.logs, vec![line(Level::Error, "Failed to send message: timed out")]);
    assert!(pipeline.is_done());
}

#[test]
fn text_that_is_no_url_is_refused() {
    let (pipeline, step) = start(update(42, "hello there"), None);
    assert_eq!(step.action, Action::SendMessage { chat_id: 42, reply: Reply::InvalidUrl });
    assert_eq!(
        step.logs,
        vec![
            line(Level::Info, "Started handler"),
            line(Level::Warn, "Failed to parse URL: hello there"),
        ]
    );
    assert_eq!(pipeline.stage, Stage::Replying);
    let (pipeline, step) = pipeline.step(Event::MessageSent(Ok(())));
    assert_eq!(step.action, Action::Respond);
    assert!(pipeline.is_done());
}

#[test]
fn url_of_another_site_is_refused() {
    let (pipeline, step) =
        start(update(42, "https://example.com/post"), parsed("example.com", "https://example.com/post"));
    assert_eq!(step.action, Action::SendMessage { chat_id: 42, reply: Reply::NotReddit });
    assert_eq!(
        step.logs,
        vec![
            line(Level::Info, "Started handler"),
            line(Level::Warn, "URL is not a reddit post: https://example.com/post"),
        ]
    );
    assert_eq!(pipeline.stage, Stage::Replying);
}

#[test]
fn url_without_a_host_is_refused() {
    let no_host = Some(ParsedUrl { host: None, href: "mailto:me@reddit.com".to_string() });
    let (_, step) = start(update(42, "mailto:me@reddit.com"), no_host);
    assert_eq!(step.action, Action::SendMessage { chat_id: 42, reply: Reply::NotReddit });
}

#[test]
fn accepted_link_starts_a_download() {
    let (pipeline, step) = downloading();
    assert_eq!(
        step.action,
        Action::Download {
            output_dir: "/tmp".to_string(),
            output_template: "job-1.%(ext)s".to_string(),
            url: "https://www.reddit.com/r/rust/1".to_string(),
        }
    );
    assert_eq!(step.logs, vec![line(Level::Info, "Started handler")]);
    assert_eq!(pipeline.stage, Stage::Downloading { chat_id: 42, job: job() });
}

#[test]
fn download_uses_the_normalised_link() {
    let (_, step) = start(
        update(42, "HTTPS://WWW.REDDIT.COM/r/rust/1"),
        parsed("www.reddit.com", "https://www.reddit.com/r/rust/1"),
    );
    assert_eq!(
        step.action,
        Action::Download {
            output_dir: "/tmp".to_string(),
            output_template: "job-1.%(ext)s".to_string(),
            url: "https://www.reddit.com/r/rust/1".to_string(),
        }
    );
}

#[test]
fn small_video_is_uploaded_and_kept() {
    let (pipeline, _) = downloading();
    let (pipeline, step) = pipeline.step(Event::Downloaded);
    assert_eq!(step.action, Action::ListDirectory { path: "/tmp".to_string() });
    assert!(step.logs.is_empty());
    assert_eq!(pipeline.stage, Stage::Listing { chat_id: 42, job: job() });

    let (pipeline, step) = pipeline.step(Event::Listed(Some("\"/tmp/other.mp4\"".to_string())));
    assert_eq!(step.action, Action::InspectFile { path: "/tmp/job-1.mp4".to_string() });
    assert_eq!(step.logs, vec![line(Level::Info, "Video file: \"/tmp/other.mp4\"")]);
    assert_eq!(pipeline.stage, Stage::Inspecting { chat_id: 42, job: job() });

    let (pipeline, step) = pipeline.step(Event::Inspected(1024));
    assert_eq!(step.action, Action::SendVideo { chat_id: 42, path: "/tmp/job-1.mp4".to_string() });
    assert!(step.logs.is_empty());
    assert_eq!(pipeline.stage, Stage::Uploading);

    let (pipeline, step) = pipeline.step(Event::VideoSent(Ok(())));
    assert_eq!(step.action, Action::Respond);
    assert_eq!(step.logs, vec![line(Level::Info, "Video sent")]);
    assert!(pipeline.is_done());
}

#[test]
fn video_of_exactly_the_limit_is_uploaded() {
    let pipeline = at(Stage::Inspecting { chat_id: 42, job: job() });
    let (pipeline, step) = pipeline.step(Event::Inspected(50 * 1024 * 1024));
    assert_eq!(step.action, Action::SendVideo { chat_id: 42, path: "/tmp/job-1.mp4".to_string() });
    assert_eq!(pipeline.stage, Stage::Uploading);
}

#[test]
fn limit_is_binary_not_decimal() {
    let pipeline = at(Stage::Inspecting { chat_id: 42, job: job() });
    let (_, step) = pipeline.step(Event::Inspected(50_000_001));
    assert_eq!(step.action, Action::SendVideo { chat_id: 42, path: "/tmp/job-1.mp4".to_string() });
}

#[test]
fn empty_video_is_uploaded() {
    let pipeline = at(Stage::Inspecting { chat_id: 42, job: job() });
    let (_, step) = pipeline.step(Event::Inspected(0));
    assert_eq!(step.action, Action::SendVideo { chat_id: 42, path: "/tmp/job-1.mp4".to_string() });
}

#[test]
fn large_video_is_refused_and_deleted() {
    let pipeline = at(Stage::Inspecting { chat_id: 42, job: job() });
    let (pipeline, step) = pipeline.step(Event::Inspected(50 * 1024 * 1024 + 1));
    assert_eq!(step.action, Action::SendMessage { chat_id: 42, reply: Reply::TooLarge });
    assert_eq!(
        step.logs,
        vec![line(Level::Warn, "Video is too large to send: 52428801 bytes")]
    );
    assert_eq!(pipeline.stage, Stage::Rejecting { job: job() });

    let (pipeline, step) = pipeline.step(Event::MessageSent(Ok(())));
    assert_eq!(step.action, Action::DeleteFile { path: "/tmp/job-1.mp4".to_string() });
    assert!(step.logs.is_empty());
    assert_eq!(pipeline.stage, Stage::Deleting);

    let (pipeline, step) = pipeline.step(Event::Deleted(Ok(())));
    assert_eq!(step.action, Action::Respond);
    assert!(step.logs.is_empty());
    assert!(pipeline.is_done());
}

#[test]
fn largest_possible_video_is_refused() {
    let pipeline = at(Stage::Inspecting { chat_id: 42, job: job() });
    let (_, step) = pipeline.step(Event::Inspected(u64::MAX));
    assert_eq!(step.action, Action::SendMessage { chat_id: 42, reply: Reply::TooLarge });
    assert_eq!(
        step.logs,
        vec![line(Level::Warn, "Video is too large to send: 18446744073709551615 bytes")]
    );
}

#[test]
fn large_video_is_deleted_even_when_the_reply_fails() {
    let pipeline = at(Stage::Rejecting { job: job() });
    let (pipeline, step) = pipeline.step(Event::MessageSent(Err("offline".to_string())));
    assert_eq!(step.action, Action::DeleteFile { path: "/tmp/job-1.mp4".to_string() });
    assert_eq!(step.logs, vec![line(Level::Error, "Failed to send message: offline")]);
    assert_eq!(pipeline.stage, Stage::Deleting);
}

#[test]
fn failed_deletion_is_logged_only() {
    let pipeline = at(Stage::Deleting);
    let (pipeline, step) = pipeline.step(Event::Deleted(Err("permission denied".to_string())));
    assert_eq!(step.action, Action::Respond);
    assert_eq!(step.logs, vec![line(Level::Error, "Failed to delete video: permission denied")]);
    assert!(pipeline.is_done());
}

#[test]
fn failed_upload_is_logged_only() {
    let pipeline = at(Stage::Uploading);
    let (pipeline, step) = pipeline.step(Event::VideoSent(Err("413".to_string())));
    assert_eq!(step.action, Action::Respond);
    assert_eq!(step.logs, vec![line(Level::Error, "Failed to send video: 413")]);
    assert!(pipeline.is_done());
}

#[test]
fn downloader_that_cannot_be_set_up_fails_the_request() {
    let pipeline = at(Stage::Downloading { chat_id: 42, job: job() });
    let (pipeline, step) = pipeline.step(Event::DownloaderFailed);
    assert_eq!(step.action, Action::SendMessage { chat_id: 42, reply: Reply::DownloadFailed });
    assert_eq!(step.logs, vec![line(Level::Error, "Failed to create YoutubeDL instance")]);
    assert_eq!(pipeline.stage, Stage::Replying);
}

#[test]
fn failed_download_fails_the_request() {
    let pipeline = at(Stage::Downloading { chat_id: 42, job: job() });
    let (pipeline, step) = pipeline.step(Event::DownloadFailed);
    assert_eq!(step.action, Action::SendMessage { chat_id: 42, reply: Reply::DownloadFailed });
    assert_eq!(step.logs, vec![line(Level::Error, "Failed to start download")]);
    assert_eq!(pipeline.stage, Stage::Replying);
    let (pipeline, step) = pipeline.step(Event::MessageSent(Ok(())));
    assert_eq!(step.action, Action::Respond);
    assert!(pipeline.is_done());
}

#[test]
fn unreadable_directory_fails_the_request() {
    let pipeline = at(Stage::Listing { chat_id: 42, job: job() });
    let (pipeline, step) = pipeline.step(Event::ListingFailed);
    assert_eq!(step.action, Action::SendMessage { chat_id: 42, reply: Reply::DownloadFailed });
    assert_eq!(step.logs, vec![line(Level::Error, "Failed to read /tmp")]);
    assert_eq!(pipeline.stage, Stage::Replying);
}

#[test]
fn empty_directory_fails_the_request() {
    let pipeline = at(Stage::Listing { chat_id: 42, job: job() });
    let (pipeline, step) = pipeline.step(Event::Listed(None));
    assert_eq!(step.action, Action::SendMessage { chat_id: 42, reply: Reply::DownloadFailed });
    assert_eq!(step.logs, vec![line(Level::Error, "Video not found")]);
    assert_eq!(pipeline.stage, Stage::Replying);
}

#[test]
fn missing_file_fails_the_request() {
    let pipeline = at(Stage::Inspecting { chat_id: 42, job: job() });
    let (pipeline, step) = pipeline.step(Event::OpenFailed);
    assert_eq!(step.action, Action::SendMessage { chat_id: 42, reply: Reply::DownloadFailed });
    assert_eq!(step.logs, vec![line(Level::Error, "Failed to open video")]);
    assert_eq!(pipeline.stage, Stage::Replying);
}

#[test]
fn unreadable_size_fails_the_request() {
    let pipeline = at(Stage::Inspecting { chat_id: 42, job: job() });
    let (pipeline, step) = pipeline.step(Event::MetadataFailed);
    assert_eq!(step.action, Action::SendMessage { chat_id: 42, reply: Reply::DownloadFailed });
    assert_eq!(step.logs, vec![line(Level::Error, "Failed to get video metadata")]);
    assert_eq!(pipeline.stage, Stage::Replying);
}

#[test]
fn file_is_addressed_by_the_job_not_by_the_listing() {
    let pipeline = at(Stage::Listing { chat_id: 42, job: job() });
    let (_, step) = pipeline.step(Event::Listed(Some("/tmp/someone-elses.mp4".to_string())));
    assert_eq!(step.action, Action::InspectFile { path: "/tmp/job-1.mp4".to_string() });
}

#[test]
fn unexpected_event_ends_the_request() {
    let (pipeline, step) = at(Stage::Replying).step(Event::Downloaded);
    assert_eq!(step.action, Action::Respond);
    assert!(step.logs.is_empty());
    assert!(pipeline.is_done());

    let (pipeline, step) =
        at(Stage::Downloading { chat_id: 42, job: job() }).step(Event::Inspected(5));
    assert_eq!(step.action, Action::Respond);
    assert!(pipeline.is_done());

    let (pipeline, step) = at(Stage::Uploading).step(Event::MessageSent(Ok(())));
    assert_eq!(step.action, Action::Respond);
    assert!(pipeline.is_done());
}

#[test]
fn finished_request_stays_finished() {
    let (pipeline, step) = at(Stage::Done).step(Event::VideoSent(Ok(())));
    assert_eq!(step.action, Action::Respond);
    assert!(step.logs.is_empty());
    assert!(pipeline.is_done());
    let (pipeline, step) = pipeline.step(Event::Downloaded);
    assert_eq!(step.action, Action::Respond);
    assert!(pipeline.is_done());
}

#[test]
fn every_line_carries_the_operation_id() {
    let (mut pipeline, mut step) = downloading();
    let mut lines = step.logs;
    for event in [
        Event::Downloaded,
        Event::Listed(Some("x".to_string())),
        Event::Inspected(MAX_VIDEO_BYTES + 1),
        Event::MessageSent(Err("a".to_string())),
        Event::Deleted(Err("b".to_string())),
    ] {
        (pipeline, step) = pipeline.step(event);
        lines.extend(step.logs);
    }
    assert!(pipeline.is_done());
    assert_eq!(lines.len(), 5);
    assert!(lines.iter().all(|l| l.target == "op-1"));
}

#[test]
fn handler_drops_a_malformed_body() {
    let (pipeline, step) = get_video(&config(), Inbound::Malformed { raw: "not json".to_string() });
    assert_eq!(step.action, Action::Respond);
    assert!(pipeline.is_done());
    assert!(looks_random(&pipeline.ctx.operation_id));
    assert_eq!(step.logs.len(), 2);
    assert_eq!(step.logs[0].message, "Started handler");
    assert_eq!(step.logs[1].message, "Failed to deserialize update: not json");
    assert!(step.logs.iter().all(|l| l.target == pipeline.ctx.operation_id));
}

#[test]
fn handler_drops_a_stranger() {
    let (pipeline, step) = get_video(&config(), update(1, "https://www.reddit.com/r/rust/1"));
    assert_eq!(step.action, Action::Respond);
    assert!(pipeline.is_done());
    assert_eq!(step.logs[1].message, "Message is not from personal id: 1");
}

#[test]
fn handler_greets() {
    let (pipeline, step) = get_video(&config(), update(42, "/start"));
    assert_eq!(step.action, Action::SendMessage { chat_id: 42, reply: Reply::Greeting });
    assert_eq!(pipeline.stage, Stage::Replying);
}

#[test]
fn handler_refuses_text_that_is_no_url() {
    for text in ["hello", "", "reddit.com/r/rust", "www.reddit.com", "/help", "//reddit.com"] {
        let (pipeline, step) = get_video(&config(), update(42, text));
        assert_eq!(step.action, Action::SendMessage { chat_id: 42, reply: Reply::InvalidUrl });
        assert_eq!(step.logs[1].message, format!("Failed to parse URL: {}", text));
        assert_eq!(pipeline.stage, Stage::Replying);
    }
}

#[test]
fn handler_refuses_other_sites() {
    let (pipeline, step) = get_video(&config(), update(42, "https://example.com/post"));
    assert_eq!(step.action, Action::SendMessage { chat_id: 42, reply: Reply::NotReddit });
    assert_eq!(step.logs[1].message, "URL is not a reddit post: https://example.com/post");
    assert_eq!(pipeline.stage, Stage::Replying);
}

#[test]
fn handler_refuses_a_url_without_host() {
    let (_, step) = get_video(&config(), update(42, "mailto:me@reddit.com"));
    assert_eq!(step.action, Action::SendMessage { chat_id: 42, reply: Reply::NotReddit });
}

#[test]
fn handler_starts_a_download_for_a_reddit_link() {
    let (pipeline, step) =
        get_video(&config(), update(42, "https://www.reddit.com/r/rust/comments/abc"));
    let job_id = match &pipeline.stage {
        Stage::Downloading { chat_id: 42, job } => job.job_id().clone(),
        other => panic!("unexpected stage {:?}", other),
    };
    assert!(looks_random(&job_id));
    assert_ne!(job_id, pipeline.ctx.operation_id);
    assert_eq!(
        step.action,
        Action::Download {
            output_dir: "/tmp".to_string(),
            output_template: format!("{}.%(ext)s", job_id),
            url: "https://www.reddit.com/r/rust/comments/abc".to_string(),
        }
    );
}

#[test]
fn handler_hands_on_the_parsed_form_of_the_link() {
    let (_, step) = get_video(&config(), update(42, "HTTPS://WWW.Reddit.COM/r/rust/../pics"));
    match step.action {
        Action::Download { url, .. } => assert_eq!(url, "https://www.reddit.com/r/pics"),
        other => panic!("unexpected action {:?}", other),
    }
}

#[test]
fn handler_accepts_a_host_that_merely_contains_the_marker() {
    let (_, step) = get_video(&config(), update(42, "https://notreddit.com.evil.example/x"));
    assert!(matches!(step.action, Action::Download { .. }));
}

#[test]
fn handler_looks_at_the_host_only() {
    let (_, step) = get_video(&config(), update(42, "https://example.com/reddit.com"));
    assert_eq!(step.action, Action::SendMessage { chat_id: 42, reply: Reply::NotReddit });
}

#[test]
fn repeated_dropped_requests_change_nothing() {
    let mut ids = Vec::new();
    for _ in 0..5 {
        let (pipeline, step) = get_video(&config(), Inbound::Malformed { raw: "[]".to_string() });
        assert_eq!(step.action, Action::Respond);
        assert!(pipeline.is_done());
        ids.push(pipeline.ctx.operation_id);

        let (pipeline, step) = get_video(&config(), update(9, "/start"));
        assert_eq!(step.action, Action::Respond);
        assert!(pipeline.is_done());
        ids.push(pipeline.ctx.operation_id);
    }
    for i in 0..ids.len() {
        for j in 0..i {
            assert_ne!(ids[i], ids[j]);
        }
    }
}

#[test]
fn concurrent_downloads_get_distinct_files() {
    let (first, _) = get_video(&config(), update(42, "https://www.reddit.com/r/rust/1"));
    let (second, _) = get_video(&config(), update(42, "https://www.reddit.com/r/rust/1"));
    match (first.stage, second.stage) {
        (Stage::Downloading { job: a, .. }, Stage::Downloading { job: b, .. }) => {
            assert_ne!(a.output_path(), b.output_path());
        }
        other => panic!("unexpected stages {:?}", other),
    }
}
