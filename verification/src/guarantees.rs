//! What holds of every request, whatever the caller reports back: who gets
//! an answer, how many, and when a download, an upload or a deletion takes
//! place. All of it is stated over the actions that the pipeline asks for.

use crate::api::telegram::decode_update;
use crate::job::{output_dir, output_path_of, output_template_of};
use crate::json::Json;
use crate::link::{is_reddit_host, ParsedUrlView};
use crate::text::lemma_decimal_injective;
use crate::pipeline::{
    inbound_of, is_authorized, start_command, start_model, step_model, ActionView, EventView, InboundView,
    PipelineView, Reply, StageView, MAX_VIDEO_BYTES,
};
use vstd::prelude::*;

verus! {

/// The actions that a pipeline in state `p` asks for as the events arrive
/// one by one. Nothing is asked for once the request is over.
pub open spec fn run(p: PipelineView, events: Seq<EventView>) -> Seq<ActionView>
    decreases events.len(),
{
    if events.len() == 0 || p.stage is Done {
        Seq::empty()
    } else {
        let (next, step) = step_model(p, events[0]);
        seq![step.action] + run(next, events.drop_first())
    }
}

/// All actions of one request: the first one, then those that follow as
/// the events arrive.
pub open spec fn trace(
    personal_id: Seq<char>,
    inbound: InboundView,
    parsed: Option<ParsedUrlView>,
    operation_id: Seq<char>,
    job_id: Seq<char>,
    events: Seq<EventView>,
) -> Seq<ActionView> {
    let (p, step) = start_model(personal_id, inbound, parsed, operation_id, job_id);
    seq![step.action] + run(p, events)
}

/// The kinds of action that the guarantees count.
pub enum Kind {
    /// A text message is sent.
    TextMessage,
    /// A video is uploaded.
    VideoUpload,
    /// Anything is sent to a chat: a text message or a video.
    Outbound,
    /// The downloader is started.
    Download,
    /// A file is deleted.
    Deletion,
}

/// Whether an action is of the given kind.
pub open spec fn is_kind(a: ActionView, kind: Kind) -> bool {
    match kind {
        Kind::TextMessage => a is SendMessage,
        Kind::VideoUpload => a is SendVideo,
        Kind::Outbound => a is SendMessage || a is SendVideo,
        Kind::Download => a is Download,
        Kind::Deletion => a is DeleteFile,
    }
}

/// How many of the actions are of the given kind.
pub open spec fn count(actions: Seq<ActionView>, kind: Kind) -> nat
    decreases actions.len(),
{
    if actions.len() == 0 {
        0
    } else {
        (if is_kind(actions[0], kind) {
            1nat
        } else {
            0nat
        }) + count(actions.drop_first(), kind)
    }
}

/// Whether a request is dropped without an answer to its sender: its body
/// did not decode, or it comes from someone other than the configured
/// sender.
pub open spec fn is_dropped(personal_id: Seq<char>, inbound: InboundView) -> bool {
    match inbound {
        InboundView::Malformed { .. } => true,
        InboundView::Decoded { id, .. } => !is_authorized(personal_id, id),
    }
}

/// What one repetition of a request meets: the identifiers minted for it,
/// the outcome of parsing, and the events reported.
pub struct Attempt {
    pub parsed: Option<ParsedUrlView>,
    pub operation_id: Seq<char>,
    pub job_id: Seq<char>,
    pub events: Seq<EventView>,
}

/// All actions of a request that is repeated once per attempt, in order.
pub open spec fn replay(personal_id: Seq<char>, inbound: InboundView, attempts: Seq<Attempt>) -> Seq<ActionView>
    decreases attempts.len(),
{
    if attempts.len() == 0 {
        Seq::empty()
    } else {
        let a = attempts.last();
        replay(personal_id, inbound, attempts.drop_last()) + trace(
            personal_id,
            inbound,
            a.parsed,
            a.operation_id,
            a.job_id,
            a.events,
        )
    }
}

/// Counting distributes over concatenation.
pub proof fn lemma_count_concat(
    a: Seq<ActionView>,
    b: Seq<ActionView>,
    kind: Kind,
)
    ensures
        count(a + b, kind) == count(a, kind) + count(b, kind),
    decreases a.len(),
{
    if a.len() == 0 {
        assert(a + b =~= b);
    } else {
        assert((a + b).drop_first() =~= a.drop_first() + b);
        lemma_count_concat(a.drop_first(), b, kind);
    }
}

/// A count of one action.
proof fn lemma_count_one(a: ActionView, kind: Kind)
    ensures
        count(seq![a], kind) == if is_kind(a, kind) {
            1nat
        } else {
            0nat
        },
{
    assert(seq![a].drop_first() =~= Seq::<ActionView>::empty());
    assert(count(Seq::<ActionView>::empty(), kind) == 0);
}

/// From a stage that only waits for a last answer, the request asks for
/// nothing but the response to the webhook call, and for that at most once.
proof fn lemma_last_answer(p: PipelineView, events: Seq<EventView>)
    requires
        p.stage is Replying || p.stage is Deleting || p.stage is Uploading || p.stage is Done,
    ensures
        run(p, events) == Seq::<ActionView>::empty() || run(p, events) == seq![
            ActionView::Respond,
        ],
        events.len() > 0 && !(p.stage is Done) ==> run(p, events) == seq![ActionView::Respond],
{
    if events.len() == 0 || p.stage is Done {
    } else {
        let (next, step) = step_model(p, events[0]);
        assert(next.stage is Done);
        assert(step.action == ActionView::Respond);
        assert(run(next, events.drop_first()) == Seq::<ActionView>::empty());
        assert(seq![step.action] + Seq::<ActionView>::empty() =~= seq![ActionView::Respond]);
    }
}

/// A request whose body does not decode is answered with success and
/// nothing else happens: no message is sent, whatever is reported.
pub proof fn malformed_request_is_dropped(
    personal_id: Seq<char>,
    raw: Seq<char>,
    parsed: Option<ParsedUrlView>,
    operation_id: Seq<char>,
    job_id: Seq<char>,
    events: Seq<EventView>,
)
    ensures
        trace(
            personal_id,
            InboundView::Malformed { raw },
            parsed,
            operation_id,
            job_id,
            events,
        ) == seq![ActionView::Respond],
        start_model(
            personal_id,
            InboundView::Malformed { raw },
            parsed,
            operation_id,
            job_id,
        ).0.stage is Done,
{
    let (p, step) = start_model(
        personal_id,
        InboundView::Malformed { raw },
        parsed,
        operation_id,
        job_id,
    );
    assert(run(p, events) == Seq::<ActionView>::empty());
    assert(seq![step.action] + Seq::<ActionView>::empty() =~= seq![ActionView::Respond]);
}

/// A body that is no JSON, or whose JSON holds no update, is a malformed
/// request: it is answered with success and no message is sent, whatever
/// is reported.
pub proof fn undecodable_body_is_dropped(
    personal_id: Seq<char>,
    body: Option<Json>,
    raw: Seq<char>,
    parsed: Option<ParsedUrlView>,
    operation_id: Seq<char>,
    job_id: Seq<char>,
    events: Seq<EventView>,
)
    requires
        body matches Some(value) ==> decode_update(value) is None,
    ensures
        trace(personal_id, inbound_of(body, raw), parsed, operation_id, job_id, events) == seq![
            ActionView::Respond,
        ],
{
    malformed_request_is_dropped(personal_id, raw, parsed, operation_id, job_id, events);
}

/// A request from anyone but the configured sender is answered with
/// success and nothing else happens: no message is sent, whatever is
/// reported.
pub proof fn unauthorized_request_is_dropped(
    personal_id: Seq<char>,
    id: i64,
    text: Seq<char>,
    parsed: Option<ParsedUrlView>,
    operation_id: Seq<char>,
    job_id: Seq<char>,
    events: Seq<EventView>,
)
    requires
        !is_authorized(personal_id, id),
    ensures
        trace(
            personal_id,
            InboundView::Decoded { id, text },
            parsed,
            operation_id,
            job_id,
            events,
        ) == seq![ActionView::Respond],
        start_model(
            personal_id,
            InboundView::Decoded { id, text },
            parsed,
            operation_id,
            job_id,
        ).0.stage is Done,
{
    let (p, step) = start_model(
        personal_id,
        InboundView::Decoded { id, text },
        parsed,
        operation_id,
        job_id,
    );
    assert(run(p, events) == Seq::<ActionView>::empty());
    assert(seq![step.action] + Seq::<ActionView>::empty() =~= seq![ActionView::Respond]);
}

/// A request that ends in one text reply: that reply is the first action,
/// it is the only thing ever sent, and no download, upload or deletion
/// takes place.
pub open spec fn answers_once_with(actions: Seq<ActionView>, chat_id: i64, reply: Reply) -> bool {
    &&& actions.len() >= 1
    &&& actions[0] == ActionView::SendMessage { chat_id, reply }
    &&& count(actions, Kind::Outbound) == 1
    &&& count(actions, Kind::Download) == 0
    &&& count(actions, Kind::Deletion) == 0
}

proof fn lemma_single_reply(
    first: ActionView,
    rest: Seq<ActionView>,
    chat_id: i64,
    reply: Reply,
)
    requires
        first == (ActionView::SendMessage { chat_id, reply }),
        rest == Seq::<ActionView>::empty() || rest == seq![ActionView::Respond],
    ensures
        answers_once_with(seq![first] + rest, chat_id, reply),
{
    let out = Kind::Outbound;
    let down = Kind::Download;
    let del = Kind::Deletion;
    lemma_count_concat(seq![first], rest, out);
    lemma_count_concat(seq![first], rest, down);
    lemma_count_concat(seq![first], rest, del);
    lemma_count_one(first, out);
    lemma_count_one(first, down);
    lemma_count_one(first, del);
    lemma_count_one(ActionView::Respond, out);
    lemma_count_one(ActionView::Respond, down);
    lemma_count_one(ActionView::Respond, del);
}

/// The start command from the configured sender is answered with exactly
/// one greeting, sent to the sender's chat.
pub proof fn start_command_is_greeted_once(
    personal_id: Seq<char>,
    id: i64,
    parsed: Option<ParsedUrlView>,
    operation_id: Seq<char>,
    job_id: Seq<char>,
    events: Seq<EventView>,
)
    requires
        is_authorized(personal_id, id),
    ensures
        answers_once_with(
            trace(
                personal_id,
                InboundView::Decoded { id, text: start_command() },
                parsed,
                operation_id,
                job_id,
                events,
            ),
            id,
            Reply::Greeting,
        ),
{
    let (p, step) = start_model(
        personal_id,
        InboundView::Decoded { id, text: start_command() },
        parsed,
        operation_id,
        job_id,
    );
    lemma_last_answer(p, events);
    lemma_single_reply(step.action, run(p, events), id, Reply::Greeting);
}

/// Text from the configured sender that is neither the start command nor a
/// URL is answered with exactly one request for a valid URL; no download
/// is attempted.
pub proof fn invalid_url_is_refused_once(
    personal_id: Seq<char>,
    id: i64,
    text: Seq<char>,
    operation_id: Seq<char>,
    job_id: Seq<char>,
    events: Seq<EventView>,
)
    requires
        is_authorized(personal_id, id),
        text != start_command(),
    ensures
        answers_once_with(
            trace(
                personal_id,
                InboundView::Decoded { id, text },
                None,
                operation_id,
                job_id,
                events,
            ),
            id,
            Reply::InvalidUrl,
        ),
{
    let (p, step) = start_model(
        personal_id,
        InboundView::Decoded { id, text },
        None,
        operation_id,
        job_id,
    );
    lemma_last_answer(p, events);
    lemma_single_reply(step.action, run(p, events), id, Reply::InvalidUrl);
}

/// A URL from the configured sender whose host does not contain the marker
/// is answered with exactly one request for a valid post; no download is
/// attempted.
pub proof fn foreign_host_is_refused_once(
    personal_id: Seq<char>,
    id: i64,
    text: Seq<char>,
    url: ParsedUrlView,
    operation_id: Seq<char>,
    job_id: Seq<char>,
    events: Seq<EventView>,
)
    requires
        is_authorized(personal_id, id),
        text != start_command(),
        !is_reddit_host(url.host),
    ensures
        answers_once_with(
            trace(
                personal_id,
                InboundView::Decoded { id, text },
                Some(url),
                operation_id,
                job_id,
                events,
            ),
            id,
            Reply::NotReddit,
        ),
{
    let (p, step) = start_model(
        personal_id,
        InboundView::Decoded { id, text },
        Some(url),
        operation_id,
        job_id,
    );
    lemma_last_answer(p, events);
    lemma_single_reply(step.action, run(p, events), id, Reply::NotReddit);
}

/// Whether a request is an accepted link from the configured sender.
pub open spec fn is_accepted_link(
    personal_id: Seq<char>,
    id: i64,
    text: Seq<char>,
    url: ParsedUrlView,
) -> bool {
    &&& is_authorized(personal_id, id)
    &&& text != start_command()
    &&& is_reddit_host(url.host)
}

/// The events of a download that succeeds and leaves a file of `size`
/// bytes, followed by whatever else is reported.
pub open spec fn downloaded_then(entry: Seq<char>, size: u64, rest: Seq<EventView>) -> Seq<EventView> {
    seq![EventView::Downloaded, EventView::Listed(Some(entry)), EventView::Inspected(size)] + rest
}

/// After a successful download of a file within the size limit, exactly
/// one video upload is asked for, to the sender's chat and with the job's
/// file; no text message is sent and the file is not deleted.
pub proof fn small_video_is_uploaded_once(
    personal_id: Seq<char>,
    id: i64,
    text: Seq<char>,
    url: ParsedUrlView,
    operation_id: Seq<char>,
    job_id: Seq<char>,
    entry: Seq<char>,
    size: u64,
    rest: Seq<EventView>,
)
    requires
        is_accepted_link(personal_id, id, text, url),
        size <= MAX_VIDEO_BYTES,
    ensures
        ({
            let actions = trace(
                personal_id,
                InboundView::Decoded { id, text },
                Some(url),
                operation_id,
                job_id,
                downloaded_then(entry, size, rest),
            );
            &&& actions.len() >= 4
            &&& actions[3] == ActionView::SendVideo { chat_id: id, path: output_path_of(job_id) }
            &&& count(actions, Kind::VideoUpload) == 1
            &&& count(actions, Kind::TextMessage) == 0
            &&& count(actions, Kind::Deletion) == 0
            &&& count(actions, Kind::Download) == 1
        }),
{
    let events = downloaded_then(entry, size, rest);
    let (at_start, first) = start_model(
        personal_id,
        InboundView::Decoded { id, text },
        Some(url),
        operation_id,
        job_id,
    );
    let (at_listing, second) = step_model(at_start, events[0]);
    let after_one = events.drop_first();
    let (at_inspection, third) = step_model(at_listing, after_one[0]);
    let after_two = after_one.drop_first();
    let (at_gate, fourth) = step_model(at_inspection, after_two[0]);
    let after_three = after_two.drop_first();
    assert(after_three =~= rest);
    assert(run(at_start, events) == seq![second.action] + run(at_listing, after_one));
    assert(run(at_listing, after_one) == seq![third.action] + run(at_inspection, after_two));
    assert(run(at_inspection, after_two) == seq![fourth.action] + run(at_gate, after_three));
    lemma_last_answer(at_gate, rest);
    let tail = run(at_gate, rest);
    let head = seq![first.action, second.action, third.action, fourth.action];
    let actions = trace(
        personal_id,
        InboundView::Decoded { id, text },
        Some(url),
        operation_id,
        job_id,
        events,
    );
    assert(actions =~= head + tail);
    lemma_counts_of_four(head, tail, Kind::VideoUpload);
    lemma_counts_of_four(head, tail, Kind::TextMessage);
    lemma_counts_of_four(head, tail, Kind::Deletion);
    lemma_counts_of_four(head, tail, Kind::Download);
}

proof fn lemma_counts_of_four(
    head: Seq<ActionView>,
    tail: Seq<ActionView>,
    kind: Kind,
)
    requires
        head.len() == 4,
        tail == Seq::<ActionView>::empty() || tail == seq![ActionView::Respond],
    ensures
        count(head + tail, kind) == (if is_kind(head[0], kind) {
            1nat
        } else {
            0nat
        }) + (if is_kind(head[1], kind) {
            1nat
        } else {
            0nat
        }) + (if is_kind(head[2], kind) {
            1nat
        } else {
            0nat
        }) + (if is_kind(head[3], kind) {
            1nat
        } else {
            0nat
        }) + (if tail.len() > 0 && is_kind(ActionView::Respond, kind) {
            1nat
        } else {
            0nat
        }),
{
    lemma_count_concat(head, tail, kind);
    lemma_count_one(ActionView::Respond, kind);
    let from_second = head.drop_first();
    let from_third = from_second.drop_first();
    let from_fourth = from_third.drop_first();
    assert(from_fourth.drop_first() =~= Seq::<ActionView>::empty());
    assert(count(from_fourth, kind) == (if is_kind(from_fourth[0], kind) {
        1nat
    } else {
        0nat
    }) + count(from_fourth.drop_first(), kind));
    assert(count(from_third, kind) == (if is_kind(from_third[0], kind) {
        1nat
    } else {
        0nat
    }) + count(from_fourth, kind));
    assert(count(from_second, kind) == (if is_kind(from_second[0], kind) {
        1nat
    } else {
        0nat
    }) + count(from_third, kind));
}

/// The events of a download that leaves a file of `size` bytes, followed
/// by the report on a text message and whatever else is reported.
pub open spec fn refused_then(
    entry: Seq<char>,
    size: u64,
    sent: Result<(), Seq<char>>,
    rest: Seq<EventView>,
) -> Seq<EventView> {
    seq![
        EventView::Downloaded,
        EventView::Listed(Some(entry)),
        EventView::Inspected(size),
        EventView::MessageSent(sent),
    ] + rest
}

/// After a successful download of a file above the size limit, the sender
/// is told once that the video is too large, the job's file is deleted
/// whether or not that message went out, and no upload is asked for.
pub proof fn large_video_is_refused_and_deleted(
    personal_id: Seq<char>,
    id: i64,
    text: Seq<char>,
    url: ParsedUrlView,
    operation_id: Seq<char>,
    job_id: Seq<char>,
    entry: Seq<char>,
    size: u64,
    sent: Result<(), Seq<char>>,
    rest: Seq<EventView>,
)
    requires
        is_accepted_link(personal_id, id, text, url),
        size > MAX_VIDEO_BYTES,
    ensures
        ({
            let actions = trace(
                personal_id,
                InboundView::Decoded { id, text },
                Some(url),
                operation_id,
                job_id,
                refused_then(entry, size, sent, rest),
            );
            &&& actions.len() >= 5
            &&& actions[3] == ActionView::SendMessage { chat_id: id, reply: Reply::TooLarge }
            &&& actions[4] == ActionView::DeleteFile { path: output_path_of(job_id) }
            &&& count(actions, Kind::TextMessage) == 1
            &&& count(actions, Kind::Deletion) == 1
            &&& count(actions, Kind::VideoUpload) == 0
        }),
{
    let events = refused_then(entry, size, sent, rest);
    let (at_start, first) = start_model(
        personal_id,
        InboundView::Decoded { id, text },
        Some(url),
        operation_id,
        job_id,
    );
    let (at_listing, second) = step_model(at_start, events[0]);
    let after_one = events.drop_first();
    let (at_inspection, third) = step_model(at_listing, after_one[0]);
    let after_two = after_one.drop_first();
    let (at_gate, fourth) = step_model(at_inspection, after_two[0]);
    let after_three = after_two.drop_first();
    let (at_deletion, fifth) = step_model(at_gate, after_three[0]);
    let after_four = after_three.drop_first();
    assert(after_four =~= rest);
    assert(run(at_start, events) == seq![second.action] + run(at_listing, after_one));
    assert(run(at_listing, after_one) == seq![third.action] + run(at_inspection, after_two));
    assert(run(at_inspection, after_two) == seq![fourth.action] + run(at_gate, after_three));
    assert(run(at_gate, after_three) == seq![fifth.action] + run(at_deletion, after_four));
    lemma_last_answer(at_deletion, rest);
    let tail = run(at_deletion, rest);
    let head = seq![first.action, second.action, third.action, fourth.action];
    let end = seq![fifth.action] + tail;
    let actions = trace(
        personal_id,
        InboundView::Decoded { id, text },
        Some(url),
        operation_id,
        job_id,
        events,
    );
    assert(actions =~= head + end);
    let text_message = Kind::TextMessage;
    let deletion = Kind::Deletion;
    let upload = Kind::VideoUpload;
    lemma_counts_of_four(head, Seq::empty(), text_message);
    lemma_counts_of_four(head, Seq::empty(), deletion);
    lemma_counts_of_four(head, Seq::empty(), upload);
    assert(head + Seq::<ActionView>::empty() =~= head);
    lemma_count_concat(head, end, text_message);
    lemma_count_concat(head, end, deletion);
    lemma_count_concat(head, end, upload);
    lemma_count_concat(seq![fifth.action], tail, text_message);
    lemma_count_concat(seq![fifth.action], tail, deletion);
    lemma_count_concat(seq![fifth.action], tail, upload);
    lemma_count_one(fifth.action, text_message);
    lemma_count_one(fifth.action, deletion);
    lemma_count_one(fifth.action, upload);
    lemma_count_one(ActionView::Respond, text_message);
    lemma_count_one(ActionView::Respond, deletion);
    lemma_count_one(ActionView::Respond, upload);
}

/// A dropped request leaves nothing behind: however often it is repeated,
/// and whatever each repetition meets, every repetition asks for the
/// response to the webhook call and for nothing else.
pub proof fn dropped_request_is_repeatable(
    personal_id: Seq<char>,
    inbound: InboundView,
    attempts: Seq<Attempt>,
)
    requires
        is_dropped(personal_id, inbound),
    ensures
        replay(personal_id, inbound, attempts) == Seq::new(
            attempts.len(),
            |i: int| ActionView::Respond,
        ),
    decreases attempts.len(),
{
    if attempts.len() == 0 {
        assert(replay(personal_id, inbound, attempts) =~= Seq::new(
            attempts.len(),
            |i: int| ActionView::Respond,
        ));
    } else {
        let a = attempts.last();
        dropped_request_is_repeatable(personal_id, inbound, attempts.drop_last());
        match inbound {
            InboundView::Malformed { raw } => {
                malformed_request_is_dropped(
                    personal_id,
                    raw,
                    a.parsed,
                    a.operation_id,
                    a.job_id,
                    a.events,
                );
            },
            InboundView::Decoded { id, text } => {
                unauthorized_request_is_dropped(
                    personal_id,
                    id,
                    text,
                    a.parsed,
                    a.operation_id,
                    a.job_id,
                    a.events,
                );
            },
        }
        assert(replay(personal_id, inbound, attempts) =~= Seq::new(
            attempts.len(),
            |i: int| ActionView::Respond,
        ));
    }
}

/// How many messages or videos a request can still send from a stage:
/// one while the download and the size gate are ahead, none after.
pub open spec fn answers_left(stage: StageView) -> nat {
    match stage {
        StageView::Downloading { .. } => 1,
        StageView::Listing { .. } => 1,
        StageView::Inspecting { .. } => 1,
        _ => 0,
    }
}

proof fn lemma_run_is_bounded(p: PipelineView, events: Seq<EventView>)
    ensures
        count(run(p, events), Kind::Outbound) <= answers_left(p.stage),
        count(run(p, events), Kind::Download) == 0,
    decreases events.len(),
{
    if events.len() == 0 || p.stage is Done {
    } else {
        let (next, step) = step_model(p, events[0]);
        let rest = run(next, events.drop_first());
        lemma_run_is_bounded(next, events.drop_first());
        lemma_count_concat(seq![step.action], rest, Kind::Outbound);
        lemma_count_concat(seq![step.action], rest, Kind::Download);
        lemma_count_one(step.action, Kind::Outbound);
        lemma_count_one(step.action, Kind::Download);
    }
}

/// Whatever the request and whatever is reported, a request sends at most
/// one message or video in all, and it starts at most one download.
pub proof fn request_is_answered_at_most_once(
    personal_id: Seq<char>,
    inbound: InboundView,
    parsed: Option<ParsedUrlView>,
    operation_id: Seq<char>,
    job_id: Seq<char>,
    events: Seq<EventView>,
)
    ensures
        count(
            trace(personal_id, inbound, parsed, operation_id, job_id, events),
            Kind::Outbound,
        ) <= 1,
        count(
            trace(personal_id, inbound, parsed, operation_id, job_id, events),
            Kind::Download,
        ) <= 1,
{
    let (p, step) = start_model(personal_id, inbound, parsed, operation_id, job_id);
    lemma_run_is_bounded(p, events);
    lemma_count_concat(seq![step.action], run(p, events), Kind::Outbound);
    lemma_count_concat(seq![step.action], run(p, events), Kind::Download);
    lemma_count_one(step.action, Kind::Outbound);
    lemma_count_one(step.action, Kind::Download);
}

/// Every line of the first move carries the request's operation
/// identifier, and the pipeline keeps that identifier.
pub proof fn first_lines_carry_the_operation_id(
    personal_id: Seq<char>,
    inbound: InboundView,
    parsed: Option<ParsedUrlView>,
    operation_id: Seq<char>,
    job_id: Seq<char>,
)
    ensures
        ({
            let (p, step) = start_model(personal_id, inbound, parsed, operation_id, job_id);
            &&& p.operation_id == operation_id
            &&& forall|i: int|
                0 <= i < step.logs.len() ==> (#[trigger] step.logs[i]).target == operation_id
        }),
{
}

/// Every line of a later move carries the operation identifier of the
/// pipeline that made the move, and the move does not change it.
pub proof fn lines_carry_the_operation_id(p: PipelineView, event: EventView)
    ensures
        ({
            let (next, step) = step_model(p, event);
            &&& next.operation_id == p.operation_id
            &&& forall|i: int|
                0 <= i < step.logs.len() ==> (#[trigger] step.logs[i]).target == p.operation_id
        }),
{
}

/// Whether an action keeps to one chat and one job: what it sends goes to
/// `chat_id`, and the directory and the files it names are the output
/// directory and the files of the job `job_id`.
pub open spec fn stays_within(a: ActionView, chat_id: i64, job_id: Seq<char>) -> bool {
    match a {
        ActionView::SendMessage { chat_id: to, .. } => to == chat_id,
        ActionView::SendVideo { chat_id: to, path } => to == chat_id && path == output_path_of(
            job_id,
        ),
        ActionView::Download { output_dir: dir, output_template, .. } => dir == output_dir()
            && output_template == output_template_of(job_id),
        ActionView::ListDirectory { path } => path == output_dir(),
        ActionView::InspectFile { path } => path == output_path_of(job_id),
        ActionView::DeleteFile { path } => path == output_path_of(job_id),
        ActionView::Respond => true,
    }
}

/// Whether a stage holds the given chat and the job of the given
/// identifier, with the path derived from that identifier.
pub open spec fn holds(stage: StageView, chat_id: i64, job_id: Seq<char>) -> bool {
    match stage {
        StageView::Downloading { chat_id: to, job } => to == chat_id && job.job_id == job_id
            && job.wf(),
        StageView::Listing { chat_id: to, job } => to == chat_id && job.job_id == job_id
            && job.wf(),
        StageView::Inspecting { chat_id: to, job } => to == chat_id && job.job_id == job_id
            && job.wf(),
        StageView::Rejecting { job } => job.job_id == job_id && job.wf(),
        _ => true,
    }
}

proof fn lemma_run_stays_within(
    p: PipelineView,
    events: Seq<EventView>,
    chat_id: i64,
    job_id: Seq<char>,
)
    requires
        holds(p.stage, chat_id, job_id),
    ensures
        forall|i: int|
            0 <= i < run(p, events).len() ==> stays_within(
                #[trigger] run(p, events)[i],
                chat_id,
                job_id,
            ),
    decreases events.len(),
{
    if events.len() == 0 || p.stage is Done {
    } else {
        let (next, step) = step_model(p, events[0]);
        let rest = run(next, events.drop_first());
        assert(stays_within(step.action, chat_id, job_id));
        assert(holds(next.stage, chat_id, job_id));
        lemma_run_stays_within(next, events.drop_first(), chat_id, job_id);
        assert forall|i: int| 0 <= i < run(p, events).len() implies stays_within(
            #[trigger] run(p, events)[i],
            chat_id,
            job_id,
        ) by {
            if i > 0 {
                assert(run(p, events)[i] == rest[i - 1]);
            }
        }
    }
}

/// A request keeps to its sender and to its own job: whatever is reported,
/// every message and video goes to the sender's chat, and every file that
/// is inspected, deleted or uploaded is the one file of the request's job.
pub proof fn request_keeps_to_its_chat_and_file(
    personal_id: Seq<char>,
    id: i64,
    text: Seq<char>,
    parsed: Option<ParsedUrlView>,
    operation_id: Seq<char>,
    job_id: Seq<char>,
    events: Seq<EventView>,
)
    ensures
        forall|i: int|
            0 <= i < trace(
                personal_id,
                InboundView::Decoded { id, text },
                parsed,
                operation_id,
                job_id,
                events,
            ).len() ==> stays_within(
                #[trigger] trace(
                    personal_id,
                    InboundView::Decoded { id, text },
                    parsed,
                    operation_id,
                    job_id,
                    events,
                )[i],
                id,
                job_id,
            ),
{
    let inbound = InboundView::Decoded { id, text };
    let (p, step) = start_model(personal_id, inbound, parsed, operation_id, job_id);
    let actions = trace(personal_id, inbound, parsed, operation_id, job_id, events);
    lemma_run_stays_within(p, events, id, job_id);
    assert forall|i: int| 0 <= i < actions.len() implies stays_within(
        #[trigger] actions[i],
        id,
        job_id,
    ) by {
        if i > 0 {
            assert(actions[i] == run(p, events)[i - 1]);
        }
    }
}

/// A configuration serves a single sender: two identities that are both
/// authorized are the same identity.
pub proof fn one_sender_is_authorized(personal_id: Seq<char>, first: i64, second: i64)
    requires
        is_authorized(personal_id, first),
        is_authorized(personal_id, second),
    ensures
        first == second,
{
    lemma_decimal_injective(first as int, second as int);
}

} // verus!
