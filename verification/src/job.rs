//! Identifiers minted per request and the download job they name.

use vstd::prelude::*;
use vstd::string::*;

verus! {

/// Whether `c` is a hexadecimal digit in lower case.
pub open spec fn is_lower_hex(c: char) -> bool {
    ('0' <= c && c <= '9') || ('a' <= c && c <= 'f')
}

/// Whether position `i` of a hyphenated identifier holds a hyphen.
pub open spec fn is_hyphen_position(i: int) -> bool {
    i == 8 || i == 13 || i == 18 || i == 23
}

/// The shape of a random identifier: 36 characters, hyphens after the
/// 8th, 12th, 16th and 20th hexadecimal digit, lower-case digits elsewhere.
pub open spec fn is_uuid_text(s: Seq<char>) -> bool {
    &&& s.len() == 36
    &&& forall|i: int|
        0 <= i < 36 ==> if is_hyphen_position(i) {
            #[trigger] s[i] == '-'
        } else {
            is_lower_hex(s[i])
        }
}

/// Draws a fresh random identifier with `uuid::Uuid::new_v4` and renders it
/// with the type's `Display`. Trusted: the text is in hyphenated lower-case
/// form. Nothing is claimed of which identifier comes back; the call aborts
/// the program if the operating system cannot supply random bytes.
#[verifier::external_body]
pub(crate) fn fresh_id() -> (id: String)
    ensures
        is_uuid_text(id@),
{
    uuid::Uuid::new_v4().to_string()
}

/// Directory that every download is written to.
pub open spec fn output_dir() -> Seq<char> {
    "/tmp"@
}

/// Name template handed to the downloader for a job: the job's id and a
/// placeholder that the downloader replaces by the file's extension.
pub open spec fn output_template_of(job_id: Seq<char>) -> Seq<char> {
    job_id + ".%(ext)s"@
}

/// Path of the file that a job is expected to produce.
pub open spec fn output_path_of(job_id: Seq<char>) -> Seq<char> {
    output_dir() + "/"@ + job_id + ".mp4"@
}

/// Jobs with different identifiers write to different files: the path
/// determines the identifier.
pub proof fn distinct_ids_give_distinct_files(first: Seq<char>, second: Seq<char>)
    requires
        output_path_of(first) == output_path_of(second),
    ensures
        first == second,
{
    let prefix = output_dir() + "/"@;
    let suffix = ".mp4"@;
    let a = output_path_of(first);
    let b = output_path_of(second);
    assert(a =~= prefix + first + suffix);
    assert(b =~= prefix + second + suffix);
    assert(a.len() == prefix.len() + first.len() + suffix.len());
    assert(b.len() == prefix.len() + second.len() + suffix.len());
    assert(first.len() == second.len());
    assert forall|i: int| 0 <= i < first.len() implies first[i] == second[i] by {
        assert(a[prefix.len() + i] == first[i]);
        assert(b[prefix.len() + i] == second[i]);
    }
    assert(first =~= second);
}

/// Correlation identifier of one inbound request.
#[derive(Debug, PartialEq, Eq)]
pub struct OperationContext {
    pub operation_id: String,
}

impl OperationContext {
    /// A context with the given identifier.
    pub fn new(operation_id: String) -> (ctx: OperationContext)
        ensures
            ctx.operation_id@ == operation_id@,
    {
        OperationContext { operation_id }
    }

    /// A context with a freshly drawn random identifier.
    pub fn fresh() -> (ctx: OperationContext)
        ensures
            is_uuid_text(ctx.operation_id@),
    {
        OperationContext::new(fresh_id())
    }
}

/// One download: its identifier, the link to fetch and the file it is
/// expected to leave behind. The path is always the one derived from the
/// identifier.
#[derive(Debug, PartialEq, Eq)]
pub struct DownloadJob {
    job_id: String,
    source_url: String,
    output_path: String,
}

/// Mathematical content of a [`DownloadJob`].
pub struct JobView {
    pub job_id: Seq<char>,
    pub source_url: Seq<char>,
    pub output_path: Seq<char>,
}

impl JobView {
    /// The job with the given identifier and link.
    pub open spec fn new(job_id: Seq<char>, source_url: Seq<char>) -> JobView {
        JobView { job_id, source_url, output_path: output_path_of(job_id) }
    }

    /// Whether the job's path is the one derived from its identifier.
    pub open spec fn wf(self) -> bool {
        self.output_path == output_path_of(self.job_id)
    }
}

impl View for DownloadJob {
    type V = JobView;

    closed spec fn view(&self) -> JobView {
        JobView {
            job_id: self.job_id@,
            source_url: self.source_url@,
            output_path: self.output_path@,
        }
    }
}

impl DownloadJob {
    #[verifier::type_invariant]
    spec fn path_is_derived(self) -> bool {
        self.output_path@ == output_path_of(self.job_id@)
    }

    /// Creates the job for `source_url` under the identifier `job_id`.
    pub fn new(job_id: String, source_url: String) -> (job: DownloadJob)
        ensures
            job@ == JobView::new(job_id@, source_url@),
    {
        let output_path = String::from_str("/tmp").concat("/").concat(job_id.as_str()).concat(
            ".mp4",
        );
        DownloadJob { job_id, source_url, output_path }
    }

    /// The job's identifier.
    pub fn job_id(&self) -> (id: &String)
        ensures
            id@ == self@.job_id,
    {
        &self.job_id
    }

    /// The link to fetch.
    pub fn source_url(&self) -> (url: &String)
        ensures
            url@ == self@.source_url,
    {
        &self.source_url
    }

    /// The file that the download is expected to produce.
    pub fn output_path(&self) -> (path: &String)
        ensures
            path@ == self@.output_path,
            self@.wf(),
    {
        proof {
            use_type_invariant(self);
        }
        &self.output_path
    }

    /// The directory that the downloader writes to.
    pub fn output_dir(&self) -> (dir: String)
        ensures
            dir@ == output_dir(),
    {
        String::from_str("/tmp")
    }

    /// The name template to hand to the downloader.
    pub fn output_template(&self) -> (template: String)
        ensures
            template@ == output_template_of(self@.job_id),
    {
        self.job_id.clone().concat(".%(ext)s")
    }
}

} // verus!
