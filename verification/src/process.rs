//! External-process invocation: builds the argument list for the download
//! script from validated inputs. Mutually-required argument groups are
//! checked before any process could be spawned: enabling audio features
//! without a complete client-credential pair is rejected. The exit status
//! of the finished process is interpreted into a success or failure
//! outcome.

use vstd::prelude::*;

verus! {

/// An error building or running an external invocation.
#[derive(Clone, Debug, PartialEq)]
pub enum InvokeError {
    /// An argument group was incomplete; nothing was spawned.
    InvalidInvocation,
    /// The download script is absent from the expected location.
    ScriptNotFound,
}

/// A fully-built external invocation: the interpreter and its ordered
/// argument list. Consumed once; never retained after the process exits.
#[derive(Clone, Debug, PartialEq)]
pub struct ProcessSpec {
    pub program: String,
    pub args: Vec<String>,
}

/// The request to invoke the download script.
#[derive(Clone, Debug, PartialEq)]
pub struct DownloadRequest {
    pub url: String,
    pub output: String,
    /// The confidence threshold, already rendered as the script expects it.
    pub confidence: String,
    pub enable_auto_tag: bool,
    pub auto_tag_config: Option<String>,
    pub enable_audio_features: bool,
    pub client_id: Option<String>,
    pub client_secret: Option<String>,
}

/// Whether the request's mutually-required argument groups are complete:
/// audio features demand a full client-credential pair.
pub open spec fn spec_groups_complete(rq: DownloadRequest) -> bool {
    rq.enable_audio_features ==> rq.client_id is Some && rq.client_secret is Some
}

/// The argument list the download script is invoked with.
pub open spec fn spec_download_args(script: Seq<char>, rq: DownloadRequest) -> Seq<Seq<char>> {
    seq![script, "--url"@, rq.url@, "--output"@, rq.output@, "--confidence"@, rq.confidence@]
        + (if rq.enable_auto_tag {
        seq!["--enable-auto-tag"@] + (match rq.auto_tag_config {
            Some(c) => seq!["--auto-tag-config"@, c@],
            None => Seq::<Seq<char>>::empty(),
        })
    } else {
        Seq::<Seq<char>>::empty()
    }) + (if rq.enable_audio_features {
        seq![
            "--enable-audio-features"@,
            "--client-id"@,
            rq.client_id->0@,
            "--client-secret"@,
            rq.client_secret->0@,
        ]
    } else {
        Seq::<Seq<char>>::empty()
    })
}

/// Builds the external invocation for the download script. Fails with
/// `ScriptNotFound` when the script is absent, and with
/// `InvalidInvocation` when a mutually-required argument group is
/// incomplete — in both cases before any process is spawned.
pub fn build_download_spec(script_exists: bool, script: &String, rq: &DownloadRequest) -> (r:
    Result<ProcessSpec, InvokeError>)
    ensures
        !script_exists ==> r == Result::<ProcessSpec, InvokeError>::Err(
            InvokeError::ScriptNotFound,
        ),
        script_exists && !spec_groups_complete(*rq) ==> r == Result::<
            ProcessSpec,
            InvokeError,
        >::Err(InvokeError::InvalidInvocation),
        script_exists && spec_groups_complete(*rq) ==> r is Ok && r->Ok_0.program@ == "python"@
            && r->Ok_0.args.deep_view() == spec_download_args(script@, *rq),
{
    if !script_exists {
        return Err(InvokeError::ScriptNotFound);
    }
    if rq.enable_audio_features && (rq.client_id.is_none() || rq.client_secret.is_none()) {
        return Err(InvokeError::InvalidInvocation);
    }
    let mut args: Vec<String> = Vec::new();
    args.push(script.clone());
    args.push("--url".to_owned());
    args.push(rq.url.clone());
    args.push("--output".to_owned());
    args.push(rq.output.clone());
    args.push("--confidence".to_owned());
    args.push(rq.confidence.clone());
    if rq.enable_auto_tag {
        args.push("--enable-auto-tag".to_owned());
        match &rq.auto_tag_config {
            Some(c) => {
                args.push("--auto-tag-config".to_owned());
                args.push(c.clone());
            },
            None => {},
        }
    }
    if rq.enable_audio_features {
        args.push("--enable-audio-features".to_owned());
        args.push("--client-id".to_owned());
        match &rq.client_id {
            Some(id) => args.push(id.clone()),
            None => {},
        }
        args.push("--client-secret".to_owned());
        match &rq.client_secret {
            Some(sec) => args.push(sec.clone()),
            None => {},
        }
    }
    proof {
        assert(args.deep_view() =~= spec_download_args(script@, *rq));
    }
    Ok(ProcessSpec { program: "python".to_owned(), args })
}

/// The interpreted outcome of the finished external process.
#[derive(Clone, Debug, PartialEq)]
pub enum ProcessOutcome {
    /// Zero exit status: the captured standard output, verbatim.
    Success(String),
    /// Non-zero exit status: the captured standard error.
    Failure(String),
}

/// Interprets the exit of the external process: a zero exit status returns
/// the captured standard output verbatim; a non-zero one surfaces the
/// captured standard error.
pub fn interpret_exit(success: bool, stdout: String, stderr: String) -> (r: ProcessOutcome)
    ensures
        success ==> r == ProcessOutcome::Success(stdout),
        !success ==> r == ProcessOutcome::Failure(stderr),
{
    if success {
        ProcessOutcome::Success(stdout)
    } else {
        ProcessOutcome::Failure(stderr)
    }
}

} // verus!
