//! Operations that take several requests.
//!
//! A [`Job`] says which request comes next once the reply to the last one is in. Each
//! reply either leads to the next request or ends the job; a failed request always
//! ends it, with the failure as it came.
use vstd::prelude::*;

use crate::ops::{SessionCall, SessionOp};
use crate::rejection::Rejection;

verus! {

/// What a job waits for.
#[derive(Debug, PartialEq, Eq)]
pub enum Phase<K, W> {
    /// Flashing: the image is being uploaded.
    FlashUpload { format: W, options: W, rtt_client: Option<K> },
    /// Flashing: the flash loader is being built.
    FlashBuild { options: W },
    /// Flashing: the image is being programmed.
    FlashProgram { boot_info: W },
    /// Verifying: the image is being uploaded.
    VerifyUpload { format: W },
    /// Verifying: the flash loader is being built.
    VerifyBuild,
    /// Verifying: the image is being compared.
    VerifyCompare,
    /// Debug information: the ELF is being uploaded.
    DebugInfoUpload,
    /// Debug information: it is being loaded.
    DebugInfoLoad,
    /// SVD: the former one is being cleared.
    SvdClear { core: u32, svd: Vec<u8>, name: String },
    /// SVD: the new one is being uploaded.
    SvdUpload { core: u32 },
    /// SVD: it is being loaded.
    SvdLoad,
}

/// An operation under way in a session.
#[derive(Debug, PartialEq, Eq)]
pub struct Job<K, W> {
    pub session: K,
    pub phase: Phase<K, W>,
}

/// The reply to the request that a job made last.
#[derive(Debug, PartialEq, Eq)]
pub enum Reply<W> {
    Uploaded { upload: W },
    LoaderBuilt { loader: W, boot_info: W },
    Compared { result: W },
    Done,
    Failed { error: Rejection },
}

/// How an operation goes on.
#[derive(Debug, PartialEq, Eq)]
pub enum Step<K, W> {
    /// Make `call`; its reply goes to `job`.
    Send { job: Job<K, W>, call: SessionCall<K, W> },
    /// The operation succeeded, with the value it resolves to, if any.
    Resolve { value: Option<W> },
    /// The operation failed.
    Reject { error: Rejection },
}

/// The request for the flash loader of an uploaded image: for the session's own target,
/// without reading the RTT output of the flash algorithm.
pub open spec fn build_loader<K, W>(
    upload: W,
    format: W,
    rtt_client: Option<K>,
) -> SessionOp<K, W> {
    SessionOp::BuildFlashLoader {
        upload,
        format,
        image_target: None,
        read_flasher_rtt: false,
        rtt_client,
    }
}

impl<K: Copy, W> Job<K, W> {
    /// `reply` is one that the request under way can have.
    pub open spec fn expects(self, reply: Reply<W>) -> bool {
        match reply {
            Reply::Failed { .. } => true,
            Reply::Uploaded { .. } => {
                ||| self.phase is FlashUpload
                ||| self.phase is VerifyUpload
                ||| self.phase is DebugInfoUpload
                ||| self.phase is SvdUpload
            },
            Reply::LoaderBuilt { .. } => self.phase is FlashBuild || self.phase is VerifyBuild,
            Reply::Compared { .. } => self.phase is VerifyCompare,
            Reply::Done => {
                ||| self.phase is FlashProgram
                ||| self.phase is DebugInfoLoad
                ||| self.phase is SvdClear
                ||| self.phase is SvdLoad
            },
        }
    }

    /// The step that makes the request `op` and then waits in `phase`.
    pub open spec fn sends(self, op: SessionOp<K, W>, phase: Phase<K, W>) -> Step<K, W> {
        Step::Send {
            job: Job { session: self.session, phase },
            call: SessionCall { session: self.session, op },
        }
    }

    /// What follows on `reply`, where the job expects it.
    pub open spec fn next(self, reply: Reply<W>) -> Step<K, W> {
        match (self.phase, reply) {
            (_, Reply::Failed { error }) => Step::Reject { error },
            (Phase::FlashUpload { format, options, rtt_client }, Reply::Uploaded { upload }) =>
                self.sends(
                build_loader(upload, format, rtt_client),
                Phase::FlashBuild { options },
            ),
            (Phase::FlashBuild { options }, Reply::LoaderBuilt { loader, boot_info }) => self.sends(
                SessionOp::Flash { options, loader },
                Phase::FlashProgram { boot_info },
            ),
            (Phase::FlashProgram { boot_info }, Reply::Done) => Step::Resolve {
                value: Some(boot_info),
            },
            (Phase::VerifyUpload { format }, Reply::Uploaded { upload }) => self.sends(
                build_loader(upload, format, None),
                Phase::VerifyBuild,
            ),
            (Phase::VerifyBuild, Reply::LoaderBuilt { loader, .. }) => self.sends(
                SessionOp::Verify { loader },
                Phase::VerifyCompare,
            ),
            (Phase::VerifyCompare, Reply::Compared { result }) => Step::Resolve {
                value: Some(result),
            },
            (Phase::DebugInfoUpload, Reply::Uploaded { upload }) => self.sends(
                SessionOp::LoadDebugInfo { upload },
                Phase::DebugInfoLoad,
            ),
            (Phase::SvdClear { core, svd, name }, Reply::Done) => self.sends(
                SessionOp::Upload { name, bytes: svd },
                Phase::SvdUpload { core },
            ),
            (Phase::SvdUpload { core }, Reply::Uploaded { upload }) => self.sends(
                SessionOp::LoadSvd { core, upload },
                Phase::SvdLoad,
            ),
            (Phase::DebugInfoLoad, Reply::Done) | (Phase::SvdLoad, Reply::Done) => Step::Resolve {
                value: None,
            },
            _ => arbitrary(),
        }
    }

    /// Whether `reply` is one that the request under way can have.
    pub fn accepts(&self, reply: &Reply<W>) -> (accepted: bool)
        ensures
            accepted == self.expects(*reply),
    {
        match (&self.phase, reply) {
            (_, Reply::Failed { .. }) => true,
            (Phase::FlashUpload { .. }, Reply::Uploaded { .. }) => true,
            (Phase::FlashBuild { .. }, Reply::LoaderBuilt { .. }) => true,
            (Phase::FlashProgram { .. }, Reply::Done) => true,
            (Phase::VerifyUpload { .. }, Reply::Uploaded { .. }) => true,
            (Phase::VerifyBuild, Reply::LoaderBuilt { .. }) => true,
            (Phase::VerifyCompare, Reply::Compared { .. }) => true,
            (Phase::DebugInfoUpload, Reply::Uploaded { .. }) => true,
            (Phase::DebugInfoLoad, Reply::Done) => true,
            (Phase::SvdClear { .. }, Reply::Done) => true,
            (Phase::SvdUpload { .. }, Reply::Uploaded { .. }) => true,
            (Phase::SvdLoad, Reply::Done) => true,
            _ => false,
        }
    }

    fn send(session: K, op: SessionOp<K, W>, phase: Phase<K, W>) -> (step: Step<K, W>)
        ensures
            step == (Step::Send {
                job: Job { session, phase },
                call: SessionCall { session, op },
            }),
    {
        Step::Send { job: Job { session, phase }, call: SessionCall { session, op } }
    }

    /// Go on with `reply`.
    pub fn advance(self, reply: Reply<W>) -> (step: Step<K, W>)
        requires
            self.expects(reply),
        ensures
            step == self.next(reply),
    {
        let session: K = self.session;
        match (self.phase, reply) {
            (_, Reply::Failed { error }) => Step::Reject { error },
            (Phase::FlashUpload { format, options, rtt_client }, Reply::Uploaded { upload }) =>
                Self::send(
                session,
                SessionOp::BuildFlashLoader {
                    upload,
                    format,
                    image_target: None,
                    read_flasher_rtt: false,
                    rtt_client,
                },
                Phase::FlashBuild { options },
            ),
            (Phase::FlashBuild { options }, Reply::LoaderBuilt { loader, boot_info }) =>
                Self::send(
                session,
                SessionOp::Flash { options, loader },
                Phase::FlashProgram { boot_info },
            ),
            (Phase::FlashProgram { boot_info }, Reply::Done) => Step::Resolve {
                value: Some(boot_info),
            },
            (Phase::VerifyUpload { format }, Reply::Uploaded { upload }) => Self::send(
                session,
                SessionOp::BuildFlashLoader {
                    upload,
                    format,
                    image_target: None,
                    read_flasher_rtt: false,
                    rtt_client: None,
                },
                Phase::VerifyBuild,
            ),
            (Phase::VerifyBuild, Reply::LoaderBuilt { loader, .. }) => Self::send(
                session,
                SessionOp::Verify { loader },
                Phase::VerifyCompare,
            ),
            (Phase::VerifyCompare, Reply::Compared { result }) => Step::Resolve {
                value: Some(result),
            },
            (Phase::DebugInfoUpload, Reply::Uploaded { upload }) => Self::send(
                session,
                SessionOp::LoadDebugInfo { upload },
                Phase::DebugInfoLoad,
            ),
            (Phase::SvdClear { core, svd, name }, Reply::Done) => Self::send(
                session,
                SessionOp::Upload { name, bytes: svd },
                Phase::SvdUpload { core },
            ),
            (Phase::SvdUpload { core }, Reply::Uploaded { upload }) => Self::send(
                session,
                SessionOp::LoadSvd { core, upload },
                Phase::SvdLoad,
            ),
            _ => Step::Resolve { value: None },
        }
    }
}

/// A whole operation, as far as `replies` take it: the requests that follow its first one,
/// and how it ended, if it did.
pub struct Run<K, W> {
    pub calls: Seq<SessionCall<K, W>>,
    pub outcome: Option<Result<Option<W>, Rejection>>,
}

impl<K: Copy, W> Job<K, W> {
    /// The operation from here on, answered by `replies` in turn.
    pub open spec fn run(self, replies: Seq<Reply<W>>) -> Run<K, W>
        decreases replies.len(),
    {
        if replies.len() == 0 {
            Run { calls: Seq::empty(), outcome: None }
        } else {
            match self.next(replies[0]) {
                Step::Send { job, call } => {
                    let rest = job.run(replies.drop_first());
                    Run { calls: seq![call] + rest.calls, outcome: rest.outcome }
                },
                Step::Resolve { value } => Run { calls: Seq::empty(), outcome: Some(Ok(value)) },
                Step::Reject { error } => Run { calls: Seq::empty(), outcome: Some(Err(error)) },
            }
        }
    }

    /// Each of `replies` is one that the request before it can have.
    pub open spec fn expects_all(self, replies: Seq<Reply<W>>) -> bool
        decreases replies.len(),
    {
        replies.len() > 0 ==> {
            &&& self.expects(replies[0])
            &&& match self.next(replies[0]) {
                Step::Send { job, .. } => job.expects_all(replies.drop_first()),
                _ => true,
            }
        }
    }

    /// How many replies the operation still takes, if none of them is a failure.
    pub open spec fn replies_left(self) -> nat {
        match self.phase {
            Phase::FlashUpload { .. } | Phase::VerifyUpload { .. } | Phase::SvdClear { .. } => 3,
            Phase::FlashBuild { .. } | Phase::VerifyBuild | Phase::SvdUpload { .. }
            | Phase::DebugInfoUpload => 2,
            Phase::FlashProgram { .. } | Phase::VerifyCompare | Phase::SvdLoad
            | Phase::DebugInfoLoad => 1,
        }
    }
}

/// A failed request ends any operation: it is answered with the failure as it came, and
/// no further request is made.
pub proof fn law_failure_ends_the_job<K: Copy, W>(job: Job<K, W>, error: Rejection)
    ensures
        job.expects(Reply::Failed { error }),
        job.next(Reply::Failed { error }) == (Step::<K, W>::Reject { error }),
{
}

/// Every operation ends, after as many replies as it has requests at the latest.
pub proof fn law_every_job_ends<K: Copy, W>(job: Job<K, W>, replies: Seq<Reply<W>>)
    requires
        job.expects_all(replies),
        replies.len() >= job.replies_left(),
    ensures
        job.run(replies).outcome is Some,
        job.run(replies).calls.len() < job.replies_left(),
    decreases replies.len(),
{
    match job.next(replies[0]) {
        Step::Send { job, .. } => law_every_job_ends(job, replies.drop_first()),
        _ => {},
    }
}

/// All requests of an operation go to the session that it was started in.
pub proof fn law_job_stays_in_its_session<K: Copy, W>(job: Job<K, W>, replies: Seq<Reply<W>>)
    requires
        job.expects_all(replies),
    ensures
        forall|i: int|
            0 <= i < job.run(replies).calls.len() ==> (#[trigger] job.run(
                replies,
            ).calls[i]).session == job.session,
    decreases replies.len(),
{
    if replies.len() > 0 {
        match job.next(replies[0]) {
            Step::Send { job: next, call } => {
                law_job_stays_in_its_session(next, replies.drop_first());
                let rest = next.run(replies.drop_first()).calls;
                assert forall|i: int| 0 <= i < job.run(replies).calls.len() implies (
                #[trigger] job.run(replies).calls[i]).session == job.session by {
                    if i > 0 {
                        assert(job.run(replies).calls[i] == rest[i - 1]);
                    }
                }
            },
            _ => {},
        }
    }
}

/// Flashing: the uploaded image goes into a flash loader, with the RTT client that
/// existed at the start; that loader is programmed with the options given; and the
/// operation resolves with the boot information of that loader. A failure at any of the
/// three requests is the outcome, and leaves out what would have followed.
pub proof fn law_flash<K: Copy, W>(
    session: K,
    format: W,
    options: W,
    rtt_client: Option<K>,
    upload: W,
    loader: W,
    boot_info: W,
    error: Rejection,
)
    ensures
        ({
            let job = Job { session, phase: Phase::FlashUpload { format, options, rtt_client } };
            let build = SessionCall {
                session,
                op: SessionOp::BuildFlashLoader {
                    upload,
                    format,
                    image_target: None,
                    read_flasher_rtt: false,
                    rtt_client,
                },
            };
            let program = SessionCall { session, op: SessionOp::Flash { options, loader } };
            let uploaded = Reply::Uploaded { upload };
            let built = Reply::LoaderBuilt { loader, boot_info };
            let failed = Reply::Failed { error };
            &&& job.run(seq![uploaded, built, Reply::Done]) == (Run {
                calls: seq![build, program],
                outcome: Some(Ok(Some(boot_info))),
            })
            &&& job.run(seq![failed]) == (Run::<K, W> {
                calls: seq![],
                outcome: Some(Err(error)),
            })
            &&& job.run(seq![uploaded, failed]) == (Run {
                calls: seq![build],
                outcome: Some(Err(error)),
            })
            &&& job.run(seq![uploaded, built, failed]) == (Run {
                calls: seq![build, program],
                outcome: Some(Err(error)),
            })
        }),
{
    let uploaded = Reply::Uploaded { upload };
    let built = Reply::LoaderBuilt { loader, boot_info };
    let failed = Reply::<W>::Failed { error };
    reveal_with_fuel(Job::run, 4);
    let build = SessionCall { session, op: build_loader(upload, format, rtt_client) };
    lemma_join_calls(build, SessionCall { session, op: SessionOp::Flash { options, loader } });
    lemma_drop_first(uploaded, built, Reply::Done);
    lemma_drop_first(uploaded, built, failed);
    assert(seq![uploaded, failed].drop_first() =~= seq![failed]);
}

/// Verifying: the uploaded image goes into a flash loader, without an RTT client; that
/// loader is compared with flash; and the operation resolves with the result. A failure
/// at any of the three requests is the outcome, and leaves out what would have followed.
pub proof fn law_verify<K: Copy, W>(
    session: K,
    format: W,
    upload: W,
    loader: W,
    boot_info: W,
    result: W,
    error: Rejection,
)
    ensures
        ({
            let job = Job { session, phase: Phase::<K, W>::VerifyUpload { format } };
            let build = SessionCall {
                session,
                op: SessionOp::<K, W>::BuildFlashLoader {
                    upload,
                    format,
                    image_target: None,
                    read_flasher_rtt: false,
                    rtt_client: None,
                },
            };
            let compare = SessionCall { session, op: SessionOp::<K, W>::Verify { loader } };
            let uploaded = Reply::Uploaded { upload };
            let built = Reply::LoaderBuilt { loader, boot_info };
            let failed = Reply::Failed { error };
            &&& job.run(seq![uploaded, built, Reply::Compared { result }]) == (Run {
                calls: seq![build, compare],
                outcome: Some(Ok(Some(result))),
            })
            &&& job.run(seq![failed]) == (Run::<K, W> {
                calls: seq![],
                outcome: Some(Err(error)),
            })
            &&& job.run(seq![uploaded, failed]) == (Run {
                calls: seq![build],
                outcome: Some(Err(error)),
            })
            &&& job.run(seq![uploaded, built, failed]) == (Run {
                calls: seq![build, compare],
                outcome: Some(Err(error)),
            })
        }),
{
    let uploaded = Reply::Uploaded { upload };
    let built = Reply::LoaderBuilt { loader, boot_info };
    let failed = Reply::<W>::Failed { error };
    reveal_with_fuel(Job::run, 4);
    let build = SessionCall { session, op: build_loader::<K, W>(upload, format, None) };
    lemma_join_calls(build, SessionCall { session, op: SessionOp::<K, W>::Verify { loader } });
    lemma_drop_first(uploaded, built, Reply::Compared { result });
    lemma_drop_first(uploaded, built, failed);
    assert(seq![uploaded, failed].drop_first() =~= seq![failed]);
}

/// `op` changes what is in flash.
pub open spec fn writes_flash<K, W>(op: SessionOp<K, W>) -> bool {
    op is Flash || op is EraseAll
}

/// Verifying never writes to flash, whatever is replied.
pub proof fn law_verify_never_writes<K: Copy, W>(job: Job<K, W>, replies: Seq<Reply<W>>)
    requires
        job.phase is VerifyUpload || job.phase is VerifyBuild || job.phase is VerifyCompare,
        job.expects_all(replies),
    ensures
        forall|i: int|
            0 <= i < job.run(replies).calls.len() ==> !writes_flash(
                (#[trigger] job.run(replies).calls[i]).op,
            ),
    decreases replies.len(),
{
    if replies.len() > 0 {
        match job.next(replies[0]) {
            Step::Send { job: next, call } => {
                law_verify_never_writes(next, replies.drop_first());
                let rest = next.run(replies.drop_first()).calls;
                assert forall|i: int| 0 <= i < job.run(replies).calls.len() implies !writes_flash(
                    (#[trigger] job.run(replies).calls[i]).op,
                ) by {
                    if i > 0 {
                        assert(job.run(replies).calls[i] == rest[i - 1]);
                    }
                }
            },
            _ => {},
        }
    }
}

/// Flashing and verifying report the progress of one request, the one that follows on the
/// flash loader: not of the upload that they start with, nor of building the loader. Where
/// the operation succeeds, that request was made.
pub proof fn law_one_request_reports_progress<K: Copy, W>(
    job: Job<K, W>,
    replies: Seq<Reply<W>>,
    name: String,
    bytes: Vec<u8>,
)
    requires
        job.phase is FlashUpload || job.phase is VerifyUpload,
        job.expects_all(replies),
    ensures
        !(SessionOp::<K, W>::Upload { name, bytes }).streams_progress(),
        ({
            let run = job.run(replies);
            &&& run.calls.len() <= 2
            &&& forall|i: int|
                0 <= i < run.calls.len() ==> ((#[trigger] run.calls[i]).op.streams_progress()
                    <==> i == 1)
            &&& run.outcome matches Some(Ok(_)) ==> run.calls.len() == 2
        }),
{
    reveal_with_fuel(Job::run, 4);
    reveal_with_fuel(Job::expects_all, 4);
}

/// Loading debug information or an SVD reports no progress.
pub proof fn law_loading_reports_no_progress<K: Copy, W>(job: Job<K, W>, replies: Seq<Reply<W>>)
    requires
        job.phase is DebugInfoUpload || job.phase is SvdClear,
        job.expects_all(replies),
    ensures
        forall|i: int|
            0 <= i < job.run(replies).calls.len() ==> !(#[trigger] job.run(
                replies,
            ).calls[i]).op.streams_progress(),
{
    reveal_with_fuel(Job::run, 4);
    reveal_with_fuel(Job::expects_all, 4);
}

/// Loading debug information: the uploaded ELF is what is loaded. A failure at either
/// request is the outcome; where the upload fails, nothing is loaded.
pub proof fn law_load_debug_info<K: Copy, W>(session: K, upload: W, error: Rejection)
    ensures
        ({
            let job = Job { session, phase: Phase::<K, W>::DebugInfoUpload };
            let load = SessionCall { session, op: SessionOp::<K, W>::LoadDebugInfo { upload } };
            let uploaded = Reply::Uploaded { upload };
            let failed = Reply::Failed { error };
            &&& job.run(seq![uploaded, Reply::Done]) == (Run {
                calls: seq![load],
                outcome: Some(Ok(None)),
            })
            &&& job.run(seq![failed]) == (Run::<K, W> {
                calls: seq![],
                outcome: Some(Err(error)),
            })
            &&& job.run(seq![uploaded, failed]) == (Run {
                calls: seq![load],
                outcome: Some(Err(error)),
            })
        }),
{
    let uploaded = Reply::Uploaded { upload };
    let failed = Reply::<W>::Failed { error };
    reveal_with_fuel(Job::run, 3);
    assert(seq![uploaded, Reply::Done].drop_first() =~= seq![Reply::<W>::Done]);
    assert(seq![uploaded, failed].drop_first() =~= seq![failed]);
}

/// Replacing an SVD: only once the former one is cleared is the new one uploaded, and the
/// upload is what is loaded, for the same core. A failure at any of the three requests is
/// the outcome: past the first, it leaves the core with its SVD cleared.
pub proof fn law_load_svd<K: Copy, W>(
    session: K,
    core: u32,
    svd: Vec<u8>,
    name: String,
    upload: W,
    error: Rejection,
)
    ensures
        ({
            let job = Job { session, phase: Phase::<K, W>::SvdClear { core, svd, name } };
            let put = SessionCall { session, op: SessionOp::<K, W>::Upload { name, bytes: svd } };
            let load = SessionCall { session, op: SessionOp::<K, W>::LoadSvd { core, upload } };
            let uploaded = Reply::Uploaded { upload };
            let failed = Reply::Failed { error };
            &&& job.run(seq![Reply::Done, uploaded, Reply::Done]) == (Run {
                calls: seq![put, load],
                outcome: Some(Ok(None)),
            })
            &&& job.run(seq![failed]) == (Run::<K, W> {
                calls: seq![],
                outcome: Some(Err(error)),
            })
            &&& job.run(seq![Reply::Done, failed]) == (Run {
                calls: seq![put],
                outcome: Some(Err(error)),
            })
            &&& job.run(seq![Reply::Done, uploaded, failed]) == (Run {
                calls: seq![put, load],
                outcome: Some(Err(error)),
            })
        }),
{
    let uploaded = Reply::Uploaded { upload };
    let failed = Reply::<W>::Failed { error };
    reveal_with_fuel(Job::run, 4);
    lemma_join_calls(
        SessionCall { session, op: SessionOp::<K, W>::Upload { name, bytes: svd } },
        SessionCall { session, op: SessionOp::LoadSvd { core, upload } },
    );
    lemma_drop_first(Reply::Done, uploaded, Reply::Done);
    lemma_drop_first(Reply::Done, uploaded, failed);
    assert(seq![Reply::Done, failed].drop_first() =~= seq![failed]);
}

proof fn lemma_join_calls<K, W>(a: SessionCall<K, W>, b: SessionCall<K, W>)
    ensures
        seq![a] + Seq::<SessionCall<K, W>>::empty() == seq![a],
        seq![a] + (seq![b] + Seq::<SessionCall<K, W>>::empty()) == seq![a, b],
{
    assert(seq![a] + Seq::<SessionCall<K, W>>::empty() =~= seq![a]);
    assert(seq![a] + (seq![b] + Seq::<SessionCall<K, W>>::empty()) =~= seq![a, b]);
}

proof fn lemma_drop_first<W>(a: Reply<W>, b: Reply<W>, c: Reply<W>)
    ensures
        seq![a, b, c].drop_first() == seq![b, c],
        seq![b, c].drop_first() == seq![c],
{
    assert(seq![a, b, c].drop_first() =~= seq![b, c]);
    assert(seq![b, c].drop_first() =~= seq![c]);
}

} // verus!
