//! The pipeline executor: validation, stage-by-stage spawn decisions, and the
//! classification of every outcome the operating system can report.
//!
//! The executor does not touch the operating system itself. It hands out one
//! [`Action`] at a time — abort with an error, start one more intermediate
//! stage, or run the final stage — and the caller reports back how the
//! operating system answered. Every decision, and the classification of every
//! answer, is specified exactly.

use vstd::prelude::*;

use crate::error::{Error, ErrorKind};

verus! {

/// How the run of the final stage looked to the operating system.
pub enum RunOutcome {
    /// The process could not be started at all. `raw_os_error` carries the raw
    /// OS error number when one was available.
    NotStarted { raw_os_error: Option<i32>, message: String },
    /// The process ran to completion. `exit_code` is `None` when the process
    /// was terminated by a signal, and `stdout` holds its captured output.
    Completed { exit_code: Option<i32>, stdout: Vec<u8> },
}

/// The next thing a pipeline run needs from its caller.
pub enum Action {
    /// The run is over before any more work: report this error.
    Abort(Error),
    /// Start stage `i` asynchronously, its standard input connected to the
    /// previously started stage's output and its standard output piped, then
    /// report whether the start succeeded.
    SpawnStage(usize),
    /// Run the final stage `i` to completion, capturing its output, then hand
    /// the outcome to [`classify_run`].
    RunFinal(usize),
}

/// A decision of the executor, at the specification level.
pub enum Decision {
    /// The pipeline has no stages at all.
    RejectEmptyPipeline,
    /// The stage about to be prepared has no tokens, not even a binary.
    RejectEmptyStage,
    /// Stage `i` must be started next.
    Spawn(int),
    /// All stages before the final one are running; run final stage `i`.
    Run(int),
}

/// Whether stage `j` of the pipeline has at least one token (its binary).
pub open spec fn stage_nonempty(cmds: Seq<Vec<String>>, j: int) -> bool {
    cmds[j]@.len() > 0
}

/// The decision that follows once `k` intermediate stages have been started.
///
/// It mirrors the interleaving of validation and spawning: a stage is only
/// started once the stage after it has also passed validation, so a malformed
/// stage is reported before the stage preceding it is ever spawned.
pub open spec fn decide(cmds: Seq<Vec<String>>, k: int) -> Decision {
    if cmds.len() == 0 {
        Decision::RejectEmptyPipeline
    } else if !stage_nonempty(cmds, 0) {
        Decision::RejectEmptyStage
    } else if k + 1 < cmds.len() && !stage_nonempty(cmds, k + 1) {
        Decision::RejectEmptyStage
    } else if k + 1 < cmds.len() {
        Decision::Spawn(k)
    } else {
        Decision::Run(cmds.len() - 1)
    }
}

/// Whether `a` is the action that carries out decision `d`, including the
/// exact kind, code and diagnostic of a rejection.
pub open spec fn action_for(a: Action, d: Decision) -> bool {
    match d {
        Decision::RejectEmptyPipeline => {
            &&& a matches Action::Abort(e)
            &&& e.spec_kind() == ErrorKind::InvalidFormatError
            &&& e.spec_code() == Some(-1i32)
            &&& e.spec_details() == "no commands supplied"@
        },
        Decision::RejectEmptyStage => {
            &&& a matches Action::Abort(e)
            &&& e.spec_kind() == ErrorKind::InvalidFormatError
            &&& e.spec_code() == Some(-1i32)
            &&& e.spec_details() == "no command binary supplied"@
        },
        Decision::Spawn(i) => a matches Action::SpawnStage(u) && u == i,
        Decision::Run(i) => a matches Action::RunFinal(u) && u == i,
    }
}

/// Drives one pipeline run: holds the stages and how many of the intermediate
/// ones have been started so far.
pub struct Executor {
    commands: Vec<Vec<String>>,
    started: usize,
}

impl Executor {
    /// The pipeline this run executes: each stage a sequence of tokens, the
    /// first token the binary and the rest its arguments.
    pub closed spec fn cmds(&self) -> Seq<Vec<String>> {
        self.commands@
    }

    /// How many intermediate stages have been started so far.
    pub closed spec fn started_count(&self) -> int {
        self.started as int
    }

    /// Well-formedness of a run in progress: no more stages were started than
    /// exist before the final one, and every stage up to and including the
    /// last validated one has at least one token.
    pub open spec fn wf(&self) -> bool {
        &&& self.cmds().len() == 0 ==> self.started_count() == 0
        &&& self.cmds().len() > 0 ==> self.started_count() < self.cmds().len()
        &&& self.started_count() > 0 ==> forall|j: int|
            0 <= j <= self.started_count() ==> stage_nonempty(self.cmds(), j)
    }

    /// Begin a run of the given pipeline. Nothing is validated or started yet.
    pub fn new(commands: Vec<Vec<String>>) -> (ex: Executor)
        ensures
            ex.cmds() == commands@,
            ex.started_count() == 0,
            ex.wf(),
    {
        Executor { commands, started: 0 }
    }

    /// The number of stages of the pipeline.
    pub fn stage_count(&self) -> (n: usize)
        ensures
            n == self.cmds().len(),
    {
        self.commands.len()
    }

    /// The tokens of stage `i`: the binary followed by its arguments.
    pub fn stage_argv(&self, i: usize) -> (argv: &Vec<String>)
        requires
            i < self.cmds().len(),
        ensures
            argv@ == self.cmds()[i as int]@,
    {
        &self.commands[i]
    }

    /// The next step of the run. Validation is interleaved with spawning
    /// exactly as [`decide`] states: stage `k` is asked to be started only
    /// once stage `k + 1` has passed validation, and a stage with no tokens
    /// aborts the run before the stage preceding it is ever started.
    pub fn next_action(&self) -> (a: Action)
        requires
            self.wf(),
        ensures
            action_for(a, decide(self.cmds(), self.started_count())),
    {
        let n = self.commands.len();
        if n == 0 {
            Action::Abort(
                Error::new(ErrorKind::InvalidFormatError, Some(-1), "no commands supplied"),
            )
        } else if self.commands[0].len() == 0 {
            Action::Abort(
                Error::new(ErrorKind::InvalidFormatError, Some(-1), "no command binary supplied"),
            )
        } else if self.started + 1 < n && self.commands[self.started + 1].len() == 0 {
            Action::Abort(
                Error::new(ErrorKind::InvalidFormatError, Some(-1), "no command binary supplied"),
            )
        } else if self.started + 1 < n {
            Action::SpawnStage(self.started)
        } else {
            Action::RunFinal(n - 1)
        }
    }

    /// Record that the stage requested by the last [`Action::SpawnStage`] was
    /// started successfully.
    pub fn record_spawned(&mut self)
        requires
            old(self).wf(),
            decide(old(self).cmds(), old(self).started_count()) is Spawn,
        ensures
            final(self).wf(),
            final(self).cmds() == old(self).cmds(),
            final(self).started_count() == old(self).started_count() + 1,
    {
        let n = self.commands.len();
        proof {
            assert(self.started_count() + 1 < n as int);
        }
        self.started = self.started + 1;
    }
}

/// What a finished run amounts to, at the specification level: either the
/// decoded text of the final stage's output, or a failure kind with its code.
#[verifier::ext_equal]
pub enum Verdict {
    /// The run succeeded with exactly this text.
    Output(Seq<char>),
    /// The run failed, classified by this kind and code.
    Failed(ErrorKind, Option<i32>),
}

/// The classification of the final stage's outcome:
/// - not started, with a raw OS error number: an OS error carrying it;
/// - not started, without one: an unknown error without a code;
/// - exited non-zero (or killed by a signal): an execution error carrying the
///   exit code, or no code for a signal;
/// - exited zero with output that is not valid UTF-8: a decode error;
/// - exited zero otherwise: success, with the output decoded exactly.
pub open spec fn classify_spec(outcome: RunOutcome) -> Verdict {
    match outcome {
        RunOutcome::NotStarted { raw_os_error, message } => match raw_os_error {
            Some(c) => Verdict::Failed(ErrorKind::OsError, Some(c)),
            None => Verdict::Failed(ErrorKind::UnknownError, None),
        },
        RunOutcome::Completed { exit_code, stdout } => {
            if exit_code != Some(0i32) {
                Verdict::Failed(ErrorKind::ExecError, exit_code)
            } else if vstd::utf8::valid_utf8(stdout@) {
                Verdict::Output(vstd::utf8::decode_utf8(stdout@))
            } else {
                Verdict::Failed(ErrorKind::UnicodeDecodeError, None)
            }
        },
    }
}

/// Whether the executable result `r` reports exactly the verdict `v`.
pub open spec fn result_matches(r: Result<String, Error>, v: Verdict) -> bool {
    match v {
        Verdict::Output(s) => r matches Ok(out) && out@ == s,
        Verdict::Failed(kind, code) => {
            &&& r matches Err(e)
            &&& e.spec_kind() == kind
            &&& e.spec_code() == code
        },
    }
}

/// Relies on `String::from_utf8` of std: it returns the string holding exactly
/// the given bytes when they are a valid UTF-8 encoding, and an error
/// otherwise. Stated with vstd's own model of UTF-8, the same one vstd uses
/// for `str::from_utf8_unchecked`.
#[verifier::external_body]
fn decode_output(bytes: Vec<u8>) -> (r: Option<String>)
    ensures
        r is Some <==> vstd::utf8::valid_utf8(bytes@),
        r matches Some(s) ==> s@ == vstd::utf8::decode_utf8(bytes@),
{
    match String::from_utf8(bytes) {
        Ok(s) => Some(s),
        Err(_) => None,
    }
}

/// Turn the final stage's outcome into the pipeline's result, exactly as
/// [`classify_spec`] states, with the diagnostic text of each failure pinned
/// down as well: the OS message when the stage never started, and a fixed
/// text for a non-zero exit and for a decode failure.
pub fn classify_run(outcome: RunOutcome) -> (r: Result<String, Error>)
    ensures
        result_matches(r, classify_spec(outcome)),
        outcome matches RunOutcome::NotStarted { message, .. } ==> (r matches Err(e)
            && e.spec_details() == message@),
        (outcome matches RunOutcome::Completed { exit_code, .. } && exit_code != Some(0i32))
            ==> (r matches Err(e) && e.spec_details() == "non-zero exit code"@),
        (outcome matches RunOutcome::Completed { exit_code, stdout } && exit_code == Some(0i32)
            && !vstd::utf8::valid_utf8(stdout@)) ==> (r matches Err(e)
            && e.spec_details() == "utf-8 decode failed"@),
{
    match outcome {
        RunOutcome::NotStarted { raw_os_error, message } => match raw_os_error {
            Some(c) => Err(Error::new(ErrorKind::OsError, Some(c), message.as_str())),
            None => Err(Error::new(ErrorKind::UnknownError, None, message.as_str())),
        },
        RunOutcome::Completed { exit_code, stdout } => {
            let success = match exit_code {
                Some(c) => c == 0,
                None => false,
            };
            if !success {
                Err(Error::new(ErrorKind::ExecError, exit_code, "non-zero exit code"))
            } else {
                match decode_output(stdout) {
                    Some(text) => Ok(text),
                    None => Err(Error::new(ErrorKind::UnicodeDecodeError, None, "utf-8 decode failed")),
                }
            }
        },
    }
}

/// The error reported when an intermediate stage fails to spawn while the next
/// stage is being wired to it: an execution error with the `-1` sentinel,
/// carrying the underlying failure text.
pub fn spawn_failure(message: &str) -> (e: Error)
    ensures
        e.spec_kind() == ErrorKind::ExecError,
        e.spec_code() == Some(-1i32),
        e.spec_details() == "spawning failed: "@ + message@,
{
    let details = "spawning failed: ".to_owned().concat(message);
    Error::new(ErrorKind::ExecError, Some(-1), details.as_str())
}

/// The verdict of a run that resumes after `k` intermediate stages have been
/// started, given how the operating system answers from there on: `spawns[i]`
/// says whether stage `i` starts when asked, and `fin` is what running the
/// final stage looks like. An index beyond `spawns` counts as a refusal.
pub open spec fn run_from(
    cmds: Seq<Vec<String>>,
    k: int,
    spawns: Seq<bool>,
    fin: RunOutcome,
) -> Verdict
    decreases cmds.len() - k,
{
    match decide(cmds, k) {
        Decision::RejectEmptyPipeline => Verdict::Failed(
            ErrorKind::InvalidFormatError,
            Some(-1i32),
        ),
        Decision::RejectEmptyStage => Verdict::Failed(ErrorKind::InvalidFormatError, Some(-1i32)),
        Decision::Spawn(i) => {
            if 0 <= i < spawns.len() && spawns[i] {
                run_from(cmds, k + 1, spawns, fin)
            } else {
                Verdict::Failed(ErrorKind::ExecError, Some(-1i32))
            }
        },
        Decision::Run(_) => classify_spec(fin),
    }
}

/// The verdict of a whole run of the pipeline `cmds`, as a function of nothing
/// but the pipeline and the operating system's answers.
pub open spec fn run_model(cmds: Seq<Vec<String>>, spawns: Seq<bool>, fin: RunOutcome) -> Verdict {
    run_from(cmds, 0, spawns, fin)
}

/// Whether the pipeline is structurally valid: at least one stage, and every
/// stage with at least its binary token.
pub open spec fn pipeline_wellformed(cmds: Seq<Vec<String>>) -> bool {
    &&& cmds.len() > 0
    &&& forall|j: int| 0 <= j < cmds.len() ==> stage_nonempty(cmds, j)
}

/// Whether the operating system answers the first `m` spawn requests with
/// success.
pub open spec fn spawns_succeed(spawns: Seq<bool>, m: int) -> bool {
    &&& m <= spawns.len()
    &&& forall|i: int| 0 <= i < m ==> #[trigger] spawns[i]
}

fn replay_from(ex: Executor, spawn_ok: &Vec<bool>, fin: RunOutcome) -> (r: Result<String, Error>)
    requires
        ex.wf(),
    ensures
        result_matches(r, run_from(ex.cmds(), ex.started_count(), spawn_ok@, fin)),
    decreases ex.cmds().len() - ex.started_count(),
{
    let mut ex = ex;
    match ex.next_action() {
        Action::Abort(e) => Err(e),
        Action::SpawnStage(i) => {
            if i < spawn_ok.len() && spawn_ok[i] {
                ex.record_spawned();
                replay_from(ex, spawn_ok, fin)
            } else {
                Err(spawn_failure("stage refused to start"))
            }
        },
        Action::RunFinal(_) => classify_run(fin),
    }
}

/// Replay a pipeline run against a recorded, in-memory stand-in for the
/// operating system: `spawn_ok[i]` says whether stage `i` would start, and
/// `fin` is what running the final stage would look like. The result is
/// exactly the verdict of [`run_model`] on those answers.
pub fn run_replay(commands: Vec<Vec<String>>, spawn_ok: &Vec<bool>, fin: RunOutcome) -> (r:
    Result<String, Error>)
    ensures
        result_matches(r, run_model(commands@, spawn_ok@, fin)),
{
    replay_from(Executor::new(commands), spawn_ok, fin)
}

/// A pipeline with no stages is rejected as invalid format with the `-1`
/// sentinel, whatever the operating system would have answered.
pub proof fn lemma_empty_pipeline_rejected(
    cmds: Seq<Vec<String>>,
    spawns: Seq<bool>,
    fin: RunOutcome,
)
    requires
        cmds.len() == 0,
    ensures
        run_model(cmds, spawns, fin) == Verdict::Failed(
            ErrorKind::InvalidFormatError,
            Some(-1i32),
        ),
{
}

proof fn lemma_empty_stage_rejected_from(
    cmds: Seq<Vec<String>>,
    k: int,
    spawns: Seq<bool>,
    fin: RunOutcome,
    j: int,
)
    requires
        0 <= k <= j < cmds.len(),
        j >= 1 ==> k < j,
        cmds[j]@.len() == 0,
        spawns_succeed(spawns, j - 1),
    ensures
        run_from(cmds, k, spawns, fin) == Verdict::Failed(
            ErrorKind::InvalidFormatError,
            Some(-1i32),
        ),
    decreases j - k,
{
    if cmds[0]@.len() == 0 {
    } else if k + 1 < cmds.len() && cmds[k + 1]@.len() == 0 {
    } else {
        assert(k < spawns.len() && spawns[k]);
        lemma_empty_stage_rejected_from(cmds, k + 1, spawns, fin, j);
    }
    assert(run_from(cmds, k, spawns, fin) =~= Verdict::Failed(
        ErrorKind::InvalidFormatError,
        Some(-1i32),
    ));
}

/// A pipeline whose stage `j` has no tokens is rejected as invalid format
/// with the `-1` sentinel, whatever the final stage would have done, provided
/// the stages started before stage `j` is reached do start. (When an earlier
/// spawn fails first, the run reports that spawn failure instead: validation
/// and spawning are interleaved.)
pub proof fn lemma_empty_stage_rejected(
    cmds: Seq<Vec<String>>,
    spawns: Seq<bool>,
    fin: RunOutcome,
    j: int,
)
    requires
        0 <= j < cmds.len(),
        cmds[j]@.len() == 0,
        spawns_succeed(spawns, j - 1),
    ensures
        run_model(cmds, spawns, fin) == Verdict::Failed(
            ErrorKind::InvalidFormatError,
            Some(-1i32),
        ),
{
    lemma_empty_stage_rejected_from(cmds, 0, spawns, fin, j);
}

proof fn lemma_final_stage_decides_from(
    cmds: Seq<Vec<String>>,
    k: int,
    spawns: Seq<bool>,
    fin: RunOutcome,
)
    requires
        0 <= k < cmds.len(),
        pipeline_wellformed(cmds),
        spawns_succeed(spawns, cmds.len() - 1),
    ensures
        run_from(cmds, k, spawns, fin) == classify_spec(fin),
    decreases cmds.len() - k,
{
    if k + 1 < cmds.len() {
        lemma_final_stage_decides_from(cmds, k + 1, spawns, fin);
        assert(k < spawns.len() && spawns[k]);
        assert(run_from(cmds, k, spawns, fin) =~= run_from(cmds, k + 1, spawns, fin));
    } else {
        assert(run_from(cmds, k, spawns, fin) =~= classify_spec(fin));
    }
}

/// What the last stage reports is all that matters. For a pipeline whose
/// every stage has a binary, and whose every earlier stage starts when asked,
/// the whole run's verdict equals [`classify_spec`] of the last stage's
/// outcome alone. An earlier stage's own exit status is absent from the model
/// altogether: it can surface only by making a later spawn fail.
pub proof fn lemma_final_stage_decides(cmds: Seq<Vec<String>>, spawns: Seq<bool>, fin: RunOutcome)
    requires
        pipeline_wellformed(cmds),
        spawns_succeed(spawns, cmds.len() - 1),
    ensures
        run_model(cmds, spawns, fin) == classify_spec(fin),
{
    lemma_final_stage_decides_from(cmds, 0, spawns, fin);
}

/// Two runs of one pipeline cannot disagree unless the operating system
/// answered them differently: the verdict is a function of the stages and
/// the answers alone, with no hidden state.
pub proof fn lemma_runs_agree(
    cmds1: Seq<Vec<String>>,
    spawns1: Seq<bool>,
    fin1: RunOutcome,
    cmds2: Seq<Vec<String>>,
    spawns2: Seq<bool>,
    fin2: RunOutcome,
)
    requires
        cmds1 == cmds2,
        spawns1 == spawns2,
        fin1 == fin2,
    ensures
        run_model(cmds1, spawns1, fin1) == run_model(cmds2, spawns2, fin2),
{
}

} // verus!
