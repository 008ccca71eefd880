//! The crash-dump capture session: enable/disable lifecycle and the
//! blocking completion wait.
//!
//! The vendor runtime is process-global and driven from outside; the
//! embedding application performs the actual enable call, status queries,
//! sleeps and the disable call, and hands this module the plain values that
//! came back. Every decision — whether a session exists, when polling may
//! stop, what must be disabled on teardown — is made and proved here.

use vstd::prelude::*;
use crate::status::CollectionStatus;

verus! {

/// The result code with which the vendor runtime reports that enable-capture
/// succeeded. Every other code is a failure.
pub const RESULT_SUCCESS: u32 = 1;

/// The polling interval of the completion wait, in milliseconds. The
/// interval is mandatory: the poller never queries faster than this.
pub const POLL_INTERVAL_MS: u64 = 100;

/// Registration failed: the vendor runtime refused to enable crash-dump
/// capture. Carries the raw vendor result code.
#[derive(Clone, Copy, PartialEq, Eq, Structural, Debug)]
pub struct InitError {
    pub code: u32,
}

/// The registration parameters a session asks the embedding application to
/// pass to the vendor's enable-capture entry point.
#[derive(Clone, Copy, PartialEq, Eq, Structural, Debug)]
pub struct EnableRequest {
    /// Monitor the Vulkan API surface.
    pub watch_vulkan: bool,
    /// Let the runtime cache shader debug information and deliver it
    /// through deferred callbacks.
    pub defer_debug_info_callbacks: bool,
    /// Register the crash-dump delivery callback.
    pub crash_dump_callback: bool,
    /// Register the shader-debug-info delivery callback.
    pub shader_debug_info_callback: bool,
    /// Register the crash-dump description callback.
    pub description_callback: bool,
    /// Register the application-managed marker resolution callback.
    /// This session does not use markers and leaves it unregistered.
    pub marker_resolve_callback: bool,
}

/// The request a session hands out on teardown: disable process-global
/// crash-dump capture.
#[derive(Clone, Copy, PartialEq, Eq, Structural, Debug)]
pub struct DisableRequest {}

/// What the poller decides after one status observation.
#[derive(Clone, Copy, PartialEq, Eq, Structural, Debug)]
pub enum PollDecision {
    /// A terminal status was observed; the wait is over.
    Stop,
    /// Sleep for `POLL_INTERVAL_MS`, query the status again, and decide
    /// again. The sleep is mandatory, not advisory.
    SleepThenRetry,
}

/// One step a complete session run asks the embedding application to
/// perform against the vendor runtime.
#[derive(Clone, Copy, PartialEq, Eq, Structural, Debug)]
pub enum RuntimeCommand {
    /// Call the enable-capture entry point with the session's
    /// `EnableRequest`.
    EnableCapture,
    /// Sleep for `POLL_INTERVAL_MS`.
    SleepInterval,
    /// Query the collection status.
    QueryStatus,
    /// Call the disable-capture entry point.
    DisableCapture,
}

/// What one bounded run of the status poller did: how often it queried,
/// how often it slept, and which terminal status ended the wait.
#[derive(Clone, Copy, PartialEq, Eq, Structural, Debug)]
pub struct PollRun {
    /// Number of status queries issued, the final (terminal) one included.
    pub queries: usize,
    /// Number of full polling intervals slept; one precedes every query.
    pub sleeps: usize,
    /// The terminal status that ended the wait.
    pub terminal: CollectionStatus,
}

/// Whether some observation in `s` is terminal.
pub open spec fn has_terminal(s: Seq<CollectionStatus>) -> bool {
    exists|i: int| 0 <= i < s.len() && s[i].spec_is_terminal()
}

/// How many status queries the poller issues against the observations `s`:
/// one per observation up to and including the first terminal one, or one
/// per observation when none is terminal.
pub open spec fn spec_poll_count(s: Seq<CollectionStatus>) -> int
    decreases s.len(),
{
    if s.len() == 0 {
        0
    } else if s[0].spec_is_terminal() {
        1
    } else {
        1 + spec_poll_count(s.drop_first())
    }
}

/// When the first `k` observations of `s` are non-terminal, the poller
/// queries `k + 1` times if observation `k` is terminal, and `s.len()`
/// times if the script ends there.
proof fn lemma_poll_count_at_first_terminal(s: Seq<CollectionStatus>, k: int)
    requires
        0 <= k <= s.len(),
        forall|j: int| 0 <= j < k ==> !s[j].spec_is_terminal(),
    ensures
        k == s.len() ==> spec_poll_count(s) == s.len(),
        k < s.len() && s[k].spec_is_terminal() ==> spec_poll_count(s) == k + 1,
    decreases k,
{
    if k > 0 {
        assert(forall|j: int|
            0 <= j < s.drop_first().len() ==> s.drop_first()[j] == s[j + 1]);
        lemma_poll_count_at_first_terminal(s.drop_first(), k - 1);
    }
}

/// An enabled crash-dump capture session.
///
/// A value of this type exists only after the vendor runtime reported
/// success for the enable call, so `enabled` is invariably true. The vendor
/// capture state is process-global: at most one session should be live per
/// process at a time. Ownership makes teardown happen at most once — it
/// consumes the session.
#[derive(Debug)]
pub struct Aftermath {
    /// Whether crash-dump capture is currently registered with the vendor
    /// runtime. Registration succeeds iff this becomes true.
    pub enabled: bool,
}

impl Aftermath {
    /// The registration parameters this session design uses: monitor
    /// Vulkan, defer shader-debug-info delivery, register the three
    /// delivery callbacks, and leave marker resolution unregistered.
    pub fn enable_request() -> (r: EnableRequest)
        ensures
            r.watch_vulkan,
            r.defer_debug_info_callbacks,
            r.crash_dump_callback,
            r.shader_debug_info_callback,
            r.description_callback,
            !r.marker_resolve_callback,
    {
        EnableRequest {
            watch_vulkan: true,
            defer_debug_info_callbacks: true,
            crash_dump_callback: true,
            shader_debug_info_callback: true,
            description_callback: true,
            marker_resolve_callback: false,
        }
    }

    /// Constructs the session from the vendor runtime's answer to the
    /// enable call. A session comes into being iff the runtime reported
    /// success; on every other result code the raw code is surfaced as an
    /// error and no session — not even a half-enabled one — exists.
    pub fn initialize(enable_result: u32) -> (r: Result<Aftermath, InitError>)
        ensures
            r is Ok <==> enable_result == RESULT_SUCCESS,
            r matches Ok(s) ==> s.enabled,
            r matches Err(e) ==> e.code == enable_result,
    {
        if enable_result == RESULT_SUCCESS {
            Ok(Aftermath { enabled: true })
        } else {
            Err(InitError { code: enable_result })
        }
    }

    /// Classifies one status observation: stop on a terminal status, sleep
    /// a full interval and retry on every other.
    pub fn wait_step(&self, status: CollectionStatus) -> (d: PollDecision)
        ensures
            d == (if status.spec_is_terminal() {
                PollDecision::Stop
            } else {
                PollDecision::SleepThenRetry
            }),
    {
        if status.is_terminal() {
            PollDecision::Stop
        } else {
            PollDecision::SleepThenRetry
        }
    }

    /// The completion wait, run against `script`: the collection statuses a
    /// runtime reports, in the order its queries would observe them. The
    /// wait ends exactly at the first terminal observation — never before,
    /// and queries stop there. One full polling interval is slept before
    /// every query, so the poller never busy-spins. A script with no
    /// terminal observation models a runtime still collecting: the wait
    /// does not end, and `None` is returned once the script is exhausted.
    pub fn wait_for_dump(&self, script: &Vec<CollectionStatus>) -> (r: Option<PollRun>)
        ensures
            r is Some <==> has_terminal(script@),
            r matches Some(run) ==> 1 <= run.queries <= script@.len(),
            r matches Some(run) ==> script@[run.queries - 1].spec_is_terminal(),
            r matches Some(run) ==> forall|i: int|
                0 <= i < run.queries - 1 ==> !script@[i].spec_is_terminal(),
            r matches Some(run) ==> run.terminal == script@[run.queries - 1],
            r matches Some(run) ==> run.sleeps == run.queries,
            r matches Some(run) ==> run.queries == spec_poll_count(script@),
    {
        let mut i: usize = 0;
        while i < script.len()
            invariant
                i <= script@.len(),
                forall|j: int| 0 <= j < i ==> !script@[j].spec_is_terminal(),
            decreases script@.len() - i,
        {
            let status = script[i];
            i = i + 1;
            match self.wait_step(status) {
                PollDecision::Stop => {
                    proof {
                        lemma_poll_count_at_first_terminal(script@, i - 1);
                    }
                    return Some(PollRun { queries: i, sleeps: i, terminal: status });
                },
                PollDecision::SleepThenRetry => {},
            }
        }
        None
    }

    /// Ends the session. Consuming `self` means a session is torn down at
    /// most once; the ensures says teardown always yields the disable
    /// request — unconditionally, whatever the session's state and whether
    /// or not any wait was performed. Together: exactly one disable per
    /// session.
    pub fn teardown(self) -> (r: DisableRequest)
        ensures
            r == (DisableRequest {  }),
    {
        DisableRequest {  }
    }
}

/// A complete session lifecycle against scripted vendor behaviour, as the
/// transcript of runtime commands it issues: enable; if the device was
/// lost, the polling wait; then teardown.
///
/// The transcript opens with exactly one enable call, and closes with
/// exactly one disable call iff the enable succeeded — no disable is issued
/// anywhere else, whether or not a wait was performed and wherever the wait
/// stopped. Between the two, the wait contributes one full-interval sleep
/// before each of its `spec_poll_count(script@)` status queries, and
/// nothing else.
pub fn run_session(
    enable_result: u32,
    device_lost: bool,
    script: &Vec<CollectionStatus>,
) -> (t: Vec<RuntimeCommand>)
    ensures
        t@.len() >= 1,
        forall|i: int| 0 <= i < t@.len() ==> (t@[i] is EnableCapture <==> i == 0),
        forall|i: int|
            0 <= i < t@.len()
                ==> (t@[i] is DisableCapture
                    <==> (enable_result == RESULT_SUCCESS && i == t@.len() - 1)),
        forall|i: int|
            1 <= i < t@.len() - 1
                ==> (t@[i] is SleepInterval <==> i % 2 == 1) && (t@[i] is QueryStatus
                    <==> i % 2 == 0),
        enable_result != RESULT_SUCCESS ==> t@.len() == 1,
        enable_result == RESULT_SUCCESS && !device_lost ==> t@.len() == 2,
        enable_result == RESULT_SUCCESS && device_lost ==> t@.len() == 2 + 2
            * spec_poll_count(script@),
{
    let mut t: Vec<RuntimeCommand> = Vec::new();
    t.push(RuntimeCommand::EnableCapture);
    let session = match Aftermath::initialize(enable_result) {
        Ok(s) => s,
        Err(_) => {
            return t;
        },
    };
    if device_lost {
        let mut i: usize = 0;
        let mut done = false;
        while i < script.len() && !done
            invariant
                i <= script@.len(),
                t@.len() == 1 + 2 * i,
                t@[0] is EnableCapture,
                forall|j: int|
                    1 <= j < t@.len()
                        ==> (t@[j] is SleepInterval <==> j % 2 == 1) && (t@[j] is QueryStatus
                            <==> j % 2 == 0),
                !done ==> forall|j: int| 0 <= j < i ==> !script@[j].spec_is_terminal(),
                done ==> i >= 1 && script@[i - 1].spec_is_terminal(),
                done ==> forall|j: int| 0 <= j < i - 1 ==> !script@[j].spec_is_terminal(),
            decreases script@.len() - i,
        {
            t.push(RuntimeCommand::SleepInterval);
            t.push(RuntimeCommand::QueryStatus);
            let status = script[i];
            i = i + 1;
            match session.wait_step(status) {
                PollDecision::Stop => {
                    done = true;
                },
                PollDecision::SleepThenRetry => {},
            }
        }
        proof {
            if done {
                lemma_poll_count_at_first_terminal(script@, i - 1);
            } else {
                lemma_poll_count_at_first_terminal(script@, i as int);
            }
        }
    }
    let _disable = session.teardown();
    t.push(RuntimeCommand::DisableCapture);
    t
}

} // verus!
