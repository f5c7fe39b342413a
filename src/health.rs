//! The health-gated startup protocol: probe on an interval until ready or out of time,
//! remembering the last error to report on a timeout. The caller probes and sleeps; the
//! decisions are here.

use vstd::prelude::*;
use crate::number::{decimal, parse_u64_spec, parse_u64, signed_decimal, i32_to_decimal, u64_to_decimal};
use crate::output::{tail, truncate_output};
use crate::text::{trim, trim_seq};

verus! {

/// Pause between two readiness probes.
pub const HEALTH_POLL_INTERVAL_MS: u64 = 200;

/// Readiness timeout of the orchestration daemon unless configured otherwise.
pub const DEFAULT_ORCHESTRATOR_TIMEOUT_MS: u64 = 180000;

/// The least readiness timeout a configuration may ask for.
pub const MIN_ORCHESTRATOR_TIMEOUT_MS: u64 = 1000;

/// Readiness timeout of a detached sandbox run in a container.
pub const SANDBOX_CONTAINER_TIMEOUT_MS: u64 = 90000;

/// Readiness timeout of a detached sandbox run without a container.
pub const SANDBOX_PLAIN_TIMEOUT_MS: u64 = 12000;

/// How long a directly started engine is watched for an early exit.
pub const WARMUP_DEADLINE_MS: u64 = 2000;

/// Pause between two early-exit checks of a directly started engine.
pub const WARMUP_POLL_INTERVAL_MS: u64 = 150;

/// Where a readiness wait stands.
#[derive(Debug, Clone, Copy, PartialEq, Eq, Structural)]
pub enum WaitPhase {
    Waiting,
    Ready,
    TimedOut,
}

/// A readiness wait in progress.
pub struct HealthWait {
    pub timeout_ms: u64,
    pub phase: WaitPhase,
    pub last_error: Option<String>,
    pub fallback_message: String,
}

/// What a wait that ran out of time reports: the last error seen, else the fallback.
pub open spec fn failure_text(last_error: Option<String>, fallback: Seq<char>) -> Seq<char> {
    match last_error {
        Some(e) => e@,
        None => fallback,
    }
}

/// The configured daemon readiness timeout: the default when unset or not a number,
/// otherwise the number, raised to the minimum when below it.
pub open spec fn orchestrator_timeout_spec(raw: Option<Seq<char>>) -> u64 {
    match raw {
        Some(v) => match parse_u64_spec(trim_seq(v)) {
            Some(n) => if n < MIN_ORCHESTRATOR_TIMEOUT_MS {
                MIN_ORCHESTRATOR_TIMEOUT_MS
            } else {
                n
            },
            None => DEFAULT_ORCHESTRATOR_TIMEOUT_MS,
        },
        None => DEFAULT_ORCHESTRATOR_TIMEOUT_MS,
    }
}

/// The daemon readiness timeout for a configured value (`None` when unset).
pub fn orchestrator_start_timeout_ms(raw: Option<&str>) -> (r: u64)
    ensures
        r == orchestrator_timeout_spec(
            match raw {
                Some(v) => Some(v@),
                None => None,
            },
        ),
        r >= MIN_ORCHESTRATOR_TIMEOUT_MS,
{
    match raw {
        Some(v) => match parse_u64(trim(v)) {
            Some(n) => if n < MIN_ORCHESTRATOR_TIMEOUT_MS {
                MIN_ORCHESTRATOR_TIMEOUT_MS
            } else {
                n
            },
            None => DEFAULT_ORCHESTRATOR_TIMEOUT_MS,
        },
        None => DEFAULT_ORCHESTRATOR_TIMEOUT_MS,
    }
}

/// The readiness timeout of a detached sandbox.
pub fn sandbox_health_timeout_ms(wants_docker: bool) -> (r: u64)
    ensures
        r == if wants_docker {
            SANDBOX_CONTAINER_TIMEOUT_MS
        } else {
            SANDBOX_PLAIN_TIMEOUT_MS
        },
{
    if wants_docker {
        SANDBOX_CONTAINER_TIMEOUT_MS
    } else {
        SANDBOX_PLAIN_TIMEOUT_MS
    }
}

impl HealthWait {
    /// A wait of `timeout_ms` that reports `fallback_message` on a timeout with no error.
    pub fn new(timeout_ms: u64, fallback_message: String) -> (r: HealthWait)
        ensures
            r.timeout_ms == timeout_ms,
            r.phase == WaitPhase::Waiting,
            r.last_error.is_none(),
            r.fallback_message == fallback_message,
    {
        HealthWait { timeout_ms, phase: WaitPhase::Waiting, last_error: None, fallback_message }
    }

    /// The wait for the orchestration daemon.
    pub fn for_orchestrator(timeout_ms: u64) -> (r: HealthWait)
        ensures
            r.timeout_ms == timeout_ms,
            r.phase == WaitPhase::Waiting,
            r.last_error.is_none(),
            r.fallback_message@ == "Timed out waiting for orchestrator"@,
    {
        HealthWait::new(timeout_ms, String::from_str("Timed out waiting for orchestrator"))
    }

    /// The wait for a detached sandbox's server.
    pub fn for_sandbox(wants_docker: bool) -> (r: HealthWait)
        ensures
            r.timeout_ms == (if wants_docker {
                SANDBOX_CONTAINER_TIMEOUT_MS
            } else {
                SANDBOX_PLAIN_TIMEOUT_MS
            }),
            r.phase == WaitPhase::Waiting,
            r.last_error.is_none(),
            r.fallback_message@ == "Timed out waiting for OpenWork server"@,
    {
        HealthWait::new(
            sandbox_health_timeout_ms(wants_docker),
            String::from_str("Timed out waiting for OpenWork server"),
        )
    }

    /// Checks the clock before a probe: true while time remains; otherwise the wait
    /// has timed out.
    pub fn poll(&mut self, elapsed_ms: u64) -> (r: bool)
        requires
            old(self).phase == WaitPhase::Waiting,
        ensures
            r == (elapsed_ms < old(self).timeout_ms),
            final(self).phase == (if r {
                WaitPhase::Waiting
            } else {
                WaitPhase::TimedOut
            }),
            final(self).last_error == old(self).last_error,
            final(self).timeout_ms == old(self).timeout_ms,
            final(self).fallback_message == old(self).fallback_message,
    {
        if elapsed_ms < self.timeout_ms {
            true
        } else {
            self.phase = WaitPhase::TimedOut;
            false
        }
    }

    /// A probe found the service ready: the last error is cleared.
    pub fn record_ready(&mut self)
        requires
            old(self).phase == WaitPhase::Waiting,
        ensures
            final(self).phase == WaitPhase::Ready,
            final(self).last_error.is_none(),
            final(self).timeout_ms == old(self).timeout_ms,
            final(self).fallback_message == old(self).fallback_message,
    {
        self.phase = WaitPhase::Ready;
        self.last_error = None;
    }

    /// A probe failed with `message`; the wait goes on.
    pub fn record_error(&mut self, message: String)
        requires
            old(self).phase == WaitPhase::Waiting,
        ensures
            final(self).phase == WaitPhase::Waiting,
            final(self).last_error == Some(message),
            final(self).timeout_ms == old(self).timeout_ms,
            final(self).fallback_message == old(self).fallback_message,
    {
        self.last_error = Some(message);
    }

    /// The daemon answered with its health flag: ready when set, otherwise an error.
    pub fn record_health_report(&mut self, ok: bool)
        requires
            old(self).phase == WaitPhase::Waiting,
        ensures
            ok ==> final(self).phase == WaitPhase::Ready && final(self).last_error.is_none(),
            !ok ==> final(self).phase == WaitPhase::Waiting && final(self).last_error.is_some()
                && final(self).last_error.unwrap()@ == "Orchestrator reported unhealthy"@,
            final(self).timeout_ms == old(self).timeout_ms,
            final(self).fallback_message == old(self).fallback_message,
    {
        if ok {
            self.record_ready();
        } else {
            self.record_error(String::from_str("Orchestrator reported unhealthy"));
        }
    }

    /// A server answered with an HTTP status: ready on 2xx, otherwise the error
    /// `HTTP <status>`. Returns whether it is ready.
    pub fn record_http_status(&mut self, status: u16) -> (r: bool)
        requires
            old(self).phase == WaitPhase::Waiting,
        ensures
            r == (200 <= status < 300),
            r ==> final(self).phase == WaitPhase::Ready && final(self).last_error.is_none(),
            !r ==> final(self).phase == WaitPhase::Waiting && final(self).last_error.is_some()
                && final(self).last_error.unwrap()@ == "HTTP "@ + decimal(status as nat),
            final(self).timeout_ms == old(self).timeout_ms,
            final(self).fallback_message == old(self).fallback_message,
    {
        if 200 <= status && status < 300 {
            self.record_ready();
            true
        } else {
            let message = String::from_str("HTTP ").concat(u64_to_decimal(status as u64).as_str());
            self.record_error(message);
            false
        }
    }

    /// What a timed-out wait reports: the last error observed, else the fallback message.
    pub fn failure_message(&self) -> (r: String)
        ensures
            r@ == failure_text(self.last_error, self.fallback_message@),
    {
        match &self.last_error {
            Some(e) => e.clone(),
            None => self.fallback_message.clone(),
        }
    }
}

/// The error of an orchestrated start whose readiness wait failed.
pub fn orchestrator_start_error(timeout_ms: u64, message: &str) -> (r: String)
    ensures
        r@ == "Failed to start orchestrator (waited "@ + decimal(timeout_ms as nat) + "ms): "@
            + message@,
{
    String::from_str("Failed to start orchestrator (waited ").concat(
        u64_to_decimal(timeout_ms).as_str(),
    ).concat("ms): ").concat(message)
}

/// A labelled output part of the early-exit report, when the output is not blank.
pub open spec fn output_part(label: Seq<char>, text: Seq<char>) -> Seq<Seq<char>> {
    if trim_seq(text).len() == 0 {
        seq![]
    } else {
        seq![label + tail(trim_seq(text), 8000)]
    }
}

/// The report of an engine that exited during its warm-up window.
pub open spec fn warmup_failure_spec(exit_code: Option<i32>, stdout: Seq<char>, stderr: Seq<char>) -> Seq<
    char,
> {
    let parts = output_part("stdout:\n"@, stdout) + output_part("stderr:\n"@, stderr);
    let code = match exit_code {
        Some(c) => c as int,
        None => -1,
    };
    "OpenCode exited immediately with status "@ + signed_decimal(code) + "."@ + if parts.len()
        == 0 {
        Seq::<char>::empty()
    } else if parts.len() == 1 {
        "\n\n"@ + parts[0]
    } else {
        "\n\n"@ + parts[0] + "\n\n"@ + parts[1]
    }
}

/// The labelled, trimmed and truncated output, or nothing when it is blank.
fn labelled_output(label: &str, text: &str) -> (r: Option<String>)
    ensures
        match r {
            Some(s) => output_part(label@, text@) == seq![s@],
            None => output_part(label@, text@) == Seq::<Seq<char>>::empty(),
        },
{
    let t = trim(text);
    if t.unicode_len() == 0 {
        None
    } else {
        let kept = truncate_output(t, 8000);
        Some(String::from_str(label).concat(kept.as_str()))
    }
}

/// The error of a directly started engine that exited within its warm-up window: its
/// status (-1 when unknown), then its non-blank output streams.
pub fn warmup_failure_message(exit_code: Option<i32>, stdout: &str, stderr: &str) -> (r: String)
    ensures
        r@ == warmup_failure_spec(exit_code, stdout@, stderr@),
{
    let code: i32 = match exit_code {
        Some(c) => c,
        None => -1,
    };
    let out = labelled_output("stdout:\n", stdout);
    let err = labelled_output("stderr:\n", stderr);
    let mut msg = String::from_str("OpenCode exited immediately with status ").concat(
        i32_to_decimal(code).as_str(),
    ).concat(".");
    let ghost head = msg@;
    match (out, err) {
        (Some(o), Some(e)) => {
            msg.append("\n\n");
            msg.append(o.as_str());
            msg.append("\n\n");
            msg.append(e.as_str());
            assert(msg@ =~= warmup_failure_spec(exit_code, stdout@, stderr@));
        },
        (Some(o), None) => {
            msg.append("\n\n");
            msg.append(o.as_str());
            assert(msg@ =~= warmup_failure_spec(exit_code, stdout@, stderr@));
        },
        (None, Some(e)) => {
            msg.append("\n\n");
            msg.append(e.as_str());
            assert(msg@ =~= warmup_failure_spec(exit_code, stdout@, stderr@));
        },
        (None, None) => {
            assert(msg@ =~= warmup_failure_spec(exit_code, stdout@, stderr@));
        },
    }
    msg
}

} // verus!
