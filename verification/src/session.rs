//! Decision logic of the shared environment session.
//!
//! One long-lived external execution environment serves every backend that
//! does not render in-process. The session owns the environment for the
//! life of the process: it is started attached to a communication handle so
//! that it terminates itself when the handle closes, its readiness is
//! polled a bounded number of times, and each render call works in a
//! freshly named workspace of its own so that concurrent calls never
//! collide. The process and file plumbing around these decisions stays
//! outside the library; the functions here fix the command surface, the
//! readiness protocol and the workspace naming.

use vstd::prelude::*;
use vstd::string::StringExecFns;
use crate::backend::Backend;
use crate::backend::spec_name;
use crate::error::RenderError;
use crate::error::spec_message;
use crate::options::RenderOptions;
use crate::options::spec_milli_text;

verus! {

/// Whether `b` is one of the ASCII whitespace bytes that readiness output
/// is trimmed of.
pub open spec fn spec_is_space(b: u8) -> bool {
    b == 9 || b == 10 || b == 11 || b == 12 || b == 13 || b == 32
}

/// `s` without its leading whitespace.
pub open spec fn spec_trim_start(s: Seq<u8>) -> Seq<u8>
    decreases s.len(),
{
    if s.len() > 0 && spec_is_space(s[0]) {
        spec_trim_start(s.drop_first())
    } else {
        s
    }
}

/// `s` without its trailing whitespace.
pub open spec fn spec_trim_end(s: Seq<u8>) -> Seq<u8>
    decreases s.len(),
{
    if s.len() > 0 && spec_is_space(s.last()) {
        spec_trim_end(s.drop_last())
    } else {
        s
    }
}

/// `s` without leading and trailing whitespace.
pub open spec fn spec_trim(s: Seq<u8>) -> Seq<u8> {
    spec_trim_end(spec_trim_start(s))
}

/// Trimming the front keeps the part after the first non-space byte.
proof fn lemma_trim_start_at(s: Seq<u8>, lo: int)
    requires
        0 <= lo <= s.len(),
        forall|t: int| 0 <= t < lo ==> spec_is_space(#[trigger] s[t]),
        lo == s.len() || !spec_is_space(s[lo]),
    ensures
        spec_trim_start(s) == s.subrange(lo, s.len() as int),
    decreases lo,
{
    if lo == 0 {
        assert(s.subrange(0, s.len() as int) =~= s);
    } else {
        lemma_trim_start_at(s.drop_first(), lo - 1);
        assert(s.drop_first().subrange(lo - 1, s.drop_first().len() as int) =~= s.subrange(
            lo,
            s.len() as int,
        ));
    }
}

/// Trimming the back keeps the part before the last non-space byte.
proof fn lemma_trim_end_at(s: Seq<u8>, hi: int)
    requires
        0 <= hi <= s.len(),
        forall|t: int| hi <= t < s.len() ==> spec_is_space(#[trigger] s[t]),
        hi == 0 || !spec_is_space(s[hi - 1]),
    ensures
        spec_trim_end(s) == s.subrange(0, hi),
    decreases s.len() - hi,
{
    if hi == s.len() {
        assert(s.subrange(0, hi) =~= s);
    } else {
        lemma_trim_end_at(s.drop_last(), hi);
        assert(s.drop_last().subrange(0, hi) =~= s.subrange(0, hi));
    }
}

/// Whether `b` is an ASCII whitespace byte.
fn is_space(b: u8) -> (r: bool)
    ensures
        r == spec_is_space(b),
{
    b == 9 || b == 10 || b == 11 || b == 12 || b == 13 || b == 32
}

/// Strip leading and trailing ASCII whitespace, as the readiness check
/// does to the environment's reported identifier.
pub fn trim_ascii_whitespace(s: &[u8]) -> (r: Vec<u8>)
    ensures
        r@ == spec_trim(s@),
{
    let mut lo: usize = 0;
    while lo < s.len() && is_space(s[lo])
        invariant
            0 <= lo <= s@.len(),
            forall|t: int| 0 <= t < lo ==> spec_is_space(#[trigger] s@[t]),
        decreases s@.len() - lo,
    {
        lo += 1;
    }
    let mut hi: usize = s.len();
    while hi > lo && is_space(s[hi - 1])
        invariant
            lo <= hi <= s@.len(),
            forall|t: int| hi <= t < s@.len() ==> spec_is_space(#[trigger] s@[t]),
        decreases hi,
    {
        hi -= 1;
    }
    let mut out: Vec<u8> = Vec::new();
    let mut t: usize = lo;
    while t < hi
        invariant
            lo <= t <= hi <= s@.len(),
            out@ =~= s@.subrange(lo as int, t as int),
        decreases hi - t,
    {
        out.push(s[t]);
        t += 1;
    }
    proof {
        lemma_trim_start_at(s@, lo as int);
        let mid = s@.subrange(lo as int, s@.len() as int);
        lemma_trim_end_at(mid, hi - lo as int);
        assert(mid.subrange(0, hi - lo as int) =~= s@.subrange(lo as int, hi as int));
        assert(out@ =~= s@.subrange(lo as int, hi as int));
    }
    out
}

/// A bounded readiness poll of the newly started environment. Each
/// observation consumes one attempt unless the environment reported its
/// identifier; when the attempts run out the session construction has
/// failed.
pub struct ReadinessProbe {
    /// How many more observations may be made.
    pub attempts_left: u32,
}

/// What one readiness observation decided.
pub enum ProbeVerdict {
    /// The environment is running; the value is its reported identifier,
    /// trimmed of surrounding whitespace.
    Ready(Vec<u8>),
    /// Nothing reported yet: wait a short fixed interval and poll again.
    RetryLater,
    /// The attempt budget is exhausted: session construction has failed.
    GiveUp,
}

impl ReadinessProbe {
    /// Start a poll with the given attempt budget.
    pub fn new(max_attempts: u32) -> (r: Self)
        requires
            max_attempts >= 1,
        ensures
            r.attempts_left == max_attempts,
    {
        ReadinessProbe { attempts_left: max_attempts }
    }

    /// Judge one observation of the environment's reported identifier. A
    /// non-empty identifier (after trimming) means the environment is
    /// running; an empty one consumes an attempt and asks for a retry
    /// until the budget is gone.
    pub fn observe(&mut self, reported: &[u8]) -> (r: ProbeVerdict)
        requires
            old(self).attempts_left >= 1,
        ensures
            ({
                let id = spec_trim(reported@);
                if id.len() > 0 {
                    r matches ProbeVerdict::Ready(v) && v@ == id && final(self).attempts_left
                        == old(self).attempts_left
                } else if old(self).attempts_left > 1 {
                    r is RetryLater && final(self).attempts_left == old(self).attempts_left - 1
                } else {
                    r is GiveUp && final(self).attempts_left == 0
                }
            }),
    {
        let id = trim_ascii_whitespace(reported);
        if id.len() > 0 {
            ProbeVerdict::Ready(id)
        } else if self.attempts_left > 1 {
            self.attempts_left = self.attempts_left - 1;
            ProbeVerdict::RetryLater
        } else {
            self.attempts_left = 0;
            ProbeVerdict::GiveUp
        }
    }
}

/// The environment image used when no override is configured.
pub fn default_environment_image() -> (r: String)
    ensures
        r@ == "vallaris/sitro-backends:latest"@,
{
    "vallaris/sitro-backends:latest".to_owned()
}

/// Resolve the environment image: a configured override wins, otherwise
/// the built-in default is used.
pub fn resolve_environment_image(override_image: Option<String>) -> (r: String)
    ensures
        match override_image {
            Some(s) => r@ == s@,
            None => r@ == "vallaris/sitro-backends:latest"@,
        },
{
    match override_image {
        Some(s) => s,
        None => default_environment_image(),
    }
}

/// The argument that mounts the session's root workspace into the
/// environment.
pub fn mount_arg(host_root: &str) -> (r: String)
    ensures
        r@ == host_root@ + ":/work"@,
{
    host_root.to_owned().concat(":/work")
}

/// The arguments that start the long-lived environment: it is removed when
/// it stops, reads from an attached pipe (so that it terminates itself
/// when the owning process closes its end), and mounts the session root.
pub fn bootstrap_args(host_root: &str, image: &str) -> (r: Vec<String>)
    ensures
        r@.len() == 8,
        r@[0]@ == "run"@,
        r@[1]@ == "--rm"@,
        r@[2]@ == "-i"@,
        r@[3]@ == "--entrypoint"@,
        r@[4]@ == "cat"@,
        r@[5]@ == "-v"@,
        r@[6]@ == host_root@ + ":/work"@,
        r@[7]@ == image@,
{
    let mut args: Vec<String> = Vec::new();
    args.push("run".to_owned());
    args.push("--rm".to_owned());
    args.push("-i".to_owned());
    args.push("--entrypoint".to_owned());
    args.push("cat".to_owned());
    args.push("-v".to_owned());
    args.push(mount_arg(host_root));
    args.push(image.to_owned());
    args
}

/// The fixed name under which a call's input PDF is written into its
/// workspace.
pub fn input_file_name() -> (r: &'static str)
    ensures
        r@ == "file.pdf"@,
{
    "file.pdf"
}

/// Whether `c` may stand at position `i` of the hyphenated text of a
/// version-4 UUID: a hyphen at the four fixed positions, a lowercase hex
/// digit everywhere else.
pub open spec fn spec_is_uuid_char(c: char, i: int) -> bool {
    if i == 8 || i == 13 || i == 18 || i == 23 {
        c == '-'
    } else {
        ('0' <= c && c <= '9') || ('a' <= c && c <= 'f')
    }
}

/// The hyphenated text of a UUID: 36 characters of lowercase hex and four
/// hyphens. Every workspace name has this shape.
pub open spec fn spec_is_uuid_text(s: Seq<char>) -> bool {
    s.len() == 36 && forall|i: int| 0 <= i < s.len() ==> spec_is_uuid_char(#[trigger] s[i], i)
}

/// Relies on uuid::Uuid::new_v4, which draws a version-4 UUID from the
/// operating system's randomness, and on uuid's Display implementation,
/// which writes the hyphenated lowercase-hex form. The value is random, so
/// nothing relates two calls; only the shape of the text is promised.
#[verifier::external_body]
fn fresh_uuid_text() -> (r: String)
    ensures
        spec_is_uuid_text(r@),
{
    uuid::Uuid::new_v4().to_string()
}

/// A globally-unique name for one render call's workspace: the text of a
/// freshly drawn random 128-bit identifier. Isolation of concurrent calls
/// rests on these names not colliding.
pub fn fresh_workspace_name() -> (r: String)
    ensures
        spec_is_uuid_text(r@),
        r@.len() == 36,
{
    fresh_uuid_text()
}

/// The path of a call's workspace as seen inside the environment.
pub fn container_workspace_path(workspace_name: &str) -> (r: String)
    ensures
        r@ == "/work/"@ + workspace_name@,
{
    "/work/".to_owned().concat(workspace_name)
}

/// Distinct workspace names give distinct workspace paths inside the
/// environment: no two calls whose names differ can observe each other's
/// files.
pub proof fn lemma_workspace_paths_distinct(a: Seq<char>, b: Seq<char>)
    requires
        a != b,
    ensures
        "/work/"@ + a != "/work/"@ + b,
{
    let p = "/work/"@;
    if p + a == p + b {
        assert((p + a).len() == p.len() + a.len());
        assert((p + b).len() == p.len() + b.len());
        assert(a.len() == b.len());
        assert forall|i: int| 0 <= i < a.len() implies a[i] == b[i] by {
            assert((p + a)[p.len() + i] == a[i]);
            assert((p + b)[p.len() + i] == b[i]);
        }
        assert(a =~= b);
    }
}

/// The arguments of one render execution inside the running environment:
/// the entry point is invoked with the backend's name, the scale and the
/// call's workspace path.
pub fn exec_args(
    container_id: &str,
    backend: &Backend,
    options: &RenderOptions,
    workspace_name: &str,
) -> (r: Vec<String>)
    ensures
        r@.len() == 6,
        r@[0]@ == "exec"@,
        r@[1]@ == container_id@,
        r@[2]@ == "/opt/bin/entrypoint.sh"@,
        r@[3]@ == spec_name(*backend),
        r@[4]@ == spec_milli_text(options.scale_milli as nat),
        r@[5]@ == "/work/"@ + workspace_name@,
{
    let mut args: Vec<String> = Vec::new();
    args.push("exec".to_owned());
    args.push(container_id.to_owned());
    args.push("/opt/bin/entrypoint.sh".to_owned());
    args.push(backend.name());
    args.push(options.scale_text());
    args.push(container_workspace_path(workspace_name));
    args
}

/// A bounded wait on one render call's external execution step. A hung
/// engine must not block its calling task forever, so the caller polls the
/// running command at a short fixed interval and gives up, still cleaning
/// its workspace, when the budget runs out.
pub struct ExecutionBudget {
    /// How many more polls may be made before the call times out.
    pub polls_left: u32,
}

impl ExecutionBudget {
    /// Start a wait with the given poll budget.
    pub fn new(max_polls: u32) -> (r: Self)
        requires
            max_polls >= 1,
        ensures
            r.polls_left == max_polls,
    {
        ExecutionBudget { polls_left: max_polls }
    }

    /// Spend one poll. Returns whether the call may keep waiting; once it
    /// returns false the execution has timed out.
    pub fn tick(&mut self) -> (r: bool)
        ensures
            r == (old(self).polls_left > 0),
            old(self).polls_left > 0 ==> final(self).polls_left == old(self).polls_left - 1,
            old(self).polls_left == 0 ==> final(self).polls_left == 0,
    {
        if self.polls_left > 0 {
            self.polls_left = self.polls_left - 1;
            true
        } else {
            false
        }
    }
}

/// Judge one render execution inside the environment: success hands the
/// workspace to the collector, failure carries the captured diagnostic
/// output and is local to the call.
pub fn exec_outcome(success: bool, captured_stderr: &str) -> (r: Result<(), RenderError>)
    ensures
        r is Ok <==> success,
        r is Err ==> r->Err_0 is Execution && spec_message(r->Err_0) == "render failed: "@
            + captured_stderr@,
{
    if success {
        Ok(())
    } else {
        Err(RenderError::Execution("render failed: ".to_owned().concat(captured_stderr)))
    }
}

} // verus!
