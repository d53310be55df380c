use vstd::prelude::*;
use crate::paths::{BuildMode, Platform};

verus! {

/// Single-slot container for the running backend child, the only shared
/// mutable state of the shell. The child is identified here by a plain
/// handle token; the shell keeps the map from tokens to real OS children and
/// guards the slot with its lock. Lifecycle: empty at start, filled once by
/// a successful spawn, emptied destructively by `stop`.
pub struct BackendProcess {
    child: Option<u64>,
}

impl View for BackendProcess {
    type V = Option<u64>;

    closed spec fn view(&self) -> Option<u64> {
        self.child
    }
}

/// What one `stop` does to the slot: the new slot content and the child, if
/// any, that is to be killed.
pub open spec fn spec_stop(slot: Option<u64>) -> (Option<u64>, Option<u64>) {
    (None, slot)
}

impl Default for BackendProcess {
    /// An empty slot: no backend has been started.
    fn default() -> (s: Self)
        ensures
            s@ is None,
    {
        BackendProcess { child: None }
    }
}

impl BackendProcess {
    /// Records a freshly spawned child in the slot.
    pub fn store(&mut self, child: u64)
        ensures
            final(self)@ == Some(child),
    {
        self.child = Some(child);
    }

    /// Atomically takes the stored child out, leaving the slot empty.
    pub fn take(&mut self) -> (r: Option<u64>)
        ensures
            final(self)@ is None,
            r == old(self)@,
    {
        let r = self.child;
        self.child = None;
        r
    }

    /// The shutdown decision: empties the slot and returns the child the
    /// shell must now kill, or `None` when there is nothing to kill. Safe
    /// to call whether or not a start ever succeeded, and idempotent: the
    /// second call observes an empty slot.
    pub fn stop(&mut self) -> (kill: Option<u64>)
        ensures
            final(self)@ == spec_stop(old(self)@).0,
            kill == spec_stop(old(self)@).1,
    {
        self.take()
    }
}

/// Law: `stop` before any `start` is a no-op — nothing is killed and the
/// slot stays empty — and two consecutive `stop`s kill at most once: the
/// second observes an empty slot and asks for no kill.
pub proof fn lemma_stop_at_most_once(slot: Option<u64>)
    ensures
        spec_stop(None) == (None::<u64>, None::<u64>),
        spec_stop(spec_stop(slot).0).1 is None,
{
}

/// Everything the shell must hand to the OS to launch the backend: the
/// launcher program and its arguments, the working directory, the injected
/// environment, and whether the child inherits the shell's stdio streams.
pub struct LaunchPlan {
    pub program: String,
    pub args: Vec<String>,
    pub current_dir: String,
    pub env: Vec<(String, String)>,
    pub inherit_stdio: bool,
}

/// The environment injected into the backend child: the address it must
/// bind to, where to write logs and data, and unbuffered output.
pub open spec fn spec_backend_env(logs_dir: Seq<char>, data_dir: Seq<char>) -> Seq<
    (Seq<char>, Seq<char>),
> {
    seq![
        ("WEAVIATE_KING_HOST"@, "127.0.0.1"@),
        ("WEAVIATE_KING_PORT"@, "5175"@),
        ("LOG_DIR"@, logs_dir),
        ("DATA_DIR"@, data_dir),
        ("PYTHONUNBUFFERED"@, "1"@),
    ]
}

/// Builds the launch plan for the backend: on the Windows family PowerShell
/// is invoked with policy-bypass flags on the PowerShell script, elsewhere a
/// POSIX shell is invoked on the shell script; the working directory is the
/// backend directory; the bind address, log and data directories and the
/// unbuffered-output flag are injected through the environment; stdio is
/// inherited in a debug build and discarded in a release build.
pub fn launch_plan(
    platform: Platform,
    mode: BuildMode,
    backend_dir: &str,
    script_path: &str,
    logs_dir: &str,
    data_dir: &str,
) -> (p: LaunchPlan)
    ensures
        platform is Windows ==> p.program@ == "powershell"@ && p.args@.len() == 5
            && p.args@[0]@ == "-NoProfile"@ && p.args@[1]@ == "-ExecutionPolicy"@
            && p.args@[2]@ == "Bypass"@ && p.args@[3]@ == "-File"@ && p.args@[4]@ == script_path@,
        platform is Posix ==> p.program@ == "bash"@ && p.args@.len() == 1
            && p.args@[0]@ == script_path@,
        p.current_dir@ == backend_dir@,
        p.env@.len() == spec_backend_env(logs_dir@, data_dir@).len(),
        forall|i: int| 0 <= i < p.env@.len()
            ==> #[trigger] p.env@[i].0@ == spec_backend_env(logs_dir@, data_dir@)[i].0
                && p.env@[i].1@ == spec_backend_env(logs_dir@, data_dir@)[i].1,
        p.inherit_stdio == (mode is Debug),
{
    let (program, args) = match platform {
        Platform::Windows => {
            let mut a: Vec<String> = Vec::new();
            a.push(String::from_str("-NoProfile"));
            a.push(String::from_str("-ExecutionPolicy"));
            a.push(String::from_str("Bypass"));
            a.push(String::from_str("-File"));
            a.push(String::from_str(script_path));
            (String::from_str("powershell"), a)
        },
        Platform::Posix => {
            let mut a: Vec<String> = Vec::new();
            a.push(String::from_str(script_path));
            (String::from_str("bash"), a)
        },
    };
    let mut env: Vec<(String, String)> = Vec::new();
    env.push((String::from_str("WEAVIATE_KING_HOST"), String::from_str("127.0.0.1")));
    env.push((String::from_str("WEAVIATE_KING_PORT"), String::from_str("5175")));
    env.push((String::from_str("LOG_DIR"), String::from_str(logs_dir)));
    env.push((String::from_str("DATA_DIR"), String::from_str(data_dir)));
    env.push((String::from_str("PYTHONUNBUFFERED"), String::from_str("1")));
    LaunchPlan {
        program,
        args,
        current_dir: String::from_str(backend_dir),
        env,
        inherit_stdio: matches!(mode, BuildMode::Debug),
    }
}

} // verus!
