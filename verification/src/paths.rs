use vstd::prelude::*;
use crate::errors::BackendError;

verus! {

/// Which launcher convention the host platform uses.
#[derive(Clone, Copy, PartialEq, Eq, Structural, Debug)]
pub enum Platform {
    /// Windows family: the backend is launched through a PowerShell script.
    Windows,
    /// Everything else: the backend is launched through a shell script.
    Posix,
}

/// Whether the application runs from the source tree or as a packaged bundle.
#[derive(Clone, Copy, PartialEq, Eq, Structural, Debug)]
pub enum BuildMode {
    Debug,
    Release,
}

/// The name of the platform launch script inside the backend directory.
pub open spec fn spec_script_name(platform: Platform) -> Seq<char> {
    match platform {
        Platform::Windows => "start-backend.ps1"@,
        Platform::Posix => "start-backend.sh"@,
    }
}

/// A path joined with one more component, using the separator of this model.
pub open spec fn spec_join(dir: Seq<char>, name: Seq<char>) -> Seq<char> {
    dir + "/"@ + name
}

/// Platform launch script file name.
pub fn script_name(platform: Platform) -> (r: &'static str)
    ensures
        r@ == spec_script_name(platform),
{
    match platform {
        Platform::Windows => "start-backend.ps1",
        Platform::Posix => "start-backend.sh",
    }
}

/// Appends one path component to a directory path.
pub fn join_path(dir: &str, name: &str) -> (r: String)
    ensures
        r@ == spec_join(dir@, name@),
{
    let mut s = String::from_str(dir);
    s.append("/");
    s.append(name);
    s
}

/// Full path of the platform launch script inside `backend_dir`.
pub fn launch_script_path(backend_dir: &str, platform: Platform) -> (r: String)
    ensures
        r@ == spec_join(backend_dir@, spec_script_name(platform)),
{
    join_path(backend_dir, script_name(platform))
}

/// Selects the platform launch script inside the resolved backend directory
/// and reports it missing when it is absent on disk. The caller probes the
/// file system for the path that `launch_script_path` yields and passes the
/// outcome as `script_exists`.
pub fn backend_launch_script(backend_dir: &str, platform: Platform, script_exists: bool) -> (r:
    Result<String, BackendError>)
    ensures
        script_exists ==> (r matches Ok(p) && p@ == spec_join(
            backend_dir@,
            spec_script_name(platform),
        )),
        !script_exists ==> (r matches Err(e) && e matches BackendError::MissingScript(p) && p@
            == spec_join(backend_dir@, spec_script_name(platform))),
{
    let script = launch_script_path(backend_dir, platform);
    if script_exists {
        Ok(script)
    } else {
        Err(BackendError::MissingScript(script))
    }
}

/// A directory the resolver may pick: its path and whether it exists on disk.
///
/// The shell probes the file system (and, for packaged builds, the resource
/// table) and hands the outcome in; the choice among the candidates is made
/// here.
pub struct Candidate {
    pub path: String,
    pub exists: bool,
}

/// The directory the resolver picks, if any: in a debug build the development
/// tree wins when it exists; otherwise the packaged resource directory is
/// probed at its nested conventional location, then at the flat fallback.
/// `nested` or `flat` is `None` when the resource table could not resolve
/// that location at all.
pub open spec fn spec_resolve_backend_dir(
    mode: BuildMode,
    dev: Candidate,
    nested: Option<Candidate>,
    flat: Option<Candidate>,
) -> Option<Seq<char>> {
    if mode is Debug && dev.exists {
        Some(dev.path@)
    } else if nested matches Some(c) && c.exists {
        Some(nested->0.path@)
    } else if flat matches Some(c) && c.exists {
        Some(flat->0.path@)
    } else {
        None
    }
}

/// Picks the backend directory among the probed candidates, or reports that
/// no valid backend directory exists.
pub fn resolve_backend_dir(
    mode: BuildMode,
    dev: Candidate,
    nested: Option<Candidate>,
    flat: Option<Candidate>,
) -> (r: Result<String, BackendError>)
    ensures
        match spec_resolve_backend_dir(mode, dev, nested, flat) {
            Some(p) => r matches Ok(d) && d@ == p,
            None => r matches Err(e) && e is NotFound,
        },
{
    if matches!(mode, BuildMode::Debug) && dev.exists {
        return Ok(dev.path);
    }
    if let Some(c) = nested {
        if c.exists {
            return Ok(c.path);
        }
    }
    if let Some(c) = flat {
        if c.exists {
            return Ok(c.path);
        }
    }
    Err(BackendError::NotFound)
}

/// Law: in a debug build an existing development path always wins, whatever
/// the packaged candidates hold; in a release build the development candidate
/// is never consulted, so exchanging it changes nothing.
pub proof fn lemma_resolve_prefers_dev(
    dev: Candidate,
    other_dev: Candidate,
    nested: Option<Candidate>,
    flat: Option<Candidate>,
)
    ensures
        dev.exists ==> spec_resolve_backend_dir(BuildMode::Debug, dev, nested, flat) == Some(
            dev.path@,
        ),
        spec_resolve_backend_dir(BuildMode::Release, dev, nested, flat)
            == spec_resolve_backend_dir(BuildMode::Release, other_dev, nested, flat),
{
}

} // verus!
