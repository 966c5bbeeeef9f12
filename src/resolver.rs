//! Choosing the interpreter binary from an explicit configuration snapshot.
use vstd::prelude::*;

verus! {

/// Path conventions of the target the interpreter runs on.
#[derive(Clone, Copy, Debug, PartialEq, Eq, Structural)]
pub enum Platform {
    /// `/` separated paths; a virtual environment keeps binaries under `bin/`.
    Posix,
    /// `\` separated paths; a virtual environment keeps `python.exe` at its root.
    Windows,
}

/// The configuration the resolver reads: the full-path override and the
/// virtual-environment root, each present or not.
pub struct ExecutableConfig {
    pub override_path: Option<String>,
    pub venv_root: Option<String>,
}

/// Bare interpreter name, found through the search path.
pub open spec fn bare_interpreter() -> Seq<char> {
    seq!['p', 'y', 't', 'h', 'o', 'n']
}

/// Interpreter path relative to a virtual-environment root.
pub open spec fn venv_suffix(platform: Platform) -> Seq<char> {
    match platform {
        Platform::Posix => seq!['/', 'b', 'i', 'n', '/', 'p', 'y', 't', 'h', 'o', 'n'],
        Platform::Windows => seq!['\\', 'p', 'y', 't', 'h', 'o', 'n', '.', 'e', 'x', 'e'],
    }
}

/// The interpreter for a configuration: override, else venv-derived path,
/// else the bare name.
pub open spec fn resolved_executable(
    override_path: Option<Seq<char>>,
    venv_root: Option<Seq<char>>,
    platform: Platform,
) -> Seq<char> {
    match override_path {
        Some(p) => p,
        None => match venv_root {
            Some(root) => root + venv_suffix(platform),
            None => bare_interpreter(),
        },
    }
}

pub open spec fn opt_view(o: Option<String>) -> Option<Seq<char>> {
    match o {
        Some(s) => Some(s@),
        None => None,
    }
}

impl ExecutableConfig {
    pub open spec fn resolved(&self, platform: Platform) -> Seq<char> {
        resolved_executable(opt_view(self.override_path), opt_view(self.venv_root), platform)
    }
}

/// Picks the interpreter to run for `config` on `platform`. Nothing is checked
/// here; the availability probe finds out whether it can be launched.
pub fn resolve_executable(config: &ExecutableConfig, platform: Platform) -> (r: String)
    ensures
        r@ == config.resolved(platform),
{
    match &config.override_path {
        Some(p) => p.clone(),
        None => match &config.venv_root {
            Some(root) => {
                let suffix = match platform {
                    Platform::Posix => "/bin/python",
                    Platform::Windows => "\\python.exe",
                };
                proof {
                    reveal_strlit("/bin/python");
                    reveal_strlit("\\python.exe");
                }
                let mut out = root.clone();
                out.append(suffix);
                out
            },
            None => {
                proof {
                    reveal_strlit("python");
                }
                String::from_str("python")
            },
        },
    }
}

/// The override, when set, is used verbatim whatever else is configured.
pub proof fn lemma_override_wins(
    override_path: Seq<char>,
    venv_root: Option<Seq<char>>,
    platform: Platform,
)
    ensures
        resolved_executable(Some(override_path), venv_root, platform) == override_path,
{
}

/// Without an override, a virtual-environment root decides the path, on
/// every platform, and the path starts with that root.
pub proof fn lemma_venv_beats_bare_name(venv_root: Seq<char>, platform: Platform)
    ensures
        resolved_executable(None, Some(venv_root), platform) == venv_root + venv_suffix(platform),
        resolved_executable(None, Some(venv_root), platform).subrange(0, venv_root.len() as int)
            == venv_root,
{
    assert((venv_root + venv_suffix(platform)).subrange(0, venv_root.len() as int) =~= venv_root);
}

/// With neither variable set, the bare interpreter name is the result.
pub proof fn lemma_bare_name_fallback(platform: Platform)
    ensures
        resolved_executable(None, None, platform) == bare_interpreter(),
{
}

} // verus!
