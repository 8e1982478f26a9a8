//! One Roslyn language-server instance: resolving the command line to
//! launch, building the initialization notification, and reporting the
//! workspace configuration.

use vstd::prelude::*;
use vstd::string::StringExecFns;
use crate::json::empty_object;
use crate::projects::{project_uris, project_uris_of};

verus! {

/// The per-server binary settings, read fresh from host settings on every
/// resolution: an optional executable override and an optional argument
/// override. Absence of either is an expected state, not an error.
pub struct BinarySettings {
    pub path: Option<String>,
    pub arguments: Option<Vec<String>>,
}

/// Mathematical view of `BinarySettings`.
#[verifier::ext_equal]
pub struct BinarySettingsView {
    pub path: Option<Seq<char>>,
    pub arguments: Option<Seq<Seq<char>>>,
}

impl View for BinarySettings {
    type V = BinarySettingsView;

    open spec fn view(&self) -> BinarySettingsView {
        BinarySettingsView { path: self.path.deep_view(), arguments: self.arguments.deep_view() }
    }
}

/// The command line the host is told to spawn: an executable, its
/// arguments, and environment variables (always empty in this design).
#[derive(Debug)]
pub struct Command {
    pub command: String,
    pub args: Vec<String>,
    pub env: Vec<(String, String)>,
}

/// Mathematical view of `Command`.
#[verifier::ext_equal]
pub struct CommandView {
    pub command: Seq<char>,
    pub args: Seq<Seq<char>>,
    pub env: Seq<(Seq<char>, Seq<char>)>,
}

impl View for Command {
    type V = CommandView;

    open spec fn view(&self) -> CommandView {
        CommandView { command: self.command@, args: self.args.deep_view(), env: self.env.deep_view() }
    }
}

/// One server instance. Its only state is the optional path to an
/// executable that an external provisioning step cached earlier; the path
/// is re-validated against the filesystem on every use, never trusted
/// blindly across calls.
pub struct Roslyn {
    cached_binary_path: Option<String>,
}

impl View for Roslyn {
    type V = Option<Seq<char>>;

    closed spec fn view(&self) -> Option<Seq<char>> {
        self.cached_binary_path.deep_view()
    }
}

/// The parameters of the initialization notification: one `file://` URI
/// per discovered project-descriptor file.
pub struct InitializationParams {
    pub projects: Vec<String>,
}

/// The one-way notification the host sends to the server before its first
/// request, telling it which project descriptors to load.
pub struct InitializationNotification {
    pub method: String,
    pub params: InitializationParams,
}

/// The configuration payload reported to the host on demand: the opaque
/// settings blob wrapped under the server's name.
pub struct WorkspaceConfiguration {
    pub server: String,
    pub settings: serde_json::Value,
}

/// The name under which the host stores this server's settings, and the
/// top-level key of the configuration payload.
pub open spec fn server_name() -> Seq<char> {
    "roslyn"@
}

/// The method of the initialization notification.
pub open spec fn init_method_name() -> Seq<char> {
    "project/open"@
}

/// The arguments a launch command carries: the user's override when
/// present, the empty sequence otherwise, independent of which branch
/// chose the executable.
pub open spec fn effective_args(arguments: Option<Seq<Seq<char>>>) -> Seq<Seq<char>> {
    match arguments {
        Some(a) => a,
        None => Seq::empty(),
    }
}

/// The message of the one error this component can report: resolution
/// found neither a user-configured path nor a valid cached one.
pub open spec fn binary_not_found_message() -> Seq<char> {
    "Roslyn binary not found"@
}

/// The launch command owed for a given cached path, settings snapshot and
/// filesystem answer (whether the cached path currently names a regular
/// file). The precedence is fixed: a user-configured path wins
/// unconditionally with no existence check; a cached path that the
/// filesystem confirms comes second; otherwise resolution fails.
pub open spec fn resolve_launch(
    cached: Option<Seq<char>>,
    settings: BinarySettingsView,
    cached_is_file: bool,
) -> Result<CommandView, Seq<char>> {
    match settings.path {
        Some(p) => Ok(
            CommandView { command: p, args: effective_args(settings.arguments), env: Seq::empty() },
        ),
        None => match cached {
            Some(cp) => if cached_is_file {
                Ok(
                    CommandView {
                        command: cp,
                        args: effective_args(settings.arguments),
                        env: Seq::empty(),
                    },
                )
            } else {
                Err(binary_not_found_message())
            },
            None => Err(binary_not_found_message()),
        },
    }
}

/// The view of a resolution result.
pub open spec fn launch_result_view(r: Result<Command, String>) -> Result<
    CommandView,
    Seq<char>,
> {
    match r {
        Ok(c) => Ok(c@),
        Err(e) => Err(e@),
    }
}

/// Resolution is a pure function of the cached path, the settings snapshot
/// and the filesystem's answer: with all three unchanged, two resolutions
/// yield identical results. Together with `language_server_cmd` leaving
/// the cached path unchanged, calling it twice under unchanged settings
/// and filesystem state returns the same command both times.
pub proof fn lemma_resolve_launch_deterministic(
    cached1: Option<Seq<char>>,
    cached2: Option<Seq<char>>,
    settings1: BinarySettingsView,
    settings2: BinarySettingsView,
    cached_is_file1: bool,
    cached_is_file2: bool,
)
    requires
        cached1 == cached2,
        settings1 == settings2,
        cached_is_file1 == cached_is_file2,
    ensures
        resolve_launch(cached1, settings1, cached_is_file1) == resolve_launch(
            cached2,
            settings2,
            cached_is_file2,
        ),
{
}

/// Clones the argument override into the launch command, defaulting to no
/// arguments when the settings carry none.
fn clone_args(arguments: &Option<Vec<String>>) -> (r: Vec<String>)
    ensures
        r.deep_view() == effective_args(arguments.deep_view()),
{
    match arguments {
        Some(a) => {
            let mut r: Vec<String> = Vec::new();
            let mut i: usize = 0;
            while i < a.len()
                invariant
                    i <= a.len(),
                    r@.len() == i,
                    forall|j: int| 0 <= j < i ==> r@[j] == a@[j],
                decreases a.len() - i,
            {
                let element = a[i].clone();
                r.push(element);
                i += 1;
            }
            proof {
                assert(r.deep_view() =~= a.deep_view());
            }
            r
        },
        None => {
            let r: Vec<String> = Vec::new();
            proof {
                assert(r.deep_view() =~= Seq::<Seq<char>>::empty());
            }
            r
        },
    }
}

impl Roslyn {
    /// The host-assigned identifier of this language server.
    pub const LANGUAGE_SERVER_ID: &'static str = "roslyn";

    /// Creates an instance with no cached binary path.
    pub fn new() -> (r: Self)
        ensures
            r@ is None,
    {
        Roslyn { cached_binary_path: None }
    }

    /// The cached executable path, for the host to validate against the
    /// filesystem before each launch.
    pub fn cached_binary_path(&self) -> (p: &Option<String>)
        ensures
            p.deep_view() == self@,
    {
        &self.cached_binary_path
    }

    /// Records the executable path that an external provisioning step
    /// produced; this component itself only ever consumes the cache.
    pub fn set_cached_binary_path(&mut self, path: Option<String>)
        ensures
            final(self)@ == path.deep_view(),
    {
        self.cached_binary_path = path;
    }

    /// Resolves the command line to launch from the current settings
    /// snapshot and the filesystem's answer whether the cached path names
    /// a regular file. A user-configured path wins unconditionally; a
    /// validated cached path comes second; otherwise the one error this
    /// component knows is returned. The cached path itself is never
    /// modified here.
    pub fn language_server_cmd(
        &mut self,
        settings: &BinarySettings,
        cached_is_file: bool,
    ) -> (r: Result<Command, String>)
        ensures
            *final(self) == *old(self),
            launch_result_view(r) == resolve_launch(old(self)@, settings@, cached_is_file),
            settings@.path matches Some(p) ==> (r matches Ok(c) && c@.command == p),
            settings@.path is None && cached_is_file ==> (old(self)@ matches Some(cp) ==> (
            r matches Ok(c) && c@.command == cp)),
            settings@.path is None && !(old(self)@ is Some && cached_is_file) ==> (r matches Err(e)
                && e@ == binary_not_found_message()),
            r matches Ok(c) ==> c@.args == effective_args(settings@.arguments) && c@.env
                == Seq::<(Seq<char>, Seq<char>)>::empty(),
    {
        if let Some(path) = &settings.path {
            let cmd = Command {
                command: path.clone(),
                args: clone_args(&settings.arguments),
                env: Vec::new(),
            };
            proof {
                assert(cmd@.env =~= Seq::<(Seq<char>, Seq<char>)>::empty());
                assert(cmd@ =~= resolve_launch(self@, settings@, cached_is_file)->Ok_0);
            }
            return Ok(cmd);
        }
        if let Some(path) = &self.cached_binary_path {
            if cached_is_file {
                let cmd = Command {
                    command: path.clone(),
                    args: clone_args(&settings.arguments),
                    env: Vec::new(),
                };
                proof {
                    assert(cmd@.env =~= Seq::<(Seq<char>, Seq<char>)>::empty());
                    assert(cmd@ =~= resolve_launch(self@, settings@, cached_is_file)->Ok_0);
                }
                return Ok(cmd);
            }
        }
        Err(<String as StringExecFns>::from_str("Roslyn binary not found"))
    }

    /// Builds the initialization notification from the candidate paths
    /// found under the workspace root: every project-descriptor file
    /// becomes a `file://` URI under the notification's parameters, every
    /// other path is dropped. Always succeeds; no matches yield an empty
    /// project list, not an error.
    pub fn language_server_init_options(
        &mut self,
        candidate_paths: &Vec<String>,
    ) -> (n: InitializationNotification)
        ensures
            *final(self) == *old(self),
            n.method@ == init_method_name(),
            n.params.projects.deep_view() == project_uris_of(candidate_paths.deep_view()),
    {
        InitializationNotification {
            method: <String as StringExecFns>::from_str("project/open"),
            params: InitializationParams { projects: project_uris(candidate_paths) },
        }
    }

    /// Wraps the current settings blob under the server's name. A missing
    /// blob is an expected state and is reported as the empty JSON object;
    /// a present one passes through verbatim, never interpreted.
    pub fn language_server_workspace_configuration(
        &mut self,
        settings: Option<serde_json::Value>,
    ) -> (c: WorkspaceConfiguration)
        ensures
            *final(self) == *old(self),
            c.server@ == server_name(),
            settings matches Some(v) ==> c.settings == v,
    {
        let blob = match settings {
            Some(v) => v,
            None => empty_object(),
        };
        WorkspaceConfiguration {
            server: <String as StringExecFns>::from_str("roslyn"),
            settings: blob,
        }
    }
}

} // verus!
