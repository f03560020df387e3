//! Where the agent's tools and workspace are: bundled beside the
//! application's resources, or in the project tree during development.

use vstd::prelude::*;
use vstd::string::*;

verus! {

/// `name` appended to `base` as std's `Path::join` does on Unix: an
/// absolute `name` replaces `base`, and a separator is added unless `base`
/// is empty or already ends in one.
pub open spec fn join_path(base: Seq<char>, name: Seq<char>) -> Seq<char> {
    if name.len() > 0 && name[0] == '/' {
        name
    } else if base.len() == 0 || base.last() == '/' {
        base + name
    } else {
        base + "/"@ + name
    }
}

/// Joins `name` to `base`.
pub fn join(base: &str, name: &str) -> (r: String)
    ensures
        r@ == join_path(base@, name@),
{
    proof {
        reveal_strlit("/");
    }
    let n = name.unicode_len();
    if n > 0 && name.get_char(0) == '/' {
        return name.to_owned();
    }
    let b = base.unicode_len();
    if b == 0 || base.get_char(b - 1) == '/' {
        base.to_owned().concat(name)
    } else {
        base.to_owned().concat("/").concat(name)
    }
}

/// Relies on `std::path::Path::exists`: whatever the filesystem says now.
#[verifier::external_body]
fn path_exists(path: &str) -> bool {
    std::path::Path::new(path).exists()
}

/// The tools and workspace directories, as text.
pub struct PathsModel {
    pub tools: Seq<char>,
    pub workspace: Seq<char>,
}

/// The paths for resource directory `resources` and project root `root`,
/// where `bundled` says whether the resources hold the tools.
pub open spec fn located(resources: Seq<char>, root: Seq<char>, bundled: bool) -> PathsModel {
    if bundled {
        PathsModel {
            tools: join_path(resources, "native_tools"@),
            workspace: join_path(resources, "opencode_workspace"@),
        }
    } else {
        PathsModel {
            tools: join_path(root, "native_tools"@),
            workspace: join_path(root, "opencode_workspace"@),
        }
    }
}

/// Where a binary named `name` is run from: the tools directory when it
/// holds it, else the bare name, which the search path resolves.
pub open spec fn binary_location(tools: Seq<char>, name: Seq<char>, found: bool) -> Seq<char> {
    if found {
        join_path(tools, name)
    } else {
        name
    }
}

/// The search path that the agent runs with.
pub open spec fn search_path(tools: Seq<char>, inherited: Seq<char>, tools_exist: bool) -> Seq<char> {
    if tools_exist {
        tools + ":"@ + inherited
    } else {
        inherited
    }
}

/// The directories the agent works with.
pub struct AppPaths {
    pub native_tools_path: String,
    pub opencode_workspace_path: String,
}

impl View for AppPaths {
    type V = PathsModel;

    open spec fn view(&self) -> PathsModel {
        PathsModel { tools: self.native_tools_path@, workspace: self.opencode_workspace_path@ }
    }
}

impl AppPaths {
    /// Locates the tools: bundled under `resource_dir` when it has a
    /// `native_tools` directory, else under `project_root`.
    pub fn new(resource_dir: &str, project_root: &str) -> (r: AppPaths)
        ensures
            r@ == located(resource_dir@, project_root@, true) || r@ == located(
                resource_dir@,
                project_root@,
                false,
            ),
    {
        let bundled_tools = join(resource_dir, "native_tools");
        let bundled = path_exists(bundled_tools.as_str());
        AppPaths::locate(resource_dir, project_root, bundled)
    }

    /// The paths when the resources hold the tools or, as `bundled` says,
    /// do not.
    pub fn locate(resource_dir: &str, project_root: &str, bundled: bool) -> (r: AppPaths)
        ensures
            r@ == located(resource_dir@, project_root@, bundled),
    {
        let base = if bundled {
            resource_dir
        } else {
            project_root
        };
        AppPaths {
            native_tools_path: join(base, "native_tools"),
            opencode_workspace_path: join(base, "opencode_workspace"),
        }
    }

    /// The search path `inherited`, behind the tools directory when that
    /// exists.
    pub fn get_path_env(&self, inherited: &str) -> (r: String)
        ensures
            r@ == search_path(self.native_tools_path@, inherited@, true) || r@ == search_path(
                self.native_tools_path@,
                inherited@,
                false,
            ),
    {
        let exists = path_exists(self.native_tools_path.as_str());
        self.path_env_with(inherited, exists)
    }

    /// The search path `inherited`, behind the tools directory when
    /// `tools_exist`.
    pub fn path_env_with(&self, inherited: &str, tools_exist: bool) -> (r: String)
        ensures
            r@ == search_path(self.native_tools_path@, inherited@, tools_exist),
    {
        if tools_exist {
            self.native_tools_path.clone().concat(":").concat(inherited)
        } else {
            inherited.to_owned()
        }
    }

    /// Where to run the binary `name` from.
    pub fn get_binary_path(&self, name: &str) -> (r: String)
        ensures
            r@ == binary_location(self.native_tools_path@, name@, true) || r@ == binary_location(
                self.native_tools_path@,
                name@,
                false,
            ),
    {
        let candidate = join(self.native_tools_path.as_str(), name);
        let found = path_exists(candidate.as_str());
        self.binary_path_with(name, found)
    }

    /// Where to run the binary `name` from, when the tools directory holds
    /// it or, as `found` says, does not.
    pub fn binary_path_with(&self, name: &str, found: bool) -> (r: String)
        ensures
            r@ == binary_location(self.native_tools_path@, name@, found),
    {
        if found {
            join(self.native_tools_path.as_str(), name)
        } else {
            name.to_owned()
        }
    }

    /// Where the browser-automation tool keeps its browsers.
    pub fn get_playwright_browsers_path(&self) -> (r: String)
        ensures
            r@ == join_path(self.native_tools_path@, "playwright_browsers"@),
    {
        join(self.native_tools_path.as_str(), "playwright_browsers")
    }
}

/// Locating the tools again on an unchanged filesystem, where every probe
/// answers as before, gives the same tools, workspace and binary paths.
pub proof fn relocating_gives_the_same_paths(
    resources: Seq<char>,
    root: Seq<char>,
    bundled: bool,
    name: Seq<char>,
    found: bool,
    first: PathsModel,
    second: PathsModel,
)
    requires
        first == located(resources, root, bundled),
        second == located(resources, root, bundled),
    ensures
        first.tools == second.tools,
        first.workspace == second.workspace,
        binary_location(first.tools, name, found) == binary_location(second.tools, name, found),
{
}

} // verus!
