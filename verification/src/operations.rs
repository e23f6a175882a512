//! Component installation, removal, update, and backend runtime builds: the decisions.
//!
//! Commands describe the work to do as plain data; the filesystem, network, and process steps
//! are carried out around this library.

use vstd::prelude::*;
use crate::chars::{chars_of, slice_vec, str_eq, str_starts_with, string_of};
use crate::environment::Environment;
use crate::paths::{join_path, joined};

verus! {

/// The command whose usage text an operation outcome shows.
#[derive(Clone, Copy, PartialEq, Eq, Structural)]
pub enum OperationKind {
    BackendInstall,
    BackendBuild,
    BackendUninstall,
    BackendUpdate,
    CloudLocalInstall,
    CloudLocalUninstall,
    CloudLocalUpdate,
    ManagerInstall,
    ManagerUninstall,
    ManagerUpdate,
}

/// Final result of an operation: usage text to show, if it refused to run, and the exit status.
#[derive(Clone, Copy, PartialEq, Eq, Structural)]
pub struct OperationOutcome {
    pub usage: Option<OperationKind>,
    pub exit_code: i32,
}

impl OperationOutcome {
    /// Exit status for this outcome.
    pub fn exit_code(&self) -> (r: i32)
        ensures
            r == self.exit_code,
    {
        self.exit_code
    }
}

/// A finished operation with nothing left to render.
pub fn success() -> (r: OperationOutcome)
    ensures
        r.usage is None,
        r.exit_code == 0,
{
    OperationOutcome { usage: None, exit_code: 0 }
}

/// An operation that shows its usage text and exits with the given status.
pub fn usage(kind: OperationKind, exit_code: i32) -> (r: OperationOutcome)
    ensures
        r.usage == Some(kind),
        r.exit_code == exit_code,
{
    OperationOutcome { usage: Some(kind), exit_code }
}

/// How a component is synchronized and recognized as completely installed.
#[derive(Clone, Copy, PartialEq, Eq, Structural)]
pub enum ComponentKind {
    /// The multi-project engine, one `uv` project per engine project.
    Engine,
    BackendPython,
    CloudPython,
    /// Extracted files only, no synchronization.
    Static,
    Manager,
}

/// An installable component.
#[derive(Clone, Copy)]
pub struct Component {
    pub name: &'static str,
    /// GitHub `owner/name` of the component's repository.
    pub repository: &'static str,
    /// The metadata key recording the installed version.
    pub binding_key: &'static str,
    pub kind: ComponentKind,
}

impl View for Component {
    type V = (Seq<char>, Seq<char>, Seq<char>, ComponentKind);

    open spec fn view(&self) -> (Seq<char>, Seq<char>, Seq<char>, ComponentKind) {
        (self.name@, self.repository@, self.binding_key@, self.kind)
    }
}

/// The views of a list of components.
pub open spec fn component_views(cs: Seq<Component>) -> Seq<(Seq<char>, Seq<char>, Seq<char>, ComponentKind)> {
    cs.map_values(|c: Component| c@)
}

/// The first component of `cs` named `name`.
pub open spec fn first_named(cs: Seq<Component>, name: Seq<char>) -> Option<int>
    decreases cs.len(),
{
    if cs.len() == 0 {
        None
    } else {
        match first_named(cs.drop_last(), name) {
            Some(i) => Some(i),
            None => if cs.last().name@ == name {
                Some(cs.len() - 1)
            } else {
                None
            },
        }
    }
}

proof fn lemma_first_named_prefix(cs: Seq<Component>, name: Seq<char>, n: int)
    requires
        0 <= n <= cs.len(),
        first_named(cs.take(n), name) is Some,
    ensures
        first_named(cs, name) == first_named(cs.take(n), name),
    decreases cs.len(),
{
    if n < cs.len() {
        assert(cs.drop_last().take(n) =~= cs.take(n));
        lemma_first_named_prefix(cs.drop_last(), name, n);
    } else {
        assert(cs.take(n) =~= cs);
    }
}

/// The first component view named `name`.
pub open spec fn first_named_view(cs: Seq<(Seq<char>, Seq<char>, Seq<char>, ComponentKind)>, name: Seq<char>) -> Option<(Seq<char>, Seq<char>, Seq<char>, ComponentKind)>
    decreases cs.len(),
{
    if cs.len() == 0 {
        None
    } else {
        match first_named_view(cs.drop_last(), name) {
            Some(c) => Some(c),
            None => if cs.last().0 == name {
                Some(cs.last())
            } else {
                None
            },
        }
    }
}

/// Looking a component up by name agrees with looking its view up.
pub proof fn lemma_first_named_view(cs: Seq<Component>, name: Seq<char>)
    ensures
        match first_named(cs, name) {
            Some(i) => 0 <= i < cs.len() && first_named_view(component_views(cs), name) == Some(cs[i]@),
            None => first_named_view(component_views(cs), name) is None,
        },
    decreases cs.len(),
{
    if cs.len() > 0 {
        lemma_first_named_view(cs.drop_last(), name);
        assert(component_views(cs.drop_last()) =~= component_views(cs).drop_last());
        assert(component_views(cs).last() == cs.last()@);
    }
}

/// Looks up a component by name.
pub fn find_component(components: &[Component], name: &str) -> (r: Result<Component, String>)
    ensures
        match first_named(components@, name@) {
            Some(i) => r matches Ok(c) && c@ == components@[i]@,
            None => r matches Err(m) && m@ == "unknown component: "@ + name@,
        },
{
    let mut i: usize = 0;
    while i < components.len()
        invariant
            i <= components@.len(),
            first_named(components@.take(i as int), name@) is None,
        decreases components@.len() - i,
    {
        assert(components@.take(i + 1).drop_last() =~= components@.take(i as int));
        if str_eq(components[i].name, name) {
            proof {
                lemma_first_named_prefix(components@, name@, i + 1);
            }
            return Ok(components[i]);
        }
        i = i + 1;
    }
    assert(components@.take(components@.len() as int) =~= components@);
    let mut m = "unknown component: ".to_owned();
    m.append(name);
    Err(m)
}

/// Which version of a component to install.
#[derive(PartialEq, Eq)]
pub enum VersionRequest {
    /// The latest stable release, resolved from the remote tags.
    Latest,
    /// A release tag.
    Release(String),
    /// A checkout of a branch.
    Branch(String),
}

impl View for VersionRequest {
    type V = Option<(bool, Seq<char>)>;

    /// `None` for the latest release, `(false, tag)` for a release, `(true, branch)` for a branch.
    open spec fn view(&self) -> Option<(bool, Seq<char>)> {
        match self {
            VersionRequest::Latest => None,
            VersionRequest::Release(t) => Some((false, t@)),
            VersionRequest::Branch(b) => Some((true, b@)),
        }
    }
}

/// The request an explicitly given version makes: an empty or absent version means the latest
/// release, `branch:<name>` a branch, anything else a release tag.
pub open spec fn version_request(version: Option<Seq<char>>) -> Result<Option<(bool, Seq<char>)>, Seq<char>> {
    match version {
        None => Ok(None),
        Some(v) => if v.len() == 0 {
            Ok(None)
        } else if v.len() >= 7 && v.take(7) == "branch:"@ {
            if v.len() == 7 {
                Err("invalid branch version format: branch: (expected branch:<branch>)"@)
            } else {
                Ok(Some((true, v.skip(7))))
            }
        } else {
            Ok(Some((false, v)))
        },
    }
}

/// Interprets an explicitly requested version, which may name a branch instead of a release.
///
/// The `update` commands deliberately never come here: update means "move to the latest
/// release", so it never accepts or preserves a branch.
pub fn install_version(version: Option<&str>) -> (r: Result<VersionRequest, String>)
    ensures
        match r {
            Ok(q) => version_request(crate::chars::opt_view(version)) == Ok::<
                Option<(bool, Seq<char>)>,
                Seq<char>,
            >(q@),
            Err(m) => version_request(crate::chars::opt_view(version)) == Err::<
                Option<(bool, Seq<char>)>,
                Seq<char>,
            >(m@),
        },
{
    let v = match version {
        None => return Ok(VersionRequest::Latest),
        Some(v) => v,
    };
    let chars = chars_of(v);
    if chars.len() == 0 {
        return Ok(VersionRequest::Latest);
    }
    if str_starts_with(v, "branch:") {
        proof {
            reveal_strlit("branch:");
        }
        if chars.len() == 7 {
            return Err("invalid branch version format: branch: (expected branch:<branch>)".to_owned());
        }
        let branch = slice_vec(&chars, 7, chars.len());
        assert(branch@ =~= v@.skip(7));
        Ok(VersionRequest::Branch(string_of(&branch)))
    } else {
        proof {
            reveal_strlit("branch:");
        }
        Ok(VersionRequest::Release(v.to_owned()))
    }
}

/// Whether a bound version names a branch checkout.
pub open spec fn is_branch_version(version: Seq<char>) -> bool {
    version.len() >= 7 && version.take(7) == "branch:"@
}

/// Where a component version lives: a branch checkout inside the environment, a release in the
/// shared installation root.
pub open spec fn component_dir(root: Seq<char>, install_root: Seq<char>, name: Seq<char>, version: Seq<char>) -> Seq<char> {
    if is_branch_version(version) {
        joined(root, name)
    } else {
        joined(install_root, name + seq!['-'] + version)
    }
}

/// Locates the directory of `name` at `version` for an environment.
pub fn component_directory(environment: &Environment, name: &str, version: &str) -> (r: String)
    ensures
        r@ == component_dir(environment.root@, environment.install_root@, name@, version@),
{
    proof {
        reveal_strlit("branch:");
    }
    if str_starts_with(version, "branch:") {
        join_path(environment.root.as_str(), name)
    } else {
        let mut dir = name.to_owned();
        dir.append("-");
        dir.append(version);
        proof {
            reveal_strlit("-");
        }
        assert(dir@ =~= name@ + seq!['-'] + version@);
        join_path(environment.install_root.as_str(), dir.as_str())
    }
}

} // verus!

verus! {

/// One component installation to carry out.
pub struct InstallRequest {
    pub component: Component,
    pub version: VersionRequest,
    /// Skip building the engine's `sse_runtime` image.
    pub skip_sse_build: bool,
}

/// What an operation command does once its arguments are understood.
pub enum OperationPlan {
    /// Nothing to do but render this outcome.
    Done(OperationOutcome),
    /// Install each request in order, stopping at the first failure.
    Install(Vec<InstallRequest>),
    /// Remove the installation of a component version.
    Uninstall(Component, String),
    /// Build the `sse_runtime` image of the engine installed in this directory.
    Build(String),
}

/// The plan is the usage outcome of `kind` with `code`.
pub open spec fn is_usage_operation(plan: OperationPlan, kind: OperationKind, code: i32) -> bool {
    plan matches OperationPlan::Done(o) && o.usage == Some(kind) && o.exit_code == code
}

/// The engine's projects, each synchronized on its own.
pub open spec fn engine_projects() -> Seq<Seq<char>> {
    seq!["core"@, "combiner"@, "estimator"@, "mitigator"@]
}

/// The engine's projects.
pub fn engine_project_names() -> (r: Vec<&'static str>)
    ensures
        r@.map_values(|s: &str| s@) == engine_projects(),
{
    let r = vec!["core", "combiner", "estimator", "mitigator"];
    assert(r@.map_values(|s: &str| s@) =~= engine_projects());
    r
}

/// The directories whose existence marks a finished installation of `kind` at `target`.
///
/// An interrupted install leaves a downloaded but unsynchronized tree behind, so the marker is
/// the product of the synchronization step: the virtual environment `uv sync` creates, one per
/// project for the multi-project engine. A static component runs no synchronization step, so
/// extracting it is all there is to complete.
pub open spec fn completion_marker_dirs(kind: ComponentKind, target: Seq<char>) -> Seq<Seq<char>> {
    match kind {
        ComponentKind::Engine => engine_projects().map_values(
            |p: Seq<char>| joined(joined(target, p), ".venv"@),
        ),
        ComponentKind::Static => seq![target],
        _ => seq![joined(target, ".venv"@)],
    }
}

/// Lists the directories that must all exist for an installation to be complete.
pub fn component_complete(kind: ComponentKind, target: &str) -> (r: Vec<String>)
    ensures
        r@.map_values(|s: String| s@) == completion_marker_dirs(kind, target@),
{
    let mut r: Vec<String> = Vec::new();
    match kind {
        ComponentKind::Engine => {
            let projects = engine_project_names();
            let mut i: usize = 0;
            while i < projects.len()
                invariant
                    i <= projects@.len(),
                    projects@.map_values(|s: &str| s@) == engine_projects(),
                    r@.map_values(|s: String| s@) == engine_projects().take(i as int).map_values(
                        |p: Seq<char>| joined(joined(target@, p), ".venv"@),
                    ),
                decreases projects@.len() - i,
            {
                let ghost before = r@.map_values(|s: String| s@);
                let dir = join_path(target, projects[i]);
                r.push(join_path(dir.as_str(), ".venv"));
                assert(projects@.map_values(|s: &str| s@)[i as int] == projects@[i as int]@);
                assert(engine_projects()[i as int] == projects@[i as int]@);
                assert(engine_projects().take(i + 1).map_values(
                    |p: Seq<char>| joined(joined(target@, p), ".venv"@),
                ) =~= engine_projects().take(i as int).map_values(
                    |p: Seq<char>| joined(joined(target@, p), ".venv"@),
                ).push(joined(joined(target@, engine_projects()[i as int]), ".venv"@)));
                assert(r@.map_values(|s: String| s@) =~= engine_projects().take(i + 1).map_values(
                    |p: Seq<char>| joined(joined(target@, p), ".venv"@),
                ));
                i = i + 1;
            }
            assert(engine_projects().take(4) =~= engine_projects());
        },
        ComponentKind::Static => {
            r.push(target.to_owned());
            assert(r@.map_values(|s: String| s@) =~= seq![target@]);
        },
        _ => {
            r.push(join_path(target, ".venv"));
            assert(r@.map_values(|s: String| s@) =~= seq![joined(target@, ".venv"@)]);
        },
    }
    r
}

} // verus!

verus! {

impl View for InstallRequest {
    type V = ((Seq<char>, Seq<char>, Seq<char>, ComponentKind), Option<(bool, Seq<char>)>, bool);

    open spec fn view(&self) -> ((Seq<char>, Seq<char>, Seq<char>, ComponentKind), Option<(bool, Seq<char>)>, bool) {
        (self.component@, self.version@, self.skip_sse_build)
    }
}

/// The version and `--skip-sse-build` flag that install arguments give, or how they are refused:
/// `Err(None)` for a usage error, `Err(Some(message))` for an error. Only the first positional
/// argument is a version (an empty one counts as none); `--skip-sse-build` is an option only
/// where `allow_skip` says so; any other word starting with `-` is an unknown option.
pub open spec fn install_options(args: Seq<String>, allow_skip: bool) -> Result<(Seq<char>, bool), Option<Seq<char>>>
    decreases args.len(),
{
    if args.len() == 0 {
        Ok((seq![], false))
    } else {
        match install_options(args.drop_last(), allow_skip) {
            Err(e) => Err(e),
            Ok((version, skip)) => {
                let arg = args.last()@;
                if allow_skip && arg == "--skip-sse-build"@ {
                    Ok((version, true))
                } else if arg.len() > 0 && arg[0] == '-' {
                    Err(Some("unknown install option: "@ + arg))
                } else if version.len() > 0 {
                    Err(None)
                } else {
                    Ok((arg, skip))
                }
            },
        }
    }
}

/// Parses the install arguments from position `start` on.
pub fn install_options_from(args: &Vec<String>, start: usize, allow_skip: bool) -> (r: Result<(String, bool), Option<String>>)
    requires
        start <= args@.len(),
    ensures
        match install_options(args@.skip(start as int), allow_skip) {
            Ok((v, s)) => r matches Ok((rv, rs)) && rv@ == v && rs == s,
            Err(None) => r matches Err(None),
            Err(Some(m)) => r matches Err(Some(rm)) && rm@ == m,
        },
{
    let mut version = String::new();
    let mut skip = false;
    let mut i: usize = start;
    assert(args@.skip(start as int).take(0) =~= Seq::<String>::empty());
    while i < args.len()
        invariant
            start <= i <= args@.len(),
            install_options(args@.skip(start as int).take(i - start), allow_skip) == Ok::<
                (Seq<char>, bool),
                Option<Seq<char>>,
            >((version@, skip)),
        decreases args@.len() - i,
    {
        let arg = args[i].as_str();
        let ghost prefix = args@.skip(start as int).take(i + 1 - start);
        assert(prefix.drop_last() =~= args@.skip(start as int).take(i - start));
        assert(prefix.last() == args@[i as int]);
        if allow_skip && crate::chars::str_eq(arg, "--skip-sse-build") {
            skip = true;
        } else {
            let chars = chars_of(arg);
            if chars.len() > 0 && chars[0] == '-' {
                let mut m = "unknown install option: ".to_owned();
                m.append(arg);
                proof {
                    lemma_install_options_error(args@.skip(start as int), allow_skip, i + 1 - start);
                }
                return Err(Some(m));
            } else if version.as_str().unicode_len() > 0 {
                proof {
                    lemma_install_options_error(args@.skip(start as int), allow_skip, i + 1 - start);
                }
                return Err(None);
            } else {
                version = arg.to_owned();
            }
        }
        i = i + 1;
    }
    assert(args@.skip(start as int).take(args@.len() - start) =~= args@.skip(start as int));
    Ok((version, skip))
}

/// A refusal of the first arguments is the refusal of all of them.
proof fn lemma_install_options_error(args: Seq<String>, allow_skip: bool, n: int)
    requires
        0 <= n <= args.len(),
        install_options(args.take(n), allow_skip) is Err,
    ensures
        install_options(args, allow_skip) == install_options(args.take(n), allow_skip),
    decreases args.len(),
{
    if n < args.len() {
        assert(args.drop_last().take(n) =~= args.take(n));
        lemma_install_options_error(args.drop_last(), allow_skip, n);
    } else {
        assert(args.take(n) =~= args);
    }
}

/// Builds the request to install one component at an explicitly given version.
pub fn install_request(component: Component, version: &str, skip_sse_build: bool) -> (r: Result<InstallRequest, String>)
    ensures
        match version_request(Some(version@)) {
            Ok(q) => r matches Ok(req) && req@ == (component@, q, skip_sse_build),
            Err(m) => r matches Err(e) && e@ == m,
        },
{
    match install_version(Some(version)) {
        Ok(q) => Ok(InstallRequest { component, version: q, skip_sse_build }),
        Err(e) => Err(e),
    }
}

/// Requests installing the latest release of every component, in order.
pub fn install_all_latest(components: &Vec<Component>, skip_sse_build: bool) -> (r: Vec<InstallRequest>)
    ensures
        r@.len() == components@.len(),
        forall|i: int|
            0 <= i < r@.len() ==> (#[trigger] r@[i])@ == (components@[i]@, None::<(bool, Seq<char>)>, skip_sse_build),
{
    let mut r: Vec<InstallRequest> = Vec::new();
    let mut i: usize = 0;
    while i < components.len()
        invariant
            i <= components@.len(),
            r@.len() == i,
            forall|j: int|
                0 <= j < i ==> (#[trigger] r@[j])@ == (components@[j]@, None::<(bool, Seq<char>)>, skip_sse_build),
        decreases components@.len() - i,
    {
        r.push(InstallRequest { component: components[i], version: VersionRequest::Latest, skip_sse_build });
        i = i + 1;
    }
    r
}

} // verus!
