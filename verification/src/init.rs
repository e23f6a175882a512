//! `oqtopus init`: which environment to create, from which template, and what to write.
//!
//! An invocation is `init <env_name> --template <template> [--branch <branch>]`. The library
//! decides the request (`init_plan`) and, once the caller knows its working directory, data
//! directory and the time, the layout of the new environment (`init_layout`). Fetching the
//! template archive and writing files are left to the caller.

use vstd::prelude::*;
use crate::args::{asks_help, is_help};
use crate::chars::{chars_of, str_eq, string_of};
use crate::paths::{join_path, joined};

verus! {

/// What `init` renders.
pub enum InitOutput {
    Usage,
    /// An environment of `template` was created at `root`.
    Created { template: String, root: String },
}

/// Final result of `init`.
pub struct InitOutcome {
    pub output: InitOutput,
    pub exit_code: i32,
}

impl InitOutcome {
    /// Exit status for this outcome.
    pub fn exit_code(&self) -> (r: i32)
        ensures
            r == self.exit_code,
    {
        self.exit_code
    }
}

/// A character that may start an environment name: a lowercase ASCII letter or a digit.
pub open spec fn is_name_lead(c: char) -> bool {
    ('a' <= c <= 'z') || ('0' <= c <= '9')
}

/// A character that may follow in an environment name: also `.`, `_` and `-`.
pub open spec fn is_name_char(c: char) -> bool {
    is_name_lead(c) || c == '.' || c == '_' || c == '-'
}

/// An environment name matches `^[a-z0-9][a-z0-9_.-]*$`.
pub open spec fn valid_env_name(name: Seq<char>) -> bool {
    &&& name.len() > 0
    &&& is_name_lead(name[0])
    &&& forall|i: int| 1 <= i < name.len() ==> is_name_char(#[trigger] name[i])
}

/// The templates an environment can be created from.
pub open spec fn is_template(template: Seq<char>) -> bool {
    template == "backend"@ || template == "cloud-local"@ || template == "manager"@
}

/// The source archive of a branch of the repository that holds the templates.
pub open spec fn template_archive_url(branch: Seq<char>) -> Seq<char> {
    "https://github.com/oqtopus-team/oqtopus-cli/archive/refs/heads/"@ + branch + ".tar.gz"@
}

/// The directory of `template` in that archive, below its top-level directory.
pub open spec fn template_directory(template: Seq<char>) -> Seq<char> {
    "templates/"@ + template
}

/// The refusal of a name that does not match the environment name pattern.
pub open spec fn invalid_name_message(name: Seq<char>) -> Seq<char> {
    "invalid env_name: "@ + name
        + ". Use lowercase letters, digits, '.', '_', or '-', and start with a lowercase letter or digit."@
}

/// The refusal of an unknown template.
pub open spec fn unknown_template_message(template: Seq<char>) -> Seq<char> {
    "unknown template: "@ + template + ". Expected one of backend, cloud-local, manager."@
}

/// The arguments have the shape `<env_name> --template <template> [--branch <branch>]`, with a
/// non-empty branch.
pub open spec fn init_shaped(args: Seq<String>) -> bool {
    &&& args.len() == 3 || (args.len() == 5 && args[3]@ == "--branch"@ && args[4]@.len() > 0)
    &&& args[1]@ == "--template"@
}

/// The branch the template is fetched from: the one given with `--branch`, else `main`.
pub open spec fn init_branch(args: Seq<String>) -> Seq<char> {
    if args.len() == 5 {
        args[4]@
    } else {
        "main"@
    }
}

/// An environment to create.
pub struct InitRequest {
    /// The environment name, also the name of its directory.
    pub name: String,
    pub template: String,
    pub branch: String,
    /// The archive to fetch the template from.
    pub archive_url: String,
    /// The template's directory inside the archive, below its top-level directory.
    pub template_dir: String,
}

/// What `init` does once its arguments are understood.
pub enum InitPlan {
    /// Nothing to create: the outcome is known.
    Done(InitOutcome),
    Create(InitRequest),
}

/// The decision of `init` for `args` (the words after `init`).
pub open spec fn init_decided(args: Seq<String>, r: Result<InitPlan, String>) -> bool {
    if asks_help(args) {
        r matches Ok(InitPlan::Done(o)) && o.output is Usage && o.exit_code == 0
    } else if !init_shaped(args) {
        r matches Ok(InitPlan::Done(o)) && o.output is Usage && o.exit_code == 1
    } else if !valid_env_name(args[0]@) {
        r matches Err(m) && m@ == invalid_name_message(args[0]@)
    } else if !is_template(args[2]@) {
        r matches Err(m) && m@ == unknown_template_message(args[2]@)
    } else {
        r matches Ok(InitPlan::Create(q)) && q.name@ == args[0]@ && q.template@ == args[2]@
            && q.branch@ == init_branch(args) && q.archive_url@ == template_archive_url(
            init_branch(args),
        ) && q.template_dir@ == template_directory(args[2]@)
    }
}

fn name_lead(c: char) -> (r: bool)
    ensures
        r == is_name_lead(c),
{
    ('a' <= c && c <= 'z') || ('0' <= c && c <= '9')
}

fn name_char(c: char) -> (r: bool)
    ensures
        r == is_name_char(c),
{
    name_lead(c) || c == '.' || c == '_' || c == '-'
}

/// Whether `name` matches the environment name pattern.
pub fn is_valid_env_name(name: &str) -> (r: bool)
    ensures
        r == valid_env_name(name@),
{
    let v = chars_of(name);
    if v.len() == 0 || !name_lead(v[0]) {
        return false;
    }
    let mut i: usize = 1;
    while i < v.len()
        invariant
            1 <= i <= v.len(),
            v@ == name@,
            is_name_lead(v@[0]),
            forall|j: int| 1 <= j < i ==> is_name_char(#[trigger] v@[j]),
        decreases v.len() - i,
    {
        if !name_char(v[i]) {
            return false;
        }
        i = i + 1;
    }
    true
}

fn usage_plan(code: i32) -> (r: InitPlan)
    ensures
        r matches InitPlan::Done(o) && o.output is Usage && o.exit_code == code,
{
    InitPlan::Done(InitOutcome { output: InitOutput::Usage, exit_code: code })
}

/// Decides `init`: usage for a help request or a malformed invocation; a refusal of an invalid
/// environment name or an unknown template; otherwise the environment to create.
pub fn init_plan(args: &Vec<String>) -> (r: Result<InitPlan, String>)
    ensures
        init_decided(args@, r),
{
    if is_help(args) {
        return Ok(usage_plan(0));
    }
    let shaped = (args.len() == 3 || (args.len() == 5 && str_eq(args[3].as_str(), "--branch")
        && args[4].as_str().unicode_len() > 0)) && str_eq(args[1].as_str(), "--template");
    if !shaped {
        return Ok(usage_plan(1));
    }
    let name = args[0].as_str();
    let template = args[2].as_str();
    if !is_valid_env_name(name) {
        let mut m = "invalid env_name: ".to_owned();
        m.append(name);
        m.append(
            ". Use lowercase letters, digits, '.', '_', or '-', and start with a lowercase letter or digit.",
        );
        return Err(m);
    }
    if !(str_eq(template, "backend") || str_eq(template, "cloud-local") || str_eq(template, "manager")) {
        let mut m = "unknown template: ".to_owned();
        m.append(template);
        m.append(". Expected one of backend, cloud-local, manager.");
        return Err(m);
    }
    let branch = if args.len() == 5 {
        args[4].clone()
    } else {
        "main".to_owned()
    };
    let mut archive_url = "https://github.com/oqtopus-team/oqtopus-cli/archive/refs/heads/".to_owned();
    archive_url.append(branch.as_str());
    archive_url.append(".tar.gz");
    let mut template_dir = "templates/".to_owned();
    template_dir.append(template);
    Ok(
        InitPlan::Create(
            InitRequest {
                name: name.to_owned(),
                template: template.to_owned(),
                branch,
                archive_url,
                template_dir,
            },
        ),
    )
}

/// The `.metadata` of a new environment.
pub open spec fn init_metadata(
    template: Seq<char>,
    install_root: Seq<char>,
    name: Seq<char>,
    root: Seq<char>,
    created_at: Seq<char>,
) -> Seq<char> {
    "template="@ + template + "\ninstall_root="@ + install_root + "\nenvironment_name="@ + name
        + "\nenvironment_root="@ + root + "\ncreated_at="@ + created_at + "\n"@
}

/// Where releases for environments of `template` are installed, below the data directory.
pub open spec fn template_install_root(data_home: Seq<char>, template: Seq<char>) -> Seq<char> {
    joined(data_home, "oqtopus/"@ + template + "/releases"@)
}

/// The refusal to create an environment over an existing path.
pub open spec fn exists_message(root: Seq<char>) -> Seq<char> {
    root + " already exists."@
}

/// What a new environment consists of, besides the template's files.
pub struct InitLayout {
    /// The environment directory.
    pub root: String,
    /// The shared directory its releases are installed into.
    pub install_root: String,
    /// The text of its `.metadata`.
    pub metadata: String,
    /// Directories created empty.
    pub directories: Vec<String>,
    /// What `init` reports once the environment exists.
    pub outcome: InitOutcome,
}

/// Lays out the environment `request` names in the working directory `cwd`: refused when that
/// path exists (`root_exists`); otherwise its directory, the install root below the data
/// directory `data_home`, its `.metadata` stamped with `created_at`, the empty `logs` and `pids`
/// directories, and the report of its creation.
pub fn init_layout(request: &InitRequest, cwd: &str, data_home: &str, created_at: &str, root_exists: bool) -> (r: Result<InitLayout, String>)
    ensures
        root_exists ==> (r matches Err(m) && m@ == exists_message(joined(cwd@, request.name@))),
        !root_exists ==> (r matches Ok(l) && {
            let root = joined(cwd@, request.name@);
            let install_root = template_install_root(data_home@, request.template@);
            &&& l.root@ == root
            &&& l.install_root@ == install_root
            &&& l.metadata@ == init_metadata(request.template@, install_root, request.name@, root, created_at@)
            &&& l.directories@.map_values(|d: String| d@) == seq![joined(root, "logs"@), joined(root, "pids"@)]
            &&& l.outcome.exit_code == 0
            &&& l.outcome.output matches InitOutput::Created { template, root: created } && template@
                == request.template@ && created@ == root
        }),
{
    let root = join_path(cwd, request.name.as_str());
    if root_exists {
        let mut m = root;
        m.append(" already exists.");
        return Err(m);
    }
    let mut rel = "oqtopus/".to_owned();
    rel.append(request.template.as_str());
    rel.append("/releases");
    let install_root = join_path(data_home, rel.as_str());
    let mut metadata = "template=".to_owned();
    metadata.append(request.template.as_str());
    metadata.append("\ninstall_root=");
    metadata.append(install_root.as_str());
    metadata.append("\nenvironment_name=");
    metadata.append(request.name.as_str());
    metadata.append("\nenvironment_root=");
    metadata.append(root.as_str());
    metadata.append("\ncreated_at=");
    metadata.append(created_at);
    metadata.append("\n");
    let directories = vec![join_path(root.as_str(), "logs"), join_path(root.as_str(), "pids")];
    proof {
        assert(directories@.map_values(|d: String| d@) =~= seq![
            joined(root@, "logs"@),
            joined(root@, "pids"@),
        ]);
    }
    let outcome = InitOutcome {
        output: InitOutput::Created { template: request.template.clone(), root: root.clone() },
        exit_code: 0,
    };
    Ok(InitLayout { root, install_root, metadata, directories, outcome })
}

/// The data directory: `XDG_DATA_HOME` when set and not empty, else `.local/share` in `HOME`.
pub open spec fn data_directory(xdg_data_home: Option<Seq<char>>, home: Option<Seq<char>>) -> Result<Seq<char>, Seq<char>> {
    match xdg_data_home {
        Some(x) if x.len() > 0 => Ok(x),
        _ => match home {
            Some(h) if h.len() > 0 => Ok(joined(h, ".local/share"@)),
            _ => Err("HOME is not set; cannot locate the data directory."@),
        },
    }
}

/// Locates the data directory from the values of `XDG_DATA_HOME` and `HOME`.
pub fn data_home(xdg_data_home: Option<&str>, home: Option<&str>) -> (r: Result<String, String>)
    ensures
        match r {
            Ok(d) => data_directory(crate::chars::opt_view(xdg_data_home), crate::chars::opt_view(home))
                == Ok::<Seq<char>, Seq<char>>(d@),
            Err(m) => data_directory(crate::chars::opt_view(xdg_data_home), crate::chars::opt_view(home))
                == Err::<Seq<char>, Seq<char>>(m@),
        },
{
    if let Some(x) = xdg_data_home {
        if x.unicode_len() > 0 {
            return Ok(x.to_owned());
        }
    }
    match home {
        Some(h) if h.unicode_len() > 0 => Ok(join_path(h, ".local/share")),
        _ => Err("HOME is not set; cannot locate the data directory.".to_owned()),
    }
}

/// The first line of `text`: everything before its first line feed.
pub open spec fn first_line(text: Seq<char>) -> Seq<char>
    decreases text.len(),
{
    if text.len() == 0 || text[0] == '\n' {
        seq![]
    } else {
        seq![text[0]] + first_line(text.drop_first())
    }
}

/// The creation time a clock prints: its first line, when not empty.
pub fn timestamp_of(output: &str) -> (r: Result<String, String>)
    ensures
        first_line(output@).len() > 0 ==> (r matches Ok(t) && t@ == first_line(output@)),
        first_line(output@).len() == 0 ==> (r matches Err(m) && m@ == "failed to read the current time."@),
{
    let v = chars_of(output);
    let mut out: Vec<char> = Vec::new();
    let mut i: usize = 0;
    assert(v@.skip(0) =~= v@);
    assert(out@ + first_line(v@.skip(0)) =~= first_line(v@));
    while i < v.len() && v[i] != '\n'
        invariant
            i <= v.len(),
            v@ == output@,
            first_line(v@) == out@ + first_line(v@.skip(i as int)),
        decreases v.len() - i,
    {
        assert(v@.skip(i as int).drop_first() =~= v@.skip(i + 1));
        assert(v@.skip(i as int)[0] == v@[i as int]);
        out.push(v[i]);
        i = i + 1;
        assert(out@ + first_line(v@.skip(i as int)) =~= out@.drop_last() + (seq![v@[i - 1]]
            + first_line(v@.skip(i as int))));
    }
    if i < v.len() {
        assert(v@.skip(i as int)[0] == '\n');
    } else {
        assert(v@.skip(i as int).len() == 0);
    }
    assert(first_line(v@) =~= out@);
    if out.len() == 0 {
        Err("failed to read the current time.".to_owned())
    } else {
        Ok(string_of(&out))
    }
}

/// The refusal when the downloaded archive lacks the template.
pub open spec fn missing_template_message(template: Seq<char>) -> Seq<char> {
    "the "@ + template + " template was not found in the downloaded archive."@
}

/// The refusal when the template archive cannot be fetched.
pub open spec fn download_failed_message(template: Seq<char>, url: Seq<char>) -> Seq<char> {
    "failed to download the "@ + template + " template from "@ + url + "."@
}

/// Reports that the template archive of `request` could not be fetched.
pub fn download_failed(request: &InitRequest) -> (r: String)
    ensures
        r@ == download_failed_message(request.template@, request.archive_url@),
{
    let mut m = "failed to download the ".to_owned();
    m.append(request.template.as_str());
    m.append(" template from ");
    m.append(request.archive_url.as_str());
    m.append(".");
    m
}

/// Reports that the fetched archive lacks the template of `request`.
pub fn missing_template(request: &InitRequest) -> (r: String)
    ensures
        r@ == missing_template_message(request.template@),
{
    let mut m = "the ".to_owned();
    m.append(request.template.as_str());
    m.append(" template was not found in the downloaded archive.");
    m
}

} // verus!
