//! Validation of the environment a command runs in.
//!
//! An environment is a directory whose `.metadata` names its template, the shared installation
//! root of its releases, and its own absolute path. Commands run from that directory only.

use vstd::prelude::*;
use crate::chars::{opt_view, str_eq};
use crate::metadata::{metadata_get, metadata_value};

verus! {

/// A validated environment.
pub struct Environment {
    /// The environment directory, as recorded in `.metadata`.
    pub root: String,
    /// The shared directory holding installed releases.
    pub install_root: String,
    /// The full metadata text.
    pub metadata: String,
}

impl View for Environment {
    type V = (Seq<char>, Seq<char>, Seq<char>);

    open spec fn view(&self) -> (Seq<char>, Seq<char>, Seq<char>) {
        (self.root@, self.install_root@, self.metadata@)
    }
}

/// A validated environment that also records its name.
pub struct NamedEnvironment {
    pub environment: Environment,
    pub name: String,
}

/// The value of `key`, falling back to the legacy key it replaced.
pub open spec fn value_or_legacy(metadata: Seq<char>, key: Seq<char>, legacy: Seq<char>) -> Option<
    Seq<char>,
> {
    match metadata_value(metadata, key) {
        Some(v) => Some(v),
        None => metadata_value(metadata, legacy),
    }
}

/// Diagnostic for a directory without `.metadata`.
pub open spec fn missing_metadata_message(template: Seq<char>) -> Seq<char> {
    "no .metadata found in the current directory; run this command from the root of a "@ + template
        + " environment."@
}

/// Diagnostic for metadata of another template.
pub open spec fn wrong_template_message(template: Seq<char>, found: Seq<char>) -> Seq<char> {
    "this command requires a "@ + template + " environment, but .metadata declares template="@
        + found + "."@
}

/// Diagnostic for an environment used from another directory.
pub open spec fn moved_environment_message(root: Seq<char>) -> Seq<char> {
    "environment_root in .metadata does not match the current directory: "@ + root
}

/// The environment `(root, install_root, metadata)` that `metadata` describes when read in
/// directory `cwd` by a command of `template`, or the diagnostic refusing it.
pub open spec fn environment_check(
    template: Seq<char>,
    cwd: Seq<char>,
    metadata: Option<Seq<char>>,
) -> Result<(Seq<char>, Seq<char>, Seq<char>), Seq<char>> {
    match metadata {
        None => Err(missing_metadata_message(template)),
        Some(m) => match metadata_value(m, "template"@) {
            None => Err("invalid .metadata: missing template."@),
            Some(t) => if t != template {
                Err(wrong_template_message(template, t))
            } else {
                match metadata_value(m, "install_root"@) {
                    None => Err("invalid .metadata: missing install_root."@),
                    Some(install_root) => match value_or_legacy(
                        m,
                        "environment_root"@,
                        "env_root"@,
                    ) {
                        None => Err("invalid .metadata: missing environment_root."@),
                        Some(root) => if root != cwd {
                            Err(moved_environment_message(root))
                        } else {
                            Ok((root, install_root, m))
                        },
                    },
                }
            },
        },
    }
}

fn get_or_legacy(metadata: &str, key: &str, legacy: &str) -> (r: Option<String>)
    ensures
        match r {
            Some(v) => value_or_legacy(metadata@, key@, legacy@) == Some(v@),
            None => value_or_legacy(metadata@, key@, legacy@) is None,
        },
{
    match metadata_get(metadata, key) {
        Some(v) => Some(v),
        None => metadata_get(metadata, legacy),
    }
}

/// Validates `.metadata` (`None` when absent) for a `template` command run in `cwd`.
pub fn validate_environment(template: &str, cwd: &str, metadata: Option<&str>) -> (r: Result<
    Environment,
    String,
>)
    ensures
        match r {
            Ok(e) => environment_check(template@, cwd@, opt_view(metadata)) == Ok::<
                (Seq<char>, Seq<char>, Seq<char>),
                Seq<char>,
            >(e@),
            Err(m) => environment_check(template@, cwd@, opt_view(metadata)) == Err::<
                (Seq<char>, Seq<char>, Seq<char>),
                Seq<char>,
            >(m@),
        },
{
    let m = match metadata {
        None => {
            let mut e = "no .metadata found in the current directory; run this command from the root of a ".to_owned();
            e.append(template);
            e.append(" environment.");
            return Err(e);
        },
        Some(m) => m,
    };
    let t = match metadata_get(m, "template") {
        None => return Err("invalid .metadata: missing template.".to_owned()),
        Some(t) => t,
    };
    if !str_eq(t.as_str(), template) {
        let mut e = "this command requires a ".to_owned();
        e.append(template);
        e.append(" environment, but .metadata declares template=");
        e.append(t.as_str());
        e.append(".");
        return Err(e);
    }
    let install_root = match metadata_get(m, "install_root") {
        None => return Err("invalid .metadata: missing install_root.".to_owned()),
        Some(v) => v,
    };
    let root = match get_or_legacy(m, "environment_root", "env_root") {
        None => return Err("invalid .metadata: missing environment_root.".to_owned()),
        Some(v) => v,
    };
    if !str_eq(root.as_str(), cwd) {
        let mut e = "environment_root in .metadata does not match the current directory: ".to_owned();
        e.append(root.as_str());
        return Err(e);
    }
    Ok(Environment { root, install_root, metadata: m.to_owned() })
}

/// The named environment that `metadata` describes, or the diagnostic refusing it.
pub open spec fn named_environment_check(
    template: Seq<char>,
    cwd: Seq<char>,
    metadata: Option<Seq<char>>,
) -> Result<((Seq<char>, Seq<char>, Seq<char>), Seq<char>), Seq<char>> {
    match environment_check(template, cwd, metadata) {
        Err(e) => Err(e),
        Ok(env) => match value_or_legacy(env.2, "environment_name"@, "env_name"@) {
            None => Err("invalid .metadata: missing environment_name."@),
            Some(name) => Ok((env, name)),
        },
    }
}

/// Validates `.metadata` for a command that also needs the environment's name.
pub fn validate_named_environment(template: &str, cwd: &str, metadata: Option<&str>) -> (r: Result<
    NamedEnvironment,
    String,
>)
    ensures
        match r {
            Ok(e) => named_environment_check(template@, cwd@, opt_view(metadata)) == Ok::<
                ((Seq<char>, Seq<char>, Seq<char>), Seq<char>),
                Seq<char>,
            >((e.environment@, e.name@)),
            Err(m) => named_environment_check(template@, cwd@, opt_view(metadata))
                == Err::<((Seq<char>, Seq<char>, Seq<char>), Seq<char>), Seq<char>>(m@),
        },
{
    let environment = validate_environment(template, cwd, metadata)?;
    match get_or_legacy(environment.metadata.as_str(), "environment_name", "env_name") {
        None => Err("invalid .metadata: missing environment_name.".to_owned()),
        Some(name) => Ok(NamedEnvironment { environment, name }),
    }
}

} // verus!
