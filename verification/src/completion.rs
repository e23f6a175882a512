//! Shell completion script generation.
//!
//! Each shell's script spells out its candidate word lists by hand; they repeat the command words
//! rather than derive them from a shared command model.

use vstd::prelude::*;
use crate::args::{asks_help, is_help, is_help_word};
use crate::chars::str_eq;

verus! {

/// What the `completion` command renders.
#[derive(Clone, Copy, PartialEq, Eq)]
pub enum CompletionOutput {
    Usage,
    Script(&'static str),
}

/// Final result of the `completion` command.
pub struct CompletionOutcome {
    pub output: CompletionOutput,
    pub exit_code: i32,
}

impl CompletionOutcome {
    /// Exit status for this outcome.
    pub fn exit_code(&self) -> (r: i32)
        ensures
            r == self.exit_code,
    {
        self.exit_code
    }
}

impl View for CompletionOutcome {
    /// The script to print (`None` for usage text) and the exit status.
    type V = (Option<Seq<char>>, i32);

    open spec fn view(&self) -> (Option<Seq<char>>, i32) {
        (
            match self.output {
                CompletionOutput::Usage => None,
                CompletionOutput::Script(s) => Some(s@),
            },
            self.exit_code,
        )
    }
}

/// The completion script for a shell name, if the shell is supported.
pub open spec fn shell_script(shell: Seq<char>) -> Option<Seq<char>> {
    if shell == "bash"@ {
        Some(BASH_COMPLETION@)
    } else if shell == "zsh"@ {
        Some(ZSH_COMPLETION@)
    } else if shell == "fish"@ {
        Some(FISH_COMPLETION@)
    } else {
        None
    }
}

/// The result of `completion` for `args`: usage for a help request (success) or any argument
/// count other than one (failure), otherwise the named shell's script or an error.
pub open spec fn completion_result(args: Seq<String>) -> Result<(Option<Seq<char>>, i32), Seq<char>> {
    if asks_help(args) {
        Ok((None, 0))
    } else if args.len() != 1 {
        Ok((None, 1))
    } else {
        match shell_script(args[0]@) {
            Some(script) => Ok((Some(script), 0)),
            None => Err("unsupported shell: "@ + args[0]@),
        }
    }
}

/// Selects the completion script for the shell named by the only argument.
pub fn completion(args: &Vec<String>) -> (r: Result<CompletionOutcome, String>)
    ensures
        match r {
            Ok(o) => completion_result(args@) == Ok::<(Option<Seq<char>>, i32), Seq<char>>(o@),
            Err(m) => completion_result(args@) == Err::<(Option<Seq<char>>, i32), Seq<char>>(m@),
        },
{
    if is_help(args) {
        return Ok(CompletionOutcome { output: CompletionOutput::Usage, exit_code: 0 });
    }
    if args.len() != 1 {
        return Ok(CompletionOutcome { output: CompletionOutput::Usage, exit_code: 1 });
    }
    let shell = args[0].as_str();
    let script = if str_eq(shell, "bash") {
        BASH_COMPLETION
    } else if str_eq(shell, "zsh") {
        ZSH_COMPLETION
    } else if str_eq(shell, "fish") {
        FISH_COMPLETION
    } else {
        let mut m = "unsupported shell: ".to_owned();
        m.append(shell);
        return Err(m);
    };
    Ok(CompletionOutcome { output: CompletionOutput::Script(script), exit_code: 0 })
}

pub const BASH_COMPLETION: &'static str = r#"_oqtopus()
{
  local cur prev words cword
  COMPREPLY=()
  cur="${COMP_WORDS[COMP_CWORD]}"
  prev="${COMP_WORDS[COMP_CWORD-1]}"

  case "${COMP_WORDS[1]}" in
    backend)
      case "${COMP_WORDS[2]}" in
        install)
          COMPREPLY=( $(compgen -W "engine tranqu gateway all --skip-sse-build help --help" -- "$cur") )
          return 0
          ;;
        build)
          COMPREPLY=( $(compgen -W "sse-runtime help --help" -- "$cur") )
          return 0
          ;;
        versions)
          COMPREPLY=( $(compgen -W "engine tranqu gateway help --help" -- "$cur") )
          return 0
          ;;
        update|uninstall)
          COMPREPLY=( $(compgen -W "engine tranqu gateway help --help" -- "$cur") )
          return 0
          ;;
        start)
          COMPREPLY=( $(compgen -W "core sse_engine mitigator estimator combiner tranqu gateway all --foreground help --help" -- "$cur") )
          return 0
          ;;
        stop|restart)
          COMPREPLY=( $(compgen -W "core sse_engine mitigator estimator combiner tranqu gateway all help --help" -- "$cur") )
          return 0
          ;;
        device-status)
          COMPREPLY=( $(compgen -W "show active inactive maintenance help --help" -- "$cur") )
          return 0
          ;;
        *)
          COMPREPLY=( $(compgen -W "install build versions uninstall update start stop restart status device-status info help --help" -- "$cur") )
          return 0
          ;;
      esac
      ;;
    cloud-local)
      case "${COMP_WORDS[2]}" in
        install|uninstall|update|versions)
          COMPREPLY=( $(compgen -W "cloud frontend admin all help --help" -- "$cur") )
          return 0
          ;;
        start|stop|restart)
          COMPREPLY=( $(compgen -W "db user provider admin user_signup worker all --foreground help --help" -- "$cur") )
          return 0
          ;;
        *)
          COMPREPLY=( $(compgen -W "versions install uninstall update start stop restart status info help --help" -- "$cur") )
          return 0
          ;;
      esac
      ;;
    manager)
      case "${COMP_WORDS[2]}" in
        install|versions|update|uninstall)
          COMPREPLY=( $(compgen -W "help --help" -- "$cur") )
          return 0
          ;;
        start)
          COMPREPLY=( $(compgen -W "--foreground help --help" -- "$cur") )
          return 0
          ;;
        stop|restart)
          COMPREPLY=( $(compgen -W "help --help" -- "$cur") )
          return 0
          ;;
        *)
          COMPREPLY=( $(compgen -W "install versions uninstall update start stop restart status info help --help" -- "$cur") )
          return 0
          ;;
      esac
      ;;
    init)
      COMPREPLY=( $(compgen -W "--template --branch backend cloud-local manager help --help" -- "$cur") )
      return 0
      ;;
    completion)
      COMPREPLY=( $(compgen -W "bash zsh fish" -- "$cur") )
      return 0
      ;;
    *)
      COMPREPLY=( $(compgen -W "init backend cloud-local manager completion version help --help --version" -- "$cur") )
      return 0
      ;;
  esac
}
complete -F _oqtopus oqtopus
"#;

pub const ZSH_COMPLETION: &'static str = r#"#compdef oqtopus

_oqtopus() {
  local -a commands backend_commands cloud_local_commands install_components build_targets update_components start_services services device_status cloud_local_components cloud_local_services manager_commands manager_help_only manager_start_opts shells templates
  commands=(init backend cloud-local manager completion version help --help --version)
  backend_commands=(install build versions uninstall update start stop restart status device-status info help --help)
  cloud_local_commands=(versions install uninstall update start stop restart status info help --help)
  install_components=(engine tranqu gateway all --skip-sse-build help --help)
  build_targets=(sse-runtime help --help)
  update_components=(engine tranqu gateway help --help)
  start_services=(core sse_engine mitigator estimator combiner tranqu gateway all --foreground help --help)
  services=(core sse_engine mitigator estimator combiner tranqu gateway all help --help)
  device_status=(show active inactive maintenance help --help)
  cloud_local_components=(cloud frontend admin all help --help)
  cloud_local_services=(db user provider admin user_signup worker all --foreground help --help)
  manager_commands=(install versions uninstall update start stop restart status info help --help)
  manager_help_only=(help --help)
  manager_start_opts=(--foreground help --help)
  shells=(bash zsh fish)
  templates=(backend cloud-local manager)

  case $words[2] in
    backend)
      case $words[3] in
        install) compadd -- $install_components ;;
        build) compadd -- $build_targets ;;
        versions|update|uninstall) compadd -- $update_components ;;
        start) compadd -- $start_services ;;
        stop|restart) compadd -- $services ;;
        device-status) compadd -- $device_status ;;
        *) compadd -- $backend_commands ;;
      esac
      ;;
    cloud-local)
      case $words[3] in
        install|uninstall|update|versions) compadd -- $cloud_local_components ;;
        start|stop|restart) compadd -- $cloud_local_services ;;
        *) compadd -- $cloud_local_commands ;;
      esac
      ;;
    manager)
      case $words[3] in
        install|versions|update|uninstall|stop|restart) compadd -- $manager_help_only ;;
        start) compadd -- $manager_start_opts ;;
        *) compadd -- $manager_commands ;;
      esac
      ;;
    init) compadd -- --template --branch help --help $templates ;;
    completion) compadd -- $shells ;;
    *) compadd -- $commands ;;
  esac
}

_oqtopus "$@"
"#;

pub const FISH_COMPLETION: &'static str = r#"complete -c oqtopus -f -n "__fish_use_subcommand" -a "init backend cloud-local manager completion version help --help --version"
complete -c oqtopus -f -n "__fish_seen_subcommand_from completion" -a "bash zsh fish"
complete -c oqtopus -f -n "__fish_seen_subcommand_from init" -a "--template --branch backend cloud-local manager help --help"
complete -c oqtopus -f -n "__fish_seen_subcommand_from backend" -a "install build versions uninstall update start stop restart status device-status info help --help"
complete -c oqtopus -f -n "__fish_seen_subcommand_from backend; and __fish_seen_subcommand_from install" -a "engine tranqu gateway all --skip-sse-build help --help"
complete -c oqtopus -f -n "__fish_seen_subcommand_from backend; and __fish_seen_subcommand_from build" -a "sse-runtime help --help"
complete -c oqtopus -f -n "__fish_seen_subcommand_from backend; and __fish_seen_subcommand_from versions update uninstall" -a "engine tranqu gateway help --help"
complete -c oqtopus -f -n "__fish_seen_subcommand_from backend; and __fish_seen_subcommand_from start" -a "core sse_engine mitigator estimator combiner tranqu gateway all --foreground help --help"
complete -c oqtopus -f -n "__fish_seen_subcommand_from backend; and __fish_seen_subcommand_from stop restart" -a "core sse_engine mitigator estimator combiner tranqu gateway all help --help"
complete -c oqtopus -f -n "__fish_seen_subcommand_from backend; and __fish_seen_subcommand_from device-status" -a "show active inactive maintenance help --help"
complete -c oqtopus -f -n "__fish_seen_subcommand_from cloud-local" -a "versions install uninstall update start stop restart status info help --help"
complete -c oqtopus -f -n "__fish_seen_subcommand_from cloud-local; and __fish_seen_subcommand_from install uninstall update versions" -a "cloud frontend admin all help --help"
complete -c oqtopus -f -n "__fish_seen_subcommand_from cloud-local; and __fish_seen_subcommand_from start stop restart" -a "db user provider admin user_signup worker all --foreground help --help"
complete -c oqtopus -f -n "__fish_seen_subcommand_from manager" -a "install versions uninstall update start stop restart status info help --help"
complete -c oqtopus -f -n "__fish_seen_subcommand_from manager; and __fish_seen_subcommand_from start" -a "--foreground help --help"
"#;


/// Each supported shell gets the script written for it, whatever else the invocation holds:
/// `completion bash`, `completion zsh` and `completion fish` succeed with the bash, zsh and fish
/// scripts respectively.
pub proof fn law_each_shell_gets_its_script(args: Seq<String>)
    requires
        args.len() == 1,
    ensures
        args[0]@ == "bash"@ ==> completion_result(args) == Ok::<(Option<Seq<char>>, i32), Seq<char>>(
            (Some(BASH_COMPLETION@), 0),
        ),
        args[0]@ == "zsh"@ ==> completion_result(args) == Ok::<(Option<Seq<char>>, i32), Seq<char>>(
            (Some(ZSH_COMPLETION@), 0),
        ),
        args[0]@ == "fish"@ ==> completion_result(args) == Ok::<(Option<Seq<char>>, i32), Seq<char>>(
            (Some(FISH_COMPLETION@), 0),
        ),
{
    reveal_strlit("bash");
    reveal_strlit("zsh");
    reveal_strlit("fish");
    reveal_strlit("help");
    reveal_strlit("--help");
    assert("zsh"@.len() != "bash"@.len());
    assert("fish"@[0] != "bash"@[0]);
    assert("fish"@.len() != "zsh"@.len());
    assert("zsh"@.len() != "help"@.len() && "zsh"@.len() != "--help"@.len());
    assert("fish"@[0] != "help"@[0] && "fish"@.len() != "--help"@.len());
    assert("bash"@[0] != "help"@[0] && "bash"@.len() != "--help"@.len());
}
/// A single word that is neither a help word nor a supported shell is refused by name.
pub proof fn law_unsupported_shell_refused(args: Seq<String>)
    requires
        args.len() == 1,
        !is_help_word(args[0]@),
        args[0]@ != "bash"@ && args[0]@ != "zsh"@ && args[0]@ != "fish"@,
    ensures
        completion_result(args) == Err::<(Option<Seq<char>>, i32), Seq<char>>("unsupported shell: "@ + args[0]@),
{
}

} // verus!
