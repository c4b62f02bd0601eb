//! Call arguments: what the command line asked for, as plain values, and the
//! privilege gate that a call has to pass.
use vstd::prelude::*;
use std::str::FromStr;
use crate::error::{ArgumentFault, Denial, Error, ErrorModel};
use crate::overrides::OverrideMap;
use crate::text::{parse_override, same_text, split_override, texts};

verus! {

/// The privilege level of an invocation.
#[derive(Debug, Clone, Copy, PartialEq, Eq, Structural)]
pub enum Privilege {
    Normal,
    Experimental,
}

/// The format in which the manual is rendered.
#[derive(Debug, Clone, Copy, PartialEq, Eq, Structural)]
pub enum ManualFormat {
    Manpages,
    Markdown,
}

/// A shell for which completion scripts can be rendered.
#[derive(Debug, Clone, Copy, PartialEq, Eq, Structural)]
pub enum Shell {
    Bash,
    Elvish,
    Fish,
    PowerShell,
    Zsh,
}

/// Whether shell commands of the configuration may run.
#[derive(Debug, Clone, Copy, PartialEq, Eq, Structural)]
pub enum ShellTrust {
    NoTrust,
    Prompt,
    Ultimate,
}

/// How values are collected from the user.
#[derive(Debug, Clone, Copy, PartialEq, Eq, Structural)]
pub enum Backend {
    Headless,
    CLI,
    UI,
}

/// What the `render` subcommand was called with.
#[derive(Debug, Clone, PartialEq, Eq)]
pub struct RenderArguments {
    pub configuration: String,
    pub template: Option<String>,
    pub value_overrides: OverrideMap,
    pub shell_trust: ShellTrust,
    pub loose: bool,
    pub backend: Backend,
}

/// The subcommand and its arguments.
#[derive(Debug, Clone, PartialEq, Eq)]
pub enum Command {
    Manual { path: String, format: ManualFormat },
    Autocomplete { path: String, shell: Shell },
    Init,
    Render(RenderArguments),
}

/// One call of the program: its privilege level and what it is to do.
#[derive(Debug, Clone, PartialEq, Eq)]
pub struct CallArgs {
    pub privileges: Privilege,
    pub command: Command,
}

/// The arguments of the `render` subcommand as the command line gave them.
#[derive(Debug, Clone, PartialEq, Eq)]
pub struct RawRender {
    pub configuration: String,
    pub template: Option<String>,
    pub trust: String,
    pub loose: bool,
    pub backend: String,
    pub values: Vec<String>,
}

/// The subcommand as the command line gave it.
#[derive(Debug, Clone, PartialEq, Eq)]
pub enum RawCommand {
    Manual { out: String, format: String },
    Autocomplete { out: String, shell: String },
    Init,
    Render(RawRender),
    Unknown,
}

/// A command line after matching, before its values are interpreted.
#[derive(Debug, Clone, PartialEq, Eq)]
pub struct RawArguments {
    pub experimental: bool,
    pub command: RawCommand,
}

/// Reads call arguments from a command line that clap has matched.
pub struct ClapArgumentLoader {}

/// The manual format of a name.
pub open spec fn manual_format_named(s: Seq<char>) -> Option<ManualFormat> {
    if s == "manpages"@ {
        Some(ManualFormat::Manpages)
    } else if s == "markdown"@ {
        Some(ManualFormat::Markdown)
    } else {
        None
    }
}

/// The backend of a name.
pub open spec fn backend_named(s: Seq<char>) -> Option<Backend> {
    if s == "headless"@ {
        Some(Backend::Headless)
    } else if s == "cli"@ {
        Some(Backend::CLI)
    } else if s == "ui"@ {
        Some(Backend::UI)
    } else {
        None
    }
}

/// The trust mode of a name; a name that is none of the three gives no trust.
pub open spec fn shell_trust_named(s: Seq<char>) -> ShellTrust {
    if s == "prompt"@ {
        ShellTrust::Prompt
    } else if s == "ultimate"@ {
        ShellTrust::Ultimate
    } else {
        ShellTrust::NoTrust
    }
}

/// The shell of a name: the five names are told apart exactly, case and all.
pub open spec fn shell_named(s: Seq<char>) -> Option<Shell> {
    if s == "bash"@ {
        Some(Shell::Bash)
    } else if s == "elvish"@ {
        Some(Shell::Elvish)
    } else if s == "fish"@ {
        Some(Shell::Fish)
    } else if s == "powershell"@ {
        Some(Shell::PowerShell)
    } else if s == "zsh"@ {
        Some(Shell::Zsh)
    } else {
        None
    }
}

/// The override map that a list of `key=value` strings builds, in order;
/// `None` where one of them holds no `=`.
pub open spec fn overrides_of(values: Seq<Seq<char>>) -> Option<Map<Seq<char>, Seq<char>>>
    decreases values.len(),
{
    if values.len() == 0 {
        Some(Map::empty())
    } else {
        match (overrides_of(values.drop_last()), split_override(values.last())) {
            (Some(m), Some(kv)) => Some(m.insert(kv.0, kv.1)),
            _ => None,
        }
    }
}

/// The rule of the privilege gate: the reason for which a render is turned
/// down, if any.
pub open spec fn gate(
    privilege: Privilege,
    backend: Backend,
    has_overrides: bool,
    trust: ShellTrust,
) -> Option<Denial> {
    if privilege == Privilege::Normal && backend == Backend::UI {
        Some(Denial::FullScreenBackend)
    } else if privilege == Privilege::Normal && has_overrides {
        Some(Denial::ValueOverrides)
    } else if trust == ShellTrust::Prompt && backend == Backend::Headless {
        Some(Denial::HeadlessConfirmation)
    } else {
        None
    }
}

/// Decides whether a render with these settings is permitted.
pub fn privilege_gate(
    privilege: Privilege,
    backend: Backend,
    overrides: &OverrideMap,
    trust: ShellTrust,
) -> (r: Result<(), Error>)
    ensures
        match r {
            Ok(_) => gate(privilege, backend, overrides@ != Map::<Seq<char>, Seq<char>>::empty(), trust)
                is None,
            Err(e) => gate(privilege, backend, overrides@ != Map::<Seq<char>, Seq<char>>::empty(), trust)
                matches Some(d) && e@ == ErrorModel::PrivilegeDenied(d),
        },
{
    match privilege {
        Privilege::Normal => {
            match backend {
                Backend::UI => {
                    return Err(Error::PrivilegeDenied(Denial::FullScreenBackend));
                },
                _ => {},
            }
            if !overrides.is_empty() {
                return Err(Error::PrivilegeDenied(Denial::ValueOverrides));
            }
        },
        Privilege::Experimental => {},
    }
    match (trust, backend) {
        (ShellTrust::Prompt, Backend::Headless) => Err(
            Error::PrivilegeDenied(Denial::HeadlessConfirmation),
        ),
        _ => Ok(()),
    }
}

impl CallArgs {
    /// The reason for which the privilege gate turns this call down, if any.
    /// Only a render can be turned down.
    pub open spec fn denial(&self) -> Option<Denial> {
        match self.command {
            Command::Render(a) => gate(
                self.privileges,
                a.backend,
                a.value_overrides@ != Map::<Seq<char>, Seq<char>>::empty(),
                a.shell_trust,
            ),
            _ => None,
        }
    }

    /// Checks the call against the privilege gate.
    pub fn validate(&self) -> (r: Result<(), Error>)
        ensures
            match r {
                Ok(_) => self.denial() is None,
                Err(e) => self.denial() matches Some(d) && e@ == ErrorModel::PrivilegeDenied(d),
            },
    {
        match &self.command {
            Command::Render(a) => privilege_gate(
                self.privileges,
                a.backend,
                &a.value_overrides,
                a.shell_trust,
            ),
            _ => Ok(()),
        }
    }
}

/// Reads the name of a manual format.
pub fn parse_manual_format(s: &str) -> (r: Option<ManualFormat>)
    ensures
        r == manual_format_named(s@),
{
    if same_text(s, "manpages") {
        Some(ManualFormat::Manpages)
    } else if same_text(s, "markdown") {
        Some(ManualFormat::Markdown)
    } else {
        None
    }
}

/// Reads the name of a backend.
pub fn parse_backend(s: &str) -> (r: Option<Backend>)
    ensures
        r == backend_named(s@),
{
    if same_text(s, "headless") {
        Some(Backend::Headless)
    } else if same_text(s, "cli") {
        Some(Backend::CLI)
    } else if same_text(s, "ui") {
        Some(Backend::UI)
    } else {
        None
    }
}

/// Reads the name of a trust mode.
pub fn parse_shell_trust(s: &str) -> (r: ShellTrust)
    ensures
        r == shell_trust_named(s@),
{
    if same_text(s, "prompt") {
        ShellTrust::Prompt
    } else if same_text(s, "ultimate") {
        ShellTrust::Ultimate
    } else {
        ShellTrust::NoTrust
    }
}

/// Calls `clap_complete::Shell::from_str`, which compares the name, case and
/// all, with `bash`, `elvish`, `fish`, `powershell` and `zsh`, and fails on
/// any other. The contract claims that, with the failure as `None`.
#[verifier::external_body]
fn shell_from_name(name: &str) -> (r: Option<Shell>)
    ensures
        r == shell_named(name@),
{
    match clap_complete::Shell::from_str(name) {
        Ok(clap_complete::Shell::Bash) => Some(Shell::Bash),
        Ok(clap_complete::Shell::Elvish) => Some(Shell::Elvish),
        Ok(clap_complete::Shell::Fish) => Some(Shell::Fish),
        Ok(clap_complete::Shell::PowerShell) => Some(Shell::PowerShell),
        Ok(clap_complete::Shell::Zsh) => Some(Shell::Zsh),
        _ => None,
    }
}

/// Reads the name of a shell.
pub fn parse_shell(s: &str) -> (r: Result<Shell, Error>)
    ensures
        match r {
            Ok(shell) => shell_named(s@) == Some(shell),
            Err(e) => shell_named(s@) is None && e@ == ErrorModel::Argument(
                ArgumentFault::UnknownShell,
            ),
        },
{
    match shell_from_name(s) {
        Some(shell) => Ok(shell),
        None => Err(Error::Argument(ArgumentFault::UnknownShell)),
    }
}

/// Once a prefix of the overrides is malformed, the whole list is.
pub proof fn lemma_overrides_of_prefix(values: Seq<Seq<char>>, n: int)
    requires
        0 <= n <= values.len(),
        overrides_of(values.take(n)) is None,
    ensures
        overrides_of(values) is None,
    decreases values.len() - n,
{
    if n < values.len() {
        assert(values.take(n + 1).drop_last() =~= values.take(n));
        lemma_overrides_of_prefix(values, n + 1);
    } else {
        assert(values.take(n) =~= values);
    }
}

/// Builds the override map from `key=value` strings, a later one replacing an
/// earlier one of the same key.
pub fn parse_overrides(values: &Vec<String>) -> (r: Result<OverrideMap, Error>)
    ensures
        match r {
            Ok(m) => overrides_of(texts(values@)) == Some(m@),
            Err(e) => overrides_of(texts(values@)) is None && e@ == ErrorModel::Argument(
                ArgumentFault::MalformedOverride,
            ),
        },
{
    let ghost all = texts(values@);
    let mut map: OverrideMap = OverrideMap::new();
    let mut i: usize = 0;
    assert(all.take(0) =~= Seq::empty());
    while i < values.len()
        invariant
            i <= values.len(),
            all == texts(values@),
            overrides_of(all.take(i as int)) == Some(map@),
        decreases values.len() - i,
    {
        assert(all.take(i as int + 1).drop_last() =~= all.take(i as int));
        assert(all.take(i as int + 1).last() == values@[i as int]@);
        match parse_override(values[i].as_str()) {
            Some(kv) => {
                map.insert(kv.0, kv.1);
            },
            None => {
                proof {
                    lemma_overrides_of_prefix(all, i as int + 1);
                }
                return Err(Error::Argument(ArgumentFault::MalformedOverride));
            },
        }
        i = i + 1;
    }
    assert(all.take(i as int) =~= all);
    Ok(map)
}

/// The privilege level that the `experimental` flag gives.
pub open spec fn privilege_of(experimental: bool) -> Privilege {
    if experimental {
        Privilege::Experimental
    } else {
        Privilege::Normal
    }
}

/// The arguments of a render, or the fault of the first value that cannot be
/// read: the value overrides are read before the backend.
pub open spec fn render_loaded(raw: RawRender, r: Result<RenderArguments, Error>) -> bool {
    match (overrides_of(texts(raw.values@)), backend_named(raw.backend@)) {
        (None, _) => r matches Err(e) && e@ == ErrorModel::Argument(
            ArgumentFault::MalformedOverride,
        ),
        (Some(_), None) => r matches Err(e) && e@ == ErrorModel::Argument(
            ArgumentFault::UnknownBackend,
        ),
        (Some(m), Some(b)) => {
            &&& r matches Ok(a)
            &&& a.configuration@ == raw.configuration@
            &&& match (a.template, raw.template) {
                (Some(x), Some(y)) => x@ == y@,
                (None, None) => true,
                _ => false,
            }
            &&& a.value_overrides@ == m
            &&& a.shell_trust == shell_trust_named(raw.trust@)
            &&& a.loose == raw.loose
            &&& a.backend == b
        },
    }
}

/// What `load` returns for a matched command line.
pub open spec fn loaded(raw: RawArguments, r: Result<CallArgs, Error>) -> bool {
    match raw.command {
        RawCommand::Manual { out, format } => match manual_format_named(format@) {
            Some(f) => {
                &&& r matches Ok(c)
                &&& c.privileges == privilege_of(raw.experimental)
                &&& c.command matches Command::Manual { path, format: g }
                &&& path@ == out@
                &&& g == f
            },
            None => r matches Err(e) && e@ == ErrorModel::Argument(ArgumentFault::UnknownFormat),
        },
        RawCommand::Autocomplete { out, shell } => match shell_named(shell@) {
            Some(s) => {
                &&& r matches Ok(c)
                &&& c.privileges == privilege_of(raw.experimental)
                &&& c.command matches Command::Autocomplete { path, shell: t }
                &&& path@ == out@
                &&& t == s
            },
            None => r matches Err(e) && e@ == ErrorModel::Argument(ArgumentFault::UnknownShell),
        },
        RawCommand::Init => {
            &&& r matches Ok(c)
            &&& c.privileges == privilege_of(raw.experimental)
            &&& c.command is Init
        },
        RawCommand::Render(render) => match r {
            Ok(c) => {
                &&& c.privileges == privilege_of(raw.experimental)
                &&& c.command matches Command::Render(a)
                &&& render_loaded(render, Ok(a))
            },
            Err(e) => render_loaded(render, Err(e)),
        },
        RawCommand::Unknown => r matches Err(e) && e@ == ErrorModel::UnknownCommand,
    }
}

impl ClapArgumentLoader {
    /// Interprets the values of a `render` subcommand.
    pub fn load_render(raw: RawRender) -> (r: Result<RenderArguments, Error>)
        ensures
            render_loaded(raw, r),
    {
        let value_overrides: OverrideMap = match parse_overrides(&raw.values) {
            Ok(m) => m,
            Err(e) => {
                return Err(e);
            },
        };
        let backend: Backend = match parse_backend(raw.backend.as_str()) {
            Some(b) => b,
            None => {
                return Err(Error::Argument(ArgumentFault::UnknownBackend));
            },
        };
        let shell_trust: ShellTrust = parse_shell_trust(raw.trust.as_str());
        Ok(
            RenderArguments {
                configuration: raw.configuration,
                template: raw.template,
                value_overrides,
                shell_trust,
                loose: raw.loose,
                backend,
            },
        )
    }

    /// Interprets a matched command line.
    pub fn load(raw: RawArguments) -> (r: Result<CallArgs, Error>)
        ensures
            loaded(raw, r),
    {
        let privileges: Privilege = if raw.experimental {
            Privilege::Experimental
        } else {
            Privilege::Normal
        };
        match raw.command {
            RawCommand::Manual { out, format } => match parse_manual_format(format.as_str()) {
                Some(f) => Ok(CallArgs { privileges, command: Command::Manual { path: out, format: f } }),
                None => Err(Error::Argument(ArgumentFault::UnknownFormat)),
            },
            RawCommand::Autocomplete { out, shell } => match parse_shell(shell.as_str()) {
                Ok(s) => Ok(
                    CallArgs { privileges, command: Command::Autocomplete { path: out, shell: s } },
                ),
                Err(e) => Err(e),
            },
            RawCommand::Init => Ok(CallArgs { privileges, command: Command::Init }),
            RawCommand::Render(render) => match Self::load_render(render) {
                Ok(a) => Ok(CallArgs { privileges, command: Command::Render(a) }),
                Err(e) => Err(e),
            },
            RawCommand::Unknown => Err(Error::UnknownCommand),
        }
    }
}

} // verus!
