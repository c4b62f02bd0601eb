use complate::args::{
    parse_backend, parse_manual_format, parse_overrides, parse_shell, parse_shell_trust,
    privilege_gate, Backend, CallArgs, ClapArgumentLoader, Command, ManualFormat, Privilege,
    RawArguments, RawCommand, RawRender, RenderArguments, Shell, ShellTrust,
};
use complate::config::{Config, DefaultValue, TemplateSpec, VariableSpec};
use complate::error::{join_names, ArgumentFault, Denial, Error, Stage};
use complate::overrides::OverrideMap;
use complate::render::render;
use complate::resolve::{decide_default, decide_first, decide_next, Reply, Request, ResolvedValue, Source, Verdict};
use complate::text::{chars_of, parse_choice, parse_override, same_text, trim_trailing_newline};
use complate::trust::Decision;

fn value(name: &str, value: &str) -> ResolvedValue {
    ResolvedValue { name: name.to_string(), value: value.to_string(), source: Source::Override }
}

fn raw_render(backend: &str, trust: &str, values: &[&str]) -> RawRender {
    RawRender {
        configuration: "config text".to_string(),
        template: Some("greet".to_string()),
        trust: trust.to_string(),
        loose: true,
        backend: backend.to_string(),
        values: values.iter().map(|v| v.to_string()).collect(),
    }
}

#[test]
fn override_splits_at_first_equals() {
    assert_eq!(parse_override("a=b=c"), Some(("a".to_string(), "b=c".to_string())));
    assert_eq!(parse_override("name=Ava"), Some(("name".to_string(), "Ava".to_string())));
    assert_eq!(parse_override("=x"), Some((String::new(), "x".to_string())));
    assert_eq!(parse_override("k="), Some(("k".to_string(), String::new())));
    assert_eq!(parse_override("novalue"), None);
    assert_eq!(parse_override(""), None);
    assert_eq!(parse_override("ü=é"), Some(("ü".to_string(), "é".to_string())));
}

#[test]
fn overrides_are_collected_in_order() {
    let m = parse_overrides(&vec!["a=1".to_string(), "b=2".to_string(), "a=3".to_string()]).unwrap();
    assert_eq!(m.get("a"), Some("3".to_string()));
    assert_eq!(m.get("b"), Some("2".to_string()));
    assert_eq!(m.get("c"), None);
    assert_eq!(
        parse_overrides(&vec!["a=1".to_string(), "broken".to_string()]),
        Err(Error::Argument(ArgumentFault::MalformedOverride))
    );
    assert!(parse_overrides(&vec![]).unwrap().is_empty());
}

#[test]
fn override_map_replaces_and_finds() {
    let mut m = OverrideMap::new();
    assert!(m.is_empty());
    assert_eq!(m.get("k"), None);
    m.insert("k".to_string(), "v".to_string());
    assert!(!m.is_empty());
    assert_eq!(m.get("k"), Some("v".to_string()));
    m.insert("k".to_string(), "w".to_string());
    assert_eq!(m.get("k"), Some("w".to_string()));
    assert_eq!(m.get("K"), None);
}

#[test]
fn names_are_parsed_exactly() {
    assert_eq!(parse_backend("headless"), Some(Backend::Headless));
    assert_eq!(parse_backend("cli"), Some(Backend::CLI));
    assert_eq!(parse_backend("ui"), Some(Backend::UI));
    assert_eq!(parse_backend("UI"), None);
    assert_eq!(parse_shell_trust("none"), ShellTrust::NoTrust);
    assert_eq!(parse_shell_trust("prompt"), ShellTrust::Prompt);
    assert_eq!(parse_shell_trust("ultimate"), ShellTrust::Ultimate);
    assert_eq!(parse_shell_trust("anything"), ShellTrust::NoTrust);
    assert_eq!(parse_manual_format("manpages"), Some(ManualFormat::Manpages));
    assert_eq!(parse_manual_format("markdown"), Some(ManualFormat::Markdown));
    assert_eq!(parse_manual_format("html"), None);
}

#[test]
fn shells_are_known_by_name() {
    assert_eq!(parse_shell("bash"), Ok(Shell::Bash));
    assert_eq!(parse_shell("elvish"), Ok(Shell::Elvish));
    assert_eq!(parse_shell("fish"), Ok(Shell::Fish));
    assert_eq!(parse_shell("powershell"), Ok(Shell::PowerShell));
    assert_eq!(parse_shell("zsh"), Ok(Shell::Zsh));
    assert_eq!(parse_shell("Bash"), Err(Error::Argument(ArgumentFault::UnknownShell)));
    assert_eq!(parse_shell(""), Err(Error::Argument(ArgumentFault::UnknownShell)));
}

#[test]
fn load_reads_each_command() {
    let manual = ClapArgumentLoader::load(RawArguments {
        experimental: false,
        command: RawCommand::Manual { out: "docs".to_string(), format: "markdown".to_string() },
    });
    assert_eq!(
        manual,
        Ok(CallArgs {
            privileges: Privilege::Normal,
            command: Command::Manual { path: "docs".to_string(), format: ManualFormat::Markdown },
        })
    );
    let complete = ClapArgumentLoader::load(RawArguments {
        experimental: true,
        command: RawCommand::Autocomplete { out: "comp".to_string(), shell: "zsh".to_string() },
    });
    assert_eq!(
        complete,
        Ok(CallArgs {
            privileges: Privilege::Experimental,
            command: Command::Autocomplete { path: "comp".to_string(), shell: Shell::Zsh },
        })
    );
    let init = ClapArgumentLoader::load(RawArguments { experimental: false, command: RawCommand::Init });
    assert_eq!(init, Ok(CallArgs { privileges: Privilege::Normal, command: Command::Init }));
}

#[test]
fn load_reads_render_arguments() {
    let loaded = ClapArgumentLoader::load(RawArguments {
        experimental: true,
        command: RawCommand::Render(raw_render("cli", "prompt", &["name=Ava"])),
    });
    let mut overrides = OverrideMap::new();
    overrides.insert("name".to_string(), "Ava".to_string());
    assert_eq!(
        loaded,
        Ok(CallArgs {
            privileges: Privilege::Experimental,
            command: Command::Render(RenderArguments {
                configuration: "config text".to_string(),
                template: Some("greet".to_string()),
                value_overrides: overrides,
                shell_trust: ShellTrust::Prompt,
                loose: true,
                backend: Backend::CLI,
            }),
        })
    );
}

#[test]
fn load_reports_argument_faults() {
    let load = |command| ClapArgumentLoader::load(RawArguments { experimental: false, command });
    assert_eq!(
        load(RawCommand::Manual { out: "o".to_string(), format: "pdf".to_string() }),
        Err(Error::Argument(ArgumentFault::UnknownFormat))
    );
    assert_eq!(
        load(RawCommand::Autocomplete { out: "o".to_string(), shell: "csh".to_string() }),
        Err(Error::Argument(ArgumentFault::UnknownShell))
    );
    assert_eq!(
        load(RawCommand::Render(raw_render("gui", "none", &[]))),
        Err(Error::Argument(ArgumentFault::UnknownBackend))
    );
    assert_eq!(
        load(RawCommand::Render(raw_render("gui", "none", &["broken"]))),
        Err(Error::Argument(ArgumentFault::MalformedOverride))
    );
    assert_eq!(load(RawCommand::Unknown), Err(Error::UnknownCommand));
    assert_eq!(Error::Argument(ArgumentFault::UnknownFormat).stage(), Stage::Arguments);
}

#[test]
fn gate_follows_its_rules() {
    let none = OverrideMap::new();
    let mut some = OverrideMap::new();
    some.insert("k".to_string(), "v".to_string());
    assert_eq!(privilege_gate(Privilege::Normal, Backend::Headless, &none, ShellTrust::NoTrust), Ok(()));
    assert_eq!(privilege_gate(Privilege::Normal, Backend::CLI, &none, ShellTrust::Prompt), Ok(()));
    assert_eq!(
        privilege_gate(Privilege::Normal, Backend::UI, &some, ShellTrust::Ultimate),
        Err(Error::PrivilegeDenied(Denial::FullScreenBackend))
    );
    assert_eq!(
        privilege_gate(Privilege::Normal, Backend::CLI, &some, ShellTrust::Ultimate),
        Err(Error::PrivilegeDenied(Denial::ValueOverrides))
    );
    assert_eq!(privilege_gate(Privilege::Experimental, Backend::UI, &some, ShellTrust::Ultimate), Ok(()));
    assert_eq!(
        privilege_gate(Privilege::Experimental, Backend::Headless, &none, ShellTrust::Prompt),
        Err(Error::PrivilegeDenied(Denial::HeadlessConfirmation))
    );
}

#[test]
fn validate_checks_renders_only() {
    let mut overrides = OverrideMap::new();
    overrides.insert("k".to_string(), "v".to_string());
    let render = |privileges| CallArgs {
        privileges,
        command: Command::Render(RenderArguments {
            configuration: String::new(),
            template: None,
            value_overrides: overrides.clone(),
            shell_trust: ShellTrust::NoTrust,
            loose: false,
            backend: Backend::Headless,
        }),
    };
    assert_eq!(
        render(Privilege::Normal).validate(),
        Err(Error::PrivilegeDenied(Denial::ValueOverrides))
    );
    assert_eq!(render(Privilege::Experimental).validate(), Ok(()));
    assert_eq!(CallArgs { privileges: Privilege::Normal, command: Command::Init }.validate(), Ok(()));
}

#[test]
fn trust_gate_decides() {
    assert_eq!(ShellTrust::NoTrust.authorize(Backend::CLI, true), Decision::Skip);
    assert_eq!(ShellTrust::Ultimate.authorize(Backend::Headless, false), Decision::Run);
    assert_eq!(ShellTrust::Prompt.authorize(Backend::Headless, true), Decision::Abort);
    assert_eq!(ShellTrust::Prompt.authorize(Backend::CLI, true), Decision::Run);
    assert_eq!(ShellTrust::Prompt.authorize(Backend::UI, false), Decision::Skip);
    assert!(ShellTrust::Prompt.needs_confirmation(Backend::CLI));
    assert!(!ShellTrust::Prompt.needs_confirmation(Backend::Headless));
    assert!(!ShellTrust::Ultimate.needs_confirmation(Backend::CLI));
    assert!(!ShellTrust::NoTrust.needs_confirmation(Backend::UI));
}

#[test]
fn verdicts_follow_precedence() {
    let var = VariableSpec {
        name: "who".to_string(),
        prompt_text: Some("Who?".to_string()),
        default: Some(DefaultValue::ShellCommand("whoami".to_string())),
        required: true,
    };
    assert_eq!(var.label(), "Who?");
    let mut overrides = OverrideMap::new();
    assert_eq!(
        decide_first(&var, &overrides, ShellTrust::Ultimate, Backend::CLI),
        Verdict::Need(Request::Query)
    );
    assert_eq!(
        decide_first(&var, &overrides, ShellTrust::Ultimate, Backend::Headless),
        Verdict::Need(Request::Execute)
    );
    assert_eq!(
        decide_default(&var, ShellTrust::Prompt, Backend::UI),
        Verdict::Need(Request::Confirm)
    );
    assert_eq!(
        decide_default(&var, ShellTrust::Prompt, Backend::Headless),
        Verdict::Denied(Denial::HeadlessConfirmation)
    );
    let missing = Verdict::Value(ResolvedValue {
        name: "who".to_string(),
        value: String::new(),
        source: Source::Missing,
    });
    assert_eq!(decide_default(&var, ShellTrust::NoTrust, Backend::CLI), missing);
    assert_eq!(
        decide_next(&var, ShellTrust::Ultimate, Backend::CLI, Reply::Output(None)),
        missing
    );
    assert_eq!(
        decide_next(&var, ShellTrust::Ultimate, Backend::CLI, Reply::Cancelled),
        Verdict::Cancelled
    );
    overrides.insert("who".to_string(), "me".to_string());
    assert_eq!(
        decide_first(&var, &overrides, ShellTrust::Ultimate, Backend::CLI),
        Verdict::Value(value("who", "me"))
    );
    let plain = VariableSpec { name: "n".to_string(), prompt_text: None, default: None, required: false };
    assert_eq!(plain.label(), "n");
}

#[test]
fn text_helpers() {
    assert!(same_text("abc", "abc"));
    assert!(!same_text("abc", "abd"));
    assert_eq!(chars_of("héllo"), vec!['h', 'é', 'l', 'l', 'o']);
    assert_eq!(trim_trailing_newline("out\n"), "out");
    assert_eq!(trim_trailing_newline("out\n\n"), "out\n");
    assert_eq!(trim_trailing_newline("out"), "out");
    assert_eq!(trim_trailing_newline(""), "");
    assert_eq!(trim_trailing_newline("\n"), "");
}

#[test]
fn render_substitutes_known_placeholders() {
    let values = vec![value("name", "Ava"), value("place", "Rome")];
    assert_eq!(render("{{name}} in {{place}}, {{name}}!", &values), "Ava in Rome, Ava!");
    assert_eq!(render("", &values), "");
    assert_eq!(render("no placeholders", &values), "no placeholders");
    assert_eq!(render("{{name}}", &values), "Ava");
}

#[test]
fn render_leaves_unknown_placeholders() {
    let values = vec![value("name", "Ava")];
    assert_eq!(render("{{other}} {{name}}", &values), "{{other}} Ava");
    assert_eq!(render("{{ name }} {name} {{name}", &values), "{{ name }} {name} {{name}");
    assert_eq!(render("{{{name}}}", &values), "{Ava}");
    assert_eq!(render("{{x}} ünï {{y}}", &vec![]), "{{x}} ünï {{y}}");
}

#[test]
fn render_does_not_read_values_again() {
    let values = vec![value("a", "{{b}}"), value("b", "{{a}}")];
    assert_eq!(render("{{a}}{{b}}", &values), "{{b}}{{a}}");
    let split = vec![value("a", "{{"), value("b", "x")];
    assert_eq!(render("{{a}}b}}", &split), "{{b}}");
}

#[test]
fn render_takes_first_declared_name() {
    let values = vec![value("n", "first"), value("n", "second")];
    assert_eq!(render("{{n}}", &values), "first");
}

#[test]
fn names_are_unique_in_the_model() {
    let var = |name: &str| VariableSpec {
        name: name.to_string(),
        prompt_text: None,
        default: None,
        required: false,
    };
    let t = TemplateSpec::new("t".to_string(), "body".to_string());
    let t = t.declare(var("a")).unwrap();
    let t = t.declare(var("b")).unwrap();
    let t = t.declare(var("a")).unwrap_err();
    assert_eq!(t.len(), 2);
    assert_eq!(t.variable(1).name, "b");
    assert_eq!(t.name(), "t");
    assert_eq!(t.body(), "body");

    let config = Config::new().add(t).unwrap();
    let config = config.add(TemplateSpec::new("t".to_string(), "other".to_string())).unwrap_err();
    assert_eq!(config.len(), 1);
    let config = config.add(TemplateSpec::new("u".to_string(), "other".to_string())).unwrap();
    assert_eq!(config.position("u"), Some(1));
    assert_eq!(config.position("v"), None);
    assert_eq!(config.lookup("u").unwrap().body(), "other");
    assert!(config.lookup("v").is_none());
    assert_eq!(config.template(0).name(), "t");
}

#[test]
fn choice_is_read_from_a_numbered_list() {
    assert_eq!(parse_choice("1", 3), Some(0));
    assert_eq!(parse_choice("3", 3), Some(2));
    assert_eq!(parse_choice("003", 3), Some(2));
    assert_eq!(parse_choice("12", 12), Some(11));
    assert_eq!(parse_choice("4", 3), None);
    assert_eq!(parse_choice("0", 3), None);
    assert_eq!(parse_choice("", 3), None);
    assert_eq!(parse_choice("two", 3), None);
    assert_eq!(parse_choice("-1", 3), None);
    assert_eq!(parse_choice("1 ", 3), None);
    assert_eq!(parse_choice("1", 0), None);
    assert_eq!(parse_choice("99999999999999999999999999", 3), None);
    assert_eq!(parse_choice("18446744073709551615", usize::MAX), Some(usize::MAX - 1));
    assert_eq!(parse_choice("18446744073709551616", usize::MAX), None);
}

#[test]
fn errors_are_put_in_words() {
    assert_eq!(Error::Argument(ArgumentFault::UnknownFormat).message(), "unknown format");
    assert_eq!(Error::Argument(ArgumentFault::UnknownBackend).message(), "no backend specified");
    assert_eq!(Error::UnknownCommand.message(), "unknown command");
    assert_eq!(
        Error::PrivilegeDenied(Denial::FullScreenBackend).message(),
        "can not use backend+ui without experimental features being activated"
    );
    assert_eq!(
        Error::PrivilegeDenied(Denial::ValueOverrides).message(),
        "value overrides is an experimental feature and needs the respective flag to be active"
    );
    assert_eq!(
        Error::MissingRequiredVariables(vec!["a".to_string(), "b".to_string(), "c".to_string()])
            .message(),
        "missing required variables: a, b, c"
    );
    assert_eq!(
        Error::MissingRequiredVariables(vec!["a".to_string()]).message(),
        "missing required variables: a"
    );
    assert_eq!(join_names(&vec![]), "");
    assert_eq!(join_names(&vec!["x".to_string(), "y".to_string()]), "x, y");
}
