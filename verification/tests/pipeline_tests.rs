use complate::args::{Backend, Privilege, ShellTrust};
use complate::config::{Config, DefaultValue, TemplateSpec, VariableSpec};
use complate::error::{Denial, Error, Stage};
use complate::overrides::OverrideMap;
use complate::pipeline::{missing_names, select_template, Outcome, Pipeline, RenderRequest};
use complate::resolve::{Pending, Reply, ResolvedValue, Resolver, Source, Step};

fn variable(name: &str, default: Option<DefaultValue>, required: bool) -> VariableSpec {
    VariableSpec { name: name.to_string(), prompt_text: None, default, required }
}

fn template(name: &str, body: &str, variables: Vec<VariableSpec>) -> TemplateSpec {
    let mut t = TemplateSpec::new(name.to_string(), body.to_string());
    for v in variables {
        t = t.declare(v).unwrap();
    }
    t
}

fn greet(default: Option<DefaultValue>) -> Config {
    Config::new()
        .add(template("greet", "Hello {{name}}!", vec![variable("name", default, true)]))
        .unwrap()
}

fn request(
    config: Config,
    overrides: &[(&str, &str)],
    trust_mode: ShellTrust,
    backend: Backend,
    loose: bool,
) -> RenderRequest {
    let mut map = OverrideMap::new();
    for (k, v) in overrides {
        map.insert(k.to_string(), v.to_string());
    }
    RenderRequest { config, template_name: None, overrides: map, trust_mode, backend, loose }
}

fn shell(command: &str) -> Option<DefaultValue> {
    Some(DefaultValue::ShellCommand(command.to_string()))
}

fn fixed(value: &str) -> Option<DefaultValue> {
    Some(DefaultValue::StaticValue(value.to_string()))
}

#[test]
fn override_replaces_placeholder() {
    let r = request(greet(None), &[("name", "Ava")], ShellTrust::NoTrust, Backend::Headless, false);
    let (_, outcome) = Pipeline::start(Privilege::Experimental, &r);
    assert_eq!(outcome, Outcome::Rendered("Hello Ava!".to_string()));
}

#[test]
fn static_default_is_substituted() {
    let r = request(greet(fixed("World")), &[], ShellTrust::NoTrust, Backend::Headless, false);
    let (_, outcome) = Pipeline::start(Privilege::Normal, &r);
    assert_eq!(outcome, Outcome::Rendered("Hello World!".to_string()));
}

#[test]
fn full_screen_backend_needs_experimental_privilege() {
    let r = request(greet(fixed("World")), &[], ShellTrust::NoTrust, Backend::UI, false);
    let (p, outcome) = Pipeline::start(Privilege::Normal, &r);
    assert_eq!(outcome, Outcome::Failed(Error::PrivilegeDenied(Denial::FullScreenBackend)));
    assert_eq!(p.pending(), Pending::Nothing);
    assert!(!p.is_selecting());
    let (_, allowed) = Pipeline::start(Privilege::Experimental, &r);
    assert_eq!(allowed, Outcome::Query(0));
}

#[test]
fn overrides_need_experimental_privilege() {
    let r = request(greet(None), &[("name", "Ava")], ShellTrust::NoTrust, Backend::Headless, false);
    let (_, outcome) = Pipeline::start(Privilege::Normal, &r);
    assert_eq!(outcome, Outcome::Failed(Error::PrivilegeDenied(Denial::ValueOverrides)));
}

#[test]
fn headless_cannot_confirm_shell_commands() {
    for privilege in [Privilege::Normal, Privilege::Experimental] {
        let r = request(greet(shell("whoami")), &[], ShellTrust::Prompt, Backend::Headless, false);
        let (_, outcome) = Pipeline::start(privilege, &r);
        assert_eq!(
            outcome,
            Outcome::Failed(Error::PrivilegeDenied(Denial::HeadlessConfirmation))
        );
    }
}

#[test]
fn strict_mode_reports_missing_names() {
    let config = Config::new()
        .add(template(
            "t",
            "{{a}}-{{b}}-{{c}}",
            vec![variable("a", None, true), variable("b", None, false), variable("c", None, true)],
        ))
        .unwrap();
    let r = request(config, &[], ShellTrust::NoTrust, Backend::Headless, false);
    let (_, outcome) = Pipeline::start(Privilege::Normal, &r);
    assert_eq!(
        outcome,
        Outcome::Failed(Error::MissingRequiredVariables(vec!["a".to_string(), "c".to_string()]))
    );
}

#[test]
fn strict_mode_tolerates_missing_optional_variable() {
    let config = Config::new()
        .add(template("t", "[{{a}}]", vec![variable("a", None, false)]))
        .unwrap();
    let r = request(config, &[], ShellTrust::NoTrust, Backend::Headless, false);
    let (_, outcome) = Pipeline::start(Privilege::Normal, &r);
    assert_eq!(outcome, Outcome::Rendered("[]".to_string()));
}

#[test]
fn loose_mode_renders_missing_as_empty() {
    let r = request(greet(None), &[], ShellTrust::NoTrust, Backend::Headless, true);
    let (_, outcome) = Pipeline::start(Privilege::Normal, &r);
    assert_eq!(outcome, Outcome::Rendered("Hello !".to_string()));
}

#[test]
fn no_trust_never_runs_a_command() {
    for backend in [Backend::Headless, Backend::CLI, Backend::UI] {
        let r = request(greet(shell("whoami")), &[], ShellTrust::NoTrust, backend, true);
        let (mut p, mut outcome) = Pipeline::start(Privilege::Experimental, &r);
        if backend != Backend::Headless {
            assert_eq!(outcome, Outcome::Query(0));
            outcome = p.reply(&r, Reply::Answer(None));
        }
        assert_eq!(outcome, Outcome::Rendered("Hello !".to_string()));
    }
}

#[test]
fn ultimate_trust_runs_and_trims_output() {
    let r = request(greet(shell("whoami")), &[], ShellTrust::Ultimate, Backend::Headless, false);
    let (mut p, outcome) = Pipeline::start(Privilege::Normal, &r);
    assert_eq!(outcome, Outcome::Execute(0));
    assert_eq!(p.pending(), Pending::Output);
    assert_eq!(p.template(), 0);
    let outcome = p.reply(&r, Reply::Output(Some("Ava\n".to_string())));
    assert_eq!(outcome, Outcome::Rendered("Hello Ava!".to_string()));
}

#[test]
fn failed_command_falls_through_to_missing() {
    let r = request(greet(shell("false")), &[], ShellTrust::Ultimate, Backend::Headless, false);
    let (mut p, outcome) = Pipeline::start(Privilege::Normal, &r);
    assert_eq!(outcome, Outcome::Execute(0));
    let outcome = p.reply(&r, Reply::Output(None));
    assert_eq!(
        outcome,
        Outcome::Failed(Error::MissingRequiredVariables(vec!["name".to_string()]))
    );
}

#[test]
fn prompt_trust_asks_before_running() {
    let r = request(greet(shell("whoami")), &[], ShellTrust::Prompt, Backend::CLI, false);
    let (mut p, outcome) = Pipeline::start(Privilege::Normal, &r);
    assert_eq!(outcome, Outcome::Query(0));
    assert_eq!(p.reply(&r, Reply::Answer(Some(String::new()))), Outcome::Confirm(0));
    assert_eq!(p.pending(), Pending::Confirmation);
    assert_eq!(p.reply(&r, Reply::Confirmation(true)), Outcome::Execute(0));
    assert_eq!(
        p.reply(&r, Reply::Output(Some("root".to_string()))),
        Outcome::Rendered("Hello root!".to_string())
    );
}

#[test]
fn declined_confirmation_skips_the_command() {
    let r = request(greet(shell("whoami")), &[], ShellTrust::Prompt, Backend::CLI, true);
    let (mut p, _) = Pipeline::start(Privilege::Normal, &r);
    assert_eq!(p.reply(&r, Reply::Answer(None)), Outcome::Confirm(0));
    assert_eq!(
        p.reply(&r, Reply::Confirmation(false)),
        Outcome::Rendered("Hello !".to_string())
    );
}

#[test]
fn interactive_answer_beats_default() {
    let r = request(greet(fixed("World")), &[], ShellTrust::NoTrust, Backend::CLI, false);
    let (mut p, outcome) = Pipeline::start(Privilege::Normal, &r);
    assert_eq!(outcome, Outcome::Query(0));
    assert_eq!(
        p.reply(&r, Reply::Answer(Some("Ava".to_string()))),
        Outcome::Rendered("Hello Ava!".to_string())
    );
}

#[test]
fn empty_answer_falls_through_to_default() {
    let r = request(greet(fixed("World")), &[], ShellTrust::NoTrust, Backend::CLI, false);
    let (mut p, _) = Pipeline::start(Privilege::Normal, &r);
    assert_eq!(
        p.reply(&r, Reply::Answer(Some(String::new()))),
        Outcome::Rendered("Hello World!".to_string())
    );
}

#[test]
fn override_beats_interactive_and_default() {
    let r = request(greet(shell("whoami")), &[("name", "Ava")], ShellTrust::Ultimate, Backend::CLI, false);
    let (_, outcome) = Pipeline::start(Privilege::Experimental, &r);
    assert_eq!(outcome, Outcome::Rendered("Hello Ava!".to_string()));
}

#[test]
fn unknown_override_keys_are_ignored() {
    let r = request(greet(fixed("World")), &[("other", "x")], ShellTrust::NoTrust, Backend::Headless, false);
    let (_, outcome) = Pipeline::start(Privilege::Experimental, &r);
    assert_eq!(outcome, Outcome::Rendered("Hello World!".to_string()));
}

#[test]
fn cancellation_ends_the_render() {
    let r = request(greet(fixed("World")), &[], ShellTrust::NoTrust, Backend::UI, false);
    let (mut p, outcome) = Pipeline::start(Privilege::Experimental, &r);
    assert_eq!(outcome, Outcome::Query(0));
    let outcome = p.reply(&r, Reply::Cancelled);
    assert_eq!(outcome, Outcome::Failed(Error::RenderCancelled));
    assert!(Error::RenderCancelled.is_cancellation());
    assert!(!Error::NoTemplateSelected.is_cancellation());
}

#[test]
fn same_request_renders_the_same_text() {
    let mut outputs = Vec::new();
    for _ in 0..2 {
        let r = request(greet(shell("whoami")), &[], ShellTrust::Ultimate, Backend::Headless, false);
        let (mut p, _) = Pipeline::start(Privilege::Normal, &r);
        outputs.push(p.reply(&r, Reply::Output(Some("Ava\n".to_string()))));
    }
    assert_eq!(outputs[0], outputs[1]);
    assert_eq!(outputs[0], Outcome::Rendered("Hello Ava!".to_string()));
}

fn two_templates() -> Config {
    Config::new()
        .add(template("one", "1:{{x}}", vec![variable("x", fixed("a"), true)]))
        .unwrap()
        .add(template("two", "2:{{x}}", vec![variable("x", fixed("b"), true)]))
        .unwrap()
}

#[test]
fn empty_configuration_is_an_error() {
    let r = request(Config::new(), &[], ShellTrust::NoTrust, Backend::Headless, false);
    let (_, outcome) = Pipeline::start(Privilege::Normal, &r);
    assert_eq!(outcome, Outcome::Failed(Error::ConfigurationEmpty));
    assert_eq!(
        select_template(&Config::new(), &Some("x".to_string()), Backend::CLI),
        Err(Error::ConfigurationEmpty)
    );
}

#[test]
fn headless_cannot_pick_among_templates() {
    let r = request(two_templates(), &[], ShellTrust::NoTrust, Backend::Headless, false);
    let (_, outcome) = Pipeline::start(Privilege::Normal, &r);
    assert_eq!(outcome, Outcome::Failed(Error::NoTemplateSelected));
}

#[test]
fn named_template_is_selected() {
    let mut r = request(two_templates(), &[], ShellTrust::NoTrust, Backend::Headless, false);
    r.template_name = Some("two".to_string());
    let (p, outcome) = Pipeline::start(Privilege::Normal, &r);
    assert_eq!(outcome, Outcome::Rendered("2:b".to_string()));
    assert_eq!(p.template(), 1);
    r.template_name = Some("three".to_string());
    let (_, outcome) = Pipeline::start(Privilege::Normal, &r);
    assert_eq!(outcome, Outcome::Failed(Error::NoTemplateSelected));
}

#[test]
fn interactive_backend_picks_a_template() {
    let r = request(two_templates(), &[], ShellTrust::NoTrust, Backend::CLI, false);
    let (mut p, outcome) = Pipeline::start(Privilege::Normal, &r);
    assert_eq!(outcome, Outcome::Select);
    assert!(p.is_selecting());
    assert_eq!(p.pick(&r, Some(1)), Outcome::Query(0));
    assert!(!p.is_selecting());
    assert_eq!(p.reply(&r, Reply::Answer(None)), Outcome::Rendered("2:b".to_string()));

    let (mut p, _) = Pipeline::start(Privilege::Normal, &r);
    assert_eq!(p.pick(&r, None), Outcome::Failed(Error::RenderCancelled));
    let (mut p, _) = Pipeline::start(Privilege::Normal, &r);
    assert_eq!(p.pick(&r, Some(2)), Outcome::Failed(Error::NoTemplateSelected));
}

#[test]
fn select_template_covers_every_case() {
    let config = two_templates();
    assert_eq!(select_template(&config, &Some("one".to_string()), Backend::Headless), Ok(Some(0)));
    assert_eq!(select_template(&config, &None, Backend::UI), Ok(None));
    assert_eq!(
        select_template(&config, &None, Backend::Headless),
        Err(Error::NoTemplateSelected)
    );
    assert_eq!(select_template(&greet(None), &None, Backend::Headless), Ok(Some(0)));
}

#[test]
fn resolver_walks_variables_in_declaration_order() {
    let t = template(
        "t",
        "{{a}}{{b}}{{c}}",
        vec![
            variable("a", fixed("1"), true),
            variable("b", shell("date"), true),
            variable("c", None, false),
        ],
    );
    let overrides = OverrideMap::new();
    let (mut resolver, step) = Resolver::start(&t, &overrides, ShellTrust::Ultimate, Backend::CLI);
    assert_eq!(step, Step::Query(0));
    assert_eq!(resolver.pending(), Pending::Answer);
    let step = resolver.resume(&t, &overrides, ShellTrust::Ultimate, Backend::CLI, Reply::Answer(None));
    assert_eq!(step, Step::Query(1));
    let step = resolver.resume(&t, &overrides, ShellTrust::Ultimate, Backend::CLI, Reply::Answer(None));
    assert_eq!(step, Step::Execute(1));
    let step = resolver.resume(
        &t,
        &overrides,
        ShellTrust::Ultimate,
        Backend::CLI,
        Reply::Output(Some("today\n\n".to_string())),
    );
    assert_eq!(step, Step::Query(2));
    let step = resolver.resume(&t, &overrides, ShellTrust::Ultimate, Backend::CLI, Reply::Answer(None));
    assert_eq!(step, Step::Done);
    let expected = vec![
        ResolvedValue { name: "a".to_string(), value: "1".to_string(), source: Source::StaticDefault },
        ResolvedValue {
            name: "b".to_string(),
            value: "today\n".to_string(),
            source: Source::ShellComputed,
        },
        ResolvedValue { name: "c".to_string(), value: String::new(), source: Source::Missing },
    ];
    assert_eq!(resolver.values(), &expected);
    assert_eq!(missing_names(&t, resolver.values()), Vec::<String>::new());
}

#[test]
fn resolver_without_variables_is_done() {
    let t = template("t", "plain", vec![]);
    let (resolver, step) =
        Resolver::start(&t, &OverrideMap::new(), ShellTrust::NoTrust, Backend::CLI);
    assert_eq!(step, Step::Done);
    assert!(resolver.values().is_empty());
    assert_eq!(Resolver::idle().pending(), Pending::Nothing);
}

#[test]
fn errors_carry_their_stage() {
    assert_eq!(Error::UnknownCommand.stage(), Stage::Arguments);
    assert_eq!(Error::PrivilegeDenied(Denial::ValueOverrides).stage(), Stage::PrivilegeGate);
    assert_eq!(Error::NoTemplateSelected.stage(), Stage::Selection);
    assert_eq!(Error::ConfigurationEmpty.stage(), Stage::Selection);
    assert_eq!(Error::MissingRequiredVariables(vec![]).stage(), Stage::Resolution);
    assert_eq!(Error::RenderCancelled.stage(), Stage::Resolution);
}
