//! What holds of every render, proved from the definitions of the pipeline.
use vstd::prelude::*;
use crate::args::{Backend, Privilege, ShellTrust};
use crate::config::{DefaultModel, TemplateModel, VariableModel};
use crate::error::ErrorModel;
use crate::pipeline::{
    begun,
    chosen,
    finished,
    missing_required,
    name_of,
    replied,
    resolved_count,
    started,
    OutcomeModel,
    PipelineModel,
    RenderRequest,
};
use crate::render::{occurs_at, placeholder, placeholder_at, render_from, rendered};
use crate::resolve::{
    after,
    aligned,
    fall_back,
    first_verdict,
    missing,
    next_verdict,
    settle,
    Pending,
    ReplyModel,
    Request,
    ResolvedModel,
    ResolverModel,
    Source,
    Step,
    VerdictModel,
};

verus! {

/// The value that an override gives a variable.
pub open spec fn overridden(var: VariableModel, overrides: Map<Seq<char>, Seq<char>>) -> ResolvedModel {
    ResolvedModel { name: var.name, value: overrides[var.name], source: Source::Override }
}

/// An override wins: a variable that has one gets its value, whatever the
/// backend, the trust mode and the variable's default are, and the resolver
/// goes on to the next variable without asking for anything.
pub proof fn law_override_wins(
    vars: Seq<VariableModel>,
    overrides: Map<Seq<char>, Seq<char>>,
    trust: ShellTrust,
    backend: Backend,
    cursor: int,
    values: Seq<ResolvedModel>,
)
    requires
        0 <= cursor < vars.len(),
        overrides.contains_key(vars[cursor].name),
    ensures
        first_verdict(vars[cursor], overrides, trust, backend) == VerdictModel::Value(
            overridden(vars[cursor], overrides),
        ),
        settle(vars, overrides, trust, backend, cursor, values) == settle(
            vars,
            overrides,
            trust,
            backend,
            cursor + 1,
            values.push(overridden(vars[cursor], overrides)),
        ),
{
}

/// Where every variable from `cursor` on has an override, the resolver ends
/// without a request: the values it had stay, and each of the other
/// variables gets the value of its override.
pub proof fn law_overrides_resolve_all(
    vars: Seq<VariableModel>,
    overrides: Map<Seq<char>, Seq<char>>,
    trust: ShellTrust,
    backend: Backend,
    cursor: int,
    values: Seq<ResolvedModel>,
)
    requires
        0 <= cursor <= vars.len(),
        forall|i: int| cursor <= i < vars.len() ==> overrides.contains_key(#[trigger] vars[i].name),
    ensures
        ({
            let end = settle(vars, overrides, trust, backend, cursor, values);
            &&& end.step == Step::Done
            &&& end.state.values.len() == values.len() + vars.len() - cursor
            &&& forall|j: int| 0 <= j < values.len() ==> end.state.values[j] == values[j]
            &&& forall|i: int|
                cursor <= i < vars.len() ==> end.state.values[values.len() + i - cursor]
                    == overridden(#[trigger] vars[i], overrides)
        }),
    decreases vars.len() - cursor,
{
    if cursor < vars.len() {
        let next = values.push(overridden(vars[cursor], overrides));
        law_override_wins(vars, overrides, trust, backend, cursor, values);
        law_overrides_resolve_all(vars, overrides, trust, backend, cursor + 1, next);
        let end = settle(vars, overrides, trust, backend, cursor, values);
        assert forall|j: int| 0 <= j < values.len() implies end.state.values[j] == values[j] by {
            assert(next[j] == values[j]);
        }
        assert forall|i: int| cursor <= i < vars.len() implies end.state.values[values.len() + i
            - cursor] == overridden(#[trigger] vars[i], overrides) by {
            if i == cursor {
                assert(next[values.len() as int] == overridden(vars[cursor], overrides));
            } else {
                assert(values.len() + i - cursor == next.len() + i - (cursor + 1));
            }
        }
    }
}

/// The values of variables that all have an override.
pub open spec fn all_overridden(
    vars: Seq<VariableModel>,
    overrides: Map<Seq<char>, Seq<char>>,
) -> Seq<ResolvedModel> {
    Seq::new(vars.len(), |i: int| overridden(vars[i], overrides))
}

/// Where every variable has a value, no name is missing.
pub proof fn lemma_none_missing(vars: Seq<VariableModel>, values: Seq<ResolvedModel>, n: int)
    requires
        forall|i: int| 0 <= i < n && i < values.len() ==> (#[trigger] values[i]).source
            != Source::Missing,
    ensures
        missing_required(vars, values, n).len() == 0,
    decreases n,
{
    if 0 < n && n <= vars.len() && n <= values.len() {
        lemma_none_missing(vars, values, n - 1);
    }
}

/// Where every variable of the template has an override, the render ends
/// at once, without a question or a shell command, and the text holds the
/// override values in place of the placeholders.
pub proof fn law_overrides_render(request: RenderRequest, index: int)
    requires
        0 <= index < request.config@.len(),
        forall|i: int|
            0 <= i < request.config@[index].variables.len() ==> request.overrides@.contains_key(
                #[trigger] request.config@[index].variables[i].name,
            ),
    ensures
        begun(request, index).outcome == OutcomeModel::Rendered(
            rendered(
                request.config@[index].body,
                all_overridden(request.config@[index].variables, request.overrides@),
            ),
        ),
{
    let template = request.config@[index];
    let vars = template.variables;
    let end = settle(
        vars,
        request.overrides@,
        request.trust_mode,
        request.backend,
        0,
        Seq::empty(),
    );
    law_overrides_resolve_all(
        vars,
        request.overrides@,
        request.trust_mode,
        request.backend,
        0,
        Seq::empty(),
    );
    assert(end.state.values =~= all_overridden(vars, request.overrides@)) by {
        assert forall|i: int| 0 <= i < vars.len() implies end.state.values[i] == overridden(
            vars[i],
            request.overrides@,
        ) by {
            assert(end.state.values[0 + i - 0] == overridden(vars[i], request.overrides@));
        }
    }
    lemma_none_missing(vars, end.state.values, resolved_count(vars, end.state.values));
}

/// Whether a verdict asks for a shell command to be confirmed or run.
pub open spec fn wants_shell(verdict: VerdictModel) -> bool {
    verdict == VerdictModel::Need(Request::Confirm) || verdict == VerdictModel::Need(
        Request::Execute,
    )
}

/// Without trust no verdict asks for a shell command, whatever the backend
/// and the reply are; a variable whose default is a shell command, and which
/// nobody gave a value, is missing.
pub proof fn law_no_trust_no_shell(
    var: VariableModel,
    overrides: Map<Seq<char>, Seq<char>>,
    backend: Backend,
    reply: ReplyModel,
)
    ensures
        !wants_shell(first_verdict(var, overrides, ShellTrust::NoTrust, backend)),
        !wants_shell(next_verdict(var, ShellTrust::NoTrust, backend, reply)),
        var.default is Shell ==> fall_back(var, ShellTrust::NoTrust, backend)
            == VerdictModel::Value(missing(var)),
        var.default matches DefaultModel::Static(v) ==> fall_back(
            var,
            ShellTrust::NoTrust,
            backend,
        ) == VerdictModel::Value(
            ResolvedModel { name: var.name, value: v, source: Source::StaticDefault },
        ),
{
}

/// Without trust the resolver never comes to ask for a shell command to be
/// confirmed or run, from any variable on and after any verdict that does
/// not ask for one itself.
pub proof fn law_no_trust_never_runs(
    vars: Seq<VariableModel>,
    overrides: Map<Seq<char>, Seq<char>>,
    backend: Backend,
    verdict: VerdictModel,
    cursor: int,
    values: Seq<ResolvedModel>,
)
    requires
        !wants_shell(verdict),
    ensures
        !(after(vars, overrides, ShellTrust::NoTrust, backend, verdict, cursor, values).step is Execute),
        !(after(vars, overrides, ShellTrust::NoTrust, backend, verdict, cursor, values).step is Confirm),
        !(settle(vars, overrides, ShellTrust::NoTrust, backend, cursor, values).step is Execute),
        !(settle(vars, overrides, ShellTrust::NoTrust, backend, cursor, values).step is Confirm),
    decreases vars.len() - cursor, 1int,
{
    if 0 <= cursor < vars.len() {
        let first = first_verdict(vars[cursor], overrides, ShellTrust::NoTrust, backend);
        if let VerdictModel::Value(v) = first {
            law_no_trust_never_runs(vars, overrides, backend, first, cursor + 1, values.push(v));
        }
    }
    if cursor < vars.len() {
        if let VerdictModel::Value(v) = verdict {
            law_no_trust_never_runs(vars, overrides, backend, verdict, cursor + 1, values.push(v));
        }
    }
}

/// The resolver keeps its values in step with the variables: each value
/// carries the name of the variable at its index, and when the resolver is
/// done every variable has its value.
pub proof fn law_done_resolves_all(
    vars: Seq<VariableModel>,
    overrides: Map<Seq<char>, Seq<char>>,
    trust: ShellTrust,
    backend: Backend,
    cursor: int,
    values: Seq<ResolvedModel>,
)
    requires
        aligned(vars, ResolverModel { cursor, pending: Pending::Nothing, values }),
    ensures
        ({
            let end = settle(vars, overrides, trust, backend, cursor, values);
            &&& aligned(vars, end.state)
            &&& end.step == Step::Done ==> end.state.values.len() == vars.len()
        }),
    decreases vars.len() - cursor,
{
    if cursor < vars.len() {
        if let VerdictModel::Value(v) = first_verdict(vars[cursor], overrides, trust, backend) {
            let next = values.push(v);
            assert forall|i: int| 0 <= i < cursor + 1 implies (#[trigger] next[i]).name
                == vars[i].name by {
                if i < cursor {
                    assert(next[i] == values[i]);
                }
            }
            law_done_resolves_all(vars, overrides, trust, backend, cursor + 1, next);
        }
    }
}

/// Whether an outcome asks for a shell command to be confirmed or run.
pub open spec fn asks_for_shell(outcome: OutcomeModel) -> bool {
    outcome is Confirm || outcome is Execute
}

/// Without trust a render never asks for a shell command to be confirmed or
/// run: not at its start, not after the choice of a template, and not after
/// any reply, whatever the backend is.
pub proof fn law_no_trust_render(
    privilege: Privilege,
    request: RenderRequest,
    choice: Option<int>,
    pipeline: PipelineModel,
    reply: ReplyModel,
)
    requires
        request.trust_mode == ShellTrust::NoTrust,
    ensures
        !asks_for_shell(started(privilege, request).outcome),
        !asks_for_shell(chosen(request, choice).outcome),
        !asks_for_shell(replied(request, pipeline, reply).outcome),
{
    let quiet = VerdictModel::Cancelled;
    assert forall|index: int| !asks_for_shell(#[trigger] begun(request, index).outcome) by {
        law_no_trust_never_runs(
            request.config@[index].variables,
            request.overrides@,
            request.backend,
            quiet,
            0,
            Seq::empty(),
        );
    }
    let vars = request.config@[pipeline.template].variables;
    let verdict = next_verdict(
        vars[pipeline.state.cursor],
        request.trust_mode,
        request.backend,
        reply,
    );
    law_no_trust_no_shell(vars[pipeline.state.cursor], request.overrides@, request.backend, reply);
    law_no_trust_never_runs(
        vars,
        request.overrides@,
        request.backend,
        verdict,
        pipeline.state.cursor,
        pipeline.state.values,
    );
}

/// The index of the variable that a step asks the caller to work on.
pub open spec fn asked_index(step: Step) -> Option<int> {
    match step {
        Step::Query(i) => Some(i as int),
        Step::Confirm(i) => Some(i as int),
        Step::Execute(i) => Some(i as int),
        _ => None,
    }
}

/// The resolver never goes back: what it asks for from `cursor` on is
/// about the variable at `cursor` or a later one.
pub proof fn lemma_settle_moves_on(
    vars: Seq<VariableModel>,
    overrides: Map<Seq<char>, Seq<char>>,
    trust: ShellTrust,
    backend: Backend,
    cursor: int,
    values: Seq<ResolvedModel>,
)
    requires
        0 <= cursor,
        vars.len() <= usize::MAX,
    ensures
        asked_index(settle(vars, overrides, trust, backend, cursor, values).step) matches Some(i)
            ==> cursor <= i,
    decreases vars.len() - cursor,
{
    if cursor < vars.len() {
        if let VerdictModel::Value(v) = first_verdict(vars[cursor], overrides, trust, backend) {
            lemma_settle_moves_on(vars, overrides, trust, backend, cursor + 1, values.push(v));
        }
    }
}

/// Nothing is asked twice of one variable: after the answer to a query the
/// variable is not queried again, after a confirmation it is neither
/// queried nor confirmed again, and after its command has run nothing more
/// is asked about it.
pub proof fn law_each_request_once(
    vars: Seq<VariableModel>,
    overrides: Map<Seq<char>, Seq<char>>,
    trust: ShellTrust,
    backend: Backend,
    reply: ReplyModel,
    cursor: int,
    values: Seq<ResolvedModel>,
)
    requires
        0 <= cursor < vars.len(),
        vars.len() <= usize::MAX,
    ensures
        ({
            let step = after(
                vars,
                overrides,
                trust,
                backend,
                next_verdict(vars[cursor], trust, backend, reply),
                cursor,
                values,
            ).step;
            &&& step != Step::Query(cursor as usize)
            &&& reply is Confirmation || reply is Output ==> step != Step::Confirm(cursor as usize)
            &&& reply is Output ==> step != Step::Execute(cursor as usize)
        }),
{
    if let VerdictModel::Value(v) = next_verdict(vars[cursor], trust, backend, reply) {
        lemma_settle_moves_on(vars, overrides, trust, backend, cursor + 1, values.push(v));
    }
}

/// The headless backend is never asked anything: with it the resolver
/// comes to no query and no confirmation, from any variable on.
pub proof fn law_headless_never_asks(
    vars: Seq<VariableModel>,
    overrides: Map<Seq<char>, Seq<char>>,
    trust: ShellTrust,
    cursor: int,
    values: Seq<ResolvedModel>,
)
    ensures
        !(settle(vars, overrides, trust, Backend::Headless, cursor, values).step is Query),
        !(settle(vars, overrides, trust, Backend::Headless, cursor, values).step is Confirm),
    decreases vars.len() - cursor,
{
    if 0 <= cursor < vars.len() {
        if let VerdictModel::Value(v) = first_verdict(
            vars[cursor],
            overrides,
            trust,
            Backend::Headless,
        ) {
            law_headless_never_asks(vars, overrides, trust, cursor + 1, values.push(v));
        }
    }
}

/// A user who ends the render ends it at once: the render fails as
/// cancelled, and no further variable is resolved.
pub proof fn law_cancellation_ends_render(request: RenderRequest, pipeline: PipelineModel)
    ensures
        replied(request, pipeline, ReplyModel::Cancelled).outcome == OutcomeModel::Failed(
            ErrorModel::RenderCancelled,
        ),
        replied(request, pipeline, ReplyModel::Cancelled).pipeline.state.values
            == pipeline.state.values,
        chosen(request, None).outcome == OutcomeModel::Failed(ErrorModel::RenderCancelled),
{
}

/// Every required variable without a value is among the missing names.
pub proof fn lemma_missing_required_holds(
    vars: Seq<VariableModel>,
    values: Seq<ResolvedModel>,
    n: int,
    i: int,
)
    requires
        0 <= i < n <= vars.len(),
        n <= values.len(),
        values[i].source == Source::Missing,
        vars[i].required,
    ensures
        missing_required(vars, values, n).contains(vars[i].name),
    decreases n,
{
    let before = missing_required(vars, values, n - 1);
    if i < n - 1 {
        lemma_missing_required_holds(vars, values, n - 1, i);
        let at = choose|at: int| 0 <= at < before.len() && before[at] == vars[i].name;
        assert(missing_required(vars, values, n)[at] == vars[i].name);
    } else {
        assert(before.push(vars[i].name)[before.len() as int] == vars[i].name);
    }
}

/// In strict mode a required variable without a value fails the render: the
/// error names the variable, and no text is rendered.
pub proof fn law_strict_fails_on_missing(
    template: TemplateModel,
    values: Seq<ResolvedModel>,
    i: int,
)
    requires
        values.len() == template.variables.len(),
        0 <= i < values.len(),
        values[i].source == Source::Missing,
        template.variables[i].required,
    ensures
        finished(template, false, values) matches OutcomeModel::Failed(
            ErrorModel::MissingRequiredVariables(names),
        ) && names.contains(template.variables[i].name),
{
    lemma_missing_required_holds(template.variables, values, values.len() as int, i);
}

/// In loose mode a render whose variables are resolved always gives text.
pub proof fn law_loose_renders(template: TemplateModel, values: Seq<ResolvedModel>)
    ensures
        finished(template, true, values) == OutcomeModel::Rendered(rendered(template.body, values)),
{
}

/// A value that no source gave is the empty string, whichever verdict it
/// comes from.
pub proof fn law_missing_is_empty(
    var: VariableModel,
    overrides: Map<Seq<char>, Seq<char>>,
    trust: ShellTrust,
    backend: Backend,
    reply: ReplyModel,
)
    ensures
        first_verdict(var, overrides, trust, backend) matches VerdictModel::Value(v) ==> (v.source
            == Source::Missing ==> v.value == Seq::<char>::empty()),
        next_verdict(var, trust, backend, reply) matches VerdictModel::Value(v) ==> (v.source
            == Source::Missing ==> v.value == Seq::<char>::empty()),
{
}

/// The placeholder that `placeholder_at` finds belongs to a value and stands
/// in the body at that place.
pub proof fn lemma_placeholder_at(body: Seq<char>, pos: int, values: Seq<ResolvedModel>, k: int)
    requires
        0 <= k,
    ensures
        placeholder_at(body, pos, values, k) matches Some(found) ==> k <= found < values.len()
            && occurs_at(body, pos, placeholder(values[found].name)) && pos
            + values[found].name.len() + 4 <= body.len(),
    decreases values.len() - k,
{
    if k < values.len() && !occurs_at(body, pos, placeholder(values[k].name)) {
        lemma_placeholder_at(body, pos, values, k + 1);
    }
}

/// Where the placeholder of a resolved variable stands, the rendered text
/// holds the variable's value, and goes on behind the placeholder; an empty
/// value leaves nothing in its place.
pub proof fn law_placeholder_gives_value(
    body: Seq<char>,
    values: Seq<ResolvedModel>,
    pos: int,
    k: int,
)
    requires
        0 <= pos < body.len(),
        placeholder_at(body, pos, values, 0) == Some(k),
    ensures
        render_from(body, values, pos) == values[k].value + render_from(
            body,
            values,
            pos + placeholder(values[k].name).len(),
        ),
        values[k].value.len() == 0 ==> render_from(body, values, pos) == render_from(
            body,
            values,
            pos + placeholder(values[k].name).len(),
        ),
{
    lemma_placeholder_at(body, pos, values, 0);
    let rest = render_from(body, values, pos + values[k].name.len() + 4);
    assert(placeholder(values[k].name).len() == values[k].name.len() + 4);
    if values[k].value.len() == 0 {
        assert(values[k].value + rest =~= rest);
    }
}

/// A body is rendered to itself where no variable has a value: placeholders
/// of unknown names stay as they are.
pub proof fn law_render_without_values(body: Seq<char>, pos: int)
    requires
        0 <= pos <= body.len(),
    ensures
        render_from(body, Seq::empty(), pos) == body.skip(pos),
    decreases body.len() - pos,
{
    if pos < body.len() {
        law_render_without_values(body, pos + 1);
        assert(seq![body[pos]] + body.skip(pos + 1) =~= body.skip(pos));
    } else {
        assert(body.skip(pos) =~= Seq::empty());
    }
}

/// Whether two requests ask for the same render.
pub open spec fn same_request(a: RenderRequest, b: RenderRequest) -> bool {
    &&& a.config@ == b.config@
    &&& name_of(a.template_name) == name_of(b.template_name)
    &&& a.overrides@ == b.overrides@
    &&& a.trust_mode == b.trust_mode
    &&& a.backend == b.backend
    &&& a.loose == b.loose
}

/// Two renders of the same request that get the same replies come to the
/// same outcome at every step, and so to the same text.
pub proof fn law_same_request_same_run(
    privilege: Privilege,
    a: RenderRequest,
    b: RenderRequest,
    choice: Option<int>,
    pipeline: PipelineModel,
    reply: ReplyModel,
)
    requires
        same_request(a, b),
    ensures
        started(privilege, a) == started(privilege, b),
        chosen(a, choice) == chosen(b, choice),
        replied(a, pipeline, reply) == replied(b, pipeline, reply),
{
}

} // verus!
