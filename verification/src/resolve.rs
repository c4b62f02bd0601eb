//! The variable resolver: one value for every declared variable, from the
//! first source in the order of precedence that has one.
//!
//! Asking the user and running a command are the caller's work. The resolver
//! says what it needs next, and goes on when it is handed the reply.
use vstd::prelude::*;
use crate::args::{Backend, ShellTrust};
use crate::config::{
    DefaultModel,
    DefaultValue,
    TemplateSpec,
    VariableModel,
    VariableSpec,
};
use crate::error::Denial;
use crate::overrides::OverrideMap;
use crate::text::{trim_newline, trim_trailing_newline};
use crate::trust::{asks, decision, Decision};

verus! {

/// Where a resolved value came from.
#[derive(Debug, Clone, Copy, PartialEq, Eq, Structural)]
pub enum Source {
    Override,
    Interactive,
    ShellComputed,
    StaticDefault,
    Missing,
}

/// The value of one variable for one render.
#[derive(Debug, Clone, PartialEq, Eq)]
pub struct ResolvedValue {
    pub name: String,
    pub value: String,
    pub source: Source,
}

/// The mathematical value of a [`ResolvedValue`].
pub ghost struct ResolvedModel {
    pub name: Seq<char>,
    pub value: Seq<char>,
    pub source: Source,
}

impl View for ResolvedValue {
    type V = ResolvedModel;

    open spec fn view(&self) -> ResolvedModel {
        ResolvedModel { name: self.name@, value: self.value@, source: self.source }
    }
}

/// The models of a sequence of resolved values.
pub open spec fn resolved_models(v: Seq<ResolvedValue>) -> Seq<ResolvedModel> {
    Seq::new(v.len(), |i: int| v[i]@)
}

/// Outside work that the resolver asks for.
#[derive(Debug, Clone, Copy, PartialEq, Eq, Structural)]
pub enum Request {
    /// Ask the user for the variable's value.
    Query,
    /// Ask the user whether the variable's shell command may run.
    Confirm,
    /// Run the variable's shell command.
    Execute,
}

/// The request that the resolver waits on.
#[derive(Debug, Clone, Copy, PartialEq, Eq, Structural)]
pub enum Pending {
    Nothing,
    Answer,
    Confirmation,
    Output,
}

/// What came of a request.
#[derive(Debug, Clone, PartialEq, Eq)]
pub enum Reply {
    /// The user's answer to a query; `None`, or an empty line, is no answer.
    Answer(Option<String>),
    /// The user's answer to a confirmation.
    Confirmation(bool),
    /// What the command wrote to its standard output; `None` where it failed
    /// or did not end in time.
    Output(Option<String>),
    /// The user ended the render.
    Cancelled,
}

/// The mathematical value of a [`Reply`].
pub ghost enum ReplyModel {
    Answer(Option<Seq<char>>),
    Confirmation(bool),
    Output(Option<Seq<char>>),
    Cancelled,
}

impl View for Reply {
    type V = ReplyModel;

    open spec fn view(&self) -> ReplyModel {
        match self {
            Reply::Answer(Some(s)) => ReplyModel::Answer(Some(s@)),
            Reply::Answer(None) => ReplyModel::Answer(None),
            Reply::Confirmation(c) => ReplyModel::Confirmation(*c),
            Reply::Output(Some(s)) => ReplyModel::Output(Some(s@)),
            Reply::Output(None) => ReplyModel::Output(None),
            Reply::Cancelled => ReplyModel::Cancelled,
        }
    }
}

/// What is known of one variable: its value, the work that is needed before
/// more can be said, or the reason for which the render ends.
#[derive(Debug, Clone, PartialEq, Eq)]
pub enum Verdict {
    Value(ResolvedValue),
    Need(Request),
    Cancelled,
    Denied(Denial),
}

/// The mathematical value of a [`Verdict`].
pub ghost enum VerdictModel {
    Value(ResolvedModel),
    Need(Request),
    Cancelled,
    Denied(Denial),
}

impl View for Verdict {
    type V = VerdictModel;

    open spec fn view(&self) -> VerdictModel {
        match self {
            Verdict::Value(v) => VerdictModel::Value(v@),
            Verdict::Need(r) => VerdictModel::Need(*r),
            Verdict::Cancelled => VerdictModel::Cancelled,
            Verdict::Denied(d) => VerdictModel::Denied(*d),
        }
    }
}

/// What the caller has to do next.
#[derive(Debug, Clone, Copy, PartialEq, Eq, Structural)]
pub enum Step {
    /// Ask for the value of the variable at this index.
    Query(usize),
    /// Ask whether the shell command of the variable at this index may run.
    Confirm(usize),
    /// Run the shell command of the variable at this index.
    Execute(usize),
    /// Every variable has its value.
    Done,
    /// The user ended the render.
    Cancelled,
    /// The render is not permitted.
    Denied(Denial),
}

/// A variable for which no source has a value: the empty string stands for it.
pub open spec fn missing(var: VariableModel) -> ResolvedModel {
    ResolvedModel { name: var.name, value: Seq::empty(), source: Source::Missing }
}

/// What the trust gate makes of a variable's shell command.
pub open spec fn gated(var: VariableModel, d: Decision) -> VerdictModel {
    match d {
        Decision::Run => VerdictModel::Need(Request::Execute),
        Decision::Skip => VerdictModel::Value(missing(var)),
        Decision::Abort => VerdictModel::Denied(Denial::HeadlessConfirmation),
    }
}

/// The verdict from a variable's default, once neither an override nor the
/// user gave a value.
pub open spec fn fall_back(var: VariableModel, trust: ShellTrust, backend: Backend) -> VerdictModel {
    match var.default {
        DefaultModel::Shell(_) => if asks(trust, backend) {
            VerdictModel::Need(Request::Confirm)
        } else {
            gated(var, decision(trust, backend, false))
        },
        DefaultModel::Static(v) => VerdictModel::Value(
            ResolvedModel { name: var.name, value: v, source: Source::StaticDefault },
        ),
        DefaultModel::Absent => VerdictModel::Value(missing(var)),
    }
}

/// The verdict on a variable before anything was asked: an override wins, an
/// interactive backend is asked next, and the default comes last.
pub open spec fn first_verdict(
    var: VariableModel,
    overrides: Map<Seq<char>, Seq<char>>,
    trust: ShellTrust,
    backend: Backend,
) -> VerdictModel {
    if overrides.contains_key(var.name) {
        VerdictModel::Value(
            ResolvedModel { name: var.name, value: overrides[var.name], source: Source::Override },
        )
    } else if backend != Backend::Headless {
        VerdictModel::Need(Request::Query)
    } else {
        fall_back(var, trust, backend)
    }
}

/// Whether `reply` is a reply to the request that is pending.
pub open spec fn answers(pending: Pending, reply: ReplyModel) -> bool {
    match (pending, reply) {
        (Pending::Answer, ReplyModel::Answer(_)) => true,
        (Pending::Confirmation, ReplyModel::Confirmation(_)) => true,
        (Pending::Output, ReplyModel::Output(_)) => true,
        (Pending::Nothing, _) => false,
        (_, ReplyModel::Cancelled) => true,
        _ => false,
    }
}

/// The verdict on a variable after a reply.
pub open spec fn next_verdict(
    var: VariableModel,
    trust: ShellTrust,
    backend: Backend,
    reply: ReplyModel,
) -> VerdictModel {
    match reply {
        ReplyModel::Cancelled => VerdictModel::Cancelled,
        ReplyModel::Answer(Some(s)) => if s.len() > 0 {
            VerdictModel::Value(
                ResolvedModel { name: var.name, value: s, source: Source::Interactive },
            )
        } else {
            fall_back(var, trust, backend)
        },
        ReplyModel::Answer(None) => fall_back(var, trust, backend),
        ReplyModel::Confirmation(c) => gated(var, decision(trust, backend, c)),
        ReplyModel::Output(Some(o)) => VerdictModel::Value(
            ResolvedModel {
                name: var.name,
                value: trim_newline(o),
                source: Source::ShellComputed,
            },
        ),
        ReplyModel::Output(None) => VerdictModel::Value(missing(var)),
    }
}

/// The state of a resolver: the variable it works on, what it waits for, and
/// the values of the variables before that one.
pub ghost struct ResolverModel {
    pub cursor: int,
    pub pending: Pending,
    pub values: Seq<ResolvedModel>,
}

/// A resolver's state together with what its caller has to do next.
pub ghost struct Progress {
    pub state: ResolverModel,
    pub step: Step,
}

/// What the resolver waits for once it has made a request.
pub open spec fn pending_of(request: Request) -> Pending {
    match request {
        Request::Query => Pending::Answer,
        Request::Confirm => Pending::Confirmation,
        Request::Execute => Pending::Output,
    }
}

/// The step that asks the caller for `request` on the variable at `at`.
pub open spec fn step_of(request: Request, at: int) -> Step {
    let index = #[verifier::truncate] (at as usize);
    match request {
        Request::Query => Step::Query(index),
        Request::Confirm => Step::Confirm(index),
        Request::Execute => Step::Execute(index),
    }
}

/// Where the resolver stands once the variable at `cursor` has the verdict
/// `verdict`: a value lets it go on to the variables that follow.
pub open spec fn after(
    vars: Seq<VariableModel>,
    overrides: Map<Seq<char>, Seq<char>>,
    trust: ShellTrust,
    backend: Backend,
    verdict: VerdictModel,
    cursor: int,
    values: Seq<ResolvedModel>,
) -> Progress
    decreases vars.len() - cursor, 0int,
{
    match verdict {
        VerdictModel::Value(v) => if cursor < vars.len() {
            settle(vars, overrides, trust, backend, cursor + 1, values.push(v))
        } else {
            Progress {
                state: ResolverModel {
                    cursor: cursor + 1,
                    pending: Pending::Nothing,
                    values: values.push(v),
                },
                step: Step::Done,
            }
        },
        VerdictModel::Need(r) => Progress {
            state: ResolverModel { cursor, pending: pending_of(r), values },
            step: step_of(r, cursor),
        },
        VerdictModel::Cancelled => Progress {
            state: ResolverModel { cursor, pending: Pending::Nothing, values },
            step: Step::Cancelled,
        },
        VerdictModel::Denied(d) => Progress {
            state: ResolverModel { cursor, pending: Pending::Nothing, values },
            step: Step::Denied(d),
        },
    }
}

/// Where the resolver stands when it comes to the variable at `cursor` with
/// `values` for those before it.
pub open spec fn settle(
    vars: Seq<VariableModel>,
    overrides: Map<Seq<char>, Seq<char>>,
    trust: ShellTrust,
    backend: Backend,
    cursor: int,
    values: Seq<ResolvedModel>,
) -> Progress
    decreases vars.len() - cursor, 1int,
{
    if cursor < 0 || cursor >= vars.len() {
        Progress {
            state: ResolverModel { cursor, pending: Pending::Nothing, values },
            step: Step::Done,
        }
    } else {
        after(
            vars,
            overrides,
            trust,
            backend,
            first_verdict(vars[cursor], overrides, trust, backend),
            cursor,
            values,
        )
    }
}

/// The values so far belong, in order, to the variables before the cursor.
pub open spec fn aligned(vars: Seq<VariableModel>, state: ResolverModel) -> bool {
    &&& 0 <= state.cursor <= vars.len()
    &&& state.values.len() == state.cursor
    &&& forall|i: int| 0 <= i < state.cursor ==> (#[trigger] state.values[i]).name == vars[i].name
    &&& state.pending != Pending::Nothing ==> state.cursor < vars.len()
}

/// The request that a step leaves pending.
pub open spec fn waits_for(step: Step) -> Pending {
    match step {
        Step::Query(_) => Pending::Answer,
        Step::Confirm(_) => Pending::Confirmation,
        Step::Execute(_) => Pending::Output,
        _ => Pending::Nothing,
    }
}

/// The state of a resolver that has not begun.
pub open spec fn idle() -> ResolverModel {
    ResolverModel { cursor: 0, pending: Pending::Nothing, values: Seq::empty() }
}

fn make_missing(var: &VariableSpec) -> (r: Verdict)
    ensures
        r@ == VerdictModel::Value(missing(var@)),
{
    Verdict::Value(
        ResolvedValue { name: var.name.clone(), value: String::new(), source: Source::Missing },
    )
}

fn make_gated(var: &VariableSpec, d: Decision) -> (r: Verdict)
    ensures
        r@ == gated(var@, d),
{
    match d {
        Decision::Run => Verdict::Need(Request::Execute),
        Decision::Skip => make_missing(var),
        Decision::Abort => Verdict::Denied(Denial::HeadlessConfirmation),
    }
}

/// The verdict from the variable's default.
pub fn decide_default(var: &VariableSpec, trust: ShellTrust, backend: Backend) -> (r: Verdict)
    ensures
        r@ == fall_back(var@, trust, backend),
{
    match &var.default {
        Some(DefaultValue::ShellCommand(_)) => {
            if trust.needs_confirmation(backend) {
                Verdict::Need(Request::Confirm)
            } else {
                make_gated(var, trust.authorize(backend, false))
            }
        },
        Some(DefaultValue::StaticValue(v)) => Verdict::Value(
            ResolvedValue {
                name: var.name.clone(),
                value: v.clone(),
                source: Source::StaticDefault,
            },
        ),
        None => make_missing(var),
    }
}

/// The verdict on a variable before anything was asked.
pub fn decide_first(
    var: &VariableSpec,
    overrides: &OverrideMap,
    trust: ShellTrust,
    backend: Backend,
) -> (r: Verdict)
    ensures
        r@ == first_verdict(var@, overrides@, trust, backend),
{
    match overrides.get(var.name.as_str()) {
        Some(value) => Verdict::Value(
            ResolvedValue { name: var.name.clone(), value, source: Source::Override },
        ),
        None => match backend {
            Backend::Headless => decide_default(var, trust, backend),
            _ => Verdict::Need(Request::Query),
        },
    }
}

/// The verdict on a variable after a reply.
pub fn decide_next(var: &VariableSpec, trust: ShellTrust, backend: Backend, reply: Reply) -> (r:
    Verdict)
    ensures
        r@ == next_verdict(var@, trust, backend, reply@),
{
    match reply {
        Reply::Cancelled => Verdict::Cancelled,
        Reply::Answer(Some(s)) => {
            if s.as_str().is_empty() {
                decide_default(var, trust, backend)
            } else {
                Verdict::Value(
                    ResolvedValue { name: var.name.clone(), value: s, source: Source::Interactive },
                )
            }
        },
        Reply::Answer(None) => decide_default(var, trust, backend),
        Reply::Confirmation(c) => make_gated(var, trust.authorize(backend, c)),
        Reply::Output(Some(o)) => Verdict::Value(
            ResolvedValue {
                name: var.name.clone(),
                value: trim_trailing_newline(o.as_str()),
                source: Source::ShellComputed,
            },
        ),
        Reply::Output(None) => make_missing(var),
    }
}

/// The resolver of one render.
#[derive(Debug)]
pub struct Resolver {
    cursor: usize,
    pending: Pending,
    values: Vec<ResolvedValue>,
}

impl View for Resolver {
    type V = ResolverModel;

    closed spec fn view(&self) -> ResolverModel {
        ResolverModel {
            cursor: self.cursor as int,
            pending: self.pending,
            values: resolved_models(self.values@),
        }
    }
}

impl Resolver {
    /// A resolver that has not begun.
    pub fn idle() -> (r: Resolver)
        ensures
            r@ == idle(),
    {
        let r = Resolver { cursor: 0, pending: Pending::Nothing, values: Vec::new() };
        assert(resolved_models(r.values@) =~= Seq::empty());
        r
    }

    /// The request that the resolver waits on.
    pub fn pending(&self) -> (r: Pending)
        ensures
            r == self@.pending,
    {
        self.pending
    }

    /// Starts on the first variable of `template` and goes on until outside
    /// work is needed or nothing is left to do.
    pub fn start(
        template: &TemplateSpec,
        overrides: &OverrideMap,
        trust: ShellTrust,
        backend: Backend,
    ) -> (r: (Resolver, Step))
        ensures
            (Progress { state: r.0@, step: r.1 }) == settle(
                template@.variables,
                overrides@,
                trust,
                backend,
                0,
                Seq::empty(),
            ),
            aligned(template@.variables, r.0@),
            r.0@.pending == waits_for(r.1),
    {
        let mut resolver = Resolver { cursor: 0, pending: Pending::Nothing, values: Vec::new() };
        assert(resolved_models(resolver.values@) =~= Seq::empty());
        if template.len() == 0 {
            return (resolver, Step::Done);
        }
        let verdict: Verdict = decide_first(template.variable(0), overrides, trust, backend);
        let step: Step = resolver.advance(template, overrides, trust, backend, verdict);
        (resolver, step)
    }

    /// Takes the reply to the pending request and goes on until outside work
    /// is needed again or nothing is left to do.
    pub fn resume(
        &mut self,
        template: &TemplateSpec,
        overrides: &OverrideMap,
        trust: ShellTrust,
        backend: Backend,
        reply: Reply,
    ) -> (step: Step)
        requires
            aligned(template@.variables, old(self)@),
            answers(old(self)@.pending, reply@),
        ensures
            (Progress { state: final(self)@, step }) == after(
                template@.variables,
                overrides@,
                trust,
                backend,
                next_verdict(
                    template@.variables[old(self)@.cursor],
                    trust,
                    backend,
                    reply@,
                ),
                old(self)@.cursor,
                old(self)@.values,
            ),
            aligned(template@.variables, final(self)@),
            final(self)@.pending == waits_for(step),
    {
        let verdict: Verdict = decide_next(template.variable(self.cursor), trust, backend, reply);
        self.advance(template, overrides, trust, backend, verdict)
    }

    fn advance(
        &mut self,
        template: &TemplateSpec,
        overrides: &OverrideMap,
        trust: ShellTrust,
        backend: Backend,
        verdict: Verdict,
    ) -> (step: Step)
        requires
            aligned(template@.variables, old(self)@),
            old(self)@.cursor < template@.variables.len(),
            verdict@ matches VerdictModel::Value(v) ==> v.name
                == template@.variables[old(self)@.cursor].name,
        ensures
            (Progress { state: final(self)@, step }) == after(
                template@.variables,
                overrides@,
                trust,
                backend,
                verdict@,
                old(self)@.cursor,
                old(self)@.values,
            ),
            aligned(template@.variables, final(self)@),
            final(self)@.pending == waits_for(step),
    {
        let ghost vars = template@.variables;
        let ghost goal = after(
            vars,
            overrides@,
            trust,
            backend,
            verdict@,
            self@.cursor,
            self@.values,
        );
        let count: usize = template.len();
        let mut current = verdict;
        loop
            invariant
                vars == template@.variables,
                goal == after(
                    vars,
                    overrides@,
                    trust,
                    backend,
                    verdict@,
                    old(self)@.cursor,
                    old(self)@.values,
                ),
                count == vars.len(),
                aligned(vars, self@),
                self@.cursor < vars.len(),
                current@ matches VerdictModel::Value(v) ==> v.name == vars[self@.cursor].name,
                goal == after(vars, overrides@, trust, backend, current@, self@.cursor, self@.values),
            decreases vars.len() - self@.cursor,
        {
            match current {
                Verdict::Value(v) => {
                    let ghost before = self@;
                    self.values.push(v);
                    self.cursor = self.cursor + 1;
                    self.pending = Pending::Nothing;
                    assert(self@.values =~= before.values.push(v@));
                    if self.cursor >= count {
                        return Step::Done;
                    }
                    current = decide_first(template.variable(self.cursor), overrides, trust, backend);
                },
                Verdict::Need(request) => {
                    match request {
                        Request::Query => {
                            self.pending = Pending::Answer;
                            return Step::Query(self.cursor);
                        },
                        Request::Confirm => {
                            self.pending = Pending::Confirmation;
                            return Step::Confirm(self.cursor);
                        },
                        Request::Execute => {
                            self.pending = Pending::Output;
                            return Step::Execute(self.cursor);
                        },
                    }
                },
                Verdict::Cancelled => {
                    self.pending = Pending::Nothing;
                    return Step::Cancelled;
                },
                Verdict::Denied(d) => {
                    self.pending = Pending::Nothing;
                    return Step::Denied(d);
                },
            }
        }
    }

    /// The values of the variables resolved so far, in declaration order.
    pub fn values(&self) -> (r: &Vec<ResolvedValue>)
        ensures
            resolved_models(r@) == self@.values,
    {
        &self.values
    }
}

} // verus!
