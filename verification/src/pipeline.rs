//! The pipeline of one render: privilege gate, template selection, variable
//! resolution, completeness check and rendering, ending at the first failure.
use vstd::prelude::*;
use crate::args::{gate, privilege_gate, Backend, Privilege, ShellTrust};
use crate::config::{position_of, Config, TemplateModel, TemplateSpec, VariableModel};
use crate::error::{Error, ErrorModel};
use crate::overrides::OverrideMap;
use crate::render::{render, rendered};
use crate::resolve::{
    after,
    aligned,
    answers,
    idle,
    next_verdict,
    resolved_models,
    settle,
    waits_for,
    Pending,
    Progress,
    Reply,
    ReplyModel,
    ResolvedModel,
    ResolvedValue,
    Resolver,
    ResolverModel,
    Source,
    Step,
};
use crate::text::texts;

verus! {

/// Everything that one render is asked with.
#[derive(Debug)]
pub struct RenderRequest {
    pub config: Config,
    pub template_name: Option<String>,
    pub overrides: OverrideMap,
    pub trust_mode: ShellTrust,
    pub backend: Backend,
    pub loose: bool,
}

/// The characters of a name that may be absent.
pub open spec fn name_of(name: Option<String>) -> Option<Seq<char>> {
    match name {
        Some(n) => Some(n@),
        None => None,
    }
}

/// What the pipeline has come to: work for the caller, or the end.
#[derive(Debug, Clone, PartialEq, Eq)]
pub enum Outcome {
    /// Let the user pick one of the configuration's templates.
    Select,
    /// Ask for the value of the selected template's variable at this index.
    Query(usize),
    /// Ask whether the shell command of the variable at this index may run.
    Confirm(usize),
    /// Run the shell command of the variable at this index.
    Execute(usize),
    /// The rendered text.
    Rendered(String),
    /// The first failure.
    Failed(Error),
}

/// The mathematical value of an [`Outcome`].
pub ghost enum OutcomeModel {
    Select,
    Query(usize),
    Confirm(usize),
    Execute(usize),
    Rendered(Seq<char>),
    Failed(ErrorModel),
}

impl View for Outcome {
    type V = OutcomeModel;

    open spec fn view(&self) -> OutcomeModel {
        match self {
            Outcome::Select => OutcomeModel::Select,
            Outcome::Query(i) => OutcomeModel::Query(*i),
            Outcome::Confirm(i) => OutcomeModel::Confirm(*i),
            Outcome::Execute(i) => OutcomeModel::Execute(*i),
            Outcome::Rendered(s) => OutcomeModel::Rendered(s@),
            Outcome::Failed(e) => OutcomeModel::Failed(e@),
        }
    }
}

/// How a template is found for a render.
pub ghost enum SelectionModel {
    Template(int),
    Ask,
    Fail(ErrorModel),
}

/// The template of a render: the one that is named; the only one there is;
/// or the user's choice, where the backend can ask for it.
pub open spec fn selection(
    config: Seq<TemplateModel>,
    wanted: Option<Seq<char>>,
    backend: Backend,
) -> SelectionModel {
    if config.len() == 0 {
        SelectionModel::Fail(ErrorModel::ConfigurationEmpty)
    } else {
        match wanted {
            Some(name) => match position_of(config, name) {
                Some(i) => SelectionModel::Template(i),
                None => SelectionModel::Fail(ErrorModel::NoTemplateSelected),
            },
            None => if config.len() == 1 {
                SelectionModel::Template(0)
            } else if backend == Backend::Headless {
                SelectionModel::Fail(ErrorModel::NoTemplateSelected)
            } else {
                SelectionModel::Ask
            },
        }
    }
}

/// The number of variables that have a value.
pub open spec fn resolved_count(vars: Seq<VariableModel>, values: Seq<ResolvedModel>) -> int {
    if vars.len() <= values.len() {
        vars.len() as int
    } else {
        values.len() as int
    }
}

/// The names of the required variables among the first `n` that no source
/// had a value for, in declaration order.
pub open spec fn missing_required(
    vars: Seq<VariableModel>,
    values: Seq<ResolvedModel>,
    n: int,
) -> Seq<Seq<char>>
    decreases n,
{
    if n <= 0 || n > vars.len() || n > values.len() {
        Seq::empty()
    } else {
        let before = missing_required(vars, values, n - 1);
        if values[n - 1].source == Source::Missing && vars[n - 1].required {
            before.push(vars[n - 1].name)
        } else {
            before
        }
    }
}

/// The end of a render whose variables are resolved: in strict mode a
/// required variable without a value fails it; else the text is rendered.
pub open spec fn finished(template: TemplateModel, loose: bool, values: Seq<ResolvedModel>) -> OutcomeModel {
    let missing = missing_required(
        template.variables,
        values,
        resolved_count(template.variables, values),
    );
    if !loose && missing.len() > 0 {
        OutcomeModel::Failed(ErrorModel::MissingRequiredVariables(missing))
    } else {
        OutcomeModel::Rendered(rendered(template.body, values))
    }
}

/// What the pipeline makes of the resolver's progress.
pub open spec fn concluded(template: TemplateModel, loose: bool, progress: Progress) -> OutcomeModel {
    match progress.step {
        Step::Query(i) => OutcomeModel::Query(i),
        Step::Confirm(i) => OutcomeModel::Confirm(i),
        Step::Execute(i) => OutcomeModel::Execute(i),
        Step::Cancelled => OutcomeModel::Failed(ErrorModel::RenderCancelled),
        Step::Denied(d) => OutcomeModel::Failed(ErrorModel::PrivilegeDenied(d)),
        Step::Done => finished(template, loose, progress.state.values),
    }
}

/// The state of a pipeline.
pub ghost struct PipelineModel {
    /// Whether the pipeline waits for the user's choice of a template.
    pub selecting: bool,
    /// Index of the selected template.
    pub template: int,
    /// The resolver's state.
    pub state: ResolverModel,
}

/// A pipeline's state together with what it has come to.
pub ghost struct Run {
    pub pipeline: PipelineModel,
    pub outcome: OutcomeModel,
}

/// A pipeline that has ended before a template was resolved.
pub open spec fn stopped(e: ErrorModel) -> Run {
    Run {
        pipeline: PipelineModel { selecting: false, template: 0, state: idle() },
        outcome: OutcomeModel::Failed(e),
    }
}

/// A pipeline whose resolver has come to `progress` on the template at `index`.
pub open spec fn carried(request: RenderRequest, index: int, progress: Progress) -> Run {
    Run {
        pipeline: PipelineModel { selecting: false, template: index, state: progress.state },
        outcome: concluded(request.config@[index], request.loose, progress),
    }
}

/// A pipeline that begins on the template at `index`.
pub open spec fn begun(request: RenderRequest, index: int) -> Run {
    carried(
        request,
        index,
        settle(
            request.config@[index].variables,
            request.overrides@,
            request.trust_mode,
            request.backend,
            0,
            Seq::empty(),
        ),
    )
}

/// The beginning of a render: the privilege gate comes before everything
/// else, then the template is selected, then its variables are resolved.
pub open spec fn started(privilege: Privilege, request: RenderRequest) -> Run {
    match gate(
        privilege,
        request.backend,
        request.overrides@ != Map::<Seq<char>, Seq<char>>::empty(),
        request.trust_mode,
    ) {
        Some(d) => stopped(ErrorModel::PrivilegeDenied(d)),
        None => match selection(request.config@, name_of(request.template_name), request.backend) {
            SelectionModel::Fail(e) => stopped(e),
            SelectionModel::Ask => Run {
                pipeline: PipelineModel { selecting: true, template: 0, state: idle() },
                outcome: OutcomeModel::Select,
            },
            SelectionModel::Template(i) => begun(request, i),
        },
    }
}

/// The render after the user's choice of a template; `None` is a user who
/// ended the render instead.
pub open spec fn chosen(request: RenderRequest, choice: Option<int>) -> Run {
    match choice {
        None => stopped(ErrorModel::RenderCancelled),
        Some(i) => if 0 <= i < request.config@.len() {
            begun(request, i)
        } else {
            stopped(ErrorModel::NoTemplateSelected)
        },
    }
}

/// The render after a reply to the resolver's request.
pub open spec fn replied(request: RenderRequest, pipeline: PipelineModel, reply: ReplyModel) -> Run {
    let template = request.config@[pipeline.template];
    carried(
        request,
        pipeline.template,
        after(
            template.variables,
            request.overrides@,
            request.trust_mode,
            request.backend,
            next_verdict(
                template.variables[pipeline.state.cursor],
                request.trust_mode,
                request.backend,
                reply,
            ),
            pipeline.state.cursor,
            pipeline.state.values,
        ),
    )
}

/// Whether a pipeline is at work on a template of the request.
pub open spec fn resolving(request: RenderRequest, pipeline: PipelineModel) -> bool {
    &&& !pipeline.selecting
    &&& 0 <= pipeline.template < request.config@.len()
    &&& aligned(request.config@[pipeline.template].variables, pipeline.state)
}

/// Selects the template of a render. `Ok(None)` says that the user has to
/// choose one.
pub fn select_template(config: &Config, wanted: &Option<String>, backend: Backend) -> (r: Result<
    Option<usize>,
    Error,
>)
    ensures
        match r {
            Ok(Some(i)) => i < config@.len() && selection(config@, name_of(*wanted), backend)
                == SelectionModel::Template(i as int),
            Ok(None) => selection(config@, name_of(*wanted), backend) == SelectionModel::Ask,
            Err(e) => selection(config@, name_of(*wanted), backend) == SelectionModel::Fail(e@),
        },
{
    if config.len() == 0 {
        return Err(Error::ConfigurationEmpty);
    }
    match wanted {
        Some(name) => match config.position(name.as_str()) {
            Some(i) => Ok(Some(i)),
            None => Err(Error::NoTemplateSelected),
        },
        None => {
            if config.len() == 1 {
                Ok(Some(0))
            } else {
                match backend {
                    Backend::Headless => Err(Error::NoTemplateSelected),
                    _ => Ok(None),
                }
            }
        },
    }
}

/// The names of the required variables that no source had a value for.
pub fn missing_names(template: &TemplateSpec, values: &Vec<ResolvedValue>) -> (r: Vec<String>)
    ensures
        texts(r@) == missing_required(
            template@.variables,
            resolved_models(values@),
            resolved_count(template@.variables, resolved_models(values@)),
        ),
{
    let ghost vars = template@.variables;
    let ghost models = resolved_models(values@);
    let count: usize = if template.len() <= values.len() {
        template.len()
    } else {
        values.len()
    };
    let mut names: Vec<String> = Vec::new();
    let mut i: usize = 0;
    assert(texts(names@) =~= Seq::empty());
    while i < count
        invariant
            i <= count,
            count == resolved_count(vars, models),
            vars == template@.variables,
            models == resolved_models(values@),
            texts(names@) == missing_required(vars, models, i as int),
        decreases count - i,
    {
        let variable = template.variable(i);
        let is_missing: bool = match values[i].source {
            Source::Missing => true,
            _ => false,
        };
        if is_missing && variable.required {
            let ghost before = texts(names@);
            names.push(variable.name.clone());
            assert(texts(names@) =~= before.push(variable.name@));
        }
        i = i + 1;
    }
    names
}

fn conclude(template: &TemplateSpec, loose: bool, resolver: &Resolver, step: Step) -> (r: Outcome)
    ensures
        r@ == concluded(template@, loose, Progress { state: resolver@, step }),
        awaited(r@) == waits_for(step),
{
    match step {
        Step::Query(i) => Outcome::Query(i),
        Step::Confirm(i) => Outcome::Confirm(i),
        Step::Execute(i) => Outcome::Execute(i),
        Step::Cancelled => Outcome::Failed(Error::RenderCancelled),
        Step::Denied(d) => Outcome::Failed(Error::PrivilegeDenied(d)),
        Step::Done => {
            let values = resolver.values();
            let missing: Vec<String> = missing_names(template, values);
            if !loose && missing.len() > 0 {
                Outcome::Failed(Error::MissingRequiredVariables(missing))
            } else {
                Outcome::Rendered(render(template.body().as_str(), values))
            }
        },
    }
}

/// The request that a reply to `outcome` has to answer.
pub open spec fn awaited(outcome: OutcomeModel) -> Pending {
    match outcome {
        OutcomeModel::Query(_) => Pending::Answer,
        OutcomeModel::Confirm(_) => Pending::Confirmation,
        OutcomeModel::Execute(_) => Pending::Output,
        _ => Pending::Nothing,
    }
}

/// One render in progress.
#[derive(Debug)]
pub struct Pipeline {
    selecting: bool,
    template: usize,
    resolver: Resolver,
}

impl View for Pipeline {
    type V = PipelineModel;

    closed spec fn view(&self) -> PipelineModel {
        PipelineModel {
            selecting: self.selecting,
            template: self.template as int,
            state: self.resolver@,
        }
    }
}

impl Pipeline {
    fn stop(error: Error) -> (r: (Pipeline, Outcome))
        ensures
            (Run { pipeline: r.0@, outcome: r.1@ }) == stopped(error@),
    {
        (
            Pipeline { selecting: false, template: 0, resolver: Resolver::idle() },
            Outcome::Failed(error),
        )
    }

    fn begin(request: &RenderRequest, index: usize) -> (r: (Pipeline, Outcome))
        requires
            index < request.config@.len(),
        ensures
            (Run { pipeline: r.0@, outcome: r.1@ }) == begun(*request, index as int),
            resolving(*request, r.0@),
            r.0@.state.pending == awaited(r.1@),
    {
        let template = request.config.template(index);
        let (resolver, step) = Resolver::start(
            template,
            &request.overrides,
            request.trust_mode,
            request.backend,
        );
        let outcome: Outcome = conclude(template, request.loose, &resolver, step);
        (Pipeline { selecting: false, template: index, resolver }, outcome)
    }

    /// Begins a render: checks the privilege gate, selects the template and
    /// resolves variables until the caller has to do something.
    pub fn start(privilege: Privilege, request: &RenderRequest) -> (r: (Pipeline, Outcome))
        ensures
            (Run { pipeline: r.0@, outcome: r.1@ }) == started(privilege, *request),
            r.0@.selecting == (r.1@ is Select),
            !r.0@.selecting ==> r.0@.state.pending == awaited(r.1@),
            awaited(r.1@) != Pending::Nothing ==> resolving(*request, r.0@),
    {
        match privilege_gate(privilege, request.backend, &request.overrides, request.trust_mode) {
            Err(e) => {
                return Self::stop(e);
            },
            Ok(_) => {},
        }
        match select_template(&request.config, &request.template_name, request.backend) {
            Err(e) => Self::stop(e),
            Ok(None) => (
                Pipeline { selecting: true, template: 0, resolver: Resolver::idle() },
                Outcome::Select,
            ),
            Ok(Some(index)) => Self::begin(request, index),
        }
    }

    /// Goes on with the template that the user chose, by its index in the
    /// configuration; `None` where the user ended the render instead.
    pub fn pick(&mut self, request: &RenderRequest, choice: Option<usize>) -> (outcome: Outcome)
        requires
            old(self)@.selecting,
        ensures
            (Run { pipeline: final(self)@, outcome: outcome@ }) == chosen(
                *request,
                match choice {
                    Some(i) => Some(i as int),
                    None => None,
                },
            ),
            final(self)@.state.pending == awaited(outcome@),
            awaited(outcome@) != Pending::Nothing ==> resolving(*request, final(self)@),
    {
        let (next, outcome) = match choice {
            None => Self::stop(Error::RenderCancelled),
            Some(index) => {
                if index < request.config.len() {
                    Self::begin(request, index)
                } else {
                    Self::stop(Error::NoTemplateSelected)
                }
            },
        };
        *self = next;
        outcome
    }

    /// Goes on with the reply to the request that the last outcome made.
    pub fn reply(&mut self, request: &RenderRequest, reply: Reply) -> (outcome: Outcome)
        requires
            resolving(*request, old(self)@),
            answers(old(self)@.state.pending, reply@),
        ensures
            (Run { pipeline: final(self)@, outcome: outcome@ }) == replied(
                *request,
                old(self)@,
                reply@,
            ),
            final(self)@.state.pending == awaited(outcome@),
            resolving(*request, final(self)@),
    {
        let template = request.config.template(self.template);
        let step: Step = self.resolver.resume(
            template,
            &request.overrides,
            request.trust_mode,
            request.backend,
            reply,
        );
        conclude(template, request.loose, &self.resolver, step)
    }

    /// Whether the pipeline waits for the user's choice of a template.
    pub fn is_selecting(&self) -> (r: bool)
        ensures
            r == self@.selecting,
    {
        self.selecting
    }

    /// The request that the pipeline waits on.
    pub fn pending(&self) -> (r: Pending)
        ensures
            r == self@.state.pending,
    {
        self.resolver.pending()
    }

    /// Index of the template that is being resolved.
    pub fn template(&self) -> (r: usize)
        ensures
            r == self@.template,
    {
        self.template
    }
}

} // verus!
