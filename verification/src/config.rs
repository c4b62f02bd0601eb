//! The configuration model: named templates with their declared variables.
use vstd::prelude::*;

verus! {

/// Where a variable's value comes from when nobody supplies one.
#[derive(Debug, Clone, PartialEq, Eq)]
pub enum DefaultValue {
    StaticValue(String),
    ShellCommand(String),
}

/// One declared variable of a template.
#[derive(Debug, Clone, PartialEq, Eq)]
pub struct VariableSpec {
    pub name: String,
    pub prompt_text: Option<String>,
    pub default: Option<DefaultValue>,
    pub required: bool,
}

/// The mathematical value of a variable's default.
pub ghost enum DefaultModel {
    Absent,
    Static(Seq<char>),
    Shell(Seq<char>),
}

/// The mathematical value of a [`VariableSpec`].
pub ghost struct VariableModel {
    pub name: Seq<char>,
    pub prompt: Option<Seq<char>>,
    pub default: DefaultModel,
    pub required: bool,
}

/// The mathematical value of a [`TemplateSpec`].
pub ghost struct TemplateModel {
    pub name: Seq<char>,
    pub body: Seq<char>,
    pub variables: Seq<VariableModel>,
}

impl View for VariableSpec {
    type V = VariableModel;

    open spec fn view(&self) -> VariableModel {
        VariableModel {
            name: self.name@,
            prompt: match self.prompt_text {
                Some(p) => Some(p@),
                None => None,
            },
            default: match self.default {
                Some(DefaultValue::StaticValue(v)) => DefaultModel::Static(v@),
                Some(DefaultValue::ShellCommand(c)) => DefaultModel::Shell(c@),
                None => DefaultModel::Absent,
            },
            required: self.required,
        }
    }
}

impl VariableModel {
    /// What an interactive backend shows when it asks for this variable: the
    /// prompt text, or the name where there is none.
    pub open spec fn label(self) -> Seq<char> {
        match self.prompt {
            Some(p) => p,
            None => self.name,
        }
    }
}

impl VariableSpec {
    /// The text to show when asking for this variable.
    pub fn label(&self) -> (r: String)
        ensures
            r@ == self@.label(),
    {
        match &self.prompt_text {
            Some(p) => p.clone(),
            None => self.name.clone(),
        }
    }
}

/// The models of a sequence of variables.
pub open spec fn variable_models(v: Seq<VariableSpec>) -> Seq<VariableModel> {
    Seq::new(v.len(), |i: int| v[i]@)
}

/// No two variables share a name.
pub open spec fn distinct_variables(v: Seq<VariableModel>) -> bool {
    forall|i: int, j: int| 0 <= i < j < v.len() ==> v[i].name != v[j].name
}

/// No two templates share a name.
pub open spec fn distinct_templates(t: Seq<TemplateModel>) -> bool {
    forall|i: int, j: int| 0 <= i < j < t.len() ==> t[i].name != t[j].name
}

/// Index of the first template called `name`, if any.
pub open spec fn position_of(t: Seq<TemplateModel>, name: Seq<char>) -> Option<int>
    decreases t.len(),
{
    if t.len() == 0 {
        None
    } else {
        match position_of(t.drop_last(), name) {
            Some(i) => Some(i),
            None => if t.last().name == name {
                Some(t.len() - 1)
            } else {
                None
            },
        }
    }
}

/// A named template: its body and its variables in declaration order, which
/// is the order in which an interactive backend asks for them.
#[derive(Debug, PartialEq, Eq)]
pub struct TemplateSpec {
    name: String,
    body: String,
    variables: Vec<VariableSpec>,
}

impl View for TemplateSpec {
    type V = TemplateModel;

    closed spec fn view(&self) -> TemplateModel {
        TemplateModel {
            name: self.name@,
            body: self.body@,
            variables: variable_models(self.variables@),
        }
    }
}

impl TemplateSpec {
    #[verifier::type_invariant]
    spec fn distinct(&self) -> bool {
        distinct_variables(variable_models(self.variables@))
    }

    /// A template without variables.
    pub fn new(name: String, body: String) -> (r: TemplateSpec)
        ensures
            r@ == (TemplateModel { name: name@, body: body@, variables: Seq::empty() }),
    {
        let r = TemplateSpec { name, body, variables: Vec::new() };
        assert(variable_models(r.variables@) =~= Seq::empty());
        r
    }

    /// Declares one more variable, after those declared so far. A name that
    /// is already declared is refused and the template stays as it was.
    pub fn declare(self, variable: VariableSpec) -> (r: Result<TemplateSpec, TemplateSpec>)
        ensures
            match r {
                Ok(t) => !self.declares(variable.name@) && t@ == (TemplateModel {
                    variables: self@.variables.push(variable@),
                    ..self@
                }),
                Err(t) => self.declares(variable.name@) && t@ == self@,
            },
    {
        proof {
            use_type_invariant(&self);
        }
        let mut i: usize = 0;
        while i < self.variables.len()
            invariant
                i <= self.variables.len(),
                forall|j: int| 0 <= j < i ==> self.variables@[j].name@ != variable.name@,
            decreases self.variables.len() - i,
        {
            if self.variables[i].name == variable.name {
                assert(self@.variables[i as int].name == variable.name@);
                return Err(self);
            }
            i = i + 1;
        }
        let ghost before = self@;
        let TemplateSpec { name, body, mut variables } = self;
        variables.push(variable);
        assert(variable_models(variables@) =~= before.variables.push(variable@));
        assert(!self.declares(variable.name@)) by {
            if self.declares(variable.name@) {
                let j = choose|j: int|
                    0 <= j < self@.variables.len() && self@.variables[j].name == variable.name@;
                assert(self.variables@[j].name@ == variable.name@);
            }
        }
        assert(distinct_variables(variable_models(variables@))) by {
            let now = variable_models(variables@);
            assert forall|a: int, b: int| 0 <= a < b < now.len() implies now[a].name
                != now[b].name by {
                if b < now.len() - 1 {
                    assert(now[a] == before.variables[a] && now[b] == before.variables[b]);
                } else {
                    assert(now[a].name == self.variables@[a].name@);
                }
            }
        }
        Ok(TemplateSpec { name, body, variables })
    }

    /// Whether a variable called `name` is declared.
    pub open spec fn declares(&self, name: Seq<char>) -> bool {
        exists|j: int| 0 <= j < self@.variables.len() && self@.variables[j].name == name
    }

    /// The template's name.
    pub fn name(&self) -> (r: &String)
        ensures
            r@ == self@.name,
    {
        &self.name
    }

    /// The template's text, with its placeholders.
    pub fn body(&self) -> (r: &String)
        ensures
            r@ == self@.body,
    {
        &self.body
    }

    /// The number of declared variables, no two of which share a name.
    pub fn len(&self) -> (r: usize)
        ensures
            r == self@.variables.len(),
            distinct_variables(self@.variables),
    {
        proof {
            use_type_invariant(self);
        }
        self.variables.len()
    }

    /// The variable declared at `index`.
    pub fn variable(&self, index: usize) -> (r: &VariableSpec)
        requires
            index < self@.variables.len(),
        ensures
            r@ == self@.variables[index as int],
    {
        &self.variables[index]
    }

}

/// The models of a sequence of templates.
pub open spec fn template_models(t: Seq<TemplateSpec>) -> Seq<TemplateModel> {
    Seq::new(t.len(), |i: int| t[i]@)
}

/// The parsed configuration: templates by name.
#[derive(Debug, PartialEq, Eq)]
pub struct Config {
    templates: Vec<TemplateSpec>,
}

impl View for Config {
    type V = Seq<TemplateModel>;

    closed spec fn view(&self) -> Seq<TemplateModel> {
        template_models(self.templates@)
    }
}

impl Config {
    #[verifier::type_invariant]
    spec fn distinct(&self) -> bool {
        distinct_templates(template_models(self.templates@))
    }

    /// A configuration without templates.
    pub fn new() -> (r: Config)
        ensures
            r@ == Seq::<TemplateModel>::empty(),
    {
        let r = Config { templates: Vec::new() };
        assert(template_models(r.templates@) =~= Seq::empty());
        r
    }

    /// Adds a template. A name that is already taken is refused and the
    /// configuration stays as it was.
    pub fn add(self, template: TemplateSpec) -> (r: Result<Config, Config>)
        ensures
            match r {
                Ok(c) => position_of(self@, template@.name) is None && c@ == self@.push(
                    template@,
                ),
                Err(c) => position_of(self@, template@.name) is Some && c@ == self@,
            },
    {
        proof {
            use_type_invariant(&self);
        }
        match self.position(template.name.as_str()) {
            Some(_) => Err(self),
            None => {
                let ghost before = self@;
                let Config { mut templates } = self;
                templates.push(template);
                assert(template_models(templates@) =~= before.push(template@));
                assert(distinct_templates(template_models(templates@))) by {
                    lemma_position_of(before, template@.name);
                    let now = template_models(templates@);
                    assert forall|a: int, b: int| 0 <= a < b < now.len() implies now[a].name
                        != now[b].name by {
                        if b < now.len() - 1 {
                            assert(now[a] == before[a] && now[b] == before[b]);
                        } else {
                            assert(now[a] == before[a]);
                        }
                    }
                }
                Ok(Config { templates })
            },
        }
    }

    /// The number of templates, no two of which share a name.
    pub fn len(&self) -> (r: usize)
        ensures
            r == self@.len(),
            distinct_templates(self@),
    {
        proof {
            use_type_invariant(self);
        }
        self.templates.len()
    }

    /// The template at `index`, in the order of addition.
    pub fn template(&self, index: usize) -> (r: &TemplateSpec)
        requires
            index < self@.len(),
        ensures
            r@ == self@[index as int],
    {
        &self.templates[index]
    }

    /// Index of the template called `name`.
    pub fn position(&self, name: &str) -> (r: Option<usize>)
        ensures
            match r {
                Some(i) => position_of(self@, name@) == Some(i as int) && i < self@.len(),
                None => position_of(self@, name@) is None,
            },
    {
        let wanted: String = name.to_owned();
        let mut i: usize = 0;
        assert(self@.take(0) =~= Seq::empty());
        while i < self.templates.len()
            invariant
                i <= self.templates.len(),
                wanted@ == name@,
                position_of(self@.take(i as int), name@) is None,
            decreases self.templates.len() - i,
        {
            assert(self@.take(i as int + 1).drop_last() =~= self@.take(i as int));
            assert(self@.take(i as int + 1).last() == self.templates@[i as int]@);
            if self.templates[i].name == wanted {
                proof {
                    lemma_position_of_prefix(self@, name@, i as int + 1);
                }
                return Some(i);
            }
            i = i + 1;
        }
        assert(self@.take(i as int) =~= self@);
        None
    }

    /// The template called `name`.
    pub fn lookup(&self, name: &str) -> (r: Option<&TemplateSpec>)
        ensures
            match r {
                Some(t) => position_of(self@, name@) matches Some(i) && 0 <= i < self@.len()
                    && t@ == self@[i],
                None => position_of(self@, name@) is None,
            },
    {
        match self.position(name) {
            Some(i) => Some(&self.templates[i]),
            None => None,
        }
    }
}

/// A position found in a prefix is the position in the whole.
pub proof fn lemma_position_of_prefix(t: Seq<TemplateModel>, name: Seq<char>, n: int)
    requires
        0 <= n <= t.len(),
        position_of(t.take(n), name) is Some,
    ensures
        position_of(t, name) == position_of(t.take(n), name),
    decreases t.len() - n,
{
    if n < t.len() {
        assert(t.take(n + 1).drop_last() =~= t.take(n));
        lemma_position_of_prefix(t, name, n + 1);
    } else {
        assert(t.take(n) =~= t);
    }
}

/// `position_of` finds a template of that name, the first one, or reports
/// that there is none.
pub proof fn lemma_position_of(t: Seq<TemplateModel>, name: Seq<char>)
    ensures
        match position_of(t, name) {
            Some(i) => 0 <= i < t.len() && t[i].name == name && forall|j: int|
                0 <= j < i ==> t[j].name != name,
            None => forall|j: int| 0 <= j < t.len() ==> t[j].name != name,
        },
    decreases t.len(),
{
    if t.len() > 0 {
        let d = t.drop_last();
        lemma_position_of(d, name);
        assert(forall|j: int| 0 <= j < d.len() ==> d[j] == t[j]);
    }
}

} // verus!
