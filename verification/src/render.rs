//! The renderer: resolved values in place of the placeholders of a template.
//!
//! A placeholder is `{{`, a variable's name and `}}`, with nothing between.
use vstd::prelude::*;
use vstd::string::*;
use crate::resolve::{resolved_models, ResolvedModel, ResolvedValue};
use crate::text::chars_of;

verus! {

/// The placeholder that stands for the variable `name`.
pub open spec fn placeholder(name: Seq<char>) -> Seq<char> {
    seq!['{', '{'] + name + seq!['}', '}']
}

/// Whether `pattern` stands in `body` at `pos`.
pub open spec fn occurs_at(body: Seq<char>, pos: int, pattern: Seq<char>) -> bool {
    &&& 0 <= pos
    &&& pos + pattern.len() <= body.len()
    &&& body.subrange(pos, pos + pattern.len()) == pattern
}

/// Index of the first value, at or after `k`, whose placeholder stands in
/// `body` at `pos`.
pub open spec fn placeholder_at(
    body: Seq<char>,
    pos: int,
    values: Seq<ResolvedModel>,
    k: int,
) -> Option<int>
    decreases values.len() - k,
{
    if k < 0 || k >= values.len() {
        None
    } else if occurs_at(body, pos, placeholder(values[k].name)) {
        Some(k)
    } else {
        placeholder_at(body, pos, values, k + 1)
    }
}

/// The rendering of `body` from `pos` on, in one pass from left to right: a
/// placeholder of a resolved variable gives way to the variable's value,
/// which is not read again, and every other character stays.
///
/// What `placeholder_at` finds lies within the body, so the test on the
/// index and the length always holds; it is there for the recursion to be
/// seen to end.
pub open spec fn render_from(body: Seq<char>, values: Seq<ResolvedModel>, pos: int) -> Seq<char>
    decreases body.len() - pos,
{
    if pos < 0 || pos >= body.len() {
        Seq::empty()
    } else {
        match placeholder_at(body, pos, values, 0) {
            Some(k) => if 0 <= k < values.len() && pos + values[k].name.len() + 4 <= body.len() {
                values[k].value + render_from(body, values, pos + values[k].name.len() + 4)
            } else {
                Seq::empty()
            },
            None => seq![body[pos]] + render_from(body, values, pos + 1),
        }
    }
}

/// The rendering of a template body.
pub open spec fn rendered(body: Seq<char>, values: Seq<ResolvedModel>) -> Seq<char> {
    render_from(body, values, 0)
}

/// `String::push` appends one character to the string.
pub assume_specification[ String::push ](s: &mut String, c: char)
    ensures
        final(s)@ == old(s)@.push(c),
;

fn stands_at(text: &Vec<char>, pos: usize, pattern: &Vec<char>) -> (r: bool)
    ensures
        r == occurs_at(text@, pos as int, pattern@),
{
    if pos > text.len() || pattern.len() > text.len() - pos {
        return false;
    }
    let mut j: usize = 0;
    while j < pattern.len()
        invariant
            pos + pattern.len() <= text.len(),
            j <= pattern.len(),
            forall|i: int| 0 <= i < j ==> text@[pos + i] == pattern@[i],
        decreases pattern.len() - j,
    {
        if text[pos + j] != pattern[j] {
            assert(text@.subrange(pos as int, pos + pattern.len())[j as int] == text@[pos + j]);
            return false;
        }
        j = j + 1;
    }
    assert(text@.subrange(pos as int, pos + pattern.len()) =~= pattern@);
    true
}

fn pattern_of(name: &str) -> (r: Vec<char>)
    ensures
        r@ == placeholder(name@),
{
    let letters: Vec<char> = chars_of(name);
    let mut pattern: Vec<char> = Vec::new();
    pattern.push('{');
    pattern.push('{');
    let mut i: usize = 0;
    while i < letters.len()
        invariant
            i <= letters.len(),
            pattern@ == seq!['{', '{'] + letters@.take(i as int),
        decreases letters.len() - i,
    {
        pattern.push(letters[i]);
        assert(letters@.take(i as int).push(letters@[i as int]) =~= letters@.take(i + 1));
        assert(pattern@ =~= seq!['{', '{'] + letters@.take(i + 1));
        i = i + 1;
    }
    assert(letters@.take(i as int) =~= letters@);
    pattern.push('}');
    pattern.push('}');
    assert(pattern@ =~= placeholder(name@));
    pattern
}

fn find_placeholder(
    text: &Vec<char>,
    pos: usize,
    patterns: &Vec<Vec<char>>,
    Ghost(values): Ghost<Seq<ResolvedModel>>,
) -> (r: Option<usize>)
    requires
        patterns.len() == values.len(),
        forall|k: int| 0 <= k < values.len() ==> (#[trigger] patterns@[k])@ == placeholder(values[k].name),
    ensures
        match r {
            Some(k) => {
                &&& placeholder_at(text@, pos as int, values, 0) == Some(k as int)
                &&& k < values.len()
                &&& occurs_at(text@, pos as int, placeholder(values[k as int].name))
            },
            None => placeholder_at(text@, pos as int, values, 0) is None,
        },
{
    let mut k: usize = 0;
    while k < patterns.len()
        invariant
            k <= patterns.len(),
            patterns.len() == values.len(),
            forall|k: int|
                0 <= k < values.len() ==> (#[trigger] patterns@[k])@ == placeholder(values[k].name),
            placeholder_at(text@, pos as int, values, 0) == placeholder_at(
                text@,
                pos as int,
                values,
                k as int,
            ),
        decreases patterns.len() - k,
    {
        if stands_at(text, pos, &patterns[k]) {
            return Some(k);
        }
        k = k + 1;
    }
    None
}

/// Puts the resolved values in place of their placeholders in `body`.
/// Placeholders of names that are not among `values` stay as they are.
pub fn render(body: &str, values: &Vec<ResolvedValue>) -> (out: String)
    ensures
        out@ == rendered(body@, resolved_models(values@)),
{
    let ghost models = resolved_models(values@);
    let text: Vec<char> = chars_of(body);
    let mut patterns: Vec<Vec<char>> = Vec::new();
    let mut n: usize = 0;
    while n < values.len()
        invariant
            n <= values.len(),
            models == resolved_models(values@),
            patterns.len() == n,
            forall|k: int| 0 <= k < n ==> (#[trigger] patterns@[k])@ == placeholder(models[k].name),
        decreases values.len() - n,
    {
        patterns.push(pattern_of(values[n].name.as_str()));
        n = n + 1;
    }
    let mut out: String = String::new();
    let mut pos: usize = 0;
    while pos < text.len()
        invariant
            pos <= text.len(),
            text@ == body@,
            models == resolved_models(values@),
            patterns.len() == models.len(),
            forall|k: int|
                0 <= k < models.len() ==> (#[trigger] patterns@[k])@ == placeholder(models[k].name),
            out@ + render_from(text@, models, pos as int) == rendered(text@, models),
        decreases text.len() - pos,
    {
        let ghost rest = render_from(text@, models, pos as int);
        let ghost done = out@;
        match find_placeholder(&text, pos, &patterns, Ghost(models)) {
            Some(k) => {
                assert(patterns@[k as int]@.len() == models[k as int].name.len() + 4);
                out.append(values[k].value.as_str());
                pos = pos + patterns[k].len();
                assert(rest == models[k as int].value + render_from(text@, models, pos as int));
                assert(out@ + render_from(text@, models, pos as int) =~= done + rest);
            },
            None => {
                out.push(text[pos]);
                pos = pos + 1;
                assert(out@ + render_from(text@, models, pos as int) =~= done + rest);
            },
        }
    }
    assert(out@ + Seq::<char>::empty() =~= out@);
    out
}

} // verus!
