//! Message templates with `{name}` placeholders.

use vstd::prelude::*;
use vstd::string::*;
use crate::text::{chars_of, push_char, str_equal, string_from_range};

verus! {

broadcast use vstd::string::group_string_axioms;

/// One named value that a template may refer to.
#[derive(Debug)]
pub struct TemplateVar {
    pub name: String,
    pub value: String,
}

/// The values that a template may refer to, looked up by name.
#[derive(Debug)]
pub struct TemplateVars {
    pub vars: Vec<TemplateVar>,
}

/// The value bound to `key`: the first variable of that name.
pub open spec fn lookup(vars: Seq<(Seq<char>, Seq<char>)>, key: Seq<char>) -> Option<Seq<char>>
    decreases vars.len(),
{
    if vars.len() == 0 {
        None
    } else if vars[0].0 == key {
        Some(vars[0].1)
    } else {
        lookup(vars.drop_first(), key)
    }
}

/// The first index at or after `k` where `t` holds `c`.
pub open spec fn next_index_of(t: Seq<char>, c: char, k: int) -> Option<int>
    decreases t.len() - k,
{
    if k < 0 || k >= t.len() {
        None
    } else if t[k] == c {
        Some(k)
    } else {
        next_index_of(t, c, k + 1)
    }
}

/// Rendering of `t` from position `i` on: a `{` that starts a placeholder
/// `{name}` naming a known variable is replaced, with the whole placeholder,
/// by the variable's value; every other character is copied.
pub open spec fn render_from(t: Seq<char>, vars: Seq<(Seq<char>, Seq<char>)>, i: int) -> Seq<char>
    decreases t.len() - i,
{
    if i < 0 || i >= t.len() {
        Seq::empty()
    } else if t[i] == '{' && next_index_of(t, '}', i + 1) is Some && lookup(
        vars,
        t.subrange(i + 1, next_index_of(t, '}', i + 1)->0),
    ) is Some {
        let j = next_index_of(t, '}', i + 1)->0;
        proof {
            lemma_next_index_bounds(t, '}', i + 1);
        }
        lookup(vars, t.subrange(i + 1, j))->0 + render_from(t, vars, j + 1)
    } else {
        seq![t[i]] + render_from(t, vars, i + 1)
    }
}

/// The rendered template.
pub open spec fn render(t: Seq<char>, vars: Seq<(Seq<char>, Seq<char>)>) -> Seq<char> {
    render_from(t, vars, 0)
}

/// Where the next occurrence of `c` at or after `k` lies.
pub proof fn lemma_next_index_bounds(t: Seq<char>, c: char, k: int)
    ensures
        next_index_of(t, c, k) matches Some(j) ==> k <= j < t.len() && t[j] == c && forall|m: int|
            k <= m < j ==> t[m] != c,
    decreases t.len() - k,
{
    if 0 <= k < t.len() && t[k] != c {
        lemma_next_index_bounds(t, c, k + 1);
    }
}

/// The variables as (name, value) pairs.
pub open spec fn var_pairs(vars: Seq<TemplateVar>) -> Seq<(Seq<char>, Seq<char>)> {
    vars.map_values(|v: TemplateVar| (v.name@, v.value@))
}

impl TemplateVars {
    /// The variables as (name, value) pairs.
    pub open spec fn pairs(&self) -> Seq<(Seq<char>, Seq<char>)> {
        var_pairs(self.vars@)
    }

    /// No variables.
    pub fn new() -> (r: TemplateVars)
        ensures
            r.pairs() == Seq::<(Seq<char>, Seq<char>)>::empty(),
    {
        TemplateVars { vars: Vec::new() }
    }

    /// Binds `name` to `value`, after the existing bindings.
    pub fn insert(&mut self, name: &str, value: String)
        ensures
            final(self).pairs() == old(self).pairs().push((name@, value@)),
    {
        self.vars.push(TemplateVar { name: name.to_string(), value });
        assert(self.pairs() =~= old(self).pairs().push((name@, value@)));
    }

    /// The value bound to `key`, if any.
    pub fn get(&self, key: &str) -> (r: Option<&String>)
        ensures
            match r {
                Some(v) => lookup(self.pairs(), key@) == Some(v@),
                None => lookup(self.pairs(), key@) is None,
            },
    {
        let mut i: usize = 0;
        assert(self.pairs().skip(0) =~= self.pairs());
        while i < self.vars.len()
            invariant
                i <= self.vars@.len(),
                lookup(self.pairs(), key@) == lookup(self.pairs().skip(i as int), key@),
            decreases self.vars@.len() - i,
        {
            assert(self.pairs().skip(i as int).drop_first() == self.pairs().skip(i + 1));
            if str_equal(self.vars[i].name.as_str(), key) {
                return Some(&self.vars[i].value);
            }
            i = i + 1;
        }
        None
    }
}

/// Renders a message template: each `{name}` whose name is bound in `vars`
/// is replaced by its value; everything else is kept as written.
pub fn render_template(template: &str, vars: &TemplateVars) -> (r: String)
    ensures
        r@ == render(template@, vars.pairs()),
{
    let t = chars_of(template);
    let n = t.len();
    let mut out = String::new();
    let mut i: usize = 0;
    while i < n
        invariant
            i <= n == t@.len(),
            t@ == template@,
            out@ + render_from(t@, vars.pairs(), i as int) == render(t@, vars.pairs()),
        decreases n - i,
    {
        let ghost ti = i as int;
        let mut replaced = false;
        if t[i] == '{' {
            let mut j: usize = i + 1;
            while j < n && t[j] != '}'
                invariant
                    i < j <= n == t@.len(),
                    next_index_of(t@, '}', ti + 1) == next_index_of(t@, '}', j as int),
                decreases n - j,
            {
                j = j + 1;
            }
            if j < n {
                proof {
                    lemma_next_index_bounds(t@, '}', ti + 1);
                }
                let name = string_from_range(t.as_slice(), i + 1, j);
                match vars.get(name.as_str()) {
                    Some(v) => {
                        let ghost before = out@;
                        out.append(v.as_str());
                        assert(out@ + render_from(t@, vars.pairs(), j + 1) =~= before
                            + render_from(t@, vars.pairs(), ti));
                        i = j + 1;
                        replaced = true;
                    },
                    None => {},
                }
            }
        }
        if !replaced {
            let ghost before = out@;
            push_char(&mut out, t[i]);
            assert(out@ + render_from(t@, vars.pairs(), i + 1) =~= before + render_from(
                t@,
                vars.pairs(),
                ti,
            ));
            i = i + 1;
        }
    }
    out
}


/// A template with no `{` renders to itself.
pub proof fn lemma_render_plain(t: Seq<char>, vars: Seq<(Seq<char>, Seq<char>)>)
    requires
        !t.contains('{'),
    ensures
        render(t, vars) == t,
{
    lemma_render_from_plain(t, vars, 0);
    assert(t.skip(0) =~= t);
}

proof fn lemma_render_from_plain(t: Seq<char>, vars: Seq<(Seq<char>, Seq<char>)>, i: int)
    requires
        !t.contains('{'),
        0 <= i <= t.len(),
    ensures
        render_from(t, vars, i) == t.skip(i),
    decreases t.len() - i,
{
    if i < t.len() {
        assert(t[i] != '{') by {
            if t[i] == '{' {
                assert(t.contains('{'));
            }
        }
        lemma_render_from_plain(t, vars, i + 1);
        assert(t.skip(i) =~= seq![t[i]] + t.skip(i + 1));
    } else {
        assert(t.skip(i) =~= Seq::<char>::empty());
    }
}

/// A placeholder `{name}` naming a bound variable renders to the
/// variable's value.
pub proof fn lemma_render_placeholder(
    name: Seq<char>,
    value: Seq<char>,
    vars: Seq<(Seq<char>, Seq<char>)>,
)
    requires
        !name.contains('}'),
        lookup(vars, name) == Some(value),
    ensures
        render(seq!['{'] + name + seq!['}'], vars) == value,
{
    let t = seq!['{'] + name + seq!['}'];
    let j: int = name.len() as int + 1;
    assert forall|m: int| 1 <= m < j implies t[m] != '}' by {
        assert(t[m] == name[m - 1]);
        if name[m - 1] == '}' {
            assert(name.contains('}'));
        }
    }
    lemma_next_index_at(t, '}', 1, j);
    assert(t.subrange(1, j) =~= name);
    assert(render_from(t, vars, j + 1) == Seq::<char>::empty());
    assert(value + Seq::<char>::empty() =~= value);
}

proof fn lemma_next_index_at(t: Seq<char>, c: char, k: int, j: int)
    requires
        0 <= k <= j < t.len(),
        t[j] == c,
        forall|m: int| k <= m < j ==> t[m] != c,
    ensures
        next_index_of(t, c, k) == Some(j),
    decreases j - k,
{
    if k < j {
        lemma_next_index_at(t, c, k + 1, j);
    }
}

} // verus!
