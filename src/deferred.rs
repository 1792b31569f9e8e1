use vstd::prelude::*;

verus! {

/// A handle to a deferred value: its index in the build's [`Labels`].
#[derive(Clone, Copy, Debug, PartialEq, Eq, Structural)]
pub struct Label {
    pub id: usize,
}

/// How a deferred value is resolved.
#[derive(Clone, Copy, Debug, PartialEq, Eq, Structural)]
pub enum Rule {
    /// Not bound yet.
    Unbound,
    /// A literal value.
    Const(u64),
    /// The value of another deferred value plus a constant.
    Offset(usize, u64),
    /// The sum of two other deferred values.
    Sum(usize, usize),
    /// The difference of two other deferred values.
    Diff(usize, usize),
}

/// The value that deferred value `id` resolves to in `rules` within `fuel`
/// steps, if it does.
pub open spec fn value_within(rules: Seq<Rule>, id: int, fuel: nat) -> Option<u64>
    decreases fuel,
{
    if fuel == 0 || !(0 <= id < rules.len()) {
        None
    } else {
        match rules[id] {
            Rule::Unbound => None,
            Rule::Const(v) => Some(v),
            Rule::Offset(b, k) => match value_within(rules, b as int, (fuel - 1) as nat) {
                Some(x) => Some(vstd::wrapping::u64_specs::wrapping_add(x, k)),
                None => None,
            },
            Rule::Sum(a, b) => match (value_within(rules, a as int, (fuel - 1) as nat), value_within(rules, b as int, (fuel - 1) as nat)) {
                (Some(x), Some(y)) => Some(vstd::wrapping::u64_specs::wrapping_add(x, y)),
                _ => None,
            },
            Rule::Diff(a, b) => match (value_within(rules, a as int, (fuel - 1) as nat), value_within(rules, b as int, (fuel - 1) as nat)) {
                (Some(x), Some(y)) => Some(vstd::wrapping::u64_specs::wrapping_sub(x, y)),
                _ => None,
            },
        }
    }
}

/// The value of deferred value `id`: a chain of rules longer than the table
/// runs in a cycle, and resolves to nothing.
pub open spec fn value_of(rules: Seq<Rule>, id: int) -> Option<u64> {
    value_within(rules, id, rules.len())
}

fn resolve_within(rules: &Vec<Rule>, id: usize, fuel: usize) -> (r: Option<u64>)
    ensures
        r == value_within(rules@, id as int, fuel as nat),
    decreases fuel,
{
    if fuel == 0 || id >= rules.len() {
        return None;
    }
    match rules[id] {
        Rule::Unbound => None,
        Rule::Const(v) => Some(v),
        Rule::Offset(b, k) => match resolve_within(rules, b, fuel - 1) {
            Some(x) => Some(x.wrapping_add(k)),
            None => None,
        },
        Rule::Sum(a, b) => match (resolve_within(rules, a, fuel - 1), resolve_within(rules, b, fuel - 1)) {
            (Some(x), Some(y)) => Some(x.wrapping_add(y)),
            _ => None,
        },
        Rule::Diff(a, b) => match (resolve_within(rules, a, fuel - 1), resolve_within(rules, b, fuel - 1)) {
            (Some(x), Some(y)) => Some(x.wrapping_sub(y)),
            _ => None,
        },
    }
}

/// Resolves deferred value `id` in `rules`.
pub fn resolve(rules: &Vec<Rule>, id: usize) -> (r: Option<u64>)
    ensures
        r == value_of(rules@, id as int),
{
    resolve_within(rules, id, rules.len())
}

/// `rules` with entry `id` bound to `r` if it exists and is unbound.
pub open spec fn bind_unbound(rules: Seq<Rule>, id: int, r: Rule) -> Seq<Rule> {
    if 0 <= id < rules.len() && rules[id] == Rule::Unbound {
        rules.update(id, r)
    } else {
        rules
    }
}

/// The deferred values of one build, shared by all of its sections.
pub struct Labels {
    pub rules: Vec<Rule>,
}

impl Labels {
    /// A table with no deferred value.
    pub fn new() -> (r: Labels)
        ensures
            r.rules@ == Seq::<Rule>::empty(),
    {
        Labels { rules: Vec::new() }
    }

    /// Creates a new unbound deferred value.
    pub fn new_label(&mut self) -> (r: Label)
        ensures
            r.id == old(self).rules@.len(),
            final(self).rules@ == old(self).rules@.push(Rule::Unbound),
    {
        let r = Label { id: self.rules.len() };
        self.rules.push(Rule::Unbound);
        r
    }

    /// Binds deferred value `id` to `rule` if it exists and is unbound; says whether it did.
    pub fn bind(&mut self, id: usize, rule: Rule) -> (r: bool)
        ensures
            r == (id < old(self).rules@.len() && old(self).rules@[id as int] == Rule::Unbound),
            final(self).rules@ == bind_unbound(old(self).rules@, id as int, rule),
    {
        if id < self.rules.len() && self.rules[id] == Rule::Unbound {
            self.rules.set(id, rule);
            true
        } else {
            false
        }
    }

    /// Binds `label` to `v`. A deferred value is bound at most once: if it is
    /// bound already, or unknown, nothing changes and `false` comes back.
    pub fn set_const(&mut self, label: Label, v: u64) -> (r: bool)
        ensures
            r == (label.id < old(self).rules@.len() && old(self).rules@[label.id as int] == Rule::Unbound),
            final(self).rules@ == bind_unbound(old(self).rules@, label.id as int, Rule::Const(v)),
    {
        self.bind(label.id, Rule::Const(v))
    }

    /// The current value of `label`, if it resolves.
    pub fn value(&self, label: Label) -> (r: Option<u64>)
        ensures
            r == value_of(self.rules@, label.id as int),
    {
        resolve(&self.rules, label.id)
    }

    /// A new deferred value equal to `a + b` (wrapping).
    pub fn label_sum(&mut self, a: Label, b: Label) -> (r: Label)
        ensures
            r.id == old(self).rules@.len(),
            final(self).rules@ == old(self).rules@.push(Rule::Sum(a.id, b.id)),
    {
        let r = Label { id: self.rules.len() };
        self.rules.push(Rule::Sum(a.id, b.id));
        r
    }

    /// A new deferred value equal to `a - b` (wrapping).
    pub fn label_diff(&mut self, a: Label, b: Label) -> (r: Label)
        ensures
            r.id == old(self).rules@.len(),
            final(self).rules@ == old(self).rules@.push(Rule::Diff(a.id, b.id)),
    {
        let r = Label { id: self.rules.len() };
        self.rules.push(Rule::Diff(a.id, b.id));
        r
    }
}

} // verus!
