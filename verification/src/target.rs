//! Build targets and the conditions that guard configuration fragments.
//!
//! A configuration fragment only applies to a concrete target when its
//! condition evaluates to true against that target's attributes.

use vstd::prelude::*;

verus! {

/// Attributes of a concrete build target, as plain values.
pub struct Target {
    /// Processor architecture, e.g. "x86_64".
    pub arch: String,
    /// Operating system, e.g. "linux".
    pub os: String,
    /// Broad family of the operating system, e.g. "unix".
    pub family: String,
    /// Toolchain environment, e.g. "gnu" or "msvc".
    pub env: String,
    /// Width of a pointer in bits.
    pub pointer_width: u32,
}

/// A predicate over targets. Composite conditions nest arbitrarily.
pub enum Condition {
    /// True when the target's architecture equals the given name.
    Arch(String),
    /// True when the target's operating system equals the given name.
    Os(String),
    /// True when the target's family equals the given name.
    Family(String),
    /// True when the target's environment equals the given name.
    Env(String),
    /// True when the target's pointer width equals the given value.
    PointerWidth(u32),
    /// True when every inner condition is true.
    And(Vec<Condition>),
    /// True when at least one inner condition is true.
    Or(Vec<Condition>),
    /// True when the inner condition is false.
    Not(Box<Condition>),
    /// Always true.
    True,
    /// Always false.
    False,
}

/// What a condition means: the predicate it denotes on a target.
pub open spec fn spec_eval(c: Condition, t: Target) -> bool
    decreases c, 0int, 0int,
{
    match c {
        Condition::Arch(s) => s@ == t.arch@,
        Condition::Os(s) => s@ == t.os@,
        Condition::Family(s) => s@ == t.family@,
        Condition::Env(s) => s@ == t.env@,
        Condition::PointerWidth(w) => w == t.pointer_width,
        Condition::And(cs) => spec_eval_all(cs@, 0, t),
        Condition::Or(cs) => spec_eval_any(cs@, 0, t),
        Condition::Not(c1) => !spec_eval(*c1, t),
        Condition::True => true,
        Condition::False => false,
    }
}

/// True when every condition of `cs` from position `i` on holds on `t`.
pub open spec fn spec_eval_all(cs: Seq<Condition>, i: int, t: Target) -> bool
    decreases cs, 1int, cs.len() - i,
{
    if i < 0 || i >= cs.len() {
        true
    } else {
        spec_eval(cs[i], t) && spec_eval_all(cs, i + 1, t)
    }
}

/// True when some condition of `cs` from position `i` on holds on `t`.
pub open spec fn spec_eval_any(cs: Seq<Condition>, i: int, t: Target) -> bool
    decreases cs, 1int, cs.len() - i,
{
    if i < 0 || i >= cs.len() {
        false
    } else {
        spec_eval(cs[i], t) || spec_eval_any(cs, i + 1, t)
    }
}

impl Condition {
    /// Decides whether this condition holds on the given target.
    pub fn eval(&self, t: &Target) -> (r: bool)
        ensures
            r == spec_eval(*self, *t),
        decreases *self, 0int, 0int,
    {
        match self {
            Condition::Arch(s) => *s == t.arch,
            Condition::Os(s) => *s == t.os,
            Condition::Family(s) => *s == t.family,
            Condition::Env(s) => *s == t.env,
            Condition::PointerWidth(w) => *w == t.pointer_width,
            Condition::And(cs) => eval_all(cs, 0, t),
            Condition::Or(cs) => eval_any(cs, 0, t),
            Condition::Not(c1) => !c1.eval(t),
            Condition::True => true,
            Condition::False => false,
        }
    }
}

/// Decides whether every condition of `cs` from position `i` on holds on `t`.
fn eval_all(cs: &Vec<Condition>, i: usize, t: &Target) -> (r: bool)
    ensures
        r == spec_eval_all(cs@, i as int, *t),
    decreases cs@, 1int, cs@.len() - i,
{
    if i >= cs.len() {
        true
    } else {
        cs[i].eval(t) && eval_all(cs, i + 1, t)
    }
}

/// Decides whether some condition of `cs` from position `i` on holds on `t`.
fn eval_any(cs: &Vec<Condition>, i: usize, t: &Target) -> (r: bool)
    ensures
        r == spec_eval_any(cs@, i as int, *t),
    decreases cs@, 1int, cs@.len() - i,
{
    if i >= cs.len() {
        false
    } else {
        cs[i].eval(t) || eval_any(cs, i + 1, t)
    }
}

} // verus!
