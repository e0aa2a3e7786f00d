//! Caption strategies: the fixed, ordered list of naming heuristics that
//! derive a short discriminating suffix from a method's argument list when
//! several shim functions would otherwise share one symbol name.

use vstd::prelude::*;

use crate::cpp_method::{ArgModel, CppMethod, MethodModel, method_model, lemma_args_model_from};
use crate::cpp_type::{spec_type_caption, type_caption};

verus! {

/// How much of a type spells its caption.
#[derive(Debug, Clone, Copy, PartialEq, Eq, Structural)]
pub enum TypeCaptionStrategy {
    /// The base name alone.
    Short,
    /// The base name with constness and indirection.
    Full,
}

/// How a method's discriminating caption is derived.
#[derive(Debug, Clone, Copy, PartialEq, Eq, Structural)]
pub enum MethodCaptionStrategy {
    /// From the argument types alone.
    ArgumentsOnly(TypeCaptionStrategy),
    /// From the method's constness alone.
    ConstOnly,
    /// From the method's constness and its argument types.
    ConstAndArguments(TypeCaptionStrategy),
}

/// The fixed order in which strategies are tried, least verbose first.
pub open spec fn spec_all_strategies() -> Seq<MethodCaptionStrategy> {
    seq![
        MethodCaptionStrategy::ArgumentsOnly(TypeCaptionStrategy::Short),
        MethodCaptionStrategy::ConstOnly,
        MethodCaptionStrategy::ConstAndArguments(TypeCaptionStrategy::Short),
        MethodCaptionStrategy::ArgumentsOnly(TypeCaptionStrategy::Full),
        MethodCaptionStrategy::ConstAndArguments(TypeCaptionStrategy::Full),
    ]
}

impl MethodCaptionStrategy {
    /// Returns every strategy, in the fixed order in which they are tried.
    pub fn all() -> (r: Vec<MethodCaptionStrategy>)
        ensures
            r@ == spec_all_strategies(),
    {
        let mut r: Vec<MethodCaptionStrategy> = Vec::new();
        r.push(MethodCaptionStrategy::ArgumentsOnly(TypeCaptionStrategy::Short));
        r.push(MethodCaptionStrategy::ConstOnly);
        r.push(MethodCaptionStrategy::ConstAndArguments(TypeCaptionStrategy::Short));
        r.push(MethodCaptionStrategy::ArgumentsOnly(TypeCaptionStrategy::Full));
        r.push(MethodCaptionStrategy::ConstAndArguments(TypeCaptionStrategy::Full));
        proof {
            assert(r@ =~= spec_all_strategies());
        }
        r
    }
}

/// The caption of an argument list from position `i` on: the types'
/// captions joined with `_`.
pub open spec fn spec_args_caption(args: Seq<ArgModel>, i: int, full: bool) -> Seq<char>
    decreases args.len() - i,
{
    if i < 0 || i >= args.len() {
        ""@
    } else {
        spec_type_caption(args[i].argument_type, full) + (if i + 1 < args.len() {
            "_"@
        } else {
            ""@
        }) + spec_args_caption(args, i + 1, full)
    }
}

/// True when the method is a const class method.
pub open spec fn spec_is_const_method(mm: MethodModel) -> bool {
    mm.class_membership matches Some(m) && m.is_const
}

/// The caption a strategy derives from a method.
pub open spec fn spec_method_caption(mm: MethodModel, st: MethodCaptionStrategy) -> Seq<char> {
    match st {
        MethodCaptionStrategy::ArgumentsOnly(ts) => spec_args_caption(
            mm.arguments,
            0,
            ts is Full,
        ),
        MethodCaptionStrategy::ConstOnly => {
            if spec_is_const_method(mm) {
                "const"@
            } else {
                ""@
            }
        },
        MethodCaptionStrategy::ConstAndArguments(ts) => (if spec_is_const_method(mm) {
            "const_"@
        } else {
            ""@
        }) + spec_args_caption(mm.arguments, 0, ts is Full),
    }
}

/// Returns the caption the given strategy derives from `method`.
pub fn method_caption(method: &CppMethod, st: MethodCaptionStrategy) -> (r: String)
    ensures
        r@ == spec_method_caption(method_model(*method), st),
{
    match st {
        MethodCaptionStrategy::ArgumentsOnly(ts) => args_caption(
            method,
            ts == TypeCaptionStrategy::Full,
        ),
        MethodCaptionStrategy::ConstOnly => {
            if is_const_method(method) {
                String::from_str("const")
            } else {
                String::from_str("")
            }
        },
        MethodCaptionStrategy::ConstAndArguments(ts) => {
            let mut r = if is_const_method(method) {
                String::from_str("const_")
            } else {
                String::from_str("")
            };
            let args = args_caption(method, ts == TypeCaptionStrategy::Full);
            r.append(args.as_str());
            r
        },
    }
}

/// Decides whether `method` is a const class method.
fn is_const_method(method: &CppMethod) -> (r: bool)
    ensures
        r == spec_is_const_method(method_model(*method)),
{
    match &method.class_membership {
        Option::Some(m) => m.is_const,
        Option::None => false,
    }
}

/// Returns the caption of `method`'s argument list.
fn args_caption(method: &CppMethod, full: bool) -> (r: String)
    ensures
        r@ == spec_args_caption(method_model(*method).arguments, 0, full),
{
    proof {
        lemma_args_model_from(method.arguments@, 0);
        reveal_strlit("");
    }
    let ghost margs = method_model(*method).arguments;
    let n = method.arguments.len();
    let mut r = String::from_str("");
    let mut i: usize = 0;
    while i < n
        invariant
            i <= n,
            n == method.arguments@.len(),
            margs == method_model(*method).arguments,
            margs.len() == n,
            forall|k: int|
                0 <= k < n ==> #[trigger] margs[k] == crate::cpp_method::arg_model(
                    method.arguments@[k],
                ),
            spec_args_caption(margs, 0, full) == r@ + spec_args_caption(margs, i as int, full),
        decreases n - i,
    {
        let ghost r0 = r@;
        let c = type_caption(&method.arguments[i].argument_type, full);
        r.append(c.as_str());
        if i + 1 < n {
            r.append("_");
        }
        proof {
            reveal_strlit("");
            let ghost sep: Seq<char> = if i + 1 < n {
                "_"@
            } else {
                ""@
            };
            let ghost rest = spec_args_caption(margs, i + 1 as int, full);
            assert(spec_args_caption(margs, i as int, full) == c@ + sep + rest);
            assert(r@ =~= r0 + c@ + sep);
            assert(r0 + (c@ + sep + rest) =~= (r0 + c@ + sep) + rest);
            assert(spec_args_caption(margs, 0, full) == r@ + spec_args_caption(
                margs,
                i + 1 as int,
                full,
            ));
        }
        i += 1;
    }
    proof {
        assert(r@ =~= r@ + spec_args_caption(margs, n as int, full));
    }
    r
}

} // verus!
