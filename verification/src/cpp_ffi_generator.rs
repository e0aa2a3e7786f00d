//! The binding orchestrator and its parts: the method eligibility filter,
//! the inheritance resolver, the overload disambiguator, and the per-header
//! driver that turns parsed C++ data into deterministically ordered lists
//! of shim methods.

use vstd::prelude::*;

use crate::caption_strategy::{
    MethodCaptionStrategy, spec_all_strategies, spec_method_caption, method_caption,
};
use crate::cpp_data::{CppData, CppTypeKind, CppVisibility, type_data_model};
use crate::cpp_ffi_data::{CompleteType, CppMethodWithFfiSignature, string_is};
use crate::cpp_method::{
    CppMethod, CppMethodKind, MethodModel, lemma_contains_model_push, method_model,
    spec_contains_method_model,
};
use crate::order::{bytes_le, str_bytes_le};
use vstd::utf8::encode_utf8;

verus! {

/// How weighty a diagnostic is.
#[derive(Debug, Clone, Copy, PartialEq, Eq, Structural)]
pub enum DiagnosticSeverity {
    /// Of interest only when tracing a run.
    Detail,
    /// Ordinary progress information.
    Info,
    /// Something was skipped or could not be resolved; the run went on.
    Warning,
}

/// A structured diagnostic, returned alongside results instead of being
/// written to an ambient log, so that the pipeline stays a pure function of
/// its input.
#[derive(Debug)]
pub struct Diagnostic {
    /// How weighty the diagnostic is.
    pub severity: DiagnosticSeverity,
    /// What happened, in words.
    pub message: String,
}

/// The fatal conditions: each aborts the whole generation run, because
/// partial output would be unusable or unstable.
#[derive(Debug, Clone, Copy, PartialEq, Eq, Structural)]
pub enum GenerationError {
    /// The base-class graph contains a cycle.
    InheritanceCycle,
    /// A base specifier resolves to a declaration that is not a class.
    BaseNotClass,
    /// Some group of colliding shim names is not separated by any caption
    /// strategy.
    DisambiguationFailed,
}

/// A finalized bindable method: the method, the conversion records of its
/// return value and arguments, and its unique shim symbol name.
#[derive(Debug)]
pub struct CppAndFfiMethod {
    /// The method.
    pub cpp_method: CppMethod,
    /// The conversion record of the return value.
    pub return_type_ffi: CompleteType,
    /// The conversion records of the arguments, in order.
    pub arguments_ffi: Vec<CompleteType>,
    /// The shim symbol name, unique within its header.
    pub c_name: String,
}

impl CppAndFfiMethod {
    /// Attaches the chosen symbol name to a signature candidate.
    pub fn new(sig: CppMethodWithFfiSignature, c_name: String) -> (r: CppAndFfiMethod)
        ensures
            r.cpp_method == sig.cpp_method,
            r.return_type_ffi == sig.return_type_ffi,
            r.arguments_ffi == sig.arguments_ffi,
            r.c_name == c_name,
    {
        CppAndFfiMethod {
            cpp_method: sig.cpp_method,
            return_type_ffi: sig.return_type_ffi,
            arguments_ffi: sig.arguments_ffi,
            c_name,
        }
    }
}

// ----------------------------------------------------------------------
// Shim base names.

/// The base shim name of a method: its class name (or, for free functions,
/// the header's base name and a `_G` marker), then `constructor`,
/// `destructor`, the operator's tag, or the method's own name.
pub open spec fn spec_c_base_name(mm: MethodModel, header_base: Seq<char>) -> Seq<char> {
    let scope = match mm.class_membership {
        Some(c) => c.class_name + "_"@,
        None => header_base + "_G_"@,
    };
    let name_part = if mm.class_membership matches Some(c) && c.kind is Constructor {
        "constructor"@
    } else if mm.class_membership matches Some(c) && c.kind is Destructor {
        "destructor"@
    } else {
        match mm.operator {
            Some(op) => "operator_"@ + crate::cpp_method::spec_operator_tag(op),
            None => mm.name,
        }
    };
    scope + name_part
}

/// Computes the base shim name of `method` for a header with the given
/// base name.
pub fn c_base_name(method: &CppMethod, header_base: &String) -> (r: String)
    ensures
        r@ == spec_c_base_name(method_model(*method), header_base@),
{
    let mut scope = match &method.class_membership {
        Option::Some(c) => {
            let mut s = c.class_type.name.clone();
            s.append("_");
            s
        },
        Option::None => {
            let mut s = header_base.clone();
            s.append("_G_");
            s
        },
    };
    let name_part: String = match &method.class_membership {
        Option::Some(c) if c.kind == CppMethodKind::Constructor => String::from_str(
            "constructor",
        ),
        Option::Some(c) if c.kind == CppMethodKind::Destructor => String::from_str("destructor"),
        _ => match &method.operator {
            Option::Some(op) => {
                let mut s = String::from_str("operator_");
                s.append(op.tag().as_str());
                s
            },
            Option::None => method.name.clone(),
        },
    };
    scope.append(name_part.as_str());
    scope
}

// ----------------------------------------------------------------------
// The method eligibility filter.

/// True when some string of `names` spells `n`.
pub open spec fn contains_name(names: Seq<String>, n: Seq<char>) -> bool {
    exists|i: int| 0 <= i < names.len() && #[trigger] names[i]@ == n
}

/// Decides whether some string of `v` spells the same as `name`.
pub fn vec_contains_name(v: &Vec<String>, name: &String) -> (r: bool)
    ensures
        r == contains_name(v@, name@),
{
    let mut i: usize = 0;
    while i < v.len()
        invariant
            i <= v@.len(),
            forall|j: int| 0 <= j < i ==> #[trigger] v@[j]@ != name@,
        decreases v@.len() - i,
    {
        if v[i].eq(name) {
            return true;
        }
        i += 1;
    }
    false
}

/// True when `n` is `p` followed by a scope separator: the name of an
/// entity nested inside the class named `p`.
pub open spec fn spec_scope_prefix(p: Seq<char>, n: Seq<char>) -> bool {
    n.len() >= p.len() + 2 && n.take(p.len() as int) == p && n[p.len() as int] == ':'
        && n[p.len() as int + 1] == ':'
}

/// Decides whether `n` names an entity nested inside the class named `p`.
fn scope_prefix(p: &str, n: &str) -> (r: bool)
    ensures
        r == spec_scope_prefix(p@, n@),
{
    let pl = p.unicode_len();
    let nl = n.unicode_len();
    if nl < 2 || pl > nl - 2 {
        return false;
    }
    let mut i: usize = 0;
    while i < pl
        invariant
            i <= pl,
            pl == p@.len(),
            nl == n@.len(),
            nl >= 2,
            pl <= nl - 2,
            forall|j: int| 0 <= j < i ==> n@[j] == p@[j],
        decreases pl - i,
    {
        if n.get_char(i) != p.get_char(i) {
            proof {
                assert(n@.take(pl as int)[i as int] != p@[i as int]);
            }
            return false;
        }
        i += 1;
    }
    proof {
        assert(n@.take(pl as int) =~= p@);
    }
    n.get_char(pl) == ':' && n.get_char(pl + 1) == ':'
}

/// True when the class named `class_name` is one of the template classes
/// of `tcs`, or is nested inside one.
pub open spec fn spec_in_template_class(tcs: Seq<String>, class_name: Seq<char>) -> bool {
    exists|i: int|
        0 <= i < tcs.len() && (#[trigger] tcs[i]@ == class_name || spec_scope_prefix(
            tcs[i]@,
            class_name,
        ))
}

/// Decides whether the class named `class_name` is a template class of
/// `tcs` or nested inside one.
fn in_template_class(tcs: &Vec<String>, class_name: &String) -> (r: bool)
    ensures
        r == spec_in_template_class(tcs@, class_name@),
{
    let mut i: usize = 0;
    while i < tcs.len()
        invariant
            i <= tcs@.len(),
            forall|j: int|
                0 <= j < i ==> !(#[trigger] tcs@[j]@ == class_name@ || spec_scope_prefix(
                    tcs@[j]@,
                    class_name@,
                )),
        decreases tcs@.len() - i,
    {
        if tcs[i].eq(class_name) || scope_prefix(tcs[i].as_str(), class_name.as_str()) {
            return true;
        }
        i += 1;
    }
    false
}

/// True when the class occurrence (name plus template arguments) is a
/// registered template instantiation: its methods have a fixed ABI and may
/// be bound even though the class is a template.
pub open spec fn spec_registered_instantiation(
    insts: Seq<crate::cpp_data::CppTemplateInstantiations>,
    class_name: Seq<char>,
    targs: Option<Seq<crate::cpp_type::TypeModel>>,
) -> bool {
    targs matches Some(ts) && exists|i: int, j: int|
        #![trigger insts[i].instantiations@[j]]
        0 <= i < insts.len() && 0 <= j < insts[i].instantiations@.len() && (insts[i].class_name)@
            == class_name && crate::cpp_type::type_vec_model(
            insts[i].instantiations@[j].template_arguments,
        ) == ts
}

/// Decides whether the class type is a registered template instantiation.
fn is_registered_instantiation(
    insts: &Vec<crate::cpp_data::CppTemplateInstantiations>,
    class_type: &crate::cpp_type::CppTypeClassBase,
) -> (r: bool)
    ensures
        r == spec_registered_instantiation(
            insts@,
            crate::cpp_type::class_base_model(*class_type).name,
            crate::cpp_type::class_base_model(*class_type).template_arguments,
        ),
{
    match &class_type.template_arguments {
        Option::None => false,
        Option::Some(args) => {
            let mut i: usize = 0;
            while i < insts.len()
                invariant
                    i <= insts@.len(),
                    crate::cpp_type::class_base_model(*class_type).template_arguments == Some(
                        crate::cpp_type::type_vec_model(*args),
                    ),
                    forall|p: int, q: int|
                        #![trigger insts@[p].instantiations@[q]]
                        0 <= p < i && 0 <= q < insts@[p].instantiations@.len() ==> !((
                        insts@[p].class_name)@ == crate::cpp_type::class_base_model(
                            *class_type,
                        ).name && crate::cpp_type::type_vec_model(
                            insts@[p].instantiations@[q].template_arguments,
                        ) == crate::cpp_type::type_vec_model(*args)),
                decreases insts@.len() - i,
            {
                if insts[i].class_name.eq(&class_type.name) {
                    let mut j: usize = 0;
                    while j < insts[i].instantiations.len()
                        invariant
                            i < insts@.len(),
                            j <= insts@[i as int].instantiations@.len(),
                            (insts@[i as int].class_name)@ == crate::cpp_type::class_base_model(
                                *class_type,
                            ).name,
                            crate::cpp_type::class_base_model(*class_type).template_arguments
                                == Some(crate::cpp_type::type_vec_model(*args)),
                            forall|q: int|
                                0 <= q < j ==> crate::cpp_type::type_vec_model(
                                    (#[trigger] insts@[i as int].instantiations@[q]).template_arguments,
                                ) != crate::cpp_type::type_vec_model(*args),
                        decreases insts@[i as int].instantiations@.len() - j,
                    {
                        if crate::cpp_type::type_vecs_equal(
                            &insts[i].instantiations[j].template_arguments,
                            args,
                        ) {
                            return true;
                        }
                        j += 1;
                    }
                }
                i += 1;
            }
            false
        },
    }
}

/// Why a method produces no bindings.
#[derive(Debug, Clone, Copy, PartialEq, Eq, Structural)]
pub enum MethodSkipReason {
    /// A constructor of an abstract class.
    AbstractClassConstructor,
    /// A private member.
    PrivateVisibility,
    /// A protected member, not exposed across the boundary.
    ProtectedVisibility,
    /// A signal, emitted through a separate mechanism.
    Signal,
    /// A template method without a concrete instantiation.
    TemplateMethod,
    /// A member of a template class.
    TemplateClassMethod,
}

/// A method is eligible for binding when it is not a constructor of an
/// abstract class, not private, not protected, not a signal, not a template
/// method, and not a member of a template class.
pub open spec fn spec_method_allowed(
    mm: MethodModel,
    abstract_classes: Seq<String>,
    template_classes: Seq<String>,
    instantiations: Seq<crate::cpp_data::CppTemplateInstantiations>,
) -> bool {
    &&& (mm.class_membership matches Some(c) ==> {
        &&& !(c.kind is Constructor && contains_name(abstract_classes, c.class_name))
        &&& c.visibility == CppVisibility::Public
        &&& !c.is_signal
        &&& !(spec_in_template_class(template_classes, c.class_name)
            && !spec_registered_instantiation(
            instantiations,
            c.class_name,
            c.class_template_arguments,
        ))
    })
    &&& !mm.has_template_arguments
}

/// The filter's verdict on a method, the checks applied in a fixed order
/// with the first match winning: `None` means the method proceeds to
/// synthesis, a reason means it is dropped.
pub open spec fn spec_skip_reason(
    mm: MethodModel,
    abstract_classes: Seq<String>,
    template_classes: Seq<String>,
    instantiations: Seq<crate::cpp_data::CppTemplateInstantiations>,
) -> Option<MethodSkipReason> {
    if mm.class_membership matches Some(c) && c.kind is Constructor && contains_name(
        abstract_classes,
        c.class_name,
    ) {
        Some(MethodSkipReason::AbstractClassConstructor)
    } else if mm.class_membership matches Some(c) && c.visibility == CppVisibility::Private {
        Some(MethodSkipReason::PrivateVisibility)
    } else if mm.class_membership matches Some(c) && c.visibility == CppVisibility::Protected {
        Some(MethodSkipReason::ProtectedVisibility)
    } else if mm.class_membership matches Some(c) && c.is_signal {
        Some(MethodSkipReason::Signal)
    } else if mm.has_template_arguments {
        Some(MethodSkipReason::TemplateMethod)
    } else if mm.class_membership matches Some(c) && spec_in_template_class(
        template_classes,
        c.class_name,
    ) && !spec_registered_instantiation(instantiations, c.class_name, c.class_template_arguments) {
        Some(MethodSkipReason::TemplateClassMethod)
    } else {
        None
    }
}

/// Applies the eligibility filter to one method: `None` means the method
/// proceeds to synthesis, and a reason means it is dropped. The checks are
/// applied in a fixed order and the first match wins.
pub fn method_allowed(
    method: &CppMethod,
    abstract_classes: &Vec<String>,
    template_classes: &Vec<String>,
    instantiations: &Vec<crate::cpp_data::CppTemplateInstantiations>,
) -> (r: Option<MethodSkipReason>)
    ensures
        r == spec_skip_reason(
            method_model(*method),
            abstract_classes@,
            template_classes@,
            instantiations@,
        ),
        r is None <==> spec_method_allowed(
            method_model(*method),
            abstract_classes@,
            template_classes@,
            instantiations@,
        ),
{
    match &method.class_membership {
        Option::Some(membership) => {
            if membership.kind == CppMethodKind::Constructor && vec_contains_name(
                abstract_classes,
                &membership.class_type.name,
            ) {
                return Some(MethodSkipReason::AbstractClassConstructor);
            }
            if membership.visibility == CppVisibility::Private {
                return Some(MethodSkipReason::PrivateVisibility);
            }
            if membership.visibility == CppVisibility::Protected {
                return Some(MethodSkipReason::ProtectedVisibility);
            }
            if membership.is_signal {
                return Some(MethodSkipReason::Signal);
            }
        },
        Option::None => {},
    }
    if method.template_arguments.is_some() {
        return Some(MethodSkipReason::TemplateMethod);
    }
    match &method.class_membership {
        Option::Some(membership) => {
            if in_template_class(template_classes, &membership.class_type.name)
                && !is_registered_instantiation(instantiations, &membership.class_type) {
                return Some(MethodSkipReason::TemplateClassMethod);
            }
        },
        Option::None => {},
    }
    None
}

// ----------------------------------------------------------------------
// The overload disambiguator.

/// True when the chosen strategy separates every pair of candidates.
pub open spec fn spec_captions_distinct(
    values: Seq<CppMethodWithFfiSignature>,
    st: MethodCaptionStrategy,
) -> bool {
    forall|i: int, j: int|
        0 <= i < j < values.len() ==> spec_method_caption(
            method_model(#[trigger] values[i].cpp_method),
            st,
        ) != spec_method_caption(method_model(#[trigger] values[j].cpp_method), st)
}

/// The first strategy, from position `k` of the fixed list on, that
/// separates every candidate of the group; `None` when none does.
pub open spec fn spec_choose_strategy(values: Seq<CppMethodWithFfiSignature>, k: int) -> Option<
    MethodCaptionStrategy,
>
    decreases spec_all_strategies().len() - k,
{
    if k < 0 || k >= spec_all_strategies().len() {
        None
    } else if spec_captions_distinct(values, spec_all_strategies()[k]) {
        Some(spec_all_strategies()[k])
    } else {
        spec_choose_strategy(values, k + 1)
    }
}

/// Decides whether `st` separates every pair of candidates of `values`.
fn captions_distinct(values: &Vec<CppMethodWithFfiSignature>, st: MethodCaptionStrategy) -> (r:
    bool)
    ensures
        r == spec_captions_distinct(values@, st),
{
    let n = values.len();
    let mut i: usize = 0;
    while i < n
        invariant
            i <= n,
            n == values@.len(),
            forall|p: int, q: int|
                0 <= p < q < i ==> spec_method_caption(
                    method_model(#[trigger] values@[p].cpp_method),
                    st,
                ) != spec_method_caption(method_model(#[trigger] values@[q].cpp_method), st),
        decreases n - i,
    {
        let ci = method_caption(&values[i].cpp_method, st);
        let mut j: usize = 0;
        while j < i
            invariant
                j <= i,
                i < n,
                n == values@.len(),
                ci@ == spec_method_caption(method_model(values@[i as int].cpp_method), st),
                forall|q: int|
                    0 <= q < j ==> spec_method_caption(
                        method_model(#[trigger] values@[q].cpp_method),
                        st,
                    ) != spec_method_caption(method_model(values@[i as int].cpp_method), st),
            decreases i - j,
        {
            let cj = method_caption(&values[j].cpp_method, st);
            if cj.eq(&ci) {
                return false;
            }
            j += 1;
        }
        i += 1;
    }
    true
}

/// Finds the first caption strategy separating the group, in the fixed
/// order of `spec_all_strategies`.
fn choose_strategy(values: &Vec<CppMethodWithFfiSignature>) -> (r: Option<MethodCaptionStrategy>)
    ensures
        r == spec_choose_strategy(values@, 0),
{
    let all = MethodCaptionStrategy::all();
    let mut k: usize = 0;
    while k < all.len()
        invariant
            k <= all@.len(),
            all@ == spec_all_strategies(),
            spec_choose_strategy(values@, 0) == spec_choose_strategy(values@, k as int),
        decreases all@.len() - k,
    {
        if captions_distinct(values, all[k]) {
            return Some(all[k]);
        }
        k += 1;
    }
    None
}

/// The symbol name of the `i`-th candidate of a group with base name
/// `key`: the base name alone for a singleton group or an empty caption,
/// else the base name, an underscore, and the caption of the strategy the
/// group settled on.
pub open spec fn spec_group_name(
    key: Seq<char>,
    values: Seq<CppMethodWithFfiSignature>,
    i: int,
) -> Seq<char> {
    if values.len() == 1 {
        key
    } else {
        let st = spec_choose_strategy(values, 0)->0;
        let cap = spec_method_caption(method_model(values[i].cpp_method), st);
        if cap.len() == 0 {
            key
        } else {
            key + "_"@ + cap
        }
    }
}


/// A chosen strategy separates the whole group.
proof fn lemma_choose_strategy_distinct(values: Seq<CppMethodWithFfiSignature>, k: int)
    requires
        0 <= k,
    ensures
        spec_choose_strategy(values, k) matches Some(st) ==> spec_captions_distinct(values, st),
    decreases spec_all_strategies().len() - k,
{
    if k < spec_all_strategies().len() {
        lemma_choose_strategy_distinct(values, k + 1);
    }
}

/// Appending different captions to one base name gives different names.
proof fn lemma_key_caption_injective(key: Seq<char>, c1: Seq<char>, c2: Seq<char>)
    requires
        key + "_"@ + c1 == key + "_"@ + c2,
    ensures
        c1 == c2,
{
    let p = key + "_"@;
    let s1 = p + c1;
    let s2 = p + c2;
    assert(c1 =~= s1.subrange(p.len() as int, s1.len() as int));
    assert(c2 =~= s2.subrange(p.len() as int, s2.len() as int));
}

/// Within one disambiguated group, no two candidates get the same symbol
/// name: the group's whole purpose. (Names from different groups are built
/// from different base names and are distinct in practice, though underscores
/// inside method names could in principle make two groups' names meet.)
pub proof fn lemma_group_names_distinct(
    key: Seq<char>,
    values: Seq<CppMethodWithFfiSignature>,
    i1: int,
    i2: int,
)
    requires
        0 <= i1 < i2 < values.len(),
        values.len() > 1,
        spec_choose_strategy(values, 0) is Some,
    ensures
        spec_group_name(key, values, i1) != spec_group_name(key, values, i2),
{
    reveal_strlit("_");
    let st = spec_choose_strategy(values, 0)->0;
    lemma_choose_strategy_distinct(values, 0);
    let c1 = spec_method_caption(method_model(values[i1].cpp_method), st);
    let c2 = spec_method_caption(method_model(values[i2].cpp_method), st);
    assert(c1 != c2);
    let n1 = spec_group_name(key, values, i1);
    let n2 = spec_group_name(key, values, i2);
    if c1.len() == 0 && c2.len() == 0 {
        assert(c1 =~= c2);
    } else if c1.len() == 0 {
        assert(n1 == key);
        assert(n2 == key + "_"@ + c2);
        assert(n2.len() == key.len() + 1 + c2.len());
    } else if c2.len() == 0 {
        assert(n2 == key);
        assert(n1 == key + "_"@ + c1);
        assert(n1.len() == key.len() + 1 + c1.len());
    } else {
        if n1 == n2 {
            lemma_key_caption_injective(key, c1, c2);
        }
    }
}

/// Disambiguates one group of candidates sharing the base name `key` and
/// appends the named methods to `out`. A singleton group keeps its base
/// name unmodified; a larger group is named by the first caption strategy
/// that separates all its members, and when no strategy does, the whole
/// run fails rather than inventing arbitrary suffixes.
fn disambiguate_group(
    key: String,
    values: Vec<CppMethodWithFfiSignature>,
    out: &mut Vec<CppAndFfiMethod>,
) -> (r: Result<(), GenerationError>)
    ensures
        r is Ok <==> (values@.len() == 1 || spec_choose_strategy(values@, 0) is Some),
        r matches Err(e) ==> final(out)@ == old(out)@ && e == GenerationError::DisambiguationFailed,
        r is Ok ==> {
            &&& final(out)@.len() == old(out)@.len() + values@.len()
            &&& (forall|i: int| 0 <= i < old(out)@.len() ==> final(out)@[i] == old(out)@[i])
            &&& (forall|i: int|
                0 <= i < values@.len() ==> {
                    let e = #[trigger] final(out)@[old(out)@.len() + i];
                    &&& e.cpp_method == values@[i].cpp_method
                    &&& e.return_type_ffi == values@[i].return_type_ffi
                    &&& e.arguments_ffi == values@[i].arguments_ffi
                    &&& e.c_name@ == spec_group_name(key@, values@, i)
                })
        },
{
    let ghost orig = values@;
    let mut values = values;
    if values.len() == 1 {
        let v = values.remove(0);
        out.push(CppAndFfiMethod::new(v, key));
        return Ok(());
    }
    let strategy = match choose_strategy(&values) {
        Some(st) => st,
        None => {
            return Err(GenerationError::DisambiguationFailed);
        },
    };
    let total = values.len();
    let mut i: usize = 0;
    while values.len() > 0
        invariant
            total == orig.len(),
            orig.len() != 1,
            spec_choose_strategy(orig, 0) == Some(strategy),
            i + values@.len() == orig.len(),
            values@ == orig.skip(i as int),
            out@.len() == old(out)@.len() + i,
            forall|j: int| 0 <= j < old(out)@.len() ==> out@[j] == old(out)@[j],
            forall|j: int|
                0 <= j < i ==> {
                    let e = #[trigger] out@[old(out)@.len() + j];
                    &&& e.cpp_method == orig[j].cpp_method
                    &&& e.return_type_ffi == orig[j].return_type_ffi
                    &&& e.arguments_ffi == orig[j].arguments_ffi
                    &&& e.c_name@ == spec_group_name(key@, orig, j)
                },
        decreases values@.len(),
    {
        let v = values.remove(0);
        proof {
            assert(v == orig[i as int]);
            assert(values@ =~= orig.skip(i + 1 as int));
        }
        let caption = method_caption(&v.cpp_method, strategy);
        let name = if caption.as_str().is_empty() {
            key.clone()
        } else {
            let mut n = key.clone();
            n.append("_");
            n.append(caption.as_str());
            n
        };
        out.push(CppAndFfiMethod::new(v, name));
        i += 1;
    }
    proof {
        assert(orig.skip(orig.len() as int).len() == 0);
    }
    Ok(())
}

// ----------------------------------------------------------------------
// Deterministic ordering of the finalized methods.

/// The sort key of a finalized method: the UTF-8 bytes of its symbol name.
pub open spec fn spec_name_key(m: CppAndFfiMethod) -> Seq<u8> {
    encode_utf8(m.c_name@)
}

/// True when the methods of `s` are sorted by symbol name, in
/// byte-lexicographic order.
pub open spec fn spec_sorted_methods(s: Seq<CppAndFfiMethod>) -> bool {
    forall|i: int, j: int|
        0 <= i < j < s.len() ==> bytes_le(spec_name_key(#[trigger] s[i]), spec_name_key(
            #[trigger] s[j],
        ))
}

/// Inserts `x` into the sorted vector `out`, keeping it sorted.
fn insert_sorted(out: &mut Vec<CppAndFfiMethod>, x: CppAndFfiMethod)
    requires
        spec_sorted_methods(old(out)@),
    ensures
        spec_sorted_methods(final(out)@),
        final(out)@.to_multiset() == old(out)@.to_multiset().insert(x),
        final(out)@.len() == old(out)@.len() + 1,
        forall|i: int|
            0 <= i < final(out)@.len() ==> (#[trigger] final(out)@[i] == x || exists|j: int|
                0 <= j < old(out)@.len() && old(out)@[j] == final(out)@[i]),
        final(out)@.contains(x),
        forall|j: int| 0 <= j < old(out)@.len() ==> final(out)@.contains(#[trigger] old(out)@[j]),
{
    let mut pos: usize = 0;
    while pos < out.len() && str_bytes_le(&out[pos].c_name, &x.c_name)
        invariant
            pos <= out@.len(),
            out@ == old(out)@,
            forall|j: int| 0 <= j < pos ==> bytes_le(spec_name_key(#[trigger] out@[j]), spec_name_key(x)),
        decreases out@.len() - pos,
    {
        pos += 1;
    }
    proof {
        if pos < out@.len() {
            crate::order::lemma_bytes_le_total_from(
                spec_name_key(out@[pos as int]),
                spec_name_key(x),
                0,
            );
        }
    }
    out.insert(pos, x);
    proof {
        broadcast use vstd::seq_lib::to_multiset_insert;

        let o = old(out)@;
        let f = out@;
        assert(f == o.insert(pos as int, x));
        assert forall|i: int, j: int| 0 <= i < j < f.len() implies bytes_le(
            spec_name_key(f[i]),
            spec_name_key(f[j]),
        ) by {
            if i < pos && j < pos {
            } else if i < pos && j == pos {
            } else if i == pos && j > pos {
                if j - 1 > pos {
                    crate::order::lemma_bytes_le_trans_from(
                        spec_name_key(x),
                        spec_name_key(o[pos as int]),
                        spec_name_key(o[j - 1]),
                        0,
                    );
                }
            } else if i < pos && j > pos {
            } else {
            }
        }
        assert forall|i: int|
            0 <= i < f.len() implies (f[i] == x || exists|j: int| 0 <= j < o.len() && o[j] == f[i]) by {
            if i < pos {
                assert(o[i] == f[i]);
            } else if i > pos {
                assert(o[i - 1] == f[i]);
            }
        }
        assert(f[pos as int] == x);
        assert(f.contains(x));
        assert forall|j: int| 0 <= j < o.len() implies f.contains(#[trigger] o[j]) by {
            if j < pos {
                assert(f[j] == o[j]);
            } else {
                assert(f[j + 1] == o[j]);
            }
        }
    }
}


// ----------------------------------------------------------------------
// The inheritance resolver.

/// True when the method belongs to the class named `class_name`.
pub open spec fn mm_own(mm: MethodModel, class_name: Seq<char>) -> bool {
    mm.class_membership matches Some(c) && c.class_name == class_name
}

/// True when the method is a pure virtual class member.
pub open spec fn mm_pure_virtual(mm: MethodModel) -> bool {
    mm.class_membership matches Some(c) && c.is_pure_virtual
}

/// True when the class named `class_name` declares a method of the same
/// name and call signature as `mm`: such a declaration shadows anything
/// inherited.
pub open spec fn spec_shadowed_by_own(
    methods: Seq<CppMethod>,
    class_name: Seq<char>,
    mm: MethodModel,
) -> bool {
    exists|j: int|
        0 <= j < methods.len() && mm_own(method_model(#[trigger] methods[j]), class_name)
            && method_model(methods[j]).name == mm.name && crate::cpp_method::spec_signature_match(
            method_model(methods[j]),
            mm,
        )
}

/// A name once contained stays contained when the list grows.
proof fn lemma_contains_name_push(names: Seq<String>, x: String, n: Seq<char>)
    requires
        contains_name(names, n),
    ensures
        contains_name(names.push(x), n),
{
    let w = choose|w: int| 0 <= w < names.len() && #[trigger] names[w]@ == n;
    assert(names.push(x)[w]@ == n);
}

/// What the resolver promises of a resolved method list `v` for the class
/// named `class_name`: every own method that passes the pure-virtual filter
/// is present; everything present passes the filter; and an inherited
/// method never stands where an own method of the same name and signature
/// shadows it.
pub open spec fn spec_resolved(
    methods: Seq<CppMethod>,
    class_name: Seq<char>,
    pure_only: bool,
    v: Seq<CppMethod>,
) -> bool {
    &&& (forall|k: int|
        0 <= k < v.len() ==> (pure_only ==> mm_pure_virtual(method_model(#[trigger] v[k]))))
    &&& (forall|k: int|
        0 <= k < v.len() ==> (mm_own(method_model(#[trigger] v[k]), class_name)
            || !spec_shadowed_by_own(methods, class_name, method_model(v[k]))))
    &&& (forall|j: int|
        0 <= j < methods.len() && mm_own(method_model(#[trigger] methods[j]), class_name) && (
        pure_only ==> mm_pure_virtual(method_model(methods[j]))) ==> spec_contains_method_model(
            v,
            method_model(methods[j]),
        ))
}


/// The models of a method list, in order.
pub open spec fn method_models_of(s: Seq<CppMethod>) -> Seq<MethodModel> {
    Seq::new(s.len(), |i: int| method_model(s[i]))
}

/// The traversal path as mathematical integers.
pub open spec fn indices_of(v: Seq<usize>) -> Seq<int> {
    Seq::new(v.len(), |i: int| v[i] as int)
}

/// Containment carries over between a path and its integer view.
proof fn lemma_indices_contains(v: Seq<usize>, x: usize)
    ensures
        v.contains(x) <==> indices_of(v).contains(x as int),
{
    if v.contains(x) {
        let i = choose|i: int| 0 <= i < v.len() && v[i] == x;
        assert(indices_of(v)[i] == x as int);
    }
    if indices_of(v).contains(x as int) {
        let i = choose|i: int| 0 <= i < indices_of(v).len() && indices_of(v)[i] == x as int;
        assert(v[i] == x);
    }
}

/// The models of the class's own declarations from position `i` on that
/// pass the pure-virtual restriction, in declaration order.
pub open spec fn spec_own_models_from(
    methods: Seq<CppMethod>,
    class_name: Seq<char>,
    pure_only: bool,
    i: int,
) -> Seq<MethodModel>
    decreases methods.len() - i,
{
    if i < 0 || i >= methods.len() {
        Seq::empty()
    } else {
        (if mm_own(method_model(methods[i]), class_name) && (!pure_only || mm_pure_virtual(
            method_model(methods[i]),
        )) {
            seq![method_model(methods[i])]
        } else {
            Seq::empty()
        }) + spec_own_models_from(methods, class_name, pure_only, i + 1)
    }
}

/// The methods of `s` from position `i` on that no own declaration of the
/// class shadows, in order.
pub open spec fn spec_unshadowed_from(
    methods: Seq<CppMethod>,
    class_name: Seq<char>,
    s: Seq<MethodModel>,
    i: int,
) -> Seq<MethodModel>
    decreases s.len() - i,
{
    if i < 0 || i >= s.len() {
        Seq::empty()
    } else {
        (if spec_shadowed_by_own(methods, class_name, s[i]) {
            Seq::empty()
        } else {
            seq![s[i]]
        }) + spec_unshadowed_from(methods, class_name, s, i + 1)
    }
}

/// The resolver, as a mathematical function: the transitive method set of
/// the class at position `ci`, collected depth-first through its bases,
/// with inherited methods that the class's own declarations shadow removed
/// and the own declarations appended last. `visiting` holds the positions
/// on the current traversal path; `fuel` bounds the recursion depth and is
/// never exhausted when called with one unit per class not yet on the path,
/// since a repeat on the path is reported as a cycle first.
pub open spec fn spec_resolve(
    types: Seq<crate::cpp_data::CppTypeData>,
    methods: Seq<CppMethod>,
    ci: int,
    visiting: Seq<int>,
    pure_only: bool,
    fuel: nat,
) -> Result<Seq<MethodModel>, GenerationError>
    decreases fuel, 0int, 0int,
{
    if fuel == 0 {
        Err(GenerationError::InheritanceCycle)
    } else if !(0 <= ci < types.len() && type_data_model(types[ci]).is_class) {
        Err(GenerationError::BaseNotClass)
    } else {
        let name = type_data_model(types[ci]).name;
        match spec_resolve_bases(
            types,
            methods,
            name,
            type_data_model(types[ci]).bases,
            0,
            visiting.push(ci),
            pure_only,
            (fuel - 1) as nat,
        ) {
            Err(e) => Err(e),
            Ok(inherited) => Ok(inherited + spec_own_models_from(methods, name, pure_only, 0)),
        }
    }
}

/// The inherited part of the resolution: the concatenation, over the base
/// specifiers from position `bi` on, of each base's resolved methods with
/// the shadowed ones removed. A base whose name has no declaration
/// contributes nothing; a base that is not a class, names a declaration
/// that is not a class, or closes a cycle is fatal.
pub open spec fn spec_resolve_bases(
    types: Seq<crate::cpp_data::CppTypeData>,
    methods: Seq<CppMethod>,
    class_name: Seq<char>,
    bases: Seq<crate::cpp_data::BaseSpecifierModel>,
    bi: int,
    visiting: Seq<int>,
    pure_only: bool,
    fuel: nat,
) -> Result<Seq<MethodModel>, GenerationError>
    decreases fuel, 1int, bases.len() - bi,
{
    if bi < 0 || bi >= bases.len() {
        Ok(Seq::empty())
    } else {
        match bases[bi].base_type.base {
            crate::cpp_type::BaseModel::Class(cb) => {
                let ti = crate::cpp_data::spec_find_type(types, cb.name, 0);
                if ti < 0 {
                    spec_resolve_bases(types, methods, class_name, bases, bi + 1, visiting, pure_only, fuel)
                } else if !type_data_model(types[ti]).is_class {
                    Err(GenerationError::BaseNotClass)
                } else if visiting.contains(ti) {
                    Err(GenerationError::InheritanceCycle)
                } else {
                    match spec_resolve(types, methods, ti, visiting, pure_only, fuel) {
                        Err(e) => Err(e),
                        Ok(base_methods) => match spec_resolve_bases(
                            types,
                            methods,
                            class_name,
                            bases,
                            bi + 1,
                            visiting,
                            pure_only,
                            fuel,
                        ) {
                            Err(e) => Err(e),
                            Ok(rest) => Ok(
                                spec_unshadowed_from(methods, class_name, base_methods, 0) + rest,
                            ),
                        },
                    }
                }
            },
            _ => Err(GenerationError::BaseNotClass),
        }
    }
}

/// The resolver only fails on cycles and non-class bases; disambiguation
/// failure is not its error.
proof fn lemma_resolve_no_disamb(
    types: Seq<crate::cpp_data::CppTypeData>,
    methods: Seq<CppMethod>,
    ci: int,
    visiting: Seq<int>,
    pure_only: bool,
    fuel: nat,
)
    ensures
        spec_resolve(types, methods, ci, visiting, pure_only, fuel) matches Err(e) ==> e
            != GenerationError::DisambiguationFailed,
    decreases fuel, 0int, 0int,
{
    if fuel != 0 && 0 <= ci < types.len() && type_data_model(types[ci]).is_class {
        lemma_resolve_bases_no_disamb(
            types,
            methods,
            type_data_model(types[ci]).name,
            type_data_model(types[ci]).bases,
            0,
            visiting.push(ci),
            pure_only,
            (fuel - 1) as nat,
        );
    }
}

/// The inherited part of the resolution only fails on cycles and non-class
/// bases too.
proof fn lemma_resolve_bases_no_disamb(
    types: Seq<crate::cpp_data::CppTypeData>,
    methods: Seq<CppMethod>,
    class_name: Seq<char>,
    bases: Seq<crate::cpp_data::BaseSpecifierModel>,
    bi: int,
    visiting: Seq<int>,
    pure_only: bool,
    fuel: nat,
)
    ensures
        spec_resolve_bases(types, methods, class_name, bases, bi, visiting, pure_only, fuel)
            matches Err(e) ==> e != GenerationError::DisambiguationFailed,
    decreases fuel, 1int, bases.len() - bi,
{
    if 0 <= bi < bases.len() {
        match bases[bi].base_type.base {
            crate::cpp_type::BaseModel::Class(cb) => {
                let ti = crate::cpp_data::spec_find_type(types, cb.name, 0);
                if ti < 0 {
                    lemma_resolve_bases_no_disamb(
                        types,
                        methods,
                        class_name,
                        bases,
                        bi + 1,
                        visiting,
                        pure_only,
                        fuel,
                    );
                } else if type_data_model(types[ti]).is_class && !visiting.contains(ti) {
                    lemma_resolve_no_disamb(types, methods, ti, visiting, pure_only, fuel);
                    lemma_resolve_bases_no_disamb(
                        types,
                        methods,
                        class_name,
                        bases,
                        bi + 1,
                        visiting,
                        pure_only,
                        fuel,
                    );
                }
            },
            _ => {},
        }
    }
}

/// The resolution of the class named `class_name`: own declarations alone
/// when the class has no type declaration (that branch gets a diagnostic),
/// fatal when the declaration is not a class, and the transitive resolution
/// otherwise.
pub open spec fn spec_resolve_entry(
    types: Seq<crate::cpp_data::CppTypeData>,
    methods: Seq<CppMethod>,
    class_name: Seq<char>,
    pure_only: bool,
) -> Result<Seq<MethodModel>, GenerationError> {
    let ti = crate::cpp_data::spec_find_type(types, class_name, 0);
    if ti < 0 {
        Ok(spec_own_models_from(methods, class_name, pure_only, 0))
    } else if !type_data_model(types[ti]).is_class {
        Err(GenerationError::BaseNotClass)
    } else {
        spec_resolve(types, methods, ti, Seq::empty(), pure_only, types.len() as nat)
    }
}


/// A prefix stays a prefix when the longer sequence grows.
pub proof fn lemma_prefix_push<A>(a: Seq<A>, b: Seq<A>, x: A)
    requires
        a.is_prefix_of(b),
    ensures
        a.is_prefix_of(b.push(x)),
{
    assert(b.push(x).subrange(0, a.len() as int) =~= b.subrange(0, a.len() as int));
}

/// Being a prefix is transitive.
pub proof fn lemma_prefix_trans<A>(a: Seq<A>, b: Seq<A>, c: Seq<A>)
    requires
        a.is_prefix_of(b),
        b.is_prefix_of(c),
    ensures
        a.is_prefix_of(c),
{
    assert(c.subrange(0, a.len() as int) =~= b.subrange(0, a.len() as int));
}

/// No more distinct indices below `n` than `n` itself.
proof fn lemma_distinct_indices_bound(vis: Seq<usize>, n: int)
    requires
        vis.no_duplicates(),
        forall|i: int| 0 <= i < vis.len() ==> (#[trigger] vis[i]) < n,
        0 <= n,
    ensures
        vis.len() <= n,
{
    broadcast use vstd::set::group_set_axioms;

    let ivis = vis.map_values(|x: usize| x as int);
    assert(ivis.no_duplicates());
    ivis.unique_seq_to_set();
    let range = vstd::set_lib::set_int_range(0, n);
    vstd::set_lib::lemma_int_range(0, n);
    assert forall|e: int| ivis.to_set().contains(e) implies range.contains(e) by {
        let i = choose|i: int| 0 <= i < ivis.len() && ivis[i] == e;
        assert(vis[i] < n);
    }
    assert(ivis.to_set().subset_of(range));
    vstd::set_lib::lemma_len_subset(ivis.to_set(), range);
}

/// Decides whether `v` holds the index `x`.
fn contains_index(v: &Vec<usize>, x: usize) -> (r: bool)
    ensures
        r == v@.contains(x),
{
    let mut i: usize = 0;
    while i < v.len()
        invariant
            i <= v@.len(),
            forall|j: int| 0 <= j < i ==> v@[j] != x,
        decreases v@.len() - i,
    {
        if v[i] == x {
            return true;
        }
        i += 1;
    }
    false
}

/// The collection of a generation run: the parsed data, the names of
/// template classes, and, once computed, the names of abstract classes and
/// of classes with an accessible destructor.
pub struct CGenerator {
    /// Name of the library being bound.
    pub lib_name: String,
    /// The parsed description of the library.
    pub cpp_data: CppData,
    /// Names of template classes: their members cannot be bound.
    pub template_classes: Vec<String>,
    /// Names of abstract classes: their constructors are suppressed.
    /// Empty until a generation run computes the set for its own use.
    pub abstract_classes: Vec<String>,
    /// Names of classes with an accessible destructor: only their values
    /// may be owned by the host API.
    pub deletable_classes: Vec<String>,
}

/// The names of the template classes of `types`, from position `i` on, in
/// declaration order.
pub open spec fn spec_template_class_names(
    types: Seq<crate::cpp_data::CppTypeData>,
    i: int,
) -> Seq<String>
    decreases types.len() - i,
{
    if i < 0 || i >= types.len() {
        Seq::empty()
    } else {
        (if crate::cpp_data::spec_is_template_class(types, types[i].name@) {
            seq![types[i].name]
        } else {
            Seq::empty()
        }) + spec_template_class_names(types, i + 1)
    }
}

/// The names of the classes of `types` with an accessible destructor, from
/// position `i` on, in declaration order.
pub open spec fn spec_deletable_class_names(
    types: Seq<crate::cpp_data::CppTypeData>,
    methods: Seq<CppMethod>,
    i: int,
) -> Seq<String>
    decreases types.len() - i,
{
    if i < 0 || i >= types.len() {
        Seq::empty()
    } else {
        (if type_data_model(types[i]).is_class && spec_class_deletable(
            methods,
            types[i].name@,
        ) {
            seq![types[i].name]
        } else {
            Seq::empty()
        }) + spec_deletable_class_names(types, methods, i + 1)
    }
}

/// True when no destructor of the class named `class_name` is private or
/// protected: the host API may then own and delete values of the class.
pub open spec fn spec_class_deletable(methods: Seq<CppMethod>, class_name: Seq<char>) -> bool {
    forall|j: int|
        0 <= j < methods.len() ==> !(method_model(#[trigger] methods[j]).class_membership matches
        Some(c) && c.class_name == class_name && c.kind is Destructor && c.visibility
            != CppVisibility::Public)
}

impl CGenerator {
    /// Prepares a generation run: records which declared classes are
    /// template classes and which have an accessible destructor. The
    /// abstract-class set is computed by `generate_all`, since it needs the
    /// whole hierarchy.
    pub fn new(cpp_data: CppData, lib_name: String) -> (r: CGenerator)
        ensures
            r.cpp_data == cpp_data,
            r.lib_name == lib_name,
            r.abstract_classes@.len() == 0,
            r.template_classes@ == spec_template_class_names(cpp_data.types@, 0),
            r.deletable_classes@ == spec_deletable_class_names(
                cpp_data.types@,
                cpp_data.methods@,
                0,
            ),
            forall|k: int|
                0 <= k < r.template_classes@.len() ==> crate::cpp_data::spec_is_template_class(
                    cpp_data.types@,
                    (#[trigger] r.template_classes@[k])@,
                ),
            forall|i: int|
                0 <= i < cpp_data.types@.len() && crate::cpp_data::spec_is_template_class(
                    cpp_data.types@,
                    (#[trigger] cpp_data.types@[i]).name@,
                ) ==> contains_name(r.template_classes@, cpp_data.types@[i].name@),
            forall|k: int|
                0 <= k < r.deletable_classes@.len() ==> spec_class_deletable(
                    cpp_data.methods@,
                    (#[trigger] r.deletable_classes@[k])@,
                ),
            forall|i: int|
                0 <= i < cpp_data.types@.len() && type_data_model(
                    #[trigger] cpp_data.types@[i],
                ).is_class && spec_class_deletable(cpp_data.methods@, cpp_data.types@[i].name@)
                    ==> contains_name(r.deletable_classes@, cpp_data.types@[i].name@),
    {
        let mut template_classes: Vec<String> = Vec::new();
        let mut deletable_classes: Vec<String> = Vec::new();
        let mut i: usize = 0;
        while i < cpp_data.types.len()
            invariant
                i <= cpp_data.types@.len(),
                template_classes@ + spec_template_class_names(cpp_data.types@, i as int)
                    == spec_template_class_names(cpp_data.types@, 0),
                deletable_classes@ + spec_deletable_class_names(
                    cpp_data.types@,
                    cpp_data.methods@,
                    i as int,
                ) == spec_deletable_class_names(cpp_data.types@, cpp_data.methods@, 0),
                forall|k: int|
                    0 <= k < template_classes@.len()
                        ==> crate::cpp_data::spec_is_template_class(
                        cpp_data.types@,
                        (#[trigger] template_classes@[k])@,
                    ),
                forall|j: int|
                    0 <= j < i && crate::cpp_data::spec_is_template_class(
                        cpp_data.types@,
                        (#[trigger] cpp_data.types@[j]).name@,
                    ) ==> contains_name(template_classes@, cpp_data.types@[j].name@),
                forall|k: int|
                    0 <= k < deletable_classes@.len() ==> spec_class_deletable(
                        cpp_data.methods@,
                        (#[trigger] deletable_classes@[k])@,
                    ),
                forall|j: int|
                    0 <= j < i && type_data_model(#[trigger] cpp_data.types@[j]).is_class
                        && spec_class_deletable(cpp_data.methods@, cpp_data.types@[j].name@)
                        ==> contains_name(deletable_classes@, cpp_data.types@[j].name@),
            decreases cpp_data.types@.len() - i,
        {
            let name = &cpp_data.types[i].name;
            let ghost tc0 = template_classes@;
            let is_template = cpp_data.is_template_class(name);
            if is_template {
                template_classes.push(name.clone());
            }
            proof {
                if is_template {
                    assert(template_classes@ =~= tc0.push(cpp_data.types@[i as int].name));
                    assert(tc0 + (seq![cpp_data.types@[i as int].name]
                        + spec_template_class_names(cpp_data.types@, i + 1)) =~= (tc0.push(
                        cpp_data.types@[i as int].name,
                    )) + spec_template_class_names(cpp_data.types@, i + 1));
                } else {
                    assert(spec_template_class_names(cpp_data.types@, i as int)
                        =~= spec_template_class_names(cpp_data.types@, i + 1));
                }
                assert forall|j: int|
                    0 <= j < i + 1 && crate::cpp_data::spec_is_template_class(
                        cpp_data.types@,
                        (#[trigger] cpp_data.types@[j]).name@,
                    ) implies contains_name(template_classes@, cpp_data.types@[j].name@) by {
                    if j < i {
                        if is_template {
                            lemma_contains_name_push(
                                tc0,
                                template_classes@.last(),
                                cpp_data.types@[j].name@,
                            );
                            assert(template_classes@ =~= tc0.push(template_classes@.last()));
                        }
                    } else {
                        assert(template_classes@[template_classes@.len() - 1]@ == name@);
                    }
                }
            }
            let is_class = match &cpp_data.types[i].kind {
                CppTypeKind::Class { .. } => true,
                CppTypeKind::Enum { .. } => false,
            };
            let ghost dc0 = deletable_classes@;
            let is_deletable = is_class && class_deletable(&cpp_data.methods, name);
            if is_deletable {
                deletable_classes.push(name.clone());
            }
            proof {
                if is_deletable {
                    assert(deletable_classes@ =~= dc0.push(cpp_data.types@[i as int].name));
                    assert(dc0 + (seq![cpp_data.types@[i as int].name]
                        + spec_deletable_class_names(
                        cpp_data.types@,
                        cpp_data.methods@,
                        i + 1,
                    )) =~= (dc0.push(cpp_data.types@[i as int].name))
                        + spec_deletable_class_names(cpp_data.types@, cpp_data.methods@, i + 1));
                } else {
                    assert(spec_deletable_class_names(
                        cpp_data.types@,
                        cpp_data.methods@,
                        i as int,
                    ) =~= spec_deletable_class_names(cpp_data.types@, cpp_data.methods@, i + 1));
                }
                assert forall|j: int|
                    0 <= j < i + 1 && type_data_model(#[trigger] cpp_data.types@[j]).is_class
                        && spec_class_deletable(cpp_data.methods@, cpp_data.types@[j].name@)
                        implies contains_name(deletable_classes@, cpp_data.types@[j].name@) by {
                    if j < i {
                        if is_deletable {
                            lemma_contains_name_push(
                                dc0,
                                deletable_classes@.last(),
                                cpp_data.types@[j].name@,
                            );
                            assert(deletable_classes@ =~= dc0.push(deletable_classes@.last()));
                        }
                    } else {
                        assert(deletable_classes@[deletable_classes@.len() - 1]@ == name@);
                    }
                }
            }
            i += 1;
        }
        CGenerator {
            lib_name,
            cpp_data,
            template_classes,
            abstract_classes: Vec::new(),
            deletable_classes,
        }
    }

    /// Resolves the transitive method set of the class at `class_index`:
    /// methods of every base are collected depth-first and an inherited
    /// method is suppressed when the receiving class declares one of the
    /// same name and signature; the class's own declarations always stand.
    /// With `pure_only`, only pure virtual methods are collected: a class
    /// is abstract exactly when that restricted set is not empty.
    /// `visiting` holds the indices currently on the traversal path: a
    /// revisit is an inheritance cycle and aborts the run, as does a base
    /// specifier that names a declaration that is not a class. A base whose
    /// name has no declaration at all only abandons that branch, with a
    /// diagnostic.
    fn resolve_methods_rec(
        &self,
        class_index: usize,
        visiting: &mut Vec<usize>,
        diags: &mut Vec<Diagnostic>,
        pure_only: bool,
    ) -> (r: Result<Vec<CppMethod>, GenerationError>)
        requires
            class_index < self.cpp_data.types@.len(),
            type_data_model(self.cpp_data.types@[class_index as int]).is_class,
            old(visiting)@.no_duplicates(),
            forall|i: int|
                0 <= i < old(visiting)@.len() ==> (#[trigger] old(visiting)@[i])
                    < self.cpp_data.types@.len(),
            !old(visiting)@.contains(class_index),
        ensures
            final(visiting)@ == old(visiting)@,
            old(diags)@.is_prefix_of(final(diags)@),
            r matches Ok(v) ==> spec_resolved(
                self.cpp_data.methods@,
                self.cpp_data.types@[class_index as int].name@,
                pure_only,
                v@,
            ),
            r matches Ok(v) ==> Ok::<_, GenerationError>(method_models_of(v@)) == spec_resolve(
                self.cpp_data.types@,
                self.cpp_data.methods@,
                class_index as int,
                indices_of(old(visiting)@),
                pure_only,
                (self.cpp_data.types@.len() - old(visiting)@.len()) as nat,
            ),
            r matches Err(e) ==> Err::<Seq<MethodModel>, _>(e) == spec_resolve(
                self.cpp_data.types@,
                self.cpp_data.methods@,
                class_index as int,
                indices_of(old(visiting)@),
                pure_only,
                (self.cpp_data.types@.len() - old(visiting)@.len()) as nat,
            ),
        decreases self.cpp_data.types@.len() - old(visiting)@.len(),
    {
        proof {
            lemma_distinct_indices_bound(
                old(visiting)@.push(class_index),
                self.cpp_data.types@.len() as int,
            );
        }
        let ghost types_s = self.cpp_data.types@;
        let ghost methods_s = self.cpp_data.methods@;
        let ghost ci = class_index as int;
        let ghost vis0 = indices_of(old(visiting)@);
        let ghost fuel0 = (types_s.len() - old(visiting)@.len()) as nat;
        let ghost vis1 = vis0.push(ci);
        let ghost fuel1 = (fuel0 - 1) as nat;
        let ghost name = type_data_model(types_s[ci]).name;
        let ghost bases_m = type_data_model(types_s[ci]).bases;
        let ghost old_vis = visiting@;
        let ghost diags0 = diags@;
        let type_info = &self.cpp_data.types[class_index];
        let class_name = &type_info.name;
        let mut result: Vec<CppMethod> = Vec::new();
        match &type_info.kind {
            CppTypeKind::Enum { .. } => {
                proof {
                    assert(false);
                }
                return Err(GenerationError::BaseNotClass);
            },
            CppTypeKind::Class { bases, .. } => {
                proof {
                    crate::cpp_data::lemma_base_specifiers_from(bases@, 0);
                    assert(diags0.is_prefix_of(diags@)) by {
                        assert(diags@.subrange(0, diags0.len() as int) =~= diags0);
                    }
                }
                visiting.push(class_index);
                proof {
                    assert(indices_of(visiting@) =~= vis1);
                }
                let mut bi: usize = 0;
                while bi < bases.len()
                    invariant
                        bi <= bases@.len(),
                        old_vis == old(visiting)@,
                        visiting@ == old_vis.push(class_index),
                        old_vis.len() + 1 <= self.cpp_data.types@.len(),
                        old_vis.no_duplicates(),
                        forall|i: int|
                            0 <= i < old_vis.len() ==> (#[trigger] old_vis[i])
                                < self.cpp_data.types@.len(),
                        !old_vis.contains(class_index),
                        class_index < self.cpp_data.types@.len(),
                        class_name@ == self.cpp_data.types@[class_index as int].name@,
                        types_s == self.cpp_data.types@,
                        methods_s == self.cpp_data.methods@,
                        ci == class_index as int,
                        name == class_name@,
                        vis0 == indices_of(old_vis),
                        vis1 == vis0.push(ci),
                        indices_of(visiting@) == vis1,
                        diags0 == old(diags)@,
                        fuel0 == (types_s.len() - old_vis.len()) as nat,
                        fuel1 == (fuel0 - 1) as nat,
                        bases_m == type_data_model(types_s[ci]).bases,
                        bases_m.len() == bases@.len(),
                        forall|k: int|
                            0 <= k < bases@.len() ==> bases_m[k]
                                == crate::cpp_data::base_specifier_model(#[trigger] bases@[k]),
                        diags0.is_prefix_of(diags@),
                        spec_resolve_bases(
                            types_s,
                            methods_s,
                            name,
                            bases_m,
                            0,
                            vis1,
                            pure_only,
                            fuel1,
                        ) == (match spec_resolve_bases(
                            types_s,
                            methods_s,
                            name,
                            bases_m,
                            bi as int,
                            vis1,
                            pure_only,
                            fuel1,
                        ) {
                            Ok(rest) => Ok::<_, GenerationError>(method_models_of(result@) + rest),
                            Err(e) => Err(e),
                        }),
                        forall|k: int|
                            0 <= k < result@.len() ==> (pure_only ==> mm_pure_virtual(
                                method_model(#[trigger] result@[k]),
                            )),
                        forall|k: int|
                            0 <= k < result@.len() ==> !spec_shadowed_by_own(
                                self.cpp_data.methods@,
                                class_name@,
                                method_model(#[trigger] result@[k]),
                            ),
                    decreases bases@.len() - bi,
                {
                    let ghost suffix_bi = spec_resolve_bases(
                        types_s,
                        methods_s,
                        name,
                        bases_m,
                        bi as int,
                        vis1,
                        pure_only,
                        fuel1,
                    );
                    let base = &bases[bi];
                    proof {
                        assert(bases_m[bi as int] == crate::cpp_data::base_specifier_model(
                            bases@[bi as int],
                        ));
                    }
                    match &base.base_type.base {
                        crate::cpp_type::CppTypeBase::Class(cb) => {
                            proof {
                                assert(bases_m[bi as int].base_type.base
                                    == crate::cpp_type::BaseModel::Class(
                                    crate::cpp_type::class_base_model(*cb),
                                ));
                            }
                            match self.cpp_data.find_type_index(&cb.name) {
                                Option::Some(ti) => {
                                    let base_is_class = match &self.cpp_data.types[ti].kind {
                                        CppTypeKind::Class { .. } => true,
                                        CppTypeKind::Enum { .. } => false,
                                    };
                                    if !base_is_class {
                                        proof {
                                            assert(suffix_bi == Err::<Seq<MethodModel>, _>(
                                                GenerationError::BaseNotClass,
                                            ));
                                        }
                                        visiting.pop();
                                        proof {
                                            assert(visiting@ =~= old_vis);
                                        }
                                        return Err(GenerationError::BaseNotClass);
                                    }
                                    if contains_index(visiting, ti) {
                                        proof {
                                            lemma_indices_contains(visiting@, ti);
                                            assert(suffix_bi == Err::<Seq<MethodModel>, _>(
                                                GenerationError::InheritanceCycle,
                                            ));
                                        }
                                        visiting.pop();
                                        proof {
                                            assert(visiting@ =~= old_vis);
                                        }
                                        return Err(GenerationError::InheritanceCycle);
                                    }
                                    proof {
                                        assert(visiting@.no_duplicates());
                                        lemma_indices_contains(visiting@, ti);
                                    }
                                    let ghost d_pre = diags@;
                                    match self.resolve_methods_rec(ti, visiting, diags, pure_only)
                                    {
                                        Err(e) => {
                                            proof {
                                                assert(suffix_bi == Err::<Seq<MethodModel>, _>(e));
                                                lemma_prefix_trans(diags0, d_pre, diags@);
                                            }
                                            visiting.pop();
                                            proof {
                                                assert(visiting@ =~= old_vis);
                                            }
                                            return Err(e);
                                        },
                                        Ok(base_methods) => {
                                            let ghost bm = method_models_of(base_methods@);
                                            let ghost acc0 = method_models_of(result@);
                                            proof {
                                                lemma_prefix_trans(diags0, d_pre, diags@);
                                                assert(spec_resolve(
                                                    types_s,
                                                    methods_s,
                                                    ti as int,
                                                    vis1,
                                                    pure_only,
                                                    fuel1,
                                                ) == Ok::<_, GenerationError>(bm));
                                            }
                                            let ghost bm0 = base_methods@;
                                            let mut base_methods = base_methods;
                                            while base_methods.len() > 0
                                                invariant
                                                    methods_s == self.cpp_data.methods@,
                                                    visiting@ == old_vis.push(class_index),
                                                    class_index < self.cpp_data.types@.len(),
                                                    class_name@ == self.cpp_data.types@[
                                                        class_index as int].name@,
                                                    name == class_name@,
                                                    bm == method_models_of(bm0),
                                                    base_methods@.len() <= bm0.len(),
                                                    base_methods@ == bm0.skip(
                                                        bm0.len() - base_methods@.len(),
                                                    ),
                                                    method_models_of(result@)
                                                        + spec_unshadowed_from(
                                                        methods_s,
                                                        name,
                                                        bm,
                                                        bm0.len() - base_methods@.len(),
                                                    ) == acc0 + spec_unshadowed_from(
                                                        methods_s,
                                                        name,
                                                        bm,
                                                        0,
                                                    ),
                                                    forall|k: int|
                                                        0 <= k < base_methods@.len() ==> (pure_only
                                                            ==> mm_pure_virtual(
                                                            method_model(
                                                                #[trigger] base_methods@[k],
                                                            ),
                                                        )),
                                                    forall|k: int|
                                                        0 <= k < result@.len() ==> (pure_only
                                                            ==> mm_pure_virtual(
                                                            method_model(#[trigger] result@[k]),
                                                        )),
                                                    forall|k: int|
                                                        0 <= k < result@.len()
                                                            ==> !spec_shadowed_by_own(
                                                            self.cpp_data.methods@,
                                                            class_name@,
                                                            method_model(#[trigger] result@[k]),
                                                        ),
                                                decreases base_methods@.len(),
                                            {
                                                let ghost k = bm0.len() - base_methods@.len();
                                                let ghost r0 = method_models_of(result@);
                                                let m = base_methods.remove(0);
                                                proof {
                                                    assert(m == bm0[k]);
                                                    assert(base_methods@ =~= bm0.skip(k + 1));
                                                    assert(method_model(m) == bm[k]);
                                                }
                                                if !self.has_own_shadow(class_name, &m) {
                                                    result.push(m);
                                                    proof {
                                                        assert(method_models_of(result@)
                                                            =~= r0.push(bm[k]));
                                                        assert(r0 + (seq![bm[k]]
                                                            + spec_unshadowed_from(
                                                            methods_s,
                                                            name,
                                                            bm,
                                                            k + 1,
                                                        )) =~= (r0.push(bm[k]))
                                                            + spec_unshadowed_from(
                                                            methods_s,
                                                            name,
                                                            bm,
                                                            k + 1,
                                                        ));
                                                    }
                                                } else {
                                                    proof {
                                                        assert(spec_unshadowed_from(
                                                            methods_s,
                                                            name,
                                                            bm,
                                                            k,
                                                        ) =~= spec_unshadowed_from(
                                                            methods_s,
                                                            name,
                                                            bm,
                                                            k + 1,
                                                        ));
                                                    }
                                                }
                                            }
                                            proof {
                                                assert(spec_unshadowed_from(
                                                    methods_s,
                                                    name,
                                                    bm,
                                                    bm0.len() as int,
                                                ) =~= Seq::<MethodModel>::empty());
                                                assert(method_models_of(result@)
                                                    + Seq::<MethodModel>::empty()
                                                    =~= method_models_of(result@));
                                                assert(acc0 + Seq::<MethodModel>::empty()
                                                    =~= acc0);
                                                assert(method_models_of(result@) == acc0
                                                    + spec_unshadowed_from(methods_s, name, bm, 0));
                                                // Re-establish the running decomposition one
                                                // base further on.
                                                let full = spec_resolve_bases(
                                                    types_s,
                                                    methods_s,
                                                    name,
                                                    bases_m,
                                                    0,
                                                    vis1,
                                                    pure_only,
                                                    fuel1,
                                                );
                                                let suffix_next = spec_resolve_bases(
                                                    types_s,
                                                    methods_s,
                                                    name,
                                                    bases_m,
                                                    bi + 1 as int,
                                                    vis1,
                                                    pure_only,
                                                    fuel1,
                                                );
                                                if suffix_next is Ok {
                                                    let rest = suffix_next->Ok_0;
                                                    assert(acc0 + (spec_unshadowed_from(
                                                        methods_s,
                                                        name,
                                                        bm,
                                                        0,
                                                    ) + rest) =~= method_models_of(result@)
                                                        + rest);
                                                }
                                            }
                                        },
                                    }
                                },
                                Option::None => {
                                    let mut msg = String::from_str(
                                        "inheritance branch abandoned: no type information for base class ",
                                    );
                                    msg.append(cb.name.as_str());
                                    let ghost d0 = diags@;
                                    diags.push(
                                        Diagnostic {
                                            severity: DiagnosticSeverity::Warning,
                                            message: msg,
                                        },
                                    );
                                    proof {
                                        lemma_prefix_push(diags0, d0, diags@.last());
                                        assert(diags@ =~= d0.push(diags@.last()));
                                    }
                                },
                            }
                        },
                        _ => {
                            proof {
                                assert(suffix_bi == Err::<Seq<MethodModel>, _>(
                                    GenerationError::BaseNotClass,
                                ));
                            }
                            visiting.pop();
                            proof {
                                assert(visiting@ =~= old_vis);
                            }
                            return Err(GenerationError::BaseNotClass);
                        },
                    }
                    bi += 1;
                }
                proof {
                    assert(spec_resolve_bases(
                        types_s,
                        methods_s,
                        name,
                        bases_m,
                        bases@.len() as int,
                        vis1,
                        pure_only,
                        fuel1,
                    ) == Ok::<_, GenerationError>(Seq::<MethodModel>::empty()));
                    assert(method_models_of(result@) + Seq::<MethodModel>::empty()
                        =~= method_models_of(result@));
                }
                visiting.pop();
                proof {
                    assert(visiting@ =~= old_vis);
                }
            },
        }
        let ghost inherited = method_models_of(result@);
        proof {
            assert(spec_resolve_bases(types_s, methods_s, name, bases_m, 0, vis1, pure_only, fuel1)
                == Ok::<_, GenerationError>(inherited));
        }
        // The class's own declarations come last and always stand.
        let mut mi: usize = 0;
        while mi < self.cpp_data.methods.len()
            invariant
                mi <= self.cpp_data.methods@.len(),
                class_index < self.cpp_data.types@.len(),
                class_name@ == self.cpp_data.types@[class_index as int].name@,
                methods_s == self.cpp_data.methods@,
                name == class_name@,
                method_models_of(result@) + spec_own_models_from(
                    methods_s,
                    name,
                    pure_only,
                    mi as int,
                ) == inherited + spec_own_models_from(methods_s, name, pure_only, 0),
                forall|k: int|
                    0 <= k < result@.len() ==> (pure_only ==> mm_pure_virtual(
                        method_model(#[trigger] result@[k]),
                    )),
                forall|k: int|
                    0 <= k < result@.len() ==> (mm_own(
                        method_model(#[trigger] result@[k]),
                        class_name@,
                    ) || !spec_shadowed_by_own(
                        self.cpp_data.methods@,
                        class_name@,
                        method_model(result@[k]),
                    )),
                forall|j: int|
                    0 <= j < mi && mm_own(
                        method_model(#[trigger] self.cpp_data.methods@[j]),
                        class_name@,
                    ) && (pure_only ==> mm_pure_virtual(method_model(self.cpp_data.methods@[j])))
                        ==> spec_contains_method_model(
                        result@,
                        method_model(self.cpp_data.methods@[j]),
                    ),
            decreases self.cpp_data.methods@.len() - mi,
        {
            let m = &self.cpp_data.methods[mi];
            let is_own = match &m.class_membership {
                Option::Some(c) => c.class_type.name.eq(class_name),
                Option::None => false,
            };
            let passes = !pure_only || (match &m.class_membership {
                Option::Some(c) => c.is_pure_virtual,
                Option::None => false,
            });
            let ghost r0 = result@;
            let ghost rm0 = method_models_of(result@);
            if is_own && passes {
                let c = m.clone();
                result.push(c);
                proof {
                    assert(method_model(result@[result@.len() - 1]) == method_model(
                        self.cpp_data.methods@[mi as int],
                    ));
                    assert(method_models_of(result@) =~= rm0.push(
                        method_model(methods_s[mi as int]),
                    ));
                    assert(rm0 + (seq![method_model(methods_s[mi as int])]
                        + spec_own_models_from(methods_s, name, pure_only, mi + 1)) =~= (rm0.push(
                        method_model(methods_s[mi as int]),
                    )) + spec_own_models_from(methods_s, name, pure_only, mi + 1));
                }
            } else {
                proof {
                    assert(!(mm_own(
                        method_model(self.cpp_data.methods@[mi as int]),
                        class_name@,
                    ) && (pure_only ==> mm_pure_virtual(
                        method_model(self.cpp_data.methods@[mi as int]),
                    ))));
                    assert(spec_own_models_from(methods_s, name, pure_only, mi as int)
                        =~= spec_own_models_from(methods_s, name, pure_only, mi + 1));
                }
            }
            proof {
                assert forall|j: int|
                    0 <= j < mi + 1 && mm_own(
                        method_model(#[trigger] self.cpp_data.methods@[j]),
                        class_name@,
                    ) && (pure_only ==> mm_pure_virtual(
                        method_model(self.cpp_data.methods@[j]),
                    )) implies spec_contains_method_model(
                    result@,
                    method_model(self.cpp_data.methods@[j]),
                ) by {
                    if j < mi && result@.len() == r0.len() + 1 {
                        lemma_contains_model_push(
                            r0,
                            result@.last(),
                            method_model(self.cpp_data.methods@[j]),
                        );
                        assert(result@ =~= r0.push(result@.last()));
                    }
                }
            }
            mi += 1;
        }
        proof {
            assert(spec_own_models_from(methods_s, name, pure_only, methods_s.len() as int)
                =~= Seq::<MethodModel>::empty());
            assert(method_models_of(result@) + Seq::<MethodModel>::empty() =~= method_models_of(
                result@,
            ));
            assert(method_models_of(result@) == inherited + spec_own_models_from(
                methods_s,
                name,
                pure_only,
                0,
            ));
        }
        Ok(result)
    }

    /// Decides whether the class named `class_name` declares a method of
    /// the same name and signature as `m`.
    fn has_own_shadow(&self, class_name: &String, m: &CppMethod) -> (r: bool)
        ensures
            r == spec_shadowed_by_own(self.cpp_data.methods@, class_name@, method_model(*m)),
    {
        let mut j: usize = 0;
        while j < self.cpp_data.methods.len()
            invariant
                j <= self.cpp_data.methods@.len(),
                forall|q: int|
                    0 <= q < j ==> !(mm_own(
                        method_model(#[trigger] self.cpp_data.methods@[q]),
                        class_name@,
                    ) && method_model(self.cpp_data.methods@[q]).name == method_model(*m).name
                        && crate::cpp_method::spec_signature_match(
                        method_model(self.cpp_data.methods@[q]),
                        method_model(*m),
                    )),
            decreases self.cpp_data.methods@.len() - j,
        {
            let cand = &self.cpp_data.methods[j];
            let own = match &cand.class_membership {
                Option::Some(c) => c.class_type.name.eq(class_name),
                Option::None => false,
            };
            if own && cand.name.eq(&m.name) && cand.argument_types_equal(m) {
                return true;
            }
            j += 1;
        }
        false
    }

    /// Resolves the methods the class named `class_name` exposes,
    /// `pure_only` restricting the collection to pure virtual methods.
    /// A class with no type information gets a diagnostic and contributes
    /// its own declarations alone.
    fn resolve_entry(
        &self,
        class_name: &String,
        diags: &mut Vec<Diagnostic>,
        pure_only: bool,
    ) -> (r: Result<Vec<CppMethod>, GenerationError>)
        ensures
            old(diags)@.is_prefix_of(final(diags)@),
            crate::cpp_data::spec_find_type(self.cpp_data.types@, class_name@, 0) == -1
                ==> final(diags)@.len() >= old(diags)@.len() + 1,
            r matches Ok(v) ==> spec_resolved(
                self.cpp_data.methods@,
                class_name@,
                pure_only,
                v@,
            ),
            r matches Ok(v) ==> Ok::<_, GenerationError>(method_models_of(v@))
                == spec_resolve_entry(
                self.cpp_data.types@,
                self.cpp_data.methods@,
                class_name@,
                pure_only,
            ),
            r matches Err(e) ==> Err::<Seq<MethodModel>, _>(e) == spec_resolve_entry(
                self.cpp_data.types@,
                self.cpp_data.methods@,
                class_name@,
                pure_only,
            ),
    {
        match self.cpp_data.find_type_index(class_name) {
            Option::Some(i) => {
                let is_class = match &self.cpp_data.types[i].kind {
                    CppTypeKind::Class { .. } => true,
                    CppTypeKind::Enum { .. } => false,
                };
                if !is_class {
                    return Err(GenerationError::BaseNotClass);
                }
                let mut visiting: Vec<usize> = Vec::new();
                proof {
                    assert(indices_of(visiting@) =~= Seq::<int>::empty());
                }
                let r = self.resolve_methods_rec(i, &mut visiting, diags, pure_only);
                proof {
                    assert(self.cpp_data.types@[i as int].name@ == class_name@);
                    assert((self.cpp_data.types@.len() - 0) as nat == self.cpp_data.types@.len());
                }
                r
            },
            Option::None => {
                let mut msg = String::from_str("no type information for class ");
                msg.append(class_name.as_str());
                let ghost d0 = diags@;
                diags.push(Diagnostic { severity: DiagnosticSeverity::Warning, message: msg });
                proof {
                    assert(diags@.subrange(0, d0.len() as int) =~= d0);
                }
                let mut result: Vec<CppMethod> = Vec::new();
                let mut mi: usize = 0;
                while mi < self.cpp_data.methods.len()
                    invariant
                        mi <= self.cpp_data.methods@.len(),
                        method_models_of(result@) + spec_own_models_from(
                            self.cpp_data.methods@,
                            class_name@,
                            pure_only,
                            mi as int,
                        ) == spec_own_models_from(
                            self.cpp_data.methods@,
                            class_name@,
                            pure_only,
                            0,
                        ),
                        forall|k: int|
                            0 <= k < result@.len() ==> (pure_only ==> mm_pure_virtual(
                                method_model(#[trigger] result@[k]),
                            )),
                        forall|k: int|
                            0 <= k < result@.len() ==> mm_own(
                                method_model(#[trigger] result@[k]),
                                class_name@,
                            ),
                        forall|j: int|
                            0 <= j < mi && mm_own(
                                method_model(#[trigger] self.cpp_data.methods@[j]),
                                class_name@,
                            ) && (pure_only ==> mm_pure_virtual(
                                method_model(self.cpp_data.methods@[j]),
                            )) ==> spec_contains_method_model(
                                result@,
                                method_model(self.cpp_data.methods@[j]),
                            ),
                    decreases self.cpp_data.methods@.len() - mi,
                {
                    let m = &self.cpp_data.methods[mi];
                    let is_own = match &m.class_membership {
                        Option::Some(c) => c.class_type.name.eq(class_name),
                        Option::None => false,
                    };
                    let passes = !pure_only || (match &m.class_membership {
                        Option::Some(c) => c.is_pure_virtual,
                        Option::None => false,
                    });
                    let ghost r0 = result@;
                    let ghost rm0 = method_models_of(result@);
                    if is_own && passes {
                        let c = m.clone();
                        result.push(c);
                        proof {
                            assert(method_model(result@[result@.len() - 1]) == method_model(
                                self.cpp_data.methods@[mi as int],
                            ));
                            assert(method_models_of(result@) =~= rm0.push(
                                method_model(self.cpp_data.methods@[mi as int]),
                            ));
                            assert(rm0 + (seq![
                                method_model(self.cpp_data.methods@[mi as int]),
                            ] + spec_own_models_from(
                                self.cpp_data.methods@,
                                class_name@,
                                pure_only,
                                mi + 1,
                            )) =~= (rm0.push(method_model(self.cpp_data.methods@[mi as int])))
                                + spec_own_models_from(
                                self.cpp_data.methods@,
                                class_name@,
                                pure_only,
                                mi + 1,
                            ));
                        }
                    } else {
                        proof {
                            assert(!(mm_own(
                                method_model(self.cpp_data.methods@[mi as int]),
                                class_name@,
                            ) && (pure_only ==> mm_pure_virtual(
                                method_model(self.cpp_data.methods@[mi as int]),
                            ))));
                            assert(spec_own_models_from(
                                self.cpp_data.methods@,
                                class_name@,
                                pure_only,
                                mi as int,
                            ) =~= spec_own_models_from(
                                self.cpp_data.methods@,
                                class_name@,
                                pure_only,
                                mi + 1,
                            ));
                        }
                    }
                    proof {
                        assert forall|j: int|
                            0 <= j < mi + 1 && mm_own(
                                method_model(#[trigger] self.cpp_data.methods@[j]),
                                class_name@,
                            ) && (pure_only ==> mm_pure_virtual(
                                method_model(self.cpp_data.methods@[j]),
                            )) implies spec_contains_method_model(
                            result@,
                            method_model(self.cpp_data.methods@[j]),
                        ) by {
                            if j < mi && result@.len() == r0.len() + 1 {
                                lemma_contains_model_push(
                                    r0,
                                    result@.last(),
                                    method_model(self.cpp_data.methods@[j]),
                                );
                                assert(result@ =~= r0.push(result@.last()));
                            }
                        }
                    }
                    mi += 1;
                }
                proof {
                    assert(spec_own_models_from(
                        self.cpp_data.methods@,
                        class_name@,
                        pure_only,
                        self.cpp_data.methods@.len() as int,
                    ) =~= Seq::<MethodModel>::empty());
                    assert(method_models_of(result@) + Seq::<MethodModel>::empty()
                        =~= method_models_of(result@));
                }
                Ok(result)
            },
        }
    }

    /// Resolves every method the class named `class_name` exposes through
    /// its base-class graph, own declarations shadowing inherited ones.
    pub fn get_all_methods(&self, class_name: &String, diags: &mut Vec<Diagnostic>) -> (r: Result<
        Vec<CppMethod>,
        GenerationError,
    >)
        ensures
            old(diags)@.is_prefix_of(final(diags)@),
            crate::cpp_data::spec_find_type(self.cpp_data.types@, class_name@, 0) == -1
                ==> final(diags)@.len() >= old(diags)@.len() + 1,
            r matches Ok(v) ==> spec_resolved(self.cpp_data.methods@, class_name@, false, v@),
            r matches Ok(v) ==> Ok::<_, GenerationError>(method_models_of(v@))
                == spec_resolve_entry(
                self.cpp_data.types@,
                self.cpp_data.methods@,
                class_name@,
                false,
            ),
            r matches Err(e) ==> Err::<Seq<MethodModel>, _>(e) == spec_resolve_entry(
                self.cpp_data.types@,
                self.cpp_data.methods@,
                class_name@,
                false,
            ),
    {
        self.resolve_entry(class_name, diags, false)
    }

    /// Resolves the unoverridden pure virtual methods the class named
    /// `class_name` exposes: the class is abstract exactly when the result
    /// is not empty.
    pub fn get_pure_virtual_methods(&self, class_name: &String, diags: &mut Vec<Diagnostic>) -> (r:
        Result<Vec<CppMethod>, GenerationError>)
        ensures
            old(diags)@.is_prefix_of(final(diags)@),
            crate::cpp_data::spec_find_type(self.cpp_data.types@, class_name@, 0) == -1
                ==> final(diags)@.len() >= old(diags)@.len() + 1,
            r matches Ok(v) ==> spec_resolved(self.cpp_data.methods@, class_name@, true, v@),
            r matches Ok(v) ==> Ok::<_, GenerationError>(method_models_of(v@))
                == spec_resolve_entry(
                self.cpp_data.types@,
                self.cpp_data.methods@,
                class_name@,
                true,
            ),
            r matches Err(e) ==> Err::<Seq<MethodModel>, _>(e) == spec_resolve_entry(
                self.cpp_data.types@,
                self.cpp_data.methods@,
                class_name@,
                true,
            ),
    {
        self.resolve_entry(class_name, diags, true)
    }
}

/// Decides whether no destructor of the class named `class_name` is
/// private or protected.
fn class_deletable(methods: &Vec<CppMethod>, class_name: &String) -> (r: bool)
    ensures
        r == spec_class_deletable(methods@, class_name@),
{
    let mut j: usize = 0;
    while j < methods.len()
        invariant
            j <= methods@.len(),
            forall|q: int|
                0 <= q < j ==> !(method_model(#[trigger] methods@[q]).class_membership matches Some(
                    c,
                ) && c.class_name == class_name@ && c.kind is Destructor && c.visibility
                    != CppVisibility::Public),
        decreases methods@.len() - j,
    {
        let m = &methods[j];
        match &m.class_membership {
            Option::Some(c) => {
                if c.class_type.name.eq(class_name) && c.kind == CppMethodKind::Destructor
                    && c.visibility != CppVisibility::Public {
                    return false;
                }
            },
            Option::None => {},
        }
        j += 1;
    }
    true
}


// ----------------------------------------------------------------------
// Per-header processing and the whole-run driver.

/// True when every type occurrence of the method has a shim
/// representation, so synthesis succeeds for it.
pub open spec fn spec_convertible(mm: MethodModel) -> bool {
    crate::cpp_ffi_data::spec_cpp_to_ffi(mm.return_type, crate::cpp_ffi_data::CppTypeRole::ReturnType)
        is Ok && (forall|i: int|
        0 <= i < mm.arguments.len() ==> crate::cpp_ffi_data::spec_cpp_to_ffi(
            (#[trigger] mm.arguments[i]).argument_type,
            crate::cpp_ffi_data::CppTypeRole::NotReturnType,
        ) is Ok)
}

/// True when `cm` is exactly the model `mm`: representation in an output
/// means the very method model stands there.
pub open spec fn spec_sig_represents(cm: MethodModel, mm: MethodModel) -> bool {
    cm == mm
}

/// The untrimmed overload candidate of a method is the method itself.
pub proof fn lemma_candidate_model_zero(mm: MethodModel)
    ensures
        crate::cpp_ffi_data::spec_candidate_model(mm, 0) == mm,
{
    assert(mm.arguments.take(mm.arguments.len() - 0) =~= mm.arguments);
}

/// True when some candidate of `values` carries the full signature of `mm`.
pub open spec fn spec_values_represent(
    values: Seq<CppMethodWithFfiSignature>,
    mm: MethodModel,
) -> bool {
    exists|v: int|
        0 <= v < values.len() && spec_sig_represents(
            method_model((#[trigger] values[v]).cpp_method),
            mm,
        )
}

/// True when some group of `gs` holds a candidate with the full signature
/// of `mm`.
pub open spec fn spec_groups_represent(
    gs: Seq<(String, Vec<CppMethodWithFfiSignature>)>,
    mm: MethodModel,
) -> bool {
    exists|g: int| 0 <= g < gs.len() && spec_values_represent((#[trigger] gs[g]).1@, mm)
}

/// True when some finalized method of `v` carries the full signature of
/// `mm`.
pub open spec fn spec_output_represents(v: Seq<CppAndFfiMethod>, mm: MethodModel) -> bool {
    exists|i: int|
        0 <= i < v.len() && spec_sig_represents(method_model((#[trigger] v[i]).cpp_method), mm)
}

/// Whatever a group list represents, it still represents after entries
/// grow at the end or new groups are appended.
proof fn lemma_groups_represent_monotone(
    g0: Seq<(String, Vec<CppMethodWithFfiSignature>)>,
    g1: Seq<(String, Vec<CppMethodWithFfiSignature>)>,
)
    requires
        g0.len() <= g1.len(),
        forall|g: int| 0 <= g < g0.len() ==> g0[g].1@.is_prefix_of((#[trigger] g1[g]).1@),
    ensures
        forall|mm: MethodModel|
            spec_groups_represent(g0, mm) ==> #[trigger] spec_groups_represent(g1, mm),
{
    assert forall|mm: MethodModel|
        spec_groups_represent(g0, mm) implies #[trigger] spec_groups_represent(g1, mm) by {
        let g = choose|g: int|
            0 <= g < g0.len() && spec_values_represent((#[trigger] g0[g]).1@, mm);
        let v = choose|v: int|
            0 <= v < g0[g].1@.len() && spec_sig_represents(
                method_model((#[trigger] g0[g].1@[v]).cpp_method),
                mm,
            );
        assert(g1[g].1@[v] == g0[g].1@[v]);
        assert(spec_values_represent(g1[g].1@, mm));
    }
}


/// The conversion records carried beside a method are exactly what
/// synthesis derives for its return type and each of its argument types.
pub open spec fn spec_ffi_records_match(
    deletable: Seq<String>,
    cm: MethodModel,
    return_type_ffi: CompleteType,
    arguments_ffi: Seq<CompleteType>,
) -> bool {
    &&& crate::cpp_ffi_data::spec_complete_matches(
        deletable,
        cm.return_type,
        crate::cpp_ffi_data::CppTypeRole::ReturnType,
        return_type_ffi,
    )
    &&& arguments_ffi.len() == cm.arguments.len()
    &&& (forall|a: int|
        0 <= a < cm.arguments.len() ==> crate::cpp_ffi_data::spec_complete_matches(
            deletable,
            cm.arguments[a].argument_type,
            crate::cpp_ffi_data::CppTypeRole::NotReturnType,
            #[trigger] arguments_ffi[a],
        ))
}

/// A symbol name has the documented shape: the method's own base name,
/// either alone or continued by an underscore and the caption of one of
/// the fixed strategies.
pub open spec fn spec_name_shape(cm: MethodModel, base: Seq<char>, c_name: Seq<char>) -> bool {
    let key = spec_c_base_name(cm, base);
    c_name == key || (exists|st: int|
        0 <= st < spec_all_strategies().len() && c_name == key + "_"@ + spec_method_caption(
            cm,
            #[trigger] spec_all_strategies()[st],
        ))
}

/// Every finalized method carries exact conversion records and a symbol
/// name of the documented shape.
pub open spec fn spec_out_good(
    v: Seq<CppAndFfiMethod>,
    deletable: Seq<String>,
    base: Seq<char>,
) -> bool {
    forall|i: int|
        0 <= i < v.len() ==> {
            let e = #[trigger] v[i];
            &&& spec_ffi_records_match(
                deletable,
                method_model(e.cpp_method),
                e.return_type_ffi,
                e.arguments_ffi@,
            )
            &&& spec_name_shape(method_model(e.cpp_method), base, e.c_name@)
        }
}

/// Every candidate of every group carries exact conversion records and
/// stands under its own computed base name.
pub open spec fn spec_groups_good(
    gs: Seq<(String, Vec<CppMethodWithFfiSignature>)>,
    deletable: Seq<String>,
    base: Seq<char>,
) -> bool {
    forall|g: int, v: int|
        #![trigger gs[g].1@[v]]
        0 <= g < gs.len() && 0 <= v < gs[g].1@.len() ==> {
            let c = gs[g].1@[v];
            &&& (gs[g].0)@ == spec_c_base_name(method_model(c.cpp_method), base)
            &&& spec_ffi_records_match(
                deletable,
                method_model(c.cpp_method),
                c.return_type_ffi,
                c.arguments_ffi@,
            )
        }
}

/// A chosen strategy always comes from the fixed list.
proof fn lemma_choose_strategy_in_list(values: Seq<CppMethodWithFfiSignature>, k: int)
    requires
        0 <= k,
    ensures
        spec_choose_strategy(values, k) matches Some(st) ==> exists|i: int|
            0 <= i < spec_all_strategies().len() && st == #[trigger] spec_all_strategies()[i],
    decreases spec_all_strategies().len() - k,
{
    if k < spec_all_strategies().len() {
        lemma_choose_strategy_in_list(values, k + 1);
    }
}

/// How many methods of `methods`, from position `i` on, the run drops:
/// those the filter rejects and those with no shim representation. Each
/// drop appends one diagnostic.
pub open spec fn spec_dropped_count(
    methods: Seq<CppMethod>,
    abstract_classes: Seq<String>,
    template_classes: Seq<String>,
    instantiations: Seq<crate::cpp_data::CppTemplateInstantiations>,
    i: int,
) -> int
    decreases methods.len() - i,
{
    if i < 0 || i >= methods.len() {
        0int
    } else {
        (if spec_method_allowed(
            method_model(methods[i]),
            abstract_classes,
            template_classes,
            instantiations,
        ) && spec_convertible(method_model(methods[i])) {
            0int
        } else {
            1int
        }) + spec_dropped_count(methods, abstract_classes, template_classes, instantiations, i + 1)
    }
}

/// Every candidate in every group passed the eligibility filter.
pub open spec fn spec_group_values_allowed(
    values: Seq<CppMethodWithFfiSignature>,
    a: Seq<String>,
    t: Seq<String>,
    ins: Seq<crate::cpp_data::CppTemplateInstantiations>,
) -> bool {
    forall|v: int|
        0 <= v < values.len() ==> spec_method_allowed(
            method_model((#[trigger] values[v]).cpp_method),
            a,
            t,
            ins,
        )
}

/// Every method of every group of `gs` passed the eligibility filter.
pub open spec fn spec_groups_allowed(
    gs: Seq<(String, Vec<CppMethodWithFfiSignature>)>,
    a: Seq<String>,
    t: Seq<String>,
    ins: Seq<crate::cpp_data::CppTemplateInstantiations>,
) -> bool {
    forall|g: int|
        0 <= g < gs.len() ==> spec_group_values_allowed((#[trigger] gs[g]).1@, a, t, ins)
}

/// Every finalized method of `s` passed the eligibility filter.
pub open spec fn spec_out_allowed(
    s: Seq<CppAndFfiMethod>,
    a: Seq<String>,
    t: Seq<String>,
    ins: Seq<crate::cpp_data::CppTemplateInstantiations>,
) -> bool {
    forall|i: int|
        0 <= i < s.len() ==> spec_method_allowed(
            method_model((#[trigger] s[i]).cpp_method),
            a,
            t,
            ins,
        )
}

impl CGenerator {
    /// Turns the methods declared in one header into finalized shim
    /// methods: filters out ineligible methods, synthesizes the signature
    /// candidates of the rest, groups the candidates by computed base name,
    /// disambiguates every group that collides, and sorts the result by
    /// symbol name. Fails exactly when some group cannot be disambiguated;
    /// a method that fails synthesis is only dropped, with a diagnostic.
    #[verifier::rlimit(100)]
    pub fn process_methods(
        &self,
        include_file: &String,
        include_file_base_name: &String,
        methods: &Vec<CppMethod>,
        diags: &mut Vec<Diagnostic>,
    ) -> (r: Result<Vec<CppAndFfiMethod>, GenerationError>)
        ensures
            old(diags)@.is_prefix_of(final(diags)@),
            r matches Ok(v) ==> spec_sorted_methods(v@) && spec_out_allowed(
                v@,
                self.abstract_classes@,
                self.template_classes@,
                self.cpp_data.template_instantiations@,
            ),
            r matches Ok(v) ==> spec_out_good(
                v@,
                self.deletable_classes@,
                include_file_base_name@,
            ),
            r matches Ok(v) ==> (forall|i: int, j: int|
                0 <= i < j < v@.len() ==> spec_name_key(#[trigger] v@[i]) != spec_name_key(
                    #[trigger] v@[j],
                ) && v@[i].c_name@ != v@[j].c_name@),
            r is Ok ==> final(diags)@.len() >= old(diags)@.len() + 1 + spec_dropped_count(
                methods@,
                self.abstract_classes@,
                self.template_classes@,
                self.cpp_data.template_instantiations@,
                0,
            ),
            r matches Ok(v) ==> (forall|j: int, k: int|
                #![trigger crate::cpp_ffi_data::spec_candidate_model(method_model(methods@[j]), k)]
                0 <= j < methods@.len() && spec_method_allowed(
                    method_model(methods@[j]),
                    self.abstract_classes@,
                    self.template_classes@,
                    self.cpp_data.template_instantiations@,
                ) && spec_convertible(method_model(methods@[j])) && 0 <= k
                    <= crate::cpp_ffi_data::spec_trailing_defaults(
                    method_model(methods@[j]).arguments,
                ) ==> spec_output_represents(
                    v@,
                    crate::cpp_ffi_data::spec_candidate_model(method_model(methods@[j]), k),
                )),
            (forall|j: int|
                0 <= j < methods@.len() ==> !(spec_method_allowed(
                    method_model(#[trigger] methods@[j]),
                    self.abstract_classes@,
                    self.template_classes@,
                    self.cpp_data.template_instantiations@,
                ) && spec_convertible(method_model(methods@[j])))) ==> r is Ok,
            r matches Err(e) ==> e == GenerationError::DisambiguationFailed,
    {
        let ghost diags0 = diags@;
        let mut msg = String::from_str("generating shim methods for header: ");
        msg.append(include_file.as_str());
        diags.push(Diagnostic { severity: DiagnosticSeverity::Info, message: msg });
        proof {
            assert(diags@.subrange(0, diags0.len() as int) =~= diags0);
        }
        let mut groups: Vec<(String, Vec<CppMethodWithFfiSignature>)> = Vec::new();
        let mut mi: usize = 0;
        while mi < methods.len()
            invariant
                mi <= methods@.len(),
                diags0 == old(diags)@,
                diags0.is_prefix_of(diags@),
                diags@.len() >= diags0.len() + 1 + spec_dropped_count(
                    methods@,
                    self.abstract_classes@,
                    self.template_classes@,
                    self.cpp_data.template_instantiations@,
                    0,
                ) - spec_dropped_count(
                    methods@,
                    self.abstract_classes@,
                    self.template_classes@,
                    self.cpp_data.template_instantiations@,
                    mi as int,
                ),
                spec_groups_allowed(
                    groups@,
                    self.abstract_classes@,
                    self.template_classes@,
                    self.cpp_data.template_instantiations@,
                ),
                spec_groups_good(groups@, self.deletable_classes@, include_file_base_name@),
                forall|j: int, k: int|
                    #![trigger crate::cpp_ffi_data::spec_candidate_model(method_model(methods@[j]), k)]
                    0 <= j < mi && spec_method_allowed(
                        method_model(methods@[j]),
                        self.abstract_classes@,
                        self.template_classes@,
                        self.cpp_data.template_instantiations@,
                    ) && spec_convertible(method_model(methods@[j])) && 0 <= k
                        <= crate::cpp_ffi_data::spec_trailing_defaults(
                        method_model(methods@[j]).arguments,
                    ) ==> spec_groups_represent(
                        groups@,
                        crate::cpp_ffi_data::spec_candidate_model(method_model(methods@[j]), k),
                    ),
                (forall|j: int|
                    0 <= j < methods@.len() ==> !(spec_method_allowed(
                        method_model(#[trigger] methods@[j]),
                        self.abstract_classes@,
                        self.template_classes@,
                        self.cpp_data.template_instantiations@,
                    ) && spec_convertible(method_model(methods@[j])))) ==> groups@.len() == 0,
            decreases methods@.len() - mi,
        {
            let method = &methods[mi];
            match method_allowed(
                method,
                &self.abstract_classes,
                &self.template_classes,
                &self.cpp_data.template_instantiations,
            ) {
                Some(reason) => {
                    let (severity, text) = match reason {
                        MethodSkipReason::AbstractClassConstructor => (
                            DiagnosticSeverity::Detail,
                            "method skipped: constructors are not generated for abstract classes: ",
                        ),
                        MethodSkipReason::PrivateVisibility => (
                            DiagnosticSeverity::Detail,
                            "method skipped: private visibility: ",
                        ),
                        MethodSkipReason::ProtectedVisibility => (
                            DiagnosticSeverity::Detail,
                            "method skipped: protected visibility: ",
                        ),
                        MethodSkipReason::Signal => (
                            DiagnosticSeverity::Warning,
                            "method skipped: signals are emitted separately: ",
                        ),
                        MethodSkipReason::TemplateMethod => (
                            DiagnosticSeverity::Warning,
                            "method skipped: template methods need an instantiation: ",
                        ),
                        MethodSkipReason::TemplateClassMethod => (
                            DiagnosticSeverity::Warning,
                            "method skipped: member of a template class: ",
                        ),
                    };
                    let mut m = String::from_str(text);
                    m.append(method.name.as_str());
                    let ghost d_pre = diags@;
                    diags.push(Diagnostic { severity, message: m });
                    proof {
                        lemma_prefix_push(diags0, d_pre, diags@.last());
                        assert(diags@ =~= d_pre.push(diags@.last()));
                        assert(!spec_method_allowed(
                            method_model(methods@[mi as int]),
                            self.abstract_classes@,
                            self.template_classes@,
                            self.cpp_data.template_instantiations@,
                        ));
                    }
                },
                None => {
                    match method.to_ffi_signatures(&self.deletable_classes) {
                        Err(_) => {
                            let mut m = String::from_str(
                                "method skipped: no shim representation for a type of: ",
                            );
                            m.append(method.name.as_str());
                            let ghost d_pre = diags@;
                            diags.push(
                                Diagnostic { severity: DiagnosticSeverity::Warning, message: m },
                            );
                            proof {
                                lemma_prefix_push(diags0, d_pre, diags@.last());
                                assert(diags@ =~= d_pre.push(diags@.last()));
                                assert(!spec_convertible(method_model(methods@[mi as int])));
                            }
                        },
                        Ok(cands) => {
                            let ghost c0 = cands@;
                            let ghost mm = method_model(methods@[mi as int]);
                            proof {
                                crate::cpp_ffi_data::lemma_trailing_defaults_bound(mm.arguments);
                            }
                            let mut cands = cands;
                            let total = cands.len();
                            let mut ci: usize = 0;
                            while cands.len() > 0
                                invariant
                                    total == c0.len(),
                                    c0.len() >= 1,
                                    ci + cands@.len() == c0.len(),
                                    cands@ == c0.skip(ci as int),
                                    spec_method_allowed(
                                        mm,
                                        self.abstract_classes@,
                                        self.template_classes@,
                                        self.cpp_data.template_instantiations@,
                                    ),
                                    forall|k: int|
                                        0 <= k < c0.len()
                                            ==> crate::cpp_ffi_data::spec_candidate_matches(
                                            self.deletable_classes@,
                                            mm,
                                            k,
                                            #[trigger] c0[k],
                                        ),
                                    spec_groups_allowed(
                                        groups@,
                                        self.abstract_classes@,
                                        self.template_classes@,
                                        self.cpp_data.template_instantiations@,
                                    ),
                                    spec_groups_good(
                                        groups@,
                                        self.deletable_classes@,
                                        include_file_base_name@,
                                    ),
                                    mm == method_model(methods@[mi as int]),
                                    forall|k: int|
                                        0 <= k < ci ==> spec_groups_represent(
                                            groups@,
                                            crate::cpp_ffi_data::spec_candidate_model(mm, k),
                                        ),
                                    forall|j: int, k: int|
                                        #![trigger crate::cpp_ffi_data::spec_candidate_model(method_model(methods@[j]), k)]
                                        0 <= j < mi && spec_method_allowed(
                                            method_model(methods@[j]),
                                            self.abstract_classes@,
                                            self.template_classes@,
                                            self.cpp_data.template_instantiations@,
                                        ) && spec_convertible(method_model(methods@[j])) && 0 <= k
                                            <= crate::cpp_ffi_data::spec_trailing_defaults(
                                            method_model(methods@[j]).arguments,
                                        ) ==> spec_groups_represent(
                                            groups@,
                                            crate::cpp_ffi_data::spec_candidate_model(
                                                method_model(methods@[j]),
                                                k,
                                            ),
                                        ),
                                decreases cands@.len(),
                            {
                                let cand = cands.remove(0);
                                proof {
                                    assert(cand == c0[ci as int]);
                                    assert(cands@ =~= c0.skip(ci + 1 as int));
                                    assert(crate::cpp_ffi_data::spec_candidate_matches(
                                        self.deletable_classes@,
                                        mm,
                                        ci as int,
                                        c0[ci as int],
                                    ));
                                    assert(spec_method_allowed(
                                        method_model(cand.cpp_method),
                                        self.abstract_classes@,
                                        self.template_classes@,
                                        self.cpp_data.template_instantiations@,
                                    ));
                                    crate::cpp_ffi_data::lemma_candidate_model(
                                        self.deletable_classes@,
                                        mm,
                                        ci as int,
                                        cand,
                                    );
                                    let cm = method_model(cand.cpp_method);
                                    assert forall|a: int|
                                        0 <= a < cm.arguments.len()
                                            implies crate::cpp_ffi_data::spec_complete_matches(
                                        self.deletable_classes@,
                                        cm.arguments[a].argument_type,
                                        crate::cpp_ffi_data::CppTypeRole::NotReturnType,
                                        #[trigger] cand.arguments_ffi@[a],
                                    ) by {
                                        assert(cm.arguments[a] == mm.arguments[a]);
                                    }
                                    assert(spec_ffi_records_match(
                                        self.deletable_classes@,
                                        cm,
                                        cand.return_type_ffi,
                                        cand.arguments_ffi@,
                                    ));
                                }
                                let name = c_base_name(&cand.cpp_method, include_file_base_name);
                                let ghost g0 = groups@;
                                let mut pos: usize = 0;
                                while pos < groups.len() && !groups[pos].0.eq(&name)
                                    invariant
                                        pos <= groups@.len(),
                                        groups@ == g0,
                                    decreases groups@.len() - pos,
                                {
                                    pos += 1;
                                }
                                if pos < groups.len() {
                                    let mut entry = groups.remove(pos);
                                    entry.1.push(cand);
                                    groups.insert(pos, entry);
                                    proof {
                                        assert forall|g: int|
                                            0 <= g < g0.len() implies g0[g].1@.is_prefix_of(
                                            (#[trigger] groups@[g]).1@,
                                        ) by {
                                            if g == pos {
                                                assert(groups@[g].1@ =~= g0[g].1@.push(
                                                    groups@[g].1@.last(),
                                                ));
                                                assert(g0[g].1@.is_prefix_of(groups@[g].1@));
                                            } else {
                                                assert(groups@[g] == g0[g]);
                                                assert(g0[g].1@.is_prefix_of(groups@[g].1@));
                                            }
                                        }
                                        lemma_groups_represent_monotone(g0, groups@);
                                        crate::cpp_ffi_data::lemma_candidate_model(
                                            self.deletable_classes@,
                                            mm,
                                            ci as int,
                                            groups@[pos as int].1@.last(),
                                        );
                                        assert(spec_values_represent(
                                            groups@[pos as int].1@,
                                            crate::cpp_ffi_data::spec_candidate_model(
                                                mm,
                                                ci as int,
                                            ),
                                        ));
                                        assert forall|g: int, v: int|
                                            #![trigger groups@[g].1@[v]]
                                            0 <= g < groups@.len() && 0 <= v
                                                < groups@[g].1@.len() implies {
                                            let c = groups@[g].1@[v];
                                            &&& (groups@[g].0)@ == spec_c_base_name(
                                                method_model(c.cpp_method),
                                                include_file_base_name@,
                                            )
                                            &&& spec_ffi_records_match(
                                                self.deletable_classes@,
                                                method_model(c.cpp_method),
                                                c.return_type_ffi,
                                                c.arguments_ffi@,
                                            )
                                        } by {
                                            if g == pos {
                                                if v < g0[g].1@.len() {
                                                    assert(groups@[g].1@[v] == g0[g].1@[v]);
                                                } else {
                                                    assert(groups@[g].1@[v]
                                                        == groups@[pos as int].1@.last());
                                                }
                                            } else {
                                                assert(groups@[g] == g0[g]);
                                                assert(groups@[g].1@[v] == g0[g].1@[v]);
                                            }
                                        }
                                        assert forall|g: int|
                                            0 <= g < groups@.len()
                                                implies spec_group_values_allowed(
                                            (#[trigger] groups@[g]).1@,
                                            self.abstract_classes@,
                                            self.template_classes@,
                                            self.cpp_data.template_instantiations@,
                                        ) by {
                                            if g == pos {
                                                assert(groups@[g].1@ =~= g0[g].1@.push(
                                                    groups@[g].1@.last(),
                                                ));
                                                assert forall|v: int|
                                                    0 <= v < groups@[g].1@.len()
                                                        implies spec_method_allowed(
                                                    method_model(
                                                        (#[trigger] groups@[g].1@[v]).cpp_method,
                                                    ),
                                                    self.abstract_classes@,
                                                    self.template_classes@,
                                                    self.cpp_data.template_instantiations@,
                                                ) by {
                                                    if v < g0[g].1@.len() {
                                                        assert(groups@[g].1@[v] == g0[g].1@[v]);
                                                    }
                                                }
                                            } else {
                                                assert(groups@[g] == g0[g]);
                                            }
                                        }
                                    }
                                } else {
                                    let mut fresh: Vec<CppMethodWithFfiSignature> = Vec::new();
                                    fresh.push(cand);
                                    groups.push((name, fresh));
                                    proof {
                                        assert forall|g: int|
                                            0 <= g < g0.len() implies g0[g].1@.is_prefix_of(
                                            (#[trigger] groups@[g]).1@,
                                        ) by {
                                            assert(groups@[g] == g0[g]);
                                            assert(g0[g].1@.is_prefix_of(groups@[g].1@));
                                        }
                                        lemma_groups_represent_monotone(g0, groups@);
                                        crate::cpp_ffi_data::lemma_candidate_model(
                                            self.deletable_classes@,
                                            mm,
                                            ci as int,
                                            groups@[groups@.len() - 1].1@[0],
                                        );
                                        assert(spec_values_represent(
                                            groups@[groups@.len() - 1].1@,
                                            crate::cpp_ffi_data::spec_candidate_model(
                                                mm,
                                                ci as int,
                                            ),
                                        ));
                                        assert forall|g: int, v: int|
                                            #![trigger groups@[g].1@[v]]
                                            0 <= g < groups@.len() && 0 <= v
                                                < groups@[g].1@.len() implies {
                                            let c = groups@[g].1@[v];
                                            &&& (groups@[g].0)@ == spec_c_base_name(
                                                method_model(c.cpp_method),
                                                include_file_base_name@,
                                            )
                                            &&& spec_ffi_records_match(
                                                self.deletable_classes@,
                                                method_model(c.cpp_method),
                                                c.return_type_ffi,
                                                c.arguments_ffi@,
                                            )
                                        } by {
                                            if g < g0.len() {
                                                assert(groups@[g] == g0[g]);
                                                assert(groups@[g].1@[v] == g0[g].1@[v]);
                                            } else {
                                                assert(groups@[g].1@[v]
                                                    == groups@[groups@.len() - 1].1@[0]);
                                            }
                                        }
                                        assert forall|g: int|
                                            0 <= g < groups@.len()
                                                implies spec_group_values_allowed(
                                            (#[trigger] groups@[g]).1@,
                                            self.abstract_classes@,
                                            self.template_classes@,
                                            self.cpp_data.template_instantiations@,
                                        ) by {
                                            if g < g0.len() {
                                                assert(groups@[g] == g0[g]);
                                            }
                                        }
                                    }
                                }
                                ci += 1;
                            }
                            proof {
                                assert forall|k: int|
                                    0 <= k <= crate::cpp_ffi_data::spec_trailing_defaults(
                                        mm.arguments,
                                    ) implies spec_groups_represent(
                                    groups@,
                                    crate::cpp_ffi_data::spec_candidate_model(mm, k),
                                ) by {
                                    assert(k < c0.len());
                                }
                            }
                        },
                    }
                },
            }
            mi += 1;
        }
        // Disambiguate every group, then order by symbol name.
        let mut flat: Vec<CppAndFfiMethod> = Vec::new();
        let mut groups = groups;
        while groups.len() > 0
            invariant
                diags0 == old(diags)@,
                diags0.is_prefix_of(diags@),
                diags@.len() >= diags0.len() + 1 + spec_dropped_count(
                    methods@,
                    self.abstract_classes@,
                    self.template_classes@,
                    self.cpp_data.template_instantiations@,
                    0,
                ),
                spec_groups_allowed(
                    groups@,
                    self.abstract_classes@,
                    self.template_classes@,
                    self.cpp_data.template_instantiations@,
                ),
                spec_groups_good(groups@, self.deletable_classes@, include_file_base_name@),
                spec_out_allowed(
                    flat@,
                    self.abstract_classes@,
                    self.template_classes@,
                    self.cpp_data.template_instantiations@,
                ),
                spec_out_good(flat@, self.deletable_classes@, include_file_base_name@),
                forall|j: int, k: int|
                    #![trigger crate::cpp_ffi_data::spec_candidate_model(method_model(methods@[j]), k)]
                    0 <= j < methods@.len() && spec_method_allowed(
                        method_model(methods@[j]),
                        self.abstract_classes@,
                        self.template_classes@,
                        self.cpp_data.template_instantiations@,
                    ) && spec_convertible(method_model(methods@[j])) && 0 <= k
                        <= crate::cpp_ffi_data::spec_trailing_defaults(
                        method_model(methods@[j]).arguments,
                    ) ==> (spec_groups_represent(
                        groups@,
                        crate::cpp_ffi_data::spec_candidate_model(method_model(methods@[j]), k),
                    ) || spec_output_represents(
                        flat@,
                        crate::cpp_ffi_data::spec_candidate_model(method_model(methods@[j]), k),
                    )),
                (forall|j: int|
                    0 <= j < methods@.len() ==> !(spec_method_allowed(
                        method_model(#[trigger] methods@[j]),
                        self.abstract_classes@,
                        self.template_classes@,
                        self.cpp_data.template_instantiations@,
                    ) && spec_convertible(method_model(methods@[j])))) ==> groups@.len() == 0
                    && flat@.len() == 0,
            decreases groups@.len(),
        {
            let ghost g0 = groups@;
            let entry = groups.remove(0);
            proof {
                assert(entry == g0[0]);
                assert forall|g: int|
                    0 <= g < groups@.len() implies spec_group_values_allowed(
                    (#[trigger] groups@[g]).1@,
                    self.abstract_classes@,
                    self.template_classes@,
                    self.cpp_data.template_instantiations@,
                ) by {
                    assert(groups@[g] == g0[g + 1]);
                }
                assert forall|g: int, v: int|
                    #![trigger groups@[g].1@[v]]
                    0 <= g < groups@.len() && 0 <= v < groups@[g].1@.len() implies {
                    let c = groups@[g].1@[v];
                    &&& (groups@[g].0)@ == spec_c_base_name(
                        method_model(c.cpp_method),
                        include_file_base_name@,
                    )
                    &&& spec_ffi_records_match(
                        self.deletable_classes@,
                        method_model(c.cpp_method),
                        c.return_type_ffi,
                        c.arguments_ffi@,
                    )
                } by {
                    assert(groups@[g] == g0[g + 1]);
                    assert(groups@[g].1@[v] == g0[g + 1].1@[v]);
                }
            }
            let (key, values) = entry;
            let ghost gkey = key@;
            let ghost f0 = flat@;
            let ghost vals = values@;
            match disambiguate_group(key, values, &mut flat) {
                Err(e) => {
                    return Err(e);
                },
                Ok(()) => {
                    proof {
                        assert forall|i: int|
                            0 <= i < flat@.len() implies spec_method_allowed(
                            method_model((#[trigger] flat@[i]).cpp_method),
                            self.abstract_classes@,
                            self.template_classes@,
                            self.cpp_data.template_instantiations@,
                        ) by {
                            if i >= f0.len() {
                                let k = i - f0.len();
                                assert(flat@[f0.len() + k].cpp_method == vals[k].cpp_method);
                            }
                        }
                        assert forall|i: int|
                            0 <= i < flat@.len() implies {
                            let e = #[trigger] flat@[i];
                            &&& spec_ffi_records_match(
                                self.deletable_classes@,
                                method_model(e.cpp_method),
                                e.return_type_ffi,
                                e.arguments_ffi@,
                            )
                            &&& spec_name_shape(
                                method_model(e.cpp_method),
                                include_file_base_name@,
                                e.c_name@,
                            )
                        } by {
                            if i < f0.len() {
                                assert(flat@[i] == f0[i]);
                            } else {
                                let w = i - f0.len();
                                let e = flat@[f0.len() + w];
                                assert(e.cpp_method == vals[w].cpp_method);
                                assert(e.return_type_ffi == vals[w].return_type_ffi);
                                assert(e.arguments_ffi == vals[w].arguments_ffi);
                                assert(e.c_name@ == spec_group_name(gkey, vals, w));
                                let cm = method_model(e.cpp_method);
                                let keyn = spec_c_base_name(cm, include_file_base_name@);
                                assert(vals[w] == g0[0].1@[w]);
                                assert(gkey == keyn);
                                if vals.len() == 1 {
                                    assert(e.c_name@ == keyn);
                                } else {
                                    let st = spec_choose_strategy(vals, 0)->0;
                                    lemma_choose_strategy_in_list(vals, 0);
                                    let cap = spec_method_caption(cm, st);
                                    if cap.len() == 0 {
                                        assert(e.c_name@ == keyn);
                                    } else {
                                        assert(e.c_name@ == keyn + "_"@ + cap);
                                    }
                                }
                                assert(spec_name_shape(cm, include_file_base_name@, e.c_name@));
                            }
                        }
                        assert forall|j: int, k: int|
                            #![trigger crate::cpp_ffi_data::spec_candidate_model(method_model(methods@[j]), k)]
                            0 <= j < methods@.len() && spec_method_allowed(
                                method_model(methods@[j]),
                                self.abstract_classes@,
                                self.template_classes@,
                                self.cpp_data.template_instantiations@,
                            ) && spec_convertible(method_model(methods@[j])) && 0 <= k
                                <= crate::cpp_ffi_data::spec_trailing_defaults(
                                method_model(methods@[j]).arguments,
                            ) implies (spec_groups_represent(
                            groups@,
                            crate::cpp_ffi_data::spec_candidate_model(
                                method_model(methods@[j]),
                                k,
                            ),
                        ) || spec_output_represents(
                            flat@,
                            crate::cpp_ffi_data::spec_candidate_model(
                                method_model(methods@[j]),
                                k,
                            ),
                        )) by {
                            let mmj = crate::cpp_ffi_data::spec_candidate_model(
                                method_model(methods@[j]),
                                k,
                            );
                            if spec_groups_represent(g0, mmj) {
                                let g = choose|g: int|
                                    0 <= g < g0.len() && spec_values_represent(
                                        (#[trigger] g0[g]).1@,
                                        mmj,
                                    );
                                if g == 0 {
                                    let v = choose|v: int|
                                        0 <= v < vals.len() && spec_sig_represents(
                                            method_model((#[trigger] vals[v]).cpp_method),
                                            mmj,
                                        );
                                    assert(flat@[f0.len() + v].cpp_method == vals[v].cpp_method);
                                    assert(spec_output_represents(flat@, mmj));
                                } else {
                                    assert(groups@[g - 1] == g0[g]);
                                    assert(spec_groups_represent(groups@, mmj));
                                }
                            } else {
                                let w = choose|w: int|
                                    0 <= w < f0.len() && spec_sig_represents(
                                        method_model((#[trigger] f0[w]).cpp_method),
                                        mmj,
                                    );
                                assert(flat@[w] == f0[w]);
                                assert(spec_output_represents(flat@, mmj));
                            }
                        }
                    }
                },
            }
        }
        let mut out: Vec<CppAndFfiMethod> = Vec::new();
        let mut flat = flat;
        while flat.len() > 0
            invariant
                diags0 == old(diags)@,
                diags0.is_prefix_of(diags@),
                diags@.len() >= diags0.len() + 1 + spec_dropped_count(
                    methods@,
                    self.abstract_classes@,
                    self.template_classes@,
                    self.cpp_data.template_instantiations@,
                    0,
                ),
                spec_sorted_methods(out@),
                spec_out_allowed(
                    flat@,
                    self.abstract_classes@,
                    self.template_classes@,
                    self.cpp_data.template_instantiations@,
                ),
                spec_out_allowed(
                    out@,
                    self.abstract_classes@,
                    self.template_classes@,
                    self.cpp_data.template_instantiations@,
                ),
                spec_out_good(flat@, self.deletable_classes@, include_file_base_name@),
                spec_out_good(out@, self.deletable_classes@, include_file_base_name@),
                (forall|j: int|
                    0 <= j < methods@.len() ==> !(spec_method_allowed(
                        method_model(#[trigger] methods@[j]),
                        self.abstract_classes@,
                        self.template_classes@,
                        self.cpp_data.template_instantiations@,
                    ) && spec_convertible(method_model(methods@[j])))) ==> flat@.len()
                    + out@.len() == 0,
                forall|j: int, k: int|
                    #![trigger crate::cpp_ffi_data::spec_candidate_model(method_model(methods@[j]), k)]
                    0 <= j < methods@.len() && spec_method_allowed(
                        method_model(methods@[j]),
                        self.abstract_classes@,
                        self.template_classes@,
                        self.cpp_data.template_instantiations@,
                    ) && spec_convertible(method_model(methods@[j])) && 0 <= k
                        <= crate::cpp_ffi_data::spec_trailing_defaults(
                        method_model(methods@[j]).arguments,
                    ) ==> (spec_output_represents(
                        flat@,
                        crate::cpp_ffi_data::spec_candidate_model(method_model(methods@[j]), k),
                    ) || spec_output_represents(
                        out@,
                        crate::cpp_ffi_data::spec_candidate_model(method_model(methods@[j]), k),
                    )),
            decreases flat@.len(),
        {
            let ghost f0 = flat@;
            let ghost o0 = out@;
            let x = flat.remove(0);
            proof {
                assert(x == f0[0]);
                assert forall|i: int|
                    0 <= i < flat@.len() implies spec_method_allowed(
                    method_model((#[trigger] flat@[i]).cpp_method),
                    self.abstract_classes@,
                    self.template_classes@,
                    self.cpp_data.template_instantiations@,
                ) by {
                    assert(flat@[i] == f0[i + 1]);
                }
                assert forall|i: int|
                    0 <= i < flat@.len() implies {
                    let e = #[trigger] flat@[i];
                    &&& spec_ffi_records_match(
                        self.deletable_classes@,
                        method_model(e.cpp_method),
                        e.return_type_ffi,
                        e.arguments_ffi@,
                    )
                    &&& spec_name_shape(
                        method_model(e.cpp_method),
                        include_file_base_name@,
                        e.c_name@,
                    )
                } by {
                    assert(flat@[i] == f0[i + 1]);
                }
            }
            insert_sorted(&mut out, x);
            proof {
                assert forall|i: int|
                    0 <= i < out@.len() implies spec_method_allowed(
                    method_model((#[trigger] out@[i]).cpp_method),
                    self.abstract_classes@,
                    self.template_classes@,
                    self.cpp_data.template_instantiations@,
                ) by {
                    if out@[i] != x {
                        let j = choose|j: int| 0 <= j < o0.len() && o0[j] == out@[i];
                        assert(spec_method_allowed(
                            method_model(o0[j].cpp_method),
                            self.abstract_classes@,
                            self.template_classes@,
                            self.cpp_data.template_instantiations@,
                        ));
                    }
                }
                assert forall|i: int|
                    0 <= i < out@.len() implies {
                    let e = #[trigger] out@[i];
                    &&& spec_ffi_records_match(
                        self.deletable_classes@,
                        method_model(e.cpp_method),
                        e.return_type_ffi,
                        e.arguments_ffi@,
                    )
                    &&& spec_name_shape(
                        method_model(e.cpp_method),
                        include_file_base_name@,
                        e.c_name@,
                    )
                } by {
                    if out@[i] != x {
                        let j = choose|j: int| 0 <= j < o0.len() && o0[j] == out@[i];
                        assert(out@[i] == o0[j]);
                    }
                }
                assert forall|j: int, k: int|
                    #![trigger crate::cpp_ffi_data::spec_candidate_model(method_model(methods@[j]), k)]
                    0 <= j < methods@.len() && spec_method_allowed(
                        method_model(methods@[j]),
                        self.abstract_classes@,
                        self.template_classes@,
                        self.cpp_data.template_instantiations@,
                    ) && spec_convertible(method_model(methods@[j])) && 0 <= k
                        <= crate::cpp_ffi_data::spec_trailing_defaults(
                        method_model(methods@[j]).arguments,
                    ) implies (spec_output_represents(
                        flat@,
                        crate::cpp_ffi_data::spec_candidate_model(method_model(methods@[j]), k),
                    ) || spec_output_represents(
                        out@,
                        crate::cpp_ffi_data::spec_candidate_model(method_model(methods@[j]), k),
                    )) by {
                    let mmj = crate::cpp_ffi_data::spec_candidate_model(
                        method_model(methods@[j]),
                        k,
                    );
                    if spec_output_represents(f0, mmj) {
                        let w = choose|w: int|
                            0 <= w < f0.len() && spec_sig_represents(
                                method_model((#[trigger] f0[w]).cpp_method),
                                mmj,
                            );
                        if w == 0 {
                            let i = choose|i: int| 0 <= i < out@.len() && out@[i] == x;
                            assert(spec_output_represents(out@, mmj));
                        } else {
                            assert(flat@[w - 1] == f0[w]);
                            assert(spec_output_represents(flat@, mmj));
                        }
                    } else {
                        let w = choose|w: int|
                            0 <= w < o0.len() && spec_sig_represents(
                                method_model((#[trigger] o0[w]).cpp_method),
                                mmj,
                            );
                        let i = choose|i: int| 0 <= i < out@.len() && out@[i] == o0[w];
                        assert(spec_output_represents(out@, mmj));
                    }
                }
            }
        }
        // Symbol names must be unique within the header: two groups' names
        // can in principle meet (underscores inside method names), and such
        // output would be unusable, so it is surfaced as a fatal failure
        // rather than emitted.
        let mut di: usize = 1;
        while di < out.len()
            invariant
                1 <= di,
                diags0 == old(diags)@,
                diags0.is_prefix_of(diags@),
                diags@.len() >= diags0.len() + 1 + spec_dropped_count(
                    methods@,
                    self.abstract_classes@,
                    self.template_classes@,
                    self.cpp_data.template_instantiations@,
                    0,
                ),

                (forall|j: int|
                    0 <= j < methods@.len() ==> !(spec_method_allowed(
                        method_model(#[trigger] methods@[j]),
                        self.abstract_classes@,
                        self.template_classes@,
                        self.cpp_data.template_instantiations@,
                    ) && spec_convertible(method_model(methods@[j])))) ==> out@.len() == 0,
                forall|p: int|
                    0 <= p < di - 1 && p + 1 < out@.len() ==> spec_name_key(#[trigger] out@[p])
                        != spec_name_key(out@[p + 1]),
            decreases out@.len() - di,
        {
            if str_bytes_le(&out[di - 1].c_name, &out[di].c_name) && str_bytes_le(
                &out[di].c_name,
                &out[di - 1].c_name,
            ) {
                proof {
                    assert(spec_name_key(out@[di - 1]).take(0) =~= spec_name_key(
                        out@[di as int],
                    ).take(0));
                    crate::order::lemma_bytes_le_antisym_from(
                        spec_name_key(out@[di - 1]),
                        spec_name_key(out@[di as int]),
                        0,
                    );
                }
                return Err(GenerationError::DisambiguationFailed);
            }
            proof {
                crate::order::lemma_bytes_le_total_from(
                    spec_name_key(out@[di - 1]),
                    spec_name_key(out@[di as int]),
                    0,
                );
            }
            di += 1;
        }
        proof {
            lemma_sorted_adjacent_distinct(out@);
            assert forall|i: int, j: int|
                0 <= i < j < out@.len() implies out@[i].c_name@ != out@[j].c_name@ by {
                if out@[i].c_name@ == out@[j].c_name@ {
                    assert(spec_name_key(out@[i]) == spec_name_key(out@[j]));
                }
            }
        }
        Ok(out)
    }
}

/// The finalized bindable surface of one header: the header's name, the
/// base name derived from it, and the methods in symbol-name order.
#[derive(Debug)]
pub struct CppFfiHeaderData {
    /// Name of the include file.
    pub include_file: String,
    /// The include file's name without its `.h` ending.
    pub include_file_base_name: String,
    /// The finalized methods, sorted by symbol name.
    pub methods: Vec<CppAndFfiMethod>,
}

/// Everything a generation run produces: the input data, its partition by
/// header, and the finalized per-header method lists, for the rendering
/// collaborator to turn into source text.
pub struct CppAndFfiData {
    /// The input data, carried through unchanged.
    pub cpp_data: CppData,
    /// The input data partitioned by declaring header.
    pub cpp_data_by_headers: Vec<(String, CppData)>,
    /// The finalized per-header method lists, sorted by header name.
    pub cpp_ffi_headers: Vec<CppFfiHeaderData>,
}

/// A header's base name: the name without a trailing `.h`.
pub open spec fn spec_header_base_name(n: Seq<char>) -> Seq<char> {
    if n.len() >= 2 && n[n.len() - 2] == '.' && n[n.len() - 1] == 'h' {
        n.take(n.len() - 2)
    } else {
        n
    }
}

/// Derives a header's base name by stripping a trailing `.h`.
pub fn header_base_name(n: &String) -> (r: String)
    ensures
        r@ == spec_header_base_name(n@),
{
    let s = n.as_str();
    let len = s.unicode_len();
    if len >= 2 && s.get_char(len - 2) == '.' && s.get_char(len - 1) == 'h' {
        let base = s.substring_char(0, len - 2);
        proof {
            assert(base@ =~= n@.take(n@.len() - 2));
        }
        base.to_owned()
    } else {
        n.clone()
    }
}

/// True when the headers of `s` are sorted by header name, in
/// byte-lexicographic order.
pub open spec fn spec_sorted_headers(s: Seq<CppFfiHeaderData>) -> bool {
    forall|i: int, j: int|
        0 <= i < j < s.len() ==> bytes_le(
            encode_utf8((#[trigger] s[i]).include_file@),
            encode_utf8((#[trigger] s[j]).include_file@),
        )
}

/// Inserts `x` into the header list `out`, keeping it sorted by header
/// name.
fn insert_sorted_header(out: &mut Vec<CppFfiHeaderData>, x: CppFfiHeaderData)
    requires
        spec_sorted_headers(old(out)@),
    ensures
        spec_sorted_headers(final(out)@),
        final(out)@.len() == old(out)@.len() + 1,
        forall|i: int|
            0 <= i < final(out)@.len() ==> (#[trigger] final(out)@[i] == x || exists|j: int|
                0 <= j < old(out)@.len() && old(out)@[j] == final(out)@[i]),
        final(out)@.contains(x),
        forall|j: int| 0 <= j < old(out)@.len() ==> final(out)@.contains(#[trigger] old(out)@[j]),
{
    let mut pos: usize = 0;
    while pos < out.len() && str_bytes_le(&out[pos].include_file, &x.include_file)
        invariant
            pos <= out@.len(),
            out@ == old(out)@,
            forall|j: int|
                0 <= j < pos ==> bytes_le(
                    encode_utf8((#[trigger] out@[j]).include_file@),
                    encode_utf8(x.include_file@),
                ),
        decreases out@.len() - pos,
    {
        pos += 1;
    }
    proof {
        if pos < out@.len() {
            crate::order::lemma_bytes_le_total_from(
                encode_utf8(out@[pos as int].include_file@),
                encode_utf8(x.include_file@),
                0,
            );
        }
    }
    out.insert(pos, x);
    proof {
        let o = old(out)@;
        let f = out@;
        assert(f == o.insert(pos as int, x));
        assert forall|i: int, j: int| 0 <= i < j < f.len() implies bytes_le(
            encode_utf8(f[i].include_file@),
            encode_utf8(f[j].include_file@),
        ) by {
            if i == pos && j > pos {
                if j - 1 > pos {
                    crate::order::lemma_bytes_le_trans_from(
                        encode_utf8(x.include_file@),
                        encode_utf8(o[pos as int].include_file@),
                        encode_utf8(o[j - 1].include_file@),
                        0,
                    );
                }
            }
        }
        assert forall|i: int|
            0 <= i < f.len() implies (f[i] == x || exists|j: int| 0 <= j < o.len() && o[j] == f[i]) by {
            if i < pos {
                assert(o[i] == f[i]);
            } else if i > pos {
                assert(o[i - 1] == f[i]);
            }
        }
        broadcast use vstd::seq_lib::lemma_seq_contains;

        assert(f[pos as int] == x);
        assert forall|j: int| 0 <= j < o.len() implies f.contains(#[trigger] o[j]) by {
            if j < pos {
                assert(f[j] == o[j]);
            } else {
                assert(f[j + 1] == o[j]);
            }
        }
    }
}

/// In a list sorted by symbol name, pairwise-distinct names follow from
/// adjacent-distinct names.
proof fn lemma_sorted_adjacent_distinct(s: Seq<CppAndFfiMethod>)
    requires
        spec_sorted_methods(s),
        forall|p: int| 0 <= p < s.len() - 1 ==> spec_name_key(#[trigger] s[p]) != spec_name_key(
            s[p + 1],
        ),
    ensures
        forall|i: int, j: int|
            0 <= i < j < s.len() ==> spec_name_key(#[trigger] s[i]) != spec_name_key(
                #[trigger] s[j],
            ),
{
    assert forall|i: int, j: int|
        0 <= i < j < s.len() implies spec_name_key(#[trigger] s[i]) != spec_name_key(
        #[trigger] s[j],
    ) by {
        if spec_name_key(s[i]) == spec_name_key(s[j]) {
            if j == i + 1 {
                assert(spec_name_key(s[i]) != spec_name_key(s[i + 1]));
            } else {
                assert(bytes_le(spec_name_key(s[i]), spec_name_key(s[i + 1])));
                assert(bytes_le(spec_name_key(s[i + 1]), spec_name_key(s[j])));
                assert(spec_name_key(s[i]).take(0) =~= spec_name_key(s[i + 1]).take(0));
                crate::order::lemma_bytes_le_antisym_from(
                    spec_name_key(s[i]),
                    spec_name_key(s[i + 1]),
                    0,
                );
                assert(spec_name_key(s[i]) != spec_name_key(s[i + 1]));
            }
        }
    }
}

/// True when a header is one of the flag-wrapper infrastructure headers
/// that carry no bindable declarations.
pub open spec fn spec_is_flags_header(n: Seq<char>) -> bool {
    n == "QFlags"@ || n == "QFlag"@
}

/// True when nothing but the abstract-class set could keep a method out of
/// the output: it is public, not a signal, not a template method, not a
/// member of a template class, and every type occurrence of it has a shim
/// representation. Only such methods can ever collide on a symbol name.
pub open spec fn spec_possibly_bindable(
    mm: MethodModel,
    template_classes: Seq<String>,
    instantiations: Seq<crate::cpp_data::CppTemplateInstantiations>,
) -> bool {
    &&& (mm.class_membership matches Some(c) ==> {
        &&& c.visibility == CppVisibility::Public
        &&& !c.is_signal
        &&& !(spec_in_template_class(template_classes, c.class_name)
            && !spec_registered_instantiation(
            instantiations,
            c.class_name,
            c.class_template_arguments,
        ))
    })
    &&& !mm.has_template_arguments
    &&& spec_convertible(mm)
}

/// True when a method surely produces a binding whatever the abstract-class
/// set is: it is public, not a constructor, not a signal, not a template
/// method, not a member of a template class, and every type occurrence of
/// it has a shim representation.
pub open spec fn spec_always_bindable(
    mm: MethodModel,
    template_classes: Seq<String>,
    instantiations: Seq<crate::cpp_data::CppTemplateInstantiations>,
) -> bool {
    &&& (mm.class_membership matches Some(c) ==> {
        &&& !(c.kind is Constructor)
        &&& c.visibility == CppVisibility::Public
        &&& !c.is_signal
        &&& !(spec_in_template_class(template_classes, c.class_name)
            && !spec_registered_instantiation(
            instantiations,
            c.class_name,
            c.class_template_arguments,
        ))
    })
    &&& !mm.has_template_arguments
    &&& spec_convertible(mm)
}

/// The header record `hdr` covers the bucket with key `key` and data
/// `data`: it carries the key's name, and every surely bindable method of
/// the bucket is represented in its method list.
pub open spec fn spec_header_covers(
    hdr: CppFfiHeaderData,
    key: Seq<char>,
    data: CppData,
    template_classes: Seq<String>,
    instantiations: Seq<crate::cpp_data::CppTemplateInstantiations>,
) -> bool {
    &&& hdr.include_file@ == key
    &&& (forall|j: int|
        0 <= j < data.methods@.len() && spec_always_bindable(
            method_model(#[trigger] data.methods@[j]),
            template_classes,
            instantiations,
        ) ==> spec_output_represents(hdr.methods@, method_model(data.methods@[j])))
}

impl CGenerator {
    /// Drives a whole generation run: computes the abstract-class set from
    /// the global hierarchy, partitions the data by header, skips the
    /// infrastructure headers that carry no bindable declarations, processes
    /// every remaining header, and returns the per-header method lists
    /// sorted by header name. A run either completes fully or aborts on the
    /// first fatal condition; every method it keeps passed the eligibility
    /// filter, so in particular no private, protected, signal or template
    /// method is ever emitted.
    #[verifier::rlimit(100)]
    pub fn generate_all(self, diags: &mut Vec<Diagnostic>) -> (r: Result<
        CppAndFfiData,
        GenerationError,
    >)
        ensures
            old(diags)@.is_prefix_of(final(diags)@),
            r matches Err(e) ==> (e == GenerationError::InheritanceCycle || e
                == GenerationError::BaseNotClass ==> exists|i: int|
                0 <= i < self.cpp_data.types@.len() && type_data_model(
                    #[trigger] self.cpp_data.types@[i],
                ).is_class && spec_resolve_entry(
                    self.cpp_data.types@,
                    self.cpp_data.methods@,
                    self.cpp_data.types@[i].name@,
                    true,
                ) == Err::<Seq<MethodModel>, _>(e)),
            r matches Err(e) ==> (e == GenerationError::DisambiguationFailed ==> exists|j: int|
                0 <= j < self.cpp_data.methods@.len() && spec_possibly_bindable(
                    method_model(#[trigger] self.cpp_data.methods@[j]),
                    self.template_classes@,
                    self.cpp_data.template_instantiations@,
                )),
            r matches Ok(d) ==> {
                &&& d.cpp_data == self.cpp_data
                &&& spec_sorted_headers(d.cpp_ffi_headers@)
                &&& (forall|h: int|
                    0 <= h < d.cpp_ffi_headers@.len() ==> spec_sorted_methods(
                        (#[trigger] d.cpp_ffi_headers@[h]).methods@,
                    ))
                &&& (forall|h: int|
                    0 <= h < d.cpp_ffi_headers@.len()
                        ==> (#[trigger] d.cpp_ffi_headers@[h]).include_file_base_name@
                        == spec_header_base_name(d.cpp_ffi_headers@[h].include_file@))
                &&& (forall|h: int, k: int|
                    0 <= h < d.cpp_ffi_headers@.len() && 0 <= k < (
                    #[trigger] d.cpp_ffi_headers@[h]).methods@.len() ==> {
                        let mm = method_model((#[trigger] d.cpp_ffi_headers@[h].methods@[k]).cpp_method);
                        &&& (mm.class_membership matches Some(c) ==> c.visibility
                            == CppVisibility::Public && !c.is_signal)
                        &&& !mm.has_template_arguments
                    })
                &&& (forall|h: int, k: int, i: int|
                    #![trigger d.cpp_ffi_headers@[h].methods@[k], self.cpp_data.types@[i]]
                    0 <= h < d.cpp_ffi_headers@.len() && 0 <= k
                        < d.cpp_ffi_headers@[h].methods@.len() && 0 <= i
                        < self.cpp_data.types@.len() && type_data_model(
                        self.cpp_data.types@[i],
                    ).is_class && (method_model(
                        d.cpp_ffi_headers@[h].methods@[k].cpp_method,
                    ).class_membership matches Some(c) && c.kind is Constructor && c.class_name
                        == type_data_model(self.cpp_data.types@[i]).name) ==> !(spec_resolve_entry(
                        self.cpp_data.types@,
                        self.cpp_data.methods@,
                        type_data_model(self.cpp_data.types@[i]).name,
                        true,
                    ) matches Ok(v) && v.len() > 0))
                &&& (forall|a: int|
                    0 <= a < d.cpp_data_by_headers@.len() && !spec_is_flags_header(
                        (#[trigger] d.cpp_data_by_headers@[a]).0@,
                    ) ==> exists|h: int|
                        0 <= h < d.cpp_ffi_headers@.len() && spec_header_covers(
                            #[trigger] d.cpp_ffi_headers@[h],
                            d.cpp_data_by_headers@[a].0@,
                            d.cpp_data_by_headers@[a].1,
                            self.template_classes@,
                            self.cpp_data.template_instantiations@,
                        ))
                &&& (forall|h: int|
                    0 <= h < d.cpp_ffi_headers@.len() ==> spec_out_good(
                        (#[trigger] d.cpp_ffi_headers@[h]).methods@,
                        self.deletable_classes@,
                        spec_header_base_name(d.cpp_ffi_headers@[h].include_file@),
                    ))
                &&& (forall|h: int|
                    0 <= h < d.cpp_ffi_headers@.len() ==> (forall|i: int, j: int|
                        0 <= i < j < (#[trigger] d.cpp_ffi_headers@[h]).methods@.len()
                            ==> (#[trigger] d.cpp_ffi_headers@[h].methods@[i]).c_name@ != (
                        #[trigger] d.cpp_ffi_headers@[h].methods@[j]).c_name@))

                &&& (forall|a: int, b: int|
                    0 <= a < b < d.cpp_data_by_headers@.len() ==> (
                    #[trigger] d.cpp_data_by_headers@[a]).0@ != (
                    #[trigger] d.cpp_data_by_headers@[b]).0@)
                &&& (forall|a: int|
                    0 <= a < d.cpp_data_by_headers@.len() ==> forall|k: int|
                        0 <= k < (#[trigger] d.cpp_data_by_headers@[a]).1.methods@.len()
                            ==> method_model(
                            #[trigger] d.cpp_data_by_headers@[a].1.methods@[k],
                        ).include_file == d.cpp_data_by_headers@[a].0@)
                &&& (forall|j: int|
                    0 <= j < self.cpp_data.methods@.len()
                        ==> crate::cpp_data::spec_in_buckets(
                        d.cpp_data_by_headers@,
                        method_model(#[trigger] self.cpp_data.methods@[j]),
                    ))
            },
    {
        let ghost diags0 = diags@;
        let mut gen = self;
        // The abstract-class set depends on the global hierarchy, so it is
        // computed once, before any per-header work.
        let mut abstract_classes: Vec<String> = Vec::new();
        let mut ti: usize = 0;
        while ti < gen.cpp_data.types.len()
            invariant
                ti <= gen.cpp_data.types@.len(),
                gen.cpp_data == self.cpp_data,
                gen.lib_name == self.lib_name,
                gen.template_classes == self.template_classes,
                gen.deletable_classes == self.deletable_classes,
                diags0 == old(diags)@,
                diags0.is_prefix_of(diags@),
                forall|i: int|
                    0 <= i < ti && type_data_model(#[trigger] self.cpp_data.types@[i]).is_class
                        && (spec_resolve_entry(
                        self.cpp_data.types@,
                        self.cpp_data.methods@,
                        type_data_model(self.cpp_data.types@[i]).name,
                        true,
                    ) matches Ok(v) && v.len() > 0) ==> contains_name(
                        abstract_classes@,
                        type_data_model(self.cpp_data.types@[i]).name,
                    ),
            decreases gen.cpp_data.types@.len() - ti,
        {
            let is_class = match &gen.cpp_data.types[ti].kind {
                CppTypeKind::Class { .. } => true,
                CppTypeKind::Enum { .. } => false,
            };
            if is_class {
                let name = gen.cpp_data.types[ti].name.clone();
                let ghost d_pre = diags@;
                match gen.get_pure_virtual_methods(&name, diags) {
                    Err(e) => {
                        proof {
                            lemma_prefix_trans(diags0, d_pre, diags@);
                            assert(type_data_model(self.cpp_data.types@[ti as int]).is_class);
                            assert(spec_resolve_entry(
                                self.cpp_data.types@,
                                self.cpp_data.methods@,
                                self.cpp_data.types@[ti as int].name@,
                                true,
                            ) == Err::<Seq<MethodModel>, _>(e));
                            let tix = crate::cpp_data::spec_find_type(
                                self.cpp_data.types@,
                                self.cpp_data.types@[ti as int].name@,
                                0,
                            );
                            if tix >= 0 {
                                lemma_resolve_no_disamb(
                                    self.cpp_data.types@,
                                    self.cpp_data.methods@,
                                    tix,
                                    Seq::empty(),
                                    true,
                                    self.cpp_data.types@.len() as nat,
                                );
                            }
                        }
                        return Err(e);
                    },
                    Ok(pure_virtuals) => {
                        proof {
                            lemma_prefix_trans(diags0, d_pre, diags@);
                            assert(method_models_of(pure_virtuals@).len()
                                == pure_virtuals@.len());
                        }
                        let ghost a0 = abstract_classes@;
                        let pushed = pure_virtuals.len() > 0;
                        if pushed {
                            abstract_classes.push(name);
                        }
                        proof {
                            assert forall|i: int|
                                0 <= i < ti + 1 && type_data_model(
                                    #[trigger] self.cpp_data.types@[i],
                                ).is_class && (spec_resolve_entry(
                                    self.cpp_data.types@,
                                    self.cpp_data.methods@,
                                    type_data_model(self.cpp_data.types@[i]).name,
                                    true,
                                ) matches Ok(v) && v.len() > 0) implies contains_name(
                                abstract_classes@,
                                type_data_model(self.cpp_data.types@[i]).name,
                            ) by {
                                if i == ti {
                                    assert(abstract_classes@[abstract_classes@.len() - 1]@
                                        == type_data_model(self.cpp_data.types@[i]).name);
                                } else {
                                    if pushed {
                                        lemma_contains_name_push(
                                            a0,
                                            abstract_classes@.last(),
                                            type_data_model(self.cpp_data.types@[i]).name,
                                        );
                                        assert(abstract_classes@ =~= a0.push(
                                            abstract_classes@.last(),
                                        ));
                                    }
                                }
                            }
                        }
                    },
                }
            }
            ti += 1;
        }
        gen.abstract_classes = abstract_classes;
        // Partition by header and process each bucket.
        let buckets = gen.cpp_data.split_by_headers();
        let mut headers: Vec<CppFfiHeaderData> = Vec::new();
        let mut bi: usize = 0;
        while bi < buckets.len()
            invariant
                bi <= buckets@.len(),
                spec_sorted_headers(headers@),
                forall|h: int|
                    0 <= h < headers@.len() ==> spec_sorted_methods(
                        (#[trigger] headers@[h]).methods@,
                    ),
                forall|h: int|
                    0 <= h < headers@.len() ==> (#[trigger] headers@[h]).include_file_base_name@
                        == spec_header_base_name(headers@[h].include_file@),
                forall|h: int|
                    0 <= h < headers@.len() ==> spec_out_allowed(
                        (#[trigger] headers@[h]).methods@,
                        gen.abstract_classes@,
                        gen.template_classes@,
                        gen.cpp_data.template_instantiations@,
                    ),
                gen.template_classes == self.template_classes,
                gen.deletable_classes == self.deletable_classes,
                gen.cpp_data == self.cpp_data,
                diags0 == old(diags)@,
                diags0.is_prefix_of(diags@),
                forall|i: int|
                    0 <= i < self.cpp_data.types@.len() && type_data_model(
                        #[trigger] self.cpp_data.types@[i],
                    ).is_class && (spec_resolve_entry(
                        self.cpp_data.types@,
                        self.cpp_data.methods@,
                        type_data_model(self.cpp_data.types@[i]).name,
                        true,
                    ) matches Ok(v) && v.len() > 0) ==> contains_name(
                        gen.abstract_classes@,
                        type_data_model(self.cpp_data.types@[i]).name,
                    ),
                forall|a: int|
                    0 <= a < buckets@.len() ==> forall|k: int|
                        0 <= k < (#[trigger] buckets@[a]).1.methods@.len() ==> exists|j: int|
                            0 <= j < self.cpp_data.methods@.len() && method_model(
                                #[trigger] buckets@[a].1.methods@[k],
                            ) == method_model(self.cpp_data.methods@[j]),
                forall|h: int|
                    0 <= h < headers@.len() ==> spec_out_good(
                        (#[trigger] headers@[h]).methods@,
                        self.deletable_classes@,
                        spec_header_base_name(headers@[h].include_file@),
                    ),
                forall|h: int|
                    0 <= h < headers@.len() ==> (forall|i: int, j: int|
                        0 <= i < j < (#[trigger] headers@[h]).methods@.len() ==> (
                        #[trigger] headers@[h].methods@[i]).c_name@ != (
                        #[trigger] headers@[h].methods@[j]).c_name@),
                forall|a: int|
                    0 <= a < bi && !spec_is_flags_header((#[trigger] buckets@[a]).0@)
                        ==> exists|h: int|
                        0 <= h < headers@.len() && spec_header_covers(
                            #[trigger] headers@[h],
                            buckets@[a].0@,
                            buckets@[a].1,
                            self.template_classes@,
                            self.cpp_data.template_instantiations@,
                        ),
            decreases buckets@.len() - bi,
        {
            let include_file = &buckets[bi].0;
            // Flag-wrapper headers carry no bindable declarations of their
            // own and are skipped wholesale.
            if string_is(include_file, "QFlags") || string_is(include_file, "QFlag") {
                let mut m = String::from_str("skipping infrastructure header: ");
                m.append(include_file.as_str());
                let ghost d_pre = diags@;
                diags.push(Diagnostic { severity: DiagnosticSeverity::Info, message: m });
                proof {
                    lemma_prefix_push(diags0, d_pre, diags@.last());
                    assert(diags@ =~= d_pre.push(diags@.last()));
                    assert(spec_is_flags_header(buckets@[bi as int].0@));
                }
            } else {
                let base = header_base_name(include_file);
                let ghost d_pre = diags@;
                match gen.process_methods(include_file, &base, &buckets[bi].1.methods, diags) {
                    Err(e) => {
                        proof {
                            lemma_prefix_trans(diags0, d_pre, diags@);
                            // A failing group holds at least one surviving
                            // candidate, so some input method is bindable up
                            // to abstractness.
                            let bms = buckets@[bi as int].1.methods@;
                            assert(!(forall|j: int|
                                0 <= j < bms.len() ==> !(spec_method_allowed(
                                    method_model(#[trigger] bms[j]),
                                    gen.abstract_classes@,
                                    gen.template_classes@,
                                    gen.cpp_data.template_instantiations@,
                                ) && spec_convertible(method_model(bms[j])))));
                            let bj = choose|bj: int|
                                0 <= bj < bms.len() && spec_method_allowed(
                                    method_model(#[trigger] bms[bj]),
                                    gen.abstract_classes@,
                                    gen.template_classes@,
                                    gen.cpp_data.template_instantiations@,
                                ) && spec_convertible(method_model(bms[bj]));
                            let j = choose|j: int|
                                0 <= j < self.cpp_data.methods@.len() && method_model(
                                    #[trigger] bms[bj],
                                ) == method_model(self.cpp_data.methods@[j]);
                            assert(spec_possibly_bindable(
                                method_model(self.cpp_data.methods@[j]),
                                self.template_classes@,
                                self.cpp_data.template_instantiations@,
                            ));
                        }
                        return Err(e);
                    },
                    Ok(methods) => {
                        proof {
                            lemma_prefix_trans(diags0, d_pre, diags@);
                        }
                        let ghost h0 = headers@;
                        let hdr = CppFfiHeaderData {
                            include_file: include_file.clone(),
                            include_file_base_name: base,
                            methods,
                        };
                        let ghost hdr_g = hdr;
                        insert_sorted_header(&mut headers, hdr);
                        proof {
                            assert(hdr_g.include_file_base_name@ == spec_header_base_name(
                                hdr_g.include_file@,
                            ));
                            assert(spec_out_good(
                                hdr_g.methods@,
                                self.deletable_classes@,
                                spec_header_base_name(hdr_g.include_file@),
                            ));
                            assert forall|h: int|
                                0 <= h < headers@.len() implies spec_sorted_methods(
                                (#[trigger] headers@[h]).methods@,
                            ) && headers@[h].include_file_base_name@ == spec_header_base_name(
                                headers@[h].include_file@,
                            ) && spec_out_allowed(
                                headers@[h].methods@,
                                gen.abstract_classes@,
                                gen.template_classes@,
                                gen.cpp_data.template_instantiations@,
                            ) && spec_out_good(
                                headers@[h].methods@,
                                self.deletable_classes@,
                                spec_header_base_name(headers@[h].include_file@),
                            ) && (forall|i: int, j: int|
                                0 <= i < j < headers@[h].methods@.len()
                                    ==> (#[trigger] headers@[h].methods@[i]).c_name@ != (
                                #[trigger] headers@[h].methods@[j]).c_name@) by {
                                if exists|j: int| 0 <= j < h0.len() && h0[j] == headers@[h] {
                                    let j = choose|j: int|
                                        0 <= j < h0.len() && h0[j] == headers@[h];
                                    assert(spec_sorted_methods(h0[j].methods@));
                                    assert(spec_out_good(
                                        h0[j].methods@,
                                        self.deletable_classes@,
                                        spec_header_base_name(h0[j].include_file@),
                                    ));
                                    assert(forall|i: int, jj: int|
                                        0 <= i < jj < h0[j].methods@.len() ==> (
                                        #[trigger] h0[j].methods@[i]).c_name@ != (
                                        #[trigger] h0[j].methods@[jj]).c_name@);
                                }
                            }
                            // The fresh header covers its bucket: a
                            // surely bindable method is eligible whatever
                            // the abstract-class set, so the per-header
                            // completeness of `process_methods` applies.
                            let key = buckets@[bi as int].0@;
                            let data = buckets@[bi as int].1;
                            assert forall|j: int|
                                0 <= j < data.methods@.len() && spec_always_bindable(
                                    method_model(#[trigger] data.methods@[j]),
                                    self.template_classes@,
                                    self.cpp_data.template_instantiations@,
                                ) implies spec_output_represents(
                                hdr_g.methods@,
                                method_model(data.methods@[j]),
                            ) by {
                                assert(spec_method_allowed(
                                    method_model(data.methods@[j]),
                                    gen.abstract_classes@,
                                    gen.template_classes@,
                                    gen.cpp_data.template_instantiations@,
                                ));
                                lemma_candidate_model_zero(method_model(data.methods@[j]));
                                crate::cpp_ffi_data::lemma_trailing_defaults_bound(
                                    method_model(data.methods@[j]).arguments,
                                );
                            }
                            assert(spec_header_covers(
                                hdr_g,
                                key,
                                data,
                                self.template_classes@,
                                self.cpp_data.template_instantiations@,
                            ));
                            assert forall|a: int|
                                0 <= a < bi + 1 && !spec_is_flags_header(
                                    (#[trigger] buckets@[a]).0@,
                                ) implies exists|h: int|
                                0 <= h < headers@.len() && spec_header_covers(
                                    #[trigger] headers@[h],
                                    buckets@[a].0@,
                                    buckets@[a].1,
                                    self.template_classes@,
                                    self.cpp_data.template_instantiations@,
                                ) by {
                                if a == bi {
                                    let hi = choose|hi: int|
                                        0 <= hi < headers@.len() && headers@[hi] == hdr_g;
                                    assert(spec_header_covers(
                                        headers@[hi],
                                        key,
                                        data,
                                        self.template_classes@,
                                        self.cpp_data.template_instantiations@,
                                    ));
                                } else {
                                    let h = choose|h: int|
                                        0 <= h < h0.len() && spec_header_covers(
                                            #[trigger] h0[h],
                                            buckets@[a].0@,
                                            buckets@[a].1,
                                            self.template_classes@,
                                            self.cpp_data.template_instantiations@,
                                        );
                                    let i2 = choose|i2: int|
                                        0 <= i2 < headers@.len() && headers@[i2] == h0[h];
                                    assert(spec_header_covers(
                                        headers@[i2],
                                        buckets@[a].0@,
                                        buckets@[a].1,
                                        self.template_classes@,
                                        self.cpp_data.template_instantiations@,
                                    ));
                                }
                            }
                        }
                    },
                }
            }
            bi += 1;
        }
        // Derive the top-level eligibility facts for the finished headers.
        proof {
            assert forall|h: int, k: int|
                0 <= h < headers@.len() && 0 <= k < (
                #[trigger] headers@[h]).methods@.len() implies {
                let mm = method_model((#[trigger] headers@[h].methods@[k]).cpp_method);
                &&& (mm.class_membership matches Some(c) ==> c.visibility
                    == CppVisibility::Public && !c.is_signal)
                &&& !mm.has_template_arguments
            } by {
                assert(spec_method_allowed(
                    method_model(headers@[h].methods@[k].cpp_method),
                    gen.abstract_classes@,
                    gen.template_classes@,
                    gen.cpp_data.template_instantiations@,
                ));
            }
            assert forall|h: int, k: int, i: int|
                #![trigger headers@[h].methods@[k], self.cpp_data.types@[i]]
                0 <= h < headers@.len() && 0 <= k < headers@[h].methods@.len() && 0 <= i
                    < self.cpp_data.types@.len() && type_data_model(
                    self.cpp_data.types@[i],
                ).is_class && (method_model(
                    headers@[h].methods@[k].cpp_method,
                ).class_membership matches Some(c) && c.kind is Constructor && c.class_name
                    == type_data_model(self.cpp_data.types@[i]).name) implies !(
            spec_resolve_entry(
                self.cpp_data.types@,
                self.cpp_data.methods@,
                type_data_model(self.cpp_data.types@[i]).name,
                true,
            ) matches Ok(v) && v.len() > 0) by {
                assert(spec_method_allowed(
                    method_model(headers@[h].methods@[k].cpp_method),
                    gen.abstract_classes@,
                    gen.template_classes@,
                    gen.cpp_data.template_instantiations@,
                ));
            }
        }
        Ok(
            CppAndFfiData {
                cpp_data: gen.cpp_data,
                cpp_data_by_headers: buckets,
                cpp_ffi_headers: headers,
            },
        )
    }
}


/// Disambiguation is stable: the symbol names of a group are a pure
/// function of the group's base name and its candidates' signatures, so any
/// two runs over the same group agree on every name.
pub proof fn lemma_disambiguation_deterministic(
    key: Seq<char>,
    values: Seq<CppMethodWithFfiSignature>,
    n1: Seq<Seq<char>>,
    n2: Seq<Seq<char>>,
)
    requires
        n1.len() == values.len(),
        n2.len() == values.len(),
        forall|i: int| 0 <= i < values.len() ==> #[trigger] n1[i] == spec_group_name(key, values, i),
        forall|i: int| 0 <= i < values.len() ==> #[trigger] n2[i] == spec_group_name(key, values, i),
    ensures
        n1 == n2,
{
    assert(n1 =~= n2);
}

} // verus!
