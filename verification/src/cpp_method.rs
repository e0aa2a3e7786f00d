//! C++ methods: identity, class membership, operators, arguments, and the
//! synthesis of the shim-signature candidates a method produces, including
//! the expansion of default-valued arguments into an explicit overload set.

use vstd::prelude::*;

use crate::cpp_data::CppVisibility;
use crate::cpp_type::{
    CppType, CppTypeClassBase, TypeModel, class_base_model, spec_type_caption, type_caption,
    type_model, types_equal,
};

verus! {

/// Special kinds of C++ methods.
#[derive(Debug, Clone, Copy, PartialEq, Eq, Structural)]
pub enum CppMethodKind {
    /// An ordinary method.
    Regular,
    /// A constructor.
    Constructor,
    /// A destructor.
    Destructor,
}

/// The shape of a generated field accessor method.
#[derive(Debug, Clone, Copy, PartialEq, Eq, Structural)]
pub enum CppFieldAccessorType {
    /// Returns a copy of the field.
    CopyGetter,
    /// Returns a const reference to the field.
    ConstRefGetter,
    /// Returns a mutable reference to the field.
    MutRefGetter,
    /// Copies its argument's value into the field.
    Setter,
}

/// A method generated by the binding generator itself, without a C++
/// declaration behind it.
#[derive(Debug)]
pub enum FakeCppMethod {
    /// An accessor for a public field of a class.
    FieldAccessor { accessor_type: CppFieldAccessorType, field_name: String },
}

/// An accessor for a public field of a class.
#[derive(Debug)]
pub struct CppFieldAccessor {
    /// The shape of the accessor.
    pub accessor_type: CppFieldAccessorType,
    /// The name of the C++ field.
    pub field_name: String,
}

/// The C++ operators a method can implement.
#[derive(Debug)]
pub enum CppOperator {
    /// `(type) a`
    Conversion(CppType),
    /// `a = b`
    Assignment,
    /// `a + b`
    Addition,
    /// `a - b`
    Subtraction,
    /// `+a`
    UnaryPlus,
    /// `-a`
    UnaryMinus,
    /// `a * b`
    Multiplication,
    /// `a / b`
    Division,
    /// `a % b`
    Modulo,
    /// `++a`
    PrefixIncrement,
    /// `a++`
    PostfixIncrement,
    /// `--a`
    PrefixDecrement,
    /// `a--`
    PostfixDecrement,
    /// `a == b`
    EqualTo,
    /// `a != b`
    NotEqualTo,
    /// `a > b`
    GreaterThan,
    /// `a < b`
    LessThan,
    /// `a >= b`
    GreaterThanOrEqualTo,
    /// `a <= b`
    LessThanOrEqualTo,
    /// `!a`
    LogicalNot,
    /// `a && b`
    LogicalAnd,
    /// `a || b`
    LogicalOr,
    /// `~a`
    BitwiseNot,
    /// `a & b`
    BitwiseAnd,
    /// `a | b`
    BitwiseOr,
    /// `a ^ b`
    BitwiseXor,
    /// `a << b`
    BitwiseLeftShift,
    /// `a >> b`
    BitwiseRightShift,
    /// `a += b`
    AdditionAssignment,
    /// `a -= b`
    SubtractionAssignment,
    /// `a *= b`
    MultiplicationAssignment,
    /// `a /= b`
    DivisionAssignment,
    /// `a %= b`
    ModuloAssignment,
    /// `a &= b`
    BitwiseAndAssignment,
    /// `a |= b`
    BitwiseOrAssignment,
    /// `a ^= b`
    BitwiseXorAssignment,
    /// `a <<= b`
    BitwiseLeftShiftAssignment,
    /// `a >>= b`
    BitwiseRightShiftAssignment,
    /// `a[b]`
    Subscript,
    /// `*a`
    Indirection,
    /// `&a`
    AddressOf,
    /// `a->b`
    StructureDereference,
    /// `a->*b`
    PointerToMember,
    /// `a(a1, a2)`
    FunctionCall,
    /// `a, b`
    Comma,
    /// `new type`
    New,
    /// `new type[n]`
    NewArray,
    /// `delete a`
    Delete,
    /// `delete[] a`
    DeleteArray,
}

/// Information about a class member method.
#[derive(Debug)]
pub struct CppMethodClassMembership {
    /// The type of the class this method belongs to.
    pub class_type: CppTypeClassBase,
    /// Whether this is an ordinary method, a constructor or a destructor.
    pub kind: CppMethodKind,
    /// True for a virtual method.
    pub is_virtual: bool,
    /// True for a pure virtual method; requires `is_virtual`.
    pub is_pure_virtual: bool,
    /// True for a const method.
    pub is_const: bool,
    /// True for a static method.
    pub is_static: bool,
    /// The method's visibility.
    pub visibility: CppVisibility,
    /// True for a signal of the event system.
    pub is_signal: bool,
    /// True for a slot of the event system.
    pub is_slot: bool,
    /// For a generated field accessor, what it accesses.
    pub fake: Option<FakeCppMethod>,
}

/// One argument of a C++ method.
#[derive(Debug)]
pub struct CppFunctionArgument {
    /// The argument's identifier.
    pub name: String,
    /// The argument's type.
    pub argument_type: CppType,
    /// True when the argument has a default value and may be omitted.
    pub has_default_value: bool,
}

/// Documentation attached to a method.
#[derive(Debug)]
pub struct CppMethodDoc {
    /// Anchor of this entry, used to detect duplicates.
    pub anchor: String,
    /// The content.
    pub html: String,
    /// The declaration the entry was found under, when it is not an exact
    /// match for this method.
    pub mismatched_declaration: Option<String>,
    /// Absolute URL of the documentation page.
    pub url: String,
    /// Absolute URLs encountered in the content.
    pub cross_references: Vec<String>,
}

/// A C++ method.
#[derive(Debug)]
pub struct CppMethod {
    /// The method's own name; for a free function, with namespaces.
    pub name: String,
    /// Class membership, or `None` for a free function.
    pub class_membership: Option<CppMethodClassMembership>,
    /// The operator this method implements, if any.
    pub operator: Option<CppOperator>,
    /// The return type; `void` for constructors and destructors.
    pub return_type: CppType,
    /// The arguments, in order.
    pub arguments: Vec<CppFunctionArgument>,
    /// When this method was derived from another by omitting defaulted
    /// arguments, all arguments of the original method.
    pub arguments_before_omitting: Option<Vec<CppFunctionArgument>>,
    /// Whether the argument list is terminated with `...`.
    pub allows_variadic_arguments: bool,
    /// File name of the include file the method is declared in.
    pub include_file: String,
    /// Exact location of the declaration, when there is one.
    pub origin_location: Option<crate::cpp_data::CppOriginLocation>,
    /// Names of the method's own template arguments, if it is a template.
    pub template_arguments: Option<crate::cpp_data::TemplateArgumentsDeclaration>,
    /// For an instantiated template method, the types of the instantiation.
    pub template_arguments_values: Option<Vec<CppType>>,
    /// The C++ declaration text, when it was explicitly declared.
    pub declaration_code: Option<String>,
    /// The base classes this method was inherited through, most-base first.
    pub inheritance_chain: Vec<crate::cpp_data::CppBaseSpecifier>,
    /// Documentation for the method.
    pub doc: Option<CppMethodDoc>,
    /// True when later checks may be skipped for this method.
    pub is_ffi_whitelisted: bool,
    /// True for a generated base-to-derived cast wrapper.
    pub is_unsafe_static_cast: bool,
}

// ----------------------------------------------------------------------
// Models.

/// Model of an operator.
pub ghost enum OperatorModel {
    Conversion(TypeModel),
    Assignment,
    Addition,
    Subtraction,
    UnaryPlus,
    UnaryMinus,
    Multiplication,
    Division,
    Modulo,
    PrefixIncrement,
    PostfixIncrement,
    PrefixDecrement,
    PostfixDecrement,
    EqualTo,
    NotEqualTo,
    GreaterThan,
    LessThan,
    GreaterThanOrEqualTo,
    LessThanOrEqualTo,
    LogicalNot,
    LogicalAnd,
    LogicalOr,
    BitwiseNot,
    BitwiseAnd,
    BitwiseOr,
    BitwiseXor,
    BitwiseLeftShift,
    BitwiseRightShift,
    AdditionAssignment,
    SubtractionAssignment,
    MultiplicationAssignment,
    DivisionAssignment,
    ModuloAssignment,
    BitwiseAndAssignment,
    BitwiseOrAssignment,
    BitwiseXorAssignment,
    BitwiseLeftShiftAssignment,
    BitwiseRightShiftAssignment,
    Subscript,
    Indirection,
    AddressOf,
    StructureDereference,
    PointerToMember,
    FunctionCall,
    Comma,
    New,
    NewArray,
    Delete,
    DeleteArray,
}

/// The model of an operator.
pub open spec fn operator_model(op: CppOperator) -> OperatorModel {
    match op {
        CppOperator::Conversion(t) => OperatorModel::Conversion(type_model(t)),
        CppOperator::Assignment => OperatorModel::Assignment,
        CppOperator::Addition => OperatorModel::Addition,
        CppOperator::Subtraction => OperatorModel::Subtraction,
        CppOperator::UnaryPlus => OperatorModel::UnaryPlus,
        CppOperator::UnaryMinus => OperatorModel::UnaryMinus,
        CppOperator::Multiplication => OperatorModel::Multiplication,
        CppOperator::Division => OperatorModel::Division,
        CppOperator::Modulo => OperatorModel::Modulo,
        CppOperator::PrefixIncrement => OperatorModel::PrefixIncrement,
        CppOperator::PostfixIncrement => OperatorModel::PostfixIncrement,
        CppOperator::PrefixDecrement => OperatorModel::PrefixDecrement,
        CppOperator::PostfixDecrement => OperatorModel::PostfixDecrement,
        CppOperator::EqualTo => OperatorModel::EqualTo,
        CppOperator::NotEqualTo => OperatorModel::NotEqualTo,
        CppOperator::GreaterThan => OperatorModel::GreaterThan,
        CppOperator::LessThan => OperatorModel::LessThan,
        CppOperator::GreaterThanOrEqualTo => OperatorModel::GreaterThanOrEqualTo,
        CppOperator::LessThanOrEqualTo => OperatorModel::LessThanOrEqualTo,
        CppOperator::LogicalNot => OperatorModel::LogicalNot,
        CppOperator::LogicalAnd => OperatorModel::LogicalAnd,
        CppOperator::LogicalOr => OperatorModel::LogicalOr,
        CppOperator::BitwiseNot => OperatorModel::BitwiseNot,
        CppOperator::BitwiseAnd => OperatorModel::BitwiseAnd,
        CppOperator::BitwiseOr => OperatorModel::BitwiseOr,
        CppOperator::BitwiseXor => OperatorModel::BitwiseXor,
        CppOperator::BitwiseLeftShift => OperatorModel::BitwiseLeftShift,
        CppOperator::BitwiseRightShift => OperatorModel::BitwiseRightShift,
        CppOperator::AdditionAssignment => OperatorModel::AdditionAssignment,
        CppOperator::SubtractionAssignment => OperatorModel::SubtractionAssignment,
        CppOperator::MultiplicationAssignment => OperatorModel::MultiplicationAssignment,
        CppOperator::DivisionAssignment => OperatorModel::DivisionAssignment,
        CppOperator::ModuloAssignment => OperatorModel::ModuloAssignment,
        CppOperator::BitwiseAndAssignment => OperatorModel::BitwiseAndAssignment,
        CppOperator::BitwiseOrAssignment => OperatorModel::BitwiseOrAssignment,
        CppOperator::BitwiseXorAssignment => OperatorModel::BitwiseXorAssignment,
        CppOperator::BitwiseLeftShiftAssignment => OperatorModel::BitwiseLeftShiftAssignment,
        CppOperator::BitwiseRightShiftAssignment => OperatorModel::BitwiseRightShiftAssignment,
        CppOperator::Subscript => OperatorModel::Subscript,
        CppOperator::Indirection => OperatorModel::Indirection,
        CppOperator::AddressOf => OperatorModel::AddressOf,
        CppOperator::StructureDereference => OperatorModel::StructureDereference,
        CppOperator::PointerToMember => OperatorModel::PointerToMember,
        CppOperator::FunctionCall => OperatorModel::FunctionCall,
        CppOperator::Comma => OperatorModel::Comma,
        CppOperator::New => OperatorModel::New,
        CppOperator::NewArray => OperatorModel::NewArray,
        CppOperator::Delete => OperatorModel::Delete,
        CppOperator::DeleteArray => OperatorModel::DeleteArray,
    }
}

/// The short tag naming an operator inside a shim symbol name.
pub open spec fn spec_operator_tag(op: OperatorModel) -> Seq<char> {
    match op {
        OperatorModel::Conversion(t) => "convert_"@ + spec_type_caption(t, true),
        OperatorModel::Assignment => "assign"@,
        OperatorModel::Addition => "add"@,
        OperatorModel::Subtraction => "sub"@,
        OperatorModel::UnaryPlus => "unary_plus"@,
        OperatorModel::UnaryMinus => "unary_minus"@,
        OperatorModel::Multiplication => "mul"@,
        OperatorModel::Division => "div"@,
        OperatorModel::Modulo => "mod"@,
        OperatorModel::PrefixIncrement => "inc"@,
        OperatorModel::PostfixIncrement => "postfix_inc"@,
        OperatorModel::PrefixDecrement => "dec"@,
        OperatorModel::PostfixDecrement => "postfix_dec"@,
        OperatorModel::EqualTo => "eq"@,
        OperatorModel::NotEqualTo => "neq"@,
        OperatorModel::GreaterThan => "gt"@,
        OperatorModel::LessThan => "lt"@,
        OperatorModel::GreaterThanOrEqualTo => "ge"@,
        OperatorModel::LessThanOrEqualTo => "le"@,
        OperatorModel::LogicalNot => "not"@,
        OperatorModel::LogicalAnd => "and"@,
        OperatorModel::LogicalOr => "or"@,
        OperatorModel::BitwiseNot => "bit_not"@,
        OperatorModel::BitwiseAnd => "bit_and"@,
        OperatorModel::BitwiseOr => "bit_or"@,
        OperatorModel::BitwiseXor => "bit_xor"@,
        OperatorModel::BitwiseLeftShift => "shl"@,
        OperatorModel::BitwiseRightShift => "shr"@,
        OperatorModel::AdditionAssignment => "add_assign"@,
        OperatorModel::SubtractionAssignment => "sub_assign"@,
        OperatorModel::MultiplicationAssignment => "mul_assign"@,
        OperatorModel::DivisionAssignment => "div_assign"@,
        OperatorModel::ModuloAssignment => "mod_assign"@,
        OperatorModel::BitwiseAndAssignment => "bit_and_assign"@,
        OperatorModel::BitwiseOrAssignment => "bit_or_assign"@,
        OperatorModel::BitwiseXorAssignment => "bit_xor_assign"@,
        OperatorModel::BitwiseLeftShiftAssignment => "shl_assign"@,
        OperatorModel::BitwiseRightShiftAssignment => "shr_assign"@,
        OperatorModel::Subscript => "index"@,
        OperatorModel::Indirection => "indirection"@,
        OperatorModel::AddressOf => "address_of"@,
        OperatorModel::StructureDereference => "deref_member"@,
        OperatorModel::PointerToMember => "ptr_to_member"@,
        OperatorModel::FunctionCall => "call"@,
        OperatorModel::Comma => "comma"@,
        OperatorModel::New => "new"@,
        OperatorModel::NewArray => "new_array"@,
        OperatorModel::Delete => "delete"@,
        OperatorModel::DeleteArray => "delete_array"@,
    }
}

impl CppOperator {
    /// Returns the short tag naming this operator inside a shim symbol name.
    pub fn tag(&self) -> (r: String)
        ensures
            r@ == spec_operator_tag(operator_model(*self)),
    {
        match self {
            CppOperator::Conversion(t) => {
                let mut r = String::from_str("convert_");
                r.append(type_caption(t, true).as_str());
                r
            },
        CppOperator::Assignment => String::from_str("assign"),
        CppOperator::Addition => String::from_str("add"),
        CppOperator::Subtraction => String::from_str("sub"),
        CppOperator::UnaryPlus => String::from_str("unary_plus"),
        CppOperator::UnaryMinus => String::from_str("unary_minus"),
        CppOperator::Multiplication => String::from_str("mul"),
        CppOperator::Division => String::from_str("div"),
        CppOperator::Modulo => String::from_str("mod"),
        CppOperator::PrefixIncrement => String::from_str("inc"),
        CppOperator::PostfixIncrement => String::from_str("postfix_inc"),
        CppOperator::PrefixDecrement => String::from_str("dec"),
        CppOperator::PostfixDecrement => String::from_str("postfix_dec"),
        CppOperator::EqualTo => String::from_str("eq"),
        CppOperator::NotEqualTo => String::from_str("neq"),
        CppOperator::GreaterThan => String::from_str("gt"),
        CppOperator::LessThan => String::from_str("lt"),
        CppOperator::GreaterThanOrEqualTo => String::from_str("ge"),
        CppOperator::LessThanOrEqualTo => String::from_str("le"),
        CppOperator::LogicalNot => String::from_str("not"),
        CppOperator::LogicalAnd => String::from_str("and"),
        CppOperator::LogicalOr => String::from_str("or"),
        CppOperator::BitwiseNot => String::from_str("bit_not"),
        CppOperator::BitwiseAnd => String::from_str("bit_and"),
        CppOperator::BitwiseOr => String::from_str("bit_or"),
        CppOperator::BitwiseXor => String::from_str("bit_xor"),
        CppOperator::BitwiseLeftShift => String::from_str("shl"),
        CppOperator::BitwiseRightShift => String::from_str("shr"),
        CppOperator::AdditionAssignment => String::from_str("add_assign"),
        CppOperator::SubtractionAssignment => String::from_str("sub_assign"),
        CppOperator::MultiplicationAssignment => String::from_str("mul_assign"),
        CppOperator::DivisionAssignment => String::from_str("div_assign"),
        CppOperator::ModuloAssignment => String::from_str("mod_assign"),
        CppOperator::BitwiseAndAssignment => String::from_str("bit_and_assign"),
        CppOperator::BitwiseOrAssignment => String::from_str("bit_or_assign"),
        CppOperator::BitwiseXorAssignment => String::from_str("bit_xor_assign"),
        CppOperator::BitwiseLeftShiftAssignment => String::from_str("shl_assign"),
        CppOperator::BitwiseRightShiftAssignment => String::from_str("shr_assign"),
        CppOperator::Subscript => String::from_str("index"),
        CppOperator::Indirection => String::from_str("indirection"),
        CppOperator::AddressOf => String::from_str("address_of"),
        CppOperator::StructureDereference => String::from_str("deref_member"),
        CppOperator::PointerToMember => String::from_str("ptr_to_member"),
        CppOperator::FunctionCall => String::from_str("call"),
        CppOperator::Comma => String::from_str("comma"),
        CppOperator::New => String::from_str("new"),
        CppOperator::NewArray => String::from_str("new_array"),
        CppOperator::Delete => String::from_str("delete"),
        CppOperator::DeleteArray => String::from_str("delete_array"),
        }
    }
}

impl Clone for CppOperator {
    /// Clones the operator; the copy has the same model.
    fn clone(&self) -> (r: Self)
        ensures
            operator_model(r) == operator_model(*self),
    {
        match self {
            CppOperator::Conversion(t) => CppOperator::Conversion(t.clone()),
        CppOperator::Assignment => CppOperator::Assignment,
        CppOperator::Addition => CppOperator::Addition,
        CppOperator::Subtraction => CppOperator::Subtraction,
        CppOperator::UnaryPlus => CppOperator::UnaryPlus,
        CppOperator::UnaryMinus => CppOperator::UnaryMinus,
        CppOperator::Multiplication => CppOperator::Multiplication,
        CppOperator::Division => CppOperator::Division,
        CppOperator::Modulo => CppOperator::Modulo,
        CppOperator::PrefixIncrement => CppOperator::PrefixIncrement,
        CppOperator::PostfixIncrement => CppOperator::PostfixIncrement,
        CppOperator::PrefixDecrement => CppOperator::PrefixDecrement,
        CppOperator::PostfixDecrement => CppOperator::PostfixDecrement,
        CppOperator::EqualTo => CppOperator::EqualTo,
        CppOperator::NotEqualTo => CppOperator::NotEqualTo,
        CppOperator::GreaterThan => CppOperator::GreaterThan,
        CppOperator::LessThan => CppOperator::LessThan,
        CppOperator::GreaterThanOrEqualTo => CppOperator::GreaterThanOrEqualTo,
        CppOperator::LessThanOrEqualTo => CppOperator::LessThanOrEqualTo,
        CppOperator::LogicalNot => CppOperator::LogicalNot,
        CppOperator::LogicalAnd => CppOperator::LogicalAnd,
        CppOperator::LogicalOr => CppOperator::LogicalOr,
        CppOperator::BitwiseNot => CppOperator::BitwiseNot,
        CppOperator::BitwiseAnd => CppOperator::BitwiseAnd,
        CppOperator::BitwiseOr => CppOperator::BitwiseOr,
        CppOperator::BitwiseXor => CppOperator::BitwiseXor,
        CppOperator::BitwiseLeftShift => CppOperator::BitwiseLeftShift,
        CppOperator::BitwiseRightShift => CppOperator::BitwiseRightShift,
        CppOperator::AdditionAssignment => CppOperator::AdditionAssignment,
        CppOperator::SubtractionAssignment => CppOperator::SubtractionAssignment,
        CppOperator::MultiplicationAssignment => CppOperator::MultiplicationAssignment,
        CppOperator::DivisionAssignment => CppOperator::DivisionAssignment,
        CppOperator::ModuloAssignment => CppOperator::ModuloAssignment,
        CppOperator::BitwiseAndAssignment => CppOperator::BitwiseAndAssignment,
        CppOperator::BitwiseOrAssignment => CppOperator::BitwiseOrAssignment,
        CppOperator::BitwiseXorAssignment => CppOperator::BitwiseXorAssignment,
        CppOperator::BitwiseLeftShiftAssignment => CppOperator::BitwiseLeftShiftAssignment,
        CppOperator::BitwiseRightShiftAssignment => CppOperator::BitwiseRightShiftAssignment,
        CppOperator::Subscript => CppOperator::Subscript,
        CppOperator::Indirection => CppOperator::Indirection,
        CppOperator::AddressOf => CppOperator::AddressOf,
        CppOperator::StructureDereference => CppOperator::StructureDereference,
        CppOperator::PointerToMember => CppOperator::PointerToMember,
        CppOperator::FunctionCall => CppOperator::FunctionCall,
        CppOperator::Comma => CppOperator::Comma,
        CppOperator::New => CppOperator::New,
        CppOperator::NewArray => CppOperator::NewArray,
        CppOperator::Delete => CppOperator::Delete,
        CppOperator::DeleteArray => CppOperator::DeleteArray,
        }
    }
}


// ----------------------------------------------------------------------
// Models of memberships, arguments and whole methods.

/// Model of a generated accessor.
pub ghost struct FakeModel {
    pub accessor_type: CppFieldAccessorType,
    pub field_name: Seq<char>,
}

/// The model of a generated accessor.
pub open spec fn fake_model(f: FakeCppMethod) -> FakeModel {
    match f {
        FakeCppMethod::FieldAccessor { accessor_type, field_name } => FakeModel {
            accessor_type,
            field_name: field_name@,
        },
    }
}

/// Model of a class membership.
pub ghost struct MembershipModel {
    pub class_name: Seq<char>,
    pub class_template_arguments: Option<Seq<TypeModel>>,
    pub kind: CppMethodKind,
    pub is_virtual: bool,
    pub is_pure_virtual: bool,
    pub is_const: bool,
    pub is_static: bool,
    pub visibility: CppVisibility,
    pub is_signal: bool,
    pub is_slot: bool,
    pub fake: Option<FakeModel>,
}

/// The model of a class membership.
pub open spec fn membership_model(m: CppMethodClassMembership) -> MembershipModel {
    MembershipModel {
        class_name: class_base_model(m.class_type).name,
        class_template_arguments: class_base_model(m.class_type).template_arguments,
        kind: m.kind,
        is_virtual: m.is_virtual,
        is_pure_virtual: m.is_pure_virtual,
        is_const: m.is_const,
        is_static: m.is_static,
        visibility: m.visibility,
        is_signal: m.is_signal,
        is_slot: m.is_slot,
        fake: match m.fake {
            Some(f) => Some(fake_model(f)),
            None => None,
        },
    }
}

/// Model of one method argument.
pub ghost struct ArgModel {
    pub name: Seq<char>,
    pub argument_type: TypeModel,
    pub has_default_value: bool,
}

/// The model of one method argument.
pub open spec fn arg_model(a: CppFunctionArgument) -> ArgModel {
    ArgModel {
        name: a.name@,
        argument_type: type_model(a.argument_type),
        has_default_value: a.has_default_value,
    }
}

/// The models of the arguments of `s` from position `i` on.
pub open spec fn args_model_from(s: Seq<CppFunctionArgument>, i: int) -> Seq<ArgModel>
    decreases s.len() - i,
{
    if i < 0 || i >= s.len() {
        Seq::empty()
    } else {
        seq![arg_model(s[i])] + args_model_from(s, i + 1)
    }
}

/// The model sequence from position `i` has one element per argument.
pub proof fn lemma_args_model_from(s: Seq<CppFunctionArgument>, i: int)
    requires
        0 <= i <= s.len(),
    ensures
        args_model_from(s, i).len() == s.len() - i,
        forall|k: int| 0 <= k < s.len() - i ==> args_model_from(s, i)[k] == arg_model(s[i + k]),
    decreases s.len() - i,
{
    if i < s.len() {
        lemma_args_model_from(s, i + 1);
    }
}

/// Model of a method: every attribute that signature generation reads.
/// Documentation, source locations and declaration text are carried through
/// unmodeled.
pub ghost struct MethodModel {
    pub name: Seq<char>,
    pub class_membership: Option<MembershipModel>,
    pub operator: Option<OperatorModel>,
    pub return_type: TypeModel,
    pub arguments: Seq<ArgModel>,
    pub arguments_before_omitting: Option<Seq<ArgModel>>,
    pub allows_variadic_arguments: bool,
    pub include_file: Seq<char>,
    pub has_template_arguments: bool,
    pub is_unsafe_static_cast: bool,
}

/// The model of a method.
pub open spec fn method_model(m: CppMethod) -> MethodModel {
    MethodModel {
        name: m.name@,
        class_membership: match m.class_membership {
            Some(c) => Some(membership_model(c)),
            None => None,
        },
        operator: match m.operator {
            Some(op) => Some(operator_model(op)),
            None => None,
        },
        return_type: type_model(m.return_type),
        arguments: args_model_from(m.arguments@, 0),
        arguments_before_omitting: match m.arguments_before_omitting {
            Some(v) => Some(args_model_from(v@, 0)),
            None => None,
        },
        allows_variadic_arguments: m.allows_variadic_arguments,
        include_file: m.include_file@,
        has_template_arguments: m.template_arguments is Some,
        is_unsafe_static_cast: m.is_unsafe_static_cast,
    }
}

/// The argument types of a modeled argument list.
pub open spec fn spec_arg_types(args: Seq<ArgModel>) -> Seq<TypeModel> {
    Seq::new(args.len(), |i: int| args[i].argument_type)
}

/// Two methods have the same call signature when their argument types match
/// pointwise and they agree on variadic arguments.
pub open spec fn spec_signature_match(a: MethodModel, b: MethodModel) -> bool {
    spec_arg_types(a.arguments) == spec_arg_types(b.arguments) && a.allows_variadic_arguments
        == b.allows_variadic_arguments
}

// ----------------------------------------------------------------------
// Executable views of a method.

impl CppMethod {
    /// Returns the name of the class this method belongs to, or `None` for
    /// a free function.
    pub fn class_name(&self) -> (r: Option<&String>)
        ensures
            r is Some <==> method_model(*self).class_membership is Some,
            r matches Some(n) ==> n@ == method_model(*self).class_membership->0.class_name,
    {
        match &self.class_membership {
            Option::Some(m) => Option::Some(&m.class_type.name),
            Option::None => Option::None,
        }
    }

    /// Decides whether this method and `other` take the same argument
    /// types, in order, and agree on variadic arguments.
    pub fn argument_types_equal(&self, other: &CppMethod) -> (r: bool)
        ensures
            r == spec_signature_match(method_model(*self), method_model(*other)),
    {
        proof {
            lemma_args_model_from(self.arguments@, 0);
            lemma_args_model_from(other.arguments@, 0);
        }
        if self.allows_variadic_arguments != other.allows_variadic_arguments {
            return false;
        }
        if self.arguments.len() != other.arguments.len() {
            proof {
                assert(spec_arg_types(method_model(*self).arguments).len() != spec_arg_types(
                    method_model(*other).arguments,
                ).len());
            }
            return false;
        }
        let mut i: usize = 0;
        while i < self.arguments.len()
            invariant
                self.arguments@.len() == other.arguments@.len(),
                i <= self.arguments@.len(),
                args_model_from(self.arguments@, 0).len() == self.arguments@.len(),
                args_model_from(other.arguments@, 0).len() == other.arguments@.len(),
                forall|j: int|
                    0 <= j < i ==> type_model(self.arguments@[j].argument_type) == type_model(
                        other.arguments@[j].argument_type,
                    ),
                forall|k: int|
                    0 <= k < self.arguments@.len()
                        ==> #[trigger] args_model_from(self.arguments@, 0)[k] == arg_model(
                        self.arguments@[k],
                    ),
                forall|k: int|
                    0 <= k < other.arguments@.len()
                        ==> #[trigger] args_model_from(other.arguments@, 0)[k] == arg_model(
                        other.arguments@[k],
                    ),
            decreases self.arguments@.len() - i,
        {
            if !types_equal(&self.arguments[i].argument_type, &other.arguments[i].argument_type) {
                proof {
                    assert(spec_arg_types(method_model(*self).arguments)[i as int]
                        != spec_arg_types(method_model(*other).arguments)[i as int]);
                }
                return false;
            }
            i += 1;
        }
        proof {
            assert(spec_arg_types(method_model(*self).arguments) =~= spec_arg_types(
                method_model(*other).arguments,
            ));
        }
        true
    }
}

// ----------------------------------------------------------------------
// Cloning, preserving the model.

impl Clone for CppFunctionArgument {
    /// Clones the argument; the copy has the same model.
    fn clone(&self) -> (r: Self)
        ensures
            arg_model(r) == arg_model(*self),
    {
        CppFunctionArgument {
            name: self.name.clone(),
            argument_type: self.argument_type.clone(),
            has_default_value: self.has_default_value,
        }
    }
}

/// Clones the first `keep` arguments of `v`, keeping their order.
pub fn clone_arguments_prefix(v: &Vec<CppFunctionArgument>, keep: usize) -> (r: Vec<
    CppFunctionArgument,
>)
    requires
        keep <= v@.len(),
    ensures
        args_model_from(r@, 0) == args_model_from(v@, 0).take(keep as int),
        r@.len() == keep,
{
    proof {
        lemma_args_model_from(v@, 0);
    }
    let mut r: Vec<CppFunctionArgument> = Vec::new();
    let mut i: usize = 0;
    while i < keep
        invariant
            keep <= v@.len(),
            i <= keep,
            r@.len() == i,
            forall|j: int| 0 <= j < i ==> arg_model(r@[j]) == arg_model(v@[j]),
        decreases keep - i,
    {
        r.push(v[i].clone());
        i += 1;
    }
    proof {
        lemma_args_model_from(r@, 0);
        assert(args_model_from(r@, 0) =~= args_model_from(v@, 0).take(keep as int));
    }
    r
}

impl Clone for FakeCppMethod {
    /// Clones the accessor description; the copy has the same model.
    fn clone(&self) -> (r: Self)
        ensures
            fake_model(r) == fake_model(*self),
    {
        match self {
            FakeCppMethod::FieldAccessor { accessor_type, field_name } => {
                FakeCppMethod::FieldAccessor {
                    accessor_type: *accessor_type,
                    field_name: field_name.clone(),
                }
            },
        }
    }
}

impl Clone for CppMethodClassMembership {
    /// Clones the membership; the copy has the same model.
    fn clone(&self) -> (r: Self)
        ensures
            membership_model(r) == membership_model(*self),
    {
        CppMethodClassMembership {
            class_type: self.class_type.clone(),
            kind: self.kind,
            is_virtual: self.is_virtual,
            is_pure_virtual: self.is_pure_virtual,
            is_const: self.is_const,
            is_static: self.is_static,
            visibility: self.visibility,
            is_signal: self.is_signal,
            is_slot: self.is_slot,
            fake: match &self.fake {
                Option::Some(f) => Option::Some(f.clone()),
                Option::None => Option::None,
            },
        }
    }
}

impl Clone for CppMethodDoc {
    /// Clones the documentation; nothing is claimed of the copy.
    fn clone(&self) -> (r: Self) {
        CppMethodDoc {
            anchor: self.anchor.clone(),
            html: self.html.clone(),
            mismatched_declaration: match &self.mismatched_declaration {
                Option::Some(s) => Option::Some(s.clone()),
                Option::None => Option::None,
            },
            url: self.url.clone(),
            cross_references: clone_string_vec(&self.cross_references),
        }
    }
}

/// Clones a vector of strings, keeping contents and order.
pub fn clone_string_vec(v: &Vec<String>) -> (r: Vec<String>)
    ensures
        r@ == v@,
{
    let mut r: Vec<String> = Vec::new();
    let mut i: usize = 0;
    while i < v.len()
        invariant
            i <= v@.len(),
            r@.len() == i,
            forall|j: int| 0 <= j < i ==> r@[j] == v@[j],
        decreases v@.len() - i,
    {
        r.push(v[i].clone());
        i += 1;
    }
    proof {
        assert(r@ =~= v@);
    }
    r
}

impl Clone for CppMethod {
    /// Clones the method; the copy has the same model. The unmodeled
    /// fields (documentation, source location, declaration text, template
    /// details, inheritance chain) are copied without a stated relation.
    fn clone(&self) -> (r: Self)
        ensures
            method_model(r) == method_model(*self),
    {
        proof {
            lemma_args_model_from(self.arguments@, 0);
        }
        let arguments = clone_arguments_prefix(&self.arguments, self.arguments.len());
        proof {
            assert(args_model_from(self.arguments@, 0).take(self.arguments@.len() as int)
                =~= args_model_from(self.arguments@, 0));
        }
        CppMethod {
            name: self.name.clone(),
            class_membership: match &self.class_membership {
                Option::Some(m) => Option::Some(m.clone()),
                Option::None => Option::None,
            },
            operator: match &self.operator {
                Option::Some(op) => Option::Some(op.clone()),
                Option::None => Option::None,
            },
            return_type: self.return_type.clone(),
            arguments,
            arguments_before_omitting: match &self.arguments_before_omitting {
                Option::Some(v) => {
                    proof {
                        lemma_args_model_from(v@, 0);
                    }
                    let c = clone_arguments_prefix(v, v.len());
                    proof {
                        assert(args_model_from(v@, 0).take(v@.len() as int) =~= args_model_from(
                            v@,
                            0,
                        ));
                    }
                    Option::Some(c)
                },
                Option::None => Option::None,
            },
            allows_variadic_arguments: self.allows_variadic_arguments,
            include_file: self.include_file.clone(),
            origin_location: match &self.origin_location {
                Option::Some(l) => Option::Some(l.clone()),
                Option::None => Option::None,
            },
            template_arguments: match &self.template_arguments {
                Option::Some(d) => Option::Some(d.clone()),
                Option::None => Option::None,
            },
            template_arguments_values: match &self.template_arguments_values {
                Option::Some(v) => Option::Some(crate::cpp_type::clone_types(v)),
                Option::None => Option::None,
            },
            declaration_code: match &self.declaration_code {
                Option::Some(s) => Option::Some(s.clone()),
                Option::None => Option::None,
            },
            inheritance_chain: crate::cpp_data::clone_base_specifiers(&self.inheritance_chain),
            doc: match &self.doc {
                Option::Some(d) => Option::Some(d.clone()),
                Option::None => Option::None,
            },
            is_ffi_whitelisted: self.is_ffi_whitelisted,
            is_unsafe_static_cast: self.is_unsafe_static_cast,
        }
    }
}


/// True when some method of `v` has the model `mm`.
pub open spec fn spec_contains_method_model(v: Seq<CppMethod>, mm: MethodModel) -> bool {
    exists|i: int| 0 <= i < v.len() && method_model(#[trigger] v[i]) == mm
}

/// A method model once contained stays contained when the list grows.
pub proof fn lemma_contains_model_push(v: Seq<CppMethod>, x: CppMethod, mm: MethodModel)
    requires
        spec_contains_method_model(v, mm),
    ensures
        spec_contains_method_model(v.push(x), mm),
{
    let w = choose|w: int| 0 <= w < v.len() && method_model(#[trigger] v[w]) == mm;
    assert(method_model(v.push(x)[w]) == mm);
}

} // verus!
