//! The parsed description of a C++ library: type declarations, methods,
//! template instantiations, and the data of linked-against dependencies.

use vstd::prelude::*;

use crate::cpp_method::{CppMethod, MethodModel};
use crate::cpp_type::{CppType, TypeModel, type_model};

verus! {

/// Visibility of a C++ entity. Entities that cannot have a visibility, like
/// free functions, default to `Public`.
#[derive(Debug, Clone, Copy, PartialEq, Eq, Structural)]
pub enum CppVisibility {
    Public,
    Protected,
    Private,
}

/// One item of a C++ enum declaration.
#[derive(Debug)]
pub struct CppEnumValue {
    /// The item's identifier.
    pub name: String,
    /// The item's value.
    pub value: i64,
    /// Documentation for the item.
    pub doc: Option<String>,
}

/// A member field of a C++ class declaration.
#[derive(Debug)]
pub struct CppClassField {
    /// The field's identifier.
    pub name: String,
    /// The field's type.
    pub field_type: CppType,
    /// The field's visibility.
    pub visibility: CppVisibility,
    /// Size of the field's type in bytes, when known.
    pub size: Option<i32>,
}

/// A `using` directive inside a class definition, pulling in a method of a
/// base class.
#[derive(Debug)]
pub struct CppClassUsingDirective {
    /// Name of the base class.
    pub class_name: String,
    /// Name of the method.
    pub method_name: String,
}

/// One item of the base class list of a class declaration.
#[derive(Debug)]
pub struct CppBaseSpecifier {
    /// The base class type; may include template arguments.
    pub base_type: CppType,
    /// True for a virtual base.
    pub is_virtual: bool,
    /// Visibility of the base (public, protected or private).
    pub visibility: CppVisibility,
}

/// Names and nesting of the template arguments of a declaration.
#[derive(Debug)]
pub struct TemplateArgumentsDeclaration {
    /// How many template types the declaration is nested into.
    pub nested_level: i32,
    /// Names of the template arguments; only their count matters.
    pub names: Vec<String>,
}

/// What a C++ type declaration declares.
#[derive(Debug)]
pub enum CppTypeKind {
    /// An enum declaration.
    Enum {
        /// The enum's items.
        values: Vec<CppEnumValue>,
    },
    /// A class declaration.
    Class {
        /// The class types this class derives from.
        bases: Vec<CppBaseSpecifier>,
        /// The class's fields.
        fields: Vec<CppClassField>,
        /// The class's template arguments, when it is a template class.
        template_arguments: Option<TemplateArgumentsDeclaration>,
        /// The class's `using` directives.
        using_directives: Vec<CppClassUsingDirective>,
    },
}

/// Location of a declaration in the header files.
#[derive(Debug)]
pub struct CppOriginLocation {
    /// Full path of the include file.
    pub include_file_path: String,
    /// Line within the file.
    pub line: u32,
    /// Column within the line.
    pub column: u32,
}

/// Documentation attached to a type.
#[derive(Debug)]
pub struct CppTypeDoc {
    /// The content.
    pub html: String,
    /// Absolute URL of the documentation page.
    pub url: String,
    /// Absolute URLs encountered in the content.
    pub cross_references: Vec<String>,
}

/// One C++ type declaration.
#[derive(Debug)]
pub struct CppTypeData {
    /// The type's identifier, with namespaces and nested classes separated
    /// by `::`.
    pub name: String,
    /// File name of the include file, without its path.
    pub include_file: String,
    /// Exact location of the declaration.
    pub origin_location: CppOriginLocation,
    /// What the declaration declares.
    pub kind: CppTypeKind,
    /// Documentation for the type.
    pub doc: Option<CppTypeDoc>,
}

/// One instantiation of a template class.
#[derive(Debug)]
pub struct CppTemplateInstantiation {
    /// The types used as template arguments in this instantiation.
    pub template_arguments: Vec<CppType>,
}

/// All encountered instantiations of one template class.
#[derive(Debug)]
pub struct CppTemplateInstantiations {
    /// The template class's name.
    pub class_name: String,
    /// The instantiations.
    pub instantiations: Vec<CppTemplateInstantiation>,
}

/// The parser's whole output for one library.
#[derive(Debug)]
pub struct CppData {
    /// The type declarations that were found.
    pub types: Vec<CppTypeData>,
    /// The methods that were found.
    pub methods: Vec<CppMethod>,
    /// The template instantiations that were found, grouped per template
    /// class.
    pub template_instantiations: Vec<CppTemplateInstantiations>,
    /// The argument-type lists used by signals, including variants with
    /// omitted arguments.
    pub signal_argument_types: Vec<Vec<CppType>>,
    /// The same data for every linked-against dependency.
    pub dependencies: Vec<CppData>,
}

// ----------------------------------------------------------------------
// Models.

/// Model of a base specifier.
pub ghost struct BaseSpecifierModel {
    pub base_type: TypeModel,
    pub is_virtual: bool,
    pub visibility: CppVisibility,
}

/// The model of a base specifier.
pub open spec fn base_specifier_model(b: CppBaseSpecifier) -> BaseSpecifierModel {
    BaseSpecifierModel {
        base_type: type_model(b.base_type),
        is_virtual: b.is_virtual,
        visibility: b.visibility,
    }
}

/// The models of the base specifiers of `s` from position `i` on.
pub open spec fn base_specifiers_from(s: Seq<CppBaseSpecifier>, i: int) -> Seq<BaseSpecifierModel>
    decreases s.len() - i,
{
    if i < 0 || i >= s.len() {
        Seq::empty()
    } else {
        seq![base_specifier_model(s[i])] + base_specifiers_from(s, i + 1)
    }
}

/// The model sequence from position `i` has one element per specifier.
pub proof fn lemma_base_specifiers_from(s: Seq<CppBaseSpecifier>, i: int)
    requires
        0 <= i <= s.len(),
    ensures
        base_specifiers_from(s, i).len() == s.len() - i,
        forall|k: int|
            0 <= k < s.len() - i ==> base_specifiers_from(s, i)[k] == base_specifier_model(
                s[i + k],
            ),
    decreases s.len() - i,
{
    if i < s.len() {
        lemma_base_specifiers_from(s, i + 1);
    }
}

/// Model of a type declaration: the attributes the generator reads. The
/// fields, enum items and documentation play no part in signature
/// generation and are carried through unmodeled.
pub ghost struct TypeDataModel {
    pub name: Seq<char>,
    pub include_file: Seq<char>,
    pub is_class: bool,
    pub bases: Seq<BaseSpecifierModel>,
    pub declares_template_arguments: bool,
}

/// The model of a type declaration.
pub open spec fn type_data_model(t: CppTypeData) -> TypeDataModel {
    TypeDataModel {
        name: t.name@,
        include_file: t.include_file@,
        is_class: t.kind is Class,
        bases: match t.kind {
            CppTypeKind::Class { bases, .. } => base_specifiers_from(bases@, 0),
            CppTypeKind::Enum { .. } => Seq::empty(),
        },
        declares_template_arguments: match t.kind {
            CppTypeKind::Class { template_arguments, .. } => template_arguments is Some,
            CppTypeKind::Enum { .. } => false,
        },
    }
}

/// A class is a template class when its own declaration carries template
/// arguments.
pub open spec fn spec_is_template_class(types: Seq<CppTypeData>, name: Seq<char>) -> bool {
    exists|i: int|
        0 <= i < types.len() && #[trigger] type_data_model(types[i]).name == name
            && type_data_model(types[i]).is_class && type_data_model(
            types[i],
        ).declares_template_arguments
}

/// The position of the first type declaration of `types`, from position
/// `i` on, whose name is `name`; `-1` when there is none.
pub open spec fn spec_find_type(types: Seq<CppTypeData>, name: Seq<char>, i: int) -> int
    decreases types.len() - i,
{
    if i < 0 || i >= types.len() {
        -1int
    } else if type_data_model(types[i]).name == name {
        i
    } else {
        spec_find_type(types, name, i + 1)
    }
}

/// Where it is not `-1`, the found position carries the name and no earlier
/// position does.
pub proof fn lemma_spec_find_type(types: Seq<CppTypeData>, name: Seq<char>, i: int)
    requires
        0 <= i <= types.len(),
    ensures
        spec_find_type(types, name, i) == -1 ==> forall|j: int|
            i <= j < types.len() ==> #[trigger] type_data_model(types[j]).name != name,
        spec_find_type(types, name, i) != -1 ==> i <= spec_find_type(types, name, i)
            < types.len() && type_data_model(types[spec_find_type(types, name, i)]).name == name,
    decreases types.len() - i,
{
    if i < types.len() {
        lemma_spec_find_type(types, name, i + 1);
    }
}

impl CppData {
    /// Decides whether `name` names a template class declared in this data:
    /// a class whose own declaration carries template arguments.
    pub fn is_template_class(&self, name: &String) -> (r: bool)
        ensures
            r == spec_is_template_class(self.types@, name@),
    {
        let mut i: usize = 0;
        while i < self.types.len()
            invariant
                i <= self.types@.len(),
                forall|j: int|
                    0 <= j < i ==> !(#[trigger] type_data_model(self.types@[j]).name == name@
                        && type_data_model(self.types@[j]).is_class && type_data_model(
                        self.types@[j],
                    ).declares_template_arguments),
            decreases self.types@.len() - i,
        {
            let t = &self.types[i];
            if t.name.eq(name) {
                match &t.kind {
                    CppTypeKind::Class { template_arguments: Option::Some(_), .. } => {
                        proof {
                            assert(type_data_model(self.types@[i as int]).name == name@
                                && type_data_model(self.types@[i as int]).is_class
                                && type_data_model(
                                self.types@[i as int],
                            ).declares_template_arguments);
                        }
                        return true;
                    },
                    _ => {},
                }
            }
            i += 1;
        }
        false
    }

    /// Finds the position of the type declaration named `name`, if any.
    pub fn find_type_index(&self, name: &String) -> (r: Option<usize>)
        ensures
            r matches Some(i) ==> i < self.types@.len() && type_data_model(self.types@[i as int])
                .name == name@ && i as int == spec_find_type(self.types@, name@, 0),
            r is None ==> spec_find_type(self.types@, name@, 0) == -1 && (forall|j: int|
                0 <= j < self.types@.len() ==> #[trigger] type_data_model(self.types@[j]).name
                    != name@),
    {
        let mut i: usize = 0;
        while i < self.types.len()
            invariant
                i <= self.types@.len(),
                forall|j: int|
                    0 <= j < i ==> #[trigger] type_data_model(self.types@[j]).name != name@,
                spec_find_type(self.types@, name@, 0) == spec_find_type(
                    self.types@,
                    name@,
                    i as int,
                ),
            decreases self.types@.len() - i,
        {
            if self.types[i].name.eq(name) {
                return Some(i);
            }
            i += 1;
        }
        None
    }
}


// ----------------------------------------------------------------------
// Cloning.

impl Clone for CppBaseSpecifier {
    /// Clones the base specifier; the copy has the same model.
    fn clone(&self) -> (r: Self)
        ensures
            base_specifier_model(r) == base_specifier_model(*self),
    {
        CppBaseSpecifier {
            base_type: self.base_type.clone(),
            is_virtual: self.is_virtual,
            visibility: self.visibility,
        }
    }
}

/// Clones a vector of base specifiers, keeping their order and models.
pub fn clone_base_specifiers(v: &Vec<CppBaseSpecifier>) -> (r: Vec<CppBaseSpecifier>)
    ensures
        r@.len() == v@.len(),
        forall|j: int|
            0 <= j < v@.len() ==> base_specifier_model(r@[j]) == base_specifier_model(v@[j]),
{
    let mut r: Vec<CppBaseSpecifier> = Vec::new();
    let mut i: usize = 0;
    while i < v.len()
        invariant
            i <= v@.len(),
            r@.len() == i,
            forall|j: int|
                0 <= j < i ==> base_specifier_model(r@[j]) == base_specifier_model(v@[j]),
        decreases v@.len() - i,
    {
        r.push(v[i].clone());
        i += 1;
    }
    r
}

impl Clone for CppOriginLocation {
    /// Clones the location; nothing is claimed of the copy.
    fn clone(&self) -> (r: Self) {
        CppOriginLocation {
            include_file_path: self.include_file_path.clone(),
            line: self.line,
            column: self.column,
        }
    }
}

impl Clone for TemplateArgumentsDeclaration {
    /// Clones the declaration; nothing is claimed of the copy.
    fn clone(&self) -> (r: Self) {
        TemplateArgumentsDeclaration {
            nested_level: self.nested_level,
            names: crate::cpp_method::clone_string_vec(&self.names),
        }
    }
}


// ----------------------------------------------------------------------
// Partition by declaring header.

/// True when some bucket of `bs` holds a method with model `mm`.
pub open spec fn spec_in_buckets(bs: Seq<(String, CppData)>, mm: MethodModel) -> bool {
    exists|a: int|
        0 <= a < bs.len() && crate::cpp_method::spec_contains_method_model(
            (#[trigger] bs[a]).1.methods@,
            mm,
        )
}

impl CppData {
    /// Partitions the data by declaring header: one bucket per include file
    /// found on a method or type, holding copies of exactly the methods and
    /// types declared there. Bucket keys are distinct and appear in order
    /// of first appearance; the aggregate fields that are not per-header
    /// (template instantiations, signal types, dependencies) stay with the
    /// whole data and the buckets carry none.
    pub fn split_by_headers(&self) -> (r: Vec<(String, CppData)>)
        ensures
            forall|a: int, b: int| 0 <= a < b < r@.len() ==> (#[trigger] r@[a]).0@ != (
            #[trigger] r@[b]).0@,
            forall|a: int|
                0 <= a < r@.len() ==> forall|k: int|
                    0 <= k < (#[trigger] r@[a]).1.methods@.len()
                        ==> crate::cpp_method::method_model(
                        #[trigger] r@[a].1.methods@[k],
                    ).include_file == r@[a].0@,
            forall|j: int|
                0 <= j < self.methods@.len() ==> spec_in_buckets(
                    r@,
                    crate::cpp_method::method_model(#[trigger] self.methods@[j]),
                ),
            forall|a: int|
                0 <= a < r@.len() ==> forall|k: int|
                    0 <= k < (#[trigger] r@[a]).1.methods@.len() ==> exists|j: int|
                        0 <= j < self.methods@.len() && crate::cpp_method::method_model(
                            #[trigger] r@[a].1.methods@[k],
                        ) == crate::cpp_method::method_model(self.methods@[j]),
            forall|a: int|
                0 <= a < r@.len() ==> forall|k: int|
                    0 <= k < (#[trigger] r@[a]).1.types@.len() ==> type_data_model(
                        #[trigger] r@[a].1.types@[k],
                    ).include_file == r@[a].0@,
    {
        let mut buckets: Vec<(String, CppData)> = Vec::new();
        let mut mi: usize = 0;
        while mi < self.methods.len()
            invariant
                mi <= self.methods@.len(),
                forall|a: int, b: int| 0 <= a < b < buckets@.len() ==> (#[trigger] buckets@[a]).0@
                    != (#[trigger] buckets@[b]).0@,
                forall|a: int|
                    0 <= a < buckets@.len() ==> forall|k: int|
                        0 <= k < (#[trigger] buckets@[a]).1.methods@.len()
                            ==> crate::cpp_method::method_model(
                            #[trigger] buckets@[a].1.methods@[k],
                        ).include_file == buckets@[a].0@,
                forall|j: int|
                    0 <= j < mi ==> spec_in_buckets(
                        buckets@,
                        crate::cpp_method::method_model(#[trigger] self.methods@[j]),
                    ),
                forall|a: int|
                    0 <= a < buckets@.len() ==> forall|k: int|
                        0 <= k < (#[trigger] buckets@[a]).1.methods@.len() ==> exists|j: int|
                            0 <= j < self.methods@.len() && crate::cpp_method::method_model(
                                #[trigger] buckets@[a].1.methods@[k],
                            ) == crate::cpp_method::method_model(self.methods@[j]),
                forall|a: int|
                    0 <= a < buckets@.len() ==> forall|k: int|
                        0 <= k < (#[trigger] buckets@[a]).1.types@.len() ==> type_data_model(
                            #[trigger] buckets@[a].1.types@[k],
                        ).include_file == buckets@[a].0@,
            decreases self.methods@.len() - mi,
        {
            let m = &self.methods[mi];
            let ghost b0 = buckets@;
            let mut pos: usize = 0;
            while pos < buckets.len() && !buckets[pos].0.eq(&m.include_file)
                invariant
                    pos <= buckets@.len(),
                    buckets@ == b0,
                    forall|a: int| 0 <= a < pos ==> (#[trigger] buckets@[a]).0@ != m.include_file@,
                decreases buckets@.len() - pos,
            {
                pos += 1;
            }
            if pos < buckets.len() {
                let mut entry = buckets.remove(pos);
                entry.1.methods.push(m.clone());
                buckets.insert(pos, entry);
                proof {
                    assert forall|j: int|
                        0 <= j < mi + 1 implies spec_in_buckets(
                        buckets@,
                        crate::cpp_method::method_model(#[trigger] self.methods@[j]),
                    ) by {
                        let mm = crate::cpp_method::method_model(self.methods@[j]);
                        if j == mi {
                            assert(crate::cpp_method::method_model(
                                buckets@[pos as int].1.methods@.last(),
                            ) == mm);
                        } else {
                            let a = choose|a: int|
                                0 <= a < b0.len()
                                    && crate::cpp_method::spec_contains_method_model(
                                    (#[trigger] b0[a]).1.methods@,
                                    mm,
                                );
                            if a == pos {
                                crate::cpp_method::lemma_contains_model_push(
                                    b0[a].1.methods@,
                                    buckets@[pos as int].1.methods@.last(),
                                    mm,
                                );
                                assert(buckets@[pos as int].1.methods@ =~= b0[a].1.methods@.push(
                                    buckets@[pos as int].1.methods@.last(),
                                ));
                            } else {
                                assert(buckets@[a] == b0[a]);
                            }
                        }
                    }
                }
            } else {
                let fresh = CppData {
                    types: Vec::new(),
                    methods: Vec::new(),
                    template_instantiations: Vec::new(),
                    signal_argument_types: Vec::new(),
                    dependencies: Vec::new(),
                };
                let mut entry = (m.include_file.clone(), fresh);
                entry.1.methods.push(m.clone());
                buckets.push(entry);
                proof {
                    assert forall|j: int|
                        0 <= j < mi + 1 implies spec_in_buckets(
                        buckets@,
                        crate::cpp_method::method_model(#[trigger] self.methods@[j]),
                    ) by {
                        let mm = crate::cpp_method::method_model(self.methods@[j]);
                        if j == mi {
                            let a = buckets@.len() - 1;
                            assert(crate::cpp_method::method_model(
                                buckets@[a].1.methods@[0],
                            ) == mm);
                        } else {
                            let a = choose|a: int|
                                0 <= a < b0.len()
                                    && crate::cpp_method::spec_contains_method_model(
                                    (#[trigger] b0[a]).1.methods@,
                                    mm,
                                );
                            assert(buckets@[a] == b0[a]);
                        }
                    }
                }
            }
            mi += 1;
        }
        let ghost after_methods = buckets@;
        let mut ti: usize = 0;
        while ti < self.types.len()
            invariant
                ti <= self.types@.len(),
                buckets@.len() >= after_methods.len(),
                forall|a: int|
                    0 <= a < after_methods.len() ==> (#[trigger] buckets@[a]).0
                        == after_methods[a].0 && buckets@[a].1.methods
                        == after_methods[a].1.methods,
                forall|a: int, b: int| 0 <= a < b < buckets@.len() ==> (#[trigger] buckets@[a]).0@
                    != (#[trigger] buckets@[b]).0@,
                forall|a: int|
                    0 <= a < buckets@.len() ==> forall|k: int|
                        0 <= k < (#[trigger] buckets@[a]).1.methods@.len()
                            ==> crate::cpp_method::method_model(
                            #[trigger] buckets@[a].1.methods@[k],
                        ).include_file == buckets@[a].0@,
                forall|j: int|
                    0 <= j < self.methods@.len() ==> spec_in_buckets(
                        buckets@,
                        crate::cpp_method::method_model(#[trigger] self.methods@[j]),
                    ),
                forall|a: int|
                    0 <= a < buckets@.len() ==> forall|k: int|
                        0 <= k < (#[trigger] buckets@[a]).1.methods@.len() ==> exists|j: int|
                            0 <= j < self.methods@.len() && crate::cpp_method::method_model(
                                #[trigger] buckets@[a].1.methods@[k],
                            ) == crate::cpp_method::method_model(self.methods@[j]),
                forall|a: int|
                    0 <= a < buckets@.len() ==> forall|k: int|
                        0 <= k < (#[trigger] buckets@[a]).1.types@.len() ==> type_data_model(
                            #[trigger] buckets@[a].1.types@[k],
                        ).include_file == buckets@[a].0@,
            decreases self.types@.len() - ti,
        {
            let t = &self.types[ti];
            let ghost b0 = buckets@;
            let mut pos: usize = 0;
            while pos < buckets.len() && !buckets[pos].0.eq(&t.include_file)
                invariant
                    pos <= buckets@.len(),
                    buckets@ == b0,
                    forall|a: int| 0 <= a < pos ==> (#[trigger] buckets@[a]).0@ != t.include_file@,
                decreases buckets@.len() - pos,
            {
                pos += 1;
            }
            if pos < buckets.len() {
                let mut entry = buckets.remove(pos);
                entry.1.types.push(clone_type_data(t));
                buckets.insert(pos, entry);
                proof {
                    assert(buckets@ =~= b0.update(pos as int, buckets@[pos as int]));
                    assert forall|j: int|
                        0 <= j < self.methods@.len() implies spec_in_buckets(
                        buckets@,
                        crate::cpp_method::method_model(#[trigger] self.methods@[j]),
                    ) by {
                        let mm = crate::cpp_method::method_model(self.methods@[j]);
                        let a = choose|a: int|
                            0 <= a < b0.len() && crate::cpp_method::spec_contains_method_model(
                                (#[trigger] b0[a]).1.methods@,
                                mm,
                            );
                        assert(buckets@[a].1.methods == b0[a].1.methods);
                    }
                }
            } else {
                let fresh = CppData {
                    types: Vec::new(),
                    methods: Vec::new(),
                    template_instantiations: Vec::new(),
                    signal_argument_types: Vec::new(),
                    dependencies: Vec::new(),
                };
                let mut entry = (t.include_file.clone(), fresh);
                entry.1.types.push(clone_type_data(t));
                buckets.push(entry);
                proof {
                    assert forall|j: int|
                        0 <= j < self.methods@.len() implies spec_in_buckets(
                        buckets@,
                        crate::cpp_method::method_model(#[trigger] self.methods@[j]),
                    ) by {
                        let mm = crate::cpp_method::method_model(self.methods@[j]);
                        let a = choose|a: int|
                            0 <= a < b0.len() && crate::cpp_method::spec_contains_method_model(
                                (#[trigger] b0[a]).1.methods@,
                                mm,
                            );
                        assert(buckets@[a] == b0[a]);
                    }
                }
            }
            ti += 1;
        }
        buckets
    }
}

/// Clones a type declaration; the copy has the same model. The unmodeled
/// parts (fields, enum items, documentation, location) are copied without a
/// stated relation.
pub fn clone_type_data(t: &CppTypeData) -> (r: CppTypeData)
    ensures
        type_data_model(r) == type_data_model(*t),
{
    let kind = match &t.kind {
        CppTypeKind::Enum { values } => CppTypeKind::Enum { values: clone_enum_values(values) },
        CppTypeKind::Class { bases, fields, template_arguments, using_directives } => {
            let cloned_bases = clone_base_specifiers(bases);
            proof {
                lemma_base_specifiers_from(bases@, 0);
                lemma_base_specifiers_from(cloned_bases@, 0);
                assert(base_specifiers_from(cloned_bases@, 0) =~= base_specifiers_from(bases@, 0));
            }
            CppTypeKind::Class {
                bases: cloned_bases,
                fields: clone_class_fields(fields),
                template_arguments: match template_arguments {
                    Option::Some(d) => Option::Some(d.clone()),
                    Option::None => Option::None,
                },
                using_directives: clone_using_directives(using_directives),
            }
        },
    };
    CppTypeData {
        name: t.name.clone(),
        include_file: t.include_file.clone(),
        origin_location: t.origin_location.clone(),
        kind,
        doc: match &t.doc {
            Option::Some(d) => Option::Some(
                CppTypeDoc {
                    html: d.html.clone(),
                    url: d.url.clone(),
                    cross_references: crate::cpp_method::clone_string_vec(&d.cross_references),
                },
            ),
            Option::None => Option::None,
        },
    }
}

/// Clones the items of an enum declaration; nothing is claimed of the copy.
fn clone_enum_values(v: &Vec<CppEnumValue>) -> (r: Vec<CppEnumValue>)
{
    let mut r: Vec<CppEnumValue> = Vec::new();
    let mut i: usize = 0;
    while i < v.len()
        decreases v@.len() - i,
    {
        let e = &v[i];
        r.push(
            CppEnumValue {
                name: e.name.clone(),
                value: e.value,
                doc: match &e.doc {
                    Option::Some(s) => Option::Some(s.clone()),
                    Option::None => Option::None,
                },
            },
        );
        i += 1;
    }
    r
}

/// Clones the fields of a class declaration; nothing is claimed of the
/// copy.
fn clone_class_fields(v: &Vec<CppClassField>) -> (r: Vec<CppClassField>)
{
    let mut r: Vec<CppClassField> = Vec::new();
    let mut i: usize = 0;
    while i < v.len()
        decreases v@.len() - i,
    {
        let f = &v[i];
        r.push(
            CppClassField {
                name: f.name.clone(),
                field_type: f.field_type.clone(),
                visibility: f.visibility,
                size: f.size,
            },
        );
        i += 1;
    }
    r
}

/// Clones the `using` directives of a class declaration; nothing is
/// claimed of the copy.
fn clone_using_directives(v: &Vec<CppClassUsingDirective>) -> (r: Vec<CppClassUsingDirective>)
{
    let mut r: Vec<CppClassUsingDirective> = Vec::new();
    let mut i: usize = 0;
    while i < v.len()
        decreases v@.len() - i,
    {
        let u = &v[i];
        r.push(
            CppClassUsingDirective {
                class_name: u.class_name.clone(),
                method_name: u.method_name.clone(),
            },
        );
        i += 1;
    }
    r
}

} // verus!
