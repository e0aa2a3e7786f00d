//! Build configuration for the generated C++ wrapper library.
//!
//! A `CppBuildConfig` is a list of configuration fragments, each guarded by a
//! target condition. Evaluation against a concrete target merges every
//! fragment whose condition holds: list-valued fields concatenate in order,
//! and the single-valued library type must agree across all matching
//! fragments, or evaluation fails.

use vstd::prelude::*;

use crate::target::{Condition, Target, spec_eval};

verus! {

/// Type of the C++ wrapper library (shared or static).
#[derive(Debug, Clone, Copy, PartialEq, Eq, Structural)]
pub enum CppLibraryType {
    Shared,
    Static,
}

/// Platform-specific information required to build the C++ wrapper library:
/// one configuration fragment of a `CppBuildConfig`.
pub struct CppBuildConfigData {
    /// Names of libraries handed to the linker.
    pub linked_libs: Vec<String>,
    /// Names of frameworks handed to the linker.
    pub linked_frameworks: Vec<String>,
    /// Extra command line arguments for the C++ compiler.
    pub compiler_flags: Vec<String>,
    /// Chosen type of the wrapper library, if any fragment chose one.
    pub library_type: Option<CppLibraryType>,
}

/// The error reported when two applicable configuration fragments disagree
/// on the library type.
#[derive(Debug, Clone, Copy, PartialEq, Eq, Structural)]
pub enum ConfigError {
    ConflictingLibraryTypes,
}

impl CppBuildConfigData {
    /// Constructs an empty fragment.
    pub fn new() -> (r: CppBuildConfigData)
        ensures
            r.linked_libs@ == Seq::<String>::empty(),
            r.linked_frameworks@ == Seq::<String>::empty(),
            r.compiler_flags@ == Seq::<String>::empty(),
            r.library_type is None,
    {
        CppBuildConfigData {
            linked_libs: Vec::new(),
            linked_frameworks: Vec::new(),
            compiler_flags: Vec::new(),
            library_type: None,
        }
    }

    /// Adds a library for linking (the linker's `-l` option).
    pub fn add_linked_lib(&mut self, lib: String)
        ensures
            final(self).linked_libs@ == old(self).linked_libs@.push(lib),
            final(self).linked_frameworks@ == old(self).linked_frameworks@,
            final(self).compiler_flags@ == old(self).compiler_flags@,
            final(self).library_type == old(self).library_type,
    {
        self.linked_libs.push(lib);
    }

    /// Adds a framework for linking (the linker's `-f` option).
    pub fn add_linked_framework(&mut self, lib: String)
        ensures
            final(self).linked_frameworks@ == old(self).linked_frameworks@.push(lib),
            final(self).linked_libs@ == old(self).linked_libs@,
            final(self).compiler_flags@ == old(self).compiler_flags@,
            final(self).library_type == old(self).library_type,
    {
        self.linked_frameworks.push(lib);
    }

    /// Adds a command line argument for the C++ compiler.
    pub fn add_compiler_flag(&mut self, flag: String)
        ensures
            final(self).compiler_flags@ == old(self).compiler_flags@.push(flag),
            final(self).linked_libs@ == old(self).linked_libs@,
            final(self).linked_frameworks@ == old(self).linked_frameworks@,
            final(self).library_type == old(self).library_type,
    {
        self.compiler_flags.push(flag);
    }

    /// Adds multiple compiler flags in order.
    pub fn add_compiler_flags(&mut self, flags: Vec<String>)
        ensures
            final(self).compiler_flags@ == old(self).compiler_flags@ + flags@,
            final(self).linked_libs@ == old(self).linked_libs@,
            final(self).linked_frameworks@ == old(self).linked_frameworks@,
            final(self).library_type == old(self).library_type,
    {
        append_strings(&mut self.compiler_flags, &flags);
    }

    /// Sets the library type. The wrapper is built static by default;
    /// a shared library works around some linkers' limitations.
    pub fn set_library_type(&mut self, t: CppLibraryType)
        ensures
            final(self).library_type == Some(t),
            final(self).linked_libs@ == old(self).linked_libs@,
            final(self).linked_frameworks@ == old(self).linked_frameworks@,
            final(self).compiler_flags@ == old(self).compiler_flags@,
    {
        self.library_type = Some(t);
    }

    /// Returns the names of linked libraries.
    pub fn linked_libs(&self) -> (r: &Vec<String>)
        ensures
            r@ == self.linked_libs@,
    {
        &self.linked_libs
    }

    /// Returns the names of linked frameworks.
    pub fn linked_frameworks(&self) -> (r: &Vec<String>)
        ensures
            r@ == self.linked_frameworks@,
    {
        &self.linked_frameworks
    }

    /// Returns the C++ compiler flags.
    pub fn compiler_flags(&self) -> (r: &Vec<String>)
        ensures
            r@ == self.compiler_flags@,
    {
        &self.compiler_flags
    }

    /// Returns the chosen type of the C++ wrapper library, if any.
    pub fn library_type(&self) -> (r: Option<CppLibraryType>)
        ensures
            r == self.library_type,
    {
        self.library_type
    }

    /// Appends every list of `other` to the corresponding list of `self` and
    /// merges the library types; fails exactly when both sides have chosen a
    /// library type and the choices differ. The list fields are appended even
    /// when the merge fails.
    fn add_from(&mut self, other: &CppBuildConfigData) -> (r: Result<(), ConfigError>)
        ensures
            final(self).linked_libs@ == old(self).linked_libs@ + other.linked_libs@,
            final(self).linked_frameworks@ == old(self).linked_frameworks@ + other.linked_frameworks@,
            final(self).compiler_flags@ == old(self).compiler_flags@ + other.compiler_flags@,
            r is Ok <==> !(old(self).library_type is Some && other.library_type is Some
                && old(self).library_type != other.library_type),
            r is Ok ==> final(self).library_type == (if old(self).library_type is Some {
                old(self).library_type
            } else {
                other.library_type
            }),
            r is Err ==> final(self).library_type == old(self).library_type,
    {
        append_strings(&mut self.linked_libs, &other.linked_libs);
        append_strings(&mut self.linked_frameworks, &other.linked_frameworks);
        append_strings(&mut self.compiler_flags, &other.compiler_flags);
        if self.library_type.is_some() {
            if other.library_type.is_some() && other.library_type != self.library_type {
                return Err(ConfigError::ConflictingLibraryTypes);
            }
        } else {
            self.library_type = other.library_type;
        }
        Ok(())
    }
}

/// Appends a copy of every string of `src` to `dst`, keeping the order.
fn append_strings(dst: &mut Vec<String>, src: &Vec<String>)
    ensures
        final(dst)@ == old(dst)@ + src@,
{
    let mut i: usize = 0;
    while i < src.len()
        invariant
            i <= src@.len(),
            dst@ == old(dst)@ + src@.take(i as int),
        decreases src@.len() - i,
    {
        dst.push(src[i].clone());
        assert(dst@ =~= old(dst)@ + src@.take(i + 1 as int));
        i += 1;
    }
    assert(dst@ =~= old(dst)@ + src@);
}

/// One fragment of a `CppBuildConfig`: configuration data together with the
/// condition under which it applies.
pub struct CppBuildConfigItem {
    /// When this condition holds on the target, the data applies.
    pub condition: Condition,
    /// The configuration data of this fragment.
    pub data: CppBuildConfigData,
}

/// Target-conditional build configuration for the C++ wrapper library:
/// a list of fragments, each applying only to targets that satisfy its
/// condition.
pub struct CppBuildConfig {
    /// The fragments, in the order they were added.
    pub items: Vec<CppBuildConfigItem>,
}

/// The concatenation of the given list field over every fragment of `items`
/// before position `i` whose condition holds on `t`.
/// `field` selects the list: 0 linked libraries, 1 linked frameworks,
/// 2 compiler flags.
pub open spec fn spec_merged_list(
    items: Seq<CppBuildConfigItem>,
    i: int,
    t: Target,
    field: int,
) -> Seq<String>
    decreases i,
{
    if i <= 0 || i > items.len() {
        Seq::empty()
    } else {
        let prev = spec_merged_list(items, i - 1, t, field);
        if spec_eval(items[i - 1].condition, t) {
            prev + (if field == 0 {
                items[i - 1].data.linked_libs@
            } else if field == 1 {
                items[i - 1].data.linked_frameworks@
            } else {
                items[i - 1].data.compiler_flags@
            })
        } else {
            prev
        }
    }
}

/// The merged library type over every fragment of `items` before position
/// `i` whose condition holds on `t`: the first choice wins, and a later,
/// different choice is a conflict (`Err`).
pub open spec fn spec_merged_library_type(
    items: Seq<CppBuildConfigItem>,
    i: int,
    t: Target,
) -> Result<Option<CppLibraryType>, ConfigError>
    decreases i,
{
    if i <= 0 || i > items.len() {
        Ok(None)
    } else {
        match spec_merged_library_type(items, i - 1, t) {
            Err(e) => Err(e),
            Ok(prev) => {
                if spec_eval(items[i - 1].condition, t) {
                    let cur = items[i - 1].data.library_type;
                    if prev is Some && cur is Some && prev != cur {
                        Err(ConfigError::ConflictingLibraryTypes)
                    } else if prev is Some {
                        Ok(prev)
                    } else {
                        Ok(cur)
                    }
                } else {
                    Ok(prev)
                }
            },
        }
    }
}

/// Once the library-type merge has failed on a prefix of the fragments, it
/// stays failed, with the same error, over every longer prefix.
proof fn lemma_merged_library_type_err_persists(
    items: Seq<CppBuildConfigItem>,
    i: int,
    j: int,
    t: Target,
)
    requires
        0 <= i <= j <= items.len(),
        spec_merged_library_type(items, i, t) is Err,
    ensures
        spec_merged_library_type(items, j, t) == spec_merged_library_type(items, i, t),
    decreases j - i,
{
    if i < j {
        lemma_merged_library_type_err_persists(items, i, j - 1, t);
    }
}

impl CppBuildConfig {
    /// Creates an empty configuration.
    pub fn new() -> (r: CppBuildConfig)
        ensures
            r.items@.len() == 0,
    {
        CppBuildConfig { items: Vec::new() }
    }

    /// Adds `data` guarded by `condition`.
    pub fn add(&mut self, condition: Condition, data: CppBuildConfigData)
        ensures
            final(self).items@.len() == old(self).items@.len() + 1,
            final(self).items@ == old(self).items@.push(
                CppBuildConfigItem { condition: condition, data: data },
            ),
    {
        self.items.push(CppBuildConfigItem { condition: condition, data: data });
    }

    /// Selects every fragment whose condition holds on `target`, combines
    /// them in order, and returns the result. Fails exactly when two
    /// applicable fragments choose different library types.
    pub fn eval(&self, target: &Target) -> (r: Result<CppBuildConfigData, ConfigError>)
        ensures
            r is Ok <==> spec_merged_library_type(self.items@, self.items@.len() as int, *target)
                is Ok,
            r matches Ok(d) ==> {
                let n = self.items@.len() as int;
                &&& d.linked_libs@ == spec_merged_list(self.items@, n, *target, 0)
                &&& d.linked_frameworks@ == spec_merged_list(self.items@, n, *target, 1)
                &&& d.compiler_flags@ == spec_merged_list(self.items@, n, *target, 2)
                &&& Ok::<_, ConfigError>(d.library_type) == spec_merged_library_type(
                    self.items@,
                    n,
                    *target,
                )
            },
            r matches Err(e) ==> Err::<Option<CppLibraryType>, _>(e) == spec_merged_library_type(
                self.items@,
                self.items@.len() as int,
                *target,
            ),
    {
        let mut data = CppBuildConfigData::new();
        let mut i: usize = 0;
        let n = self.items.len();
        while i < n
            invariant
                i <= n,
                n == self.items@.len(),
                data.linked_libs@ == spec_merged_list(self.items@, i as int, *target, 0),
                data.linked_frameworks@ == spec_merged_list(self.items@, i as int, *target, 1),
                data.compiler_flags@ == spec_merged_list(self.items@, i as int, *target, 2),
                Ok::<_, ConfigError>(data.library_type) == spec_merged_library_type(
                    self.items@,
                    i as int,
                    *target,
                ),
            decreases n - i,
        {
            let item = &self.items[i];
            if item.condition.eval(target) {
                match data.add_from(&item.data) {
                    Ok(()) => {},
                    Err(e) => {
                        proof {
                            lemma_merged_library_type_err_persists(
                                self.items@,
                                i + 1 as int,
                                self.items@.len() as int,
                                *target,
                            );
                        }
                        return Err(e);
                    },
                }
            }
            i += 1;
        }
        Ok(data)
    }
}

/// Machine-specific search paths needed to build the C++ wrapper library.
/// Paths are plain strings here; whoever invokes the build turns them into
/// filesystem paths. The `add_*` methods keep insertion order and skip a
/// path already present; the `set_*` methods replace a list wholesale with
/// whatever the caller provides, as an environment override does.
pub struct CppBuildPaths {
    /// Library search paths (the linker's `-L` option).
    pub lib_paths: Vec<String>,
    /// Framework search paths (the linker's `-F` option).
    pub framework_paths: Vec<String>,
    /// Include search paths (the compiler's `-I` option).
    pub include_paths: Vec<String>,
}

/// True when `s` holds no two equal strings (comparing contents).
pub open spec fn distinct_strings(s: Seq<String>) -> bool {
    forall|i: int, j: int| 0 <= i < j < s.len() ==> s[i]@ != s[j]@
}

/// True when some string of `s` has the same contents as `x`.
pub open spec fn contains_string(s: Seq<String>, x: String) -> bool {
    exists|i: int| 0 <= i < s.len() && s[i]@ == x@
}

impl CppBuildPaths {
    /// Constructs an empty configuration.
    pub fn new() -> (r: CppBuildPaths)
        ensures
            r.lib_paths@ == Seq::<String>::empty(),
            r.framework_paths@ == Seq::<String>::empty(),
            r.include_paths@ == Seq::<String>::empty(),
    {
        CppBuildPaths { lib_paths: Vec::new(), framework_paths: Vec::new(), include_paths: Vec::new() }
    }

    /// Adds `path` to the lib directories (the linker's `-L` option),
    /// unless an equal path is already present.
    pub fn add_lib_path(&mut self, path: String)
        ensures
            final(self).framework_paths@ == old(self).framework_paths@,
            final(self).include_paths@ == old(self).include_paths@,
            contains_string(old(self).lib_paths@, path) ==> final(self).lib_paths@ == old(self).lib_paths@,
            !contains_string(old(self).lib_paths@, path) ==> final(self).lib_paths@ == old(self).lib_paths@.push(path),
            distinct_strings(old(self).lib_paths@) ==> distinct_strings(final(self).lib_paths@),
    {
        if !contains_str(&self.lib_paths, &path) {
            self.lib_paths.push(path);
        }
    }

    /// Adds `path` to the framework directories (the linker's `-F` option),
    /// unless an equal path is already present.
    pub fn add_framework_path(&mut self, path: String)
        ensures
            final(self).lib_paths@ == old(self).lib_paths@,
            final(self).include_paths@ == old(self).include_paths@,
            contains_string(old(self).framework_paths@, path) ==> final(self).framework_paths@ == old(self).framework_paths@,
            !contains_string(old(self).framework_paths@, path) ==> final(self).framework_paths@ == old(self).framework_paths@.push(path),
            distinct_strings(old(self).framework_paths@) ==> distinct_strings(
                final(self).framework_paths@,
            ),
    {
        if !contains_str(&self.framework_paths, &path) {
            self.framework_paths.push(path);
        }
    }

    /// Adds `path` to the include directories (the compiler's `-I` option),
    /// unless an equal path is already present.
    pub fn add_include_path(&mut self, path: String)
        ensures
            final(self).lib_paths@ == old(self).lib_paths@,
            final(self).framework_paths@ == old(self).framework_paths@,
            contains_string(old(self).include_paths@, path) ==> final(self).include_paths@ == old(self).include_paths@,
            !contains_string(old(self).include_paths@, path) ==> final(self).include_paths@ == old(self).include_paths@.push(path),
            distinct_strings(old(self).include_paths@) ==> distinct_strings(final(self).include_paths@),
    {
        if !contains_str(&self.include_paths, &path) {
            self.include_paths.push(path);
        }
    }

    /// Replaces the lib directories wholesale, as an environment override
    /// supplied by the caller.
    pub fn set_lib_paths(&mut self, paths: Vec<String>)
        ensures
            final(self).lib_paths@ == paths@,
            final(self).framework_paths@ == old(self).framework_paths@,
            final(self).include_paths@ == old(self).include_paths@,
    {
        self.lib_paths = paths;
    }

    /// Replaces the framework directories wholesale, as an environment
    /// override supplied by the caller.
    pub fn set_framework_paths(&mut self, paths: Vec<String>)
        ensures
            final(self).framework_paths@ == paths@,
            final(self).lib_paths@ == old(self).lib_paths@,
            final(self).include_paths@ == old(self).include_paths@,
    {
        self.framework_paths = paths;
    }

    /// Replaces the include directories wholesale, as an environment
    /// override supplied by the caller.
    pub fn set_include_paths(&mut self, paths: Vec<String>)
        ensures
            final(self).include_paths@ == paths@,
            final(self).lib_paths@ == old(self).lib_paths@,
            final(self).framework_paths@ == old(self).framework_paths@,
    {
        self.include_paths = paths;
    }

    /// Returns the paths added via `add_lib_path`.
    pub fn lib_paths(&self) -> (r: &Vec<String>)
        ensures
            r@ == self.lib_paths@,
    {
        &self.lib_paths
    }

    /// Returns the paths added via `add_framework_path`.
    pub fn framework_paths(&self) -> (r: &Vec<String>)
        ensures
            r@ == self.framework_paths@,
    {
        &self.framework_paths
    }

    /// Returns the paths added via `add_include_path`.
    pub fn include_paths(&self) -> (r: &Vec<String>)
        ensures
            r@ == self.include_paths@,
    {
        &self.include_paths
    }
}

/// Decides whether some string of `v` has the same contents as `x`.
fn contains_str(v: &Vec<String>, x: &String) -> (r: bool)
    ensures
        r == contains_string(v@, *x),
{
    let mut i: usize = 0;
    while i < v.len()
        invariant
            i <= v@.len(),
            forall|j: int| 0 <= j < i ==> v@[j]@ != x@,
        decreases v@.len() - i,
    {
        if x.eq(&v[i]) {
            return true;
        }
        i += 1;
    }
    false
}

} // verus!
