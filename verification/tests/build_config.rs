use cpp_bindgen::cpp_build_config::{
    ConfigError, CppBuildConfig, CppBuildConfigData, CppBuildPaths, CppLibraryType,
};
use cpp_bindgen::target::{Condition, Target};

fn linux_x64() -> Target {
    Target {
        arch: "x86_64".to_string(),
        os: "linux".to_string(),
        family: "unix".to_string(),
        env: "gnu".to_string(),
        pointer_width: 64,
    }
}

#[test]
fn conditions_evaluate_against_target() {
    let t = linux_x64();
    assert!(Condition::Os("linux".to_string()).eval(&t));
    assert!(!Condition::Os("windows".to_string()).eval(&t));
    assert!(Condition::PointerWidth(64).eval(&t));
    let both = Condition::And(vec![
        Condition::Arch("x86_64".to_string()),
        Condition::Family("unix".to_string()),
    ]);
    assert!(both.eval(&t));
    let either = Condition::Or(vec![
        Condition::Os("windows".to_string()),
        Condition::Env("gnu".to_string()),
    ]);
    assert!(either.eval(&t));
    assert!(!Condition::Not(Box::new(Condition::True)).eval(&t));
    assert!(Condition::True.eval(&t));
    assert!(!Condition::False.eval(&t));
}

#[test]
fn eval_merges_matching_fragments_in_order() {
    let mut config = CppBuildConfig::new();
    let mut common = CppBuildConfigData::new();
    common.add_linked_lib("z".to_string());
    common.add_compiler_flag("-fPIC".to_string());
    config.add(Condition::True, common);
    let mut unix_only = CppBuildConfigData::new();
    unix_only.add_linked_lib("pthread".to_string());
    unix_only.set_library_type(CppLibraryType::Shared);
    config.add(Condition::Family("unix".to_string()), unix_only);
    let mut windows_only = CppBuildConfigData::new();
    windows_only.add_linked_lib("user32".to_string());
    config.add(Condition::Os("windows".to_string()), windows_only);

    let merged = config.eval(&linux_x64()).expect("merge");
    assert_eq!(merged.linked_libs(), &["z".to_string(), "pthread".to_string()]);
    assert_eq!(merged.compiler_flags(), &["-fPIC".to_string()]);
    assert!(merged.linked_frameworks().is_empty());
    assert_eq!(merged.library_type(), Some(CppLibraryType::Shared));
}

#[test]
fn conflicting_library_types_fail_evaluation() {
    let mut config = CppBuildConfig::new();
    let mut first = CppBuildConfigData::new();
    first.set_library_type(CppLibraryType::Shared);
    config.add(Condition::True, first);
    let mut second = CppBuildConfigData::new();
    second.set_library_type(CppLibraryType::Static);
    config.add(Condition::True, second);
    let r = config.eval(&linux_x64());
    assert!(matches!(r, Err(ConfigError::ConflictingLibraryTypes)));
}

#[test]
fn agreeing_library_types_merge() {
    let mut config = CppBuildConfig::new();
    let mut first = CppBuildConfigData::new();
    first.set_library_type(CppLibraryType::Static);
    config.add(Condition::True, first);
    let mut second = CppBuildConfigData::new();
    second.set_library_type(CppLibraryType::Static);
    config.add(Condition::True, second);
    let merged = config.eval(&linux_x64()).expect("merge");
    assert_eq!(merged.library_type(), Some(CppLibraryType::Static));
}

#[test]
fn non_matching_fragments_are_ignored() {
    let mut config = CppBuildConfig::new();
    let mut fragment = CppBuildConfigData::new();
    fragment.add_linked_framework("AppKit".to_string());
    config.add(Condition::Os("macos".to_string()), fragment);
    let merged = config.eval(&linux_x64()).expect("merge");
    assert!(merged.linked_frameworks().is_empty());
    assert_eq!(merged.library_type(), None);
}

#[test]
fn compiler_flags_append_in_order() {
    let mut data = CppBuildConfigData::new();
    data.add_compiler_flag("-O2".to_string());
    data.add_compiler_flags(vec!["-g".to_string(), "-Wall".to_string()]);
    assert_eq!(
        data.compiler_flags(),
        &["-O2".to_string(), "-g".to_string(), "-Wall".to_string()]
    );
}

#[test]
fn build_paths_keep_insertion_order_without_duplicates() {
    let mut paths = CppBuildPaths::new();
    paths.add_lib_path("/usr/lib".to_string());
    paths.add_lib_path("/opt/lib".to_string());
    paths.add_lib_path("/usr/lib".to_string());
    assert_eq!(paths.lib_paths(), &["/usr/lib".to_string(), "/opt/lib".to_string()]);
    paths.add_framework_path("/Library/Frameworks".to_string());
    paths.add_framework_path("/Library/Frameworks".to_string());
    assert_eq!(paths.framework_paths(), &["/Library/Frameworks".to_string()]);
    paths.add_include_path("/usr/include".to_string());
    assert_eq!(paths.include_paths(), &["/usr/include".to_string()]);
}

#[test]
fn build_paths_environment_overrides_replace_wholesale() {
    let mut paths = CppBuildPaths::new();
    paths.add_lib_path("/usr/lib".to_string());
    paths.set_lib_paths(vec!["/custom/lib".to_string(), "/other/lib".to_string()]);
    assert_eq!(paths.lib_paths(), &["/custom/lib".to_string(), "/other/lib".to_string()]);
    paths.set_framework_paths(vec!["/fw".to_string()]);
    paths.set_include_paths(vec!["/inc".to_string()]);
    assert_eq!(paths.framework_paths(), &["/fw".to_string()]);
    assert_eq!(paths.include_paths(), &["/inc".to_string()]);
}
