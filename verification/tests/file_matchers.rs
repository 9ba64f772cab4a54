use clearcheck::matchers::file::{
    be_a_directory, be_a_file, be_absolute, be_readonly, be_relative, be_writable, be_zero_sized,
    contain_all_file_names, contain_any_file_names, contain_file_name, have_extension,
    FileAttributes,
};
use clearcheck::matchers::Matcher;

#[test]
fn should_be_absolute() {
    let path = String::from("/etc/conf.d");
    let matcher = be_absolute();
    assert!(matcher.test(&path).passed());
}

#[test]
fn should_be_relative() {
    let path = String::from(".");
    let matcher = be_relative();
    assert!(matcher.test(&path).passed());
}

#[test]
fn should_have_extension() {
    let path = String::from("/etc/sample.txt");
    let matcher = have_extension("txt");
    assert!(matcher.test(&path).passed());
}

#[test]
fn should_not_have_a_different_extension() {
    let path = String::from("/etc/sample.txt");
    let matcher = have_extension("zip");
    assert!(!matcher.test(&path).passed());
}

fn attributes_of_a_file(size: u64, readonly: bool) -> FileAttributes {
    FileAttributes {
        exists: true,
        is_file: true,
        is_directory: false,
        is_symbolic_link: false,
        size,
        readonly,
    }
}

#[test]
fn file_type_matcher_decides_from_observed_attributes() {
    let attributes = attributes_of_a_file(120, false);
    assert!(be_a_file().evaluate("sample.txt", &attributes).passed());
    assert!(!be_a_directory().evaluate("sample.txt", &attributes).passed());
    assert!(!be_zero_sized().evaluate("sample.txt", &attributes).passed());
    assert!(be_writable().evaluate("sample.txt", &attributes).passed());
    assert!(!be_readonly().evaluate("sample.txt", &attributes).passed());
}

#[test]
fn zero_sized_holds_only_of_an_existing_empty_file() {
    let empty = attributes_of_a_file(0, false);
    assert!(be_zero_sized().evaluate("empty.txt", &empty).passed());

    let missing = FileAttributes {
        exists: false,
        is_file: false,
        is_directory: false,
        is_symbolic_link: false,
        size: 0,
        readonly: false,
    };
    assert!(!be_zero_sized().evaluate("missing.txt", &missing).passed());
    assert!(!be_writable().evaluate("missing.txt", &missing).passed());
}

#[test]
fn readonly_holds_of_a_file_with_the_readonly_flag() {
    let attributes = attributes_of_a_file(10, true);
    assert!(be_readonly().evaluate("sample.txt", &attributes).passed());
    assert!(!be_writable().evaluate("sample.txt", &attributes).passed());
}

#[test]
fn tree_matcher_decides_from_walked_names() {
    let names = vec![String::from("junit.txt"), String::from("assert4rs.txt")];
    assert!(contain_file_name("junit.txt").evaluate(".", &names).passed());
    assert!(!contain_file_name("catch.txt").evaluate(".", &names).passed());
    assert!(contain_all_file_names(&["junit.txt", "assert4rs.txt"]).evaluate(".", &names).passed());
    assert!(!contain_all_file_names(&["junit.txt", "catch.txt"]).evaluate(".", &names).passed());
    assert!(contain_any_file_names(&["junit.txt", "catch.txt"]).evaluate(".", &names).passed());
    assert!(!contain_any_file_names(&["catch.txt", "catch.txt"]).evaluate(".", &names).passed());
}

#[test]
fn tree_matcher_walks_the_source_directory() {
    let root = String::from("src");
    assert!(contain_file_name("lib.rs").test(&root).passed());
    assert!(!contain_file_name("no_such_file.q7z").test(&root).passed());
    assert!(contain_all_file_names(&["lib.rs", "matchers.rs"]).test(&root).passed());
    assert!(contain_any_file_names(&["no_such_file.q7z", "lib.rs"]).test(&root).passed());
}
