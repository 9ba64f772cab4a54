use vstd::prelude::*;
use vstd::string::StringExecFns;

use crate::matchers::debug_string;
use crate::matchers::Matcher;
use crate::matchers::MatcherResult;

verus! {

/// FileTypeMatcher checks what kind of entry a path points at, or what its
/// metadata says of it. Reading the filesystem is left to the caller: the
/// verified part is `evaluate`, which decides the check from attributes
/// already observed.
pub enum FileTypeMatcher {
    File,
    Directory,
    SymbolicLink,
    ZeroSized,
    Readonly,
    Writable,
}

/// FilePathMatcher checks the shape of a path: absolute, relative, or
/// carrying a given extension.
pub enum FilePathMatcher<'a> {
    Absolute,
    Relative,
    Extension(&'a str),
}

/// TreeMatcher checks which file names a walk of the directory tree under a
/// path finds.
pub enum TreeMatcher<'a> {
    Contain(&'a str),
    ContainAll(&'a [&'a str]),
    ContainAny(&'a [&'a str]),
}

/// FileAttributes holds what one look at the filesystem observed of a path:
/// whether its metadata could be read, what kind of entry it is, its size
/// and whether it is writable.
pub struct FileAttributes {
    pub exists: bool,
    pub is_file: bool,
    pub is_directory: bool,
    pub is_symbolic_link: bool,
    pub size: u64,
    pub readonly: bool,
}

impl FileTypeMatcher {
    /// The predicate this matcher decides over observed attributes.
    pub open spec fn matches_attributes(&self, attributes: FileAttributes) -> bool {
        match self {
            FileTypeMatcher::File => attributes.is_file,
            FileTypeMatcher::Directory => attributes.is_directory,
            FileTypeMatcher::SymbolicLink => attributes.is_symbolic_link,
            FileTypeMatcher::ZeroSized => attributes.exists && attributes.size == 0,
            FileTypeMatcher::Readonly => attributes.exists && attributes.readonly,
            FileTypeMatcher::Writable => attributes.exists && !attributes.readonly,
        }
    }

    /// evaluate decides the check from attributes already observed of the
    /// path named `value`. A path whose metadata could not be read is never
    /// zero sized, readonly or writable.
    pub fn evaluate(&self, value: &str, attributes: &FileAttributes) -> (result: MatcherResult)
        ensures
            result.spec_passed() == self.matches_attributes(*attributes),
    {
        match self {
            FileTypeMatcher::File => {
                let mut failure_message = debug_string(value);
                failure_message.append(" should be a file");
                let mut negated_failure_message = debug_string(value);
                negated_failure_message.append(" should not be a file");
                MatcherResult::formatted(
                    attributes.is_file,
                    failure_message,
                    negated_failure_message,
                )
            },
            FileTypeMatcher::Directory => {
                let mut failure_message = debug_string(value);
                failure_message.append(" should be a directory");
                let mut negated_failure_message = debug_string(value);
                negated_failure_message.append(" should not be a directory");
                MatcherResult::formatted(
                    attributes.is_directory,
                    failure_message,
                    negated_failure_message,
                )
            },
            FileTypeMatcher::SymbolicLink => {
                let mut failure_message = debug_string(value);
                failure_message.append(" should be a symbolic link");
                let mut negated_failure_message = debug_string(value);
                negated_failure_message.append(" should not be a symbolic link");
                MatcherResult::formatted(
                    attributes.is_symbolic_link,
                    failure_message,
                    negated_failure_message,
                )
            },
            FileTypeMatcher::ZeroSized => {
                let mut failure_message = debug_string(value);
                failure_message.append(" should be zero sized");
                let mut negated_failure_message = debug_string(value);
                negated_failure_message.append(" should not be zero sized");
                MatcherResult::formatted(
                    attributes.exists && attributes.size == 0,
                    failure_message,
                    negated_failure_message,
                )
            },
            FileTypeMatcher::Readonly => {
                let mut failure_message = debug_string(value);
                failure_message.append(" should be readonly");
                let mut negated_failure_message = debug_string(value);
                negated_failure_message.append(" should not be readonly");
                MatcherResult::formatted(
                    attributes.exists && attributes.readonly,
                    failure_message,
                    negated_failure_message,
                )
            },
            FileTypeMatcher::Writable => {
                let mut failure_message = debug_string(value);
                failure_message.append(" should be writable");
                let mut negated_failure_message = debug_string(value);
                negated_failure_message.append(" should not be writable");
                MatcherResult::formatted(
                    attributes.exists && !attributes.readonly,
                    failure_message,
                    negated_failure_message,
                )
            },
        }
    }
}

/// Relies on std::path::Path::is_absolute: whether the path stands on its
/// own, independently of the current directory. What counts as absolute
/// depends on the platform, so nothing further is assumed of the answer.
#[verifier::external_body]
fn path_is_absolute(value: &str) -> bool {
    std::path::Path::new(value).is_absolute()
}

/// Relies on std::path::Path::extension: the part of the file name after its
/// last dot, if there is one. The splitting rules are the platform's, so
/// nothing further is assumed of the answer.
#[verifier::external_body]
fn path_extension(value: &str) -> Option<String> {
    std::path::Path::new(value).extension().map(|extension| {
        extension.to_string_lossy().into_owned()
    })
}

impl<'a> FilePathMatcher<'a> {
    /// The predicate this matcher decides over what was observed of a path:
    /// the absolute flag and the extension, if any.
    pub open spec fn matches_observation(
        &self,
        absolute: bool,
        extension: Option<Seq<char>>,
    ) -> bool {
        match self {
            FilePathMatcher::Absolute => absolute,
            FilePathMatcher::Relative => !absolute,
            FilePathMatcher::Extension(expected) => extension == Some(expected@),
        }
    }

    /// evaluate decides the check from what was already observed of the path
    /// named `value`: whether it is absolute, and its extension if it has
    /// one. A relative path is exactly one that is not absolute.
    pub fn evaluate(&self, value: &str, absolute: bool, extension: Option<String>) -> (result:
        MatcherResult)
        ensures
            result.spec_passed() == self.matches_observation(
                absolute,
                match extension {
                    Some(found) => Some(found@),
                    None => None,
                },
            ),
    {
        match self {
            FilePathMatcher::Absolute => {
                let mut failure_message = debug_string(value);
                failure_message.append(" should be absolute");
                let mut negated_failure_message = debug_string(value);
                negated_failure_message.append(" should not be absolute");
                MatcherResult::formatted(absolute, failure_message, negated_failure_message)
            },
            FilePathMatcher::Relative => {
                let mut failure_message = debug_string(value);
                failure_message.append(" should be relative");
                let mut negated_failure_message = debug_string(value);
                negated_failure_message.append(" should not be relative");
                MatcherResult::formatted(!absolute, failure_message, negated_failure_message)
            },
            FilePathMatcher::Extension(expected) => {
                let passed = match &extension {
                    Some(found) => found.eq(&String::from_str(*expected)),
                    None => false,
                };
                let mut failure_message = debug_string(value);
                failure_message.append(" should have extension ");
                failure_message.append(debug_string(*expected).as_str());
                let mut negated_failure_message = debug_string(value);
                negated_failure_message.append(" should not have extension ");
                negated_failure_message.append(debug_string(*expected).as_str());
                MatcherResult::formatted(passed, failure_message, negated_failure_message)
            },
        }
    }
}

/// What a path matcher decides rests on the platform's path rules, which the
/// contracts do not model: the faithful contract is on `evaluate`, over the
/// observed flags.
impl<'a> Matcher<String> for FilePathMatcher<'a> {
    open spec fn obeys_matches_spec(&self) -> bool {
        false
    }

    open spec fn matches(&self, value: &String) -> bool {
        false
    }

    fn test(&self, value: &String) -> (result: MatcherResult) {
        let absolute = path_is_absolute(value.as_str());
        let extension = path_extension(value.as_str());
        self.evaluate(value.as_str(), absolute, extension)
    }
}

/// Relies on walkdir::WalkDir: walks the directory tree under the root and
/// yields one entry per file or directory found, the root itself first;
/// entries that could not be read are skipped. Each entry is reduced to its
/// file name. What comes back depends on what is on disk, so nothing is
/// assumed of the names.
#[verifier::external_body]
fn walk_file_names(root: &str) -> Vec<String> {
    walkdir::WalkDir::new(root)
        .into_iter()
        .filter_map(|entry| entry.ok())
        .map(|entry| entry.file_name().to_string_lossy().into_owned())
        .collect()
}

/// One of the walked names equals the given name.
pub open spec fn spec_names_contain(names: Seq<Seq<char>>, name: Seq<char>) -> bool {
    exists|i: int| #![trigger names[i]] 0 <= i < names.len() && names[i] == name
}

/// The walked names hold the given name.
fn names_contain(names: &Vec<String>, name: &str) -> (found: bool)
    ensures
        found == spec_names_contain(names.deep_view(), name@),
{
    let expected = String::from_str(name);
    let mut index: usize = 0;
    while index < names.len()
        invariant
            index <= names@.len(),
            expected@ == name@,
            forall|i: int| #![trigger names@[i]] 0 <= i < index ==> names@[i]@ != name@,
        decreases names@.len() - index,
    {
        if names[index].eq(&expected) {
            // the match at `index` is the witness the existential asks for
            assert(names.deep_view()[index as int] == name@);
            return true;
        }
        index += 1;
    }
    false
}

/// The walked names hold every one of the given names.
fn names_contain_all(names: &Vec<String>, expected: &[&str]) -> (found: bool)
    ensures
        found == (forall|j: int|
            #![trigger expected@[j]]
            0 <= j < expected@.len() ==> spec_names_contain(names.deep_view(), expected@[j]@)),
{
    let mut index: usize = 0;
    while index < expected.len()
        invariant
            index <= expected@.len(),
            forall|j: int|
                #![trigger expected@[j]]
                0 <= j < index ==> spec_names_contain(names.deep_view(), expected@[j]@),
        decreases expected@.len() - index,
    {
        if !names_contain(names, expected[index]) {
            return false;
        }
        index += 1;
    }
    true
}

/// The walked names hold at least one of the given names.
fn names_contain_any(names: &Vec<String>, expected: &[&str]) -> (found: bool)
    ensures
        found == (exists|j: int|
            #![trigger expected@[j]]
            0 <= j < expected@.len() && spec_names_contain(names.deep_view(), expected@[j]@)),
{
    let mut index: usize = 0;
    while index < expected.len()
        invariant
            index <= expected@.len(),
            forall|j: int|
                #![trigger expected@[j]]
                0 <= j < index ==> !spec_names_contain(names.deep_view(), expected@[j]@),
        decreases expected@.len() - index,
    {
        if names_contain(names, expected[index]) {
            return true;
        }
        index += 1;
    }
    false
}

impl<'a> TreeMatcher<'a> {
    /// The predicate this matcher decides over the file names a walk found.
    pub open spec fn matches_names(&self, names: Seq<Seq<char>>) -> bool {
        match self {
            TreeMatcher::Contain(name) => spec_names_contain(names, name@),
            TreeMatcher::ContainAll(expected) => forall|j: int|
                #![trigger expected@[j]]
                0 <= j < expected@.len() ==> spec_names_contain(names, expected@[j]@),
            TreeMatcher::ContainAny(expected) => exists|j: int|
                #![trigger expected@[j]]
                0 <= j < expected@.len() && spec_names_contain(names, expected@[j]@),
        }
    }

    /// evaluate decides the check from the file names a walk of the tree
    /// under the path named `value` already found.
    pub fn evaluate(&self, value: &str, names: &Vec<String>) -> (result: MatcherResult)
        ensures
            result.spec_passed() == self.matches_names(names.deep_view()),
    {
        match self {
            TreeMatcher::Contain(name) => {
                let passed = names_contain(names, *name);
                let mut failure_message = debug_string(value);
                failure_message.append(" should contain a file name ");
                failure_message.append(debug_string(*name).as_str());
                let mut negated_failure_message = debug_string(value);
                negated_failure_message.append(" should not contain a file name ");
                negated_failure_message.append(debug_string(*name).as_str());
                MatcherResult::formatted(passed, failure_message, negated_failure_message)
            },
            TreeMatcher::ContainAll(expected) => {
                let passed = names_contain_all(names, *expected);
                let mut failure_message = debug_string(value);
                failure_message.append(" should contain file names ");
                failure_message.append(debug_string(*expected).as_str());
                let mut negated_failure_message = debug_string(value);
                negated_failure_message.append(" should not contain file names ");
                negated_failure_message.append(debug_string(*expected).as_str());
                MatcherResult::formatted(passed, failure_message, negated_failure_message)
            },
            TreeMatcher::ContainAny(expected) => {
                let passed = names_contain_any(names, *expected);
                let mut failure_message = debug_string(value);
                failure_message.append(" should contain any of file names ");
                failure_message.append(debug_string(*expected).as_str());
                let mut negated_failure_message = debug_string(value);
                negated_failure_message.append(" should not contain any of file names ");
                negated_failure_message.append(debug_string(*expected).as_str());
                MatcherResult::formatted(passed, failure_message, negated_failure_message)
            },
        }
    }
}

/// What a tree matcher decides rests on what is on disk when the walk runs,
/// which the contracts do not model: the faithful contract is on `evaluate`,
/// over the names the walk found.
impl<'a> Matcher<String> for TreeMatcher<'a> {
    open spec fn obeys_matches_spec(&self) -> bool {
        false
    }

    open spec fn matches(&self, value: &String) -> bool {
        false
    }

    fn test(&self, value: &String) -> (result: MatcherResult) {
        let names = walk_file_names(value.as_str());
        self.evaluate(value.as_str(), &names)
    }
}

/// be_a_directory creates a matcher whose check holds of a path observed to
/// be a directory.
pub fn be_a_directory() -> (matcher: FileTypeMatcher)
    ensures
        matcher == FileTypeMatcher::Directory,
{
    FileTypeMatcher::Directory
}

/// be_a_file creates a matcher whose check holds of a path observed to be a
/// regular file.
pub fn be_a_file() -> (matcher: FileTypeMatcher)
    ensures
        matcher == FileTypeMatcher::File,
{
    FileTypeMatcher::File
}

/// be_a_symbolic_link creates a matcher whose check holds of a path observed
/// to be a symbolic link.
pub fn be_a_symbolic_link() -> (matcher: FileTypeMatcher)
    ensures
        matcher == FileTypeMatcher::SymbolicLink,
{
    FileTypeMatcher::SymbolicLink
}

/// be_zero_sized creates a matcher whose check holds of a path whose
/// metadata was read and reported size zero.
pub fn be_zero_sized() -> (matcher: FileTypeMatcher)
    ensures
        matcher == FileTypeMatcher::ZeroSized,
{
    FileTypeMatcher::ZeroSized
}

/// be_readonly creates a matcher whose check holds of a path whose metadata
/// was read and reported the readonly flag set.
pub fn be_readonly() -> (matcher: FileTypeMatcher)
    ensures
        matcher == FileTypeMatcher::Readonly,
{
    FileTypeMatcher::Readonly
}

/// be_writable creates a matcher whose check holds of a path whose metadata
/// was read and reported the readonly flag clear.
pub fn be_writable() -> (matcher: FileTypeMatcher)
    ensures
        matcher == FileTypeMatcher::Writable,
{
    FileTypeMatcher::Writable
}

/// be_absolute creates a matcher whose check holds of a path observed to be
/// absolute.
pub fn be_absolute() -> (matcher: FilePathMatcher<'static>)
    ensures
        matcher == FilePathMatcher::<'static>::Absolute,
{
    FilePathMatcher::Absolute
}

/// be_relative creates a matcher whose check holds of a path observed not to
/// be absolute.
pub fn be_relative() -> (matcher: FilePathMatcher<'static>)
    ensures
        matcher == FilePathMatcher::<'static>::Relative,
{
    FilePathMatcher::Relative
}

/// have_extension creates a matcher whose check holds of a path observed to
/// carry the given extension.
pub fn have_extension<'a>(extension: &'a str) -> (matcher: FilePathMatcher<'a>)
    ensures
        matcher == FilePathMatcher::Extension(extension),
{
    FilePathMatcher::Extension(extension)
}

/// contain_file_name creates a matcher whose check holds of a path under
/// which a walk finds the given file name.
pub fn contain_file_name<'a>(name: &'a str) -> (matcher: TreeMatcher<'a>)
    ensures
        matcher == TreeMatcher::Contain(name),
{
    TreeMatcher::Contain(name)
}

/// contain_all_file_names creates a matcher whose check holds of a path
/// under which a walk finds every one of the given file names.
pub fn contain_all_file_names<'a>(names: &'a [&'a str]) -> (matcher: TreeMatcher<'a>)
    ensures
        matcher == TreeMatcher::ContainAll(names),
{
    TreeMatcher::ContainAll(names)
}

/// contain_any_file_names creates a matcher whose check holds of a path
/// under which a walk finds at least one of the given file names.
pub fn contain_any_file_names<'a>(names: &'a [&'a str]) -> (matcher: TreeMatcher<'a>)
    ensures
        matcher == TreeMatcher::ContainAny(names),
{
    TreeMatcher::ContainAny(names)
}

} // verus!
