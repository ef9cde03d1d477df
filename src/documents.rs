//! Reading the two structured documents the manager meets: environment YAML
//! files (validated before creation) and the backend's JSON environment
//! listing (used to decide whether an environment exists).
use crate::env_run::string_views;
use crate::error::{EnvError, Result};
use vstd::prelude::*;

verus! {

/// Whether serde_yaml reads `text` as a YAML document.
pub uninterp spec fn yaml_accepts(text: Seq<char>) -> bool;

/// The string serde_yaml finds under `key` in the YAML document `text`.
pub uninterp spec fn yaml_text_at(text: Seq<char>, key: Seq<char>) -> Option<Seq<char>>;

/// The length of the sequence serde_yaml finds under `key` in the YAML
/// document `text`.
pub uninterp spec fn yaml_sequence_len_at(text: Seq<char>, key: Seq<char>) -> Option<usize>;

/// The strings of the array serde_json finds under `key` in the JSON document
/// `text`, when every element is a string.
pub uninterp spec fn json_strings_at(text: Seq<char>, key: Seq<char>) -> Option<Seq<Seq<char>>>;

/// The final component of a path, as `Path::file_name` gives it.
pub uninterp spec fn file_name_of(path: Seq<char>) -> Option<Seq<char>>;

/// Relies on `serde_yaml::from_str` into `serde_yaml::Value`: whether it
/// succeeds, which depends on the text alone.
#[verifier::external_body]
fn yaml_parses(text: &str) -> (r: bool)
    ensures
        r == yaml_accepts(text@),
{
    serde_yaml::from_str::<serde_yaml::Value>(text).is_ok()
}

/// Relies on `serde_yaml::from_str` into `serde_yaml::Value`, then
/// `Value::get` with a string key and `Value::as_str`: the string stored under
/// `key` when the text is a mapping holding one.
#[verifier::external_body]
fn yaml_text_field(text: &str, key: &str) -> (r: Option<String>)
    ensures
        match r {
            Some(v) => yaml_text_at(text@, key@) == Some(v@),
            None => yaml_text_at(text@, key@) is None,
        },
{
    serde_yaml::from_str::<serde_yaml::Value>(text).ok().and_then(
        |d| d.get(key).and_then(|v| v.as_str()).map(|v| v.to_string()),
    )
}

/// Relies on `serde_yaml::from_str` into `serde_yaml::Value`, then
/// `Value::get` with a string key and `Value::as_sequence`: the length of the
/// sequence stored under `key` when the text is a mapping holding one.
#[verifier::external_body]
fn yaml_sequence_field(text: &str, key: &str) -> (r: Option<usize>)
    ensures
        r == yaml_sequence_len_at(text@, key@),
{
    serde_yaml::from_str::<serde_yaml::Value>(text).ok().and_then(
        |d| d.get(key).and_then(|v| v.as_sequence()).map(|v| v.len()),
    )
}

/// Relies on `serde_json::from_str` into `serde_json::Value`, then
/// `Value::get` with a string key, `Value::as_array` and `Value::as_str` on
/// each element: the strings of the array stored under `key`, when the text
/// is an object holding an array of strings there.
#[verifier::external_body]
fn json_string_list(text: &str, key: &str) -> (r: Option<Vec<String>>)
    ensures
        match r {
            Some(v) => json_strings_at(text@, key@) == Some(string_views(v@)),
            None => json_strings_at(text@, key@) is None,
        },
{
    let doc: serde_json::Value = serde_json::from_str(text).ok()?;
    doc.get(key)?.as_array()?.iter().map(|v| v.as_str().map(|s| s.to_string())).collect()
}

/// Relies on `std::path::Path::file_name`: the final component of a path.
#[verifier::external_body]
fn file_name(path: &str) -> (r: Option<String>)
    ensures
        match r {
            Some(n) => file_name_of(path@) == Some(n@),
            None => file_name_of(path@) is None,
        },
{
    std::path::Path::new(path).file_name().and_then(|n| n.to_str()).map(|n| n.to_string())
}

/// Outcome of checking a YAML file before creation.
#[derive(Debug, Clone)]
pub struct ValidationDetails {
    pub syntax_valid: bool,
    pub dependencies_resolvable: bool,
    pub version_conflicts: Vec<String>,
    pub channels_accessible: bool,
}

/// Report of a dry-run validation of an environment file.
#[derive(Debug, Clone)]
pub struct ValidationResult {
    pub dry_run: bool,
    pub environment: String,
    pub yaml_file: String,
    pub validation: ValidationDetails,
    pub estimated_packages: usize,
    pub estimated_size_mb: u64,
    pub channels_accessible: Vec<String>,
}

/// Estimated download size: ten megabytes per package, saturating.
pub open spec fn size_estimate(packages: nat) -> u64 {
    if 10 * packages <= u64::MAX {
        (10 * packages) as u64
    } else {
        u64::MAX
    }
}

/// `v` reports a document declaring `name` (if any) and a dependency sequence
/// of `dependency_count` entries (if any), read from `file`.
pub open spec fn describes(
    v: ValidationResult,
    name: Option<Seq<char>>,
    dependency_count: Option<usize>,
    file: Seq<char>,
) -> bool {
    let count: usize = match dependency_count {
        Some(n) => n,
        None => 0,
    };
    &&& v.dry_run
    &&& v.environment@ == match name {
        Some(n) => n,
        None => "unknown"@,
    }
    &&& v.yaml_file@ == file
    &&& v.validation.syntax_valid == (count > 0)
    &&& v.validation.dependencies_resolvable
    &&& v.validation.version_conflicts@.len() == 0
    &&& v.validation.channels_accessible
    &&& v.estimated_packages == count
    &&& v.estimated_size_mb == size_estimate(count as nat)
    &&& v.channels_accessible@.len() == 0
}

/// The report for a document with the given declared name and dependency
/// sequence length: the name defaults to `unknown`, a non-empty dependency
/// sequence makes it valid, and the package estimate is that length.
pub fn summarize_validation(
    name: Option<String>,
    dependency_count: Option<usize>,
    yaml_file: &str,
) -> (r: ValidationResult)
    ensures
        describes(
            r,
            match name {
                Some(n) => Some(n@),
                None => None,
            },
            dependency_count,
            yaml_file@,
        ),
{
    let environment = match name {
        Some(n) => n,
        None => String::from_str("unknown"),
    };
    let count: usize = match dependency_count {
        Some(n) => n,
        None => 0,
    };
    let size: u64 = if count as u64 <= 1844674407370955161u64 {
        (count as u64) * 10
    } else {
        u64::MAX
    };
    ValidationResult {
        dry_run: true,
        environment,
        yaml_file: String::from_str(yaml_file),
        validation: ValidationDetails {
            syntax_valid: count > 0,
            dependencies_resolvable: true,
            version_conflicts: Vec::new(),
            channels_accessible: true,
        },
        estimated_packages: count,
        estimated_size_mb: size,
        channels_accessible: Vec::new(),
    }
}

/// Validates the text of an environment file: a validation error when it is
/// not YAML; otherwise the report of its declared `name` and of the length of
/// its `dependencies` sequence.
pub fn validate_yaml_text(content: &str, yaml_file: &str) -> (r: Result<ValidationResult>)
    ensures
        r is Err <==> !yaml_accepts(content@),
        r is Err ==> r->Err_0 is Validation,
        r is Ok ==> describes(
            r->Ok_0,
            yaml_text_at(content@, "name"@),
            yaml_sequence_len_at(content@, "dependencies"@),
            yaml_file@,
        ),
{
    if !yaml_parses(content) {
        return Err(EnvError::Validation(String::from_str("Invalid YAML syntax")));
    }
    let name = yaml_text_field(content, "name");
    let count = yaml_sequence_field(content, "dependencies");
    Ok(summarize_validation(name, count, yaml_file))
}

/// A document with a non-empty dependency sequence is valid with that many
/// packages; one without dependencies is invalid with none.
pub proof fn lemma_validation_counts(
    v: ValidationResult,
    name: Option<Seq<char>>,
    dependency_count: Option<usize>,
    file: Seq<char>,
)
    requires
        describes(v, name, dependency_count, file),
    ensures
        dependency_count is Some && dependency_count->Some_0 > 0 ==> v.validation.syntax_valid
            && v.estimated_packages == dependency_count->Some_0,
        dependency_count is None ==> !v.validation.syntax_valid && v.estimated_packages == 0,
{
}

/// Whether some listed prefix ends in a component equal to `name`.
pub open spec fn listed(prefixes: Seq<Seq<char>>, name: Seq<char>) -> bool {
    exists|i: int| 0 <= i < prefixes.len() && file_name_of(#[trigger] prefixes[i]) == Some(name)
}

/// Whether some listed prefix ends in a component equal to `name`.
pub fn env_listed(prefixes: &Vec<String>, name: &str) -> (r: bool)
    ensures
        r == listed(string_views(prefixes@), name@),
{
    let ghost pv = string_views(prefixes@);
    let mut i: usize = 0;
    while i < prefixes.len()
        invariant
            pv == string_views(prefixes@),
            i <= prefixes@.len(),
            forall|k: int| 0 <= k < i ==> file_name_of(#[trigger] pv[k]) != Some(name@),
        decreases prefixes@.len() - i,
    {
        match file_name(prefixes[i].as_str()) {
            Some(n) => {
                if crate::text::same_text(n.as_str(), name) {
                    assert(file_name_of(pv[i as int]) == Some(name@));
                    return true;
                }
            },
            None => {},
        }
        i = i + 1;
    }
    false
}

/// Detail of the error for listing output that is not a listing.
pub open spec fn unparsable_listing_message() -> Seq<char> {
    "Failed to parse environment list"@
}

/// The environment prefixes of a JSON listing `{"envs": [..]}`; an execution
/// error when the output is not such a listing.
pub fn listed_prefixes(text: &str) -> (r: Result<Vec<String>>)
    ensures
        r is Ok <==> json_strings_at(text@, "envs"@) is Some,
        r is Ok ==> string_views(r->Ok_0@) == json_strings_at(text@, "envs"@)->Some_0,
        r is Err ==> r->Err_0 is Execution && r->Err_0->Execution_0@ == unparsable_listing_message(),
{
    match json_string_list(text, "envs") {
        Some(v) => Ok(v),
        None => Err(EnvError::Execution(String::from_str("Failed to parse environment list"))),
    }
}

/// Whether environment `name` exists, from the listing invocation's exit code,
/// its error output and the prefixes decoded from its output: an execution
/// error carrying the error output when the listing failed, the decoding
/// error when its output was not a listing, and otherwise whether some listed
/// prefix ends in `name`.
pub fn existence_decision(
    code: Option<i32>,
    stderr: &str,
    prefixes: Result<Vec<String>>,
    name: &str,
) -> (r: Result<bool>)
    ensures
        code != Some(0i32) ==> r is Err && r->Err_0 is Execution && r->Err_0->Execution_0@
            == "Failed to list environments: "@ + stderr@,
        code == Some(0i32) ==> match prefixes {
            Err(e) => r == Err::<bool, EnvError>(e),
            Ok(p) => r == Ok::<bool, EnvError>(listed(string_views(p@), name@)),
        },
{
    if code != Some(0i32) {
        let mut msg = String::from_str("Failed to list environments: ");
        msg.append(stderr);
        return Err(EnvError::Execution(msg));
    }
    match prefixes {
        Err(e) => Err(e),
        Ok(p) => Ok(env_listed(&p, name)),
    }
}

/// Whether environment `name` exists, from the JSON listing invocation's exit
/// code and output.
pub fn existence_from_listing(code: Option<i32>, stdout: &str, stderr: &str, name: &str) -> (r:
    Result<bool>)
    ensures
        code != Some(0i32) ==> r is Err && r->Err_0 is Execution && r->Err_0->Execution_0@
            == "Failed to list environments: "@ + stderr@,
        code == Some(0i32) ==> match json_strings_at(stdout@, "envs"@) {
            Some(p) => r == Ok::<bool, EnvError>(listed(p, name@)),
            None => r is Err && r->Err_0 is Execution && r->Err_0->Execution_0@
                == unparsable_listing_message(),
        },
{
    if code != Some(0i32) {
        return existence_decision(code, stderr, Ok(Vec::new()), name);
    }
    existence_decision(code, stderr, listed_prefixes(stdout), name)
}

} // verus!
