//! The backend invocations behind each environment operation, and the
//! decisions taken before and after each one.
use crate::env_run::{pairs_ok, string_views};
use crate::error::{EnvError, Result};
use crate::exit::{classify_exit, code_text_of};
use crate::documents::ValidationResult;
use crate::manager::pair_views;
use crate::text::{chars_of, contains, contains_text};
use vstd::prelude::*;

verus! {

/// Message given when the backend refuses to create over a foreign directory.
pub open spec fn prefix_conflict_message() -> Seq<char> {
    "Failed to create environment: Environment directory already exists but is not a valid conda environment. Please remove the existing directory and try again, or use a different environment name."@
}

/// Text by which the backend reports a foreign directory at the target prefix.
pub open spec fn prefix_conflict_marker() -> Seq<char> {
    "Non-conda folder exists at prefix"@
}

/// Arguments creating an environment from a file.
pub open spec fn create_args_of(yaml: Seq<char>) -> Seq<Seq<char>> {
    seq!["env"@, "create"@, "-f"@, yaml, "-y"@]
}

/// Arguments running a shell command inside an environment.
pub open spec fn run_args_of(env: Seq<char>, command: Seq<char>) -> Seq<Seq<char>> {
    seq!["run"@, "-n"@, env, "bash"@, "-c"@, command]
}

/// Arguments listing environments as JSON.
pub open spec fn json_list_args_of() -> Seq<Seq<char>> {
    seq!["env"@, "list"@, "--json"@]
}

/// Arguments listing environments as text.
pub open spec fn text_list_args_of() -> Seq<Seq<char>> {
    seq!["env"@, "list"@]
}

/// Arguments removing an environment.
pub open spec fn remove_args_of(env: Seq<char>) -> Seq<Seq<char>> {
    seq!["env"@, "remove"@, "-n"@, env, "-y"@]
}

/// Arguments installing packages from the two community channels.
pub open spec fn install_args_of(env: Seq<char>, packages: Seq<Seq<char>>) -> Seq<Seq<char>> {
    seq!["install"@, "-n"@, env, "-c"@, "conda-forge"@, "-c"@, "bioconda"@, "-y"@] + packages
}

/// Arguments asking a backend for its version.
pub open spec fn version_args_of() -> Seq<Seq<char>> {
    seq!["--version"@]
}

fn owned(s: &str) -> (r: String)
    ensures
        r@ == s@,
{
    String::from_str(s)
}

pub fn create_args(yaml: &str) -> (r: Vec<String>)
    ensures
        string_views(r@) == create_args_of(yaml@),
{
    let r = vec![owned("env"), owned("create"), owned("-f"), owned(yaml), owned("-y")];
    assert(string_views(r@) =~= create_args_of(yaml@));
    r
}

pub fn run_args(env: &str, command: &str) -> (r: Vec<String>)
    ensures
        string_views(r@) == run_args_of(env@, command@),
{
    let r = vec![owned("run"), owned("-n"), owned(env), owned("bash"), owned("-c"), owned(command)];
    assert(string_views(r@) =~= run_args_of(env@, command@));
    r
}

pub fn json_list_args() -> (r: Vec<String>)
    ensures
        string_views(r@) == json_list_args_of(),
{
    let r = vec![owned("env"), owned("list"), owned("--json")];
    assert(string_views(r@) =~= json_list_args_of());
    r
}

pub fn text_list_args() -> (r: Vec<String>)
    ensures
        string_views(r@) == text_list_args_of(),
{
    let r = vec![owned("env"), owned("list")];
    assert(string_views(r@) =~= text_list_args_of());
    r
}

pub fn remove_args(env: &str) -> (r: Vec<String>)
    ensures
        string_views(r@) == remove_args_of(env@),
{
    let r = vec![owned("env"), owned("remove"), owned("-n"), owned(env), owned("-y")];
    assert(string_views(r@) =~= remove_args_of(env@));
    r
}

pub fn version_args() -> (r: Vec<String>)
    ensures
        string_views(r@) == version_args_of(),
{
    let r = vec![owned("--version")];
    assert(string_views(r@) =~= version_args_of());
    r
}

pub fn install_args(env: &str, packages: &Vec<String>) -> (r: Vec<String>)
    ensures
        string_views(r@) == install_args_of(env@, string_views(packages@)),
{
    let mut r = vec![
        owned("install"),
        owned("-n"),
        owned(env),
        owned("-c"),
        owned("conda-forge"),
        owned("-c"),
        owned("bioconda"),
        owned("-y"),
    ];
    let ghost head = string_views(r@);
    let mut i: usize = 0;
    while i < packages.len()
        invariant
            i <= packages@.len(),
            string_views(r@) == head + string_views(packages@).subrange(0, i as int),
        decreases packages@.len() - i,
    {
        let ghost before = r@;
        r.push(packages[i].clone());
        assert(string_views(r@) =~= string_views(before).push(packages@[i as int]@));
        assert(string_views(packages@).subrange(0, i + 1) =~= string_views(packages@).subrange(
            0,
            i as int,
        ).push(packages@[i as int]@));
        assert(string_views(r@) =~= head + string_views(packages@).subrange(0, i + 1));
        i = i + 1;
    }
    assert(string_views(packages@).subrange(0, packages@.len() as int) =~= string_views(
        packages@,
    ));
    assert(head =~= seq![
        "install"@,
        "-n"@,
        env@,
        "-c"@,
        "conda-forge"@,
        "-c"@,
        "bioconda"@,
        "-y"@,
    ]);
    r
}

/// Splits `pair` at its first `=` into key and value.
pub fn split_pair(pair: &str) -> (r: Option<(String, String)>)
    ensures
        match r {
            Some((k, v)) => pair@ == k@ + seq!['='] + v@ && !k@.contains('='),
            None => !pair@.contains('='),
        },
{
    let n = pair.unicode_len();
    let mut i: usize = 0;
    while i < n
        invariant
            n == pair@.len(),
            i <= n,
            forall|k: int| 0 <= k < i ==> pair@[k] != '=',
        decreases n - i,
    {
        if pair.get_char(i) == '=' {
            let k = String::from_str(pair.substring_char(0, i));
            let v = String::from_str(pair.substring_char(i + 1, n));
            assert(pair@ =~= k@ + seq!['='] + v@);
            assert(!k@.contains('=')) by {
                if k@.contains('=') {
                    let j = choose|j: int| 0 <= j < k@.len() && k@[j] == '=';
                    assert(pair@[j] == '=');
                }
            }
            return Some((k, v));
        }
        i = i + 1;
    }
    None
}

/// The key of a `KEY=VALUE` entry: the characters before its first `=`.
pub open spec fn key_of(p: Seq<char>) -> Seq<char>
    decreases p.len(),
{
    if p.len() == 0 || p[0] == '=' {
        Seq::empty()
    } else {
        seq![p[0]] + key_of(p.drop_first())
    }
}

/// A `KEY=VALUE` entry split at its first `=`.
pub open spec fn split_of(p: Seq<char>) -> (Seq<char>, Seq<char>) {
    let k = key_of(p);
    (k, p.subrange(k.len() + 1int, p.len() as int))
}

/// Every entry split at its first `=`.
pub open spec fn split_all(env: Seq<String>) -> Seq<(Seq<char>, Seq<char>)> {
    Seq::new(env.len(), |i: int| split_of(env[i]@))
}

pub proof fn lemma_key_of(k: Seq<char>, v: Seq<char>)
    requires
        !k.contains('='),
    ensures
        key_of(k + seq!['='] + v) == k,
        split_of(k + seq!['='] + v) == (k, v),
    decreases k.len(),
{
    let p = k + seq!['='] + v;
    if k.len() == 0 {
        assert(p[0] == '=');
    } else {
        assert(p[0] == k[0]);
        let k1 = k.drop_first();
        assert(!k1.contains('=')) by {
            if k1.contains('=') {
                let j = choose|j: int| 0 <= j < k1.len() && k1[j] == '=';
                assert(k[j + 1] == '=');
            }
        }
        assert(p.drop_first() =~= k1 + seq!['='] + v);
        lemma_key_of(k1, v);
        assert(seq![k[0]] + k1 =~= k);
    }
    assert(p.subrange(k.len() + 1int, p.len() as int) =~= v);
}

/// The `(key, value)` pairs of `KEY=VALUE` entries, each split at its first
/// `=`; a validation error when any entry lacks `=`, before any pair is
/// handed out.
pub fn parse_env_pairs(pairs: &Vec<String>) -> (r: Result<Vec<(String, String)>>)
    ensures
        r is Ok <==> pairs_ok(pairs@),
        r is Err ==> r->Err_0 is Validation,
        r is Ok ==> pair_views(r->Ok_0@) == split_all(pairs@),
{
    let mut out: Vec<(String, String)> = Vec::new();
    let mut i: usize = 0;
    while i < pairs.len()
        invariant
            i <= pairs@.len(),
            out@.len() == i,
            forall|j: int| 0 <= j < i ==> (#[trigger] pairs@[j])@.contains('='),
            forall|j: int|
                0 <= j < i ==> ((#[trigger] out@[j]).0@, out@[j].1@) == split_of(pairs@[j]@),
        decreases pairs@.len() - i,
    {
        match split_pair(pairs[i].as_str()) {
            Some(kv) => {
                let ghost (k, v) = kv;
                proof {
                    lemma_key_of(k@, v@);
                }
                assert(pairs@[i as int]@[k@.len() as int] == '=');
                out.push(kv);
            },
            None => {
                let mut msg = String::from_str("Invalid environment variable format: ");
                msg.append(pairs[i].as_str());
                msg.append(". Expected KEY=VALUE");
                return Err(EnvError::Validation(msg));
            },
        }
        i = i + 1;
    }
    assert(pair_views(out@) =~= split_all(pairs@));
    Ok(out)
}

/// Whether some variable of `vars` has key `k`.
pub open spec fn has_key(vars: Seq<(Seq<char>, Seq<char>)>, k: Seq<char>) -> bool {
    exists|j: int| 0 <= j < vars.len() && (#[trigger] vars[j]).0 == k
}

/// The caller's variables whose key the backend does not set, in order.
pub open spec fn without_keys(
    caller: Seq<(Seq<char>, Seq<char>)>,
    backend: Seq<(Seq<char>, Seq<char>)>,
) -> Seq<(Seq<char>, Seq<char>)>
    decreases caller.len(),
{
    if caller.len() == 0 {
        Seq::empty()
    } else if has_key(backend, caller.last().0) {
        without_keys(caller.drop_last(), backend)
    } else {
        without_keys(caller.drop_last(), backend).push(caller.last())
    }
}

/// The variables a run applies: the caller's, except where the backend sets
/// the same key, followed by the backend's, which take precedence.
pub open spec fn merged_env_of(
    caller: Seq<(Seq<char>, Seq<char>)>,
    backend: Seq<(Seq<char>, Seq<char>)>,
) -> Seq<(Seq<char>, Seq<char>)> {
    without_keys(caller, backend) + backend
}

fn key_in(vars: &Vec<(String, String)>, k: &str) -> (r: bool)
    ensures
        r == has_key(pair_views(vars@), k@),
{
    let mut j: usize = 0;
    while j < vars.len()
        invariant
            j <= vars@.len(),
            forall|m: int| 0 <= m < j ==> (#[trigger] vars@[m]).0@ != k@,
        decreases vars@.len() - j,
    {
        if crate::text::same_text(vars[j].0.as_str(), k) {
            assert(pair_views(vars@)[j as int].0 == k@);
            return true;
        }
        j = j + 1;
    }
    assert forall|m: int| 0 <= m < pair_views(vars@).len() implies (#[trigger] pair_views(
        vars@,
    )[m]).0 != k@ by {
        assert(vars@[m].0@ != k@);
    }
    false
}

fn copy_pair(p: &(String, String)) -> (r: (String, String))
    ensures
        r.0@ == p.0@ && r.1@ == p.1@,
{
    (p.0.clone(), p.1.clone())
}

/// The variables a run applies, as `merged_env_of` states.
pub fn merge_env(caller: &Vec<(String, String)>, backend: &Vec<(String, String)>) -> (r: Vec<
    (String, String),
>)
    ensures
        pair_views(r@) == merged_env_of(pair_views(caller@), pair_views(backend@)),
{
    let ghost cv = pair_views(caller@);
    let ghost bv = pair_views(backend@);
    let mut out: Vec<(String, String)> = Vec::new();
    let mut i: usize = 0;
    assert(cv.subrange(0, 0) =~= Seq::<(Seq<char>, Seq<char>)>::empty());
    while i < caller.len()
        invariant
            cv == pair_views(caller@),
            bv == pair_views(backend@),
            i <= caller@.len(),
            pair_views(out@) == without_keys(cv.subrange(0, i as int), bv),
        decreases caller@.len() - i,
    {
        let ghost next = cv.subrange(0, i + 1);
        assert(next.drop_last() =~= cv.subrange(0, i as int));
        assert(next.last() == cv[i as int]);
        if !key_in(backend, caller[i].0.as_str()) {
            let ghost before = out@;
            out.push(copy_pair(&caller[i]));
            assert(pair_views(out@) =~= pair_views(before).push(cv[i as int]));
        }
        i = i + 1;
    }
    assert(cv.subrange(0, caller@.len() as int) =~= cv);
    let ghost head = pair_views(out@);
    let mut j: usize = 0;
    while j < backend.len()
        invariant
            bv == pair_views(backend@),
            j <= backend@.len(),
            pair_views(out@) == head + bv.subrange(0, j as int),
        decreases backend@.len() - j,
    {
        let ghost before = out@;
        out.push(copy_pair(&backend[j]));
        assert(pair_views(out@) =~= pair_views(before).push(bv[j as int]));
        assert(bv.subrange(0, j + 1) =~= bv.subrange(0, j as int).push(bv[j as int]));
        assert(pair_views(out@) =~= head + bv.subrange(0, j + 1));
        j = j + 1;
    }
    assert(bv.subrange(0, backend@.len() as int) =~= bv);
    out
}

/// One backend invocation: its arguments, extra variables, working directory
/// and whether its output is captured.
#[derive(Debug, Clone)]
pub struct Invocation {
    pub args: Vec<String>,
    pub env: Vec<(String, String)>,
    pub cwd: String,
    pub capture_output: bool,
}

/// Message for an environment that does not exist.
pub open spec fn missing_env_message(env: Seq<char>) -> Seq<char> {
    "Environment '"@ + env + "' does not exist"@
}

/// Plans running `command` inside `env_name`: a validation error when a
/// variable entry is malformed (checked first, so the caller can do it before
/// starting anything), an execution error naming the environment when it does
/// not exist; otherwise the run invocation wrapping the command in a shell,
/// with the caller's variables merged under the backend's.
pub fn plan_run_in_environment(
    exists: bool,
    env_name: &str,
    command: &str,
    env_vars: &Vec<String>,
    backend_vars: &Vec<(String, String)>,
    cwd: &str,
    capture_output: bool,
) -> (r: Result<Invocation>)
    ensures
        !pairs_ok(env_vars@) ==> r is Err && r->Err_0 is Validation,
        pairs_ok(env_vars@) && !exists ==> r is Err && r->Err_0 is Execution
            && r->Err_0->Execution_0@ == missing_env_message(env_name@),
        pairs_ok(env_vars@) && exists ==> r is Ok,
        r is Ok ==> ({
            let inv = r->Ok_0;
            &&& string_views(inv.args@) == run_args_of(env_name@, command@)
            &&& pair_views(inv.env@) == merged_env_of(split_all(env_vars@), pair_views(backend_vars@))
            &&& inv.cwd@ == cwd@
            &&& inv.capture_output == capture_output
        }),
{
    let pairs = parse_env_pairs(env_vars)?;
    if !exists {
        let mut msg = String::from_str("Environment '");
        msg.append(env_name);
        msg.append("' does not exist");
        return Err(EnvError::Execution(msg));
    }
    Ok(
        Invocation {
            args: run_args(env_name, command),
            env: merge_env(&pairs, backend_vars),
            cwd: String::from_str(cwd),
            capture_output,
        },
    )
}

/// Message refusing an install into an environment that does not exist.
pub open spec fn install_missing_message(env: Seq<char>) -> Seq<char> {
    "Environment '"@ + env + "' does not exist. Please create it first using 'xdxtools env create --name "@
        + env + "'"@
}

/// Plans installing `packages` into `env_name`: an execution error naming the
/// environment when it does not exist; otherwise the install arguments.
pub fn plan_install(exists: bool, env_name: &str, packages: &Vec<String>) -> (r: Result<
    Vec<String>,
>)
    ensures
        !exists ==> r is Err && r->Err_0 is Execution && r->Err_0->Execution_0@
            == install_missing_message(env_name@),
        exists ==> r is Ok && string_views(r->Ok_0@) == install_args_of(
            env_name@,
            string_views(packages@),
        ),
{
    if !exists {
        let mut msg = String::from_str("Environment '");
        msg.append(env_name);
        msg.append("' does not exist. Please create it first using 'xdxtools env create --name ");
        msg.append(env_name);
        msg.append("'");
        return Err(EnvError::Execution(msg));
    }
    Ok(install_args(env_name, packages))
}

/// Outcome of an environment creation: success on a zero exit; on failure the
/// remediation message when the backend reports a foreign directory at the
/// prefix, the exit code otherwise.
pub fn creation_outcome(code: Option<i32>, stderr: &str) -> (r: Result<()>)
    ensures
        (code == Some(0i32)) <==> r is Ok,
        r is Err ==> r->Err_0 is Execution,
        r is Err && contains(stderr@, prefix_conflict_marker()) ==> r->Err_0->Execution_0@
            == prefix_conflict_message(),
        r is Err && !contains(stderr@, prefix_conflict_marker()) ==> r->Err_0->Execution_0@
            == "Failed to create environment: micromamba command failed with exit code "@
            + code_text_of(code),
{
    if code == Some(0i32) {
        return Ok(());
    }
    let text = chars_of(stderr);
    let marker = chars_of("Non-conda folder exists at prefix");
    if contains_text(&text, &marker) {
        return Err(
            EnvError::Execution(
                String::from_str(
                    "Failed to create environment: Environment directory already exists but is not a valid conda environment. Please remove the existing directory and try again, or use a different environment name.",
                ),
            ),
        );
    }
    classify_exit(code, "Failed to create environment: micromamba command failed with exit code ")
}

/// What creating an environment comes to once its file has been validated.
#[derive(Debug, Clone)]
pub enum CreationStep {
    /// Dry run: report the validation, invoke nothing.
    Report(ValidationResult),
    /// Invoke the backend with these arguments.
    Invoke(Vec<String>),
}

/// Plans creating an environment from `yaml_file`, given the validation of
/// that file: a failed validation is returned as it is and nothing is
/// invoked; a dry run reports the validation; otherwise the creation
/// arguments are returned.
pub fn plan_creation(validation: Result<ValidationResult>, dry_run: bool, yaml_file: &str) -> (r:
    Result<CreationStep>)
    ensures
        validation is Err ==> r is Err && r->Err_0 == validation->Err_0,
        validation is Ok && dry_run ==> r is Ok && r->Ok_0 is Report && r->Ok_0->Report_0
            == validation->Ok_0,
        validation is Ok && !dry_run ==> r is Ok && r->Ok_0 is Invoke && string_views(
            r->Ok_0->Invoke_0@,
        ) == create_args_of(yaml_file@),
{
    let v = validation?;
    if dry_run {
        Ok(CreationStep::Report(v))
    } else {
        Ok(CreationStep::Invoke(create_args(yaml_file)))
    }
}

} // verus!
