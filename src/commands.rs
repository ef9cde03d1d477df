//! The environment subcommands and the decisions each takes before any
//! backend is invoked: which environments a request names, which files they
//! are created from, which packages an install request lists, and how the
//! outcome of a bulk operation is reported.
use crate::env_run::{string_views, EnvRunArgs};
use crate::error::{EnvError, Result};
use crate::exit::{count_text, decimal_of};
use crate::installer::{joined_of, path_join};
use crate::listing::string_of;
use crate::manager::{CORE_ENV_NAME, EXTRA_ENV_NAME, SNAKEMAKE_ENV_NAME};
use crate::text::{chars_of, lemma_pieces_nonempty, pieces, trim, trimmed};
use vstd::prelude::*;

verus! {

/// Options shared by the environment subcommands.
#[derive(Debug, Clone)]
pub struct EnvArgs {
    pub verbose: bool,
    /// Configuration file path.
    pub config: Option<String>,
    pub dry_run: bool,
    pub json: bool,
}

/// Which environments to create.
#[derive(Debug, Clone)]
pub struct EnvCreateArgs {
    pub all: bool,
    pub core: bool,
    pub snakemake: bool,
    pub extra: bool,
    /// A custom environment file; requires `name`.
    pub yaml: Option<String>,
    pub name: Option<String>,
}

/// Which environments to validate.
#[derive(Debug, Clone)]
pub struct EnvValidateArgs {
    pub all: bool,
    pub name: Option<String>,
}

/// Listing options.
#[derive(Debug, Clone)]
pub struct EnvListArgs {
    pub detailed: bool,
}

/// Packages to install, each entry possibly a comma-separated list.
#[derive(Debug, Clone)]
pub struct EnvInstallArgs {
    pub packages: Vec<String>,
    pub name: Option<String>,
}

/// The environment subcommands.
#[derive(Debug, Clone)]
pub enum EnvCommand {
    Create(EnvCreateArgs),
    List(EnvListArgs),
    Validate(EnvValidateArgs),
    Install(EnvInstallArgs),
    Remove { name: String },
    Run(EnvRunArgs),
}

/// The environments a creation request names, or none when it is invalid:
/// a custom file needs a name; otherwise `all` names the three standard
/// environments, and the flags and name add theirs in order.
pub open spec fn create_targets_of(a: EnvCreateArgs) -> Option<Seq<Seq<char>>> {
    if a.yaml is Some {
        match a.name {
            Some(n) => Some(seq![n@]),
            None => None,
        }
    } else if a.all {
        Some(seq![CORE_ENV_NAME@, SNAKEMAKE_ENV_NAME@, EXTRA_ENV_NAME@])
    } else {
        let picked = (if a.core {
            seq![CORE_ENV_NAME@]
        } else {
            Seq::empty()
        }) + (if a.snakemake {
            seq![SNAKEMAKE_ENV_NAME@]
        } else {
            Seq::empty()
        }) + (if a.extra {
            seq![EXTRA_ENV_NAME@]
        } else {
            Seq::empty()
        }) + (match a.name {
            Some(n) => seq![n@],
            None => Seq::empty(),
        });
        if picked.len() == 0 {
            None
        } else {
            Some(picked)
        }
    }
}

fn push_name(v: &mut Vec<String>, s: &str)
    ensures
        string_views(final(v)@) == string_views(old(v)@).push(s@),
{
    let ghost before = v@;
    v.push(String::from_str(s));
    assert(string_views(v@) =~= string_views(before).push(s@));
}

/// The environments a creation request names; a validation error when a
/// custom file comes without a name, or when nothing is named.
pub fn environments_to_create(args: &EnvCreateArgs) -> (r: Result<Vec<String>>)
    ensures
        match create_targets_of(*args) {
            Some(t) => r is Ok && string_views(r->Ok_0@) == t,
            None => r is Err && r->Err_0 is Validation,
        },
{
    let mut out: Vec<String> = Vec::new();
    if args.yaml.is_some() {
        match &args.name {
            Some(n) => {
                push_name(&mut out, n.as_str());
                assert(string_views(out@) =~= seq![n@]);
                return Ok(out);
            },
            None => {
                return Err(
                    EnvError::Validation(
                        String::from_str(
                            "When using --yaml, you must also specify --name for the environment",
                        ),
                    ),
                );
            },
        }
    }
    if args.all {
        push_name(&mut out, CORE_ENV_NAME);
        push_name(&mut out, SNAKEMAKE_ENV_NAME);
        push_name(&mut out, EXTRA_ENV_NAME);
        assert(string_views(out@) =~= seq![CORE_ENV_NAME@, SNAKEMAKE_ENV_NAME@, EXTRA_ENV_NAME@]);
        return Ok(out);
    }
    let ghost a = if args.core {
        seq![CORE_ENV_NAME@]
    } else {
        Seq::<Seq<char>>::empty()
    };
    let ghost b = if args.snakemake {
        seq![SNAKEMAKE_ENV_NAME@]
    } else {
        Seq::<Seq<char>>::empty()
    };
    let ghost c = if args.extra {
        seq![EXTRA_ENV_NAME@]
    } else {
        Seq::<Seq<char>>::empty()
    };
    let ghost d = match &args.name {
        Some(n) => seq![n@],
        None => Seq::<Seq<char>>::empty(),
    };
    if args.core {
        push_name(&mut out, CORE_ENV_NAME);
    }
    assert(string_views(out@) =~= a);
    if args.snakemake {
        push_name(&mut out, SNAKEMAKE_ENV_NAME);
    }
    assert(string_views(out@) =~= a + b);
    if args.extra {
        push_name(&mut out, EXTRA_ENV_NAME);
    }
    assert(string_views(out@) =~= a + b + c);
    if let Some(n) = &args.name {
        push_name(&mut out, n.as_str());
    }
    assert(string_views(out@) =~= a + b + c + d);
    if out.len() == 0 {
        return Err(
            EnvError::Validation(
                String::from_str("Must specify either --all, --core, --snakemake, --extra, or --name"),
            ),
        );
    }
    Ok(out)
}

/// The environments a validation request covers: the three standard ones
/// when `all` is set or no name is given, the named one otherwise.
pub fn validation_targets(args: &EnvValidateArgs) -> (r: Vec<String>)
    ensures
        (args.all || args.name is None) ==> string_views(r@) == seq![
            CORE_ENV_NAME@,
            SNAKEMAKE_ENV_NAME@,
            EXTRA_ENV_NAME@,
        ],
        (!args.all && args.name is Some) ==> string_views(r@) == seq![args.name->Some_0@],
{
    let mut out: Vec<String> = Vec::new();
    if args.all || args.name.is_none() {
        push_name(&mut out, CORE_ENV_NAME);
        push_name(&mut out, SNAKEMAKE_ENV_NAME);
        push_name(&mut out, EXTRA_ENV_NAME);
        assert(string_views(out@) =~= seq![CORE_ENV_NAME@, SNAKEMAKE_ENV_NAME@, EXTRA_ENV_NAME@]);
    } else if let Some(n) = &args.name {
        push_name(&mut out, n.as_str());
        assert(string_views(out@) =~= seq![n@]);
    }
    out
}

/// A validation request names one environment (rather than all of them).
pub open spec fn validates_single(args: EnvValidateArgs) -> bool {
    !args.all && args.name is Some
}

/// The verdict of a validation request from the existence check of each of
/// its targets, in order. For a single named environment: success when it
/// exists, a validation error naming it when it does not, the check's own
/// error when the check failed. For all of them: success exactly when every
/// check reports existence, a validation error otherwise.
pub fn validation_outcome(args: &EnvValidateArgs, checks: Vec<Result<bool>>) -> (r: Result<()>)
    requires
        checks@.len() == if validates_single(*args) {
            1int
        } else {
            3int
        },
    ensures
        validates_single(*args) ==> match checks@[0] {
            Ok(true) => r is Ok,
            Ok(false) => r is Err && r->Err_0 is Validation && r->Err_0->Validation_0@
                == "Environment "@ + args.name->Some_0@ + " validation failed"@,
            Err(e) => r == Err::<(), EnvError>(e),
        },
        !validates_single(*args) ==> (r is Ok <==> forall|i: int|
            0 <= i < checks@.len() ==> #[trigger] checks@[i] == Ok::<bool, EnvError>(true)),
        !validates_single(*args) && r is Err ==> r->Err_0 is Validation,
{
    if !args.all && args.name.is_some() {
        let mut checks = checks;
        let ghost first = checks@[0];
        let c = checks.pop();
        assert(c == Some(first));
        match c {
            Some(Ok(true)) => Ok(()),
            Some(Ok(false)) => {
                let mut msg = String::from_str("Environment ");
                match &args.name {
                    Some(n) => msg.append(n.as_str()),
                    None => {},
                }
                msg.append(" validation failed");
                Err(EnvError::Validation(msg))
            },
            Some(Err(e)) => Err(e),
            None => Ok(()),
        }
    } else {
        let mut i: usize = 0;
        while i < checks.len()
            invariant
                !validates_single(*args),
                i <= checks@.len(),
                forall|k: int| 0 <= k < i ==> #[trigger] checks@[k] == Ok::<bool, EnvError>(true),
            decreases checks@.len() - i,
        {
            match &checks[i] {
                Ok(true) => {},
                _ => {
                    return Err(EnvError::Validation(String::from_str("Environment validation failed")));
                },
            }
            i = i + 1;
        }
        Ok(())
    }
}

/// The two places a standard environment's file is looked for, in order of
/// preference: `<cwd>/src/configs/<env>.yaml`, then
/// `<cwd>/environments/configs/<env>.yaml`.
pub open spec fn yaml_candidates_of(cwd: Seq<char>, env: Seq<char>) -> (Seq<char>, Seq<char>) {
    (
        joined_of(joined_of(joined_of(cwd, "src"@), "configs"@), env + ".yaml"@),
        joined_of(joined_of(joined_of(cwd, "environments"@), "configs"@), env + ".yaml"@),
    )
}

pub fn yaml_candidates(cwd: &str, env: &str) -> (r: (String, String))
    ensures
        (r.0@, r.1@) == yaml_candidates_of(cwd@, env@),
{
    let mut file = String::from_str(env);
    file.append(".yaml");
    let a = path_join(cwd, "src");
    let a = path_join(a.as_str(), "configs");
    let a = path_join(a.as_str(), file.as_str());
    let b = path_join(cwd, "environments");
    let b = path_join(b.as_str(), "configs");
    let b = path_join(b.as_str(), file.as_str());
    (a, b)
}

/// The file to create from: the preferred candidate if it exists, else the
/// other if that exists, else the preferred one (which then fails to be read).
pub fn pick_yaml(preferred: String, other: String, preferred_exists: bool, other_exists: bool) -> (r:
    String)
    ensures
        r@ == if !preferred_exists && other_exists {
            other@
        } else {
            preferred@
        },
{
    if preferred_exists {
        preferred
    } else if other_exists {
        other
    } else {
        preferred
    }
}

/// One line of a dry-run creation report.
#[derive(Debug, Clone)]
pub struct DryRunRecord {
    pub environment: String,
    pub yaml_file: String,
    pub file_exists: bool,
    pub action: String,
    pub dry_run: bool,
    pub status: String,
}

/// The dry-run report of creating `env` from `yaml_file`: ready when the
/// file exists, `file_not_found` otherwise.
pub fn dry_run_record(env: &str, yaml_file: &str, file_exists: bool) -> (r: DryRunRecord)
    ensures
        r.environment@ == env@,
        r.yaml_file@ == yaml_file@,
        r.file_exists == file_exists,
        r.action@ == "create"@,
        r.dry_run,
        r.status@ == if file_exists {
            "ready"@
        } else {
            "file_not_found"@
        },
{
    DryRunRecord {
        environment: String::from_str(env),
        yaml_file: String::from_str(yaml_file),
        file_exists,
        action: String::from_str("create"),
        dry_run: true,
        status: if file_exists {
            String::from_str("ready")
        } else {
            String::from_str("file_not_found")
        },
    }
}

/// Outcome of a bulk operation whose targets were tried independently: an
/// execution error naming the number of failures when there was any.
pub fn creation_summary(failed: usize) -> (r: Result<()>)
    ensures
        failed == 0 <==> r is Ok,
        r is Err ==> r->Err_0 is Execution && r->Err_0->Execution_0@ == decimal_of(failed as nat)
            + " environments failed to create"@,
{
    if failed == 0 {
        return Ok(());
    }
    let mut msg = count_text(failed);
    msg.append(" environments failed to create");
    Err(EnvError::Execution(msg))
}

/// Number of failed outcomes.
pub open spec fn failures_of(outcomes: Seq<Result<()>>) -> nat
    decreases outcomes.len(),
{
    if outcomes.len() == 0 {
        0
    } else {
        failures_of(outcomes.drop_last()) + if outcomes.last() is Err {
            1nat
        } else {
            0nat
        }
    }
}

/// Outcome of a bulk creation whose targets were each attempted, whatever
/// the others gave: as `creation_summary` on the number of failures.
pub fn bulk_outcome(outcomes: &Vec<Result<()>>) -> (r: Result<()>)
    ensures
        failures_of(outcomes@) == 0 <==> r is Ok,
        r is Err ==> r->Err_0 is Execution && r->Err_0->Execution_0@ == decimal_of(
            failures_of(outcomes@),
        ) + " environments failed to create"@,
{
    let mut failed: usize = 0;
    let mut i: usize = 0;
    assert(outcomes@.subrange(0, 0) =~= Seq::<Result<()>>::empty());
    while i < outcomes.len()
        invariant
            i <= outcomes@.len(),
            failed == failures_of(outcomes@.subrange(0, i as int)),
            failed <= i,
        decreases outcomes@.len() - i,
    {
        assert(outcomes@.subrange(0, i + 1).drop_last() =~= outcomes@.subrange(0, i as int));
        if outcomes[i].is_err() {
            failed = failed + 1;
        }
        i = i + 1;
    }
    assert(outcomes@.subrange(0, outcomes@.len() as int) =~= outcomes@);
    creation_summary(failed)
}

/// The non-empty trimmed pieces, in order.
pub open spec fn kept(ps: Seq<Seq<char>>) -> Seq<Seq<char>>
    decreases ps.len(),
{
    if ps.len() == 0 {
        Seq::empty()
    } else if trim(ps.last()).len() > 0 {
        kept(ps.drop_last()).push(trim(ps.last()))
    } else {
        kept(ps.drop_last())
    }
}

/// The package names of install entries: each entry split at commas, each
/// piece trimmed, empty pieces dropped.
pub open spec fn packages_of(entries: Seq<Seq<char>>) -> Seq<Seq<char>>
    decreases entries.len(),
{
    if entries.len() == 0 {
        Seq::empty()
    } else {
        packages_of(entries.drop_last()) + kept(pieces(entries.last(), ','))
    }
}

/// The package names of install entries; a validation error when there are
/// none.
pub fn split_packages(entries: &Vec<String>) -> (r: Result<Vec<String>>)
    ensures
        packages_of(string_views(entries@)).len() == 0 <==> r is Err,
        r is Err ==> r->Err_0 is Validation,
        r is Ok ==> string_views(r->Ok_0@) == packages_of(string_views(entries@)),
{
    let ghost all = string_views(entries@);
    let mut out: Vec<String> = Vec::new();
    let mut e: usize = 0;
    assert(all.subrange(0, 0) =~= Seq::<Seq<char>>::empty());
    while e < entries.len()
        invariant
            all == string_views(entries@),
            e <= entries@.len(),
            string_views(out@) == packages_of(all.subrange(0, e as int)),
        decreases entries@.len() - e,
    {
        let chars = chars_of(entries[e].as_str());
        let ghost base = string_views(out@);
        let n = chars.len();
        let mut cur: Vec<char> = Vec::new();
        let mut i: usize = 0;
        assert(chars@.subrange(0, 0) =~= Seq::<char>::empty());
        while i < n
            invariant
                n == chars@.len(),
                i <= n,
                pieces(chars@.subrange(0, i as int), ',').len() >= 1,
                cur@ == pieces(chars@.subrange(0, i as int), ',').last(),
                string_views(out@) == base + kept(
                    pieces(chars@.subrange(0, i as int), ',').drop_last(),
                ),
            decreases n - i,
        {
            let c = chars[i];
            let ghost pre = chars@.subrange(0, i as int);
            let ghost next = chars@.subrange(0, i + 1);
            assert(next.drop_last() =~= pre);
            assert(next.last() == c);
            proof {
                lemma_pieces_nonempty(next, ',');
            }
            if c == ',' {
                let ghost ps = pieces(pre, ',');
                assert(pieces(next, ',').drop_last() =~= ps);
                assert(ps =~= ps.drop_last().push(ps.last()));
                let t = trimmed(&cur);
                if t.len() > 0 {
                    let ghost before = out@;
                    out.push(string_of(&t));
                    assert(string_views(out@) =~= string_views(before).push(t@));
                }
                cur = Vec::new();
            } else {
                let ghost ps = pieces(pre, ',');
                cur.push(c);
                assert(pieces(next, ',').drop_last() =~= ps.drop_last());
            }
            i = i + 1;
        }
        assert(chars@.subrange(0, n as int) =~= chars@);
        let ghost ps = pieces(chars@, ',');
        assert(ps =~= ps.drop_last().push(ps.last()));
        let t = trimmed(&cur);
        if t.len() > 0 {
            let ghost before = out@;
            out.push(string_of(&t));
            assert(string_views(out@) =~= string_views(before).push(t@));
        }
        assert(all.subrange(0, e + 1).drop_last() =~= all.subrange(0, e as int));
        assert(all.subrange(0, e + 1).last() == entries@[e as int]@);
        assert(string_views(out@) =~= packages_of(all.subrange(0, e as int)) + kept(ps));
        e = e + 1;
    }
    assert(all.subrange(0, entries@.len() as int) =~= all);
    if out.len() == 0 {
        return Err(EnvError::Validation(String::from_str("No packages specified for installation")));
    }
    Ok(out)
}

/// The environment an install request targets: its name, or the core
/// environment.
pub fn install_target(args: &EnvInstallArgs) -> (r: String)
    ensures
        r@ == match args.name {
            Some(n) => n@,
            None => CORE_ENV_NAME@,
        },
{
    match &args.name {
        Some(n) => n.clone(),
        None => String::from_str(CORE_ENV_NAME),
    }
}

} // verus!
