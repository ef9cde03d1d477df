//! Arguments of "run a command inside an environment", and their resolution
//! into an environment name and a command line.
use crate::error::{EnvError, Result};
use vstd::prelude::*;

verus! {

/// Arguments of a run request. The environment name comes from `name` or,
/// failing that, from the first positional argument; the command from
/// `command`, from `script`, or from the remaining positional arguments.
#[derive(Debug, Clone)]
pub struct EnvRunArgs {
    pub name: Option<String>,
    pub command: Option<String>,
    pub script: Option<String>,
    pub args: Vec<String>,
    pub cwd: String,
    /// Environment variables as `KEY=VALUE`.
    pub env: Vec<String>,
    pub no_capture: bool,
}

pub open spec fn string_views(v: Seq<String>) -> Seq<Seq<char>> {
    v.map_values(|s: String| s@)
}

/// `parts` joined with single spaces.
pub open spec fn join_spaced(parts: Seq<Seq<char>>) -> Seq<char>
    decreases parts.len(),
{
    if parts.len() == 0 {
        Seq::empty()
    } else if parts.len() == 1 {
        parts[0]
    } else {
        join_spaced(parts.drop_last()) + seq![' '] + parts.last()
    }
}

/// The environment name a request names, if any.
pub open spec fn env_name_of(a: EnvRunArgs) -> Option<Seq<char>> {
    match a.name {
        Some(n) => Some(n@),
        None => if a.args@.len() > 0 {
            Some(a.args@[0]@)
        } else {
            None
        },
    }
}

/// The positional arguments that form the command.
pub open spec fn command_words_of(a: EnvRunArgs) -> Seq<Seq<char>> {
    let all = string_views(a.args@);
    if a.name is Some {
        all
    } else if all.len() > 0 {
        all.subrange(1, all.len() as int)
    } else {
        all
    }
}

/// The command a request names, if any, not counting a script.
pub open spec fn command_of(a: EnvRunArgs) -> Option<Seq<char>> {
    match a.command {
        Some(c) => Some(c@),
        None => if command_words_of(a).len() > 0 {
            Some(join_spaced(command_words_of(a)))
        } else {
            None
        },
    }
}

/// The request says what to run, and not both as a command and as a script.
pub open spec fn shape_ok(a: EnvRunArgs) -> bool {
    let has_positional = if a.name is Some {
        a.args@.len() > 0
    } else {
        a.args@.len() > 1
    };
    &&& (a.command is Some || a.script is Some || has_positional)
    &&& !(a.command is Some && a.script is Some)
}

/// Every environment-variable entry holds a `=`.
pub open spec fn pairs_ok(env: Seq<String>) -> bool {
    forall|i: int| 0 <= i < env.len() ==> (#[trigger] env[i])@.contains('=')
}

/// Text of running a script: `Rscript <script>`.
pub open spec fn script_command_of(script: Seq<char>) -> Seq<char> {
    "Rscript "@ + script
}

/// Relies on `std::path::Path::exists`: whether the path names something on
/// disk. Nothing is stated: the answer depends on the filesystem.
#[verifier::external_body]
fn path_exists(p: &str) -> bool {
    std::path::Path::new(p).exists()
}

/// Whether `s` holds the character `c`.
pub fn has_char(s: &str, c: char) -> (r: bool)
    ensures
        r == s@.contains(c),
{
    let n = s.unicode_len();
    let mut i: usize = 0;
    while i < n
        invariant
            n == s@.len(),
            i <= n,
            forall|k: int| 0 <= k < i ==> s@[k] != c,
        decreases n - i,
    {
        if s.get_char(i) == c {
            return true;
        }
        i = i + 1;
    }
    false
}

/// Joins `parts[from..]` with single spaces.
pub fn join_from(parts: &Vec<String>, from: usize) -> (r: String)
    requires
        from <= parts@.len(),
    ensures
        r@ == join_spaced(string_views(parts@).subrange(from as int, parts@.len() as int)),
{
    let ghost all = string_views(parts@);
    let mut out = String::new();
    let mut i: usize = from;
    assert(all.subrange(from as int, from as int) =~= Seq::<Seq<char>>::empty());
    while i < parts.len()
        invariant
            all == string_views(parts@),
            from <= i <= parts@.len(),
            out@ == join_spaced(all.subrange(from as int, i as int)),
        decreases parts@.len() - i,
    {
        let ghost prev = all.subrange(from as int, i as int);
        let ghost next = all.subrange(from as int, i + 1);
        assert(next.drop_last() =~= prev);
        assert(next.last() == parts@[i as int]@);
        if i > from {
            out.append(" ");
            proof {
                reveal_strlit(" ");
            }
            assert(next.len() >= 2);
        } else {
            assert(next =~= seq![parts@[i as int]@]);
        }
        out.append(parts[i].as_str());
        i = i + 1;
    }
    out
}

impl EnvRunArgs {
    /// The environment name: `name` if given, else the first positional
    /// argument; a validation error when neither is there.
    pub fn get_env_name(&self) -> (r: Result<String>)
        ensures
            match env_name_of(*self) {
                Some(n) => r is Ok && r->Ok_0@ == n,
                None => r is Err && r->Err_0 is Validation && r->Err_0->Validation_0@
                    == "Missing environment name"@,
            },
    {
        if let Some(name) = &self.name {
            return Ok(name.clone());
        }
        if self.args.len() > 0 {
            return Ok(self.args[0].clone());
        }
        Err(EnvError::Validation(String::from_str("Missing environment name")))
    }

    /// The command: `command` if given, else the positional arguments after
    /// the environment name joined by spaces; a validation error when there
    /// are none.
    pub fn get_command(&self) -> (r: Result<String>)
        ensures
            match command_of(*self) {
                Some(c) => r is Ok && r->Ok_0@ == c,
                None => r is Err && r->Err_0 is Validation,
            },
    {
        if let Some(cmd) = &self.command {
            return Ok(cmd.clone());
        }
        let start: usize = if self.name.is_some() {
            0
        } else if self.args.len() > 0 {
            1
        } else {
            0
        };
        let ghost all = string_views(self.args@);
        assert(all.subrange(0, all.len() as int) =~= all);
        if start >= self.args.len() {
            return Err(EnvError::Validation(String::from_str("Missing command")));
        }
        Ok(join_from(&self.args, start))
    }
}

/// The full command line of a script request: `Rscript <script>` followed by
/// the positional arguments; the `command` itself otherwise.
pub fn build_full_command(args: &EnvRunArgs) -> (r: Result<String>)
    ensures
        match args.script {
            Some(s) => r is Ok && r->Ok_0@ == if args.args@.len() > 0 {
                script_command_of(s@) + seq![' '] + join_spaced(string_views(args.args@))
            } else {
                script_command_of(s@)
            },
            None => match args.command {
                Some(c) => r is Ok && r->Ok_0@ == c@,
                None => r is Err && r->Err_0 is Validation,
            },
        },
{
    if let Some(script) = &args.script {
        let mut cmd = String::from_str("Rscript ");
        cmd.append(script.as_str());
        if args.args.len() > 0 {
            let rest = join_from(&args.args, 0);
            assert(string_views(args.args@).subrange(0, args.args@.len() as int) =~= string_views(
                args.args@,
            ));
            cmd.append(" ");
            cmd.append(rest.as_str());
            proof {
                reveal_strlit(" ");
            }
        }
        Ok(cmd)
    } else if let Some(command) = &args.command {
        Ok(command.clone())
    } else {
        Err(EnvError::Validation(String::from_str("Must specify either --command or --script")))
    }
}

/// A run request passes its checks: it says what to run, not both as a
/// command and a script, a named script exists, and every variable entry has
/// the form `KEY=VALUE`.
pub open spec fn run_args_ok(a: EnvRunArgs, script_exists: bool) -> bool {
    shape_ok(a) && (a.script is Some ==> script_exists) && pairs_ok(a.env@)
}

/// Checks a run request given whether its script (if any) exists on disk:
/// success exactly when `run_args_ok` holds, a validation error otherwise.
pub fn check_run_args(args: &EnvRunArgs, script_exists: bool) -> (r: Result<()>)
    ensures
        r is Ok <==> run_args_ok(*args, script_exists),
        r is Err ==> r->Err_0 is Validation,
{
    let has_positional_cmd = if args.name.is_some() {
        args.args.len() > 0
    } else {
        args.args.len() > 1
    };
    if args.command.is_none() && args.script.is_none() && !has_positional_cmd {
        return Err(
            EnvError::Validation(
                String::from_str("Must specify either --command, --script, or positional command"),
            ),
        );
    }
    if args.command.is_some() && args.script.is_some() {
        return Err(EnvError::Validation(String::from_str("Cannot specify both --command and --script")));
    }
    if let Some(script) = &args.script {
        if !script_exists {
            let mut msg = String::from_str("Script file does not exist: ");
            msg.append(script.as_str());
            return Err(EnvError::Validation(msg));
        }
    }
    let mut i: usize = 0;
    while i < args.env.len()
        invariant
            i <= args.env@.len(),
            forall|k: int| 0 <= k < i ==> (#[trigger] args.env@[k])@.contains('='),
        decreases args.env@.len() - i,
    {
        if !has_char(args.env[i].as_str(), '=') {
            let mut msg = String::from_str("Invalid environment variable format: ");
            msg.append(args.env[i].as_str());
            msg.append(". Expected KEY=VALUE");
            return Err(EnvError::Validation(msg));
        }
        i = i + 1;
    }
    Ok(())
}

/// Checks a run request before anything is started, looking the script (if
/// any) up on disk; the verdict is `check_run_args` on what the lookup said.
pub fn validate_args(args: &EnvRunArgs) -> (r: Result<()>)
    ensures
        r is Err ==> r->Err_0 is Validation,
        args.script is None ==> (r is Ok <==> run_args_ok(*args, false)),
        args.script is Some ==> exists|found: bool| (r is Ok <==> #[trigger] run_args_ok(*args, found)),
{
    let found = match &args.script {
        Some(script) => path_exists(script.as_str()),
        None => false,
    };
    let r = check_run_args(args, found);
    assert(r is Ok <==> run_args_ok(*args, found));
    r
}

/// What a validated run request resolves to.
#[derive(Debug, Clone)]
pub struct RunRequest {
    pub env_name: String,
    pub command: String,
    pub env_vars: Vec<String>,
    pub cwd: String,
    pub capture_output: bool,
}

/// Resolves a run request, given whether its script (if any) exists: the
/// environment name, then the command (a script runs as `Rscript <script>`),
/// then the checks of `check_run_args`. The first failure is returned, always
/// a validation error; on success the request carries the caller's variables,
/// working directory and capture choice unchanged.
pub fn plan_env_run(args: &EnvRunArgs, script_exists: bool) -> (r: Result<RunRequest>)
    ensures
        r is Ok <==> (env_name_of(*args) is Some && (args.script is Some || command_of(*args) is Some)
            && run_args_ok(*args, script_exists)),
        r is Err ==> r->Err_0 is Validation,
        r is Ok ==> ({
            let q = r->Ok_0;
            &&& env_name_of(*args) == Some(q.env_name@)
            &&& q.command@ == match args.script {
                Some(s) => script_command_of(s@),
                None => command_of(*args)->Some_0,
            }
            &&& q.env_vars@ == args.env@
            &&& q.cwd@ == args.cwd@
            &&& q.capture_output == !args.no_capture
        }),
{
    let env_name = args.get_env_name()?;
    let command = match &args.script {
        Some(script) => {
            let mut c = String::from_str("Rscript ");
            c.append(script.as_str());
            c
        },
        None => args.get_command()?,
    };
    check_run_args(args, script_exists)?;
    Ok(
        RunRequest {
            env_name,
            command,
            env_vars: args.env.clone(),
            cwd: args.cwd.clone(),
            capture_output: !args.no_capture,
        },
    )
}

} // verus!
