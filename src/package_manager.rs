//! Backend kinds and priority-ordered backend detection.
//!
//! Probing a backend (is it on the search path, does `--version` succeed) is
//! done by the caller and handed in as a function; this module decides which
//! backend is selected from the probe outcomes.
use crate::error::Result;
use crate::text::same_text;
use vstd::prelude::*;

verus! {

/// The supported package-manager backends, plus the absence of one.
#[derive(Debug, Clone, Copy, PartialEq, Eq, Hash, Structural)]
pub enum PackageManager {
    Conda,
    Mamba,
    Micromamba,
    Absent,
}

/// Executable name of a backend; empty for the absent backend.
pub open spec fn command_of(pm: PackageManager) -> Seq<char> {
    match pm {
        PackageManager::Conda => "conda"@,
        PackageManager::Mamba => "mamba"@,
        PackageManager::Micromamba => "micromamba"@,
        PackageManager::Absent => ""@,
    }
}

/// Display name of a backend.
pub open spec fn display_of(pm: PackageManager) -> Seq<char> {
    match pm {
        PackageManager::Absent => "none"@,
        _ => command_of(pm),
    }
}

/// "Run inside environment `env`" as text: `<command> run -n <env>`, or just
/// `env` when no backend is present.
pub open spec fn run_syntax_of(pm: PackageManager, env: Seq<char>) -> Seq<char> {
    match pm {
        PackageManager::Absent => env,
        _ => command_of(pm) + " run -n "@ + env,
    }
}

/// Backend forced by a (lower-cased) override value, if it names one.
pub open spec fn forced_kind_of(name: Seq<char>) -> Option<PackageManager> {
    if name == "conda"@ {
        Some(PackageManager::Conda)
    } else if name == "mamba"@ {
        Some(PackageManager::Mamba)
    } else if name == "micromamba"@ {
        Some(PackageManager::Micromamba)
    } else {
        None
    }
}

/// The result of `str::to_lowercase` on `s`.
pub uninterp spec fn lower_of(s: Seq<char>) -> Seq<char>;

/// Relies on `str::to_lowercase`: the lower-case mapping of each character.
#[verifier::external_body]
fn lowercase(s: &str) -> (r: String)
    ensures
        r@ == lower_of(s@),
{
    s.to_lowercase()
}

/// `pm` is the first backend of `order` whose probe may report it usable, every
/// earlier backend's probe reporting it unusable; or, when every probe reports
/// unusable, `pm` is the absent backend.
pub open spec fn probe_picks<F: Fn(PackageManager) -> bool>(
    probe: F,
    order: Seq<PackageManager>,
    pm: PackageManager,
) -> bool {
    ||| exists|k: int|
        0 <= k < order.len() && order[k] == pm && probe.ensures((order[k],), true) && forall|
            i: int,
        |
            0 <= i < k ==> #[trigger] probe.ensures((order[i],), false)
    ||| pm == PackageManager::Absent && forall|i: int|
        0 <= i < order.len() ==> #[trigger] probe.ensures((order[i],), false)
}

/// Outcome of a detection that starts from the cached value `prev`: the cached
/// value if there is one, the priority probe otherwise.
pub open spec fn detection_result<F: Fn(PackageManager) -> bool>(
    prev: Option<PackageManager>,
    probe: F,
    order: Seq<PackageManager>,
    pm: PackageManager,
) -> bool {
    match prev {
        Some(p) => pm == p,
        None => probe_picks(probe, order, pm),
    }
}

/// Outcome of forcing `forced`: it is taken when its probe reports it usable,
/// otherwise detection falls back to the priority order.
pub open spec fn forced_result<F: Fn(PackageManager) -> bool>(
    prev: Option<PackageManager>,
    probe: F,
    order: Seq<PackageManager>,
    forced: PackageManager,
    pm: PackageManager,
) -> bool {
    ||| probe.ensures((forced,), true) && pm == forced
    ||| probe.ensures((forced,), false) && detection_result(prev, probe, order, pm)
}

impl PackageManager {
    /// Executable name of this backend.
    pub fn command(&self) -> (r: &'static str)
        ensures
            r@ == command_of(*self),
    {
        match self {
            PackageManager::Conda => "conda",
            PackageManager::Mamba => "mamba",
            PackageManager::Micromamba => "micromamba",
            PackageManager::Absent => "",
        }
    }

    /// Text form of running inside environment `env`, e.g. `conda run -n env`.
    pub fn run_syntax(&self, env: &str) -> (r: String)
        ensures
            r@ == run_syntax_of(*self, env@),
    {
        match self {
            PackageManager::Absent => String::from_str(env),
            _ => {
                let mut s = String::from_str(self.command());
                s.append(" run -n ");
                s.append(env);
                s
            },
        }
    }

    /// Display name of this backend (`none` for the absent one).
    pub fn to_string(&self) -> (r: String)
        ensures
            r@ == display_of(*self),
    {
        match self {
            PackageManager::Absent => String::from_str("none"),
            _ => String::from_str(self.command()),
        }
    }
}

/// The backend that an override value selects, compared case-sensitively;
/// callers lower-case the value first.
pub fn forced_kind(name: &str) -> (r: Option<PackageManager>)
    ensures
        r == forced_kind_of(name@),
{
    if same_text(name, "conda") {
        Some(PackageManager::Conda)
    } else if same_text(name, "mamba") {
        Some(PackageManager::Mamba)
    } else if same_text(name, "micromamba") {
        Some(PackageManager::Micromamba)
    } else {
        None
    }
}

/// Priority-ordered detector that remembers the first backend it selects.
pub struct PackageManagerDetector {
    pub detected: Option<PackageManager>,
    pub detection_order: Vec<PackageManager>,
}

impl PackageManagerDetector {
    /// A detector with nothing detected and the order conda, mamba, micromamba.
    pub fn new() -> (r: Self)
        ensures
            r.detected is None,
            r.detection_order@ == seq![
                PackageManager::Conda,
                PackageManager::Mamba,
                PackageManager::Micromamba,
            ],
    {
        let mut order: Vec<PackageManager> = Vec::new();
        order.push(PackageManager::Conda);
        order.push(PackageManager::Mamba);
        order.push(PackageManager::Micromamba);
        PackageManagerDetector { detected: None, detection_order: order }
    }

    /// A detector with nothing detected and the given priority order.
    pub fn with_order(order: Vec<PackageManager>) -> (r: Self)
        ensures
            r.detected is None,
            r.detection_order@ == order@,
    {
        PackageManagerDetector { detected: None, detection_order: order }
    }

    /// Returns the cached backend if any; otherwise probes the backends in
    /// priority order, selects the first usable one (or the absent backend when
    /// none is), and caches the selection. Never fails.
    pub fn detect<F: Fn(PackageManager) -> bool>(&mut self, is_available: F) -> (r: Result<
        PackageManager,
    >)
        requires
            forall|pm: PackageManager| is_available.requires((pm,)),
        ensures
            r is Ok,
            final(self).detected == Some(r->Ok_0),
            final(self).detection_order == old(self).detection_order,
            detection_result(
                old(self).detected,
                is_available,
                old(self).detection_order@,
                r->Ok_0,
            ),
    {
        if let Some(pm) = self.detected {
            return Ok(pm);
        }
        let n = self.detection_order.len();
        let mut i: usize = 0;
        while i < n
            invariant
                *self == *old(self),
                self.detected is None,
                n == self.detection_order@.len(),
                i <= n,
                forall|pm: PackageManager| is_available.requires((pm,)),
                forall|j: int|
                    0 <= j < i ==> #[trigger] is_available.ensures(
                        (self.detection_order@[j],),
                        false,
                    ),
            decreases n - i,
        {
            let pm = self.detection_order[i];
            if is_available(pm) {
                self.detected = Some(pm);
                assert(probe_picks(is_available, old(self).detection_order@, pm)) by {
                    assert(old(self).detection_order@[i as int] == pm);
                }
                return Ok(pm);
            }
            i = i + 1;
        }
        self.detected = Some(PackageManager::Absent);
        Ok(PackageManager::Absent)
    }

    /// The cached backend, if any.
    pub fn get(&self) -> (r: Option<PackageManager>)
        ensures
            r == self.detected,
    {
        self.detected
    }

    /// Text form of running inside `env_name` with the cached backend; just
    /// `env_name` when nothing has been detected.
    pub fn get_run_command(&self, env_name: &str) -> (r: String)
        ensures
            r@ == match self.detected {
                Some(pm) => run_syntax_of(pm, env_name@),
                None => env_name@,
            },
    {
        match self.get() {
            Some(pm) => pm.run_syntax(env_name),
            None => String::from_str(env_name),
        }
    }

    /// Forces `pm` when its probe reports it usable; otherwise falls back to
    /// the priority detection. Never fails.
    pub fn detect_specific<F: Fn(PackageManager) -> bool>(
        &mut self,
        pm: PackageManager,
        is_available: F,
    ) -> (r: Result<PackageManager>)
        requires
            forall|p: PackageManager| is_available.requires((p,)),
        ensures
            r is Ok,
            final(self).detected == Some(r->Ok_0),
            final(self).detection_order == old(self).detection_order,
            forced_result(
                old(self).detected,
                is_available,
                old(self).detection_order@,
                pm,
                r->Ok_0,
            ),
    {
        if is_available(pm) {
            self.detected = Some(pm);
            return Ok(pm);
        }
        self.detect(is_available)
    }

    /// Detection honouring an override value: a value naming a backend (in any
    /// letter case) forces it as `detect_specific` does; any other value, or
    /// none, leads to the priority detection.
    pub fn detect_with_env_override<F: Fn(PackageManager) -> bool>(
        &mut self,
        requested: Option<&str>,
        is_available: F,
    ) -> (r: Result<PackageManager>)
        requires
            forall|p: PackageManager| is_available.requires((p,)),
        ensures
            r is Ok,
            final(self).detected == Some(r->Ok_0),
            final(self).detection_order == old(self).detection_order,
            ({
                let forced = match requested {
                    Some(s) => forced_kind_of(lower_of(s@)),
                    None => None,
                };
                match forced {
                    Some(f) => forced_result(
                        old(self).detected,
                        is_available,
                        old(self).detection_order@,
                        f,
                        r->Ok_0,
                    ),
                    None => detection_result(
                        old(self).detected,
                        is_available,
                        old(self).detection_order@,
                        r->Ok_0,
                    ),
                }
            }),
    {
        if let Some(s) = requested {
            let lowered = lowercase(s);
            if let Some(pm) = forced_kind(lowered.as_str()) {
                return self.detect_specific(pm, is_available);
            }
        }
        self.detect(is_available)
    }
}

/// A forced backend whose probe cannot report it usable is not taken:
/// detection falls back to the priority order (or the cached backend).
pub proof fn lemma_unavailable_forced_falls_back<F: Fn(PackageManager) -> bool>(
    prev: Option<PackageManager>,
    probe: F,
    order: Seq<PackageManager>,
    forced: PackageManager,
    pm: PackageManager,
)
    requires
        !probe.ensures((forced,), true),
        forced_result(prev, probe, order, forced, pm),
    ensures
        detection_result(prev, probe, order, pm),
{
}

/// A backend kind that is present names itself, and the run text mentions both
/// the backend's command and the environment.
pub proof fn lemma_run_syntax_mentions_both(pm: PackageManager, env: Seq<char>)
    requires
        pm != PackageManager::Absent,
    ensures
        crate::text::contains(run_syntax_of(pm, env), command_of(pm)),
        crate::text::contains(run_syntax_of(pm, env), env),
{
    let s = run_syntax_of(pm, env);
    let c = command_of(pm);
    assert(s.subrange(0, 0 + c.len() as int) =~= c);
    let k = s.len() - env.len();
    assert(s.subrange(k, k + env.len()) =~= env);
}

} // verus!
