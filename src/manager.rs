//! The environment manager's own state: the resolved backend, the registry
//! of managed environments and their statuses, the variables every backend
//! invocation runs with, and the environment templates.
use crate::error::{EnvError, Result};
use crate::env_run::string_views;
use crate::installer::{joined_of, path_join};
use crate::package_manager::PackageManager;
use crate::text::same_text;
use vstd::prelude::*;

verus! {

/// Name of the core bioinformatics environment.
pub const CORE_ENV_NAME: &'static str = "xdxtools-core";

/// Name of the R environment.
pub const R_ENV_NAME: &'static str = "xdxtools-r";

/// Name of the workflow-engine environment.
pub const SNAKEMAKE_ENV_NAME: &'static str = "xdxtools-snakemake";

/// Name of the additional-tools environment.
pub const EXTRA_ENV_NAME: &'static str = "xdxtools-extra";

/// Number of template files the configuration directory is expected to hold.
pub const TEMPLATE_COUNT: usize = 4;

pub const CORE_TEMPLATE: &'static str = "name: xdxtools-core\nchannels:\n  - conda-forge\n  - bioconda\ndependencies:\n  - python=3.10\n  - numpy=1.24\n  - pandas\n  - matplotlib\n  - seaborn\n  - scipy\n  - scikit-learn\n  - biopython\n  - cutadapt\n  - fastqc\n  - multiqc\n  - trimmomatic\n  - bowtie2\n  - hisat2\n  - star\n  - subread\n  - samtools\n  - bcftools\n  - bedtools\n  - igvtools\n  - picard\n  - gatk4\n  - snakemake\n  - pandas\n  - numpy\n  - matplotlib\n  - seaborn\n  - jupyter\n";

pub const R_TEMPLATE: &'static str = "name: xdxtools-r\nchannels:\n  - conda-forge\n  - bioconda\ndependencies:\n  - r-base=4.4.3\n  - qualimap\n  - r-tidyverse\n  - r-dplyr\n  - r-ggplot2\n  - r-pheatmap\n  - r-rcolorbrewer\n  - r-data.table\n  - r-readr\n  - r-stringr\n  - r-matrix\n  - r-genomicranges\n  - r-iranges\n  - r-s4vectors\n  - r-biocmanager\n";

pub const SNAKEMAKE_TEMPLATE: &'static str = "name: xdxtools-snakemake\nchannels:\n  - conda-forge\n  - bioconda\ndependencies:\n  - python=3.10\n  - snakemake\n  - pandas\n  - numpy\n  - matplotlib\n  - graphviz\n  - pyyaml\n  - docutils\n  - jinja2\n  - setuptools\n";

pub const EXTRA_TEMPLATE: &'static str = "name: xdxtools-extra\nchannels:\n  - conda-forge\n  - bioconda\ndependencies:\n  - python=3.10\n  - plotly\n  - dash\n  - bokeh\n  - altair\n  - streamlit\n  - dash-bootstrap-components\n  - openpyxl\n  - xlsxwriter\n  - pillow\n  - networkx\n  - python-igraph\n";

/// The managed environment names, in registry order.
pub open spec fn managed_names_of() -> Seq<Seq<char>> {
    seq![CORE_ENV_NAME@, R_ENV_NAME@, SNAKEMAKE_ENV_NAME@, EXTRA_ENV_NAME@]
}

/// The managed environment names, in registry order.
pub fn managed_environment_names() -> (r: Vec<String>)
    ensures
        string_views(r@) == managed_names_of(),
{
    let r = vec![
        String::from_str(CORE_ENV_NAME),
        String::from_str(R_ENV_NAME),
        String::from_str(SNAKEMAKE_ENV_NAME),
        String::from_str(EXTRA_ENV_NAME),
    ];
    assert(string_views(r@) =~= managed_names_of());
    r
}

/// The tools each managed environment provides.
pub open spec fn tools_of(env: Seq<char>) -> Seq<Seq<char>> {
    if env == "xdxtools-core"@ {
        seq!["fastqc"@, "multiqc"@, "seqkit"@, "seqtk"@, "samtools"@, "picard"@, "bismark"@, "trim_galore"@, "trim-galore"@, "star"@, "htseq-count"@, "htseq"@, "rmats"@, "macs2"@, "bwa"@, "bowtie2"@, "phantompeakqualtools"@, "bwa-index"@, "bowtie2-build"@]
    } else if env == "xdxtools-r"@ {
        seq!["qualimap"@, "R"@, "Rscript"@]
    } else if env == "xdxtools-snakemake"@ {
        seq!["snakemake"@, "jinja2"@, "click"@, "git"@]
    } else if env == "xdxtools-extra"@ {
        seq!["bedtools"@, "bcftools"@, "vcftools"@, "tabix"@, "deepTools"@, "genrich"@, "homer"@, "jupyter"@, "jupyterlab"@, "flask"@, "dash"@, "streamlit"@, "scikit-learn"@, "scipy"@, "statsmodels"@]
    } else {
        Seq::empty()
    }
}

fn names(items: &[&str]) -> (r: Vec<String>)
    ensures
        r@.len() == items@.len(),
        forall|i: int| 0 <= i < items@.len() ==> (#[trigger] r@[i])@ == items@[i]@,
{
    let mut r: Vec<String> = Vec::new();
    let mut i: usize = 0;
    while i < items.len()
        invariant
            i <= items@.len(),
            r@.len() == i,
            forall|k: int| 0 <= k < i ==> (#[trigger] r@[k])@ == items@[k]@,
        decreases items@.len() - i,
    {
        r.push(String::from_str(items[i]));
        i = i + 1;
    }
    r
}

/// The tools a managed environment provides; none for any other name.
pub fn tools_for(env: &str) -> (r: Vec<String>)
    ensures
        string_views(r@) == tools_of(env@),
{
    if same_text(env, "xdxtools-core") {
        let r = names(&["fastqc", "multiqc", "seqkit", "seqtk", "samtools", "picard", "bismark", "trim_galore", "trim-galore", "star", "htseq-count", "htseq", "rmats", "macs2", "bwa", "bowtie2", "phantompeakqualtools", "bwa-index", "bowtie2-build"]);
        assert(string_views(r@) =~= tools_of(env@));
        r
    } else if same_text(env, "xdxtools-r") {
        let r = names(&["qualimap", "R", "Rscript"]);
        assert(string_views(r@) =~= tools_of(env@));
        r
    } else if same_text(env, "xdxtools-snakemake") {
        let r = names(&["snakemake", "jinja2", "click", "git"]);
        assert(string_views(r@) =~= tools_of(env@));
        r
    } else if same_text(env, "xdxtools-extra") {
        let r = names(&["bedtools", "bcftools", "vcftools", "tabix", "deepTools", "genrich", "homer", "jupyter", "jupyterlab", "flask", "dash", "streamlit", "scikit-learn", "scipy", "statsmodels"]);
        assert(string_views(r@) =~= tools_of(env@));
        r
    } else {
        let r: Vec<String> = Vec::new();
        assert(string_views(r@) =~= tools_of(env@));
        r
    }
}

/// The template text of a managed environment that has one.
pub open spec fn template_of(env: Seq<char>) -> Option<Seq<char>> {
    if env == CORE_ENV_NAME@ {
        Some(CORE_TEMPLATE@)
    } else if env == R_ENV_NAME@ {
        Some(R_TEMPLATE@)
    } else if env == SNAKEMAKE_ENV_NAME@ {
        Some(SNAKEMAKE_TEMPLATE@)
    } else if env == EXTRA_ENV_NAME@ {
        Some(EXTRA_TEMPLATE@)
    } else {
        None
    }
}

/// The template text of a managed environment; a validation error for any
/// other name.
pub fn generate_environment_file(env_name: &str) -> (r: Result<String>)
    ensures
        match template_of(env_name@) {
            Some(t) => r is Ok && r->Ok_0@ == t,
            None => r is Err && r->Err_0 is Validation,
        },
{
    if same_text(env_name, CORE_ENV_NAME) {
        Ok(String::from_str(CORE_TEMPLATE))
    } else if same_text(env_name, R_ENV_NAME) {
        Ok(String::from_str(R_TEMPLATE))
    } else if same_text(env_name, SNAKEMAKE_ENV_NAME) {
        Ok(String::from_str(SNAKEMAKE_TEMPLATE))
    } else if same_text(env_name, EXTRA_ENV_NAME) {
        Ok(String::from_str(EXTRA_TEMPLATE))
    } else {
        let mut msg = String::from_str("Unknown environment: ");
        msg.append(env_name);
        Err(EnvError::Validation(msg))
    }
}

/// Lifecycle status of a managed environment.
#[derive(Debug, Clone)]
pub enum EnvironmentStatus {
    /// Exists and is ready.
    Ready,
    /// Exists but has not been re-checked.
    Installed,
    /// Its file exists but the environment has not been created.
    NotInstalled,
    /// Its file was not found.
    Missing,
    /// Checking it failed.
    Error(String),
}

/// One managed environment.
#[derive(Debug, Clone)]
pub struct MicromambaEnvironment {
    pub name: String,
    /// Path of its configuration file.
    pub file_path: String,
    /// Tools it nominally provides.
    pub tools: Vec<String>,
    pub status: EnvironmentStatus,
    /// Creation time, in seconds since the Unix epoch.
    pub created_at: Option<i64>,
}

/// Interpreter versions the environments are built with.
#[derive(Debug, Clone)]
pub struct VersionConfig {
    pub python_version: String,
    pub r_version: String,
}

impl Default for VersionConfig {
    fn default() -> (r: Self)
        ensures
            r.python_version@ == "3.10.13"@,
            r.r_version@ == "4.4.3"@,
    {
        VersionConfig {
            python_version: String::from_str("3.10.13"),
            r_version: String::from_str("4.4.3"),
        }
    }
}

/// Status reported by a listing, from the result of re-checking existence.
pub open spec fn listed_status_ok(check: Result<bool>, status: EnvironmentStatus) -> bool {
    match check {
        Ok(true) => status is Ready,
        Ok(false) => status is NotInstalled,
        Err(e) => status is Error && status->Error_0@ == crate::error::error_text(e),
    }
}

pub open spec fn initial_status_ok(check: Result<bool>, status: EnvironmentStatus) -> bool {
    match check {
        Ok(true) => status is Installed,
        Ok(false) => status is NotInstalled,
        Err(e) => status is Error && status->Error_0@ == crate::error::error_text(e),
    }
}

/// Status after an explicit refresh: an existing environment becomes ready;
/// a ready one that no longer exists becomes not installed; others keep
/// their status.
pub open spec fn refreshed_status_ok(
    old_status: EnvironmentStatus,
    exists: bool,
    status: EnvironmentStatus,
) -> bool {
    if exists {
        status is Ready
    } else if old_status is Ready {
        status is NotInstalled
    } else {
        status == old_status
    }
}

pub fn initial_status(check: &Result<bool>) -> (r: EnvironmentStatus)
    ensures
        initial_status_ok(*check, r),
{
    match check {
        Ok(true) => EnvironmentStatus::Installed,
        Ok(false) => EnvironmentStatus::NotInstalled,
        Err(e) => EnvironmentStatus::Error(e.to_string()),
    }
}

pub fn listed_status(check: &Result<bool>) -> (r: EnvironmentStatus)
    ensures
        listed_status_ok(*check, r),
{
    match check {
        Ok(true) => EnvironmentStatus::Ready,
        Ok(false) => EnvironmentStatus::NotInstalled,
        Err(e) => EnvironmentStatus::Error(e.to_string()),
    }
}

/// The directory `Path::parent` gives for a path.
pub uninterp spec fn parent_of(path: Seq<char>) -> Option<Seq<char>>;

/// Relies on `std::path::Path::parent`: the path without its final component.
#[verifier::external_body]
fn path_parent(path: &str) -> (r: Option<String>)
    ensures
        match r {
            Some(d) => parent_of(path@) == Some(d@),
            None => parent_of(path@) is None,
        },
{
    std::path::Path::new(path).parent().map(|d| d.to_string_lossy().into_owned())
}

/// Directory holding the backend executable (`.` when the path has none).
pub open spec fn backend_dir_of(pm_path: Seq<char>) -> Seq<char> {
    match parent_of(pm_path) {
        Some(d) => d,
        None => "."@,
    }
}

/// The variables every backend invocation runs with: the backend's library
/// directory prepended to the library search path, and its directory
/// prepended to the executable search path. The root-prefix variable is left
/// alone.
pub open spec fn backend_vars_of(
    pm_path: Seq<char>,
    existing_ld: Seq<char>,
    existing_path: Seq<char>,
) -> Seq<(Seq<char>, Seq<char>)> {
    let dir = backend_dir_of(pm_path);
    let lib = joined_of(dir, "lib"@);
    seq![
        ("LD_LIBRARY_PATH"@, if existing_ld.len() == 0 {
            lib
        } else {
            lib + ":"@ + existing_ld
        }),
        ("PATH"@, dir + ":"@ + existing_path),
    ]
}

pub open spec fn pair_views(v: Seq<(String, String)>) -> Seq<(Seq<char>, Seq<char>)> {
    v.map_values(|p: (String, String)| (p.0@, p.1@))
}

/// The environment manager: the resolved backend, the registry of managed
/// environments (at most one entry per name), the configuration directory
/// and the version defaults.
#[derive(Debug, Clone)]
pub struct MicromambaManager {
    pm_path: String,
    pm_type: PackageManager,
    environments: Vec<MicromambaEnvironment>,
    config_dir: String,
    version_config: VersionConfig,
}

impl MicromambaManager {
    pub closed spec fn wf(&self) -> bool {
        &&& self.pm_type != PackageManager::Absent
        &&& forall|i: int, j: int|
            0 <= i < j < self.environments@.len() ==> (#[trigger] self.environments@[i]).name@
                != (#[trigger] self.environments@[j]).name@
    }

    pub closed spec fn pm_path_view(&self) -> Seq<char> {
        self.pm_path@
    }

    pub closed spec fn pm_type_view(&self) -> PackageManager {
        self.pm_type
    }

    pub closed spec fn config_dir_view(&self) -> Seq<char> {
        self.config_dir@
    }

    pub closed spec fn version_view(&self) -> VersionConfig {
        self.version_config
    }

    pub closed spec fn entries(&self) -> Seq<MicromambaEnvironment> {
        self.environments@
    }

    /// A manager for a resolved backend with an empty registry; a
    /// configuration error when no backend was found.
    pub fn new(
        pm_type: PackageManager,
        pm_path: String,
        config_dir: String,
        version_config: VersionConfig,
    ) -> (r: Result<Self>)
        ensures
            pm_type == PackageManager::Absent <==> r is Err,
            r is Err ==> r->Err_0 is Config,
            r is Ok ==> r->Ok_0.wf() && r->Ok_0.entries().len() == 0 && r->Ok_0.pm_type_view()
                == pm_type && r->Ok_0.pm_path_view() == pm_path@ && r->Ok_0.config_dir_view()
                == config_dir@,
    {
        if pm_type == PackageManager::Absent {
            return Err(
                EnvError::Config(String::from_str("No package manager found (conda/mamba/micromamba)")),
            );
        }
        Ok(
            MicromambaManager {
                pm_path,
                pm_type,
                environments: Vec::new(),
                config_dir,
                version_config,
            },
        )
    }

    /// The backend in use.
    pub fn get_package_manager(&self) -> (r: PackageManager)
        ensures
            r == self.pm_type_view(),
    {
        self.pm_type
    }

    /// Path of the backend executable.
    pub fn get_pm_path(&self) -> (r: &String)
        ensures
            r@ == self.pm_path_view(),
    {
        &self.pm_path
    }

    /// Path of the backend executable.
    pub fn micromamba_path(&self) -> (r: &String)
        ensures
            r@ == self.pm_path_view(),
    {
        &self.pm_path
    }

    /// The configuration directory.
    pub fn get_cache_dir(&self) -> (r: &String)
        ensures
            r@ == self.config_dir_view(),
    {
        &self.config_dir
    }

    /// The version defaults.
    pub fn get_version_config(&self) -> (r: &VersionConfig)
        ensures
            *r == self.version_view(),
    {
        &self.version_config
    }

    /// Index of the registry entry named `name`, if any.
    pub fn find_environment(&self, name: &str) -> (r: Option<usize>)
        ensures
            match r {
                Some(i) => i < self.entries().len() && self.entries()[i as int].name@ == name@,
                None => forall|i: int|
                    0 <= i < self.entries().len() ==> (#[trigger] self.entries()[i]).name@
                        != name@,
            },
    {
        let mut i: usize = 0;
        while i < self.environments.len()
            invariant
                i <= self.environments@.len(),
                forall|k: int| 0 <= k < i ==> (#[trigger] self.environments@[k]).name@ != name@,
            decreases self.environments@.len() - i,
        {
            if same_text(self.environments[i].name.as_str(), name) {
                return Some(i);
            }
            i = i + 1;
        }
        None
    }

    /// The registry entry named `name`, if any.
    pub fn get_environment(&self, name: &str) -> (r: Option<&MicromambaEnvironment>)
        ensures
            match r {
                Some(e) => e.name@ == name@ && exists|i: int|
                    0 <= i < self.entries().len() && self.entries()[i] == *e,
                None => forall|i: int|
                    0 <= i < self.entries().len() ==> (#[trigger] self.entries()[i]).name@
                        != name@,
            },
    {
        match self.find_environment(name) {
            Some(i) => Some(&self.environments[i]),
            None => None,
        }
    }

    /// All registry entries.
    pub fn get_all_environments(&self) -> (r: &Vec<MicromambaEnvironment>)
        ensures
            r@ == self.entries(),
    {
        &self.environments
    }

    /// All registry entries with their recorded statuses.
    pub fn get_environment_statuses(&self) -> (r: &Vec<MicromambaEnvironment>)
        ensures
            r@ == self.entries(),
    {
        &self.environments
    }

    /// Path of a managed environment's configuration file.
    pub fn environment_file(&self, name: &str) -> (r: String)
        ensures
            r@ == joined_of(self.config_dir_view(), name@ + ".yaml"@),
    {
        let mut file = String::from_str(name);
        file.append(".yaml");
        path_join(self.config_dir.as_str(), file.as_str())
    }

    /// Adds `env` to the registry, replacing an entry of the same name.
    pub fn register_environment(&mut self, env: MicromambaEnvironment)
        requires
            old(self).wf(),
        ensures
            final(self).wf(),
            final(self).pm_type_view() == old(self).pm_type_view(),
            final(self).pm_path_view() == old(self).pm_path_view(),
            final(self).config_dir_view() == old(self).config_dir_view(),
            exists|i: int| 0 <= i < final(self).entries().len() && final(self).entries()[i] == env,
            forall|i: int|
                0 <= i < old(self).entries().len() && (#[trigger] old(self).entries()[i]).name@
                    != env.name@ ==> final(self).entries().contains(old(self).entries()[i]),
            forall|i: int|
                0 <= i < final(self).entries().len() && (#[trigger] final(self).entries()[i])
                    != env ==> old(self).entries().contains(final(self).entries()[i]),
    {
        let ghost before = self.environments@;
        match self.find_environment(env.name.as_str()) {
            Some(i) => {
                let ghost e = env;
                self.environments.set(i, env);
                assert(self.environments@[i as int] == e);
                assert forall|k: int|
                    0 <= k < before.len() && (#[trigger] before[k]).name@ != e.name@ implies self.environments@.contains(
                    before[k],
                ) by {
                    assert(self.environments@[k] == before[k]);
                }
                assert forall|k: int|
                    0 <= k < self.environments@.len() && (#[trigger] self.environments@[k]) != e implies before.contains(
                    self.environments@[k],
                ) by {
                    assert(before[k] == self.environments@[k]);
                }
            },
            None => {
                let ghost e = env;
                self.environments.push(env);
                assert(self.environments@[before.len() as int] == e);
                assert forall|k: int|
                    0 <= k < before.len() && (#[trigger] before[k]).name@ != e.name@ implies self.environments@.contains(
                    before[k],
                ) by {
                    assert(self.environments@[k] == before[k]);
                }
                assert forall|k: int|
                    0 <= k < self.environments@.len() && (#[trigger] self.environments@[k]) != e implies before.contains(
                    self.environments@[k],
                ) by {
                    assert(before[k] == self.environments@[k]);
                }
            },
        }
    }

    /// The registry entry of a managed environment, given whether its file
    /// exists and the result of checking the environment: none when the file
    /// is missing (it is skipped, not an error).
    pub fn managed_entry(&self, name: &str, file_exists: bool, check: &Result<bool>) -> (r: Option<
        MicromambaEnvironment,
    >)
        ensures
            !file_exists ==> r is None,
            file_exists ==> r is Some && ({
                let e = r->Some_0;
                &&& e.name@ == name@
                &&& e.file_path@ == joined_of(self.config_dir_view(), name@ + ".yaml"@)
                &&& string_views(e.tools@) == tools_of(name@)
                &&& initial_status_ok(*check, e.status)
                &&& e.created_at is None
            }),
    {
        if !file_exists {
            return None;
        }
        Some(
            MicromambaEnvironment {
                name: String::from_str(name),
                file_path: self.environment_file(name),
                tools: tools_for(name),
                status: initial_status(check),
                created_at: None,
            },
        )
    }

    /// A point-in-time snapshot of the registry with each status refreshed
    /// from the corresponding existence check; the registry is not changed.
    pub fn list_environments(&self, checks: &Vec<Result<bool>>) -> (r: Vec<MicromambaEnvironment>)
        requires
            checks@.len() == self.entries().len(),
        ensures
            r@.len() == self.entries().len(),
            forall|i: int|
                0 <= i < r@.len() ==> {
                    &&& (#[trigger] r@[i]).name == self.entries()[i].name
                    &&& r@[i].file_path == self.entries()[i].file_path
                    &&& r@[i].tools@ == self.entries()[i].tools@
                    &&& r@[i].created_at == self.entries()[i].created_at
                    &&& listed_status_ok(checks@[i], r@[i].status)
                },
    {
        let mut out: Vec<MicromambaEnvironment> = Vec::new();
        let mut i: usize = 0;
        while i < self.environments.len()
            invariant
                checks@.len() == self.environments@.len(),
                i <= self.environments@.len(),
                out@.len() == i,
                forall|k: int|
                    0 <= k < i ==> {
                        &&& (#[trigger] out@[k]).name == self.environments@[k].name
                        &&& out@[k].file_path == self.environments@[k].file_path
                        &&& out@[k].tools@ == self.environments@[k].tools@
                        &&& out@[k].created_at == self.environments@[k].created_at
                        &&& listed_status_ok(checks@[k], out@[k].status)
                    },
            decreases self.environments@.len() - i,
        {
            let e = &self.environments[i];
            let entry = MicromambaEnvironment {
                name: e.name.clone(),
                file_path: e.file_path.clone(),
                tools: clone_strings(&e.tools),
                status: listed_status(&checks[i]),
                created_at: e.created_at,
            };
            out.push(entry);
            i = i + 1;
        }
        out
    }

    /// Refreshes each entry's status from the corresponding existence result.
    pub fn update_environment_statuses(&mut self, exists: &Vec<bool>)
        requires
            old(self).wf(),
            exists@.len() == old(self).entries().len(),
        ensures
            final(self).wf(),
            final(self).pm_type_view() == old(self).pm_type_view(),
            final(self).pm_path_view() == old(self).pm_path_view(),
            final(self).config_dir_view() == old(self).config_dir_view(),
            final(self).entries().len() == old(self).entries().len(),
            forall|i: int|
                0 <= i < final(self).entries().len() ==> {
                    &&& (#[trigger] final(self).entries()[i]).name == old(self).entries()[i].name
                    &&& final(self).entries()[i].file_path == old(self).entries()[i].file_path
                    &&& final(self).entries()[i].tools@ == old(self).entries()[i].tools@
                    &&& final(self).entries()[i].created_at == old(self).entries()[i].created_at
                    &&& refreshed_status_ok(
                        old(self).entries()[i].status,
                        exists@[i],
                        final(self).entries()[i].status,
                    )
                },
    {
        let mut i: usize = 0;
        while i < self.environments.len()
            invariant
                exists@.len() == old(self).environments@.len(),
                self.environments@.len() == old(self).environments@.len(),
                self.pm_type == old(self).pm_type,
                self.pm_path == old(self).pm_path,
                self.config_dir == old(self).config_dir,
                i <= self.environments@.len(),
                forall|k: int|
                    0 <= k < self.environments@.len() ==> (#[trigger] self.environments@[k]).name
                        == old(self).environments@[k].name,
                forall|k: int|
                    0 <= k < self.environments@.len() ==> (#[trigger] self.environments@[k]).file_path
                        == old(self).environments@[k].file_path && self.environments@[k].created_at
                        == old(self).environments@[k].created_at && self.environments@[k].tools@
                        == old(self).environments@[k].tools@,
                forall|k: int|
                    0 <= k < i ==> refreshed_status_ok(
                        old(self).environments@[k].status,
                        exists@[k],
                        (#[trigger] self.environments@[k]).status,
                    ),
                forall|k: int|
                    i <= k < self.environments@.len() ==> (#[trigger] self.environments@[k])
                        == old(self).environments@[k],
            decreases self.environments@.len() - i,
        {
            let cur = &self.environments[i];
            let status = if exists[i] {
                EnvironmentStatus::Ready
            } else {
                match &cur.status {
                    EnvironmentStatus::Ready => EnvironmentStatus::NotInstalled,
                    other => copy_status(other),
                }
            };
            let e = MicromambaEnvironment {
                name: cur.name.clone(),
                file_path: cur.file_path.clone(),
                tools: clone_strings(&cur.tools),
                status,
                created_at: cur.created_at,
            };
            self.environments.set(i, e);
            i = i + 1;
        }
        assert forall|a: int, b: int|
            0 <= a < b < self.environments@.len() implies (#[trigger] self.environments@[a]).name@
            != (#[trigger] self.environments@[b]).name@ by {
            assert(old(self).environments@[a].name@ != old(self).environments@[b].name@);
        }
    }

    /// The variables every backend invocation runs with, given the current
    /// library search path and executable search path.
    pub fn build_env_vars(&self, existing_ld: &str, existing_path: &str) -> (r: Vec<
        (String, String),
    >)
        ensures
            pair_views(r@) == backend_vars_of(self.pm_path_view(), existing_ld@, existing_path@),
    {
        let dir = match path_parent(self.pm_path.as_str()) {
            Some(d) => d,
            None => String::from_str("."),
        };
        let lib = path_join(dir.as_str(), "lib");
        let ld = if existing_ld.unicode_len() == 0 {
            lib
        } else {
            let mut v = lib;
            v.append(":");
            v.append(existing_ld);
            v
        };
        let mut path = dir.clone();
        path.append(":");
        path.append(existing_path);
        let r = vec![(String::from_str("LD_LIBRARY_PATH"), ld), (String::from_str("PATH"), path)];
        assert(pair_views(r@) =~= backend_vars_of(self.pm_path_view(), existing_ld@, existing_path@));
        r
    }
}

/// Whether the configuration directory already holds the templates, given
/// how many YAML files it has.
pub fn templates_present(yaml_count: usize) -> (r: bool)
    ensures
        r == (yaml_count >= TEMPLATE_COUNT),
{
    yaml_count >= TEMPLATE_COUNT
}

/// Whether a template is copied: its source exists and its target does not.
pub fn should_copy_template(source_exists: bool, target_exists: bool) -> (r: bool)
    ensures
        r == (source_exists && !target_exists),
{
    source_exists && !target_exists
}

/// File names of the templates, one per managed environment.
pub fn template_file_names() -> (r: Vec<String>)
    ensures
        r@.len() == 4,
        forall|i: int| 0 <= i < 4 ==> (#[trigger] r@[i])@ == managed_names_of()[i] + ".yaml"@,
{
    let names = managed_environment_names();
    assert(names@.len() == string_views(names@).len());
    assert(managed_names_of().len() == 4);
    let mut out: Vec<String> = Vec::new();
    let mut i: usize = 0;
    while i < names.len()
        invariant
            string_views(names@) == managed_names_of(),
            i <= names@.len(),
            out@.len() == i,
            forall|k: int| 0 <= k < i ==> (#[trigger] out@[k])@ == managed_names_of()[k] + ".yaml"@,
        decreases names@.len() - i,
    {
        let mut f = names[i].clone();
        f.append(".yaml");
        assert(names@[i as int]@ == managed_names_of()[i as int]);
        out.push(f);
        i = i + 1;
    }
    out
}

/// Copies a status.
pub fn copy_status(s: &EnvironmentStatus) -> (r: EnvironmentStatus)
    ensures
        r == *s,
{
    match s {
        EnvironmentStatus::Ready => EnvironmentStatus::Ready,
        EnvironmentStatus::Installed => EnvironmentStatus::Installed,
        EnvironmentStatus::NotInstalled => EnvironmentStatus::NotInstalled,
        EnvironmentStatus::Missing => EnvironmentStatus::Missing,
        EnvironmentStatus::Error(m) => EnvironmentStatus::Error(m.clone()),
    }
}

/// Copies a list of strings.
pub fn clone_strings(v: &Vec<String>) -> (r: Vec<String>)
    ensures
        r@ == v@,
{
    let mut out: Vec<String> = Vec::new();
    let mut i: usize = 0;
    while i < v.len()
        invariant
            i <= v@.len(),
            out@ == v@.subrange(0, i as int),
        decreases v@.len() - i,
    {
        out.push(v[i].clone());
        assert(out@ =~= v@.subrange(0, i + 1));
        i = i + 1;
    }
    assert(out@ =~= v@);
    out
}

} // verus!
