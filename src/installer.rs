//! Self-installation of the lightweight backend: where to install it, where
//! to download it from, how to read what was downloaded, and the decisions of
//! the download loop. The network and filesystem work is done by the caller,
//! which reports each outcome back.
use crate::error::{colon_join, EnvError, Result};
use crate::exit::{count_text, decimal_of};
use vstd::prelude::*;

verus! {

/// The path `Path::join` gives for `base` joined with `part`.
pub uninterp spec fn joined_of(base: Seq<char>, part: Seq<char>) -> Seq<char>;

/// Relies on `std::path::Path::join`: `part` appended to `base` as a path
/// component.
#[verifier::external_body]
pub(crate) fn path_join(base: &str, part: &str) -> (r: String)
    ensures
        r@ == joined_of(base@, part@),
{
    std::path::Path::new(base).join(part).to_string_lossy().into_owned()
}

/// Where the backend's release is published for one platform.
#[derive(Debug, Clone)]
pub struct PlatformTarget {
    /// Platform identifier of the primary source, e.g. `linux-64`.
    pub platform: String,
    /// Operating-system part of the release file name, e.g. `linux`.
    pub release_os: String,
    /// Architecture part of the release file name, e.g. `64`.
    pub release_arch: String,
}

/// Whether the operating system and architecture are supported.
pub open spec fn arch_supported(arch: Seq<char>) -> bool {
    arch == "x86_64"@ || arch == "aarch64"@
}

pub open spec fn os_supported(os: Seq<char>) -> bool {
    os == "linux"@ || os == "macos"@ || os == "windows"@
}

pub open spec fn platform_of(os: Seq<char>, arch: Seq<char>) -> Seq<char> {
    if os == "linux"@ {
        "linux-64"@
    } else if os == "macos"@ {
        if arch == "aarch64"@ {
            "osx-arm64"@
        } else {
            "osx-64"@
        }
    } else {
        "win-64"@
    }
}

pub open spec fn release_os_of(os: Seq<char>) -> Seq<char> {
    if os == "linux"@ {
        "linux"@
    } else if os == "macos"@ {
        "osx"@
    } else {
        "win"@
    }
}

pub open spec fn release_arch_of(arch: Seq<char>) -> Seq<char> {
    if arch == "x86_64"@ {
        "64"@
    } else {
        "arm64"@
    }
}

/// Resolves the running platform: a validation error for an unsupported
/// architecture (checked first) or operating system, before any download.
pub fn platform_target(os: &str, arch: &str) -> (r: Result<PlatformTarget>)
    ensures
        !arch_supported(arch@) ==> r is Err && r->Err_0 is Validation && r->Err_0->Validation_0@
            == "Unsupported architecture: "@ + arch@ + ". Supported: x86_64, aarch64"@,
        arch_supported(arch@) && !os_supported(os@) ==> r is Err && r->Err_0 is Validation
            && r->Err_0->Validation_0@ == "Unsupported OS: "@ + os@
            + ". Supported: linux, macos, windows"@,
        arch_supported(arch@) && os_supported(os@) ==> r is Ok,
        r is Ok ==> r->Ok_0.platform@ == platform_of(os@, arch@) && r->Ok_0.release_os@
            == release_os_of(os@) && r->Ok_0.release_arch@ == release_arch_of(arch@),
{
    let is_x64 = crate::text::same_text(arch, "x86_64");
    let is_arm = crate::text::same_text(arch, "aarch64");
    if !is_x64 && !is_arm {
        let mut msg = String::from_str("Unsupported architecture: ");
        msg.append(arch);
        msg.append(". Supported: x86_64, aarch64");
        return Err(EnvError::Validation(msg));
    }
    let release_arch = if is_x64 {
        String::from_str("64")
    } else {
        String::from_str("arm64")
    };
    if crate::text::same_text(os, "linux") {
        Ok(
            PlatformTarget {
                platform: String::from_str("linux-64"),
                release_os: String::from_str("linux"),
                release_arch,
            },
        )
    } else if crate::text::same_text(os, "macos") {
        let platform = if is_arm {
            String::from_str("osx-arm64")
        } else {
            String::from_str("osx-64")
        };
        Ok(PlatformTarget { platform, release_os: String::from_str("osx"), release_arch })
    } else if crate::text::same_text(os, "windows") {
        Ok(
            PlatformTarget {
                platform: String::from_str("win-64"),
                release_os: String::from_str("win"),
                release_arch,
            },
        )
    } else {
        let mut msg = String::from_str("Unsupported OS: ");
        msg.append(os);
        msg.append(". Supported: linux, macos, windows");
        Err(EnvError::Validation(msg))
    }
}

pub open spec fn primary_url_of(t: PlatformTarget) -> Seq<char> {
    "https://micro.mamba.pm/api/micromamba/"@ + t.platform@ + "/latest"@
}

pub open spec fn mirror_url_of(t: PlatformTarget) -> Seq<char> {
    "https://github.com/mamba-org/micromamba-releases/releases/latest/download/micromamba-"@
        + t.release_os@ + "-"@ + t.release_arch@
}

/// A download source: a display name and a URL.
#[derive(Debug, Clone)]
pub struct DownloadSource {
    pub name: String,
    pub url: String,
}

/// The two sources, in the order they are tried: the primary, then the mirror.
pub fn download_sources(t: &PlatformTarget) -> (r: Vec<DownloadSource>)
    ensures
        r@.len() == 2,
        r@[0].name@ == "Official Micromamba"@,
        r@[0].url@ == primary_url_of(*t),
        r@[1].name@ == "GitHub Releases"@,
        r@[1].url@ == mirror_url_of(*t),
{
    let mut primary = String::from_str("https://micro.mamba.pm/api/micromamba/");
    primary.append(t.platform.as_str());
    primary.append("/latest");
    let mut mirror = String::from_str(
        "https://github.com/mamba-org/micromamba-releases/releases/latest/download/micromamba-",
    );
    mirror.append(t.release_os.as_str());
    mirror.append("-");
    mirror.append(t.release_arch.as_str());
    vec![
        DownloadSource { name: String::from_str("Official Micromamba"), url: primary },
        DownloadSource { name: String::from_str("GitHub Releases"), url: mirror },
    ]
}

/// The install target under the first location available, in precedence
/// order: explicit override, data-home, home directory, executable directory.
pub open spec fn install_target_of(
    override_dir: Option<Seq<char>>,
    data_home: Option<Seq<char>>,
    home: Option<Seq<char>>,
    exe_dir: Option<Seq<char>>,
) -> Option<Seq<char>> {
    if override_dir is Some {
        Some(joined_of(override_dir->Some_0, "micromamba"@))
    } else if data_home is Some {
        Some(joined_of(joined_of(data_home->Some_0, "micromamba"@), "micromamba"@))
    } else if home is Some {
        Some(
            joined_of(
                joined_of(joined_of(joined_of(home->Some_0, ".local"@), "share"@), "micromamba"@),
                "micromamba"@,
            ),
        )
    } else if exe_dir is Some {
        Some(joined_of(exe_dir->Some_0, "micromamba"@))
    } else {
        None
    }
}

pub open spec fn opt_view(o: Option<String>) -> Option<Seq<char>> {
    match o {
        Some(s) => Some(s@),
        None => None,
    }
}

/// Resolves the install target path; a file-operation error when no location
/// is available.
pub fn install_directory(
    override_dir: Option<String>,
    data_home: Option<String>,
    home: Option<String>,
    exe_dir: Option<String>,
) -> (r: Result<String>)
    ensures
        match install_target_of(
            opt_view(override_dir),
            opt_view(data_home),
            opt_view(home),
            opt_view(exe_dir),
        ) {
            Some(p) => r is Ok && r->Ok_0@ == p,
            None => r is Err && r->Err_0 is FileOperation,
        },
{
    if let Some(d) = &override_dir {
        return Ok(path_join(d.as_str(), "micromamba"));
    }
    if let Some(d) = &data_home {
        let base = path_join(d.as_str(), "micromamba");
        return Ok(path_join(base.as_str(), "micromamba"));
    }
    if let Some(h) = &home {
        let a = path_join(h.as_str(), ".local");
        let b = path_join(a.as_str(), "share");
        let c = path_join(b.as_str(), "micromamba");
        return Ok(path_join(c.as_str(), "micromamba"));
    }
    if let Some(d) = &exe_dir {
        return Ok(path_join(d.as_str(), "micromamba"));
    }
    Err(
        EnvError::FileOperation(
            String::from_str("Could not determine installation directory for micromamba"),
        ),
    )
}

/// Fixed locations searched for an existing installation, in order.
pub fn common_install_paths() -> (r: Vec<String>)
    ensures
        r@.len() == 3,
        r@[0]@ == "/usr/local/bin/micromamba"@,
        r@[1]@ == "/opt/micromamba/bin/micromamba"@,
        r@[2]@ == "/usr/bin/micromamba"@,
{
    vec![
        String::from_str("/usr/local/bin/micromamba"),
        String::from_str("/opt/micromamba/bin/micromamba"),
        String::from_str("/usr/bin/micromamba"),
    ]
}

/// Where the lightweight backend comes from.
#[derive(Debug, Clone, PartialEq, Eq)]
pub enum BackendLocation {
    /// An executable already present at this path.
    Existing(String),
    /// None was found: install it.
    Install,
}

/// The lookup order for an existing backend: the search-path hit if there is
/// one, else the first fixed location that exists, else installation.
pub fn locate_backend(on_path: Option<String>, candidates: &Vec<String>, exists: &Vec<bool>) -> (r:
    BackendLocation)
    requires
        candidates@.len() == exists@.len(),
    ensures
        on_path is Some ==> r == BackendLocation::Existing(on_path->Some_0),
        on_path is None ==> match r {
            BackendLocation::Existing(p) => exists|i: int|
                0 <= i < exists@.len() && exists@[i] && candidates@[i]@ == p@ && forall|j: int|
                    0 <= j < i ==> !#[trigger] exists@[j],
            BackendLocation::Install => forall|j: int| 0 <= j < exists@.len() ==> !#[trigger] exists@[j],
        },
{
    if let Some(p) = on_path {
        return BackendLocation::Existing(p);
    }
    let mut i: usize = 0;
    while i < exists.len()
        invariant
            on_path is None,
            candidates@.len() == exists@.len(),
            i <= exists@.len(),
            forall|j: int| 0 <= j < i ==> !#[trigger] exists@[j],
        decreases exists@.len() - i,
    {
        if exists[i] {
            return BackendLocation::Existing(candidates[i].clone());
        }
        i = i + 1;
    }
    BackendLocation::Install
}

/// What a downloaded payload is.
#[derive(Debug, Clone, Copy, PartialEq, Eq, Structural)]
pub enum PayloadKind {
    /// An HTML page, i.e. an error page served in place of the release.
    Html,
    /// A bzip2-compressed archive to extract.
    Archive,
    /// The executable itself.
    Binary,
}

pub open spec fn has_prefix(s: Seq<u8>, p: Seq<u8>) -> bool {
    p.len() <= s.len() && s.subrange(0, p.len() as int) == p
}

/// `<!DOCTYPE html`
pub open spec fn doctype_marker() -> Seq<u8> {
    seq![60u8, 33, 68, 79, 67, 84, 89, 80, 69, 32, 104, 116, 109, 108]
}

/// `<html`
pub open spec fn html_marker() -> Seq<u8> {
    seq![60u8, 104, 116, 109, 108]
}

/// `BZh`, the bzip2 signature.
pub open spec fn bzip2_marker() -> Seq<u8> {
    seq![66u8, 90, 104]
}

pub open spec fn payload_kind_of(bytes: Seq<u8>) -> PayloadKind {
    if has_prefix(bytes, doctype_marker()) || has_prefix(bytes, html_marker()) {
        PayloadKind::Html
    } else if has_prefix(bytes, bzip2_marker()) {
        PayloadKind::Archive
    } else {
        PayloadKind::Binary
    }
}

fn starts_with_bytes(s: &[u8], p: &Vec<u8>) -> (r: bool)
    ensures
        r == has_prefix(s@, p@),
{
    if p.len() > s.len() {
        return false;
    }
    let mut i: usize = 0;
    while i < p.len()
        invariant
            p@.len() <= s@.len(),
            i <= p@.len(),
            s@.subrange(0, i as int) == p@.subrange(0, i as int),
        decreases p@.len() - i,
    {
        if s[i] != p[i] {
            assert(s@.subrange(0, p@.len() as int)[i as int] != p@[i as int]);
            return false;
        }
        assert(s@.subrange(0, i + 1) =~= s@.subrange(0, i as int).push(s@[i as int]));
        assert(p@.subrange(0, i + 1) =~= p@.subrange(0, i as int).push(p@[i as int]));
        i = i + 1;
    }
    assert(p@.subrange(0, p@.len() as int) =~= p@);
    true
}

/// Sniffs a downloaded payload: an HTML page, a bzip2 archive, or a raw
/// executable.
pub fn payload_kind(bytes: &[u8]) -> (r: PayloadKind)
    ensures
        r == payload_kind_of(bytes@),
{
    let doctype: Vec<u8> = vec![60u8, 33, 68, 79, 67, 84, 89, 80, 69, 32, 104, 116, 109, 108];
    let html: Vec<u8> = vec![60u8, 104, 116, 109, 108];
    let bzip2: Vec<u8> = vec![66u8, 90, 104];
    assert(doctype@ =~= doctype_marker());
    assert(html@ =~= html_marker());
    assert(bzip2@ =~= bzip2_marker());
    if starts_with_bytes(bytes, &doctype) || starts_with_bytes(bytes, &html) {
        PayloadKind::Html
    } else if starts_with_bytes(bytes, &bzip2) {
        PayloadKind::Archive
    } else {
        PayloadKind::Binary
    }
}

/// What the caller reports after requesting the current source.
#[derive(Debug, Clone)]
pub enum FetchOutcome {
    /// No response was received.
    ConnectionFailed(String),
    /// A response with a non-success status code.
    HttpStatus(u16),
    /// The response body could not be read.
    ReadFailed(String),
    /// The response body was read; this is what it holds.
    Payload(PayloadKind),
}

/// The next thing the caller is to do.
#[derive(Debug, Clone, PartialEq, Eq)]
pub enum InstallStep {
    /// The target already exists: nothing is downloaded.
    AlreadyInstalled,
    /// Request the source with this index.
    Fetch(usize),
    /// Place the payload of the source with this index: extract an archive,
    /// or write a binary to the target.
    Place(usize, PayloadKind),
    /// The payload is in place; set its permissions and finish.
    Placed,
    /// Every source has failed.
    Exhausted,
}

/// Progress of the download loop over the sources.
#[derive(Debug, Clone)]
pub struct InstallState {
    pub sources: Vec<DownloadSource>,
    /// Index of the source being tried.
    pub current: usize,
    /// The last failure, prefixed by its source's name.
    pub last_error: Option<String>,
}

impl InstallState {
    pub open spec fn wf(&self) -> bool {
        self.current <= self.sources@.len()
    }
}

/// Starts an installation: when the target already exists nothing is
/// requested; otherwise the first source is requested.
pub fn begin_install(target_exists: bool, sources: Vec<DownloadSource>) -> (r: (
    InstallState,
    InstallStep,
))
    ensures
        r.0.wf(),
        r.0.current == 0,
        r.0.last_error is None,
        r.0.sources@ == sources@,
        target_exists ==> r.1 == InstallStep::AlreadyInstalled,
        !target_exists && sources@.len() > 0 ==> r.1 == InstallStep::Fetch(0),
        !target_exists && sources@.len() == 0 ==> r.1 == InstallStep::Exhausted,
{
    let n = sources.len();
    let state = InstallState { sources, current: 0, last_error: None };
    if target_exists {
        (state, InstallStep::AlreadyInstalled)
    } else if n > 0 {
        (state, InstallStep::Fetch(0))
    } else {
        (state, InstallStep::Exhausted)
    }
}

/// Records a failure of the current source and moves to the next one.
fn fail_source(state: &mut InstallState, reason: &str) -> (r: InstallStep)
    requires
        old(state).current < old(state).sources@.len(),
    ensures
        final(state).wf(),
        final(state).sources@ == old(state).sources@,
        final(state).current == old(state).current + 1,
        final(state).last_error is Some,
        final(state).last_error->Some_0@ == old(state).sources@[old(state).current as int].name@
            + ": "@ + reason@,
        final(state).current < final(state).sources@.len() ==> r == InstallStep::Fetch(
            final(state).current,
        ),
        final(state).current == final(state).sources@.len() ==> r == InstallStep::Exhausted,
{
    let n = state.sources.len();
    let msg = colon_join(state.sources[state.current].name.as_str(), reason);
    state.last_error = Some(msg);
    assert(state.current < n);
    state.current = state.current + 1;
    if state.current < state.sources.len() {
        InstallStep::Fetch(state.current)
    } else {
        InstallStep::Exhausted
    }
}

/// Why a request outcome counts as a failure of its source.
pub open spec fn fetch_failure_of(outcome: FetchOutcome) -> Seq<char> {
    match outcome {
        FetchOutcome::ConnectionFailed(m) => "Connection failed: "@ + m@,
        FetchOutcome::HttpStatus(c) => "HTTP "@ + decimal_of(c as nat),
        FetchOutcome::ReadFailed(m) => "Failed to read response: "@ + m@,
        FetchOutcome::Payload(_) => "Received HTML instead of binary"@,
    }
}

/// Decides after a request of the current source: a received binary or
/// archive is placed; any failure, including an HTML page in place of the
/// release, moves on to the next source.
pub fn after_fetch(state: &mut InstallState, outcome: FetchOutcome) -> (r: InstallStep)
    requires
        old(state).current < old(state).sources@.len(),
    ensures
        final(state).wf(),
        final(state).sources@ == old(state).sources@,
        match outcome {
            FetchOutcome::Payload(k) => k != PayloadKind::Html ==> r == InstallStep::Place(
                old(state).current,
                k,
            ) && final(state).current == old(state).current && final(state).last_error
                == old(state).last_error,
            _ => true,
        },
        match outcome {
            FetchOutcome::Payload(PayloadKind::Binary) | FetchOutcome::Payload(
                PayloadKind::Archive,
            ) => true,
            _ => final(state).current == old(state).current + 1 && final(state).last_error is Some
                && final(state).last_error->Some_0@ == old(state).sources@[old(
                state,
            ).current as int].name@ + ": "@ + fetch_failure_of(outcome)
                && (final(state).current < final(state).sources@.len() ==> r == InstallStep::Fetch(
                final(state).current,
            )) && (final(state).current == final(state).sources@.len() ==> r
                == InstallStep::Exhausted),
        },
{
    match outcome {
        FetchOutcome::ConnectionFailed(m) => {
            let mut reason = String::from_str("Connection failed: ");
            reason.append(m.as_str());
            fail_source(state, reason.as_str())
        },
        FetchOutcome::HttpStatus(code) => {
            let mut reason = String::from_str("HTTP ");
            let text = count_text(code as usize);
            reason.append(text.as_str());
            fail_source(state, reason.as_str())
        },
        FetchOutcome::ReadFailed(m) => {
            let mut reason = String::from_str("Failed to read response: ");
            reason.append(m.as_str());
            fail_source(state, reason.as_str())
        },
        FetchOutcome::Payload(PayloadKind::Html) => {
            fail_source(state, "Received HTML instead of binary")
        },
        FetchOutcome::Payload(k) => InstallStep::Place(state.current, k),
    }
}

/// Decides after placing the current source's payload: done on success,
/// otherwise the failure is recorded and the next source requested.
pub fn after_place(state: &mut InstallState, placed: core::result::Result<(), String>) -> (r:
    InstallStep)
    requires
        old(state).current < old(state).sources@.len(),
    ensures
        final(state).wf(),
        final(state).sources@ == old(state).sources@,
        placed is Ok ==> r == InstallStep::Placed && final(state).current == old(state).current
            && final(state).last_error == old(state).last_error,
        placed is Err ==> final(state).current == old(state).current + 1,
        placed is Err ==> final(state).last_error->Some_0@
            == old(state).sources@[old(state).current as int].name@ + ": "@ + placed->Err_0@,
        placed is Err && final(state).current < final(state).sources@.len() ==> r
            == InstallStep::Fetch(final(state).current),
        placed is Err && final(state).current == final(state).sources@.len() ==> r
            == InstallStep::Exhausted,
{
    match placed {
        Ok(()) => InstallStep::Placed,
        Err(m) => fail_source(state, m.as_str()),
    }
}

pub open spec fn source_list_of(sources: Seq<DownloadSource>) -> Seq<char>
    decreases sources.len(),
{
    if sources.len() == 0 {
        Seq::empty()
    } else {
        source_list_of(sources.drop_last()) + "\n  - "@ + sources.last().name@
    }
}

/// The single error reported when every source failed: the sources tried,
/// the last failure, and what to do instead.
pub open spec fn exhausted_message_of(sources: Seq<DownloadSource>, last: Option<String>) -> Seq<
    char,
> {
    "Failed to download micromamba from all sources. Tried:"@ + source_list_of(sources)
        + "\n\nLast error: "@ + match last {
        Some(e) => e@,
        None => "Unknown error"@,
    }
        + "\n\nPlease install micromamba manually from https://github.com/mamba-org/micromamba-releases and add it to your PATH, or set the MICROMAMBA_INSTALL_DIR environment variable."@
}

/// Ends an installation: the target path when the binary is in place, the
/// aggregated network error otherwise.
pub fn install_result(state: &InstallState, binary_exists: bool, binary_path: String) -> (r:
    Result<String>)
    ensures
        binary_exists ==> r is Ok && r->Ok_0@ == binary_path@,
        !binary_exists ==> r is Err && r->Err_0 is Network && r->Err_0->Network_0@
            == exhausted_message_of(state.sources@, state.last_error),
{
    if binary_exists {
        return Ok(binary_path);
    }
    let mut msg = String::from_str("Failed to download micromamba from all sources. Tried:");
    let mut i: usize = 0;
    assert(state.sources@.subrange(0, 0) =~= Seq::<DownloadSource>::empty());
    while i < state.sources.len()
        invariant
            i <= state.sources@.len(),
            msg@ == "Failed to download micromamba from all sources. Tried:"@ + source_list_of(
                state.sources@.subrange(0, i as int),
            ),
        decreases state.sources@.len() - i,
    {
        msg.append("\n  - ");
        msg.append(state.sources[i].name.as_str());
        assert(state.sources@.subrange(0, i + 1).drop_last() =~= state.sources@.subrange(
            0,
            i as int,
        ));
        i = i + 1;
    }
    assert(state.sources@.subrange(0, state.sources@.len() as int) =~= state.sources@);
    msg.append("\n\nLast error: ");
    match &state.last_error {
        Some(e) => msg.append(e.as_str()),
        None => msg.append("Unknown error"),
    }
    msg.append(
        "\n\nPlease install micromamba manually from https://github.com/mamba-org/micromamba-releases and add it to your PATH, or set the MICROMAMBA_INSTALL_DIR environment variable.",
    );
    Err(EnvError::Network(msg))
}

/// Checks a found executable: a file-operation error when its path could not
/// be normalized or its metadata read, when it does not exist or is not a
/// regular file, and a permission error when no execute bit is set.
pub fn check_executable(
    canonical: core::result::Result<String, String>,
    exists: bool,
    is_file: bool,
    mode: core::result::Result<u32, String>,
) -> (r: Result<String>)
    ensures
        canonical is Err ==> r is Err && r->Err_0 is FileOperation,
        canonical is Ok && !exists ==> r is Err && r->Err_0 is FileOperation,
        canonical is Ok && exists && !is_file ==> r is Err && r->Err_0 is FileOperation,
        canonical is Ok && exists && is_file && mode is Err ==> r is Err && r->Err_0 is FileOperation,
        canonical is Ok && exists && is_file && mode is Ok && mode->Ok_0 & 0o111u32 == 0 ==> r is Err
            && r->Err_0 is PermissionDenied,
        canonical is Ok && exists && is_file && mode is Ok && mode->Ok_0 & 0o111u32 != 0 ==> r is Ok
            && r->Ok_0@ == canonical->Ok_0@,
{
    let path = match canonical {
        Ok(p) => p,
        Err(e) => {
            return Err(EnvError::FileOperation(colon_join("Failed to normalize path", e.as_str())));
        },
    };
    if !exists {
        return Err(EnvError::FileOperation(colon_join("Path does not exist", path.as_str())));
    }
    if !is_file {
        return Err(EnvError::FileOperation(colon_join("Path is not a file", path.as_str())));
    }
    let bits = match mode {
        Ok(m) => m,
        Err(e) => {
            return Err(EnvError::FileOperation(colon_join("Failed to get metadata", e.as_str())));
        },
    };
    if bits & 0o111u32 == 0 {
        return Err(EnvError::PermissionDenied(colon_join("No execute permission for", path.as_str())));
    }
    Ok(path)
}

} // verus!
