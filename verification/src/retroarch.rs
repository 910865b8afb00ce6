//! The read-only RetroArch environment report: each RetroArch profile found,
//! its configuration, the paths it configures, its cores, playlists,
//! AppImage candidates and diagnostics.
use vstd::prelude::*;
use crate::library::pad_right;
use crate::text::{decimal, join, lowercase, push_char, push_str, spec_decimal, spec_join, text_lowercase, views};

verus! {

/// How RetroArch is installed.
#[derive(Debug, Clone, Copy, PartialEq, Eq, Structural)]
pub enum ProfileKind {
    Native,
    AppImage,
    Flatpak,
}

/// Whose RetroArch profile it is.
#[derive(Debug, Clone, Copy, PartialEq, Eq, Structural)]
pub enum ProfileScope {
    User,
    System,
}

/// The label of a profile kind.
pub open spec fn spec_profile_kind_label(k: ProfileKind) -> Seq<char> {
    match k {
        ProfileKind::Native => "Native"@,
        ProfileKind::AppImage => "AppImage"@,
        ProfileKind::Flatpak => "Flatpak"@,
    }
}

/// The label of a profile kind.
pub fn profile_kind_label(kind: ProfileKind) -> (r: &'static str)
    ensures
        r@ == spec_profile_kind_label(kind),
{
    match kind {
        ProfileKind::Native => "Native",
        ProfileKind::AppImage => "AppImage",
        ProfileKind::Flatpak => "Flatpak",
    }
}

/// The label of a profile scope.
pub open spec fn spec_profile_scope_label(s: ProfileScope) -> Seq<char> {
    match s {
        ProfileScope::User => "user"@,
        ProfileScope::System => "system"@,
    }
}

/// The label of a profile scope.
pub fn profile_scope_label(scope: ProfileScope) -> (r: &'static str)
    ensures
        r@ == spec_profile_scope_label(scope),
{
    match scope {
        ProfileScope::User => "user",
        ProfileScope::System => "system",
    }
}

/// Which configuration an AppImage uses.
#[derive(Debug, Clone, PartialEq, Eq)]
pub enum ConfigAssociation {
    SharesNativeProfile,
    PortableConfigDetected { config_directory: String },
    ExplicitConfig { config_directory: String },
    Unknown,
    Ambiguous,
}

/// How a configuration association reads.
pub open spec fn association_text(a: ConfigAssociation) -> Seq<char> {
    match a {
        ConfigAssociation::SharesNativeProfile => "shared logical profile"@,
        ConfigAssociation::PortableConfigDetected { config_directory } => "portable config at "@ + config_directory@,
        ConfigAssociation::ExplicitConfig { config_directory } => "explicit config at "@ + config_directory@,
        ConfigAssociation::Unknown => "unknown"@,
        ConfigAssociation::Ambiguous => "ambiguous"@,
    }
}

/// A short description of a configuration association.
pub fn config_association_summary(association: &ConfigAssociation) -> (r: String)
    ensures
        r@ == association_text(*association),
{
    match association {
        ConfigAssociation::SharesNativeProfile => "shared logical profile".to_owned(),
        ConfigAssociation::PortableConfigDetected { config_directory } => {
            let mut m = "portable config at ".to_owned();
            push_str(&mut m, config_directory.as_str());
            m
        },
        ConfigAssociation::ExplicitConfig { config_directory } => {
            let mut m = "explicit config at ".to_owned();
            push_str(&mut m, config_directory.as_str());
            m
        },
        ConfigAssociation::Unknown => "unknown".to_owned(),
        ConfigAssociation::Ambiguous => "ambiguous".to_owned(),
    }
}

/// What reading a configuration file gave.
#[derive(Debug, Clone, Copy, PartialEq, Eq, Structural)]
pub enum ConfigReadOutcome {
    NotAttempted,
    Parsed { malformed_lines: u64, include_detected: bool, complete: bool },
    TooLarge { limit_bytes: u64 },
    InvalidUtf8,
}

/// How a configuration read reads.
pub open spec fn read_outcome_text(o: ConfigReadOutcome) -> Seq<char> {
    match o {
        ConfigReadOutcome::NotAttempted => "not read"@,
        ConfigReadOutcome::Parsed { malformed_lines, include_detected, complete } =>
            "parsed, "@ + spec_decimal(malformed_lines as nat) + " malformed line(s), "@
                + (if complete { "complete"@ } else { "partial"@ })
                + (if include_detected { " (contains an unfollowed #include)"@ } else { Seq::empty() }),
        ConfigReadOutcome::TooLarge { limit_bytes } => "too large (over "@ + spec_decimal(limit_bytes as nat) + " bytes)"@,
        ConfigReadOutcome::InvalidUtf8 => "invalid UTF-8"@,
    }
}

/// A short description of what reading the configuration file gave.
pub fn config_read_outcome_label(outcome: &ConfigReadOutcome) -> (r: String)
    ensures
        r@ == read_outcome_text(*outcome),
{
    match outcome {
        ConfigReadOutcome::NotAttempted => "not read".to_owned(),
        ConfigReadOutcome::Parsed { malformed_lines, include_detected, complete } => {
            let mut m = "parsed, ".to_owned();
            push_str(&mut m, decimal(*malformed_lines).as_str());
            push_str(&mut m, " malformed line(s), ");
            push_str(&mut m, if *complete { "complete" } else { "partial" });
            if *include_detected {
                push_str(&mut m, " (contains an unfollowed #include)");
            }
            proof {
                assert(m@ =~= read_outcome_text(*outcome));
            }
            m
        },
        ConfigReadOutcome::TooLarge { limit_bytes } => {
            let mut m = "too large (over ".to_owned();
            push_str(&mut m, decimal(*limit_bytes).as_str());
            push_str(&mut m, " bytes)");
            m
        },
        ConfigReadOutcome::InvalidUtf8 => "invalid UTF-8".to_owned(),
    }
}

/// How a configured path was resolved.
#[derive(Debug, Clone, Copy, PartialEq, Eq, Structural)]
pub enum ResolutionState {
    ConfiguredResolved,
    ConfiguredUnresolved,
    RuntimeDefaultUnknown,
    NoReadableConfig,
}

/// One path RetroArch's configuration names.
#[derive(Debug, Clone, PartialEq, Eq)]
pub struct PathFindingView {
    /// What the path is for, by name.
    pub purpose: String,
    pub resolution: ResolutionState,
    pub resolved_path: Option<String>,
    /// What probing the resolved path found, by name.
    pub probe: Option<String>,
    pub configured_value: Option<String>,
}

/// How a path finding reads.
pub open spec fn finding_text(f: PathFindingView) -> Seq<char> {
    match f.resolution {
        ResolutionState::ConfiguredResolved =>
            "configured -> "@ + (match f.resolved_path { Some(p) => p@, None => "?"@ }) + " ("@
                + (match f.probe { Some(p) => p@, None => "unknown"@ }) + ")"@,
        ResolutionState::ConfiguredUnresolved =>
            "configured but unresolved: "@ + match f.configured_value { Some(v) => v@, None => Seq::empty() },
        ResolutionState::RuntimeDefaultUnknown => "runtime default unknown"@,
        ResolutionState::NoReadableConfig => "no readable config"@,
    }
}

/// A short description of how a configured path was resolved.
pub fn path_finding_summary(finding: &PathFindingView) -> (r: String)
    ensures
        r@ == finding_text(*finding),
{
    match finding.resolution {
        ResolutionState::ConfiguredResolved => {
            let mut m = "configured -> ".to_owned();
            match &finding.resolved_path {
                Some(p) => push_str(&mut m, p.as_str()),
                None => push_str(&mut m, "?"),
            }
            push_str(&mut m, " (");
            match &finding.probe {
                Some(p) => push_str(&mut m, p.as_str()),
                None => push_str(&mut m, "unknown"),
            }
            push_str(&mut m, ")");
            proof {
                assert(m@ =~= finding_text(*finding));
            }
            m
        },
        ResolutionState::ConfiguredUnresolved => {
            let mut m = "configured but unresolved: ".to_owned();
            match &finding.configured_value {
                Some(v) => push_str(&mut m, v.as_str()),
                None => {
                    proof {
                        assert(m@ =~= m@ + Seq::<char>::empty());
                    }
                },
            }
            m
        },
        ResolutionState::RuntimeDefaultUnknown => "runtime default unknown".to_owned(),
        ResolutionState::NoReadableConfig => "no readable config".to_owned(),
    }
}

/// A core found, with what its info file says when it was read.
#[derive(Debug, Clone, PartialEq, Eq)]
pub struct CoreView {
    pub file_name: String,
    /// Whether the core's info file was found.
    pub info_found: bool,
    pub display_name: Option<String>,
    pub display_version: Option<String>,
}

/// A desktop entry that points at an AppImage.
#[derive(Debug, Clone, PartialEq, Eq)]
pub struct DesktopMatchView {
    pub desktop_file: String,
    pub name_evidence: bool,
    /// How its `Exec` line resolved, by name.
    pub exec_resolution: String,
}

/// An AppImage that may be RetroArch.
#[derive(Debug, Clone, PartialEq, Eq)]
pub struct AppImageCandidateView {
    pub path: String,
    /// The confidence, by name.
    pub confidence: String,
    /// The executable state, by name, when it was checked.
    pub executable: Option<String>,
    pub config_association: ConfigAssociation,
    pub desktop_evidence: Vec<DesktopMatchView>,
}

/// A diagnostic of a profile or of the whole report.
#[derive(Debug, Clone, PartialEq, Eq)]
pub struct EnvironmentDiagnosticView {
    pub code: String,
    pub path: Option<String>,
}

/// One RetroArch profile.
#[derive(Debug, Clone, PartialEq, Eq)]
pub struct RetroArchProfileView {
    pub profile_kind: ProfileKind,
    pub scope: ProfileScope,
    pub executables: Vec<String>,
    pub flatpak_metadata_found: bool,
    pub config_directory: String,
    /// What probing the configuration directory found, by name.
    pub config_directory_probe: String,
    pub config_file: String,
    pub config_read: ConfigReadOutcome,
    pub paths: Vec<PathFindingView>,
    pub cores: Vec<CoreView>,
    /// The number of entries of each playlist found.
    pub playlist_entry_counts: Vec<u64>,
    pub playlists_complete: bool,
    pub app_images: Vec<AppImageCandidateView>,
    pub diagnostics: Vec<EnvironmentDiagnosticView>,
}

/// A line: the text and a newline.
pub open spec fn ln(t: Seq<char>) -> Seq<char> {
    t + "\n"@
}

/// The executables line's value.
pub open spec fn executables_text(v: Seq<String>) -> Seq<char> {
    if v.len() == 0 { "none found"@ } else { spec_join(views(v), ", "@) }
}

/// The configured path lines.
pub open spec fn path_lines(v: Seq<PathFindingView>) -> Seq<char>
    decreases v.len(),
{
    if v.len() == 0 {
        Seq::empty()
    } else {
        path_lines(v.drop_last()) + ln("    "@ + pad_right(text_lowercase(v.last().purpose@), 17) + " "@ + finding_text(v.last()))
    }
}

/// What a core's info file adds to its line.
pub open spec fn core_info_text(c: CoreView) -> Seq<char> {
    if c.info_found {
        " -> "@ + (match c.display_name { Some(n) => n@, None => "(no display name)"@ })
            + match c.display_version { Some(v) => " v"@ + v@, None => Seq::empty() }
    } else {
        Seq::empty()
    }
}

/// The core lines.
pub open spec fn core_lines(v: Seq<CoreView>) -> Seq<char>
    decreases v.len(),
{
    if v.len() == 0 {
        Seq::empty()
    } else {
        core_lines(v.drop_last()) + ln("    "@ + v.last().file_name@ + core_info_text(v.last()))
    }
}

/// The total of the counts.
pub open spec fn total(v: Seq<u64>) -> nat
    decreases v.len(),
{
    if v.len() == 0 { 0 } else { total(v.drop_last()) + v.last() as nat }
}

/// The desktop entry lines of an AppImage candidate.
pub open spec fn desktop_lines(v: Seq<DesktopMatchView>) -> Seq<char>
    decreases v.len(),
{
    if v.len() == 0 {
        Seq::empty()
    } else {
        let d = v.last();
        desktop_lines(v.drop_last()) + ln("      desktop entry: "@ + d.desktop_file@ + " (name evidence: "@
            + (if d.name_evidence { "true"@ } else { "false"@ }) + ", exec: "@ + d.exec_resolution@ + ")"@)
    }
}

/// One AppImage candidate's lines.
pub open spec fn app_image_text(c: AppImageCandidateView) -> Seq<char> {
    ln("    "@ + c.path@ + " (confidence: "@ + c.confidence@ + ", executable: "@
        + (match c.executable { Some(e) => e@, None => "n/a"@ }) + ", config: "@ + association_text(c.config_association) + ")"@)
        + desktop_lines(c.desktop_evidence@)
}

/// Every AppImage candidate's lines.
pub open spec fn app_image_lines(v: Seq<AppImageCandidateView>) -> Seq<char>
    decreases v.len(),
{
    if v.len() == 0 { Seq::empty() } else { app_image_lines(v.drop_last()) + app_image_text(v.last()) }
}

/// The diagnostic lines of a profile.
pub open spec fn profile_diagnostic_lines(v: Seq<EnvironmentDiagnosticView>) -> Seq<char>
    decreases v.len(),
{
    if v.len() == 0 {
        Seq::empty()
    } else {
        profile_diagnostic_lines(v.drop_last()) + ln("    ["@ + v.last().code@ + "]"@
            + match v.last().path { Some(p) => " ("@ + p@ + ")"@, None => Seq::empty() })
    }
}

/// The first part of a profile's body: executables and configuration.
pub open spec fn profile_config_text(p: RetroArchProfileView) -> Seq<char> {
    ln("  Executable(s): "@ + executables_text(p.executables@))
        + (if p.profile_kind == ProfileKind::Flatpak {
            ln("  Flatpak app installed: "@ + if p.flatpak_metadata_found { "true"@ } else { "false"@ })
        } else {
            Seq::empty()
        })
        + ln("  Config directory: "@ + p.config_directory@ + " ("@ + p.config_directory_probe@ + ")"@)
        + ln("  Config file: "@ + p.config_file@ + " ("@ + read_outcome_text(p.config_read) + ")"@)
}

/// The middle part: configured paths, cores and playlists.
pub open spec fn profile_content_text(p: RetroArchProfileView) -> Seq<char> {
    ln("  Configured paths:"@) + path_lines(p.paths@)
        + ln("  Cores found: "@ + spec_decimal(p.cores@.len())) + core_lines(p.cores@)
        + ln("  Playlists found: "@ + spec_decimal(p.playlist_entry_counts@.len()) + " ("@
            + spec_decimal(total(p.playlist_entry_counts@)) + " total entries)"@
            + if p.playlists_complete { Seq::empty() } else { " [truncated: a bound was reached]"@ })
}

/// The last part: AppImage candidates and diagnostics.
pub open spec fn profile_rest_text(p: RetroArchProfileView) -> Seq<char> {
    (if p.app_images@.len() == 0 { Seq::empty() } else { ln("  AppImage candidates:"@) + app_image_lines(p.app_images@) })
        + if p.diagnostics@.len() == 0 {
            ln("  Diagnostics: none"@)
        } else {
            ln("  Diagnostics:"@) + profile_diagnostic_lines(p.diagnostics@)
        }
}

/// The body of one profile in the report.
pub open spec fn profile_body(p: RetroArchProfileView) -> Seq<char> {
    profile_config_text(p) + profile_content_text(p) + profile_rest_text(p)
}

fn line(out: &mut String, t: &str)
    ensures
        final(out)@ == old(out)@ + ln(t@),
{
    push_str(out, t);
    push_str(out, "\n");
    proof {
        assert(final(out)@ =~= old(out)@ + ln(t@));
    }
}

#[verifier::rlimit(50)]
fn push_config(out: &mut String, p: &RetroArchProfileView)
    ensures
        final(out)@ == old(out)@ + profile_config_text(*p),
{
    let ghost start = out@;
    push_str(out, "  Executable(s): ");
    if p.executables.len() == 0 {
        line(out, "none found");
    } else {
        line(out, join(&p.executables, ", ").as_str());
    }
    if p.profile_kind == ProfileKind::Flatpak {
        push_str(out, "  Flatpak app installed: ");
        line(out, if p.flatpak_metadata_found { "true" } else { "false" });
    }
    push_str(out, "  Config directory: ");
    push_str(out, p.config_directory.as_str());
    push_str(out, " (");
    push_str(out, p.config_directory_probe.as_str());
    line(out, ")");
    push_str(out, "  Config file: ");
    push_str(out, p.config_file.as_str());
    push_str(out, " (");
    push_str(out, config_read_outcome_label(&p.config_read).as_str());
    line(out, ")");
    proof {
        assert(out@ =~= start + profile_config_text(*p));
    }
}

fn push_padded(out: &mut String, s: &str, width: usize)
    ensures
        final(out)@ == old(out)@ + pad_right(s@, width as nat),
{
    push_str(out, s);
    let len = crate::text::chars_of(s).len();
    let ghost base = out@;
    let mut k = len;
    while k < width
        invariant
            len == s@.len(),
            len <= k,
            k <= width || k == len,
            out@ == base + Seq::new((k - len) as nat, |i: int| ' '),
        decreases width - k,
    {
        push_char(out, ' ');
        k = k + 1;
        proof {
            assert(out@ =~= base + Seq::new((k - len) as nat, |i: int| ' '));
        }
    }
    proof {
        if len >= width {
            assert(out@ =~= old(out)@ + s@);
        } else {
            assert(out@ =~= old(out)@ + (s@ + Seq::new((width - len) as nat, |i: int| ' ')));
        }
    }
}

fn push_paths(out: &mut String, v: &Vec<PathFindingView>)
    ensures
        final(out)@ == old(out)@ + path_lines(v@),
{
    let ghost head = out@;
    let mut k: usize = 0;
    while k < v.len()
        invariant
            k <= v@.len(),
            out@ == head + path_lines(v@.take(k as int)),
        decreases v@.len() - k,
    {
        proof {
            assert(v@.take(k + 1).drop_last() =~= v@.take(k as int));
            assert(v@.take(k + 1).last() == v@[k as int]);
        }
        let ghost before = out@;
        let purpose = lowercase(v[k].purpose.as_str());
        push_str(out, "    ");
        push_padded(out, purpose.as_str(), 17);
        push_str(out, " ");
        line(out, path_finding_summary(&v[k]).as_str());
        proof {
            let f = v@[k as int];
            assert(out@ =~= before + ln("    "@ + pad_right(text_lowercase(f.purpose@), 17) + " "@ + finding_text(f)));
        }
        k = k + 1;
    }
    proof {
        assert(v@.take(v@.len() as int) =~= v@);
    }
}

fn push_cores(out: &mut String, v: &Vec<CoreView>)
    ensures
        final(out)@ == old(out)@ + core_lines(v@),
{
    let ghost head = out@;
    let mut k: usize = 0;
    while k < v.len()
        invariant
            k <= v@.len(),
            out@ == head + core_lines(v@.take(k as int)),
        decreases v@.len() - k,
    {
        proof {
            assert(v@.take(k + 1).drop_last() =~= v@.take(k as int));
            assert(v@.take(k + 1).last() == v@[k as int]);
        }
        let ghost before = out@;
        let c = &v[k];
        push_str(out, "    ");
        push_str(out, c.file_name.as_str());
        if c.info_found {
            push_str(out, " -> ");
            match &c.display_name {
                Some(n) => push_str(out, n.as_str()),
                None => push_str(out, "(no display name)"),
            }
            match &c.display_version {
                Some(ver) => {
                    push_str(out, " v");
                    push_str(out, ver.as_str());
                },
                None => {},
            }
        }
        push_str(out, "\n");
        proof {
            assert(out@ =~= before + ln("    "@ + c.file_name@ + core_info_text(*c)));
        }
        k = k + 1;
    }
    proof {
        assert(v@.take(v@.len() as int) =~= v@);
    }
}

fn playlist_total(v: &Vec<u64>) -> (r: u64)
    requires
        total(v@) <= u64::MAX,
    ensures
        r == total(v@),
{
    let mut sum: u64 = 0;
    let mut k: usize = 0;
    while k < v.len()
        invariant
            k <= v@.len(),
            sum == total(v@.take(k as int)),
            total(v@) <= u64::MAX,
        decreases v@.len() - k,
    {
        proof {
            assert(v@.take(k + 1).drop_last() =~= v@.take(k as int));
            lemma_total_prefix(v@, k as int + 1);
        }
        sum = sum + v[k];
        k = k + 1;
    }
    proof {
        assert(v@.take(v@.len() as int) =~= v@);
    }
    sum
}

proof fn lemma_total_prefix(v: Seq<u64>, i: int)
    requires
        0 <= i <= v.len(),
    ensures
        total(v.take(i)) <= total(v),
    decreases v.len() - i,
{
    if i < v.len() {
        lemma_total_prefix(v, i + 1);
        assert(v.take(i + 1).drop_last() =~= v.take(i));
    } else {
        assert(v.take(i) =~= v);
    }
}

#[verifier::rlimit(50)]
fn push_content(out: &mut String, p: &RetroArchProfileView)
    requires
        total(p.playlist_entry_counts@) <= u64::MAX,
    ensures
        final(out)@ == old(out)@ + profile_content_text(*p),
{
    let ghost start = out@;
    line(out, "  Configured paths:");
    push_paths(out, &p.paths);
    push_str(out, "  Cores found: ");
    line(out, decimal(p.cores.len() as u64).as_str());
    push_cores(out, &p.cores);
    push_str(out, "  Playlists found: ");
    push_str(out, decimal(p.playlist_entry_counts.len() as u64).as_str());
    push_str(out, " (");
    push_str(out, decimal(playlist_total(&p.playlist_entry_counts)).as_str());
    push_str(out, " total entries)");
    if !p.playlists_complete {
        push_str(out, " [truncated: a bound was reached]");
    }
    push_str(out, "\n");
    proof {
        assert(out@ =~= start + profile_content_text(*p));
    }
}

fn push_desktops(out: &mut String, v: &Vec<DesktopMatchView>)
    ensures
        final(out)@ == old(out)@ + desktop_lines(v@),
{
    let ghost head = out@;
    let mut k: usize = 0;
    while k < v.len()
        invariant
            k <= v@.len(),
            out@ == head + desktop_lines(v@.take(k as int)),
        decreases v@.len() - k,
    {
        proof {
            assert(v@.take(k + 1).drop_last() =~= v@.take(k as int));
            assert(v@.take(k + 1).last() == v@[k as int]);
        }
        let ghost before = out@;
        let d = &v[k];
        push_str(out, "      desktop entry: ");
        push_str(out, d.desktop_file.as_str());
        push_str(out, " (name evidence: ");
        push_str(out, if d.name_evidence { "true" } else { "false" });
        push_str(out, ", exec: ");
        push_str(out, d.exec_resolution.as_str());
        line(out, ")");
        proof {
            assert(out@ =~= before + ln("      desktop entry: "@ + d.desktop_file@ + " (name evidence: "@
                + (if d.name_evidence { "true"@ } else { "false"@ }) + ", exec: "@ + d.exec_resolution@ + ")"@));
        }
        k = k + 1;
    }
    proof {
        assert(v@.take(v@.len() as int) =~= v@);
    }
}

fn push_app_image(out: &mut String, c: &AppImageCandidateView)
    ensures
        final(out)@ == old(out)@ + app_image_text(*c),
{
    let ghost start = out@;
    push_str(out, "    ");
    push_str(out, c.path.as_str());
    push_str(out, " (confidence: ");
    push_str(out, c.confidence.as_str());
    push_str(out, ", executable: ");
    match &c.executable {
        Some(e) => push_str(out, e.as_str()),
        None => push_str(out, "n/a"),
    }
    push_str(out, ", config: ");
    push_str(out, config_association_summary(&c.config_association).as_str());
    line(out, ")");
    push_desktops(out, &c.desktop_evidence);
    proof {
        assert(out@ =~= start + app_image_text(*c));
    }
}

fn push_rest(out: &mut String, p: &RetroArchProfileView)
    ensures
        final(out)@ == old(out)@ + profile_rest_text(*p),
{
    let ghost start = out@;
    if p.app_images.len() > 0 {
        line(out, "  AppImage candidates:");
        let ghost head = out@;
        let mut k: usize = 0;
        while k < p.app_images.len()
            invariant
                k <= p.app_images@.len(),
                out@ == head + app_image_lines(p.app_images@.take(k as int)),
            decreases p.app_images@.len() - k,
        {
            proof {
                assert(p.app_images@.take(k + 1).drop_last() =~= p.app_images@.take(k as int));
                assert(p.app_images@.take(k + 1).last() == p.app_images@[k as int]);
            }
            push_app_image(out, &p.app_images[k]);
            k = k + 1;
        }
        proof {
            assert(p.app_images@.take(p.app_images@.len() as int) =~= p.app_images@);
        }
    }
    let ghost mid = out@;
    if p.diagnostics.len() == 0 {
        line(out, "  Diagnostics: none");
    } else {
        line(out, "  Diagnostics:");
        let ghost head = out@;
        let mut k: usize = 0;
        while k < p.diagnostics.len()
            invariant
                k <= p.diagnostics@.len(),
                out@ == head + profile_diagnostic_lines(p.diagnostics@.take(k as int)),
            decreases p.diagnostics@.len() - k,
        {
            proof {
                assert(p.diagnostics@.take(k + 1).drop_last() =~= p.diagnostics@.take(k as int));
                assert(p.diagnostics@.take(k + 1).last() == p.diagnostics@[k as int]);
            }
            let ghost before = out@;
            let d = &p.diagnostics[k];
            push_str(out, "    [");
            push_str(out, d.code.as_str());
            push_str(out, "]");
            match &d.path {
                Some(path) => {
                    push_str(out, " (");
                    push_str(out, path.as_str());
                    push_str(out, ")");
                },
                None => {},
            }
            push_str(out, "\n");
            proof {
                assert(out@ =~= before + ln("    ["@ + d.code@ + "]"@
                    + match d.path { Some(path) => " ("@ + path@ + ")"@, None => Seq::<char>::empty() }));
            }
            k = k + 1;
        }
        proof {
            assert(p.diagnostics@.take(p.diagnostics@.len() as int) =~= p.diagnostics@);
        }
    }
    proof {
        assert(out@ =~= start + profile_rest_text(*p));
    }
}

/// Appends the body of one profile: executables, configuration, configured
/// paths (the purpose lower-cased and padded to 17 characters), cores,
/// playlists, AppImage candidates and diagnostics.
pub fn write_profile_body(output: &mut String, profile: &RetroArchProfileView)
    requires
        total(profile.playlist_entry_counts@) <= u64::MAX,
    ensures
        final(output)@ == old(output)@ + profile_body(*profile),
{
    push_config(output, profile);
    push_content(output, profile);
    push_rest(output, profile);
    proof {
        assert(final(output)@ =~= old(output)@ + profile_body(*profile));
    }
}

/// Every profile's block.
pub open spec fn profile_blocks(v: Seq<RetroArchProfileView>) -> Seq<char>
    decreases v.len(),
{
    if v.len() == 0 {
        Seq::empty()
    } else {
        let p = v.last();
        profile_blocks(v.drop_last()) + profile_block(p)
    }
}

/// The report's diagnostics lines.
pub open spec fn report_diagnostic_lines(v: Seq<EnvironmentDiagnosticView>) -> Seq<char>
    decreases v.len(),
{
    if v.len() == 0 {
        Seq::empty()
    } else {
        report_diagnostic_lines(v.drop_last()) + ln("  ["@ + v.last().code@ + "] "@
            + match v.last().path { Some(p) => p@, None => Seq::empty() })
    }
}

/// The whole environment report.
pub open spec fn environment_text(format_version: Seq<char>, profiles: Seq<RetroArchProfileView>,
    diagnostics: Seq<EnvironmentDiagnosticView>) -> Seq<char> {
    ln("EmuWiz RetroArch Environment Report"@)
        + ln("Read-only: yes (no files were created, modified, or deleted)"@)
        + ln("Format: "@ + format_version)
        + profile_blocks(profiles)
        + if diagnostics.len() == 0 {
            Seq::empty()
        } else {
            ln(Seq::empty()) + ln("Report diagnostics:"@) + report_diagnostic_lines(diagnostics)
        }
}

/// One profile's block in the report.
pub open spec fn profile_block(p: RetroArchProfileView) -> Seq<char> {
    ln(Seq::empty()) + ln(spec_profile_kind_label(p.profile_kind) + " / "@ + spec_profile_scope_label(p.scope)) + profile_body(p)
}

fn push_profile_block(out: &mut String, p: &RetroArchProfileView)
    requires
        total(p.playlist_entry_counts@) <= u64::MAX,
    ensures
        final(out)@ == old(out)@ + profile_block(*p),
{
    let ghost start = out@;
    push_str(out, "\n");
    push_str(out, profile_kind_label(p.profile_kind));
    push_str(out, " / ");
    line(out, profile_scope_label(p.scope));
    write_profile_body(out, p);
    proof {
        assert(ln(Seq::<char>::empty()) =~= "\n"@);
        assert(out@ =~= start + profile_block(*p));
    }
}

/// Every profile may list its playlists' entries without overflowing.
pub open spec fn playlists_countable(v: Seq<RetroArchProfileView>) -> bool {
    forall|i: int| 0 <= i < v.len() ==> total(#[trigger] v[i].playlist_entry_counts@) <= u64::MAX
}

/// The read-only RetroArch environment report: each profile with its kind
/// and scope, then the report's diagnostics when there are any.
pub fn format_retroarch_environment_report(format_version: &str, profiles: &Vec<RetroArchProfileView>,
    diagnostics: &Vec<EnvironmentDiagnosticView>) -> (r: String)
    requires
        playlists_countable(profiles@),
    ensures
        r@ == environment_text(format_version@, profiles@, diagnostics@),
{
    let mut out = String::new();
    line(&mut out, "EmuWiz RetroArch Environment Report");
    line(&mut out, "Read-only: yes (no files were created, modified, or deleted)");
    push_str(&mut out, "Format: ");
    line(&mut out, format_version);
    let ghost head = out@;
    let mut k: usize = 0;
    while k < profiles.len()
        invariant
            k <= profiles@.len(),
            playlists_countable(profiles@),
            out@ == head + profile_blocks(profiles@.take(k as int)),
        decreases profiles@.len() - k,
    {
        proof {
            assert(profiles@.take(k + 1).drop_last() =~= profiles@.take(k as int));
            assert(profiles@.take(k + 1).last() == profiles@[k as int]);
        }
        proof {
            assert(total(profiles@[k as int].playlist_entry_counts@) <= u64::MAX);
        }
        push_profile_block(&mut out, &profiles[k]);
        k = k + 1;
    }
    proof {
        assert(profiles@.take(profiles@.len() as int) =~= profiles@);
    }
    let ghost body = out@;
    if diagnostics.len() > 0 {
        push_str(&mut out, "\n");
        line(&mut out, "Report diagnostics:");
        let ghost dh = out@;
        let mut j: usize = 0;
        while j < diagnostics.len()
            invariant
                j <= diagnostics@.len(),
                out@ == dh + report_diagnostic_lines(diagnostics@.take(j as int)),
            decreases diagnostics@.len() - j,
        {
            proof {
                assert(diagnostics@.take(j + 1).drop_last() =~= diagnostics@.take(j as int));
                assert(diagnostics@.take(j + 1).last() == diagnostics@[j as int]);
            }
            let ghost before = out@;
            let d = &diagnostics[j];
            push_str(&mut out, "  [");
            push_str(&mut out, d.code.as_str());
            push_str(&mut out, "] ");
            match &d.path {
                Some(p) => push_str(&mut out, p.as_str()),
                None => {},
            }
            push_str(&mut out, "\n");
            proof {
                assert(out@ =~= before + ln("  ["@ + d.code@ + "] "@ + match d.path { Some(p) => p@, None => Seq::<char>::empty() }));
            }
            j = j + 1;
        }
        proof {
            assert(diagnostics@.take(diagnostics@.len() as int) =~= diagnostics@);
        }
    }
    proof {
        assert(ln(Seq::<char>::empty()) =~= "\n"@);
        assert(out@ =~= environment_text(format_version@, profiles@, diagnostics@));
    }
    out
}

} // verus!
