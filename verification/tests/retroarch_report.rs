use archivefs_cli::retroarch::{
    config_association_summary, config_read_outcome_label, format_retroarch_environment_report,
    path_finding_summary, profile_kind_label, profile_scope_label, write_profile_body, AppImageCandidateView,
    ConfigAssociation, ConfigReadOutcome, CoreView, DesktopMatchView, EnvironmentDiagnosticView, PathFindingView,
    ProfileKind, ProfileScope, ResolutionState, RetroArchProfileView,
};

fn native_profile() -> RetroArchProfileView {
    RetroArchProfileView {
        profile_kind: ProfileKind::Native,
        scope: ProfileScope::User,
        executables: vec!["/usr/bin/retroarch".to_string()],
        flatpak_metadata_found: false,
        config_directory: "/home/u/.config/retroarch".to_string(),
        config_directory_probe: "Directory".to_string(),
        config_file: "/home/u/.config/retroarch/retroarch.cfg".to_string(),
        config_read: ConfigReadOutcome::Parsed { malformed_lines: 0, include_detected: false, complete: true },
        paths: vec![
            PathFindingView {
                purpose: "CheatDatabase".to_string(),
                resolution: ResolutionState::ConfiguredResolved,
                resolved_path: Some("/home/u/.config/retroarch/cheats".to_string()),
                probe: Some("Directory".to_string()),
                configured_value: Some(":/cheats".to_string()),
            },
            PathFindingView {
                purpose: "Playlist".to_string(),
                resolution: ResolutionState::RuntimeDefaultUnknown,
                resolved_path: None,
                probe: None,
                configured_value: None,
            },
        ],
        cores: vec![
            CoreView {
                file_name: "snes9x_libretro.so".to_string(),
                info_found: true,
                display_name: Some("Nintendo - SNES / SFC (Snes9x - Current)".to_string()),
                display_version: Some("1.62".to_string()),
            },
            CoreView { file_name: "mystery_libretro.so".to_string(), info_found: false, display_name: None, display_version: None },
        ],
        playlist_entry_counts: vec![3, 4],
        playlists_complete: true,
        app_images: Vec::new(),
        diagnostics: Vec::new(),
    }
}

#[test]
fn environment_report_exact_text_for_one_native_profile() {
    let text = format_retroarch_environment_report("2", &vec![native_profile()], &Vec::new());
    assert_eq!(
        text,
        [
            "EmuWiz RetroArch Environment Report\n",
            "Read-only: yes (no files were created, modified, or deleted)\n",
            "Format: 2\n",
            "\n",
            "Native / user\n",
            "  Executable(s): /usr/bin/retroarch\n",
            "  Config directory: /home/u/.config/retroarch (Directory)\n",
            "  Config file: /home/u/.config/retroarch/retroarch.cfg (parsed, 0 malformed line(s), complete)\n",
            "  Configured paths:\n",
            "    cheatdatabase     configured -> /home/u/.config/retroarch/cheats (Directory)\n",
            "    playlist          runtime default unknown\n",
            "  Cores found: 2\n",
            "    snes9x_libretro.so -> Nintendo - SNES / SFC (Snes9x - Current) v1.62\n",
            "    mystery_libretro.so\n",
            "  Playlists found: 2 (7 total entries)\n",
            "  Diagnostics: none\n",
        ]
        .concat()
    );
}

#[test]
fn flatpak_profile_with_app_images_and_diagnostics() {
    let mut profile = native_profile();
    profile.profile_kind = ProfileKind::Flatpak;
    profile.scope = ProfileScope::System;
    profile.executables.clear();
    profile.flatpak_metadata_found = true;
    profile.paths.clear();
    profile.cores.clear();
    profile.playlist_entry_counts.clear();
    profile.playlists_complete = false;
    profile.config_read = ConfigReadOutcome::TooLarge { limit_bytes: 1048576 };
    profile.app_images = vec![AppImageCandidateView {
        path: "/opt/RetroArch.AppImage".to_string(),
        confidence: "Strong".to_string(),
        executable: None,
        config_association: ConfigAssociation::PortableConfigDetected {
            config_directory: "/opt/RetroArch.AppImage.home".to_string(),
        },
        desktop_evidence: vec![DesktopMatchView {
            desktop_file: "/usr/share/applications/retroarch.desktop".to_string(),
            name_evidence: true,
            exec_resolution: "Resolved".to_string(),
        }],
    }];
    profile.diagnostics = vec![
        EnvironmentDiagnosticView { code: "config_too_large".to_string(), path: Some("/x/retroarch.cfg".to_string()) },
        EnvironmentDiagnosticView { code: "no_cores".to_string(), path: None },
    ];
    let mut out = String::new();
    write_profile_body(&mut out, &profile);
    assert_eq!(
        out,
        [
            "  Executable(s): none found\n",
            "  Flatpak app installed: true\n",
            "  Config directory: /home/u/.config/retroarch (Directory)\n",
            "  Config file: /home/u/.config/retroarch/retroarch.cfg (too large (over 1048576 bytes))\n",
            "  Configured paths:\n",
            "  Cores found: 0\n",
            "  Playlists found: 0 (0 total entries) [truncated: a bound was reached]\n",
            "  AppImage candidates:\n",
            "    /opt/RetroArch.AppImage (confidence: Strong, executable: n/a, config: portable config at /opt/RetroArch.AppImage.home)\n",
            "      desktop entry: /usr/share/applications/retroarch.desktop (name evidence: true, exec: Resolved)\n",
            "  Diagnostics:\n",
            "    [config_too_large] (/x/retroarch.cfg)\n",
            "    [no_cores]\n",
        ]
        .concat()
    );
    let report = format_retroarch_environment_report(
        "2",
        &vec![profile],
        &vec![EnvironmentDiagnosticView { code: "no_home".to_string(), path: None }],
    );
    assert!(report.contains("\nFlatpak / system\n"));
    assert!(report.ends_with("\nReport diagnostics:\n  [no_home] \n"));
}

#[test]
fn labels_and_summaries_read_as_the_report_writes_them() {
    assert_eq!(profile_kind_label(ProfileKind::AppImage), "AppImage");
    assert_eq!(profile_scope_label(ProfileScope::System), "system");
    assert_eq!(config_association_summary(&ConfigAssociation::SharesNativeProfile), "shared logical profile");
    assert_eq!(
        config_association_summary(&ConfigAssociation::ExplicitConfig { config_directory: "/c".to_string() }),
        "explicit config at /c"
    );
    assert_eq!(config_association_summary(&ConfigAssociation::Ambiguous), "ambiguous");
    assert_eq!(config_read_outcome_label(&ConfigReadOutcome::NotAttempted), "not read");
    assert_eq!(config_read_outcome_label(&ConfigReadOutcome::InvalidUtf8), "invalid UTF-8");
    assert_eq!(
        config_read_outcome_label(&ConfigReadOutcome::Parsed { malformed_lines: 2, include_detected: true, complete: false }),
        "parsed, 2 malformed line(s), partial (contains an unfollowed #include)"
    );
    let unresolved = PathFindingView {
        purpose: "System".to_string(),
        resolution: ResolutionState::ConfiguredUnresolved,
        resolved_path: None,
        probe: None,
        configured_value: Some("~/bios".to_string()),
    };
    assert_eq!(path_finding_summary(&unresolved), "configured but unresolved: ~/bios");
    let none = PathFindingView { resolution: ResolutionState::NoReadableConfig, ..unresolved };
    assert_eq!(path_finding_summary(&none), "no readable config");
}
