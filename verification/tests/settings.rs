use flatus::personalities::personality_name;
use flatus::settings::{
    accept_settings_update, auto_fire_voice, complete_onboarding, default_auto_play_enabled,
    default_manual_seed, default_play_mode, next_manual_seed, preview_voice, quiet_hours_active,
    reset_onboarding, sanitize_settings, select_fire_voice, uses_headphone_cap, Settings,
    SETTINGS_VERSION,
};

const CANONICAL_PERSONALITIES: &[&str] =
    &["polite-cough", "default", "biblical", "silent-but-deadly"];

#[test]
fn quiet_hours_supports_cross_midnight_ranges() {
    let settings = Settings {
        quiet_start: Some(22),
        quiet_end: Some(7),
        ..Settings::default()
    };
    assert!(quiet_hours_active(&settings, 23));
    assert!(quiet_hours_active(&settings, 3));
    assert!(!quiet_hours_active(&settings, 12));
}

#[test]
fn quiet_hours_daytime_range_and_edges() {
    let settings = Settings {
        quiet_start: Some(9),
        quiet_end: Some(17),
        ..Settings::default()
    };
    assert!(quiet_hours_active(&settings, 9));
    assert!(!quiet_hours_active(&settings, 17));
    assert!(!quiet_hours_active(&settings, 8));
    let all_day = Settings {
        quiet_start: Some(5),
        quiet_end: Some(5),
        ..Settings::default()
    };
    assert!(quiet_hours_active(&all_day, 14));
    let half_set = Settings {
        quiet_start: Some(5),
        quiet_end: None,
        ..Settings::default()
    };
    assert!(!quiet_hours_active(&half_set, 6));
}

#[test]
fn sanitize_settings_restores_supported_personality() {
    let settings = Settings {
        personality: "mystery".to_string(),
        output: "sideways".to_string(),
        quiet_start: Some(99),
        quiet_end: Some(24),
        ..Settings::default()
    };
    let sanitized = sanitize_settings(settings);
    assert_eq!(sanitized.personality, "default");
    // Unknown output strings fall back to "speakers", the documented default.
    assert_eq!(sanitized.output, "speakers");
    assert_eq!(sanitized.quiet_start, Some(23));
    assert_eq!(sanitized.quiet_end, Some(23));
}

#[test]
fn sanitize_settings_normalises_play_mode() {
    let s = Settings {
        play_mode: "garbage".to_string(),
        ..Settings::default()
    };
    assert_eq!(sanitize_settings(s).play_mode, "single");

    let s = Settings {
        play_mode: "shuffle".to_string(),
        ..Settings::default()
    };
    assert_eq!(sanitize_settings(s).play_mode, "shuffle");
}

#[test]
fn sanitize_settings_migrates_legacy_auto_play_off() {
    let s = Settings {
        version: 1,
        auto_play_enabled: true,
        ..Settings::default()
    };
    let sanitized = sanitize_settings(s);
    assert_eq!(sanitized.version, SETTINGS_VERSION);
    assert!(!sanitized.auto_play_enabled);
}

#[test]
fn sanitize_settings_preserves_current_auto_play_choice() {
    let s = Settings {
        version: SETTINGS_VERSION,
        auto_play_enabled: true,
        ..Settings::default()
    };
    let sanitized = sanitize_settings(s);
    assert!(sanitized.auto_play_enabled);
}

#[test]
fn sanitize_settings_keeps_seed_in_web_range_and_is_idempotent() {
    let s = Settings {
        manual_seed: 12_345_678_901,
        output: "headphones".to_string(),
        personality: "biblical".to_string(),
        ..Settings::default()
    };
    let once = sanitize_settings(s);
    assert_eq!(once.manual_seed, 345_678_901);
    assert_eq!(once.output, "headphones");
    assert_eq!(once.personality, "biblical");
    let twice = sanitize_settings(once.clone());
    assert_eq!(twice.manual_seed, once.manual_seed);
    assert_eq!(twice.output, once.output);
    assert_eq!(twice.personality, once.personality);
    assert_eq!(twice.play_mode, once.play_mode);
}

#[test]
fn select_fire_voice_single_uses_selected_personality() {
    let s = Settings {
        personality: "biblical".to_string(),
        play_mode: "single".to_string(),
        ..Settings::default()
    };
    for seed in [1, 7, 42, 0xdead_beef] {
        let name = select_fire_voice(&s, seed);
        assert_eq!(name, "biblical");
    }
}

#[test]
fn select_fire_voice_shuffle_picks_only_canonical_personalities() {
    let s = Settings {
        play_mode: "shuffle".to_string(),
        ..Settings::default()
    };
    let mut hits = std::collections::HashSet::new();
    for seed in 0..1024_u64 {
        let name = select_fire_voice(&s, seed.wrapping_mul(0x9E37_79B9));
        assert!(
            CANONICAL_PERSONALITIES.contains(&name.as_str()),
            "shuffle picked unknown personality `{name}`",
        );
        hits.insert(name);
    }
    // Across 1024 seeds we should reach all four personalities.
    assert_eq!(hits.len(), CANONICAL_PERSONALITIES.len());
}

#[test]
fn shuffle_uses_first_draw_modulo_four() {
    let s = Settings {
        play_mode: "shuffle".to_string(),
        ..Settings::default()
    };
    assert_eq!(select_fire_voice(&s, 1), personality_name(3));
    assert_eq!(select_fire_voice(&s, 0xdead_beef), personality_name(2));
    assert_eq!(select_fire_voice(&s, 42), personality_name(0));
}

#[test]
fn defaults_match_fresh_install() {
    let s = Settings::default();
    assert_eq!(s.version, SETTINGS_VERSION);
    assert_eq!(s.personality, "default");
    assert_eq!(s.play_mode, "single");
    assert_eq!(s.output, "speakers");
    assert_eq!(s.quiet_start, None);
    assert!(!s.onboarding_completed);
    assert!(!s.auto_play_enabled);
    assert_eq!(s.manual_seed, 17);
    assert_eq!(default_manual_seed(), 17);
    assert!(!default_auto_play_enabled());
    assert_eq!(default_play_mode(), "single");
}

#[test]
fn stale_update_cannot_reopen_onboarding() {
    let current = Settings {
        onboarding_completed: true,
        ..Settings::default()
    };
    let submitted = Settings {
        onboarding_completed: false,
        personality: "biblical".to_string(),
        ..Settings::default()
    };
    let accepted = accept_settings_update(&current, submitted);
    assert!(accepted.onboarding_completed);
    assert_eq!(accepted.personality, "biblical");

    let fresh = Settings::default();
    let accepted = accept_settings_update(&fresh, Settings::default());
    assert!(!accepted.onboarding_completed);
}

#[test]
fn onboarding_completion_and_reset() {
    let s = Settings::default();
    let done = complete_onboarding(s).expect("first completion saves");
    assert!(done.onboarding_completed);
    assert!(complete_onboarding(done.clone()).is_none());
    let reopened = reset_onboarding(done);
    assert!(!reopened.onboarding_completed);
}

#[test]
fn preview_uses_given_or_stored_seed() {
    let s = Settings {
        manual_seed: 31,
        personality: "biblical".to_string(),
        ..Settings::default()
    };
    assert_eq!(preview_voice(&s, None), (31, "biblical".to_string()));
    assert_eq!(preview_voice(&s, Some(5)), (5, "biblical".to_string()));
}

#[test]
fn auto_fire_respects_toggle_and_quiet_hours() {
    let off = Settings::default();
    assert_eq!(auto_fire_voice(&off, Some(12), 3), None);
    let on = Settings {
        auto_play_enabled: true,
        quiet_start: Some(22),
        quiet_end: Some(7),
        ..Settings::default()
    };
    assert_eq!(auto_fire_voice(&on, Some(23), 3), None);
    assert_eq!(auto_fire_voice(&on, Some(12), 3), Some("default".to_string()));
    assert_eq!(auto_fire_voice(&on, None, 3), Some("default".to_string()));
}

#[test]
fn headphone_cap_and_rolled_seed() {
    let s = Settings {
        output: "headphones".to_string(),
        ..Settings::default()
    };
    assert!(uses_headphone_cap(&s));
    assert!(!uses_headphone_cap(&Settings::default()));
    assert_eq!(next_manual_seed(5_000_000_123), 123);
}
