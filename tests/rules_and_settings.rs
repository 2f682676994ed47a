use komorebi_config::config::{ApplicationConfiguration, ApplicationOptions, StaticConfig};
use komorebi_config::geometry::{ActiveWindowBorderColours, Colour};
use komorebi_config::options::{EaseEnum, HidingBehaviour};
use komorebi_config::registry::{ConfigError, RuleRegistry, RuleSets};
use komorebi_config::rules::{ApplicationIdentifier, IdWithIdentifier, MatchingStrategy};
use komorebi_config::settings::RuntimeSettings;

fn rule(kind: ApplicationIdentifier, id: &str, s: Option<MatchingStrategy>) -> IdWithIdentifier {
    IdWithIdentifier::new(kind, id.to_string(), s)
}

fn sample_rules() -> Vec<IdWithIdentifier> {
    vec![
        rule(ApplicationIdentifier::Exe, "firefox.exe", None),
        rule(ApplicationIdentifier::Title, "^Picture.*", Some(MatchingStrategy::Regex)),
        rule(ApplicationIdentifier::Exe, "firefox.exe", None),
        rule(ApplicationIdentifier::Class, "Chrome_WidgetWin_1", Some(MatchingStrategy::Equals)),
    ]
}

#[test]
fn merging_same_rules_twice_is_idempotent() {
    let mut registry = RuleRegistry::new();
    let mut sets = RuleSets::new();
    sets.float_rules = sample_rules();
    sets.manage_rules = sample_rules();
    registry.merge(&sets).unwrap();
    assert_eq!(registry.float_identifiers.len(), 3);
    assert_eq!(registry.manage_identifiers.len(), 3);
    assert_eq!(registry.regex_identifiers.len(), 1);
    registry.merge(&sets).unwrap();
    assert_eq!(registry.float_identifiers.len(), 3);
    assert_eq!(registry.manage_identifiers.len(), 3);
    assert_eq!(registry.regex_identifiers.len(), 1);
    assert_eq!(registry.float_identifiers[0].matching_strategy, Some(MatchingStrategy::Legacy));
    assert_eq!(registry.float_identifiers[1].id, "^Picture.*");
    assert!(registry.regex_identifiers.contains(&"^Picture.*".to_string()));
}

#[test]
fn unset_strategy_defaults_to_legacy_and_dedups_with_it() {
    let mut registry = RuleRegistry::new();
    let mut sets = RuleSets::new();
    sets.layered_rules = vec![
        rule(ApplicationIdentifier::Exe, "a.exe", None),
        rule(ApplicationIdentifier::Exe, "a.exe", Some(MatchingStrategy::Legacy)),
        rule(ApplicationIdentifier::Exe, "a.exe", Some(MatchingStrategy::Equals)),
    ];
    registry.merge(&sets).unwrap();
    assert_eq!(registry.layered_identifiers.len(), 2);
}

#[test]
fn invalid_pattern_is_refused_and_nothing_changes() {
    let mut registry = RuleRegistry::new();
    let mut sets = RuleSets::new();
    sets.float_rules = vec![rule(ApplicationIdentifier::Exe, "ok.exe", None)];
    registry.merge(&sets).unwrap();
    let mut bad = RuleSets::new();
    bad.manage_rules = vec![rule(ApplicationIdentifier::Exe, "new.exe", None)];
    bad.float_rules = vec![rule(ApplicationIdentifier::Title, "([unclosed", Some(MatchingStrategy::Regex))];
    match registry.merge(&bad) {
        Err(ConfigError::InvalidPattern(id)) => assert_eq!(id, "([unclosed"),
        Ok(()) => panic!("an invalid pattern must be refused"),
    }
    assert_eq!(registry.float_identifiers.len(), 1);
    assert_eq!(registry.manage_identifiers.len(), 0);
    assert_eq!(registry.regex_identifiers.len(), 0);
}

#[test]
fn omitted_border_settings_take_defaults() {
    let mut settings = RuntimeSettings::new();
    settings.border_width = 3;
    settings.border_offset = 5;
    let mut registry = RuleRegistry::new();
    let doc = StaticConfig::empty();
    doc.apply_globals(&vec![], &mut settings, &mut registry).unwrap();
    assert_eq!(settings.border_width, 8);
    assert_eq!(settings.border_offset, -1);
}

#[test]
fn apply_globals_overwrites_present_fields_only() {
    let mut settings = RuntimeSettings::new();
    let mut registry = RuleRegistry::new();
    let mut doc = StaticConfig::empty();
    doc.border_width = Some(2);
    doc.border_offset = Some(4);
    doc.default_container_padding = Some(3);
    doc.window_hiding_behaviour = Some(HidingBehaviour::Cloak);
    doc.animation_duration = Some(400);
    doc.animation_ease = Some(EaseEnum::EaseInOutBack);
    doc.display_index_preferences = Some(vec![(0, "DISPLAY1".to_string())]);
    doc.active_window_border_colours = Some(ActiveWindowBorderColours {
        single: Colour { r: 1, g: 2, b: 3 },
        stack: Colour { r: 0, g: 0, b: 255 },
        monocle: Colour { r: 255, g: 0, b: 0 },
    });
    doc.apply_globals(&vec![], &mut settings, &mut registry).unwrap();
    assert_eq!(settings.border_width, 2);
    assert_eq!(settings.border_offset, 4);
    assert_eq!(settings.default_container_padding, 3);
    assert_eq!(settings.default_workspace_padding, 10);
    assert_eq!(settings.hiding_behaviour, HidingBehaviour::Cloak);
    assert_eq!(settings.animation_duration, 400);
    assert_eq!(settings.animation_ease, EaseEnum::EaseInOutBack);
    assert!(!settings.animation_enabled);
    assert_eq!(settings.display_index_preferences, vec![(0, "DISPLAY1".to_string())]);
    assert_eq!(settings.border_colour_single, 1 + 2 * 256 + 3 * 65536);
    assert_eq!(settings.border_colour_current, 1 + 2 * 256 + 3 * 65536);
    assert_eq!(settings.border_colour_stack, 255 * 65536);
    assert_eq!(settings.border_colour_monocle, 255);
}

#[test]
fn application_entries_expand_into_their_lists() {
    let mut settings = RuntimeSettings::new();
    let mut registry = RuleRegistry::new();
    let mut doc = StaticConfig::empty();
    doc.manage_rules = Some(vec![rule(ApplicationIdentifier::Exe, "doc.exe", None)]);
    let apps = vec![ApplicationConfiguration {
        name: "Steam".to_string(),
        identifier: rule(ApplicationIdentifier::Exe, "steam.exe", None),
        options: Some(vec![ApplicationOptions::Force, ApplicationOptions::BorderOverflow, ApplicationOptions::Force]),
        float_identifiers: Some(vec![rule(ApplicationIdentifier::Title, "Steam - News", Some(MatchingStrategy::Contains))]),
    }];
    doc.apply_globals(&apps, &mut settings, &mut registry).unwrap();
    assert_eq!(registry.manage_identifiers.len(), 2);
    assert_eq!(registry.manage_identifiers[1].id, "steam.exe");
    assert_eq!(registry.manage_identifiers[1].matching_strategy, Some(MatchingStrategy::Legacy));
    assert_eq!(registry.border_overflow_identifiers.len(), 1);
    assert_eq!(registry.float_identifiers.len(), 1);
    assert_eq!(registry.tray_and_multi_window_identifiers.len(), 0);
}

#[test]
fn colour_packing_round_trips() {
    let c = Colour { r: 66, g: 165, b: 245 };
    assert_eq!(c.to_u32(), 66 + 165 * 256 + 245 * 65536);
    assert_eq!(Colour::from_u32(c.to_u32()), c);
    assert_eq!(Colour::from_u32(0x0100_00ff), Colour { r: 255, g: 0, b: 0 });
}
