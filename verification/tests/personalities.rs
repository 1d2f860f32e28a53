use flatus::personalities::{
    description_for, list_personalities, lookup_personality, personality_name,
    personality_profiles, reference_seed_for_personality, PERSONALITY_COUNT,
};

#[test]
fn four_personalities() {
    assert_eq!(PERSONALITY_COUNT, 4);
    assert_eq!(list_personalities().split(',').count(), 4);
}

#[test]
fn names_unique() {
    let names: std::collections::HashSet<_> =
        (0..PERSONALITY_COUNT).map(personality_name).collect();
    assert_eq!(names.len(), PERSONALITY_COUNT);
}

#[test]
fn lookup_works() {
    assert!(lookup_personality("biblical").is_some());
    assert!(lookup_personality("definitely-not-a-personality").is_none());
}

#[test]
fn lookup_gives_table_positions() {
    assert_eq!(lookup_personality("polite-cough"), Some(0));
    assert_eq!(lookup_personality("default"), Some(1));
    assert_eq!(lookup_personality("biblical"), Some(2));
    assert_eq!(lookup_personality("silent-but-deadly"), Some(3));
    assert_eq!(lookup_personality("Default"), None);
    assert_eq!(lookup_personality(""), None);
    assert_eq!(lookup_personality("biblical "), None);
}

#[test]
fn reference_seed_matches_web_reference_values() {
    assert_eq!(reference_seed_for_personality("polite-cough"), 7);
    assert_eq!(reference_seed_for_personality("default"), 17);
    assert_eq!(reference_seed_for_personality("biblical"), 31);
    assert_eq!(reference_seed_for_personality("silent-but-deadly"), 9);
}

#[test]
fn unknown_personality_gets_default_reference_seed() {
    assert_eq!(reference_seed_for_personality("mystery"), 17);
}

#[test]
fn list_is_comma_separated_in_declaration_order() {
    assert_eq!(
        list_personalities(),
        "polite-cough,default,biblical,silent-but-deadly"
    );
}

#[test]
fn descriptions_cover_the_bestiary() {
    assert_eq!(description_for("polite-cough"), "short, dry, plausibly deniable");
    assert_eq!(description_for("default"), "the canon. wet enough, not so wet");
    assert_eq!(description_for("biblical"), "slow, low, devastating");
    assert_eq!(description_for("silent-but-deadly"), "exactly what it says");
    assert_eq!(description_for("nope"), "\u{2014}");
}

#[test]
fn profiles_follow_the_table() {
    let profiles = personality_profiles();
    assert_eq!(profiles.len(), 4);
    for (i, p) in profiles.iter().enumerate() {
        assert_eq!(p.name, personality_name(i));
        assert_eq!(p.reference_seed, reference_seed_for_personality(&p.name));
        assert_eq!(p.detail_lines.len(), 3);
    }
    assert_eq!(profiles[2].headline, "slow, low, devastating.");
    assert_eq!(profiles[0].reference_seed, 7);
    assert_eq!(profiles[3].reference_seed, 9);
}
