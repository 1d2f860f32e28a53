//! The personality table: names, lookup, reference seeds and the display
//! profiles shown by the desktop shell.
//!
//! The Gaussian colour and rhythm parameters of each personality are floating
//! point and live with the synthesis code outside this crate; this table fixes
//! the names and their order, which that code indexes by.

use vstd::prelude::*;
use crate::text::text_eq;

verus! {

broadcast use vstd::string::group_string_axioms;

/// Number of canonical personalities.
pub const PERSONALITY_COUNT: usize = 4;

/// The canonical personality names, in declaration order.
pub open spec fn personality_names() -> Seq<Seq<char>> {
    seq!["polite-cough"@, "default"@, "biblical"@, "silent-but-deadly"@]
}

/// Whether `name` is one of the canonical personalities.
pub open spec fn is_known_personality(name: Seq<char>) -> bool {
    personality_names().contains(name)
}

/// The name of the personality at `index`.
pub fn personality_name(index: usize) -> (name: &'static str)
    requires
        index < PERSONALITY_COUNT,
    ensures
        name@ == personality_names()[index as int],
{
    if index == 0 {
        "polite-cough"
    } else if index == 1 {
        "default"
    } else if index == 2 {
        "biblical"
    } else {
        "silent-but-deadly"
    }
}

/// Position of the personality called `name` in the table, or `None` for an
/// unknown name.
pub fn lookup_personality(name: &str) -> (found: Option<usize>)
    ensures
        found matches Some(index) ==> index < PERSONALITY_COUNT && personality_names()[index as int]
            == name@,
        found is None <==> !is_known_personality(name@),
{
    let mut index: usize = 0;
    while index < PERSONALITY_COUNT
        invariant
            index <= PERSONALITY_COUNT,
            forall|j: int| 0 <= j < index ==> personality_names()[j] != name@,
        decreases PERSONALITY_COUNT - index,
    {
        if text_eq(personality_name(index), name) {
            return Some(index);
        }
        index += 1;
    }
    proof {
        if is_known_personality(name@) {
            let j = choose|j: int| 0 <= j < personality_names().len() && personality_names()[j] == name@;
            assert(personality_names()[j] != name@);
        }
    }
    None
}

/// No two canonical personalities share a name.
pub proof fn personality_names_are_distinct()
    ensures
        forall|i: int, j: int|
            0 <= i < j < personality_names().len() ==> personality_names()[i]
                != personality_names()[j],
{
    reveal_strlit("polite-cough");
    reveal_strlit("default");
    reveal_strlit("biblical");
    reveal_strlit("silent-but-deadly");
    let names = personality_names();
    assert(names[0].len() == 12 && names[1].len() == 7 && names[2].len() == 8 && names[3].len()
        == 17);
}

/// The reference seed of each personality, as pinned by the web specimens; any
/// other name gets the seed of `default`.
pub open spec fn reference_seed(name: Seq<char>) -> u64 {
    if name == "polite-cough"@ {
        7
    } else if name == "biblical"@ {
        31
    } else if name == "silent-but-deadly"@ {
        9
    } else {
        17
    }
}

/// The reference seed used for a personality's specimen.
pub fn reference_seed_for_personality(personality_name: &str) -> (seed: u64)
    ensures
        seed == reference_seed(personality_name@),
{
    if text_eq(personality_name, "polite-cough") {
        7
    } else if text_eq(personality_name, "biblical") {
        31
    } else if text_eq(personality_name, "silent-but-deadly") {
        9
    } else {
        17
    }
}

/// One-line description of a personality, or a dash for an unknown name.
pub open spec fn description(name: Seq<char>) -> Seq<char> {
    if name == "polite-cough"@ {
        "short, dry, plausibly deniable"@
    } else if name == "default"@ {
        "the canon. wet enough, not so wet"@
    } else if name == "biblical"@ {
        "slow, low, devastating"@
    } else if name == "silent-but-deadly"@ {
        "exactly what it says"@
    } else {
        "\u{2014}"@
    }
}

/// The one-line description shown by `--list-personalities`.
pub fn description_for(name: &str) -> (text: &'static str)
    ensures
        text@ == description(name@),
{
    if text_eq(name, "polite-cough") {
        "short, dry, plausibly deniable"
    } else if text_eq(name, "default") {
        "the canon. wet enough, not so wet"
    } else if text_eq(name, "biblical") {
        "slow, low, devastating"
    } else if text_eq(name, "silent-but-deadly") {
        "exactly what it says"
    } else {
        "\u{2014}"
    }
}

/// `parts` joined with `separator` between consecutive parts.
pub open spec fn joined(parts: Seq<Seq<char>>, separator: Seq<char>) -> Seq<char>
    decreases parts.len(),
{
    if parts.len() == 0 {
        Seq::empty()
    } else if parts.len() == 1 {
        parts[0]
    } else {
        joined(parts.drop_last(), separator) + separator + parts.last()
    }
}

/// Comma-separated list of the personality names, in declaration order.
pub fn list_personalities() -> (list: String)
    ensures
        list@ == joined(personality_names(), ","@),
{
    let mut list = String::new();
    let mut index: usize = 0;
    while index < PERSONALITY_COUNT
        invariant
            index <= PERSONALITY_COUNT,
            list@ == joined(personality_names().take(index as int), ","@),
        decreases PERSONALITY_COUNT - index,
    {
        let ghost before = list@;
        if index > 0 {
            list.append(",");
        }
        list.append(personality_name(index));
        assert(personality_names().take(index as int + 1).drop_last()
            == personality_names().take(index as int));
        index += 1;
    }
    assert(personality_names().take(PERSONALITY_COUNT as int) == personality_names());
    list
}

/// How a personality is presented in the desktop window.
#[derive(Clone, Debug)]
pub struct PersonalityProfile {
    pub name: String,
    pub headline: &'static str,
    pub reference_seed: u64,
    pub rhythm: &'static str,
    pub detail_lines: Vec<&'static str>,
}

/// The headline of each personality's profile.
pub open spec fn profile_headline(index: int) -> Seq<char> {
    if index == 0 {
        "short, dry, plausibly deniable."@
    } else if index == 1 {
        "the canon. wet enough, not so wet."@
    } else if index == 2 {
        "slow, low, devastating."@
    } else {
        "exactly what it says."@
    }
}

/// The rhythm line of each personality's profile.
pub open spec fn profile_rhythm(index: int) -> Seq<char> {
    if index == 0 {
        "usually sparse, often under half a second, leaves before anyone makes eye contact."@
    } else if index == 1 {
        "the best baseline for everyday cadence and the reference voice for signoff."@
    } else if index == 2 {
        "rare, heavy, and comfortable taking its time once it commits."@
    } else {
        "more active, more crackle, and a little less interested in social harmony."@
    }
}

/// The detail lines of each personality's profile.
pub open spec fn profile_details(index: int) -> Seq<Seq<char>> {
    if index == 0 {
        seq![
            "A brief little throat-clearer with very little aftertaste."@,
            "Best when the room needs a rumor, not an announcement."@,
            "Small enough to pass as furniture if your luck holds."@,
        ]
    } else if index == 1 {
        seq![
            "Balanced body, sensible pacing, enough texture to feel lived in."@,
            "The one that should make the product make sense to a first-time listener."@,
            "If a new build sounds wrong here, we stop and investigate."@,
        ]
    } else if index == 2 {
        seq![
            "The long-form disaster voice. Give it room."@,
            "Large cavity, lower center, longer tail, less apology."@,
            "This one defines the upper bound of acceptable absurdity."@,
        ]
    } else {
        seq![
            "Fast onset, dirtier texture, and the most variable social outcome."@,
            "Useful for testing how much motion the UI can tolerate before it feels busy."@,
            "A good reminder that the display layer can be playful while the synth stays deterministic."@,
        ]
    }
}

/// Whether `profile` is the profile of the personality at `index`.
pub open spec fn is_profile_of(profile: PersonalityProfile, index: int) -> bool {
    &&& profile.name@ == personality_names()[index]
    &&& profile.headline@ == profile_headline(index)
    &&& profile.reference_seed == reference_seed(personality_names()[index])
    &&& profile.rhythm@ == profile_rhythm(index)
    &&& profile.detail_lines@.len() == 3
    &&& forall|k: int| 0 <= k < 3 ==> #[trigger] profile.detail_lines@[k]@ == profile_details(index)[k]
}

fn three_lines(a: &'static str, b: &'static str, c: &'static str) -> (lines: Vec<&'static str>)
    ensures
        lines@ == seq![a, b, c],
{
    let mut lines: Vec<&'static str> = Vec::new();
    lines.push(a);
    lines.push(b);
    lines.push(c);
    lines
}

fn profile_at(index: usize) -> (profile: PersonalityProfile)
    requires
        index < PERSONALITY_COUNT,
    ensures
        is_profile_of(profile, index as int),
{
    let name = personality_name(index);
    let reference_seed = reference_seed_for_personality(name);
    if index == 0 {
        PersonalityProfile {
            name: name.to_owned(),
            headline: "short, dry, plausibly deniable.",
            reference_seed,
            rhythm: "usually sparse, often under half a second, leaves before anyone makes eye contact.",
            detail_lines: three_lines(
                "A brief little throat-clearer with very little aftertaste.",
                "Best when the room needs a rumor, not an announcement.",
                "Small enough to pass as furniture if your luck holds.",
            ),
        }
    } else if index == 1 {
        PersonalityProfile {
            name: name.to_owned(),
            headline: "the canon. wet enough, not so wet.",
            reference_seed,
            rhythm: "the best baseline for everyday cadence and the reference voice for signoff.",
            detail_lines: three_lines(
                "Balanced body, sensible pacing, enough texture to feel lived in.",
                "The one that should make the product make sense to a first-time listener.",
                "If a new build sounds wrong here, we stop and investigate.",
            ),
        }
    } else if index == 2 {
        PersonalityProfile {
            name: name.to_owned(),
            headline: "slow, low, devastating.",
            reference_seed,
            rhythm: "rare, heavy, and comfortable taking its time once it commits.",
            detail_lines: three_lines(
                "The long-form disaster voice. Give it room.",
                "Large cavity, lower center, longer tail, less apology.",
                "This one defines the upper bound of acceptable absurdity.",
            ),
        }
    } else {
        PersonalityProfile {
            name: name.to_owned(),
            headline: "exactly what it says.",
            reference_seed,
            rhythm: "more active, more crackle, and a little less interested in social harmony.",
            detail_lines: three_lines(
                "Fast onset, dirtier texture, and the most variable social outcome.",
                "Useful for testing how much motion the UI can tolerate before it feels busy.",
                "A good reminder that the display layer can be playful while the synth stays deterministic.",
            ),
        }
    }
}

/// The display profiles of the four personalities, in table order.
pub fn personality_profiles() -> (profiles: Vec<PersonalityProfile>)
    ensures
        profiles@.len() == PERSONALITY_COUNT,
        forall|i: int| 0 <= i < PERSONALITY_COUNT ==> is_profile_of(#[trigger] profiles@[i], i),
{
    let mut profiles: Vec<PersonalityProfile> = Vec::new();
    let mut index: usize = 0;
    while index < PERSONALITY_COUNT
        invariant
            index <= PERSONALITY_COUNT,
            profiles@.len() == index,
            forall|i: int| 0 <= i < index ==> is_profile_of(#[trigger] profiles@[i], i),
        decreases PERSONALITY_COUNT - index,
    {
        profiles.push(profile_at(index));
        index += 1;
    }
    profiles
}

} // verus!
