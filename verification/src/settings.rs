//! Persisted desktop settings and the rules that keep them sane: sanitising a
//! loaded or submitted file, quiet hours, which voice fires, and the onboarding
//! latch.
//!
//! The volume slider is a floating-point value and is kept by the shell beside
//! these settings; every other field lives here.

use vstd::prelude::*;
use crate::personalities::{
    is_known_personality, lookup_personality, personality_name, personality_names,
    PERSONALITY_COUNT,
};
use crate::prng::{advance, initial_state, mix, state_after, stream, Mulberry32};
use crate::text::text_eq;

verus! {

broadcast use vstd::string::group_string_axioms;

/// Current settings-file version.
pub const SETTINGS_VERSION: u32 = 2;

/// Manual seeds are kept below this bound so the web view can hold them as
/// exact JavaScript numbers.
pub const MANUAL_SEED_BOUND: u64 = 1_000_000_000;

/// Latest hour of the day a quiet-hours bound may name.
pub const LAST_HOUR: u8 = 23;

/// Desktop settings, as stored in `settings.json` (volume aside).
#[derive(Clone, Debug)]
pub struct Settings {
    pub version: u32,
    pub personality: String,
    /// "single" (always the selected personality) or "shuffle" (a canonical
    /// personality chosen per fire).
    pub play_mode: String,
    /// "speakers" or "headphones".
    pub output: String,
    /// Hour 0-23 at which quiet hours start; `None` disables them.
    pub quiet_start: Option<u8>,
    pub quiet_end: Option<u8>,
    pub onboarding_completed: bool,
    /// When false, automatic fires stay silent.
    pub auto_play_enabled: bool,
    /// Seed of the next manual fire or preview.
    pub manual_seed: u64,
}

/// The settings as plain values.
pub struct SettingsView {
    pub version: u32,
    pub personality: Seq<char>,
    pub play_mode: Seq<char>,
    pub output: Seq<char>,
    pub quiet_start: Option<u8>,
    pub quiet_end: Option<u8>,
    pub onboarding_completed: bool,
    pub auto_play_enabled: bool,
    pub manual_seed: u64,
}

impl View for Settings {
    type V = SettingsView;

    open spec fn view(&self) -> SettingsView {
        SettingsView {
            version: self.version,
            personality: self.personality@,
            play_mode: self.play_mode@,
            output: self.output@,
            quiet_start: self.quiet_start,
            quiet_end: self.quiet_end,
            onboarding_completed: self.onboarding_completed,
            auto_play_enabled: self.auto_play_enabled,
            manual_seed: self.manual_seed,
        }
    }
}

/// Seed of the first manual fire on a fresh install.
pub fn default_manual_seed() -> (seed: u64)
    ensures
        seed == 17,
{
    17
}

/// Automatic playback is off on a fresh install.
pub fn default_auto_play_enabled() -> (enabled: bool)
    ensures
        !enabled,
{
    false
}

/// Play mode of a fresh install.
pub fn default_play_mode() -> (mode: String)
    ensures
        mode@ == "single"@,
{
    "single".to_owned()
}

/// The settings of a fresh install.
pub open spec fn default_view() -> SettingsView {
    SettingsView {
        version: SETTINGS_VERSION,
        personality: "default"@,
        play_mode: "single"@,
        output: "speakers"@,
        quiet_start: None,
        quiet_end: None,
        onboarding_completed: false,
        auto_play_enabled: false,
        manual_seed: 17,
    }
}

impl Default for Settings {
    fn default() -> (settings: Self)
        ensures
            settings@ == default_view(),
    {
        Settings {
            version: SETTINGS_VERSION,
            personality: "default".to_owned(),
            play_mode: default_play_mode(),
            output: "speakers".to_owned(),
            quiet_start: None,
            quiet_end: None,
            onboarding_completed: false,
            auto_play_enabled: default_auto_play_enabled(),
            manual_seed: default_manual_seed(),
        }
    }
}

/// An hour bound capped at 23.
pub open spec fn capped_hour(hour: Option<u8>) -> Option<u8> {
    match hour {
        Some(h) => Some(if h < LAST_HOUR { h } else { LAST_HOUR }),
        None => None,
    }
}

/// What sanitising makes of a settings value: the current version; automatic
/// playback switched off when migrating from a file older than version 2; an
/// unknown personality replaced by `default`; play mode and output reduced to
/// their two accepted values (`single`, `speakers` otherwise); quiet-hours
/// bounds capped at 23; the manual seed reduced below one billion.
pub open spec fn sanitized(s: SettingsView) -> SettingsView {
    SettingsView {
        version: SETTINGS_VERSION,
        personality: if is_known_personality(s.personality) {
            s.personality
        } else {
            "default"@
        },
        play_mode: if s.play_mode == "shuffle"@ {
            "shuffle"@
        } else {
            "single"@
        },
        output: if s.output == "headphones"@ {
            "headphones"@
        } else {
            "speakers"@
        },
        quiet_start: capped_hour(s.quiet_start),
        quiet_end: capped_hour(s.quiet_end),
        onboarding_completed: s.onboarding_completed,
        auto_play_enabled: if s.version < 2 {
            false
        } else {
            s.auto_play_enabled
        },
        manual_seed: s.manual_seed % MANUAL_SEED_BOUND,
    }
}

fn cap_hour(hour: Option<u8>) -> (capped: Option<u8>)
    ensures
        capped == capped_hour(hour),
{
    match hour {
        Some(h) => Some(if h < LAST_HOUR { h } else { LAST_HOUR }),
        None => None,
    }
}

/// Bring a loaded or submitted settings value into its accepted form.
pub fn sanitize_settings(settings: Settings) -> (clean: Settings)
    ensures
        clean@ == sanitized(settings@),
{
    let previous_version = settings.version;
    let auto_play_enabled = if previous_version < 2 {
        false
    } else {
        settings.auto_play_enabled
    };
    let personality = match lookup_personality(settings.personality.as_str()) {
        Some(_) => settings.personality,
        None => "default".to_owned(),
    };
    let play_mode = if text_eq(settings.play_mode.as_str(), "shuffle") {
        "shuffle".to_owned()
    } else {
        "single".to_owned()
    };
    let output = if text_eq(settings.output.as_str(), "headphones") {
        "headphones".to_owned()
    } else {
        "speakers".to_owned()
    };
    Settings {
        version: SETTINGS_VERSION,
        personality,
        play_mode,
        output,
        quiet_start: cap_hour(settings.quiet_start),
        quiet_end: cap_hour(settings.quiet_end),
        onboarding_completed: settings.onboarding_completed,
        auto_play_enabled,
        manual_seed: settings.manual_seed % MANUAL_SEED_BOUND,
    }
}

/// Whether a settings value is in the form that sanitising produces.
pub open spec fn is_clean(s: SettingsView) -> bool {
    &&& s.version == SETTINGS_VERSION
    &&& is_known_personality(s.personality)
    &&& (s.play_mode == "single"@ || s.play_mode == "shuffle"@)
    &&& (s.output == "speakers"@ || s.output == "headphones"@)
    &&& (s.quiet_start matches Some(h) ==> h <= LAST_HOUR)
    &&& (s.quiet_end matches Some(h) ==> h <= LAST_HOUR)
    &&& s.manual_seed < MANUAL_SEED_BOUND
}

/// Sanitising always yields a clean value, leaves clean values as they are, and
/// so sanitising twice is the same as sanitising once.
pub proof fn sanitizing_is_a_normal_form(s: SettingsView)
    ensures
        is_clean(sanitized(s)),
        is_clean(s) ==> sanitized(s) == s,
        sanitized(sanitized(s)) == sanitized(s),
{
    reveal_strlit("default");
    reveal_strlit("single");
    reveal_strlit("shuffle");
    reveal_strlit("speakers");
    reveal_strlit("headphones");
    assert("speakers"@.len() == 8 && "headphones"@.len() == 10);
    assert("single"@.len() == 6 && "shuffle"@.len() == 7);
    assert(is_known_personality("default"@)) by {
        assert(personality_names()[1] == "default"@);
    }
    let t = sanitized(s);
    assert(t.play_mode == "single"@ || t.play_mode == "shuffle"@);
    if is_clean(s) {
        assert(sanitized(s) =~= s) by {
            if s.play_mode == "single"@ {
                assert(s.play_mode != "shuffle"@);
            }
            if s.output == "speakers"@ {
                assert(s.output != "headphones"@);
            }
        }
    }
    let u = sanitized(t);
    if t.play_mode == "single"@ {
        assert(t.play_mode != "shuffle"@);
    }
    if t.output == "speakers"@ {
        assert(t.output != "headphones"@);
    }
    assert(u =~= t);
}

/// Whether quiet hours cover `hour`: equal bounds mean the whole day; a
/// start before the end covers `start..end`; otherwise the range wraps past
/// midnight. Quiet hours are off unless both bounds are set.
pub open spec fn quiet_at(start: Option<u8>, end: Option<u8>, hour: u8) -> bool {
    match (start, end) {
        (Some(s), Some(e)) => if s == e {
            true
        } else if s < e {
            s <= hour < e
        } else {
            hour >= s || hour < e
        },
        _ => false,
    }
}

/// Whether automatic playback is muted at `now_hour` by the quiet hours.
pub fn quiet_hours_active(settings: &Settings, now_hour: u8) -> (active: bool)
    ensures
        active == quiet_at(settings.quiet_start, settings.quiet_end, now_hour),
{
    match (settings.quiet_start, settings.quiet_end) {
        (Some(start), Some(end)) => {
            if start == end {
                true
            } else if start < end {
                start <= now_hour && now_hour < end
            } else {
                now_hour >= start || now_hour < end
            }
        },
        _ => false,
    }
}

/// A quiet range that wraps past midnight covers exactly the hours that the
/// daytime range from its end to its start leaves out.
pub proof fn wrapped_quiet_hours_complement_the_day(start: u8, end: u8, hour: u8)
    requires
        start > end,
    ensures
        quiet_at(Some(start), Some(end), hour) == !quiet_at(Some(end), Some(start), hour),
{
}

/// Index of the canonical personality that shuffle mode picks for `seed`: the
/// first draw of a generator seeded with `seed`, reduced modulo the table size.
pub open spec fn shuffle_index(seed: u64) -> int {
    (mix(advance(initial_state(seed))) % (PERSONALITY_COUNT as u32)) as int
}

/// The voice that fires with `seed`: the selected personality in single mode,
/// a canonical personality drawn from the seed in shuffle mode.
pub open spec fn fire_voice(s: SettingsView, seed: u64) -> Seq<char> {
    if s.play_mode == "shuffle"@ {
        personality_names()[shuffle_index(seed)]
    } else {
        s.personality
    }
}

/// Pick the personality for one fire, manual or automatic.
pub fn select_fire_voice(settings: &Settings, rng_seed: u64) -> (voice: String)
    ensures
        voice@ == fire_voice(settings@, rng_seed),
{
    if text_eq(settings.play_mode.as_str(), "shuffle") {
        let mut rng = Mulberry32::new(rng_seed);
        let draw = rng.next_u32();
        let index = (draw % (PERSONALITY_COUNT as u32)) as usize;
        personality_name(index).to_owned()
    } else {
        settings.personality.clone()
    }
}

/// Shuffle mode only ever picks a canonical personality; single mode plays the
/// selected one.
pub proof fn fired_voice_is_selected_or_canonical(s: SettingsView, seed: u64)
    ensures
        s.play_mode == "shuffle"@ ==> is_known_personality(fire_voice(s, seed)),
        s.play_mode != "shuffle"@ ==> fire_voice(s, seed) == s.personality,
{
    if s.play_mode == "shuffle"@ {
        let i = shuffle_index(seed);
        assert(0 <= i < personality_names().len());
        assert(personality_names()[i] == fire_voice(s, seed));
    }
}

/// Whether the output toggle asks for the tighter headphone cap.
pub fn uses_headphone_cap(settings: &Settings) -> (headphones: bool)
    ensures
        headphones == (settings.output@ == "headphones"@),
{
    text_eq(settings.output.as_str(), "headphones")
}

/// Accept settings submitted by the window: sanitise them, and keep onboarding
/// completed if it already was, so that a stale submission cannot reopen the
/// first-launch flow.
/// What accepting a submitted value yields: the sanitised submission, with
/// onboarding marked completed if it already was.
pub open spec fn accepted_update(current: SettingsView, submitted: SettingsView) -> SettingsView {
    SettingsView {
        onboarding_completed: current.onboarding_completed || sanitized(
            submitted,
        ).onboarding_completed,
        ..sanitized(submitted)
    }
}

pub fn accept_settings_update(current: &Settings, submitted: Settings) -> (accepted: Settings)
    ensures
        accepted@ == accepted_update(current@, submitted@),
{
    let mut accepted = sanitize_settings(submitted);
    if current.onboarding_completed && !accepted.onboarding_completed {
        accepted.onboarding_completed = true;
    }
    accepted
}

/// Accepting an update never clears a completed onboarding, takes the
/// submitted onboarding flag otherwise, and treats every other field exactly as
/// sanitising the submission would.
pub proof fn onboarding_stays_completed(current: SettingsView, submitted: SettingsView)
    ensures
        current.onboarding_completed ==> accepted_update(current, submitted).onboarding_completed,
        !current.onboarding_completed ==> accepted_update(current, submitted).onboarding_completed
            == submitted.onboarding_completed,
        accepted_update(current, submitted).personality == sanitized(submitted).personality,
        accepted_update(current, submitted).play_mode == sanitized(submitted).play_mode,
        accepted_update(current, submitted).output == sanitized(submitted).output,
        accepted_update(current, submitted).quiet_start == sanitized(submitted).quiet_start,
        accepted_update(current, submitted).quiet_end == sanitized(submitted).quiet_end,
        accepted_update(current, submitted).auto_play_enabled == sanitized(
            submitted,
        ).auto_play_enabled,
        accepted_update(current, submitted).manual_seed == sanitized(submitted).manual_seed,
        accepted_update(current, submitted).version == SETTINGS_VERSION,
{
}

/// The settings stored once onboarding is completed.
pub open spec fn onboarding_done(s: SettingsView) -> SettingsView {
    sanitized(SettingsView { onboarding_completed: true, ..s })
}

/// The settings stored when onboarding is reopened.
pub open spec fn onboarding_reopened(s: SettingsView) -> SettingsView {
    sanitized(SettingsView { onboarding_completed: false, ..s })
}

/// Completing onboarding marks it completed and reopening marks it not
/// completed; both otherwise store exactly the sanitised settings.
pub proof fn onboarding_transitions_only_touch_the_flag(s: SettingsView)
    ensures
        onboarding_done(s).onboarding_completed,
        !onboarding_reopened(s).onboarding_completed,
        onboarding_done(s) == (SettingsView { onboarding_completed: true, ..sanitized(s) }),
        onboarding_reopened(s) == (SettingsView { onboarding_completed: false, ..sanitized(s) }),
{
}

/// Mark onboarding completed. Returns `None` when it already was, in which case
/// nothing is to be saved; otherwise the sanitised settings to store.
pub fn complete_onboarding(settings: Settings) -> (updated: Option<Settings>)
    ensures
        settings.onboarding_completed ==> updated is None,
        !settings.onboarding_completed ==> (updated matches Some(u) && u@ == onboarding_done(
            settings@,
        )),
{
    if settings.onboarding_completed {
        return None;
    }
    let mut settings = settings;
    settings.onboarding_completed = true;
    Some(sanitize_settings(settings))
}

/// Reopen onboarding: the sanitised settings with onboarding not completed.
pub fn reset_onboarding(settings: Settings) -> (updated: Settings)
    ensures
        updated@ == onboarding_reopened(settings@),
{
    let mut settings = settings;
    settings.onboarding_completed = false;
    sanitize_settings(settings)
}

/// Seed of a preview: the given one, or the stored manual seed.
pub open spec fn preview_seed(s: SettingsView, seed: Option<u64>) -> u64 {
    match seed {
        Some(given) => given,
        None => s.manual_seed,
    }
}

/// The seed and voice of a preview: the given seed, or the stored manual seed
/// when none is given, and the voice that seed fires.
pub fn preview_voice(settings: &Settings, seed: Option<u64>) -> (choice: (u64, String))
    ensures
        choice.0 == preview_seed(settings@, seed),
        choice.1@ == fire_voice(settings@, choice.0),
{
    let base_seed = match seed {
        Some(s) => s,
        None => settings.manual_seed,
    };
    (base_seed, select_fire_voice(settings, base_seed))
}

/// The manual seed stored after a manual fire, drawn from the clock.
pub fn next_manual_seed(clock_seed: u64) -> (seed: u64)
    ensures
        seed == clock_seed % MANUAL_SEED_BOUND,
{
    clock_seed % MANUAL_SEED_BOUND
}

/// The voice an automatic fire plays, or `None` when it stays silent: automatic
/// playback is off, or the local hour is known and falls in quiet hours.
pub open spec fn auto_fire(s: SettingsView, local_hour: Option<u8>, seed: u64) -> Option<Seq<char>> {
    if !s.auto_play_enabled {
        None
    } else if local_hour matches Some(h) && quiet_at(s.quiet_start, s.quiet_end, h) {
        None
    } else {
        Some(fire_voice(s, seed))
    }
}

/// Decide what an automatic fire of the pressure loop plays.
pub fn auto_fire_voice(settings: &Settings, local_hour: Option<u8>, fire_seed: u64) -> (voice:
    Option<String>)
    ensures
        voice matches Some(v) ==> auto_fire(settings@, local_hour, fire_seed) == Some(v@),
        voice is None ==> auto_fire(settings@, local_hour, fire_seed) is None,
{
    if !settings.auto_play_enabled {
        return None;
    }
    if let Some(hour) = local_hour {
        if quiet_hours_active(settings, hour) {
            return None;
        }
    }
    Some(select_fire_voice(settings, fire_seed))
}

/// An automatic fire sounds only when automatic playback is on and the local
/// hour, when known, is outside quiet hours; and then it plays the fire voice.
pub proof fn automatic_fires_respect_the_user(s: SettingsView, local_hour: Option<u8>, seed: u64)
    ensures
        auto_fire(s, local_hour, seed) is Some <==> s.auto_play_enabled && !(local_hour matches Some(
            h,
        ) && quiet_at(s.quiet_start, s.quiet_end, h)),
        auto_fire(s, local_hour, seed) matches Some(v) ==> v == fire_voice(s, seed),
{
}

/// Sanitising keeps every accepted choice and repairs only what is out of
/// range: a canonical personality is kept whatever the file's version; an
/// unknown one becomes `default`; `shuffle` and `headphones` are kept and any
/// other mode or output falls back to `single` and `speakers`; hours up to 23
/// are kept and later ones become 23; a seed below one billion is kept and any
/// seed keeps its remainder modulo one billion; automatic playback is kept from
/// version 2 on and switched off for older files; onboarding is kept; the
/// version becomes the current one.
pub proof fn sanitizing_keeps_valid_choices(s: SettingsView)
    ensures
        is_known_personality(s.personality) ==> sanitized(s).personality == s.personality,
        !is_known_personality(s.personality) ==> sanitized(s).personality == "default"@,
        s.play_mode == "shuffle"@ ==> sanitized(s).play_mode == "shuffle"@,
        s.play_mode != "shuffle"@ ==> sanitized(s).play_mode == "single"@,
        s.output == "headphones"@ ==> sanitized(s).output == "headphones"@,
        s.output != "headphones"@ ==> sanitized(s).output == "speakers"@,
        s.quiet_start matches Some(h) ==> sanitized(s).quiet_start == Some(
            if h <= 23 {
                h
            } else {
                23u8
            },
        ),
        s.quiet_start is None ==> sanitized(s).quiet_start is None,
        s.quiet_end matches Some(h) ==> sanitized(s).quiet_end == Some(
            if h <= 23 {
                h
            } else {
                23u8
            },
        ),
        s.quiet_end is None ==> sanitized(s).quiet_end is None,
        s.manual_seed < 1_000_000_000 ==> sanitized(s).manual_seed == s.manual_seed,
        sanitized(s).manual_seed < 1_000_000_000,
        (s.manual_seed - sanitized(s).manual_seed) % 1_000_000_000 == 0,
        s.version >= 2 ==> sanitized(s).auto_play_enabled == s.auto_play_enabled,
        s.version < 2 ==> !sanitized(s).auto_play_enabled,
        sanitized(s).onboarding_completed == s.onboarding_completed,
        sanitized(s).version == 2,
{
    let m = s.manual_seed as int;
    let r = (s.manual_seed % MANUAL_SEED_BOUND) as int;
    assert(m == (m / 1_000_000_000) * 1_000_000_000 + r) by (nonlinear_arith)
        requires
            r == m % 1_000_000_000,
    ;
    assert((m - r) % 1_000_000_000 == 0) by (nonlinear_arith)
        requires
            m - r == (m / 1_000_000_000) * 1_000_000_000,
    ;
}

/// In shuffle mode the voice is the canonical personality at the position given
/// by the first draw of a generator seeded with the fire seed, modulo the table
/// size; in single mode it is the selected personality.
pub proof fn shuffle_takes_the_first_draw(s: SettingsView, seed: u64)
    ensures
        s.play_mode == "shuffle"@ ==> fire_voice(s, seed) == personality_names()[(stream(seed, 1)[0]
            % 4) as int],
        s.play_mode != "shuffle"@ ==> fire_voice(s, seed) == s.personality,
{
    reveal_with_fuel(stream, 2);
    reveal_with_fuel(state_after, 2);
    assert(state_after(seed, 1) == advance(initial_state(seed)));
}

/// A preview plays the given seed, or the stored manual seed when none is
/// given.
pub proof fn preview_seed_is_given_or_stored(s: SettingsView, given: u64)
    ensures
        preview_seed(s, Some(given)) == given,
        preview_seed(s, None) == s.manual_seed,
{
}

/// Quiet hours: equal bounds mute the whole day; otherwise an hour is muted
/// exactly when it is at or after the start and before the end, counting
/// through midnight when the start is later than the end; with a bound unset
/// nothing is muted.
pub proof fn quiet_hours_cover_start_to_end(start: u8, end: u8, hour: u8)
    ensures
        start == end ==> quiet_at(Some(start), Some(end), hour),
        start < end ==> (quiet_at(Some(start), Some(end), hour) <==> (start <= hour && hour < end)),
        start > end ==> (quiet_at(Some(start), Some(end), hour) <==> (hour >= start || hour < end)),
        !quiet_at(None, Some(end), hour),
        !quiet_at(Some(start), None, hour),
{
}

} // verus!
