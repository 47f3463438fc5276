//! Platform detection and the gamepad / library-preload environment
//! adjustments made around a launch.
use vstd::prelude::*;
use vstd::string::*;

verus! {

/// The text of an optional variable.
pub open spec fn opt_view(o: Option<String>) -> Option<Seq<char>> {
    match o {
        Some(s) => Some(s@),
        None => None,
    }
}

/// The variable is set to exactly `v`.
pub open spec fn is_set_to(o: Option<String>, v: Seq<char>) -> bool {
    o matches Some(s) && s@ == v
}

/// Whether an optional variable is set to exactly `lit`.
pub fn var_equals(o: &Option<String>, lit: &str) -> (r: bool)
    ensures
        r == is_set_to(*o, lit@),
{
    match o {
        Some(s) => *s == String::from_str(lit),
        None => false,
    }
}

/// The platform as seen from the environment.
#[derive(PartialEq, Eq, Structural, Debug, Clone, Copy)]
pub struct Platform {
    /// Running on the handheld platform.
    pub handheld: bool,
    /// The handheld platform's gaming-mode session.
    pub gaming_mode: bool,
}

/// The handheld platform is detected from its identifier variable being `1`
/// or from the reserved account name; gaming mode only counts on it.
pub open spec fn platform_of(
    platform_id: Option<String>,
    user: Option<String>,
    session: Option<String>,
) -> Platform {
    let handheld = is_set_to(platform_id, seq!['1']) || is_set_to(user, seq!['d', 'e', 'c', 'k']);
    Platform { handheld, gaming_mode: handheld && is_set_to(session, seq!['1']) }
}

/// Detects the platform from the platform identifier, user name and session
/// variables.
pub fn detect_platform(
    platform_id: &Option<String>,
    user: &Option<String>,
    session: &Option<String>,
) -> (r: Platform)
    ensures
        r == platform_of(*platform_id, *user, *session),
{
    proof {
        reveal_strlit("1");
        reveal_strlit("deck");
    }
    let handheld = var_equals(platform_id, "1") || var_equals(user, "deck");
    let gaming_mode = handheld && var_equals(session, "1");
    proof {
        assert("1"@ =~= seq!['1']);
        assert("deck"@ =~= seq!['d', 'e', 'c', 'k']);
    }
    Platform { handheld, gaming_mode }
}

/// The two gamepad variables: the virtual-gamepad flag and the device
/// ignore list.
pub struct GamepadEnv {
    pub virtual_gamepad: Option<String>,
    pub ignore_devices: Option<String>,
}

impl GamepadEnv {
    pub open spec fn view_pair(&self) -> (Option<Seq<char>>, Option<Seq<char>>) {
        (opt_view(self.virtual_gamepad), opt_view(self.ignore_devices))
    }
}

/// What was taken out of the environment, to be put back after setup.
pub struct SavedGamepad {
    pub ignore_devices: Option<String>,
}

/// The virtual gamepad is suppressed off the handheld platform when its flag
/// is exactly `1`.
pub open spec fn suppresses(env: &GamepadEnv, handheld: bool) -> bool {
    !handheld && is_set_to(env.virtual_gamepad, seq!['1'])
}

/// `out` and `saved` are what suppression makes of `env`.
pub open spec fn suppressed(env: &GamepadEnv, handheld: bool, out: &GamepadEnv, saved: &Option<SavedGamepad>) -> bool {
    if suppresses(env, handheld) {
        &&& out.virtual_gamepad is None
        &&& out.ignore_devices is None
        &&& saved is Some
        &&& opt_view(saved->Some_0.ignore_devices) == opt_view(env.ignore_devices)
    } else {
        out.view_pair() == env.view_pair() && saved is None
    }
}

/// `out` is what restoring `saved` makes of `env`.
pub open spec fn restored(env: &GamepadEnv, saved: &Option<SavedGamepad>, out: &GamepadEnv) -> bool {
    match saved {
        Some(sv) => opt_view(out.virtual_gamepad) == Some(seq!['1'])
            && opt_view(out.ignore_devices) == opt_view(sv.ignore_devices),
        None => out.view_pair() == env.view_pair(),
    }
}

/// Suppressing the virtual gamepad and then restoring it gives back both
/// variables exactly as they were; on the handheld platform neither is touched
/// at any point.
pub proof fn gamepad_round_trip(
    env: &GamepadEnv,
    handheld: bool,
    mid: &GamepadEnv,
    saved: &Option<SavedGamepad>,
    back: &GamepadEnv,
)
    requires
        suppressed(env, handheld, mid, saved),
        restored(mid, saved, back),
    ensures
        back.view_pair() == env.view_pair(),
        handheld ==> mid.view_pair() == env.view_pair() && saved is None,
{
}

/// Turns the virtual gamepad off for the preparation steps: off the handheld
/// platform, a flag of `1` is removed together with the ignore list, which is
/// saved; otherwise nothing changes and nothing is saved.
pub fn suppress_gamepad(env: GamepadEnv, handheld: bool) -> (r: (GamepadEnv, Option<SavedGamepad>))
    ensures
        suppressed(&env, handheld, &r.0, &r.1),
{
    proof {
        reveal_strlit("1");
        assert("1"@ =~= seq!['1']);
    }
    if !handheld && var_equals(&env.virtual_gamepad, "1") {
        (GamepadEnv { virtual_gamepad: None, ignore_devices: None }, Some(SavedGamepad { ignore_devices: env.ignore_devices }))
    } else {
        (env, None)
    }
}

/// Puts back what `suppress_gamepad` saved: the flag as `1` and the ignore
/// list as it was (absent if it was absent).
pub fn restore_gamepad(env: GamepadEnv, saved: Option<SavedGamepad>) -> (r: GamepadEnv)
    ensures
        restored(&env, &saved, &r),
{
    match saved {
        Some(sv) => {
            proof {
                reveal_strlit("1");
                assert("1"@ =~= seq!['1']);
            }
            GamepadEnv { virtual_gamepad: Some(String::from_str("1")), ignore_devices: sv.ignore_devices }
        },
        None => env,
    }
}

/// The library-preload value for the launched game: the saved original when
/// there is one, else the current value unchanged.
pub fn preload_for_launch(original: Option<String>, current: Option<String>) -> (r: Option<String>)
    ensures
        original is Some ==> opt_view(r) == opt_view(original),
        original is None ==> opt_view(r) == opt_view(current),
{
    match original {
        Some(o) => Some(o),
        None => current,
    }
}

} // verus!
