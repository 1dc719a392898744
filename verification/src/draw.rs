//! Model-draw decisions: which class of model is being drawn, and which
//! override colors the flat and glow passes use for it. The draw passes
//! themselves run in the host's renderer; only the choices live here.

use vstd::prelude::*;

verus! {

/// A color with per-mille channels (one thousand is full intensity).
#[derive(Clone, Copy, Debug, PartialEq, Eq, Structural)]
pub struct Rgba {
    pub red: u16,
    pub green: u16,
    pub blue: u16,
    pub alpha: u16,
}

/// The flat underlayer every override draw uses.
pub fn flat_black() -> (c: Rgba)
    ensures
        c == (Rgba { red: 0, green: 0, blue: 0, alpha: 1000 }),
{
    Rgba { red: 0, green: 0, blue: 0, alpha: 1000 }
}

/// The glow used for the local player, friendly bots, view models and
/// world models.
pub open spec fn glow_purple() -> Rgba {
    Rgba { red: 400, green: 0, blue: 1000, alpha: 400 }
}

/// The glow used for enemy players.
pub open spec fn glow_red() -> Rgba {
    Rgba { red: 1000, green: 0, blue: 0, alpha: 500 }
}

/// The glow used for enemy bots.
pub open spec fn glow_orange() -> Rgba {
    Rgba { red: 1000, green: 500, blue: 0, alpha: 500 }
}

/// The glow used for players that are neither enemies nor bots.
pub open spec fn glow_white() -> Rgba {
    Rgba { red: 1000, green: 1000, blue: 1000, alpha: 500 }
}

/// What kind of model the renderer handed us.
#[derive(Clone, Copy, Debug, PartialEq, Eq, Structural)]
pub enum ModelClass {
    /// A player model.
    Player,
    /// The first-person view model.
    ViewModel,
    /// Anything else in the world.
    Other,
}

/// Whether `s` begins with `prefix`.
pub open spec fn starts_with_spec(s: Seq<char>, prefix: Seq<char>) -> bool {
    prefix.len() <= s.len() && s.subrange(0, prefix.len() as int) == prefix
}

/// Whether the model name begins with the given prefix.
pub fn starts_with(s: &str, prefix: &str) -> (r: bool)
    ensures
        r == starts_with_spec(s@, prefix@),
{
    let plen = prefix.unicode_len();
    let slen = s.unicode_len();
    if plen > slen {
        return false;
    }
    let mut i: usize = 0;
    while i < plen
        invariant
            i <= plen,
            plen <= slen,
            plen == prefix@.len(),
            slen == s@.len(),
            forall|j: int| 0 <= j < i ==> s@[j] == prefix@[j],
        decreases plen - i,
    {
        let a = s.get_char(i);
        let b = prefix.get_char(i);
        if a != b {
            proof {
                assert(s@.subrange(0, plen as int)[i as int] != prefix@[i as int]);
            }
            return false;
        }
        i = i + 1;
    }
    proof {
        assert(s@.subrange(0, plen as int) =~= prefix@);
    }
    true
}

/// Classify a model by its asset path: player models live under
/// `models/player`, view models under `models/weapons/v_`.
pub fn classify_model(name: &str) -> (r: ModelClass)
    ensures
        starts_with_spec(name@, "models/player"@) ==> r is Player,
        !starts_with_spec(name@, "models/player"@) && starts_with_spec(
            name@,
            "models/weapons/v_"@,
        ) ==> r is ViewModel,
        !starts_with_spec(name@, "models/player"@) && !starts_with_spec(
            name@,
            "models/weapons/v_"@,
        ) ==> r is Other,
{
    if starts_with(name, "models/player") {
        ModelClass::Player
    } else if starts_with(name, "models/weapons/v_") {
        ModelClass::ViewModel
    } else {
        ModelClass::Other
    }
}

/// The glow color and depth-test override for a player model: the local
/// player and friendly bots glow purple through ordinary depth testing,
/// enemies glow red and enemy bots orange through walls, and anyone else
/// glows white.
pub fn player_highlight(is_local: bool, is_enemy: bool, is_bot: bool) -> (r: (Rgba, bool))
    ensures
        is_local ==> r == (glow_purple(), false),
        !is_local && !is_enemy && is_bot ==> r == (glow_purple(), false),
        !is_local && is_enemy && !is_bot ==> r == (glow_red(), true),
        !is_local && is_enemy && is_bot ==> r == (glow_orange(), true),
        !is_local && !is_enemy && !is_bot ==> r == (glow_white(), false),
{
    if is_local {
        (Rgba { red: 400, green: 0, blue: 1000, alpha: 400 }, false)
    } else {
        match (is_enemy, is_bot) {
            (false, true) => (Rgba { red: 400, green: 0, blue: 1000, alpha: 400 }, false),
            (true, false) => (Rgba { red: 1000, green: 0, blue: 0, alpha: 500 }, true),
            (true, true) => (Rgba { red: 1000, green: 500, blue: 0, alpha: 500 }, true),
            (false, false) => (Rgba { red: 1000, green: 1000, blue: 1000, alpha: 500 }, false),
        }
    }
}

/// The glow alpha for the view model: faded while the player is scoped.
pub fn view_model_alpha(is_scoped: bool) -> (a: u16)
    ensures
        is_scoped ==> a == 200,
        !is_scoped ==> a == glow_purple().alpha,
{
    if is_scoped {
        200
    } else {
        400
    }
}

} // verus!
