//! Rating constants: how much one game moves a bot's rating.

use vstd::prelude::*;

verus! {

/// Games a bot plays before its rating is established.
pub const PROVISIONAL_GAMES: i64 = 30;

/// Rating factor while a bot's rating is provisional.
pub const K_PROVISIONAL: u32 = 40;

/// Rating factor once a bot's rating is established.
pub const K_ESTABLISHED: u32 = 20;

/// The rating factor of a bot that has played `total_matches` games: 40 for
/// its first thirty games, 20 afterwards.
pub fn k_factor(total_matches: i64) -> (k: u32)
    ensures
        k == if total_matches < PROVISIONAL_GAMES {
            K_PROVISIONAL
        } else {
            K_ESTABLISHED
        },
{
    if total_matches < PROVISIONAL_GAMES {
        K_PROVISIONAL
    } else {
        K_ESTABLISHED
    }
}

} // verus!
