//! Seating two bots at a game: a fair coin decides who plays white.

use vstd::prelude::*;

verus! {

/// A fair coin (`rand::random_ratio(1, 2)`: true with probability one half);
/// nothing is known of any one toss.
#[verifier::external_body]
fn coin_flip() -> bool {
    rand::random_ratio(1, 2)
}

/// The colours of the two bots for a toss: white is the first bot when the
/// toss is true, the second otherwise; black is the other one.
pub open spec fn colors_for(toss: bool, bot1: Option<u128>, bot2: Option<u128>) -> (Option<u128>, Option<u128>) {
    let white = if toss { bot1 } else { bot2 };
    let black = if white == bot1 { bot2 } else { bot1 };
    (white, black)
}

/// The toss decides the seating: a true toss seats the first bot as white
/// and the second as black, a false toss the other way round.
pub proof fn lemma_toss_decides_seating(bot1: Option<u128>, bot2: Option<u128>)
    ensures
        colors_for(true, bot1, bot2) == (bot1, bot2),
        colors_for(false, bot1, bot2) == (bot2, bot1),
{
}

/// Seats the bots for a toss.
pub fn assign_colors(toss: bool, bot1: Option<u128>, bot2: Option<u128>) -> (r: (Option<u128>, Option<u128>))
    ensures
        r == colors_for(toss, bot1, bot2),
        (r.0 == bot1 && r.1 == bot2) || (r.0 == bot2 && r.1 == bot1),
{
    let white = if toss {
        bot1
    } else {
        bot2
    };
    let black = if white == bot1 {
        bot2
    } else {
        bot1
    };
    (white, black)
}

/// Seats two bots at random: `(white, black)` is one of the two seatings,
/// and each bot plays one side.
pub fn pick_colors(bot1: Option<u128>, bot2: Option<u128>) -> (r: (Option<u128>, Option<u128>))
    ensures
        r == colors_for(true, bot1, bot2) || r == colors_for(false, bot1, bot2),
        (r.0 == bot1 && r.1 == bot2) || (r.0 == bot2 && r.1 == bot1),
{
    let toss = coin_flip();
    assign_colors(toss, bot1, bot2)
}

} // verus!
