use vstd::prelude::*;

verus! {

/// Whether a level entity with identifier `identifier` is the player's spawn
/// point.
pub fn is_player_start(identifier: &str) -> (r: bool)
    ensures
        r == (identifier@ == "PlayerStart"@),
{
    let tag = "PlayerStart".to_owned();
    let given = identifier.to_owned();
    given == tag
}

/// Whether a level entity with identifier `identifier` is a coin.
pub fn is_coin(identifier: &str) -> (r: bool)
    ensures
        r == (identifier@ == "Coin"@),
{
    let tag = "Coin".to_owned();
    let given = identifier.to_owned();
    given == tag
}

} // verus!
