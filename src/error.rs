use vstd::prelude::*;

verus! {

/// Why an action was rejected. A rejected action changes nothing.
#[derive(Clone, Copy, Debug, PartialEq, Eq, Structural)]
pub enum GameErrorCode {
    NotEnoughEnergy,
    TileAlreadyOccupied,
    TileHasNoTree,
    WrongAuthority,
    TileCantBeUpgraded,
    TileCantBeCollected,
    InvalidCoordinate,
}

} // verus!
