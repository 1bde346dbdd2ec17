//! Board state engine for a small persistent resource-management game:
//! a fixed grid of tiles, per-player energy that regenerates over time,
//! and a bounded history of the actions applied to the board.

pub mod key;
pub mod player;
pub mod tile;
pub mod history;
pub mod error;
pub mod board;
pub mod lumberjack;

pub use board::{BoardAccount, BOARD_SIZE_X, BOARD_SIZE_Y};
pub use error::GameErrorCode;
pub use history::{ActionType, GameAction, GameActionHistory};
pub use key::Pubkey;
pub use lumberjack::{update_energy, BoardAction, InitPlayer};
pub use player::{PlayerData, MAX_ENERGY, TIME_TO_REFILL_ENERGY};
pub use tile::{BuildingType, Tile, TileData};
