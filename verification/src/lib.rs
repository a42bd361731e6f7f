//! A deterministic ledger for uniquely identified digital assets ("kitties"):
//! it mints assets with strictly increasing identifiers, tracks ownership,
//! derives a child's trait vector from two parents by a bitwise crossover,
//! and settles priced ownership transfers against a fungible balance ledger.

pub mod allocator;
pub mod breeding;
pub mod deriver;
pub mod errors;
pub mod kitty;
pub mod ledger;
pub mod token;

pub use allocator::next_id;
pub use breeding::crossover;
pub use deriver::random_value;
pub use errors::Error;
pub use kitty::Kitty;
pub use ledger::{Event, Pallet};
pub use token::Erc200;
