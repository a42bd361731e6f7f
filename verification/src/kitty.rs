use vstd::prelude::*;

verus! {

/// An asset: its identity is the key it is stored under, its payload is a
/// 16-byte trait vector fixed at minting time.  Breeding reads the parents'
/// traits and mints a new asset; it never rewrites an existing one.
#[derive(Clone, Copy, Debug, PartialEq)]
pub struct Kitty(pub [u8; 16]);

} // verus!
