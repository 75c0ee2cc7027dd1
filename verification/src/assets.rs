use vstd::prelude::*;

verus! {

/// Registry of loaded assets; it holds nothing yet, textures are kept by the game itself.
pub struct AssetRegistry {}

impl AssetRegistry {
    /// An empty registry.
    pub fn new() -> (r: Self)
        ensures
            r == (AssetRegistry {}),
    {
        AssetRegistry {}
    }
}

impl Default for AssetRegistry {
    fn default() -> (r: Self)
        ensures
            r == (AssetRegistry {}),
    {
        Self::new()
    }
}

} // verus!
