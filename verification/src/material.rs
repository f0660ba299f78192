use vstd::prelude::*;

verus! {

/// The texture-coordinate set a material slot samples, as the shading
/// pipeline's uniform encodes it: a non-negative set index, or -1 for a
/// slot with no texture bound.
#[derive(Debug, Clone, Copy, PartialEq, Eq, Structural)]
pub struct TextureSet(pub i32);

impl TextureSet {
    /// The sentinel for a slot with no texture.
    pub fn none() -> (r: TextureSet)
        ensures
            r.0 == -1,
            !r.is_some_set(),
    {
        TextureSet(-1)
    }

    /// Whether a texture is bound to this slot.
    pub open spec fn is_some_set(self) -> bool {
        self.0 >= 0
    }

    pub fn is_some(self) -> (r: bool)
        ensures
            r == self.is_some_set(),
    {
        self.0 >= 0
    }

    /// The raw index the shader reads; -1 means unbound.
    pub fn get(self) -> (r: i32)
        ensures
            r == self.0,
    {
        self.0
    }
}

impl From<u32> for TextureSet {
    /// Wraps a glTF texture-coordinate set index; indices are small, so the
    /// sign never flips.
    fn from(value: u32) -> (r: TextureSet) {
        TextureSet(value as i32)
    }
}

impl vstd::std_specs::convert::FromSpecImpl<u32> for TextureSet {
    open spec fn obeys_from_spec() -> bool {
        true
    }

    open spec fn from_spec(value: u32) -> TextureSet {
        TextureSet(value as i32)
    }
}

} // verus!
