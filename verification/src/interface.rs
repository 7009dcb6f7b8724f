//! The reflected program interface handed in by the device layer, and the
//! opaque handle types this crate stores and forwards without interpreting.

use vstd::prelude::*;

verus! {

/// One named input a compiled shader program requires.
#[derive(Clone, Debug)]
pub struct VarInfo {
    /// The variable's name, as the program's reflection reports it.
    pub name: String,
}

/// The reflected interface of a compiled shader program: the ordered lists
/// of required uniform, block and texture names. Owned by the device layer
/// and read-only to this crate.
#[derive(Clone, Debug)]
pub struct ProgramInfo {
    /// Required uniforms, in declaration order.
    pub uniforms: Vec<VarInfo>,
    /// Required uniform blocks, in declaration order.
    pub blocks: Vec<VarInfo>,
    /// Required textures, in declaration order.
    pub textures: Vec<VarInfo>,
}

impl ProgramInfo {
    /// The program declares no required inputs at all.
    pub open spec fn spec_is_empty(&self) -> bool {
        self.uniforms@.len() == 0 && self.blocks@.len() == 0 && self.textures@.len() == 0
    }
}

/// An opaque handle to a device buffer, compared by identity.
#[derive(Clone, Copy, PartialEq, Eq, Structural, Debug)]
pub struct BufferHandle {
    /// The identity the device layer assigned to the buffer.
    pub id: u32,
}

/// An opaque handle to a device texture, compared by identity.
#[derive(Clone, Copy, PartialEq, Eq, Structural, Debug)]
pub struct TextureHandle {
    /// The identity the device layer assigned to the texture.
    pub id: u32,
}

/// An opaque handle to a device sampler, compared by identity.
#[derive(Clone, Copy, PartialEq, Eq, Structural, Debug)]
pub struct SamplerHandle {
    /// The identity the device layer assigned to the sampler.
    pub id: u32,
}

/// A texture parameter: a texture handle with an optional sampler.
pub type TextureParam = (TextureHandle, Option<SamplerHandle>);

} // verus!
