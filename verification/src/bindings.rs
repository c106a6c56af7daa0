//! Pipeline bindings: binding descriptions that name their assets by
//! handle, and their resolved counterparts that borrow the assets
//! themselves.  Resolution is the only decision here: every handle must
//! refer to a stored asset, or the binding reports which one does not.

use vstd::prelude::*;

use crate::assets::{Assets, Buffer, Texture};
use crate::renderer::{Id, RendererError, Sampler};

verus! {

/// Rendering stage.
#[derive(Clone, Copy, Debug, Eq, PartialEq, Structural)]
pub enum Stage {
    /// Vertex shader stage
    Vertex,
    /// Fragment shader stage
    Fragment,
    /// Compute shader stage
    Compute,
    /// Any stage
    All,
}

/// Access mode of a storage binding.
#[derive(Clone, Copy, Debug, Eq, PartialEq, Structural)]
pub enum Access {
    /// Read-only access
    ReadOnly,
    /// Write-only access
    WriteOnly,
    /// Read and write access
    ReadWrite,
}

/// A binding description: label, stage and the handle of the bound asset.
pub enum MaybeBinding<'a> {
    /// Uniform binding
    Uniform(&'a str, Stage, Id<Buffer>),
    /// Texture binding
    Texture(&'a str, Stage, Id<Texture>),
    /// Cube texture binding
    TextureCube(&'a str, Stage, Id<Texture>),
    /// 2D texture array binding
    TextureArray(&'a str, Stage, Id<Texture>),
    /// 3D texture binding
    Texture3D(&'a str, Stage, Id<Texture>),
    /// Storage texture binding
    StorageTexture(&'a str, Stage, Id<Texture>, Access),
    /// Storage texture cube binding
    StorageTextureCube(&'a str, Stage, Id<Texture>, Access),
    /// Storage 2D texture array binding
    StorageTextureArray(&'a str, Stage, Id<Texture>, Access),
    /// Storage texture binding 3D
    StorageTexture3D(&'a str, Stage, Id<Texture>, Access),
    /// Texture sampler binding
    Sampler(&'a str, Stage, &'a Sampler),
    /// Storage binding
    Storage(&'a str, Stage, Id<Buffer>),
}

/// A binding with its handle resolved to the stored asset.
pub enum ConcreteBinding<'a> {
    /// Uniform binding
    Uniform(&'a str, Stage, &'a Buffer),
    /// Texture binding
    Texture(&'a str, Stage, &'a Texture),
    /// Cube texture binding
    TextureCube(&'a str, Stage, &'a Texture),
    /// 2D texture array binding
    TextureArray(&'a str, Stage, &'a Texture),
    /// 3D texture binding
    Texture3D(&'a str, Stage, &'a Texture),
    /// Storage texture binding
    StorageTexture(&'a str, Stage, &'a Texture, Access),
    /// Storage texture cube binding
    StorageTextureCube(&'a str, Stage, &'a Texture, Access),
    /// Storage 2D texture array binding
    StorageTextureArray(&'a str, Stage, &'a Texture, Access),
    /// Storage texture binding 3D
    StorageTexture3D(&'a str, Stage, &'a Texture, Access),
    /// Texture sampler binding
    Sampler(&'a str, Stage, &'a Sampler),
    /// Storage binding
    Storage(&'a str, Stage, &'a Buffer),
}

/// Every handle the binding names refers to a stored asset.
pub open spec fn binding_resolves(m: MaybeBinding, assets: Assets) -> bool {
    match m {
        MaybeBinding::Uniform(_, _, id) => assets.spec_buffer(id) is Some,
        MaybeBinding::Storage(_, _, id) => assets.spec_buffer(id) is Some,
        MaybeBinding::Texture(_, _, id) => assets.spec_texture(id) is Some,
        MaybeBinding::TextureCube(_, _, id) => assets.spec_texture(id) is Some,
        MaybeBinding::TextureArray(_, _, id) => assets.spec_texture(id) is Some,
        MaybeBinding::Texture3D(_, _, id) => assets.spec_texture(id) is Some,
        MaybeBinding::StorageTexture(_, _, id, _) => assets.spec_texture(id) is Some,
        MaybeBinding::StorageTextureCube(_, _, id, _) => assets.spec_texture(id) is Some,
        MaybeBinding::StorageTextureArray(_, _, id, _) => assets.spec_texture(id) is Some,
        MaybeBinding::StorageTexture3D(_, _, id, _) => assets.spec_texture(id) is Some,
        MaybeBinding::Sampler(_, _, _) => true,
    }
}

/// The numeric handle the binding fails on when it does not resolve.
pub open spec fn binding_missing_handle(m: MaybeBinding) -> u64 {
    match m {
        MaybeBinding::Uniform(_, _, id) => id.id,
        MaybeBinding::Storage(_, _, id) => id.id,
        MaybeBinding::Texture(_, _, id) => id.id,
        MaybeBinding::TextureCube(_, _, id) => id.id,
        MaybeBinding::TextureArray(_, _, id) => id.id,
        MaybeBinding::Texture3D(_, _, id) => id.id,
        MaybeBinding::StorageTexture(_, _, id, _) => id.id,
        MaybeBinding::StorageTextureCube(_, _, id, _) => id.id,
        MaybeBinding::StorageTextureArray(_, _, id, _) => id.id,
        MaybeBinding::StorageTexture3D(_, _, id, _) => id.id,
        MaybeBinding::Sampler(_, _, _) => 0,
    }
}

/// `c` is `m` with its handle resolved against `assets`: same kind, label,
/// stage and access, the asset being the one stored under the handle.
pub open spec fn binding_matches(m: MaybeBinding, c: ConcreteBinding, assets: Assets) -> bool {
    match (m, c) {
        (MaybeBinding::Uniform(l, s, id), ConcreteBinding::Uniform(l2, s2, b)) => l2 == l && s2
            == s && Some(*b) == assets.spec_buffer(id),
        (MaybeBinding::Storage(l, s, id), ConcreteBinding::Storage(l2, s2, b)) => l2 == l && s2
            == s && Some(*b) == assets.spec_buffer(id),
        (MaybeBinding::Texture(l, s, id), ConcreteBinding::Texture(l2, s2, t)) => l2 == l && s2
            == s && Some(*t) == assets.spec_texture(id),
        (MaybeBinding::TextureCube(l, s, id), ConcreteBinding::TextureCube(l2, s2, t)) => l2 == l
            && s2 == s && Some(*t) == assets.spec_texture(id),
        (MaybeBinding::TextureArray(l, s, id), ConcreteBinding::TextureArray(l2, s2, t)) => l2 == l
            && s2 == s && Some(*t) == assets.spec_texture(id),
        (MaybeBinding::Texture3D(l, s, id), ConcreteBinding::Texture3D(l2, s2, t)) => l2 == l && s2
            == s && Some(*t) == assets.spec_texture(id),
        (
            MaybeBinding::StorageTexture(l, s, id, a),
            ConcreteBinding::StorageTexture(l2, s2, t, a2),
        ) => l2 == l && s2 == s && a2 == a && Some(*t) == assets.spec_texture(id),
        (
            MaybeBinding::StorageTextureCube(l, s, id, a),
            ConcreteBinding::StorageTextureCube(l2, s2, t, a2),
        ) => l2 == l && s2 == s && a2 == a && Some(*t) == assets.spec_texture(id),
        (
            MaybeBinding::StorageTextureArray(l, s, id, a),
            ConcreteBinding::StorageTextureArray(l2, s2, t, a2),
        ) => l2 == l && s2 == s && a2 == a && Some(*t) == assets.spec_texture(id),
        (
            MaybeBinding::StorageTexture3D(l, s, id, a),
            ConcreteBinding::StorageTexture3D(l2, s2, t, a2),
        ) => l2 == l && s2 == s && a2 == a && Some(*t) == assets.spec_texture(id),
        (MaybeBinding::Sampler(l, s, sm), ConcreteBinding::Sampler(l2, s2, sm2)) => l2 == l && s2
            == s && sm2 == sm,
        _ => false,
    }
}

impl<'a> MaybeBinding<'a> {
    /// Resolves the binding's asset handle, or reports exactly which handle
    /// refers to no stored asset.
    pub fn make_concrete<T>(&'a self, assets: &'a Assets) -> (r: Result<
        ConcreteBinding<'a>,
        RendererError<T>,
    >)
        ensures
            match r {
                Ok(c) => binding_resolves(*self, *assets) && binding_matches(*self, c, *assets),
                Err(e) => !binding_resolves(*self, *assets) && (e matches
                    RendererError::AssetNotReady(id) && id.id == binding_missing_handle(*self)),
            },
    {
        match self {
            MaybeBinding::Uniform(label, stage, id) => match assets.get_buffer(id) {
                Some(buffer) => Ok(ConcreteBinding::Uniform(label, *stage, buffer)),
                None => Err(RendererError::AssetNotReady(Id::new(id.id))),
            },
            MaybeBinding::Storage(label, stage, id) => match assets.get_buffer(id) {
                Some(buffer) => Ok(ConcreteBinding::Storage(label, *stage, buffer)),
                None => Err(RendererError::AssetNotReady(Id::new(id.id))),
            },
            MaybeBinding::Texture(label, stage, id) => match assets.get_texture(id) {
                Some(texture) => Ok(ConcreteBinding::Texture(label, *stage, texture)),
                None => Err(RendererError::AssetNotReady(Id::new(id.id))),
            },
            MaybeBinding::TextureCube(label, stage, id) => match assets.get_texture(id) {
                Some(texture) => Ok(ConcreteBinding::TextureCube(label, *stage, texture)),
                None => Err(RendererError::AssetNotReady(Id::new(id.id))),
            },
            MaybeBinding::TextureArray(label, stage, id) => match assets.get_texture(id) {
                Some(texture) => Ok(ConcreteBinding::TextureArray(label, *stage, texture)),
                None => Err(RendererError::AssetNotReady(Id::new(id.id))),
            },
            MaybeBinding::Texture3D(label, stage, id) => match assets.get_texture(id) {
                Some(texture) => Ok(ConcreteBinding::Texture3D(label, *stage, texture)),
                None => Err(RendererError::AssetNotReady(Id::new(id.id))),
            },
            MaybeBinding::StorageTexture(label, stage, id, access) => match assets.get_texture(
                id,
            ) {
                Some(texture) => Ok(
                    ConcreteBinding::StorageTexture(label, *stage, texture, *access),
                ),
                None => Err(RendererError::AssetNotReady(Id::new(id.id))),
            },
            MaybeBinding::StorageTextureCube(label, stage, id, access) => match assets.get_texture(
                id,
            ) {
                Some(texture) => Ok(
                    ConcreteBinding::StorageTextureCube(label, *stage, texture, *access),
                ),
                None => Err(RendererError::AssetNotReady(Id::new(id.id))),
            },
            MaybeBinding::StorageTextureArray(label, stage, id, access) => match assets
                .get_texture(id) {
                Some(texture) => Ok(
                    ConcreteBinding::StorageTextureArray(label, *stage, texture, *access),
                ),
                None => Err(RendererError::AssetNotReady(Id::new(id.id))),
            },
            MaybeBinding::StorageTexture3D(label, stage, id, access) => match assets.get_texture(
                id,
            ) {
                Some(texture) => Ok(
                    ConcreteBinding::StorageTexture3D(label, *stage, texture, *access),
                ),
                None => Err(RendererError::AssetNotReady(Id::new(id.id))),
            },
            MaybeBinding::Sampler(label, stage, sampler) => Ok(
                ConcreteBinding::Sampler(label, *stage, sampler),
            ),
        }
    }
}

/// A bind group description holding binding descriptions.
pub struct MaybeBindGroup<'a> {
    /// Text label of the bind group
    pub label: &'a str,
    /// List of bindings
    pub bindings: Vec<MaybeBinding<'a>>,
}

/// A bind group with every binding resolved.
pub struct ConcreteBindGroup<'a> {
    /// Text label of the bind group
    pub label: &'a str,
    /// List of bindings
    pub bindings: Vec<ConcreteBinding<'a>>,
}

impl<'a> ConcreteBindGroup<'a> {
    /// Constructs a new bind group.
    pub fn new(label: &'a str, bindings: Vec<ConcreteBinding<'a>>) -> (r: Self)
        ensures
            r.label == label,
            r.bindings == bindings,
    {
        Self { label, bindings }
    }
}

/// A binding with a resolved counterpart resolves.
proof fn lemma_matches_resolves(m: MaybeBinding, c: ConcreteBinding, assets: Assets)
    requires
        binding_matches(m, c, assets),
    ensures
        binding_resolves(m, assets),
{
}

impl<'a> MaybeBindGroup<'a> {
    /// Resolves every binding of the group in order, or reports the handle
    /// of the first binding whose asset is not stored.
    pub fn make_concrete<T>(&'a self, assets: &'a Assets) -> (r: Result<
        ConcreteBindGroup<'a>,
        RendererError<T>,
    >)
        ensures
            match r {
                Ok(c) => c.label == self.label && c.bindings@.len() == self.bindings@.len()
                    && forall|i: int|
                    0 <= i < self.bindings@.len() ==> binding_matches(
                        self.bindings@[i],
                        #[trigger] c.bindings@[i],
                        *assets,
                    ),
                Err(e) => exists|i: int|
                    0 <= i < self.bindings@.len() && !binding_resolves(
                        #[trigger] self.bindings@[i],
                        *assets,
                    ) && (forall|j: int|
                        0 <= j < i ==> binding_resolves(#[trigger] self.bindings@[j], *assets)) && (
                    e matches RendererError::AssetNotReady(id) && id.id == binding_missing_handle(
                        self.bindings@[i],
                    )),
            },
    {
        let mut bindings: Vec<ConcreteBinding<'a>> = Vec::new();
        let n = self.bindings.len();
        let mut i: usize = 0;
        while i < n
            invariant
                n == self.bindings@.len(),
                0 <= i <= n,
                bindings@.len() == i,
                forall|j: int|
                    0 <= j < i ==> binding_matches(
                        self.bindings@[j],
                        #[trigger] bindings@[j],
                        *assets,
                    ),
            decreases n - i,
        {
            match self.bindings[i].make_concrete::<T>(assets) {
                Ok(concrete) => bindings.push(concrete),
                Err(e) => {
                    proof {
                        assert forall|j: int|
                            0 <= j < i implies binding_resolves(
                            #[trigger] self.bindings@[j],
                            *assets,
                        ) by {
                            lemma_matches_resolves(self.bindings@[j], bindings@[j], *assets);
                        }
                    }
                    return Err(e);
                },
            }
            i = i + 1;
        }
        Ok(ConcreteBindGroup { label: self.label, bindings })
    }
}

} // verus!
