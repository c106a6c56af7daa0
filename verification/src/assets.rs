//! Asset layer: CPU-side data with a staged GPU counterpart, tracked by the
//! reload state so it is (re)loaded only when it changed.

use vstd::prelude::*;

use crate::reloadable::{ReloadKind, ReloadState, Reloadable};
use crate::renderer::{Buffer as BufferObject, Renderer, ShaderModule, Texture as TextureBuffer};
use crate::renderer::layers_bytes;
use crate::renderer::layers_view;

verus! {

/// A shader asset: named source code and its compiled module.
pub struct Shader {
    /// Name of the shader
    pub name: String,
    /// Shader source code
    pub code: String,
    /// The compiled module
    pub module: ShaderModule,
}

impl Shader {
    /// Creates a shader asset from its name and source.
    pub fn new(name: String, code: String) -> (r: Self)
        ensures
            r.name@ == name@,
            r.code@ == code@,
            !r.module.loaded,
    {
        Shader { name, code, module: ShaderModule::new() }
    }

    /// Compiles the shader on the backend.
    pub fn load(&mut self, renderer: &Renderer)
        requires
            renderer.context is Some,
        ensures
            final(self).name@ == old(self).name@,
            final(self).code@ == old(self).code@,
            final(self).module.code@ == old(self).code@,
            final(self).module.loaded,
    {
        let code = self.code.clone();
        renderer.load_shader(&mut self.module, code.as_str());
    }

    /// True when the compiled module is loaded on the backend.
    pub fn loaded(&self) -> (r: bool)
        ensures
            r == self.module.loaded,
    {
        self.module.loaded()
    }
}

/// The asset store, modelled at the boundary this layer relies on: the
/// shaders the frame binding walks, and the buffer and texture assets that
/// bindings resolve by handle.  A handle is the asset's position plus one,
/// so the null handle (zero) never resolves.
pub struct Assets {
    /// The stored shader assets
    pub shaders: Vec<Shader>,
    /// The stored buffer assets
    pub buffers: Vec<Buffer>,
    /// The stored texture assets
    pub textures: Vec<Texture>,
}

impl Assets {
    /// The buffer a handle refers to, if any.
    pub open spec fn spec_buffer(&self, id: crate::renderer::Id<Buffer>) -> Option<Buffer> {
        if 1 <= id.id <= self.buffers@.len() {
            Some(self.buffers@[id.id - 1])
        } else {
            None
        }
    }

    /// The texture a handle refers to, if any.
    pub open spec fn spec_texture(&self, id: crate::renderer::Id<Texture>) -> Option<Texture> {
        if 1 <= id.id <= self.textures@.len() {
            Some(self.textures@[id.id - 1])
        } else {
            None
        }
    }

    /// Creates an empty asset store.
    pub fn new() -> (r: Self)
        ensures
            r.shaders@.len() == 0,
            r.buffers@.len() == 0,
            r.textures@.len() == 0,
    {
        Assets { shaders: Vec::new(), buffers: Vec::new(), textures: Vec::new() }
    }

    /// Stores a shader asset.
    pub fn store_shader(&mut self, shader: Shader)
        ensures
            final(self).shaders@ == old(self).shaders@.push(shader),
            final(self).buffers@ == old(self).buffers@,
            final(self).textures@ == old(self).textures@,
    {
        self.shaders.push(shader);
    }

    /// Stores a buffer asset and returns its handle.
    pub fn store_buffer(&mut self, buffer: Buffer) -> (id: crate::renderer::Id<Buffer>)
        requires
            old(self).buffers@.len() < u64::MAX,
        ensures
            final(self).buffers@ == old(self).buffers@.push(buffer),
            final(self).shaders@ == old(self).shaders@,
            final(self).textures@ == old(self).textures@,
            id.id == final(self).buffers@.len(),
            final(self).spec_buffer(id) == Some(buffer),
    {
        self.buffers.push(buffer);
        crate::renderer::Id::new(self.buffers.len() as u64)
    }

    /// Stores a texture asset and returns its handle.
    pub fn store_texture(&mut self, texture: Texture) -> (id: crate::renderer::Id<Texture>)
        requires
            old(self).textures@.len() < u64::MAX,
        ensures
            final(self).textures@ == old(self).textures@.push(texture),
            final(self).shaders@ == old(self).shaders@,
            final(self).buffers@ == old(self).buffers@,
            id.id == final(self).textures@.len(),
            final(self).spec_texture(id) == Some(texture),
    {
        self.textures.push(texture);
        crate::renderer::Id::new(self.textures.len() as u64)
    }

    /// The stored buffer asset a handle refers to, or nothing for an
    /// unknown or null handle.
    pub fn get_buffer(&self, id: &crate::renderer::Id<Buffer>) -> (r: Option<&Buffer>)
        ensures
            match r {
                Some(b) => self.spec_buffer(*id) == Some(*b),
                None => self.spec_buffer(*id) is None,
            },
    {
        if 1 <= id.id && id.id <= self.buffers.len() as u64 {
            Some(&self.buffers[(id.id - 1) as usize])
        } else {
            None
        }
    }

    /// The stored texture asset a handle refers to, or nothing for an
    /// unknown or null handle.
    pub fn get_texture(&self, id: &crate::renderer::Id<Texture>) -> (r: Option<&Texture>)
        ensures
            match r {
                Some(t) => self.spec_texture(*id) == Some(*t),
                None => self.spec_texture(*id) is None,
            },
    {
        if 1 <= id.id && id.id <= self.textures.len() as u64 {
            Some(&self.textures[(id.id - 1) as usize])
        } else {
            None
        }
    }
}

/// Buffer asset.
pub struct Buffer {
    /// Raw buffer data on the CPU: loaded to the GPU but not reflecting
    /// changes that happen there
    pub data: Vec<u8>,
    /// The underlying GPU buffer
    pub buffer: BufferObject,
    /// The reload state holds the last cycle that certain changes were made
    pub reload_state: ReloadState,
}

impl Default for Buffer {
    /// An empty, unloaded buffer asset.
    fn default() -> (r: Self)
        ensures
            r.data@ == Seq::<u8>::empty(),
            !r.buffer.loaded,
            r.reload_state == ReloadState::initial(),
    {
        Buffer {
            data: Vec::new(),
            buffer: BufferObject::new("Buffer"),
            reload_state: ReloadState::default(),
        }
    }
}

impl Reloadable for Buffer {
    open spec fn spec_reload_state(&self) -> ReloadState {
        self.reload_state
    }

    fn reload_state(&self) -> &ReloadState {
        &self.reload_state
    }

    fn set_reload_state(&mut self, state: ReloadState) {
        self.reload_state = state;
    }
}

impl crate::renderer::BufferProvider for Buffer {
    open spec fn spec_buffer(&self) -> BufferObject {
        self.buffer
    }

    fn get_buffer(&self) -> &BufferObject {
        &self.buffer
    }
}

impl Buffer {
    /// Loads the [`Buffer`] data to the GPU buffer; a no-op while no change
    /// is pending and the buffer is already loaded.
    pub fn load(&mut self, renderer: &Renderer)
        requires
            renderer.context is Some,
        ensures
            final(self).data@ == old(self).data@,
            final(self).reload_state == old(self).reload_state,
            if !old(self).reload_state.requires_update && !old(self).reload_state.requires_reload
                && old(self).buffer.loaded {
                final(self).buffer == old(self).buffer
            } else {
                final(self).buffer.loaded && final(self).buffer.data@ == old(self).data@
                    && final(self).buffer.label == old(self).buffer.label
            },
    {
        if !self.reload_state.requires_update && !self.reload_state.requires_reload
            && self.buffer.loaded() {
            return ;
        }
        let data = self.data.clone();
        renderer.load_buffer(&mut self.buffer, data.as_slice());
    }

    /// Unloads the buffer data from the GPU and flags the pending rebind.
    pub fn unload(&mut self)
        ensures
            final(self).data@ == old(self).data@,
            !final(self).buffer.loaded,
            final(self).reload_state == (ReloadState {
                requires_reload: true,
                ..old(self).reload_state
            }),
    {
        self.reload_state.requires_reload = true;
        self.buffer.unload();
    }
}

/// Texture asset.
pub struct Texture {
    /// Texture width in pixels
    pub width: u32,
    /// Texture height in pixels
    pub height: u32,
    /// Texture depth
    pub depth: u32,
    /// Raw texture data
    pub data: Vec<u8>,
    /// Texture buffer
    pub texture: TextureBuffer,
    /// Flagged on change
    pub reload_state: ReloadState,
    /// Last cycle in which the buffer data was updated
    pub last_load_cycle: usize,
}

impl Default for Texture {
    /// An empty, unloaded texture asset.
    fn default() -> (r: Self)
        ensures
            r.width == 0 && r.height == 0 && r.depth == 0,
            r.data@ == Seq::<u8>::empty(),
            !r.texture.loaded,
            r.reload_state == ReloadState::initial(),
            r.last_load_cycle == 0,
    {
        Texture {
            width: 0,
            height: 0,
            depth: 0,
            data: Vec::new(),
            texture: TextureBuffer::new("Texture"),
            reload_state: ReloadState::default(),
            last_load_cycle: 0,
        }
    }
}

impl Reloadable for Texture {
    open spec fn spec_reload_state(&self) -> ReloadState {
        self.reload_state
    }

    fn reload_state(&self) -> &ReloadState {
        &self.reload_state
    }

    fn set_reload_state(&mut self, state: ReloadState) {
        self.reload_state = state;
    }
}

impl crate::renderer::TextureProvider for Texture {
    open spec fn spec_texture(&self) -> TextureBuffer {
        self.texture
    }

    fn get_texture(&self) -> &TextureBuffer {
        &self.texture
    }
}

impl Texture {
    /// Loads the [`Texture`] data to a buffer from the CPU data: exactly
    /// when a change occurred since the last load or the texture is not
    /// loaded yet, the staged bytes are pushed to the GPU texture and the
    /// load cycle is recorded.
    pub fn load(&mut self, renderer: &Renderer)
        requires
            renderer.context is Some,
        ensures
            final(self).width == old(self).width,
            final(self).height == old(self).height,
            final(self).depth == old(self).depth,
            final(self).data@ == old(self).data@,
            final(self).reload_state == old(self).reload_state,
            if old(self).reload_state.spec_changes_since(old(self).last_load_cycle)
                != ReloadKind::NoChange || !old(self).texture.loaded {
                final(self).texture.loaded && final(self).texture.width == old(self).width
                    && final(self).texture.height == old(self).height && final(self).texture.data@
                    == old(self).data@ && final(self).last_load_cycle == renderer.cycle
            } else {
                final(self).texture == old(self).texture && final(self).last_load_cycle == old(
                    self,
                ).last_load_cycle
            },
    {
        let changes = self.changes_since(self.last_load_cycle);
        if matches!(changes, ReloadKind::Reload | ReloadKind::Update) || !self.texture.loaded() {
            let data = self.data.clone();
            let layers: [&[u8]; 1] = [data.as_slice()];
            renderer.load_texture(&mut self.texture, self.width, self.height, layers.as_slice());
            proof {
                assert(layers_view(layers@) =~= seq![data@]);
                assert(layers_bytes(seq![data@]) =~= seq![data@].flat_map(|l: Seq<u8>| l));
                seq![data@].lemma_flat_map_singleton(|l: Seq<u8>| l);
            }
            self.last_load_cycle = renderer.cycle();
        }
    }

    /// Prepares data into the CPU buffer, flagging the required reload: a
    /// change of dimensions or data length unloads the texture, any other
    /// change only flags an update.
    pub fn prepare(&mut self, dimension: [u32; 2], data: Vec<u8>)
        ensures
            final(self).width == dimension[0],
            final(self).height == dimension[1],
            final(self).data@ == data@,
            final(self).depth == old(self).depth,
            final(self).last_load_cycle == old(self).last_load_cycle,
            if dimension[0] != old(self).width || dimension[1] != old(self).height || data@.len()
                != old(self).data@.len() {
                !final(self).texture.loaded && final(self).reload_state == (ReloadState {
                    requires_reload: true,
                    ..old(self).reload_state
                })
            } else {
                final(self).texture == old(self).texture && final(self).reload_state == (
                ReloadState { requires_update: true, ..old(self).reload_state })
            },
    {
        if dimension[0] != self.width || dimension[1] != self.height || data.len()
            != self.data.len() {
            self.unload();
        } else {
            self.reload_state.requires_update = true;
        }
        self.width = dimension[0];
        self.height = dimension[1];
        self.data = data;
    }

    /// Unloads the [`Texture`] data from the buffer and flags the pending
    /// rebind.
    pub fn unload(&mut self)
        ensures
            final(self).width == old(self).width,
            final(self).height == old(self).height,
            final(self).depth == old(self).depth,
            final(self).data@ == old(self).data@,
            final(self).last_load_cycle == old(self).last_load_cycle,
            !final(self).texture.loaded,
            final(self).reload_state == (ReloadState {
                requires_reload: true,
                ..old(self).reload_state
            }),
    {
        self.texture.unload();
        self.reload_state.requires_reload = true;
    }

    /// Fetches the texture data back from the GPU; useful for textures that
    /// are altered there.  This operation is slow and should mostly be used
    /// for debugging.
    pub fn fetch_from_gpu(&mut self, renderer: &mut Renderer) -> (r: Vec<u8>)
        requires
            old(renderer).context is Some,
        ensures
            r@ == old(self).texture.data@,
            *final(self) == *old(self),
            *final(renderer) == *old(renderer),
    {
        let width = self.width;
        let height = self.height;
        let depth = self.depth;
        renderer.fetch_texture(&self.texture, [width, height, depth])
    }
}

} // verus!
