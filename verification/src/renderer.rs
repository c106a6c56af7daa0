//! Rendering service: the resource bookkeeping the scheduler and the asset
//! layer rely on.
//!
//! The renderer is modelled at its interface boundary: a cycle counter, a
//! dirty flag, surface and sampling state, and load/unload bookkeeping for
//! textures, buffers, samplers and shader modules, with the staged bytes
//! mirrored on the CPU side.  Submitting the staged state to a GPU backend
//! is the surrounding application's business.

use vstd::prelude::*;

use crate::assets::{Assets, Shader};

verus! {

/// An RGBA color with 8-bit channels.
#[derive(Debug, Clone, Copy, Eq, PartialEq, Structural)]
pub struct Color {
    /// Red channel
    pub r: u8,
    /// Green channel
    pub g: u8,
    /// Blue channel
    pub b: u8,
    /// Alpha channel
    pub a: u8,
}

impl Color {
    /// Builds a color from its four channels.
    pub fn rgba(r: u8, g: u8, b: u8, a: u8) -> (c: Self)
        ensures
            c == (Color { r, g, b, a }),
    {
        Color { r, g, b, a }
    }
}

/// Antialiasing modes enumeration.
#[derive(Debug, Clone, Copy, Eq, PartialEq, Structural)]
pub enum Antialiasing {
    /// Enable antialiasing
    Enabled,
    /// Disable antialiasing
    Disabled,
    /// Manual control of number of samples for multisampled antialiasing
    MSAA {
        /// Number of samples for MSAA
        sample_count: u32,
    },
}

impl Antialiasing {
    /// The sample count of the antialiasing mode.
    pub open spec fn spec_sample_count(self) -> u32 {
        match self {
            Antialiasing::Enabled => 4,
            Antialiasing::Disabled => 1,
            Antialiasing::MSAA { sample_count } => sample_count,
        }
    }

    /// Gets the sample count for the antialiasing mode.
    pub fn sample_count(self) -> (r: u32)
        ensures
            r == self.spec_sample_count(),
    {
        match self {
            Antialiasing::Enabled => 4,
            Antialiasing::Disabled => 1,
            Antialiasing::MSAA { sample_count } => sample_count,
        }
    }
}

/// Texel layout of a texture buffer.
#[derive(Debug, Clone, Copy, Eq, PartialEq, Structural)]
pub enum TextureFormat {
    /// Four 8-bit channels
    Rgba8,
    /// Two 32-bit channels
    Rg32,
    /// Four 32-bit channels
    Rgba32,
}

/// Low-level rendering context: the surface and sampling state the backend
/// was initialized with.
#[derive(Debug, Clone, Copy, Eq, PartialEq, Structural)]
pub struct Context {
    /// Samples per pixel the surface is configured for
    pub sample_count: u32,
    /// Surface width in pixels
    pub width: u32,
    /// Surface height in pixels
    pub height: u32,
}

impl Context {
    /// Prepares a frame: reconfigures the surface when the requested sample
    /// count differs from the configured one, and reports whether pipelines
    /// must be reloaded because of it.
    pub fn bind_frame(&mut self, clear_color: &Color, sample_count: u32) -> (reload: bool)
        ensures
            reload == (old(self).sample_count != sample_count),
            *final(self) == (Context { sample_count, ..*old(self) }),
    {
        let _ = clear_color;
        let reload = self.sample_count != sample_count;
        self.sample_count = sample_count;
        reload
    }

    /// Finishes a frame.
    pub fn release_frame(&mut self)
        ensures
            *final(self) == *old(self),
    {
    }

    /// Reconfigures the surface to the given size.
    pub fn resize(&mut self, width: u32, height: u32)
        ensures
            *final(self) == (Context { width, height, ..*old(self) }),
    {
        self.width = width;
        self.height = height;
    }
}

/// The bytes of a sequence of texture layers, in layer order.
pub open spec fn layers_bytes(layers: Seq<Seq<u8>>) -> Seq<u8> {
    layers.flat_map(|l: Seq<u8>| l)
}

/// The layer contents of a borrowed layer list.
pub open spec fn layers_view(layers: Seq<&[u8]>) -> Seq<Seq<u8>> {
    layers.map_values(|l: &[u8]| l@)
}

/// Copies the bytes of all layers, in order, into one flat vector.
fn flatten_layers(layers: &[&[u8]]) -> (r: Vec<u8>)
    ensures
        r@ == layers_bytes(layers_view(layers@)),
{
    let mut data: Vec<u8> = Vec::new();
    let n = layers.len();
    let mut i: usize = 0;
    proof {
        assert(layers_view(layers@).take(0).flat_map(|l: Seq<u8>| l) =~= Seq::<u8>::empty());
    }
    while i < n
        invariant
            n == layers@.len(),
            0 <= i <= n,
            data@ == layers_view(layers@).take(i as int).flat_map(|l: Seq<u8>| l),
        decreases n - i,
    {
        let layer = layers[i];
        let m = layer.len();
        let mut j: usize = 0;
        while j < m
            invariant
                m == layer@.len(),
                0 <= j <= m,
                layer@ == layers_view(layers@)[i as int],
                i < n == layers@.len(),
                data@ == layers_view(layers@).take(i as int).flat_map(|l: Seq<u8>| l)
                    + layer@.take(j as int),
            decreases m - j,
        {
            data.push(layer[j]);
            proof {
                assert(layer@.take(j + 1) =~= layer@.take(j as int).push(layer@[j as int]));
            }
            j = j + 1;
        }
        proof {
            layers_view(layers@).lemma_flat_map_take_append(|l: Seq<u8>| l, i as int);
            assert(layer@.take(m as int) =~= layer@);
        }
        i = i + 1;
    }
    proof {
        assert(layers_view(layers@).take(n as int) =~= layers_view(layers@));
    }
    data
}

/// A texture buffer: the staged state of one texture on the backend.
pub struct Texture {
    /// Diagnostic label
    pub label: &'static str,
    /// Texel format
    pub format: TextureFormat,
    /// May be bound as a storage texture
    pub used_as_storage: bool,
    /// May be written by a shader
    pub writable: bool,
    /// Width in pixels
    pub width: u32,
    /// Height in pixels
    pub height: u32,
    /// The staged bytes of all layers
    pub data: Vec<u8>,
    /// Whether the texture is loaded on the backend
    pub loaded: bool,
}

impl Texture {
    /// Creates an unloaded texture buffer with the given label.
    pub fn new(label: &'static str) -> (r: Self)
        ensures
            r == (Texture {
                label,
                format: TextureFormat::Rgba8,
                used_as_storage: false,
                writable: false,
                width: 0,
                height: 0,
                data: r.data,
                loaded: false,
            }),
            r.data@ == Seq::<u8>::empty(),
    {
        Texture {
            label,
            format: TextureFormat::Rgba8,
            used_as_storage: false,
            writable: false,
            width: 0,
            height: 0,
            data: Vec::new(),
            loaded: false,
        }
    }

    /// Allows binding the texture as a storage texture.
    pub fn use_as_storage(self) -> (r: Self)
        ensures
            r == (Texture { used_as_storage: true, ..self }),
    {
        Texture { used_as_storage: true, ..self }
    }

    /// Allows shaders to write to the texture.
    pub fn allow_write(self) -> (r: Self)
        ensures
            r == (Texture { writable: true, ..self }),
    {
        Texture { writable: true, ..self }
    }

    /// True when the texture is loaded on the backend.
    pub fn loaded(&self) -> (r: bool)
        ensures
            r == self.loaded,
    {
        self.loaded
    }

    /// Unloads the texture from the backend.
    pub fn unload(&mut self)
        ensures
            *final(self) == (Texture { loaded: false, ..*old(self) }),
    {
        self.loaded = false;
    }

    /// Stages the layer bytes and (re)creates the texture on the backend.
    pub fn load(&mut self, context: &Context, width: u32, height: u32, layers: &[&[u8]])
        ensures
            final(self).label == old(self).label,
            final(self).format == old(self).format,
            final(self).used_as_storage == old(self).used_as_storage,
            final(self).writable == old(self).writable,
            final(self).width == width,
            final(self).height == height,
            final(self).data@ == layers_bytes(layers_view(layers@)),
            final(self).loaded,
    {
        let _ = context;
        self.width = width;
        self.height = height;
        self.data = flatten_layers(layers);
        self.loaded = true;
    }

    /// Overwrites the staged bytes of an already loaded texture; does
    /// nothing when the texture is not loaded.
    pub fn update(&mut self, context: &Context, width: u32, height: u32, layers: &[&[u8]])
        requires
            old(self).loaded ==> old(self).width == width && old(self).height == height,
        ensures
            if old(self).loaded {
                final(self).label == old(self).label && final(self).format == old(self).format
                    && final(self).used_as_storage == old(self).used_as_storage && final(self).writable == old(self).writable && final(self).width == old(self).width && final(self).height == old(self).height && final(self).data@ == layers_bytes(
                    layers_view(layers@),
                ) && final(self).loaded
            } else {
                *final(self) == *old(self)
            },
    {
        let _ = context;
        if self.loaded {
            self.data = flatten_layers(layers);
        }
    }

    /// Updates the texture when it is loaded, loads it otherwise.
    pub fn update_or_load(&mut self, context: &Context, width: u32, height: u32, layers: &[&[u8]])
        requires
            old(self).loaded ==> old(self).width == width && old(self).height == height,
        ensures
            final(self).label == old(self).label,
            final(self).format == old(self).format,
            final(self).used_as_storage == old(self).used_as_storage,
            final(self).writable == old(self).writable,
            final(self).width == if old(self).loaded {
                old(self).width
            } else {
                width
            },
            final(self).height == if old(self).loaded {
                old(self).height
            } else {
                height
            },
            final(self).data@ == layers_bytes(layers_view(layers@)),
            final(self).loaded,
    {
        if self.loaded {
            self.update(context, width, height, layers);
        } else {
            self.load(context, width, height, layers);
        }
    }

    /// Reads the staged bytes back.
    pub fn fetch_from_gpu(&self, dimensions: [u32; 3], context: &Context) -> (r: Vec<u8>)
        ensures
            r@ == self.data@,
    {
        let _ = context;
        let _ = dimensions;
        let mut r: Vec<u8> = Vec::new();
        r.extend_from_slice(self.data.as_slice());
        proof {
            assert(r@ =~= self.data@);
        }
        r
    }
}

/// A data buffer: the staged state of one buffer on the backend.
pub struct Buffer {
    /// Diagnostic label
    pub label: &'static str,
    /// The staged bytes
    pub data: Vec<u8>,
    /// Allocated size in bytes for a buffer created without data
    pub size: u32,
    /// Whether shaders may write to the buffer
    pub writable: bool,
    /// Whether the buffer is loaded on the backend
    pub loaded: bool,
}

impl Buffer {
    /// Creates an unloaded buffer with the given label.
    pub fn new(label: &'static str) -> (r: Self)
        ensures
            r.label == label,
            r.data@ == Seq::<u8>::empty(),
            r.size == 0,
            !r.writable,
            !r.loaded,
    {
        Buffer { label, data: Vec::new(), size: 0, writable: false, loaded: false }
    }

    /// Allows shaders to write to the buffer.
    pub fn allow_write(self) -> (r: Self)
        ensures
            r == (Buffer { writable: true, ..self }),
    {
        Buffer { writable: true, ..self }
    }

    /// True when shaders may write to the buffer.
    pub fn can_write(&self) -> (r: bool)
        ensures
            r == self.writable,
    {
        self.writable
    }

    /// True when the buffer is loaded on the backend.
    pub fn loaded(&self) -> (r: bool)
        ensures
            r == self.loaded,
    {
        self.loaded
    }

    /// Unloads the buffer from the backend.
    pub fn unload(&mut self)
        ensures
            *final(self) == (Buffer { loaded: false, ..*old(self) }),
    {
        self.loaded = false;
    }

    /// Stages `data` and loads the buffer on the backend.
    pub fn load(&mut self, context: &Context, data: &[u8])
        ensures
            final(self).label == old(self).label,
            final(self).data@ == data@,
            final(self).size == old(self).size,
            final(self).writable == old(self).writable,
            final(self).loaded,
    {
        let _ = context;
        let mut staged: Vec<u8> = Vec::new();
        staged.extend_from_slice(data);
        proof {
            assert(staged@ =~= data@);
        }
        self.data = staged;
        self.loaded = true;
    }

    /// Creates the buffer on the backend with the given size and no data.
    pub fn create(&mut self, context: &Context, size: u32, mapped: bool)
        ensures
            final(self).label == old(self).label,
            final(self).data@ == Seq::<u8>::empty(),
            final(self).size == size,
            final(self).writable == old(self).writable,
            final(self).loaded,
    {
        let _ = context;
        let _ = mapped;
        self.data = Vec::new();
        self.size = size;
        self.loaded = true;
    }
}

/// A texture sampler: loaded once and shared.
#[derive(Debug, Clone, Copy, Eq, PartialEq, Structural)]
pub struct Sampler {
    /// Whether the sampler is loaded on the backend
    pub loaded: bool,
}

impl Default for Sampler {
    /// An unloaded sampler.
    fn default() -> (r: Self)
        ensures
            r == (Sampler { loaded: false }),
    {
        Sampler { loaded: false }
    }
}

impl Sampler {
    /// Loads the sampler on the backend.
    pub fn load(&mut self, context: &Context)
        ensures
            final(self).loaded,
    {
        let _ = context;
        self.loaded = true;
    }
}

/// A compiled shader module: the staged state of one shader on the backend.
pub struct ShaderModule {
    /// The source the module was compiled from
    pub code: String,
    /// Whether the module is loaded on the backend
    pub loaded: bool,
}

impl ShaderModule {
    /// Creates an unloaded shader module.
    pub fn new() -> (r: Self)
        ensures
            r.code@ == Seq::<char>::empty(),
            !r.loaded,
    {
        ShaderModule { code: String::new(), loaded: false }
    }

    /// True when the module is loaded on the backend.
    pub fn loaded(&self) -> (r: bool)
        ensures
            r == self.loaded,
    {
        self.loaded
    }

    /// Compiles `code` into the module on the backend.
    pub fn load(&mut self, context: &Context, code: &str)
        ensures
            final(self).code@ == code@,
            final(self).loaded,
    {
        let _ = context;
        self.code = code.to_owned();
        self.loaded = true;
    }
}

/// A typed handle to a stored asset, with no inherent structure beyond
/// equality; the null handle (id zero) refers to no asset.
#[derive(Debug)]
pub struct Id<T> {
    /// The numeric handle
    pub id: u64,
    /// The asset type the handle refers to
    pub of: core::marker::PhantomData<T>,
}

impl<T> Clone for Id<T> {
    /// A handle copies as its number.
    fn clone(&self) -> (r: Self)
        ensures
            r == *self,
    {
        Id { id: self.id, of: core::marker::PhantomData }
    }
}

impl<T> Copy for Id<T> {

}

impl<T> Id<T> {
    /// Wraps a numeric handle.
    pub fn new(id: u64) -> (r: Self)
        ensures
            r.id == id,
    {
        Id { id, of: core::marker::PhantomData }
    }

    /// True for the handle that refers to no asset.
    pub fn is_null(&self) -> (r: bool)
        ensures
            r == (self.id == 0),
    {
        self.id == 0
    }
}

/// Errors generated during binding/drawing/computing.
#[derive(Debug)]
pub enum RendererError<T> {
    /// When an asset returns a null id at draw/compute time
    AssetNotReady(Id<T>),
    /// When the draw/compute call fails due to the pipeline not being ready
    PipelineNotReady,
    /// When the draw/compute call fails due to the shader not being ready
    ShaderNotReady,
}

/// Access to the GPU buffer staged for a value.
pub trait BufferProvider {
    /// The staged GPU buffer.
    spec fn spec_buffer(&self) -> Buffer;

    /// A reference to the staged GPU buffer.
    fn get_buffer(&self) -> (r: &Buffer)
        ensures
            *r == self.spec_buffer(),
    ;
}

/// Access to the GPU texture staged for a value.
pub trait TextureProvider {
    /// The staged GPU texture.
    spec fn spec_texture(&self) -> Texture;

    /// A reference to the staged GPU texture.
    fn get_texture(&self) -> (r: &Texture)
        ensures
            *r == self.spec_texture(),
    ;
}

/// Access to the GPU vertex buffer staged for a mesh value.
pub trait MeshProvider {
    /// The staged GPU vertex buffer.
    spec fn spec_vertex_buffer(&self) -> Buffer;

    /// A reference to the staged GPU vertex buffer.
    fn get_vertex_buffer(&self) -> (r: &Buffer)
        ensures
            *r == self.spec_vertex_buffer(),
    ;
}

/// Collection of traits that a GPU buffer needs.
pub trait GpuBuffer: crate::reloadable::Reloadable + BufferProvider {

}

impl<T: crate::reloadable::Reloadable + BufferProvider> GpuBuffer for T {

}

/// Collection of traits that a GPU texture needs.
pub trait GpuTexture: crate::reloadable::Reloadable + TextureProvider {

}

impl<T: crate::reloadable::Reloadable + TextureProvider> GpuTexture for T {

}

/// Collection of traits that a GPU mesh needs.
pub trait GpuMesh: crate::reloadable::Reloadable + MeshProvider {

}

impl<T: crate::reloadable::Reloadable + MeshProvider> GpuMesh for T {

}

/// Service providing an interface to the rendering backend.
pub struct Renderer {
    /// Surface clear color
    pub clear_color: Color,
    /// Auto-incrementing rendering cycle
    pub cycle: usize,
    /// Antialiasing
    pub antialiasing: Antialiasing,
    /// Low-level rendering context
    pub context: Option<Context>,
    /// When dirty, the renderer reloads missing shaders on frame binding
    pub dirty: bool,
}

impl Default for Renderer {
    /// Constructs a new instance of the service: first cycle, dirty, with
    /// antialiasing enabled and no context yet.
    fn default() -> (r: Self)
        ensures
            r == (Renderer {
                clear_color: Color { r: 25, g: 51, b: 76, a: 255 },
                cycle: 1,
                antialiasing: Antialiasing::Enabled,
                context: None,
                dirty: true,
            }),
    {
        Renderer {
            clear_color: Color { r: 25, g: 51, b: 76, a: 255 },
            cycle: 1,
            antialiasing: Antialiasing::Enabled,
            context: None,
            dirty: true,
        }
    }
}

impl Renderer {
    /// The initialized rendering context.  Startup must have installed one
    /// before any frame work is requested.
    fn context(&self) -> (r: &Context)
        requires
            self.context is Some,
        ensures
            Some(*r) == self.context,
    {
        self.context.as_ref().unwrap()
    }

    /// Sets the default clear color.
    pub fn set_clear_color(&mut self, color: Color)
        ensures
            *final(self) == (Renderer { clear_color: color, ..*old(self) }),
    {
        self.clear_color = color;
    }

    /// Returns the rendering cycle number.
    pub fn cycle(&self) -> (r: usize)
        ensures
            r == self.cycle,
    {
        self.cycle
    }

    /// Loads the texture buffer to the GPU.  This recreates the texture, so
    /// it must be rebound on any pipeline for changes to take effect.
    pub fn load_texture(&self, texture: &mut Texture, width: u32, height: u32, layers: &[&[u8]])
        requires
            self.context is Some,
        ensures
            final(texture).label == old(texture).label,
            final(texture).format == old(texture).format,
            final(texture).used_as_storage == old(texture).used_as_storage,
            final(texture).writable == old(texture).writable,
            final(texture).width == width,
            final(texture).height == height,
            final(texture).data@ == layers_bytes(layers_view(layers@)),
            final(texture).loaded,
    {
        texture.load(self.context(), width, height, layers);
    }

    /// Loads data from the CPU to a texture buffer on the GPU; a no-op if
    /// the texture has not been loaded with [`Renderer::load_texture`].
    /// The dimensions must not differ from the dimensions at load time.
    pub fn update_texture(&self, texture: &mut Texture, width: u32, height: u32, layers: &[&[u8]])
        requires
            self.context is Some,
            old(texture).loaded ==> old(texture).width == width && old(texture).height == height,
        ensures
            if old(texture).loaded {
                final(texture).label == old(texture).label && final(texture).format == old(
                    texture,
                ).format && final(texture).used_as_storage == old(texture).used_as_storage
                    && final(texture).writable == old(texture).writable && final(texture).width
                    == old(texture).width && final(texture).height == old(texture).height && final(texture).data@ == layers_bytes(layers_view(layers@)) && final(texture).loaded
            } else {
                *final(texture) == *old(texture)
            },
    {
        texture.update(self.context(), width, height, layers);
    }

    /// Updates the texture if it has been loaded, loads it otherwise; the
    /// same dimension caveats as for [`Renderer::update_texture`] apply.
    pub fn update_or_load_texture(
        &self,
        texture: &mut Texture,
        width: u32,
        height: u32,
        layers: &[&[u8]],
    )
        requires
            self.context is Some,
            old(texture).loaded ==> old(texture).width == width && old(texture).height == height,
        ensures
            final(texture).label == old(texture).label,
            final(texture).format == old(texture).format,
            final(texture).used_as_storage == old(texture).used_as_storage,
            final(texture).writable == old(texture).writable,
            final(texture).width == if old(texture).loaded {
                old(texture).width
            } else {
                width
            },
            final(texture).height == if old(texture).loaded {
                old(texture).height
            } else {
                height
            },
            final(texture).data@ == layers_bytes(layers_view(layers@)),
            final(texture).loaded,
    {
        texture.update_or_load(self.context(), width, height, layers);
    }

    /// Loads the buffer to the GPU.
    pub fn load_buffer(&self, buffer: &mut Buffer, data: &[u8])
        requires
            self.context is Some,
        ensures
            final(buffer).label == old(buffer).label,
            final(buffer).data@ == data@,
            final(buffer).size == old(buffer).size,
            final(buffer).writable == old(buffer).writable,
            final(buffer).loaded,
    {
        buffer.load(self.context(), data);
    }

    /// Creates a buffer on the GPU without data.
    pub fn create_buffer(&self, buffer: &mut Buffer, size: u32, mapped: bool)
        requires
            self.context is Some,
        ensures
            final(buffer).label == old(buffer).label,
            final(buffer).data@ == Seq::<u8>::empty(),
            final(buffer).size == size,
            final(buffer).writable == old(buffer).writable,
            final(buffer).loaded,
    {
        buffer.create(self.context(), size, mapped);
    }

    /// Loads the sampler to the GPU.
    pub fn load_sampler(&self, sampler: &mut Sampler)
        requires
            self.context is Some,
        ensures
            final(sampler).loaded,
    {
        sampler.load(self.context());
    }

    /// Loads the shader module to the GPU.
    pub fn load_shader(&self, shader_module: &mut ShaderModule, code: &str)
        requires
            self.context is Some,
        ensures
            final(shader_module).code@ == code@,
            final(shader_module).loaded,
    {
        shader_module.load(self.context(), code);
    }

    /// Copies a texture to a buffer.  The backend performs the copy in
    /// place; here the buffer is handed over mutably so the staged state
    /// reflects it.
    pub fn copy_texture_to_buffer(
        &mut self,
        texture: &Texture,
        buffer: &mut Buffer,
        extent: [u32; 3],
        bytes_per_pixel: u32,
    )
        requires
            old(self).context is Some,
        ensures
            *final(self) == *old(self),
            final(buffer).label == old(buffer).label,
            final(buffer).size == old(buffer).size,
            final(buffer).writable == old(buffer).writable,
            final(buffer).data@ == texture.data@,
            final(buffer).loaded,
    {
        let _ = extent;
        let _ = bytes_per_pixel;
        let mut staged: Vec<u8> = Vec::new();
        staged.extend_from_slice(texture.data.as_slice());
        proof {
            assert(staged@ =~= texture.data@);
        }
        buffer.data = staged;
        buffer.loaded = true;
    }

    /// Fetches a texture's staged bytes back from the GPU.
    pub fn fetch_texture(&mut self, texture: &Texture, dimensions: [u32; 3]) -> (r: Vec<u8>)
        requires
            old(self).context is Some,
        ensures
            *final(self) == *old(self),
            r@ == texture.data@,
    {
        texture.fetch_from_gpu(dimensions, self.context())
    }

    /// Forces the engine to reload shaders.
    pub fn reload(&mut self)
        ensures
            *final(self) == (Renderer { dirty: true, ..*old(self) }),
    {
        self.dirty = true;
    }
}

/// Frame binding system: prepares the frame and, when the renderer is dirty
/// or the surface was reconfigured, loads every shader of the asset store
/// and clears the dirty flag.
pub fn bind(renderer: &mut Renderer, assets: &mut Assets)
    requires
        old(renderer).context is Some,
    ensures
        final(renderer).clear_color == old(renderer).clear_color,
        final(renderer).cycle == old(renderer).cycle,
        final(renderer).antialiasing == old(renderer).antialiasing,
        final(renderer).context == Some(
            Context {
                sample_count: old(renderer).antialiasing.spec_sample_count(),
                ..old(renderer).context.unwrap()
            },
        ),
        if old(renderer).dirty || old(renderer).context.unwrap().sample_count != old(
            renderer,
        ).antialiasing.spec_sample_count() {
            !final(renderer).dirty && final(assets).shaders@.len() == old(assets).shaders@.len()
                && forall|i: int|
                0 <= i < final(assets).shaders@.len() ==> (#[trigger] final(assets).shaders@[i]).name@ == old(assets).shaders@[i].name@ && final(assets).shaders@[i].code@ == old(assets).shaders@[i].code@ && final(assets).shaders@[i].module.loaded && final(assets).shaders@[i].module.code@ == old(assets).shaders@[i].code@
        } else {
            final(renderer).dirty == old(renderer).dirty && final(assets).shaders@ == old(
                assets,
            ).shaders@
        },
{
    let clear_color = renderer.clear_color;
    let sample_count = renderer.antialiasing.sample_count();

    let mut context = renderer.context.take().unwrap();
    let reload_request = context.bind_frame(&clear_color, sample_count);
    renderer.context = Some(context);

    if !renderer.dirty && !reload_request {
        return ;
    }

    let n = assets.shaders.len();
    let mut i: usize = 0;
    while i < n
        invariant
            n == assets.shaders@.len(),
            0 <= i <= n,
            renderer.context is Some,
            forall|j: int|
                0 <= j < n ==> (#[trigger] assets.shaders@[j]).name@ == old(
                    assets,
                ).shaders@[j].name@ && assets.shaders@[j].code@ == old(assets).shaders@[j].code@,
            forall|j: int|
                0 <= j < i ==> (#[trigger] assets.shaders@[j]).module.loaded
                    && assets.shaders@[j].module.code@ == old(assets).shaders@[j].code@,
        decreases n - i,
    {
        let mut shader = assets.shaders.remove(i);
        shader.load(renderer);
        assets.shaders.insert(i, shader);
        proof {
            assert(forall|j: int|
                0 <= j < n && j != i ==> assets.shaders@[j] == old(assets).shaders@[j] || (
                #[trigger] assets.shaders@[j]) == assets.shaders@[j]);
        }
        i = i + 1;
    }
    renderer.dirty = false;
}

/// Frame release system: finishes the frame and advances the rendering
/// cycle, which stays positive and restarts at one when the counter space
/// is exhausted.
pub fn release(renderer: &mut Renderer)
    requires
        old(renderer).context is Some,
    ensures
        final(renderer).cycle == if old(renderer).cycle == usize::MAX {
            1int
        } else {
            old(renderer).cycle + 1
        },
        final(renderer).cycle >= 1,
        final(renderer).clear_color == old(renderer).clear_color,
        final(renderer).antialiasing == old(renderer).antialiasing,
        final(renderer).context == old(renderer).context,
        final(renderer).dirty == old(renderer).dirty,
{
    let mut context = renderer.context.take().unwrap();
    context.release_frame();
    renderer.context = Some(context);
    if renderer.cycle == usize::MAX {
        renderer.cycle = 1;
    } else {
        renderer.cycle = renderer.cycle + 1;
    }
}

/// Resize handling system: reconfigures the surface to the window's new
/// inner size.
pub fn resize(renderer: &mut Renderer, width: u32, height: u32)
    requires
        old(renderer).context is Some,
    ensures
        final(renderer).context == Some(
            Context { width, height, ..old(renderer).context.unwrap() },
        ),
        final(renderer).clear_color == old(renderer).clear_color,
        final(renderer).cycle == old(renderer).cycle,
        final(renderer).antialiasing == old(renderer).antialiasing,
        final(renderer).dirty == old(renderer).dirty,
{
    let mut context = renderer.context.take().unwrap();
    context.resize(width, height);
    renderer.context = Some(context);
}

} // verus!
