//! Voxel signed-distance-field rendering: the global state of the depth
//! trace pass, sized to the working buffer and re-initialized whenever that
//! size changes.

use vstd::prelude::*;

use crate::renderer::{Renderer, Texture as TextureBuffer, TextureFormat};

verus! {

/// The bytes one texel of the depth buffers starts from: the largest finite
/// 32-bit value paired with minus one, both in little-endian 32-bit
/// encoding, meaning "no hit yet".
pub open spec fn depth_clear_texel() -> Seq<u8> {
    seq![255u8, 255u8, 127u8, 127u8, 0u8, 0u8, 128u8, 191u8]
}

/// `data` is `count` repetitions of the depth clear texel.
pub open spec fn is_depth_clear(data: Seq<u8>, count: int) -> bool {
    data.len() == 8 * count && forall|k: int|
        0 <= k < count ==> #[trigger] data.subrange(8 * k, 8 * k + 8) == depth_clear_texel()
}

/// `data` is `count` all-zero texels of `width` bytes each.
pub open spec fn is_zero_fill(data: Seq<u8>, count: int, width: int) -> bool {
    data.len() == width * count && forall|i: int| 0 <= i < data.len() ==> #[trigger] data[i] == 0
}

/// Builds `count` repetitions of the depth clear texel.
fn depth_clear_data(count: usize) -> (r: Vec<u8>)
    requires
        8 * count <= usize::MAX,
    ensures
        is_depth_clear(r@, count as int),
{
    let mut data: Vec<u8> = Vec::new();
    let mut k: usize = 0;
    while k < count
        invariant
            0 <= k <= count,
            8 * count <= usize::MAX,
            data@.len() == 8 * k,
            forall|j: int|
                0 <= j < k ==> #[trigger] data@.subrange(8 * j, 8 * j + 8) == depth_clear_texel(),
        decreases count - k,
    {
        let ghost pre = data@;
        data.push(255);
        data.push(255);
        data.push(127);
        data.push(127);
        data.push(0);
        data.push(0);
        data.push(128);
        data.push(191);
        proof {
            assert forall|j: int|
                0 <= j < k + 1 implies #[trigger] data@.subrange(8 * j, 8 * j + 8)
                == depth_clear_texel() by {
                if j < k {
                    assert(data@.subrange(8 * j, 8 * j + 8) =~= pre.subrange(8 * j, 8 * j + 8));
                } else {
                    assert(data@.subrange(8 * j, 8 * j + 8) =~= depth_clear_texel());
                }
            }
        }
        k = k + 1;
    }
    data
}

/// Builds `count` all-zero texels of `width` bytes each.
fn zero_fill_data(count: usize, width: usize) -> (r: Vec<u8>)
    requires
        width * count <= usize::MAX,
    ensures
        is_zero_fill(r@, count as int, width as int),
{
    let mut data: Vec<u8> = Vec::new();
    let mut k: usize = 0;
    while k < count
        invariant
            0 <= k <= count,
            width * count <= usize::MAX,
            data@.len() == width * k,
            forall|i: int| 0 <= i < data@.len() ==> #[trigger] data@[i] == 0,
        decreases count - k,
    {
        let mut j: usize = 0;
        while j < width
            invariant
                0 <= j <= width,
                0 <= k < count,
                width * count <= usize::MAX,
                data@.len() == width * k + j,
                forall|i: int| 0 <= i < data@.len() ==> #[trigger] data@[i] == 0,
            decreases width - j,
        {
            proof {
                assert(width * k + width <= width * count) by (nonlinear_arith)
                    requires
                        k < count,
                        0 <= width,
                ;
            }
            data.push(0);
            j = j + 1;
        }
        proof {
            assert(width * (k + 1) == width * k + width) by (nonlinear_arith);
        }
        k = k + 1;
    }
    data
}

/// Global data for depth calculations: ping/pong trace buffers, the final
/// depth and normal textures, and the iteration bound of the trace.
pub struct SdfDepth {
    /// The size of the working buffers
    pub buffer_size: [u32; 2],
    /// The ping buffer
    pub ping_buffer: TextureBuffer,
    /// The pong buffer
    pub pong_buffer: TextureBuffer,
    /// Final depth texture
    pub depth_buffer: TextureBuffer,
    /// Final normals
    pub normal_buffer: TextureBuffer,
    /// Upper bound on trace iterations
    pub max_iteration: u32,
}

impl Default for SdfDepth {
    /// Unloaded writable storage textures, two-channel for the depth
    /// buffers and four-channel for the normals, with the default iteration
    /// bound.
    fn default() -> (r: Self)
        ensures
            r.buffer_size@ == seq![0u32, 0u32],
            !r.ping_buffer.loaded && r.ping_buffer.format == TextureFormat::Rg32,
            !r.pong_buffer.loaded && r.pong_buffer.format == TextureFormat::Rg32,
            !r.depth_buffer.loaded && r.depth_buffer.format == TextureFormat::Rg32,
            !r.normal_buffer.loaded && r.normal_buffer.format == TextureFormat::Rgba32,
            r.ping_buffer.used_as_storage && r.ping_buffer.writable,
            r.pong_buffer.used_as_storage && r.pong_buffer.writable,
            r.depth_buffer.used_as_storage && r.depth_buffer.writable,
            r.normal_buffer.used_as_storage && r.normal_buffer.writable,
            r.max_iteration == 128,
    {
        let mut ping_buffer = TextureBuffer::new("SdfDepthPing").use_as_storage().allow_write();
        ping_buffer.format = TextureFormat::Rg32;
        let mut pong_buffer = TextureBuffer::new("SdfDepthPong").use_as_storage().allow_write();
        pong_buffer.format = TextureFormat::Rg32;
        let mut depth_buffer = TextureBuffer::new("SdfDepth").use_as_storage().allow_write();
        depth_buffer.format = TextureFormat::Rg32;
        let mut normal_buffer = TextureBuffer::new("SdfNormals").use_as_storage().allow_write();
        normal_buffer.format = TextureFormat::Rgba32;
        proof {
            assert(seq![0u32, 0u32] =~= [0u32, 0u32]@);
        }
        SdfDepth {
            buffer_size: [0, 0],
            ping_buffer,
            pong_buffer,
            depth_buffer,
            normal_buffer,
            max_iteration: 128,
        }
    }
}

impl SdfDepth {
    /// Resizes and re-initializes the working buffers exactly when the
    /// requested size differs from the current one: the three depth buffers
    /// are cleared to the no-hit texel and the normal buffer to zero.
    /// Returns whether such a reload happened.
    pub fn load(&mut self, renderer: &Renderer, buffer_size: [u32; 2]) -> (reload: bool)
        requires
            renderer.context is Some,
            16 * (buffer_size@[0] as int) * (buffer_size@[1] as int) <= usize::MAX,
        ensures
            reload == (buffer_size@[0] != old(self).buffer_size@[0] || buffer_size@[1] != old(self).buffer_size@[1]),
            if reload {
                final(self).buffer_size@ == buffer_size@ && final(self).ping_buffer.loaded
                    && final(self).pong_buffer.loaded && final(self).depth_buffer.loaded && final(self).normal_buffer.loaded && is_depth_clear(
                    final(self).ping_buffer.data@,
                    buffer_size@[0] as int * buffer_size@[1] as int,
                ) && is_depth_clear(
                    final(self).pong_buffer.data@,
                    buffer_size@[0] as int * buffer_size@[1] as int,
                ) && is_depth_clear(
                    final(self).depth_buffer.data@,
                    buffer_size@[0] as int * buffer_size@[1] as int,
                ) && is_zero_fill(
                    final(self).normal_buffer.data@,
                    buffer_size@[0] as int * buffer_size@[1] as int,
                    16,
                ) && final(self).max_iteration == old(self).max_iteration
            } else {
                *final(self) == *old(self)
            },
    {
        let reload = buffer_size[0] != self.buffer_size[0] || buffer_size[1] != self.buffer_size[1];
        if reload {
            self.ping_buffer.unload();
            self.pong_buffer.unload();
            self.depth_buffer.unload();
            self.normal_buffer.unload();
            self.buffer_size = buffer_size;

            let ghost w = buffer_size@[0] as int;
            let ghost h = buffer_size@[1] as int;
            proof {
                assert(w * h <= 16 * w * h && 8 * (w * h) <= 16 * w * h && 16 * (w * h) == 16 * w
                    * h) by (nonlinear_arith)
                    requires
                        w >= 0,
                        h >= 0,
                ;
            }
            let count = (buffer_size[0] as usize) * (buffer_size[1] as usize);
            let data = depth_clear_data(count);
            let layers: [&[u8]; 1] = [data.as_slice()];
            renderer.update_or_load_texture(
                &mut self.ping_buffer,
                buffer_size[0],
                buffer_size[1],
                layers.as_slice(),
            );
            renderer.update_or_load_texture(
                &mut self.pong_buffer,
                buffer_size[0],
                buffer_size[1],
                layers.as_slice(),
            );
            renderer.update_or_load_texture(
                &mut self.depth_buffer,
                buffer_size[0],
                buffer_size[1],
                layers.as_slice(),
            );
            proof {
                assert(crate::renderer::layers_view(layers@) =~= seq![data@]);
                seq![data@].lemma_flat_map_singleton(|l: Seq<u8>| l);
            }
            let normals = zero_fill_data(count, 16);
            let normal_layers: [&[u8]; 1] = [normals.as_slice()];
            renderer.update_or_load_texture(
                &mut self.normal_buffer,
                buffer_size[0],
                buffer_size[1],
                normal_layers.as_slice(),
            );
            proof {
                assert(crate::renderer::layers_view(normal_layers@) =~= seq![normals@]);
                seq![normals@].lemma_flat_map_singleton(|l: Seq<u8>| l);
                assert(final(self).buffer_size@ =~= buffer_size@);
            }
        }
        reload
    }
}

} // verus!
