//! Tests for the renderer bookkeeping, the reload tracking, the asset
//! layer and the voxel depth service.

use dotrix::assets::{Assets, Buffer, Shader, Texture};
use dotrix::reloadable::{ReloadKind, ReloadState, Reloadable};
use dotrix::renderer::{bind, release, resize};
use dotrix::renderer::{Antialiasing, Color, Context, Renderer};
use dotrix::voxel::SdfDepth;

fn renderer_with_context() -> Renderer {
    let mut renderer = Renderer::default();
    renderer.context = Some(Context { sample_count: 4, width: 800, height: 600 });
    renderer
}

#[test]
fn antialiasing_sample_count() {
    assert_eq!(Antialiasing::Enabled.sample_count(), 4);
    assert_eq!(Antialiasing::Disabled.sample_count(), 1);
    assert_eq!(Antialiasing::MSAA { sample_count: 8 }.sample_count(), 8);
}

#[test]
fn renderer_cycle_and_clear_color() {
    let mut renderer = renderer_with_context();
    assert_eq!(renderer.cycle(), 1);
    renderer.set_clear_color(Color::rgba(1, 2, 3, 4));
    assert_eq!(renderer.clear_color, Color { r: 1, g: 2, b: 3, a: 4 });

    release(&mut renderer);
    assert_eq!(renderer.cycle(), 2);

    renderer.cycle = usize::MAX;
    release(&mut renderer);
    assert_eq!(renderer.cycle(), 1);
}

#[test]
fn renderer_reload_marks_dirty() {
    let mut renderer = renderer_with_context();
    renderer.dirty = false;
    renderer.reload();
    assert!(renderer.dirty);
}

#[test]
fn resize_reconfigures_surface() {
    let mut renderer = renderer_with_context();
    resize(&mut renderer, 1024, 768);
    let context = renderer.context.unwrap();
    assert_eq!(context.width, 1024);
    assert_eq!(context.height, 768);
}

/// Binding a dirty frame loads every stored shader and clears the flag.
#[test]
fn bind_loads_shaders() {
    let mut renderer = renderer_with_context();
    let mut assets = Assets::new();
    assets.store_shader(Shader::new(String::from("one"), String::from("code one")));
    assets.store_shader(Shader::new(String::from("two"), String::from("code two")));
    assert!(!assets.shaders[0].loaded());

    assert!(renderer.dirty);
    bind(&mut renderer, &mut assets);
    assert!(!renderer.dirty);
    assert!(assets.shaders[0].loaded());
    assert!(assets.shaders[1].loaded());

    // A clean frame with an unchanged surface touches nothing.
    assets.store_shader(Shader::new(String::from("three"), String::from("code three")));
    bind(&mut renderer, &mut assets);
    assert!(!assets.shaders[2].loaded());
}

#[test]
fn reload_state_changes_since() {
    let state = ReloadState {
        last_update_cycle: 5,
        last_reload_cycle: 3,
        requires_update: false,
        requires_reload: false,
    };
    let texture = Texture { reload_state: state, ..Texture::default() };
    assert_eq!(texture.changes_since(6), ReloadKind::NoChange);
    assert_eq!(texture.changes_since(5), ReloadKind::Update);
    assert_eq!(texture.changes_since(4), ReloadKind::Update);
    assert_eq!(texture.changes_since(3), ReloadKind::Reload);
    assert_eq!(texture.changes_since(0), ReloadKind::Reload);
}

/// The per-frame bookkeeping folds pending flags into the cycle counters.
#[test]
fn reload_state_cycle_folds_flags() {
    let renderer = {
        let mut r = renderer_with_context();
        r.cycle = 9;
        r
    };
    let mut texture = Texture::default();
    texture.flag_updated();
    texture.cycle(&renderer);
    assert_eq!(texture.reload_state.last_update_cycle, 9);
    assert!(!texture.reload_state.requires_update);
    assert_eq!(texture.reload_state.last_reload_cycle, 0);

    texture.flag_reload();
    texture.cycle(&renderer);
    assert_eq!(texture.reload_state.last_reload_cycle, 9);
    assert!(!texture.reload_state.requires_reload);
}

/// Preparing with the same dimensions flags an update; changing them
/// unloads the texture for a rebind.
#[test]
fn texture_prepare_flags() {
    let renderer = renderer_with_context();
    let mut texture = Texture::default();
    texture.prepare([2, 2], vec![7; 16]);
    assert!(texture.reload_state.requires_reload);
    texture.load(&renderer);
    assert!(texture.texture.loaded);

    let mut texture2 = Texture {
        width: 2,
        height: 2,
        data: vec![0; 16],
        ..Texture::default()
    };
    texture2.prepare([2, 2], vec![9; 16]);
    assert!(texture2.reload_state.requires_update);
    assert!(!texture2.reload_state.requires_reload);
}

/// What was staged through a load is exactly what a fetch reads back.
#[test]
fn texture_load_fetch_round_trip() {
    let mut renderer = renderer_with_context();
    let mut texture = Texture::default();
    texture.prepare([2, 1], vec![1, 2, 3, 4, 5, 6, 7, 8]);
    texture.load(&renderer);
    let bytes = texture.fetch_from_gpu(&mut renderer);
    assert_eq!(bytes, vec![1, 2, 3, 4, 5, 6, 7, 8]);
}

/// Updating an unloaded texture is a no-op; updating a loaded one replaces
/// the staged bytes in place.
#[test]
fn update_texture_branches() {
    let renderer = renderer_with_context();
    let mut handle = dotrix::renderer::Texture::new("scratch");
    renderer.update_texture(&mut handle, 2, 1, &[&[9, 9]]);
    assert!(!handle.loaded);
    assert!(handle.data.is_empty());

    renderer.load_texture(&mut handle, 2, 1, &[&[1, 2]]);
    assert!(handle.loaded);
    renderer.update_or_load_texture(&mut handle, 2, 1, &[&[3, 4]]);
    assert_eq!(handle.data, vec![3, 4]);

    let mut copy = dotrix::renderer::Buffer::new("copy");
    let mut renderer = renderer;
    renderer.copy_texture_to_buffer(&handle, &mut copy, [2, 1, 1], 1);
    assert_eq!(copy.data, vec![3, 4]);
    assert_eq!(renderer.fetch_texture(&handle, [2, 1, 1]), vec![3, 4]);
}

#[test]
fn buffer_load_and_unload() {
    let renderer = renderer_with_context();
    let mut buffer = Buffer::default();
    buffer.data = vec![1, 2, 3];
    buffer.load(&renderer);
    assert!(buffer.buffer.loaded);
    assert_eq!(buffer.buffer.data, vec![1, 2, 3]);

    buffer.unload();
    assert!(!buffer.buffer.loaded);
    assert!(buffer.reload_state.requires_reload);
}

/// Resizing the depth service reloads its buffers with the no-hit clear
/// pattern; an unchanged size is a no-op.
#[test]
fn sdf_depth_load_reinitializes() {
    let renderer = renderer_with_context();
    let mut depth = SdfDepth::default();
    assert_eq!(depth.max_iteration, 128);

    let reload = depth.load(&renderer, [2, 1]);
    assert!(reload);
    assert!(depth.ping_buffer.loaded);
    assert_eq!(depth.ping_buffer.data.len(), 16);
    assert_eq!(
        &depth.ping_buffer.data[0..8],
        &[255, 255, 127, 127, 0, 0, 128, 191]
    );
    assert_eq!(depth.pong_buffer.data, depth.ping_buffer.data);
    assert_eq!(depth.depth_buffer.data, depth.ping_buffer.data);
    assert_eq!(depth.normal_buffer.data, vec![0; 32]);

    let reload = depth.load(&renderer, [2, 1]);
    assert!(!reload);
}
