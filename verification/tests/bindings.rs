//! Tests for binding resolution and pipeline state.

use dotrix::assets::{Assets, Buffer, Shader, Texture};
use dotrix::bindings::{Access, ConcreteBinding, MaybeBinding, MaybeBindGroup, Stage};
use dotrix::pipelines::{DepthBufferMode, Pipeline, PipelineLayout, RenderOptions};
use dotrix::renderer::{BufferProvider, Context, Id, Renderer, RendererError};

fn renderer_with_context() -> Renderer {
    let mut renderer = Renderer::default();
    renderer.context = Some(Context { sample_count: 4, width: 800, height: 600 });
    renderer
}

#[test]
fn binding_resolves_stored_assets() {
    let mut assets = Assets::new();
    let mut buffer = Buffer::default();
    buffer.data = vec![1, 2, 3];
    let buffer_id = assets.store_buffer(buffer);
    let texture_id = assets.store_texture(Texture::default());

    let binding = MaybeBinding::Uniform("camera", Stage::Vertex, buffer_id);
    match binding.make_concrete::<Buffer>(&assets) {
        Ok(ConcreteBinding::Uniform(label, stage, buffer)) => {
            assert_eq!(label, "camera");
            assert_eq!(stage, Stage::Vertex);
            assert_eq!(buffer.data, vec![1, 2, 3]);
        }
        _ => panic!("expected the uniform binding to resolve"),
    }

    let binding = MaybeBinding::StorageTexture(
        "target",
        Stage::Compute,
        texture_id,
        Access::WriteOnly,
    );
    assert!(binding.make_concrete::<Buffer>(&assets).is_ok());
}

/// An unknown handle reports exactly which asset is not ready.
#[test]
fn binding_reports_missing_asset() {
    let assets = Assets::new();
    let binding = MaybeBinding::Texture("missing", Stage::Fragment, Id::<Texture>::new(5));
    match binding.make_concrete::<Texture>(&assets) {
        Err(RendererError::AssetNotReady(id)) => assert_eq!(id.id, 5),
        _ => panic!("expected the missing texture to be reported"),
    }

    // The null handle never resolves.
    let binding = MaybeBinding::Uniform("null", Stage::Vertex, Id::<Buffer>::new(0));
    assert!(binding.make_concrete::<Buffer>(&assets).is_err());
}

#[test]
fn bind_group_resolves_all_or_fails() {
    let mut assets = Assets::new();
    let buffer_id = assets.store_buffer(Buffer::default());

    let group = MaybeBindGroup {
        label: "globals",
        bindings: vec![
            MaybeBinding::Uniform("camera", Stage::All, buffer_id),
            MaybeBinding::Storage("lights", Stage::Fragment, buffer_id),
        ],
    };
    let concrete = group.make_concrete::<Buffer>(&assets).ok().unwrap();
    assert_eq!(concrete.label, "globals");
    assert_eq!(concrete.bindings.len(), 2);

    let group = MaybeBindGroup {
        label: "broken",
        bindings: vec![
            MaybeBinding::Uniform("camera", Stage::All, buffer_id),
            MaybeBinding::Uniform("gone", Stage::All, Id::<Buffer>::new(9)),
        ],
    };
    assert!(group.make_concrete::<Buffer>(&assets).is_err());
}

/// A pipeline is ready once it has an instance and loaded bindings, and
/// asks to run once per renderer cycle while enabled.
#[test]
fn pipeline_cycle_and_ready() {
    let mut renderer = renderer_with_context();
    let mut pipeline = Pipeline::default();
    assert!(!pipeline.ready());
    assert!(pipeline.cycle(&renderer));

    pipeline.cycle = renderer.cycle();
    assert!(!pipeline.cycle(&renderer));
    dotrix::renderer::release(&mut renderer);
    assert!(pipeline.cycle(&renderer));

    pipeline.disabled = true;
    assert!(!pipeline.cycle(&renderer));
}

#[test]
fn pipeline_layout_builds_matching_instance() {
    let mut shader = Shader::new(String::from("flat"), String::from("code"));
    let renderer = renderer_with_context();
    shader.load(&renderer);

    let options = RenderOptions {
        depth_buffer_mode: DepthBufferMode::ReadOnly,
        ..RenderOptions::default()
    };
    let layout = PipelineLayout::Render {
        label: String::from("flat"),
        shader: &shader,
        bindings: &[],
        options,
    };
    let context = renderer.context.unwrap();
    let instance = layout.instance(&context);
    let render = instance.render();
    assert_eq!(render.depth_buffer_mode, DepthBufferMode::ReadOnly);
    assert_eq!(render.group_count, 0);

    let mut pipeline = Pipeline::default();
    pipeline.instance = Some(instance);
    pipeline.bindings.load(&context, &[]);
    // No bind groups were described, so the pipeline is still not ready.
    assert!(!pipeline.ready());
}

/// Binding a pipeline builds the instance once and reloads the bind groups.
#[test]
fn renderer_bind_builds_instance() {
    let mut renderer = renderer_with_context();
    let mut shader = Shader::new(String::from("lit"), String::from("code"));
    shader.load(&renderer);

    let mut assets = Assets::new();
    let buffer_id = assets.store_buffer(Buffer::default());
    let group = MaybeBindGroup {
        label: "globals",
        bindings: vec![MaybeBinding::Uniform("camera", Stage::All, buffer_id)],
    };
    let concrete = group.make_concrete::<Buffer>(&assets).ok().unwrap();
    let groups = [concrete];

    let mut pipeline = Pipeline::default();
    let layout = PipelineLayout::Render {
        label: String::from("lit"),
        shader: &shader,
        bindings: &groups,
        options: RenderOptions::default(),
    };
    renderer.bind(&mut pipeline, layout);
    assert!(pipeline.ready());
    assert_eq!(pipeline.bindings.group_count, 1);
    assert_eq!(pipeline.instance.unwrap().render().group_count, 1);

    // The asset providers expose the staged state the bindings point at.
    assert!(!assets.buffers[0].get_buffer().loaded);
}

#[test]
fn render_options_defaults() {
    let options = RenderOptions::default();
    assert_eq!(options.depth_buffer_mode, DepthBufferMode::ReadWrite);
    assert!(!options.disable_cull_mode);
    assert_eq!(options.vs_main, "vs_main");
    assert_eq!(options.fs_main, "fs_main");
}
