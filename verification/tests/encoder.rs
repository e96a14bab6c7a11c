use hal_core::adapter::{Features, Limits};
use hal_core::device::{Device, PollMode};
use hal_core::encoder::{ColorAttachment, EncoderState, RenderPassDescriptor};
use hal_core::error::Error;
use hal_core::format::TextureFormat;
use hal_core::resource::{BufferDescriptor, Extent3d, TextureDescriptor, TextureViewDescriptor};
use hal_core::usage::UsageFlags;

fn device() -> Device {
    Device::new(
        Features::empty(),
        Limits { max_buffer_size: 1 << 24, max_texture_dimension: 4096, max_color_attachments: 4 },
    )
}

fn copy_buffer(d: &mut Device, usage: UsageFlags, size: u64) -> hal_core::resource::ResourceId {
    d.create_buffer(&BufferDescriptor { size, usage, mapped_at_creation: false, label: None })
        .unwrap()
}

#[test]
fn recording_before_begin_is_invalid() {
    let mut d = device();
    let src = copy_buffer(&mut d, UsageFlags::none().with_copy_src(), 64);
    let dst = copy_buffer(&mut d, UsageFlags::none().with_copy_dst(), 64);
    let mut enc = d.create_command_encoder().unwrap();
    assert_eq!(enc.copy_buffer_to_buffer(&d, src, 0, dst, 0, 64), Err(Error::InvalidState));
    assert_eq!(enc.end_render_pass(), Err(Error::InvalidState));
}

#[test]
fn begin_encoding_twice_is_invalid() {
    let d = device();
    let mut enc = d.create_command_encoder().unwrap();
    enc.begin_encoding().unwrap();
    assert_eq!(enc.begin_encoding(), Err(Error::InvalidState));
}

#[test]
fn recording_after_end_encoding_is_invalid_and_mutates_nothing() {
    let mut d = device();
    let src = copy_buffer(&mut d, UsageFlags::none().with_copy_src(), 64);
    let dst = copy_buffer(&mut d, UsageFlags::none().with_copy_dst(), 64);
    let mut enc = d.create_command_encoder().unwrap();
    enc.begin_encoding().unwrap();
    let cb = enc.end_encoding().unwrap();
    assert_eq!(enc.state, EncoderState::Ended);
    // Every recording call on the sealed encoder fails with InvalidState
    // and leaves the encoder exactly as it was.
    assert_eq!(enc.copy_buffer_to_buffer(&d, src, 0, dst, 0, 64), Err(Error::InvalidState));
    assert_eq!(enc.begin_encoding(), Err(Error::InvalidState));
    assert_eq!(enc.end_render_pass(), Err(Error::InvalidState));
    assert!(matches!(enc.end_encoding(), Err(Error::InvalidState)));
    assert_eq!(enc.state, EncoderState::Ended);
    assert_eq!(enc.commands.len(), 0);
    assert_eq!(enc.touches.len(), 0);
    // The command buffer it yielded is still usable exactly once.
    d.submit_simple(vec![cb]).unwrap();
}

#[test]
fn copy_requires_declared_usages_and_bounds() {
    let mut d = device();
    let src = copy_buffer(&mut d, UsageFlags::none().with_copy_src(), 64);
    let dst = copy_buffer(&mut d, UsageFlags::none().with_copy_dst(), 64);
    let mut enc = d.create_command_encoder().unwrap();
    enc.begin_encoding().unwrap();
    // Destination lacks copy-source: recording the reverse copy fails.
    assert_eq!(enc.copy_buffer_to_buffer(&d, dst, 0, src, 0, 8), Err(Error::InvalidUsage));
    // Out of bounds.
    assert_eq!(enc.copy_buffer_to_buffer(&d, src, 32, dst, 0, 64), Err(Error::InvalidUsage));
    // A lawful copy records.
    enc.copy_buffer_to_buffer(&d, src, 0, dst, 0, 64).unwrap();
    let cb = enc.end_encoding().unwrap();
    assert_eq!(cb.commands.len(), 1);
    assert_eq!(cb.touches.len(), 2);
}

#[test]
fn copying_a_buffer_onto_itself_is_a_hazard() {
    let mut d = device();
    let both = copy_buffer(&mut d, UsageFlags::none().with_copy_src().with_copy_dst(), 64);
    let mut enc = d.create_command_encoder().unwrap();
    enc.begin_encoding().unwrap();
    enc.copy_buffer_to_buffer(&d, both, 0, both, 32, 16).unwrap();
    // The hazard is reported at encode time, and the encoder is unchanged.
    assert!(matches!(enc.end_encoding(), Err(Error::ResourceHazard)));
    assert_eq!(enc.state, EncoderState::Recording);
}

#[test]
fn render_pass_demands_color_target_usage_and_extent() {
    let mut d = device();
    let tex = d
        .create_texture(&TextureDescriptor {
            format: TextureFormat::Bgra8Unorm,
            extent: Extent3d { width: 640, height: 400, depth_or_array_layers: 1 },
            usage: UsageFlags::none().with_color_target().with_sampled(),
            sample_count: 1,
        })
        .unwrap();
    let sampled_only = d
        .create_texture_view(tex, &TextureViewDescriptor {
            format: TextureFormat::Bgra8Unorm,
            usage: UsageFlags::none().with_sampled(),
        })
        .unwrap();
    let color = d
        .create_texture_view(tex, &TextureViewDescriptor {
            format: TextureFormat::Bgra8Unorm,
            usage: UsageFlags::none().with_color_target(),
        })
        .unwrap();
    let mut enc = d.create_command_encoder().unwrap();
    enc.begin_encoding().unwrap();
    let bad_usage = RenderPassDescriptor {
        color_attachments: vec![ColorAttachment { view: sampled_only, clear: true, resolve_target: None }],
        depth_stencil_attachment: None,
        extent: Extent3d { width: 640, height: 400, depth_or_array_layers: 1 },
        sample_count: 1,
    };
    assert_eq!(enc.begin_render_pass(&d, &bad_usage), Err(Error::InvalidUsage));
    let too_large = RenderPassDescriptor {
        color_attachments: vec![ColorAttachment { view: color, clear: true, resolve_target: None }],
        depth_stencil_attachment: None,
        extent: Extent3d { width: 641, height: 400, depth_or_array_layers: 1 },
        sample_count: 1,
    };
    assert_eq!(enc.begin_render_pass(&d, &too_large), Err(Error::InvalidUsage));
    let good = RenderPassDescriptor {
        color_attachments: vec![ColorAttachment { view: color, clear: true, resolve_target: None }],
        depth_stencil_attachment: None,
        extent: Extent3d { width: 640, height: 400, depth_or_array_layers: 1 },
        sample_count: 1,
    };
    enc.begin_render_pass(&d, &good).unwrap();
    // Ending the encoder inside an open pass is refused.
    assert!(matches!(enc.end_encoding(), Err(Error::InvalidState)));
    enc.end_render_pass().unwrap();
    let cb = enc.end_encoding().unwrap();
    assert_eq!(cb.commands.len(), 2);
    let mut fence = d.create_fence().unwrap();
    d.submit(vec![cb], Vec::new(), &mut fence, 1).unwrap();
    assert_eq!(fence.value, 1);
    d.poll(PollMode::Wait).unwrap();
    assert_eq!(d.queue.observed, 1);
}

#[test]
fn barriers_appear_only_where_usage_changes() {
    let mut d = device();
    let a = copy_buffer(&mut d, UsageFlags::none().with_copy_src(), 64);
    let b = copy_buffer(&mut d, UsageFlags::none().with_copy_src().with_copy_dst(), 64);
    let c = copy_buffer(&mut d, UsageFlags::none().with_copy_dst(), 64);
    let mut enc = d.create_command_encoder().unwrap();
    enc.begin_encoding().unwrap();
    enc.copy_buffer_to_buffer(&d, a, 0, b, 0, 32).unwrap();
    let cb = enc.end_encoding().unwrap();
    d.submit_simple(vec![cb]).unwrap();
    let mut enc2 = d.create_command_encoder().unwrap();
    enc2.begin_encoding().unwrap();
    enc2.copy_buffer_to_buffer(&d, b, 0, c, 0, 32).unwrap();
    let cb2 = enc2.end_encoding().unwrap();
    d.submit_simple(vec![cb2]).unwrap();
    let barriers = d.planned_barriers();
    // Only `b` changed usage between consecutive touches (destination, then
    // source); `a` and `c` were each touched once.
    assert_eq!(barriers.len(), 1);
    assert_eq!(barriers[0].resource, b);
    assert!(barriers[0].from_usage.copy_dst);
    assert!(barriers[0].to_usage.copy_src);
}
