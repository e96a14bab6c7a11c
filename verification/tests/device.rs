use hal_core::adapter::{Features, Limits};
use hal_core::device::{Device, PollMode};
use hal_core::error::Error;
use hal_core::resource::{BufferDescriptor, MapMode, MapState, TextureDescriptor};
use hal_core::usage::UsageFlags;

fn limits() -> Limits {
    Limits { max_buffer_size: 1 << 30, max_texture_dimension: 8192, max_color_attachments: 4 }
}

fn device() -> Device {
    Device::new(Features::empty(), limits())
}

fn plain_buffer(size: u64) -> BufferDescriptor {
    BufferDescriptor {
        size,
        usage: UsageFlags::none().with_copy_dst(),
        mapped_at_creation: false,
        label: None,
    }
}

#[test]
fn create_and_look_up_buffer() {
    let mut d = device();
    let id = d.create_buffer(&plain_buffer(1024)).unwrap();
    let b = d.get_buffer(id).unwrap();
    assert_eq!(b.size, 1024);
    assert!(b.usage.copy_dst);
    assert!(matches!(b.map_state, MapState::Unmapped));
}

#[test]
fn creation_hands_out_distinct_handles() {
    let mut d = device();
    let mut ids = Vec::new();
    for _ in 0..16 {
        ids.push(d.create_buffer(&plain_buffer(64)).unwrap());
    }
    for i in 0..ids.len() {
        for j in 0..ids.len() {
            if i != j {
                assert_ne!(ids[i], ids[j]);
            }
        }
        assert!(d.check_live(ids[i]));
    }
}

#[test]
fn empty_usage_is_invalid() {
    let mut d = device();
    let desc = BufferDescriptor {
        size: 16,
        usage: UsageFlags::none(),
        mapped_at_creation: false,
        label: None,
    };
    assert_eq!(d.create_buffer(&desc), Err(Error::InvalidUsage));
}

#[test]
fn contradictory_usage_is_invalid() {
    let mut d = device();
    let both = BufferDescriptor {
        size: 16,
        usage: UsageFlags::none().with_map_read().with_map_write(),
        mapped_at_creation: false,
        label: None,
    };
    assert_eq!(d.create_buffer(&both), Err(Error::InvalidUsage));
    let read_src = BufferDescriptor {
        size: 16,
        usage: UsageFlags::none().with_map_read().with_copy_src(),
        mapped_at_creation: false,
        label: None,
    };
    assert_eq!(d.create_buffer(&read_src), Err(Error::InvalidUsage));
    let color = BufferDescriptor {
        size: 16,
        usage: UsageFlags::none().with_map_write().with_color_target(),
        mapped_at_creation: false,
        label: None,
    };
    assert_eq!(d.create_buffer(&color), Err(Error::InvalidUsage));
}

#[test]
fn oversized_buffer_is_out_of_memory() {
    let mut d = device();
    let desc = plain_buffer((1 << 30) + 1);
    assert_eq!(d.create_buffer(&desc), Err(Error::OutOfMemory));
}

#[test]
fn destroyed_handle_goes_stale_and_slot_is_reused() {
    let mut d = device();
    let a = d.create_buffer(&plain_buffer(16)).unwrap();
    d.destroy_buffer(a).unwrap();
    assert!(!d.check_live(a));
    assert_eq!(d.destroy_buffer(a), Err(Error::InvalidUsage));
    let b = d.create_buffer(&plain_buffer(16)).unwrap();
    // The slot is reused at a later generation: same index, new handle.
    assert_eq!(b.index, a.index);
    assert_ne!(b.generation, a.generation);
    assert!(!d.check_live(a));
    assert!(d.check_live(b));
}

#[test]
fn texture_must_outlive_views() {
    let mut d = device();
    let tex = d
        .create_texture(&TextureDescriptor {
            format: hal_core::format::TextureFormat::Rgba8Unorm,
            extent: hal_core::resource::Extent3d { width: 64, height: 64, depth_or_array_layers: 1 },
            usage: UsageFlags::none().with_color_target(),
            sample_count: 1,
        })
        .unwrap();
    let view = d
        .create_texture_view(tex, &hal_core::resource::TextureViewDescriptor {
            format: hal_core::format::TextureFormat::Rgba8Unorm,
            usage: UsageFlags::none().with_color_target(),
        })
        .unwrap();
    assert_eq!(d.destroy_texture(tex), Err(Error::InvalidUsage));
    d.destroy_view(view).unwrap();
    d.destroy_texture(tex).unwrap();
}

#[test]
fn view_usage_must_be_subset() {
    let mut d = device();
    let tex = d
        .create_texture(&TextureDescriptor {
            format: hal_core::format::TextureFormat::Rgba8Unorm,
            extent: hal_core::resource::Extent3d { width: 8, height: 8, depth_or_array_layers: 1 },
            usage: UsageFlags::none().with_color_target(),
            sample_count: 1,
        })
        .unwrap();
    let r = d.create_texture_view(tex, &hal_core::resource::TextureViewDescriptor {
        format: hal_core::format::TextureFormat::Rgba8Unorm,
        usage: UsageFlags::none().with_color_target().with_sampled(),
    });
    assert_eq!(r, Err(Error::InvalidUsage));
}

#[test]
fn map_async_without_map_usage_fails_synchronously() {
    let mut d = device();
    let id = d.create_buffer(&plain_buffer(64)).unwrap();
    assert_eq!(d.map_async(id, MapMode::Read), Err(Error::InvalidUsage));
    // Nothing was queued: a poll delivers no resolutions.
    let out = d.poll(PollMode::Poll).unwrap();
    assert!(!out.progress);
    assert_eq!(out.resolutions.len(), 0);
}

#[test]
fn map_protocol_runs_unmapped_pending_mapped_unmapped() {
    let mut d = device();
    let desc = BufferDescriptor {
        size: 32,
        usage: UsageFlags::none().with_copy_dst().with_map_read(),
        mapped_at_creation: false,
        label: None,
    };
    let id = d.create_buffer(&desc).unwrap();
    let req = d.map_async(id, MapMode::Read).unwrap();
    assert!(matches!(d.get_buffer(id).unwrap().map_state, MapState::Pending { .. }));
    // A second request while pending is an invalid state.
    assert_eq!(d.map_async(id, MapMode::Read), Err(Error::InvalidState));
    let out = d.poll(PollMode::Wait).unwrap();
    assert!(out.progress);
    assert_eq!(out.resolutions.len(), 1);
    assert_eq!(out.resolutions[0].request, req);
    assert!(out.resolutions[0].status.is_ok());
    assert!(matches!(d.get_buffer(id).unwrap().map_state, MapState::Mapped { .. }));
    let range = d.get_mapped_range(id, 0, 32).unwrap();
    assert_eq!(range.bytes, vec![0u8; 32]);
    d.unmap(id).unwrap();
    assert!(matches!(d.get_buffer(id).unwrap().map_state, MapState::Unmapped));
    assert!(matches!(d.get_mapped_range(id, 0, 32), Err(Error::InvalidState)));
}

#[test]
fn mapped_at_creation_accepts_writes() {
    let mut d = device();
    let desc = BufferDescriptor {
        size: 8,
        usage: UsageFlags::none().with_copy_src().with_map_write(),
        mapped_at_creation: true,
        label: None,
    };
    let id = d.create_buffer(&desc).unwrap();
    d.write_mapped(id, 2, &vec![1, 2, 3]).unwrap();
    let range = d.get_mapped_range(id, 0, 8).unwrap();
    assert_eq!(range.bytes, vec![0, 0, 1, 2, 3, 0, 0, 0]);
    assert_eq!(d.write_mapped(id, 6, &vec![1, 2, 3]), Err(Error::InvalidUsage));
    d.unmap(id).unwrap();
}

#[test]
fn destroyed_buffer_aborts_its_pending_map() {
    let mut d = device();
    let desc = BufferDescriptor {
        size: 16,
        usage: UsageFlags::none().with_copy_dst().with_map_read(),
        mapped_at_creation: false,
        label: None,
    };
    let id = d.create_buffer(&desc).unwrap();
    let req = d.map_async(id, MapMode::Read).unwrap();
    d.destroy_buffer(id).unwrap();
    let out = d.poll(PollMode::Wait).unwrap();
    assert_eq!(out.resolutions.len(), 1);
    assert_eq!(out.resolutions[0].request, req);
    assert_eq!(out.resolutions[0].status, Err(Error::MapAborted));
}

#[test]
fn resolutions_arrive_in_request_order() {
    let mut d = device();
    let desc = BufferDescriptor {
        size: 16,
        usage: UsageFlags::none().with_copy_dst().with_map_read(),
        mapped_at_creation: false,
        label: None,
    };
    let a = d.create_buffer(&desc).unwrap();
    let b = d.create_buffer(&desc).unwrap();
    let ra = d.map_async(a, MapMode::Read).unwrap();
    let rb = d.map_async(b, MapMode::Read).unwrap();
    assert!(ra < rb);
    let out = d.poll(PollMode::Wait).unwrap();
    assert_eq!(out.resolutions.len(), 2);
    assert_eq!(out.resolutions[0].request, ra);
    assert_eq!(out.resolutions[1].request, rb);
}

#[test]
fn fence_advances_by_one_per_submission() {
    let mut d = device();
    let mut fence = d.create_fence().unwrap();
    assert_eq!(fence.value, 0);
    for expected in 1..=3u64 {
        d.submit(Vec::new(), Vec::new(), &mut fence, expected).unwrap();
        assert_eq!(fence.value, expected);
    }
    // Skipping or repeating a value is refused and the fence stands still.
    assert_eq!(d.submit(Vec::new(), Vec::new(), &mut fence, 5), Err(Error::InvalidUsage));
    assert_eq!(fence.value, 3);
    assert!(!d.fence_complete(1));
    let out = d.poll(PollMode::Wait).unwrap();
    assert!(out.progress);
    assert_eq!(d.queue.observed, 3);
    assert_eq!(d.queue.pending.len(), 0);
    assert!(d.fence_complete(3));
    assert!(!d.fence_complete(4));
    let again = d.poll(PollMode::Poll).unwrap();
    assert!(!again.progress);
}

#[test]
fn wait_values_below_observed_still_proceed() {
    let mut d = device();
    let mut fence = d.create_fence().unwrap();
    d.submit(Vec::new(), Vec::new(), &mut fence, 1).unwrap();
    d.poll(PollMode::Wait).unwrap();
    // A wait value already observed contributes ordering metadata only.
    d.submit(Vec::new(), vec![1], &mut fence, 2).unwrap();
    assert_eq!(fence.value, 2);
}

#[test]
fn lost_device_fails_everything_and_flushes_maps() {
    let mut d = device();
    let desc = BufferDescriptor {
        size: 16,
        usage: UsageFlags::none().with_copy_dst().with_map_read(),
        mapped_at_creation: false,
        label: None,
    };
    let id = d.create_buffer(&desc).unwrap();
    let req = d.map_async(id, MapMode::Read).unwrap();
    let flushed = d.lose();
    assert_eq!(flushed.len(), 1);
    assert_eq!(flushed[0].request, req);
    assert_eq!(flushed[0].status, Err(Error::DeviceLost));
    assert_eq!(d.create_buffer(&plain_buffer(4)), Err(Error::DeviceLost));
    assert!(matches!(d.poll(PollMode::Poll), Err(Error::DeviceLost)));
    assert_eq!(d.map_async(id, MapMode::Read), Err(Error::DeviceLost));
    assert!(matches!(d.create_fence(), Err(Error::DeviceLost)));
}

#[test]
fn bulk_creation_with_empty_submit_and_wait() {
    // Eight large copy-destination buffers, an empty command list, and a
    // blocking poll: all buffers exist and nothing stays pending.
    let mut d = device();
    let mut ids = Vec::new();
    for _ in 0..8 {
        ids.push(d.create_buffer(&plain_buffer(256 * 1024 * 1024)).unwrap());
    }
    d.submit_simple(Vec::new()).unwrap();
    let out = d.poll(PollMode::Wait).unwrap();
    assert!(out.progress);
    for id in &ids {
        assert!(d.check_live(*id));
    }
    assert_eq!(d.queue.pending.len(), 0);
    assert_eq!(out.resolutions.len(), 0);
}
