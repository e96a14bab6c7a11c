use hal_core::adapter::{Features, Limits};
use hal_core::device::{Device, PollMode};
use hal_core::resource::{BufferDescriptor, ResourceId};
use hal_core::usage::UsageFlags;
use std::sync::{Arc, Mutex};

fn shared_device() -> Arc<Mutex<Device>> {
    Arc::new(Mutex::new(Device::new(
        Features::empty(),
        Limits { max_buffer_size: 1 << 30, max_texture_dimension: 4096, max_color_attachments: 4 },
    )))
}

fn create_batch(device: &Arc<Mutex<Device>>, count: usize, size: u64) -> Vec<ResourceId> {
    let mut out = Vec::new();
    for _ in 0..count {
        let desc = BufferDescriptor {
            size,
            usage: UsageFlags::none().with_copy_dst(),
            mapped_at_creation: false,
            label: None,
        };
        let id = device.lock().unwrap().create_buffer(&desc).unwrap();
        out.push(id);
    }
    out
}

#[test]
fn concurrent_creation_yields_distinct_live_handles() {
    // Four independent workers share one device and create two resources
    // each; every creation succeeds and no two handles collide.
    let device = shared_device();
    let (left, right) = rayon::join(
        || {
            let d1 = device.clone();
            let d2 = device.clone();
            rayon::join(move || create_batch(&d1, 2, 1024), move || create_batch(&d2, 2, 1024))
        },
        || {
            let d3 = device.clone();
            let d4 = device.clone();
            rayon::join(move || create_batch(&d3, 2, 1024), move || create_batch(&d4, 2, 1024))
        },
    );
    let mut ids = Vec::new();
    ids.extend(left.0);
    ids.extend(left.1);
    ids.extend(right.0);
    ids.extend(right.1);
    assert_eq!(ids.len(), 8);
    for i in 0..ids.len() {
        for j in 0..ids.len() {
            if i != j {
                assert_ne!(ids[i], ids[j]);
            }
        }
    }
    let d = device.lock().unwrap();
    for id in &ids {
        assert!(d.check_live(*id));
    }
}

#[test]
fn bulk_large_buffers_across_threads_then_empty_submit_and_wait() {
    // Two large copy-destination buffers per worker across four workers,
    // an empty command list submitted, and a blocking poll: all eight
    // buffers exist and nothing stays pending.
    let device = shared_device();
    let size = 256 * 1024 * 1024u64;
    let (left, right) = rayon::join(
        || {
            let d1 = device.clone();
            let d2 = device.clone();
            rayon::join(move || create_batch(&d1, 2, size), move || create_batch(&d2, 2, size))
        },
        || {
            let d3 = device.clone();
            let d4 = device.clone();
            rayon::join(move || create_batch(&d3, 2, size), move || create_batch(&d4, 2, size))
        },
    );
    let mut ids = Vec::new();
    ids.extend(left.0);
    ids.extend(left.1);
    ids.extend(right.0);
    ids.extend(right.1);
    let mut d = device.lock().unwrap();
    d.submit_simple(Vec::new()).unwrap();
    let out = d.poll(PollMode::Wait).unwrap();
    assert!(out.progress);
    assert_eq!(d.queue.pending.len(), 0);
    assert_eq!(out.resolutions.len(), 0);
    assert_eq!(ids.len(), 8);
    for id in &ids {
        assert!(d.check_live(*id));
    }
}
