use hal_core::adapter::{Features, Limits};
use hal_core::device::{Device, PollMode};
use hal_core::download::DownloadBuffer;
use hal_core::error::Error;
use hal_core::resource::{BufferDescriptor, MapState};
use hal_core::usage::UsageFlags;

fn device() -> Device {
    Device::new(
        Features::empty(),
        Limits { max_buffer_size: 1 << 24, max_texture_dimension: 4096, max_color_attachments: 4 },
    )
}

#[test]
fn read_buffer_runs_copy_submit_and_map() {
    let mut d = device();
    let src = d
        .create_buffer(&BufferDescriptor {
            size: 64,
            usage: UsageFlags::none().with_copy_src().with_map_write(),
            mapped_at_creation: true,
            label: None,
        })
        .unwrap();
    d.write_mapped(src, 0, &vec![9, 9, 9, 9]).unwrap();
    d.unmap(src).unwrap();
    let before_pending = d.queue.pending.len();
    let pd = DownloadBuffer::read_buffer(&mut d, src, 16, 32).unwrap();
    assert_eq!(pd.size, 32);
    assert_eq!(d.queue.pending.len(), before_pending + 1);
    assert!(matches!(d.get_buffer(pd.buffer).unwrap().map_state, MapState::Pending { .. }));
    // Finishing before the poll resolves the mapping is an invalid state.
    assert!(matches!(DownloadBuffer::finish(&d, &pd), Err(Error::InvalidState)));
    let out = d.poll(PollMode::Wait).unwrap();
    assert!(out.resolutions.iter().any(|r| r.request == pd.request && r.status.is_ok()));
    let db = DownloadBuffer::finish(&d, &pd).unwrap();
    assert_eq!(db.data().len(), 32);
    assert_eq!(db.buffer, pd.buffer);
}

#[test]
fn read_buffer_rejects_sources_without_copy_src() {
    let mut d = device();
    let src = d
        .create_buffer(&BufferDescriptor {
            size: 64,
            usage: UsageFlags::none().with_copy_dst(),
            mapped_at_creation: false,
            label: None,
        })
        .unwrap();
    assert!(matches!(DownloadBuffer::read_buffer(&mut d, src, 0, 16), Err(Error::InvalidUsage)));
}

#[test]
fn read_buffer_rejects_windows_outside_the_source() {
    let mut d = device();
    let src = d
        .create_buffer(&BufferDescriptor {
            size: 64,
            usage: UsageFlags::none().with_copy_src(),
            mapped_at_creation: false,
            label: None,
        })
        .unwrap();
    assert!(matches!(DownloadBuffer::read_buffer(&mut d, src, 48, 32), Err(Error::InvalidUsage)));
}
