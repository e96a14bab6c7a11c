use crate::device::Device;
use crate::error::Error;
use crate::resource::{BufferDescriptor, MapMode, MapState, ResourceId};
use crate::tracker::{scope_has_hazard, union_for, Touch};
use crate::usage::UsageFlags;
use vstd::prelude::*;

verus! {

/// A read-back in flight: the staging buffer that will receive the bytes
/// and the mapping request a poll will resolve.
#[derive(Clone, Copy, Debug, PartialEq, Eq, Structural)]
pub struct PendingDownload {
    /// The staging buffer the copy lands in.
    pub buffer: ResourceId,
    /// The mapping request to watch for among a poll's resolutions.
    pub request: u64,
    /// How many bytes were asked for.
    pub size: u64,
}

/// A host-visible copy of a staging buffer's mapped bytes after a
/// read-back.  What the copy deposited in the staging buffer is the
/// backend's affair and lies outside the model: the core validates and
/// orders the copy, and hands back the staging buffer's host mirror once
/// the mapping completes.
pub struct DownloadBuffer {
    /// The staging buffer the bytes were mapped from.
    pub buffer: ResourceId,
    /// The downloaded bytes.
    pub data: Vec<u8>,
}

/// Whether a read-back with these arguments is accepted.
pub open spec fn read_buffer_ok(d: Device, src: ResourceId, offset: u64, size: u64) -> bool {
    &&& !d.lost
    &&& size <= d.limits.max_buffer_size
    &&& size <= usize::MAX as u64
    &&& d.is_live_buffer(src)
    &&& d.spec_buffer(src).usage.copy_src
    &&& offset + size <= d.spec_buffer(src).size
    &&& d.next_map_request < u64::MAX
    &&& d.queue.last_signaled < u64::MAX
    &&& d.queue.next_submission_index < u64::MAX
}

impl DownloadBuffer {
    /// Begins an asynchronous read of `size` bytes of `src` at `offset`: a
    /// host-readable staging buffer is created, a copy into it is recorded
    /// and submitted, and its mapping is requested.  A later completing
    /// poll resolves the returned request, after which [`Self::finish`]
    /// yields the bytes.
    ///
    /// The source must be a live buffer declared copy-source with the read
    /// window inside it, and the device must be able to take one more
    /// buffer, submission and mapping request; otherwise the first failing
    /// step's error is returned.  An early failure may leave the staging
    /// buffer behind; the caller drops the handle with the error.
    pub fn read_buffer(device: &mut Device, src: ResourceId, offset: u64, size: u64) -> (r: Result<
        PendingDownload,
        Error,
    >)
        requires
            old(device).wf(),
        ensures
            final(device).wf(),
            r is Ok <==> read_buffer_ok(*old(device), src, offset, size),
            r matches Ok(pd) ==> {
                &&& pd.size == size
                &&& pd.request == old(device).next_map_request
                &&& !old(device).spec_live(pd.buffer)
                &&& final(device).is_live_buffer(pd.buffer)
                &&& final(device).spec_buffer(pd.buffer).size == size
                &&& final(device).spec_buffer(pd.buffer).usage.map_read
                &&& final(device).spec_buffer(pd.buffer).map_state == (MapState::Pending {
                    mode: MapMode::Read,
                    request: pd.request,
                })
                &&& final(device).pending_maps@.len() == old(device).pending_maps@.len() + 1
                &&& final(device).queue.pending@.len() == old(device).queue.pending@.len() + 1
                &&& final(device).queue.last_signaled == old(device).queue.last_signaled + 1
                &&& final(device).is_live_buffer(src)
                &&& final(device).spec_buffer(src) == old(device).spec_buffer(src)
            },
    {
        let usage = UsageFlags::none().with_copy_dst().with_map_read();
        let desc = BufferDescriptor { size, usage, mapped_at_creation: false, label: None };
        let download = match device.create_buffer(&desc) {
            Ok(id) => id,
            Err(e) => {
                return Err(e);
            },
        };
        let mut encoder = match device.create_command_encoder() {
            Ok(e) => e,
            Err(e) => {
                return Err(e);
            },
        };
        match encoder.begin_encoding() {
            Ok(_) => {},
            Err(e) => {
                return Err(e);
            },
        }
        match encoder.copy_buffer_to_buffer(device, src, offset, download, 0, size) {
            Ok(_) => {},
            Err(e) => {
                return Err(e);
            },
        }
        proof {
            let t1 = Touch { resource: src, usage: crate::encoder::copy_src_usage() };
            let t2 = Touch { resource: download, usage: crate::encoder::copy_dst_usage() };
            let ts = encoder.touches@;
            assert(ts =~= seq![t1, t2]);
            assert(ts.drop_last() =~= seq![t1]);
            assert(seq![t1].drop_last() =~= Seq::<Touch>::empty());
            assert(src != download);
            assert(union_for(Seq::<Touch>::empty(), t1.resource) == UsageFlags::spec_none());
            assert(union_for(Seq::<Touch>::empty(), t2.resource) == UsageFlags::spec_none());
            assert(seq![t1].last() == t1);
            assert(union_for(seq![t1], t1.resource) == UsageFlags::spec_none().joined(t1.usage));
            assert(union_for(seq![t1], t2.resource) == UsageFlags::spec_none());
            assert(ts.last() == t2 && ts.last().resource != t1.resource);
            assert(union_for(ts, t1.resource) == UsageFlags::spec_none().joined(t1.usage));
            assert(union_for(ts, t2.resource) == UsageFlags::spec_none().joined(t2.usage));
            assert(!union_for(ts, t1.resource).hazardous());
            assert(!union_for(ts, t2.resource).hazardous());
            assert forall|i: int| 0 <= i < ts.len() implies !union_for(
                ts,
                ts[i].resource,
            ).hazardous() by {
                assert(i == 0 || i == 1);
            }
            assert(!scope_has_hazard(ts));
        }
        let cb = match encoder.end_encoding() {
            Ok(cb) => cb,
            Err(e) => {
                return Err(e);
            },
        };
        let mut cbs = Vec::new();
        cbs.push(cb);
        match device.submit_simple(cbs) {
            Ok(_) => {},
            Err(e) => {
                return Err(e);
            },
        }
        let request = match device.map_async(download, MapMode::Read) {
            Ok(req) => req,
            Err(e) => {
                return Err(e);
            },
        };
        Ok(PendingDownload { buffer: download, request, size })
    }

    /// Takes the downloaded bytes once a poll has resolved the request: the
    /// staging buffer must be mapped, and the whole of it is returned.
    ///
    /// Fails exactly as a mapped-range read of the staging buffer does.
    pub fn finish(device: &Device, pd: &PendingDownload) -> (r: Result<DownloadBuffer, Error>)
        requires
            device.wf(),
        ensures
            r is Ok <==> device.range_ok(pd.buffer, 0, pd.size),
            r matches Ok(db) ==> db.buffer == pd.buffer && db.data@ == device.spec_buffer(
                pd.buffer,
            ).host.unwrap()@.subrange(0, pd.size as int),
    {
        match device.get_mapped_range(pd.buffer, 0, pd.size) {
            Ok(mr) => Ok(DownloadBuffer { buffer: pd.buffer, data: mr.bytes }),
            Err(e) => Err(e),
        }
    }

    /// The downloaded bytes.
    pub fn data(&self) -> (r: &Vec<u8>)
        ensures
            r@ == self.data@,
    {
        &self.data
    }
}

} // verus!
