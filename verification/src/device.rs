use crate::adapter::{Features, Limits};
use crate::encoder::{CommandBuffer, CommandEncoder};
use crate::error::Error;
use crate::queue::{Fence, Queue, Submission};
use crate::resource::{
    BufferDescriptor, BufferRec, MapMode, MappedRange, MapState, Resource, ResourceId, Slot,
    TextureDescriptor, TextureRec, TextureViewDescriptor, ViewRec,
};
use crate::tracker::{barriers_spec, Barrier, Touch, UsageRecord, UsageTracker};
use vstd::prelude::*;

verus! {

/// How a poll may wait.  `Wait` suspends the caller until at least one
/// outstanding submission completes or none are outstanding; `Poll` returns
/// at once, reporting whether progress occurred.  The model backend
/// completes accepted work by the time it is polled, so the two modes
/// observe the same completions.
#[derive(Clone, Copy, Debug, PartialEq, Eq, Structural)]
pub enum PollMode {
    Wait,
    Poll,
}

/// A stored mapping request, waiting for a poll to observe its completion.
#[derive(Clone, Copy, Debug, PartialEq, Eq, Structural)]
pub struct PendingMap {
    pub request: u64,
    pub buffer: ResourceId,
    pub mode: MapMode,
}

/// The one-shot outcome a poll delivers for a stored mapping request, in
/// place of a callback: `Ok` when the buffer is now mapped, `MapAborted`
/// when the buffer was destroyed first, `DeviceLost` when the device was.
#[derive(Clone, Copy, Debug)]
pub struct MapResolution {
    pub request: u64,
    pub buffer: ResourceId,
    pub status: Result<(), Error>,
}

/// What one poll observed: whether anything completed, and the resolution
/// of every mapping request that was pending, in request (fence) order.
pub struct PollOutcome {
    pub progress: bool,
    pub resolutions: Vec<MapResolution>,
}

/// An open device: the resource table, the usage tracker, the single queue,
/// and the stored mapping requests.  Resources are tabled in
/// generation-checked slots; a destroyed resource retires its slot's
/// generation, so a stale handle can never read as live again.
pub struct Device {
    pub slots: Vec<Slot>,
    pub tracker: UsageTracker,
    pub queue: Queue,
    pub pending_maps: Vec<PendingMap>,
    /// The request number the next accepted mapping will carry.
    pub next_map_request: u64,
    pub features: Features,
    pub limits: Limits,
    pub lost: bool,
}

/// True when the pending map names a live buffer that is still waiting on
/// exactly this request.
pub open spec fn pm_live_pending(slots: Seq<Slot>, pm: PendingMap) -> bool {
    &&& pm.buffer.index < slots.len()
    &&& slots[pm.buffer.index as int].generation == pm.buffer.generation
    &&& match slots[pm.buffer.index as int].occupant {
        Some(Resource::Buffer(b)) => b.map_state == (MapState::Pending {
            mode: pm.mode,
            request: pm.request,
        }),
        _ => false,
    }
}

/// The slot table after one pending map is observed: the buffer moves to
/// the mapped state when the request still stands, and nothing changes when
/// the buffer is gone.
pub open spec fn apply_pm(slots: Seq<Slot>, pm: PendingMap) -> Seq<Slot> {
    if pm_live_pending(slots, pm) {
        let s = slots[pm.buffer.index as int];
        let b = match s.occupant {
            Some(Resource::Buffer(b)) => b,
            _ => arbitrary(),
        };
        slots.update(
            pm.buffer.index as int,
            Slot {
                generation: s.generation,
                occupant: Some(
                    Resource::Buffer(
                        BufferRec { map_state: MapState::Mapped { mode: pm.mode }, ..b },
                    ),
                ),
            },
        )
    } else {
        slots
    }
}

/// The generation a slot retires to when its resource is destroyed: one
/// higher, or pinned at the top, where the slot is never reused.
pub open spec fn next_generation(g: u64) -> u64 {
    if g < u64::MAX {
        (g + 1) as u64
    } else {
        g
    }
}

/// The slot table after the first `n` pending maps are observed in order.
pub open spec fn resolve_prefix(slots: Seq<Slot>, pms: Seq<PendingMap>, n: int) -> Seq<Slot>
    decreases n,
{
    if n <= 0 {
        slots
    } else {
        apply_pm(resolve_prefix(slots, pms, n - 1), pms[n - 1])
    }
}

/// Whether the `k`-th pending map resolves successfully when the maps are
/// observed in order starting from the given table.
pub open spec fn resolution_ok(slots: Seq<Slot>, pms: Seq<PendingMap>, k: int) -> bool {
    pm_live_pending(resolve_prefix(slots, pms, k), pms[k])
}

impl Device {
    /// A handle is live when its slot holds a resource of the handle's
    /// generation.
    pub open spec fn spec_live(self, id: ResourceId) -> bool {
        &&& id.index < self.slots@.len()
        &&& self.slots@[id.index as int].generation == id.generation
        &&& self.slots@[id.index as int].occupant is Some
    }

    /// The resource a live handle points at.
    pub open spec fn spec_resource(self, id: ResourceId) -> Resource
        recommends
            self.spec_live(id),
    {
        match self.slots@[id.index as int].occupant {
            Some(r) => r,
            None => arbitrary(),
        }
    }

    /// The handle is a live buffer.
    pub open spec fn is_live_buffer(self, id: ResourceId) -> bool {
        self.spec_live(id) && self.spec_resource(id) is Buffer
    }

    /// The handle is a live texture.
    pub open spec fn is_live_texture(self, id: ResourceId) -> bool {
        self.spec_live(id) && self.spec_resource(id) is Texture
    }

    /// The handle is a live view.
    pub open spec fn is_live_view(self, id: ResourceId) -> bool {
        self.spec_live(id) && self.spec_resource(id) is View
    }

    /// The buffer a live buffer handle points at.
    pub open spec fn spec_buffer(self, id: ResourceId) -> BufferRec
        recommends
            self.is_live_buffer(id),
    {
        match self.spec_resource(id) {
            Resource::Buffer(b) => b,
            _ => arbitrary(),
        }
    }

    /// The texture a live texture handle points at.
    pub open spec fn spec_texture(self, id: ResourceId) -> TextureRec
        recommends
            self.is_live_texture(id),
    {
        match self.spec_resource(id) {
            Resource::Texture(t) => t,
            _ => arbitrary(),
        }
    }

    /// The view a live view handle points at.
    pub open spec fn spec_view(self, id: ResourceId) -> ViewRec
        recommends
            self.is_live_view(id),
    {
        match self.spec_resource(id) {
            Resource::View(v) => v,
            _ => arbitrary(),
        }
    }

    /// Some live view projects the given texture.
    pub open spec fn has_live_view_of(self, id: ResourceId) -> bool {
        exists|k: int|
            0 <= k < self.slots@.len() && match #[trigger] self.slots@[k].occupant {
                Some(Resource::View(v)) => v.texture == id,
                _ => false,
            }
    }

    /// One tabled slot is well formed: a buffer's usage is lawful for a
    /// buffer, its host mirror (when present) spans exactly its size, a
    /// host-visible or mapped or pending buffer has a host mirror; a
    /// texture's usage is lawful for a texture and its extent is non-zero.
    pub open spec fn slot_wf(s: Slot) -> bool {
        match s.occupant {
            Some(Resource::Buffer(b)) => {
                &&& b.usage.valid_for_buffer()
                &&& (b.host matches Some(h) ==> h@.len() == b.size)
                &&& (b.usage.host_visible() ==> b.host is Some)
                &&& (b.map_state is Mapped || b.map_state is Pending ==> b.host is Some)
            },
            Some(Resource::Texture(t)) => t.usage.valid_for_texture() && t.extent.non_zero(),
            Some(Resource::View(v)) => !v.usage.is_empty(),
            None => true,
        }
    }

    /// The stored mapping requests are well formed: strictly increasing
    /// request numbers below the next to be issued, each naming a tabled
    /// index, a request whose buffer is live matching that buffer's pending
    /// state, and a freed slot always standing at a later generation than
    /// any request that names it, so a reused slot can never revive a stale
    /// request.
    pub open spec fn maps_wf(self) -> bool {
        &&& forall|i: int|
            0 <= i < self.pending_maps@.len() ==> (#[trigger] self.pending_maps@[i]).request
                < self.next_map_request
        &&& forall|i: int, j: int|
            0 <= i < j < self.pending_maps@.len() ==> self.pending_maps@[i].request
                < self.pending_maps@[j].request
        &&& forall|i: int|
            0 <= i < self.pending_maps@.len() ==> (#[trigger] self.pending_maps@[i]).buffer.index
                < self.slots@.len()
        &&& forall|i: int|
            0 <= i < self.pending_maps@.len() ==> {
                let pm = #[trigger] self.pending_maps@[i];
                self.is_live_buffer(pm.buffer) ==> self.spec_buffer(pm.buffer).map_state
                    == (MapState::Pending { mode: pm.mode, request: pm.request })
            }
        &&& forall|i: int|
            0 <= i < self.pending_maps@.len() ==> {
                let pm = #[trigger] self.pending_maps@[i];
                &&& pm.buffer.generation <= self.slots@[pm.buffer.index as int].generation
                &&& (self.slots@[pm.buffer.index as int].occupant is None
                    ==> pm.buffer.generation < self.slots@[pm.buffer.index as int].generation
                    || self.slots@[pm.buffer.index as int].generation == u64::MAX)
            }
    }

    /// The device's invariant.
    pub open spec fn wf(self) -> bool {
        &&& self.queue.wf()
        &&& self.maps_wf()
        &&& forall|k: int| 0 <= k < self.slots@.len() ==> Device::slot_wf(#[trigger] self.slots@[k])
    }

    /// Everything outside the slot table is as it was.
    pub open spec fn same_but_slots(self, other: Device) -> bool {
        &&& self.tracker == other.tracker
        &&& self.queue == other.queue
        &&& self.pending_maps == other.pending_maps
        &&& self.next_map_request == other.next_map_request
        &&& self.features == other.features
        &&& self.limits == other.limits
        &&& self.lost == other.lost
    }

    /// A fresh device with the granted features and limits, an empty
    /// resource table, and both queue counters at zero.
    pub fn new(features: Features, limits: Limits) -> (d: Device)
        ensures
            d.wf(),
            d.slots@.len() == 0,
            d.tracker.records@.len() == 0,
            d.queue.pending@.len() == 0,
            d.queue.last_signaled == 0,
            d.queue.observed == 0,
            d.pending_maps@.len() == 0,
            d.next_map_request == 0,
            d.queue.next_submission_index == 0,
            d.features == features,
            d.limits == limits,
            !d.lost,
    {
        Device {
            slots: Vec::new(),
            tracker: UsageTracker::new(),
            queue: Queue::new(),
            pending_maps: Vec::new(),
            next_map_request: 0,
            features,
            limits,
            lost: false,
        }
    }

    /// Exec mirror of [`Self::spec_live`].
    pub fn check_live(&self, id: ResourceId) -> (r: bool)
        ensures
            r == self.spec_live(id),
    {
        id.index < self.slots.len() && self.slots[id.index].generation == id.generation
            && self.slots[id.index].occupant.is_some()
    }

    /// The live buffer behind the handle, if the handle is one.
    pub fn get_buffer(&self, id: ResourceId) -> (r: Option<&BufferRec>)
        ensures
            r is Some <==> self.is_live_buffer(id),
            r matches Some(b) ==> *b == self.spec_buffer(id),
    {
        if id.index < self.slots.len() && self.slots[id.index].generation == id.generation {
            match &self.slots[id.index].occupant {
                Some(Resource::Buffer(b)) => Some(b),
                _ => None,
            }
        } else {
            None
        }
    }

    /// The live texture behind the handle, if the handle is one.
    pub fn get_texture(&self, id: ResourceId) -> (r: Option<&TextureRec>)
        ensures
            r is Some <==> self.is_live_texture(id),
            r matches Some(t) ==> *t == self.spec_texture(id),
    {
        if id.index < self.slots.len() && self.slots[id.index].generation == id.generation {
            match &self.slots[id.index].occupant {
                Some(Resource::Texture(t)) => Some(t),
                _ => None,
            }
        } else {
            None
        }
    }

    /// The live view behind the handle, if the handle is one.
    pub fn get_view(&self, id: ResourceId) -> (r: Option<&ViewRec>)
        ensures
            r is Some <==> self.is_live_view(id),
            r matches Some(v) ==> *v == self.spec_view(id),
    {
        if id.index < self.slots.len() && self.slots[id.index].generation == id.generation {
            match &self.slots[id.index].occupant {
                Some(Resource::View(v)) => Some(v),
                _ => None,
            }
        } else {
            None
        }
    }

    /// Tables a resource: the first retired slot is reused at its advanced
    /// generation, else the table grows by one slot at generation zero.
    fn install(&mut self, res: Resource) -> (id: ResourceId)
        ensures
            final(self).same_but_slots(*old(self)),
            !old(self).spec_live(id),
            final(self).spec_live(id),
            final(self).spec_resource(id) == res,
            id.index < final(self).slots@.len(),
            final(self).slots@.len() >= old(self).slots@.len(),
            final(self).slots@[id.index as int] == (Slot {
                generation: id.generation,
                occupant: Some(res),
            }),
            forall|k: int|
                0 <= k < old(self).slots@.len() && k != id.index ==> final(self).slots@[k] == old(self).slots@[k],
            (id.index < old(self).slots@.len() && old(self).slots@[id.index as int].occupant
                is None && id.generation == old(self).slots@[id.index as int].generation
                && id.generation < u64::MAX && final(self).slots@.len() == old(self).slots@.len()) || (id.index == old(self).slots@.len() && id.generation == 0 && final(self).slots@.len() == old(self).slots@.len() + 1),
    {
        let n = self.slots.len();
        let mut idx: usize = n;
        let mut scan: usize = 0;
        while scan < n && idx == n
            invariant
                n == self.slots@.len(),
                scan <= n,
                idx == n || (idx < n && self.slots@[idx as int].occupant is None
                    && self.slots@[idx as int].generation < u64::MAX),
            decreases (if idx == n { 1int } else { 0int }), n - scan,
        {
            if self.slots[scan].occupant.is_none() && self.slots[scan].generation < u64::MAX {
                idx = scan;
            } else {
                scan = scan + 1;
            }
        }
        if idx < n {
            let g = self.slots[idx].generation;
            self.slots.set(idx, Slot { generation: g, occupant: Some(res) });
            ResourceId { index: idx, generation: g }
        } else {
            self.slots.push(Slot { generation: 0, occupant: Some(res) });
            ResourceId { index: idx, generation: 0 }
        }
    }

    /// Whether a buffer creation with these arguments is accepted.
    pub open spec fn buffer_create_ok(self, desc: BufferDescriptor) -> bool {
        &&& !self.lost
        &&& desc.usage.valid_for_buffer()
        &&& desc.size <= self.limits.max_buffer_size
        &&& ((desc.usage.host_visible() || desc.mapped_at_creation) ==> desc.size <= usize::MAX
            as u64)
    }

    /// Creates a buffer.
    ///
    /// Fails with `DeviceLost` on a lost device; with `InvalidUsage` when
    /// the usage set is empty or contradictory; with `OutOfMemory` when the
    /// size exceeds the device's buffer limit or a host mirror cannot be
    /// addressed.  On failure nothing changes.  On success the handle is
    /// fresh — it was not live before — and every resource that was live
    /// stays live, unchanged.
    pub fn create_buffer(&mut self, desc: &BufferDescriptor) -> (r: Result<ResourceId, Error>)
        requires
            old(self).wf(),
        ensures
            final(self).wf(),
            r is Ok <==> old(self).buffer_create_ok(*desc),
            old(self).lost ==> r == Err::<ResourceId, Error>(Error::DeviceLost),
            !old(self).lost && !desc.usage.valid_for_buffer() ==> r == Err::<ResourceId, Error>(
                Error::InvalidUsage,
            ),
            !old(self).lost && desc.usage.valid_for_buffer() && !old(self).buffer_create_ok(*desc)
                ==> r == Err::<ResourceId, Error>(Error::OutOfMemory),
            r is Err ==> *final(self) == *old(self),
            r matches Ok(id) ==> {
                &&& !old(self).spec_live(id)
                &&& final(self).is_live_buffer(id)
                &&& final(self).spec_buffer(id).size == desc.size
                &&& final(self).spec_buffer(id).usage == desc.usage
                &&& final(self).spec_buffer(id).map_state == (if desc.mapped_at_creation {
                    MapState::Mapped { mode: MapMode::Write }
                } else {
                    MapState::Unmapped
                })
                &&& (final(self).spec_buffer(id).host is Some <==> (desc.usage.host_visible()
                    || desc.mapped_at_creation))
                &&& (final(self).spec_buffer(id).host matches Some(h) ==> h@ =~= Seq::new(
                    desc.size as nat,
                    |i: int| 0u8,
                ))
                &&& final(self).same_but_slots(*old(self))
                &&& forall|other: ResourceId|
                    old(self).spec_live(other) ==> #[trigger] final(self).spec_live(other)
                        && final(self).spec_resource(other) == old(self).spec_resource(other)
                &&& forall|other: ResourceId|
                    final(self).spec_live(other) && other != id ==> #[trigger] old(
                        self,
                    ).spec_live(other) && final(self).spec_resource(other) == old(
                        self,
                    ).spec_resource(other)
            },
    {
        if self.lost {
            return Err(Error::DeviceLost);
        }
        if !desc.usage.check_valid_for_buffer() {
            return Err(Error::InvalidUsage);
        }
        if desc.size > self.limits.max_buffer_size {
            return Err(Error::OutOfMemory);
        }
        let needs_host = desc.usage.map_read || desc.usage.map_write || desc.mapped_at_creation;
        let mut host: Option<Vec<u8>> = None;
        if needs_host {
            if desc.size > usize::MAX as u64 {
                return Err(Error::OutOfMemory);
            }
            host = Some(zero_vec(desc.size as usize));
        }
        let map_state = if desc.mapped_at_creation {
            MapState::Mapped { mode: MapMode::Write }
        } else {
            MapState::Unmapped
        };
        let rec = BufferRec { size: desc.size, usage: desc.usage, map_state, host };
        let id = self.install(Resource::Buffer(rec));
        Ok(id)
    }

    /// Whether a texture creation with these arguments is accepted.
    pub open spec fn texture_create_ok(self, desc: TextureDescriptor) -> bool {
        &&& !self.lost
        &&& desc.usage.valid_for_texture()
        &&& desc.extent.non_zero()
        &&& (desc.sample_count == 1 || desc.sample_count == 4)
    }

    /// Creates a texture.
    ///
    /// Fails with `DeviceLost` on a lost device and with `InvalidUsage` when
    /// the usage set is empty or holds a host-mapping flag, the extent has a
    /// zero dimension, or the sample count is unsupported.  On failure
    /// nothing changes; on success the handle is fresh and every live
    /// resource stays live, unchanged.
    pub fn create_texture(&mut self, desc: &TextureDescriptor) -> (r: Result<ResourceId, Error>)
        requires
            old(self).wf(),
        ensures
            final(self).wf(),
            r is Ok <==> old(self).texture_create_ok(*desc),
            old(self).lost ==> r == Err::<ResourceId, Error>(Error::DeviceLost),
            !old(self).lost && !old(self).texture_create_ok(*desc) ==> r == Err::<
                ResourceId,
                Error,
            >(Error::InvalidUsage),
            r is Err ==> *final(self) == *old(self),
            r matches Ok(id) ==> {
                &&& !old(self).spec_live(id)
                &&& final(self).is_live_texture(id)
                &&& final(self).spec_texture(id) == (TextureRec {
                    format: desc.format,
                    extent: desc.extent,
                    usage: desc.usage,
                    sample_count: desc.sample_count,
                })
                &&& final(self).same_but_slots(*old(self))
                &&& forall|other: ResourceId|
                    old(self).spec_live(other) ==> #[trigger] final(self).spec_live(other)
                        && final(self).spec_resource(other) == old(self).spec_resource(other)
                &&& forall|other: ResourceId|
                    final(self).spec_live(other) && other != id ==> #[trigger] old(
                        self,
                    ).spec_live(other) && final(self).spec_resource(other) == old(
                        self,
                    ).spec_resource(other)
            },
    {
        if self.lost {
            return Err(Error::DeviceLost);
        }
        if !desc.usage.check_valid_for_texture() || !desc.extent.check_non_zero() || !(
        desc.sample_count == 1 || desc.sample_count == 4) {
            return Err(Error::InvalidUsage);
        }
        let rec = TextureRec {
            format: desc.format,
            extent: desc.extent,
            usage: desc.usage,
            sample_count: desc.sample_count,
        };
        let id = self.install(Resource::Texture(rec));
        Ok(id)
    }

    /// Whether a view creation with these arguments is accepted: the
    /// texture must be live and the view's format and usage compatible
    /// subsets of the texture's.
    pub open spec fn view_create_ok(
        self,
        texture: ResourceId,
        desc: TextureViewDescriptor,
    ) -> bool {
        &&& !self.lost
        &&& self.is_live_texture(texture)
        &&& desc.format == self.spec_texture(texture).format
        &&& !desc.usage.is_empty()
        &&& desc.usage.subset_of(self.spec_texture(texture).usage)
    }

    /// Creates a view of a texture: a non-owning projection that refers
    /// back to the texture by handle.
    ///
    /// Fails with `DeviceLost` on a lost device and with `InvalidUsage` when
    /// the texture handle is not a live texture, the formats differ, or the
    /// view's usage is empty or not a subset of the texture's.  On failure
    /// nothing changes; on success the handle is fresh and every live
    /// resource stays live, unchanged.
    pub fn create_texture_view(&mut self, texture: ResourceId, desc: &TextureViewDescriptor) -> (r:
        Result<ResourceId, Error>)
        requires
            old(self).wf(),
        ensures
            final(self).wf(),
            r is Ok <==> old(self).view_create_ok(texture, *desc),
            old(self).lost ==> r == Err::<ResourceId, Error>(Error::DeviceLost),
            !old(self).lost && !old(self).view_create_ok(texture, *desc) ==> r == Err::<
                ResourceId,
                Error,
            >(Error::InvalidUsage),
            r is Err ==> *final(self) == *old(self),
            r matches Ok(id) ==> {
                &&& !old(self).spec_live(id)
                &&& final(self).is_live_view(id)
                &&& final(self).spec_view(id) == (ViewRec {
                    texture,
                    format: desc.format,
                    usage: desc.usage,
                })
                &&& final(self).same_but_slots(*old(self))
                &&& forall|other: ResourceId|
                    old(self).spec_live(other) ==> #[trigger] final(self).spec_live(other)
                        && final(self).spec_resource(other) == old(self).spec_resource(other)
                &&& forall|other: ResourceId|
                    final(self).spec_live(other) && other != id ==> #[trigger] old(
                        self,
                    ).spec_live(other) && final(self).spec_resource(other) == old(
                        self,
                    ).spec_resource(other)
            },
    {
        if self.lost {
            return Err(Error::DeviceLost);
        }
        let not_empty = desc.usage.copy_src || desc.usage.copy_dst || desc.usage.map_read
            || desc.usage.map_write || desc.usage.color_target || desc.usage.depth_write
            || desc.usage.sampled;
        let ok = match self.get_texture(texture) {
            Some(t) => desc.format == t.format && not_empty && desc.usage.check_subset_of(
                &t.usage,
            ),
            None => false,
        };
        if !ok {
            return Err(Error::InvalidUsage);
        }
        let rec = ViewRec { texture, format: desc.format, usage: desc.usage };
        let id = self.install(Resource::View(rec));
        Ok(id)
    }

    /// Rewrites a live buffer's map state, leaving every other field of the
    /// buffer and every other slot as it was.
    fn set_map_state(&mut self, id: ResourceId, st: MapState)
        requires
            old(self).is_live_buffer(id),
        ensures
            final(self).same_but_slots(*old(self)),
            final(self).slots@ == old(self).slots@.update(
                id.index as int,
                Slot {
                    generation: id.generation,
                    occupant: Some(
                        Resource::Buffer(
                            BufferRec { map_state: st, ..old(self).spec_buffer(id) },
                        ),
                    ),
                },
            ),
    {
        let g = self.slots[id.index].generation;
        let mut taken = Slot { generation: g, occupant: None };
        core::mem::swap(&mut taken, &mut self.slots[id.index]);
        match taken.occupant {
            Some(Resource::Buffer(b)) => {
                self.slots.set(
                    id.index,
                    Slot {
                        generation: g,
                        occupant: Some(Resource::Buffer(BufferRec { map_state: st, ..b })),
                    },
                );
            },
            other => {
                self.slots.set(id.index, Slot { generation: g, occupant: other });
            },
        }
    }

    /// Some live view projects the given texture.
    fn has_view_of(&self, id: ResourceId) -> (r: bool)
        ensures
            r == self.has_live_view_of(id),
    {
        let mut k: usize = 0;
        while k < self.slots.len()
            invariant
                k <= self.slots@.len(),
                forall|m: int|
                    0 <= m < k ==> !(match #[trigger] self.slots@[m].occupant {
                        Some(Resource::View(v)) => v.texture == id,
                        _ => false,
                    }),
            decreases self.slots@.len() - k,
        {
            let hit = match &self.slots[k].occupant {
                Some(Resource::View(v)) => v.texture == id,
                _ => false,
            };
            if hit {
                proof {
                    assert(0 <= k < self.slots@.len() && match self.slots@[k as int].occupant {
                        Some(Resource::View(v)) => v.texture == id,
                        _ => false,
                    });
                }
                return true;
            }
            k = k + 1;
        }
        false
    }

    /// Destroys a buffer.  The slot is freed and its generation advanced,
    /// so the handle and every copy of it go stale; a mapping still pending
    /// on the buffer resolves with `MapAborted` at the next poll.
    ///
    /// Fails with `DeviceLost` on a lost device and with `InvalidUsage`
    /// when the handle is not a live buffer; on failure nothing changes.
    pub fn destroy_buffer(&mut self, id: ResourceId) -> (r: Result<(), Error>)
        requires
            old(self).wf(),
        ensures
            final(self).wf(),
            r is Ok <==> !old(self).lost && old(self).is_live_buffer(id),
            old(self).lost ==> r == Err::<(), Error>(Error::DeviceLost),
            !old(self).lost && !old(self).is_live_buffer(id) ==> r == Err::<(), Error>(
                Error::InvalidUsage,
            ),
            r is Err ==> *final(self) == *old(self),
            r is Ok ==> {
                &&& final(self).same_but_slots(*old(self))
                &&& !final(self).spec_live(id)
                &&& final(self).slots@ == old(self).slots@.update(
                    id.index as int,
                    Slot {
                        generation: next_generation(id.generation),
                        occupant: None,
                    },
                )
                &&& forall|other: ResourceId|
                    old(self).spec_live(other) && other != id ==> #[trigger] final(self).spec_live(other) && final(self).spec_resource(other) == old(self).spec_resource(other)
            },
    {
        if self.lost {
            return Err(Error::DeviceLost);
        }
        let live = match self.get_buffer(id) {
            Some(_) => true,
            None => false,
        };
        if !live {
            return Err(Error::InvalidUsage);
        }
        let g = self.slots[id.index].generation;
        let ng = if g < u64::MAX {
            g + 1
        } else {
            g
        };
        self.slots.set(id.index, Slot { generation: ng, occupant: None });
        Ok(())
    }

    /// Destroys a texture.  The texture must outlive all its views: while a
    /// live view still projects it, destruction fails with `InvalidUsage`
    /// and nothing changes, so use-after-destroy through a view is caught
    /// deterministically.
    pub fn destroy_texture(&mut self, id: ResourceId) -> (r: Result<(), Error>)
        requires
            old(self).wf(),
        ensures
            final(self).wf(),
            r is Ok <==> !old(self).lost && old(self).is_live_texture(id) && !old(self).has_live_view_of(id),
            old(self).lost ==> r == Err::<(), Error>(Error::DeviceLost),
            !old(self).lost && !(old(self).is_live_texture(id) && !old(self).has_live_view_of(id))
                ==> r == Err::<(), Error>(Error::InvalidUsage),
            r is Err ==> *final(self) == *old(self),
            r is Ok ==> {
                &&& final(self).same_but_slots(*old(self))
                &&& !final(self).spec_live(id)
                &&& final(self).slots@ == old(self).slots@.update(
                    id.index as int,
                    Slot {
                        generation: next_generation(id.generation),
                        occupant: None,
                    },
                )
                &&& forall|other: ResourceId|
                    old(self).spec_live(other) && other != id ==> #[trigger] final(self).spec_live(other) && final(self).spec_resource(other) == old(self).spec_resource(other)
            },
    {
        if self.lost {
            return Err(Error::DeviceLost);
        }
        let live = match self.get_texture(id) {
            Some(_) => true,
            None => false,
        };
        if !live || self.has_view_of(id) {
            return Err(Error::InvalidUsage);
        }
        let g = self.slots[id.index].generation;
        let ng = if g < u64::MAX {
            g + 1
        } else {
            g
        };
        self.slots.set(id.index, Slot { generation: ng, occupant: None });
        Ok(())
    }

    /// Destroys a view.  The backing texture is untouched.
    ///
    /// Fails with `DeviceLost` on a lost device and with `InvalidUsage`
    /// when the handle is not a live view; on failure nothing changes.
    pub fn destroy_view(&mut self, id: ResourceId) -> (r: Result<(), Error>)
        requires
            old(self).wf(),
        ensures
            final(self).wf(),
            r is Ok <==> !old(self).lost && old(self).is_live_view(id),
            old(self).lost ==> r == Err::<(), Error>(Error::DeviceLost),
            !old(self).lost && !old(self).is_live_view(id) ==> r == Err::<(), Error>(
                Error::InvalidUsage,
            ),
            r is Err ==> *final(self) == *old(self),
            r is Ok ==> {
                &&& final(self).same_but_slots(*old(self))
                &&& !final(self).spec_live(id)
                &&& final(self).slots@ == old(self).slots@.update(
                    id.index as int,
                    Slot {
                        generation: next_generation(id.generation),
                        occupant: None,
                    },
                )
                &&& forall|other: ResourceId|
                    old(self).spec_live(other) && other != id ==> #[trigger] final(self).spec_live(other) && final(self).spec_resource(other) == old(self).spec_resource(other)
            },
    {
        if self.lost {
            return Err(Error::DeviceLost);
        }
        let live = match self.get_view(id) {
            Some(_) => true,
            None => false,
        };
        if !live {
            return Err(Error::InvalidUsage);
        }
        let g = self.slots[id.index].generation;
        let ng = if g < u64::MAX {
            g + 1
        } else {
            g
        };
        self.slots.set(id.index, Slot { generation: ng, occupant: None });
        Ok(())
    }

    /// Whether a mapping request with these arguments is accepted.
    pub open spec fn map_async_ok(self, id: ResourceId, mode: MapMode) -> bool {
        &&& !self.lost
        &&& self.is_live_buffer(id)
        &&& (match mode {
            MapMode::Read => self.spec_buffer(id).usage.map_read,
            MapMode::Write => self.spec_buffer(id).usage.map_write,
        })
        &&& self.spec_buffer(id).map_state is Unmapped
        &&& self.next_map_request < u64::MAX
    }

    /// Requests an asynchronous mapping of a buffer.  Nothing is delivered
    /// here: the request is stored, and a later poll observes its
    /// completion and delivers the resolution, in request order.
    ///
    /// Fails immediately and synchronously — storing nothing — with
    /// `DeviceLost` on a lost device; with `InvalidUsage` when the handle
    /// is not a live buffer or the buffer's creation usage lacks the
    /// requested mode; with `InvalidState` when the buffer is not unmapped;
    /// and with `OutOfMemory` when the request counter is exhausted.
    pub fn map_async(&mut self, id: ResourceId, mode: MapMode) -> (r: Result<u64, Error>)
        requires
            old(self).wf(),
        ensures
            final(self).wf(),
            r is Ok <==> old(self).map_async_ok(id, mode),
            old(self).lost ==> r == Err::<u64, Error>(Error::DeviceLost),
            !old(self).lost && !old(self).is_live_buffer(id) ==> r == Err::<u64, Error>(
                Error::InvalidUsage,
            ),
            !old(self).lost && old(self).is_live_buffer(id) && !(match mode {
                MapMode::Read => old(self).spec_buffer(id).usage.map_read,
                MapMode::Write => old(self).spec_buffer(id).usage.map_write,
            }) ==> r == Err::<u64, Error>(Error::InvalidUsage),
            !old(self).lost && old(self).is_live_buffer(id) && (match mode {
                MapMode::Read => old(self).spec_buffer(id).usage.map_read,
                MapMode::Write => old(self).spec_buffer(id).usage.map_write,
            }) && !(old(self).spec_buffer(id).map_state is Unmapped) ==> r == Err::<u64, Error>(
                Error::InvalidState,
            ),
            r is Err ==> *final(self) == *old(self),
            r matches Ok(req) ==> {
                &&& req == old(self).next_map_request
                &&& final(self).next_map_request == old(self).next_map_request + 1
                &&& final(self).pending_maps@ == old(self).pending_maps@.push(
                    PendingMap { request: req, buffer: id, mode },
                )
                &&& final(self).slots@ == old(self).slots@.update(
                    id.index as int,
                    Slot {
                        generation: id.generation,
                        occupant: Some(
                            Resource::Buffer(
                                BufferRec {
                                    map_state: MapState::Pending { mode, request: req },
                                    ..old(self).spec_buffer(id)
                                },
                            ),
                        ),
                    },
                )
                &&& final(self).tracker == old(self).tracker
                &&& final(self).queue == old(self).queue
                &&& final(self).features == old(self).features
                &&& final(self).limits == old(self).limits
                &&& final(self).lost == old(self).lost
            },
    {
        if self.lost {
            return Err(Error::DeviceLost);
        }
        let usage_ok = match self.get_buffer(id) {
            Some(b) => match mode {
                MapMode::Read => b.usage.map_read,
                MapMode::Write => b.usage.map_write,
            },
            None => {
                return Err(Error::InvalidUsage);
            },
        };
        if !usage_ok {
            return Err(Error::InvalidUsage);
        }
        let unmapped = match self.get_buffer(id) {
            Some(b) => b.map_state == MapState::Unmapped,
            None => false,
        };
        if !unmapped {
            return Err(Error::InvalidState);
        }
        if self.next_map_request == u64::MAX {
            return Err(Error::OutOfMemory);
        }
        let req = self.next_map_request;
        self.set_map_state(id, MapState::Pending { mode, request: req });
        self.pending_maps.push(PendingMap { request: req, buffer: id, mode });
        self.next_map_request = req + 1;
        Ok(req)
    }

    /// Unmaps a mapped buffer, returning it to the unmapped state and
    /// ending the validity of any outstanding mapped range over it.
    ///
    /// Fails with `DeviceLost` on a lost device, with `InvalidUsage` when
    /// the handle is not a live buffer, and with `InvalidState` when the
    /// buffer is not mapped; on failure nothing changes.
    pub fn unmap(&mut self, id: ResourceId) -> (r: Result<(), Error>)
        requires
            old(self).wf(),
        ensures
            final(self).wf(),
            r is Ok <==> !old(self).lost && old(self).is_live_buffer(id) && old(self).spec_buffer(
                id,
            ).map_state is Mapped,
            old(self).lost ==> r == Err::<(), Error>(Error::DeviceLost),
            !old(self).lost && !old(self).is_live_buffer(id) ==> r == Err::<(), Error>(
                Error::InvalidUsage,
            ),
            !old(self).lost && old(self).is_live_buffer(id) && !(old(self).spec_buffer(
                id,
            ).map_state is Mapped) ==> r == Err::<(), Error>(Error::InvalidState),
            r is Err ==> *final(self) == *old(self),
            r is Ok ==> {
                &&& final(self).same_but_slots(*old(self))
                &&& final(self).slots@ == old(self).slots@.update(
                    id.index as int,
                    Slot {
                        generation: id.generation,
                        occupant: Some(
                            Resource::Buffer(
                                BufferRec {
                                    map_state: MapState::Unmapped,
                                    ..old(self).spec_buffer(id)
                                },
                            ),
                        ),
                    },
                )
            },
    {
        if self.lost {
            return Err(Error::DeviceLost);
        }
        let mapped = match self.get_buffer(id) {
            Some(b) => match b.map_state {
                MapState::Mapped { .. } => true,
                _ => false,
            },
            None => {
                return Err(Error::InvalidUsage);
            },
        };
        if !mapped {
            return Err(Error::InvalidState);
        }
        self.set_map_state(id, MapState::Unmapped);
        Ok(())
    }

    /// Creates a fence, at counter zero, for use with submissions on the
    /// device's queue.  Fails only when the device is lost.
    pub fn create_fence(&self) -> (r: Result<Fence, Error>)
        ensures
            r is Ok <==> !self.lost,
            r matches Ok(f) ==> f.value == 0,
            self.lost ==> r == Err::<Fence, Error>(Error::DeviceLost),
    {
        if self.lost {
            return Err(Error::DeviceLost);
        }
        Ok(Fence { value: 0 })
    }

    /// Creates a command encoder bound to the device's queue, in its
    /// initial state.  Fails only when the device is lost.
    pub fn create_command_encoder(&self) -> (r: Result<CommandEncoder, Error>)
        ensures
            r is Ok <==> !self.lost,
            r matches Ok(e) ==> e.state == crate::encoder::EncoderState::Initial && e.commands@.len()
                == 0 && e.touches@.len() == 0,
            self.lost ==> r == Err::<CommandEncoder, Error>(Error::DeviceLost),
    {
        if self.lost {
            return Err(Error::DeviceLost);
        }
        Ok(CommandEncoder::fresh())
    }
}

/// The records a touch sequence contributes once stamped with its
/// submission index.
pub open spec fn stamped(touches: Seq<Touch>, idx: u64) -> Seq<UsageRecord> {
    touches.map_values(
        |t: Touch| UsageRecord { resource: t.resource, usage: t.usage, submission: idx },
    )
}

/// The records a whole submission's command buffers contribute, in order.
pub open spec fn stamped_all(cbs: Seq<CommandBuffer>, idx: u64) -> Seq<UsageRecord>
    decreases cbs.len(),
{
    if cbs.len() == 0 {
        Seq::empty()
    } else {
        stamped_all(cbs.drop_last(), idx) + stamped(cbs.last().touches@, idx)
    }
}

impl Device {
    /// Whether a read of the given window of a mapped buffer is accepted.
    pub open spec fn range_ok(self, id: ResourceId, offset: u64, size: u64) -> bool {
        &&& !self.lost
        &&& self.is_live_buffer(id)
        &&& self.spec_buffer(id).map_state is Mapped
        &&& offset + size <= self.spec_buffer(id).size
    }

    /// A host-visible window over a mapped buffer's bytes.
    ///
    /// Fails with `DeviceLost` on a lost device, with `InvalidUsage` when
    /// the handle is not a live buffer or the window leaves the buffer, and
    /// with `InvalidState` when the buffer is not mapped.
    pub fn get_mapped_range(&self, id: ResourceId, offset: u64, size: u64) -> (r: Result<
        MappedRange,
        Error,
    >)
        requires
            self.wf(),
        ensures
            r is Ok <==> self.range_ok(id, offset, size),
            self.lost ==> r == Err::<MappedRange, Error>(Error::DeviceLost),
            !self.lost && !self.is_live_buffer(id) ==> r == Err::<MappedRange, Error>(
                Error::InvalidUsage,
            ),
            !self.lost && self.is_live_buffer(id) && !(self.spec_buffer(id).map_state is Mapped)
                ==> r == Err::<MappedRange, Error>(Error::InvalidState),
            !self.lost && self.is_live_buffer(id) && self.spec_buffer(id).map_state is Mapped
                && !(offset + size <= self.spec_buffer(id).size) ==> r == Err::<
                MappedRange,
                Error,
            >(Error::InvalidUsage),
            r matches Ok(mr) ==> mr.buffer == id && mr.offset == offset && mr.bytes@.len() == size
                && mr.bytes@ == self.spec_buffer(id).host.unwrap()@.subrange(
                offset as int,
                offset + size,
            ),
    {
        if self.lost {
            return Err(Error::DeviceLost);
        }
        let b = match self.get_buffer(id) {
            Some(b) => b,
            None => {
                return Err(Error::InvalidUsage);
            },
        };
        let mapped = match b.map_state {
            MapState::Mapped { .. } => true,
            _ => false,
        };
        if !mapped {
            return Err(Error::InvalidState);
        }
        if size > b.size || offset > b.size - size {
            return Err(Error::InvalidUsage);
        }
        let h = match &b.host {
            Some(h) => h,
            None => unreached(),
        };
        proof {
            assert(Device::slot_wf(self.slots@[id.index as int]));
            assert(h@.len() == self.spec_buffer(id).size);
        }
        let hn = h.len();
        let mut bytes: Vec<u8> = Vec::new();
        let start = offset as usize;
        let count = size as usize;
        let mut k: usize = 0;
        while k < count
            invariant
                k <= count,
                hn == h@.len(),
                start + count <= hn,
                bytes@ =~= h@.subrange(start as int, start + k),
            decreases count - k,
        {
            bytes.push(h[start + k]);
            proof {
                assert(h@.subrange(start as int, start + k + 1) =~= h@.subrange(
                    start as int,
                    start + k,
                ).push(h@[start + k]));
            }
            k = k + 1;
        }
        Ok(MappedRange { buffer: id, offset, bytes })
    }

    /// Whether a host write of `n` bytes at the given offset is accepted.
    pub open spec fn write_ok(self, id: ResourceId, offset: u64, n: nat) -> bool {
        &&& !self.lost
        &&& self.is_live_buffer(id)
        &&& self.spec_buffer(id).map_state == (MapState::Mapped { mode: MapMode::Write })
        &&& offset + n <= self.spec_buffer(id).size
    }

    /// Writes bytes through a write mapping into the buffer's host-visible
    /// memory.
    ///
    /// Fails with `DeviceLost` on a lost device, with `InvalidUsage` when
    /// the handle is not a live buffer or the write leaves the buffer, and
    /// with `InvalidState` when the buffer is not mapped for writing; on
    /// failure nothing changes.
    pub fn write_mapped(&mut self, id: ResourceId, offset: u64, data: &Vec<u8>) -> (r: Result<
        (),
        Error,
    >)
        requires
            old(self).wf(),
        ensures
            final(self).wf(),
            r is Ok <==> old(self).write_ok(id, offset, data@.len()),
            old(self).lost ==> r == Err::<(), Error>(Error::DeviceLost),
            !old(self).lost && !old(self).is_live_buffer(id) ==> r == Err::<(), Error>(
                Error::InvalidUsage,
            ),
            !old(self).lost && old(self).is_live_buffer(id) && old(self).spec_buffer(id).map_state
                != (MapState::Mapped { mode: MapMode::Write }) ==> r == Err::<(), Error>(
                Error::InvalidState,
            ),
            r is Err ==> *final(self) == *old(self),
            r is Ok ==> {
                &&& final(self).same_but_slots(*old(self))
                &&& final(self).slots@.len() == old(self).slots@.len()
                &&& forall|k: int|
                    0 <= k < old(self).slots@.len() && k != id.index ==> final(self).slots@[k]
                        == old(self).slots@[k]
                &&& final(self).is_live_buffer(id)
                &&& final(self).spec_buffer(id).size == old(self).spec_buffer(id).size
                &&& final(self).spec_buffer(id).usage == old(self).spec_buffer(id).usage
                &&& final(self).spec_buffer(id).map_state == old(self).spec_buffer(id).map_state
                &&& final(self).slots@[id.index as int].generation == id.generation
                &&& final(self).spec_buffer(id).host matches Some(h) && h@ == old(
                    self,
                ).spec_buffer(id).host.unwrap()@.take(offset as int) + data@ + old(
                    self,
                ).spec_buffer(id).host.unwrap()@.skip(offset + data@.len())
            },
    {
        if self.lost {
            return Err(Error::DeviceLost);
        }
        let ok = match self.get_buffer(id) {
            Some(b) => {
                if !(b.map_state == (MapState::Mapped { mode: MapMode::Write })) {
                    return Err(Error::InvalidState);
                }
                data.len() as u64 <= b.size && offset <= b.size - data.len() as u64
            },
            None => {
                return Err(Error::InvalidUsage);
            },
        };
        if !ok {
            return Err(Error::InvalidUsage);
        }
        let g = self.slots[id.index].generation;
        let mut taken = Slot { generation: g, occupant: None };
        core::mem::swap(&mut taken, &mut self.slots[id.index]);
        match taken.occupant {
            Some(Resource::Buffer(b)) => {
                let BufferRec { size, usage, map_state, host } = b;
                let mut h = match host {
                    Some(h) => h,
                    None => unreached(),
                };
                proof {
                    assert(Device::slot_wf(old(self).slots@[id.index as int]));
                    assert(h@.len() == old(self).spec_buffer(id).size);
                }
                let ghost h0 = h@;
                let hn = h.len();
                let start = offset as usize;
                let mut k: usize = 0;
                while k < data.len()
                    invariant
                        k <= data@.len(),
                        hn == h@.len(),
                        start + data@.len() <= hn,
                        h@.len() == h0.len(),
                        forall|m: int|
                            0 <= m < h0.len() ==> h@[m] == (if start <= m < start + k {
                                data@[m - start]
                            } else {
                                h0[m]
                            }),
                    decreases data@.len() - k,
                {
                    h.set(start + k, data[k]);
                    k = k + 1;
                }
                proof {
                    assert(h@ =~= h0.take(start as int) + data@ + h0.skip(start + data@.len()));
                }
                self.slots.set(
                    id.index,
                    Slot {
                        generation: g,
                        occupant: Some(
                            Resource::Buffer(BufferRec { size, usage, map_state, host: Some(h) }),
                        ),
                    },
                );
            },
            _ => {
                unreached()
            },
        }
        Ok(())
    }

    /// Whether a submission signaling this value is accepted.
    pub open spec fn submit_ok(self, signal_value: u64) -> bool {
        &&& !self.lost
        &&& self.queue.last_signaled < u64::MAX
        &&& signal_value == self.queue.last_signaled + 1
        &&& self.queue.next_submission_index < u64::MAX
    }

    /// Submits command buffers, consuming each exactly once, and signals
    /// the fence.
    ///
    /// The buffers are enqueued FIFO on the queue, their recorded usages
    /// are stamped with the submission's index into the tracker, and the
    /// fence is advanced to the signal value only after acceptance, never
    /// before.  Fence values are strictly increasing and never skipped: the
    /// signal value must be exactly one above the last signaled, else
    /// `InvalidUsage`.  A lost device or an exhausted counter fails with
    /// `SubmitFailed`.  On failure neither the device nor the fence
    /// changes.  Wait values at or below the observed counter contribute
    /// ordering metadata only; they never block and never error.
    pub fn submit(
        &mut self,
        command_buffers: Vec<CommandBuffer>,
        wait_values: Vec<u64>,
        fence: &mut Fence,
        signal_value: u64,
    ) -> (r: Result<(), Error>)
        requires
            old(self).wf(),
        ensures
            final(self).wf(),
            r is Ok <==> old(self).submit_ok(signal_value),
            (old(self).lost || old(self).queue.last_signaled == u64::MAX || old(
                self,
            ).queue.next_submission_index == u64::MAX) ==> r == Err::<(), Error>(
                Error::SubmitFailed,
            ),
            !old(self).lost && old(self).queue.last_signaled < u64::MAX && old(
                self,
            ).queue.next_submission_index < u64::MAX && signal_value != old(
                self,
            ).queue.last_signaled + 1 ==> r == Err::<(), Error>(Error::InvalidUsage),
            r is Err ==> *final(self) == *old(self) && *final(fence) == *old(fence),
            r is Ok ==> {
                &&& final(fence).value == signal_value
                &&& final(self).queue.last_signaled == old(self).queue.last_signaled + 1
                &&& final(self).queue.observed == old(self).queue.observed
                &&& final(self).queue.next_submission_index == old(
                    self,
                ).queue.next_submission_index + 1
                &&& final(self).queue.pending@ == old(self).queue.pending@.push(
                    Submission {
                        index: old(self).queue.next_submission_index,
                        signal_value,
                        wait_values,
                        buffers: command_buffers,
                    },
                )
                &&& final(self).tracker.records@ == old(self).tracker.records@ + stamped_all(
                    command_buffers@,
                    old(self).queue.next_submission_index,
                )
                &&& final(self).slots@ == old(self).slots@
                &&& final(self).pending_maps@ == old(self).pending_maps@
                &&& final(self).next_map_request == old(self).next_map_request
                &&& final(self).lost == old(self).lost
            },
    {
        if self.lost || self.queue.last_signaled == u64::MAX || self.queue.next_submission_index
            == u64::MAX {
            return Err(Error::SubmitFailed);
        }
        if signal_value != self.queue.last_signaled + 1 {
            return Err(Error::InvalidUsage);
        }
        let idx = self.queue.next_submission_index;
        let mut i: usize = 0;
        while i < command_buffers.len()
            invariant
                i <= command_buffers@.len(),
                self.tracker.records@ == old(self).tracker.records@ + stamped_all(
                    command_buffers@.take(i as int),
                    idx,
                ),
                self.slots == old(self).slots,
                self.queue == old(self).queue,
                self.pending_maps == old(self).pending_maps,
                self.next_map_request == old(self).next_map_request,
                self.features == old(self).features,
                self.limits == old(self).limits,
                self.lost == old(self).lost,
                idx == old(self).queue.next_submission_index,
            decreases command_buffers@.len() - i,
        {
            let cb = &command_buffers[i];
            let mut j: usize = 0;
            while j < cb.touches.len()
                invariant
                    j <= cb.touches@.len(),
                    cb == &command_buffers@[i as int],
                    i < command_buffers@.len(),
                    self.tracker.records@ == old(self).tracker.records@ + stamped_all(
                        command_buffers@.take(i as int),
                        idx,
                    ) + stamped(cb.touches@.take(j as int), idx),
                    self.slots == old(self).slots,
                    self.queue == old(self).queue,
                    self.pending_maps == old(self).pending_maps,
                    self.next_map_request == old(self).next_map_request,
                    self.features == old(self).features,
                    self.limits == old(self).limits,
                    self.lost == old(self).lost,
                    idx == old(self).queue.next_submission_index,
                decreases cb.touches@.len() - j,
            {
                let t = cb.touches[j];
                self.tracker.record(t.resource, t.usage, idx);
                proof {
                    assert(stamped(cb.touches@.take(j + 1), idx) =~= stamped(
                        cb.touches@.take(j as int),
                        idx,
                    ).push(UsageRecord { resource: t.resource, usage: t.usage, submission: idx }));
                }
                j = j + 1;
            }
            proof {
                assert(cb.touches@.take(cb.touches@.len() as int) =~= cb.touches@);
                assert(command_buffers@.take(i + 1).drop_last() =~= command_buffers@.take(
                    i as int,
                ));
                assert(command_buffers@.take(i + 1).last() == command_buffers@[i as int]);
            }
            i = i + 1;
        }
        proof {
            assert(command_buffers@.take(command_buffers@.len() as int) =~= command_buffers@);
        }
        self.queue.pending.push(
            Submission { index: idx, signal_value, wait_values, buffers: command_buffers },
        );
        self.queue.next_submission_index = idx + 1;
        self.queue.last_signaled = signal_value;
        fence.value = signal_value;
        Ok(())
    }

    /// Submits command buffers without an external fence: the signal value
    /// is the next in sequence, and is returned.
    pub fn submit_simple(&mut self, command_buffers: Vec<CommandBuffer>) -> (r: Result<u64, Error>)
        requires
            old(self).wf(),
        ensures
            final(self).wf(),
            r is Ok <==> (!old(self).lost && old(self).queue.last_signaled < u64::MAX && old(
                self,
            ).queue.next_submission_index < u64::MAX),
            r is Err ==> r == Err::<u64, Error>(Error::SubmitFailed) && *final(self) == *old(self),
            r matches Ok(v) ==> {
                &&& v == old(self).queue.last_signaled + 1
                &&& final(self).queue.last_signaled == v
                &&& final(self).queue.observed == old(self).queue.observed
                &&& final(self).queue.next_submission_index == old(
                    self,
                ).queue.next_submission_index + 1
                &&& final(self).queue.pending@.len() == old(self).queue.pending@.len() + 1
                &&& final(self).queue.pending@.last().index == old(
                    self,
                ).queue.next_submission_index
                &&& final(self).queue.pending@.last().signal_value == v
                &&& final(self).queue.pending@.last().wait_values@.len() == 0
                &&& final(self).queue.pending@.last().buffers@ == command_buffers@
                &&& forall|m: int|
                    0 <= m < old(self).queue.pending@.len() ==> final(self).queue.pending@[m]
                        == old(self).queue.pending@[m]
                &&& final(self).tracker.records@ == old(self).tracker.records@ + stamped_all(
                    command_buffers@,
                    old(self).queue.next_submission_index,
                )
                &&& final(self).slots@ == old(self).slots@
                &&& final(self).pending_maps@ == old(self).pending_maps@
                &&& final(self).next_map_request == old(self).next_map_request
                &&& final(self).lost == old(self).lost
            },
    {
        if self.lost || self.queue.last_signaled == u64::MAX || self.queue.next_submission_index
            == u64::MAX {
            return Err(Error::SubmitFailed);
        }
        let v = self.queue.last_signaled + 1;
        let mut f = Fence { value: 0 };
        match self.submit(command_buffers, Vec::new(), &mut f, v) {
            Ok(()) => Ok(v),
            Err(e) => Err(e),
        }
    }

    /// Drives completion: every outstanding submission completes in FIFO
    /// order, raising the observed counter to the last signaled value, and
    /// then every stored mapping request is resolved, in request (fence)
    /// order, each exactly once — successfully when its buffer still
    /// stands, with `MapAborted` when the buffer was destroyed first.
    ///
    /// With `Wait` the call stands for blocking until work completes; with
    /// `Poll` it returns at once.  The model backend completes accepted
    /// work by poll time, so both modes drain everything outstanding, and
    /// the outcome reports whether any progress was observed.  Polling a
    /// lost device fails with `DeviceLost`.
    pub fn poll(&mut self, mode: PollMode) -> (r: Result<PollOutcome, Error>)
        requires
            old(self).wf(),
        ensures
            final(self).wf(),
            r is Ok <==> !old(self).lost,
            old(self).lost ==> r == Err::<PollOutcome, Error>(Error::DeviceLost) && *final(self)
                == *old(self),
            r matches Ok(out) ==> {
                &&& out.progress == (old(self).queue.pending@.len() > 0 || old(
                    self,
                ).pending_maps@.len() > 0)
                &&& final(self).queue.pending@.len() == 0
                &&& final(self).queue.observed == old(self).queue.last_signaled
                &&& final(self).queue.last_signaled == old(self).queue.last_signaled
                &&& final(self).queue.next_submission_index == old(
                    self,
                ).queue.next_submission_index
                &&& final(self).pending_maps@.len() == 0
                &&& final(self).next_map_request == old(self).next_map_request
                &&& final(self).tracker == old(self).tracker
                &&& final(self).lost == old(self).lost
                &&& final(self).slots@ == resolve_prefix(
                    old(self).slots@,
                    old(self).pending_maps@,
                    old(self).pending_maps@.len() as int,
                )
                &&& out.resolutions@.len() == old(self).pending_maps@.len()
                &&& forall|k: int|
                    0 <= k < old(self).pending_maps@.len() ==> (#[trigger] out.resolutions@[k])
                        == (MapResolution {
                        request: old(self).pending_maps@[k].request,
                        buffer: old(self).pending_maps@[k].buffer,
                        status: if resolution_ok(old(self).slots@, old(self).pending_maps@, k) {
                            Ok(())
                        } else {
                            Err(Error::MapAborted)
                        },
                    })
                &&& forall|a: int, b: int|
                    0 <= a < b < out.resolutions@.len() ==> out.resolutions@[a].request
                        < out.resolutions@[b].request
            },
    {
        if self.lost {
            return Err(Error::DeviceLost);
        }
        let total = self.queue.pending.len();
        let mut done: usize = 0;
        while done < total
            invariant
                total == old(self).queue.pending@.len(),
                done <= total,
                self.queue.pending@ =~= old(self).queue.pending@.skip(done as int),
                self.queue.observed == (if done == 0 {
                    old(self).queue.observed
                } else {
                    old(self).queue.pending@[done - 1].signal_value
                }),
                self.queue.last_signaled == old(self).queue.last_signaled,
                self.queue.next_submission_index == old(self).queue.next_submission_index,
                self.slots == old(self).slots,
                self.tracker == old(self).tracker,
                self.pending_maps == old(self).pending_maps,
                self.next_map_request == old(self).next_map_request,
                self.features == old(self).features,
                self.limits == old(self).limits,
                self.lost == old(self).lost,
            decreases total - done,
        {
            let sub = self.queue.pending.remove(0);
            self.queue.observed = sub.signal_value;
            proof {
                assert(old(self).queue.pending@.skip(done as int).remove(0) =~= old(
                    self,
                ).queue.pending@.skip(done + 1));
            }
            done = done + 1;
        }
        proof {
            assert(old(self).queue.pending@.skip(total as int) =~= Seq::<Submission>::empty());
            if total > 0 {
                assert(old(self).queue.pending@[total - 1].signal_value == old(
                    self,
                ).queue.observed + total);
            }
        }
        let mut pms: Vec<PendingMap> = Vec::new();
        core::mem::swap(&mut pms, &mut self.pending_maps);
        let total_maps = pms.len();
        let mut resolutions: Vec<MapResolution> = Vec::new();
        let mut k: usize = 0;
        while k < total_maps
            invariant
                total_maps == pms@.len(),
                pms@ == old(self).pending_maps@,
                k <= total_maps,
                old(self).maps_wf(),
                self.slots@ == resolve_prefix(old(self).slots@, pms@, k as int),
                self.slots@.len() == old(self).slots@.len(),
                forall|m: int|
                    0 <= m < self.slots@.len() ==> Device::slot_wf(#[trigger] self.slots@[m]),
                resolutions@.len() == k,
                forall|m: int|
                    0 <= m < k ==> (#[trigger] resolutions@[m]) == (MapResolution {
                        request: pms@[m].request,
                        buffer: pms@[m].buffer,
                        status: if resolution_ok(old(self).slots@, pms@, m) {
                            Ok(())
                        } else {
                            Err(Error::MapAborted)
                        },
                    }),
                self.pending_maps@.len() == 0,
                self.queue.pending@.len() == 0,
                self.queue.observed == old(self).queue.last_signaled,
                self.queue.last_signaled == old(self).queue.last_signaled,
                self.queue.next_submission_index == old(self).queue.next_submission_index,
                self.queue.wf(),
                self.tracker == old(self).tracker,
                self.next_map_request == old(self).next_map_request,
                self.features == old(self).features,
                self.limits == old(self).limits,
                self.lost == old(self).lost,
                !self.lost,
            decreases total_maps - k,
        {
            let pm = pms[k];
            let ok = if pm.buffer.index < self.slots.len() && self.slots[pm.buffer.index].generation
                == pm.buffer.generation {
                match &self.slots[pm.buffer.index].occupant {
                    Some(Resource::Buffer(b)) => b.map_state == (MapState::Pending {
                        mode: pm.mode,
                        request: pm.request,
                    }),
                    _ => false,
                }
            } else {
                false
            };
            if ok {
                self.set_map_state(pm.buffer, MapState::Mapped { mode: pm.mode });
                resolutions.push(
                    MapResolution { request: pm.request, buffer: pm.buffer, status: Ok(()) },
                );
            } else {
                resolutions.push(
                    MapResolution {
                        request: pm.request,
                        buffer: pm.buffer,
                        status: Err(Error::MapAborted),
                    },
                );
            }
            k = k + 1;
        }
        let progress = total > 0 || total_maps > 0;
        Ok(PollOutcome { progress, resolutions })
    }

    /// Declares the device lost.  Loss is terminal: every later operation
    /// fails with `DeviceLost`, and every stored mapping request is flushed
    /// here, in request order, with that error, so no pending map is ever
    /// silently dropped.
    pub fn lose(&mut self) -> (r: Vec<MapResolution>)
        requires
            old(self).wf(),
        ensures
            final(self).wf(),
            final(self).lost,
            final(self).pending_maps@.len() == 0,
            final(self).slots@ == old(self).slots@,
            final(self).queue == old(self).queue,
            final(self).tracker == old(self).tracker,
            final(self).next_map_request == old(self).next_map_request,
            r@.len() == old(self).pending_maps@.len(),
            forall|m: int|
                0 <= m < r@.len() ==> (#[trigger] r@[m]) == (MapResolution {
                    request: old(self).pending_maps@[m].request,
                    buffer: old(self).pending_maps@[m].buffer,
                    status: Err(Error::DeviceLost),
                }),
    {
        self.lost = true;
        let mut pms: Vec<PendingMap> = Vec::new();
        core::mem::swap(&mut pms, &mut self.pending_maps);
        let mut out: Vec<MapResolution> = Vec::new();
        let mut k: usize = 0;
        while k < pms.len()
            invariant
                k <= pms@.len(),
                out@.len() == k,
                forall|m: int|
                    0 <= m < k ==> (#[trigger] out@[m]) == (MapResolution {
                        request: pms@[m].request,
                        buffer: pms@[m].buffer,
                        status: Err(Error::DeviceLost),
                    }),
            decreases pms@.len() - k,
        {
            let pm = pms[k];
            out.push(
                MapResolution { request: pm.request, buffer: pm.buffer, status: Err(
                    Error::DeviceLost,
                ) },
            );
            k = k + 1;
        }
        out
    }

    /// Whether work stamped with the given fence value has completed:
    /// completion is the device-observed counter having reached the
    /// stamped value.
    pub fn fence_complete(&self, stamped: u64) -> (r: bool)
        ensures
            r == (stamped <= self.queue.observed),
    {
        stamped <= self.queue.observed
    }

    /// The synchronization the recorded usage history asks of the backend:
    /// a barrier exactly where a resource's usage changes between
    /// consecutive touches, and nowhere else.
    pub fn planned_barriers(&self) -> (r: Vec<Barrier>)
        ensures
            r@ == barriers_spec(self.tracker.records@),
    {
        self.tracker.barriers()
    }
}

/// A vector of `n` zero bytes.
fn zero_vec(n: usize) -> (v: Vec<u8>)
    ensures
        v@ =~= Seq::new(n as nat, |i: int| 0u8),
{
    let mut v: Vec<u8> = Vec::new();
    let mut i: usize = 0;
    while i < n
        invariant
            i <= n,
            v@ =~= Seq::new(i as nat, |j: int| 0u8),
        decreases n - i,
    {
        v.push(0);
        i = i + 1;
    }
    v
}

/// Law: a live buffer has at most one stored mapping request, so the
/// resolution a poll delivers for it is delivered exactly once.
pub proof fn lemma_one_request_per_buffer(d: Device, i: int, j: int)
    requires
        d.wf(),
        0 <= i < j < d.pending_maps@.len(),
        d.is_live_buffer(d.pending_maps@[i].buffer),
    ensures
        d.pending_maps@[i].buffer != d.pending_maps@[j].buffer,
{
    assert(d.pending_maps@[i].request < d.pending_maps@[j].request);
}

/// Law: the handle space is injective — two live handles naming the same
/// slot are the same handle, so live resources never share a handle and no
/// two concurrent creations can be confused with one another.
pub proof fn lemma_unique_live_handles(d: Device, a: ResourceId, b: ResourceId)
    requires
        d.spec_live(a),
        d.spec_live(b),
        a.index == b.index,
    ensures
        a == b,
{
}

} // verus!
