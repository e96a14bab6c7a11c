use crate::resource::ResourceId;
use crate::usage::UsageFlags;
use vstd::prelude::*;

verus! {

/// One intended use of a resource, recorded while an encoder records a
/// command that touches it.
#[derive(Clone, Copy, Debug, PartialEq, Eq, Structural)]
pub struct Touch {
    pub resource: ResourceId,
    pub usage: UsageFlags,
}

/// One reconciled use of a resource, stamped with the submission it belongs
/// to once the command buffer is handed to the queue.
#[derive(Clone, Copy, Debug, PartialEq, Eq, Structural)]
pub struct UsageRecord {
    pub resource: ResourceId,
    pub usage: UsageFlags,
    pub submission: u64,
}

/// A synchronization point the tracker asks of the backend: the usage of a
/// resource changes between two consecutive touches, so the backend must
/// order them.
#[derive(Clone, Copy, Debug, PartialEq, Eq, Structural)]
pub struct Barrier {
    pub resource: ResourceId,
    pub from_usage: UsageFlags,
    pub to_usage: UsageFlags,
}

/// The union of every usage a touch sequence puts one resource to.
pub open spec fn union_for(touches: Seq<Touch>, r: ResourceId) -> UsageFlags
    decreases touches.len(),
{
    if touches.len() == 0 {
        UsageFlags::spec_none()
    } else {
        let rest = union_for(touches.drop_last(), r);
        if touches.last().resource == r {
            rest.joined(touches.last().usage)
        } else {
            rest
        }
    }
}

/// A touch sequence holds a hazard when some touched resource's combined
/// usage writes and is not the sole access: a write conflicts with any
/// other access to the same resource in one unsynchronized scope.
pub open spec fn scope_has_hazard(touches: Seq<Touch>) -> bool {
    exists|i: int|
        0 <= i < touches.len() && #[trigger] union_for(touches, touches[i].resource).hazardous()
}

/// The usage of the latest record touching `r`, if any.
pub open spec fn last_usage_in(records: Seq<UsageRecord>, r: ResourceId) -> Option<UsageFlags>
    decreases records.len(),
{
    if records.len() == 0 {
        None
    } else if records.last().resource == r {
        Some(records.last().usage)
    } else {
        last_usage_in(records.drop_last(), r)
    }
}

/// The barriers a record sequence requires: one wherever a record's usage
/// differs from the same resource's previous touch, and none anywhere else,
/// so no redundant synchronization is ever emitted.
pub open spec fn barriers_spec(records: Seq<UsageRecord>) -> Seq<Barrier>
    decreases records.len(),
{
    if records.len() == 0 {
        Seq::empty()
    } else {
        let prefix = records.drop_last();
        let last = records.last();
        let earlier = barriers_spec(prefix);
        match last_usage_in(prefix, last.resource) {
            Some(u) => if u != last.usage {
                earlier.push(
                    Barrier { resource: last.resource, from_usage: u, to_usage: last.usage },
                )
            } else {
                earlier
            },
            None => earlier,
        }
    }
}

/// The record of intended resource usages, owned by the device.  Every
/// command that touches a resource adds a record; the same history drives
/// hazard reconciliation and barrier placement.
pub struct UsageTracker {
    pub records: Vec<UsageRecord>,
}

impl UsageTracker {
    /// An empty tracker.
    pub fn new() -> (t: UsageTracker)
        ensures
            t.records@ =~= Seq::<UsageRecord>::empty(),
    {
        UsageTracker { records: Vec::new() }
    }

    /// Appends one stamped record.
    pub fn record(&mut self, resource: ResourceId, usage: UsageFlags, submission: u64)
        ensures
            final(self).records@ == old(self).records@.push(
                UsageRecord { resource, usage, submission },
            ),
    {
        self.records.push(UsageRecord { resource, usage, submission });
    }

    /// The synchronization the recorded history requires of the backend: a
    /// barrier exactly where a resource's usage changes between consecutive
    /// touches.
    pub fn barriers(&self) -> (r: Vec<Barrier>)
        ensures
            r@ == barriers_spec(self.records@),
    {
        compute_barriers(&self.records)
    }
}

/// The union of every usage the touches put `r` to, computed left to right.
pub fn compute_union_for(touches: &Vec<Touch>, r: ResourceId) -> (u: UsageFlags)
    ensures
        u == union_for(touches@, r),
{
    let mut u = UsageFlags::none();
    let mut i: usize = 0;
    while i < touches.len()
        invariant
            i <= touches@.len(),
            u == union_for(touches@.take(i as int), r),
        decreases touches@.len() - i,
    {
        proof {
            assert(touches@.take(i + 1).drop_last() =~= touches@.take(i as int));
            assert(touches@.take(i + 1).last() == touches@[i as int]);
        }
        if touches[i].resource == r {
            u = u.merge(touches[i].usage);
        }
        i = i + 1;
    }
    proof {
        assert(touches@.take(touches@.len() as int) =~= touches@);
    }
    u
}

/// Looks for a hazard in one encoder scope: a resource whose combined
/// recorded usage writes and is not the sole access.  Returns such a
/// resource, or `None` when the scope is free of hazards.
pub fn find_scope_hazard(touches: &Vec<Touch>) -> (r: Option<ResourceId>)
    ensures
        r is Some <==> scope_has_hazard(touches@),
        r matches Some(id) ==> union_for(touches@, id).hazardous(),
{
    let mut i: usize = 0;
    while i < touches.len()
        invariant
            i <= touches@.len(),
            forall|j: int|
                0 <= j < i ==> !(#[trigger] union_for(
                    touches@,
                    touches@[j].resource,
                )).hazardous(),
        decreases touches@.len() - i,
    {
        let candidate = touches[i].resource;
        let u = compute_union_for(touches, candidate);
        if u.check_hazardous() {
            return Some(candidate);
        }
        i = i + 1;
    }
    None
}

/// The barriers the record sequence requires, computed in order.  For each
/// record the previous touch of the same resource is found; a barrier is
/// emitted exactly where the usage changed.
pub fn compute_barriers(records: &Vec<UsageRecord>) -> (r: Vec<Barrier>)
    ensures
        r@ == barriers_spec(records@),
{
    let mut out: Vec<Barrier> = Vec::new();
    let mut i: usize = 0;
    while i < records.len()
        invariant
            i <= records@.len(),
            out@ == barriers_spec(records@.take(i as int)),
        decreases records@.len() - i,
    {
        let cur = records[i];
        // Scan backwards for the previous touch of the same resource.
        let mut j: usize = i;
        let mut prev: Option<UsageFlags> = None;
        while j > 0 && prev.is_none()
            invariant
                j <= i,
                i < records@.len(),
                cur == records@[i as int],
                prev is None ==> last_usage_in(records@.take(i as int), cur.resource)
                    == last_usage_in(records@.take(j as int), cur.resource),
                prev matches Some(u) ==> last_usage_in(records@.take(i as int), cur.resource)
                    == Some(u),
            decreases j + (if prev is None { 1int } else { 0int }),
        {
            proof {
                assert(records@.take(j as int).drop_last() =~= records@.take(j - 1));
                assert(records@.take(j as int).last() == records@[j - 1]);
            }
            let r = records[j - 1];
            if r.resource == cur.resource {
                prev = Some(r.usage);
            } else {
                j = j - 1;
            }
        }
        proof {
            assert(records@.take(i + 1).drop_last() =~= records@.take(i as int));
            assert(records@.take(i + 1).last() == records@[i as int]);
            if j == 0 {
                assert(records@.take(0int) =~= Seq::<UsageRecord>::empty());
            }
        }
        match prev {
            Some(u) => {
                if !(u == cur.usage) {
                    out.push(
                        Barrier { resource: cur.resource, from_usage: u, to_usage: cur.usage },
                    );
                }
            },
            None => {},
        }
        i = i + 1;
    }
    proof {
        assert(records@.take(records@.len() as int) =~= records@);
    }
    out
}

} // verus!
