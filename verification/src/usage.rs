use vstd::prelude::*;

verus! {

/// The set of operations a resource is declared for at creation and put to by
/// recorded commands.  Every use of a resource is validated against the flag
/// set fixed when it was created.
#[derive(Clone, Copy, Debug, PartialEq, Eq, Structural)]
pub struct UsageFlags {
    /// Source of a copy command.
    pub copy_src: bool,
    /// Destination of a copy command.
    pub copy_dst: bool,
    /// Host-readable mapping.
    pub map_read: bool,
    /// Host-writable mapping.
    pub map_write: bool,
    /// Color attachment of a render pass.
    pub color_target: bool,
    /// Depth/stencil attachment of a render pass.
    pub depth_write: bool,
    /// Sampled (shader-read) use.
    pub sampled: bool,
}

impl UsageFlags {
    /// The empty flag set.
    pub open spec fn spec_none() -> UsageFlags {
        UsageFlags {
            copy_src: false,
            copy_dst: false,
            map_read: false,
            map_write: false,
            color_target: false,
            depth_write: false,
            sampled: false,
        }
    }

    /// The empty flag set.
    pub fn none() -> (u: UsageFlags)
        ensures
            u == UsageFlags::spec_none(),
    {
        UsageFlags {
            copy_src: false,
            copy_dst: false,
            map_read: false,
            map_write: false,
            color_target: false,
            depth_write: false,
            sampled: false,
        }
    }

    /// True when no flag is set.
    pub open spec fn is_empty(self) -> bool {
        self == UsageFlags::spec_none()
    }

    /// True when any flag that writes the resource is set.
    pub open spec fn writes(self) -> bool {
        self.copy_dst || self.map_write || self.color_target || self.depth_write
    }

    /// How many distinct access kinds the set holds.
    pub open spec fn flag_count(self) -> int {
        (if self.copy_src { 1int } else { 0int }) + (if self.copy_dst { 1int } else { 0int })
            + (if self.map_read { 1int } else { 0int }) + (if self.map_write { 1int } else { 0int })
            + (if self.color_target { 1int } else { 0int }) + (if self.depth_write {
            1int
        } else {
            0int
        }) + (if self.sampled { 1int } else { 0int })
    }

    /// A combined usage is a hazard when it writes and is not the only access:
    /// a write must be the sole way the resource is touched in one
    /// unsynchronized scope.
    pub open spec fn hazardous(self) -> bool {
        self.writes() && self.flag_count() >= 2
    }

    /// Every flag of `self` is also set in `other`.
    pub open spec fn subset_of(self, other: UsageFlags) -> bool {
        &&& self.copy_src ==> other.copy_src
        &&& self.copy_dst ==> other.copy_dst
        &&& self.map_read ==> other.map_read
        &&& self.map_write ==> other.map_write
        &&& self.color_target ==> other.color_target
        &&& self.depth_write ==> other.depth_write
        &&& self.sampled ==> other.sampled
    }

    /// The union of two flag sets.
    pub open spec fn joined(self, other: UsageFlags) -> UsageFlags {
        UsageFlags {
            copy_src: self.copy_src || other.copy_src,
            copy_dst: self.copy_dst || other.copy_dst,
            map_read: self.map_read || other.map_read,
            map_write: self.map_write || other.map_write,
            color_target: self.color_target || other.color_target,
            depth_write: self.depth_write || other.depth_write,
            sampled: self.sampled || other.sampled,
        }
    }

    /// The union of two flag sets.
    pub fn merge(self, other: UsageFlags) -> (r: UsageFlags)
        ensures
            r == self.joined(other),
    {
        UsageFlags {
            copy_src: self.copy_src || other.copy_src,
            copy_dst: self.copy_dst || other.copy_dst,
            map_read: self.map_read || other.map_read,
            map_write: self.map_write || other.map_write,
            color_target: self.color_target || other.color_target,
            depth_write: self.depth_write || other.depth_write,
            sampled: self.sampled || other.sampled,
        }
    }

    /// True when the set is a lawful declaration for a buffer: not empty, no
    /// texture-only flag, and a mapping mode combined only with the one copy
    /// direction that feeds it (host-readable with copy-destination,
    /// host-writable with copy-source).
    pub open spec fn valid_for_buffer(self) -> bool {
        &&& !self.is_empty()
        &&& !self.color_target
        &&& !self.depth_write
        &&& !self.sampled
        &&& !(self.map_read && self.map_write)
        &&& self.map_read ==> !self.copy_src && !self.map_write
        &&& self.map_write ==> !self.copy_dst
    }

    /// True when the set is a lawful declaration for a texture: not empty and
    /// without the host-mapping flags, which only buffers support.
    pub open spec fn valid_for_texture(self) -> bool {
        &&& !self.is_empty()
        &&& !self.map_read
        &&& !self.map_write
    }

    /// True when the set declares a host-visible mapping mode.
    pub open spec fn host_visible(self) -> bool {
        self.map_read || self.map_write
    }

    /// Exec mirror of [`Self::valid_for_buffer`].
    pub fn check_valid_for_buffer(&self) -> (r: bool)
        ensures
            r == self.valid_for_buffer(),
    {
        let not_empty = self.copy_src || self.copy_dst || self.map_read || self.map_write
            || self.color_target || self.depth_write || self.sampled;
        not_empty && !self.color_target && !self.depth_write && !self.sampled && !(self.map_read
            && self.map_write) && (!self.map_read || !self.copy_src) && (!self.map_write
            || !self.copy_dst)
    }

    /// Exec mirror of [`Self::valid_for_texture`].
    pub fn check_valid_for_texture(&self) -> (r: bool)
        ensures
            r == self.valid_for_texture(),
    {
        let not_empty = self.copy_src || self.copy_dst || self.map_read || self.map_write
            || self.color_target || self.depth_write || self.sampled;
        not_empty && !self.map_read && !self.map_write
    }

    /// Exec mirror of [`Self::subset_of`].
    pub fn check_subset_of(&self, other: &UsageFlags) -> (r: bool)
        ensures
            r == self.subset_of(*other),
    {
        (!self.copy_src || other.copy_src) && (!self.copy_dst || other.copy_dst) && (!self.map_read
            || other.map_read) && (!self.map_write || other.map_write) && (!self.color_target
            || other.color_target) && (!self.depth_write || other.depth_write) && (!self.sampled
            || other.sampled)
    }

    /// Exec mirror of [`Self::hazardous`].
    pub fn check_hazardous(&self) -> (r: bool)
        ensures
            r == self.hazardous(),
    {
        let writes = self.copy_dst || self.map_write || self.color_target || self.depth_write;
        let mut count: u32 = 0;
        if self.copy_src {
            count = count + 1;
        }
        if self.copy_dst {
            count = count + 1;
        }
        if self.map_read {
            count = count + 1;
        }
        if self.map_write {
            count = count + 1;
        }
        if self.color_target {
            count = count + 1;
        }
        if self.depth_write {
            count = count + 1;
        }
        if self.sampled {
            count = count + 1;
        }
        writes && count >= 2
    }

    /// The set with the copy-source flag added.
    pub fn with_copy_src(self) -> (r: UsageFlags)
        ensures
            r == (UsageFlags { copy_src: true, ..self }),
    {
        UsageFlags { copy_src: true, ..self }
    }

    /// The set with the copy-destination flag added.
    pub fn with_copy_dst(self) -> (r: UsageFlags)
        ensures
            r == (UsageFlags { copy_dst: true, ..self }),
    {
        UsageFlags { copy_dst: true, ..self }
    }

    /// The set with the host-readable flag added.
    pub fn with_map_read(self) -> (r: UsageFlags)
        ensures
            r == (UsageFlags { map_read: true, ..self }),
    {
        UsageFlags { map_read: true, ..self }
    }

    /// The set with the host-writable flag added.
    pub fn with_map_write(self) -> (r: UsageFlags)
        ensures
            r == (UsageFlags { map_write: true, ..self }),
    {
        UsageFlags { map_write: true, ..self }
    }

    /// The set with the color-attachment flag added.
    pub fn with_color_target(self) -> (r: UsageFlags)
        ensures
            r == (UsageFlags { color_target: true, ..self }),
    {
        UsageFlags { color_target: true, ..self }
    }

    /// The set with the depth/stencil-attachment flag added.
    pub fn with_depth_write(self) -> (r: UsageFlags)
        ensures
            r == (UsageFlags { depth_write: true, ..self }),
    {
        UsageFlags { depth_write: true, ..self }
    }

    /// The set with the sampled flag added.
    pub fn with_sampled(self) -> (r: UsageFlags)
        ensures
            r == (UsageFlags { sampled: true, ..self }),
    {
        UsageFlags { sampled: true, ..self }
    }
}

} // verus!
