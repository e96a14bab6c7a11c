use crate::format::TextureFormat;
use crate::usage::UsageFlags;
use vstd::prelude::*;

verus! {

/// A generation-checked handle into a device's resource table.  The
/// generation lets the table tell a live resource from a stale handle to one
/// that was destroyed and whose slot was reused.
#[derive(Clone, Copy, Debug, PartialEq, Eq, Structural)]
pub struct ResourceId {
    /// The slot the resource lives in.
    pub index: usize,
    /// The slot's generation when the resource was created.
    pub generation: u64,
}

/// A three-dimensional extent: width, height, and depth or array layers.
#[derive(Clone, Copy, Debug, PartialEq, Eq, Structural)]
pub struct Extent3d {
    pub width: u32,
    pub height: u32,
    pub depth_or_array_layers: u32,
}

impl Extent3d {
    /// True when every dimension is non-zero.
    pub open spec fn non_zero(self) -> bool {
        self.width > 0 && self.height > 0 && self.depth_or_array_layers > 0
    }

    /// True when this extent does not exceed `other` in any dimension.
    pub open spec fn fits_within(self, other: Extent3d) -> bool {
        self.width <= other.width && self.height <= other.height && self.depth_or_array_layers
            <= other.depth_or_array_layers
    }

    /// Exec mirror of [`Self::non_zero`].
    pub fn check_non_zero(&self) -> (r: bool)
        ensures
            r == self.non_zero(),
    {
        self.width > 0 && self.height > 0 && self.depth_or_array_layers > 0
    }

    /// Exec mirror of [`Self::fits_within`].
    pub fn check_fits_within(&self, other: &Extent3d) -> (r: bool)
        ensures
            r == self.fits_within(*other),
    {
        self.width <= other.width && self.height <= other.height && self.depth_or_array_layers
            <= other.depth_or_array_layers
    }
}

/// The host's access mode for a mapped buffer.
#[derive(Clone, Copy, Debug, PartialEq, Eq, Structural)]
pub enum MapMode {
    Read,
    Write,
}

/// The mapping protocol a buffer moves through: unmapped, waiting for the
/// backend to finish mapping, mapped and host-visible, and unmapped again.
#[derive(Clone, Copy, Debug, PartialEq, Eq, Structural)]
pub enum MapState {
    Unmapped,
    Pending { mode: MapMode, request: u64 },
    Mapped { mode: MapMode },
}

/// What a buffer is created from.
pub struct BufferDescriptor {
    /// Size in bytes.
    pub size: u64,
    /// The operations the buffer may ever be put to.
    pub usage: UsageFlags,
    /// Whether the buffer starts out mapped for writing.
    pub mapped_at_creation: bool,
    /// An optional label, carried for the caller's benefit; a label never
    /// affects behaviour.
    pub label: Option<String>,
}

/// What a texture is created from.
pub struct TextureDescriptor {
    pub format: TextureFormat,
    pub extent: Extent3d,
    /// The operations the texture may ever be put to.
    pub usage: UsageFlags,
    /// Samples per texel; one of the supported sample counts.
    pub sample_count: u32,
}

/// What a texture view is created from.  The view projects its texture and
/// must declare a format and usage compatible with it.
pub struct TextureViewDescriptor {
    pub format: TextureFormat,
    pub usage: UsageFlags,
}

/// A live buffer as the device tables it.
pub struct BufferRec {
    /// Size in bytes.
    pub size: u64,
    /// The flag set fixed at creation.
    pub usage: UsageFlags,
    /// Where the buffer stands in the mapping protocol.
    pub map_state: MapState,
    /// The host mirror of a host-visible buffer's bytes; device-local
    /// buffers have none.
    pub host: Option<Vec<u8>>,
}

/// A live texture as the device tables it.
pub struct TextureRec {
    pub format: TextureFormat,
    pub extent: Extent3d,
    pub usage: UsageFlags,
    pub sample_count: u32,
}

/// A live view as the device tables it: a non-owning projection that refers
/// back to its texture by handle, never by ownership.
pub struct ViewRec {
    /// The texture the view projects.
    pub texture: ResourceId,
    pub format: TextureFormat,
    /// The subset of the texture's usage the view is declared for.
    pub usage: UsageFlags,
}

/// One tabled resource.
pub enum Resource {
    Buffer(BufferRec),
    Texture(TextureRec),
    View(ViewRec),
}

/// One slot of the resource table: its current generation and, when live,
/// its occupant.  Destroying a resource frees the slot and advances the
/// generation, so handles to the destroyed resource go stale.
pub struct Slot {
    pub generation: u64,
    pub occupant: Option<Resource>,
}

/// A host-visible window over a mapped buffer's bytes, taken while the
/// buffer is in the mapped state.  The window is a snapshot: unmapping the
/// buffer ends its validity as a view of the buffer.
pub struct MappedRange {
    /// The buffer the range was taken from.
    pub buffer: ResourceId,
    /// The first byte of the window.
    pub offset: u64,
    /// The window's bytes.
    pub bytes: Vec<u8>,
}

} // verus!
