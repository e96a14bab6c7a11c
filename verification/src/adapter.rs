use crate::device::Device;
use crate::error::Error;
use vstd::prelude::*;

verus! {

/// The backend family an adapter drives.
#[derive(Clone, Copy, Debug, PartialEq, Eq, Structural)]
pub enum Backend {
    Vulkan,
    Metal,
    Dx12,
    Gl,
}

/// A feature set, as a bit set: one bit per optional capability.
#[derive(Clone, Copy, Debug, PartialEq, Eq, Structural)]
pub struct Features {
    pub bits: u64,
}

impl Features {
    /// No optional capability.
    pub fn empty() -> (f: Features)
        ensures
            f.bits == 0,
    {
        Features { bits: 0 }
    }

    /// Every capability of `self` is also in `other`.
    pub open spec fn subset_of(self, other: Features) -> bool {
        self.bits & !other.bits == 0
    }

    /// Exec mirror of [`Self::subset_of`].
    pub fn check_subset_of(&self, other: &Features) -> (r: bool)
        ensures
            r == self.subset_of(*other),
    {
        self.bits & !other.bits == 0
    }
}

/// The numeric capability limits a device is opened with.
#[derive(Clone, Copy, Debug, PartialEq, Eq, Structural)]
pub struct Limits {
    /// The largest buffer a device will allocate, in bytes.
    pub max_buffer_size: u64,
    /// The largest width or height of a texture.
    pub max_texture_dimension: u32,
    /// The most color attachments one render pass may name.
    pub max_color_attachments: u32,
}

impl Limits {
    /// Every limit of `self` is within what `cap` offers.
    pub open spec fn within(self, cap: Limits) -> bool {
        &&& self.max_buffer_size <= cap.max_buffer_size
        &&& self.max_texture_dimension <= cap.max_texture_dimension
        &&& self.max_color_attachments <= cap.max_color_attachments
    }

    /// Exec mirror of [`Self::within`].
    pub fn check_within(&self, cap: &Limits) -> (r: bool)
        ensures
            r == self.within(*cap),
    {
        self.max_buffer_size <= cap.max_buffer_size && self.max_texture_dimension
            <= cap.max_texture_dimension && self.max_color_attachments <= cap.max_color_attachments
    }
}

/// What identifies one discovered backend/device pairing.
#[derive(Clone, Copy, Debug, PartialEq, Eq, Structural)]
pub struct AdapterInfo {
    pub backend: Backend,
    /// The PCI-style vendor identifier.
    pub vendor: u32,
    /// The PCI-style device identifier.
    pub device: u32,
}

/// What a probe of the platform reports for one discovered pairing.  The
/// probe itself talks to drivers and is the platform's affair; the core
/// turns its reports into adapters.
#[derive(Clone, Copy, Debug, PartialEq, Eq, Structural)]
pub struct Probe {
    pub info: AdapterInfo,
    pub features: Features,
    pub limits: Limits,
}

/// Whether an externally owned native context is current on the calling
/// thread.  The state is mutated only by the windowing-event handler, never
/// implicitly, so no hidden global context state exists.
#[derive(Clone, Copy, Debug, PartialEq, Eq, Structural)]
pub enum ContextState {
    NotCurrent,
    /// Current, with the surface and window handles it is bound to.
    Current { surface: u64, window: u64 },
}

/// An externally owned native context, adopted rather than created: the
/// core never creates a native context on this path and must not destroy
/// one it did not create.
#[derive(Clone, Copy, Debug, PartialEq, Eq, Structural)]
pub struct ExternalContext {
    pub state: ContextState,
}

impl ExternalContext {
    /// An adopted context that is not current yet.
    pub fn new() -> (c: ExternalContext)
        ensures
            c.state == ContextState::NotCurrent,
    {
        ExternalContext { state: ContextState::NotCurrent }
    }

    /// Makes the context current on the given surface and window, as the
    /// windowing-event handler does on resume.  Fails with `InvalidState`,
    /// changing nothing, when the context is already current.
    pub fn make_current(&mut self, surface: u64, window: u64) -> (r: Result<(), Error>)
        ensures
            r is Ok <==> old(self).state == ContextState::NotCurrent,
            r is Ok ==> final(self).state == (ContextState::Current { surface, window }),
            r is Err ==> r == Err::<(), Error>(Error::InvalidState) && *final(self) == *old(self),
    {
        if !(self.state == ContextState::NotCurrent) {
            return Err(Error::InvalidState);
        }
        self.state = ContextState::Current { surface, window };
        Ok(())
    }

    /// Releases currency, as the handler does on suspend.  Fails with
    /// `InvalidState`, changing nothing, when the context is not current.
    pub fn make_not_current(&mut self) -> (r: Result<(), Error>)
        ensures
            r is Ok <==> old(self).state is Current,
            r is Ok ==> final(self).state == ContextState::NotCurrent,
            r is Err ==> r == Err::<(), Error>(Error::InvalidState) && *final(self) == *old(self),
    {
        match self.state {
            ContextState::Current { .. } => {
                self.state = ContextState::NotCurrent;
                Ok(())
            },
            ContextState::NotCurrent => Err(Error::InvalidState),
        }
    }
}

/// A handle to one discovered backend/device pairing, before it is opened.
/// Immutable after creation but for the record of having been opened: an
/// adapter produces at most one open device.
pub struct Adapter {
    pub info: AdapterInfo,
    /// The capabilities the adapter reports.
    pub features: Features,
    pub limits: Limits,
    /// Whether the adapter adopted an externally owned context.
    pub external: bool,
    /// Whether a device has been opened from this adapter.
    pub opened: bool,
}

impl Adapter {
    /// One adapter per discovered pairing, in probe order.  Re-enumeration
    /// re-probes, so the caller passes what this probe reported.
    pub fn enumerate(probed: Vec<Probe>) -> (r: Vec<Adapter>)
        ensures
            r@.len() == probed@.len(),
            forall|i: int|
                0 <= i < probed@.len() ==> (#[trigger] r@[i]) == (Adapter {
                    info: probed@[i].info,
                    features: probed@[i].features,
                    limits: probed@[i].limits,
                    external: false,
                    opened: false,
                }),
    {
        let mut out: Vec<Adapter> = Vec::new();
        let mut i: usize = 0;
        while i < probed.len()
            invariant
                i <= probed@.len(),
                out@.len() == i,
                forall|k: int|
                    0 <= k < i ==> (#[trigger] out@[k]) == (Adapter {
                        info: probed@[k].info,
                        features: probed@[k].features,
                        limits: probed@[k].limits,
                        external: false,
                        opened: false,
                    }),
            decreases probed@.len() - i,
        {
            let p = probed[i];
            out.push(
                Adapter {
                    info: p.info,
                    features: p.features,
                    limits: p.limits,
                    external: false,
                    opened: false,
                },
            );
            i = i + 1;
        }
        out
    }

    /// Adopts an already-current external context as an adapter.  The probe
    /// reports what the adopted context exposes.  Fails with `InvalidState`
    /// when the context is not current — the symbol loader is only usable
    /// with a current context — and never creates or destroys a native
    /// context: the context is read, not touched.
    pub fn new_external(ctx: &ExternalContext, probe: Probe) -> (r: Result<Adapter, Error>)
        ensures
            r is Ok <==> ctx.state is Current,
            !(ctx.state is Current) ==> r == Err::<Adapter, Error>(Error::InvalidState),
            r matches Ok(a) ==> a == (Adapter {
                info: probe.info,
                features: probe.features,
                limits: probe.limits,
                external: true,
                opened: false,
            }),
    {
        match ctx.state {
            ContextState::Current { .. } => Ok(
                Adapter {
                    info: probe.info,
                    features: probe.features,
                    limits: probe.limits,
                    external: true,
                    opened: false,
                },
            ),
            ContextState::NotCurrent => Err(Error::InvalidState),
        }
    }

    /// Whether an open with these arguments is accepted.
    pub open spec fn open_ok(self, features: Features, limits: Limits) -> bool {
        &&& !self.opened
        &&& features.subset_of(self.features)
        &&& limits.within(self.limits)
    }

    /// Opens the adapter into a device granted the requested features and
    /// limits.
    ///
    /// Fails with `UnsupportedFeature` when a requested feature or limit
    /// exceeds what the adapter reports, and with `DeviceLost` when the
    /// backend rejects creation — here, when a device was already opened
    /// from this adapter, which produces at most one.  On failure nothing
    /// changes.
    pub fn open(&mut self, features: Features, limits: Limits) -> (r: Result<Device, Error>)
        ensures
            r is Ok <==> old(self).open_ok(features, limits),
            old(self).opened ==> r == Err::<Device, Error>(Error::DeviceLost),
            !old(self).opened && !old(self).open_ok(features, limits) ==> r == Err::<
                Device,
                Error,
            >(Error::UnsupportedFeature),
            r is Err ==> *final(self) == *old(self),
            r matches Ok(d) ==> {
                &&& *final(self) == (Adapter { opened: true, ..*old(self) })
                &&& d.wf()
                &&& !d.lost
                &&& d.features == features
                &&& d.limits == limits
                &&& d.slots@.len() == 0
                &&& d.queue.pending@.len() == 0
                &&& d.queue.last_signaled == 0
                &&& d.queue.observed == 0
                &&& d.queue.next_submission_index == 0
                &&& d.pending_maps@.len() == 0
                &&& d.next_map_request == 0
                &&& d.tracker.records@.len() == 0
            },
    {
        if self.opened {
            return Err(Error::DeviceLost);
        }
        if !features.check_subset_of(&self.features) || !limits.check_within(&self.limits) {
            return Err(Error::UnsupportedFeature);
        }
        self.opened = true;
        Ok(Device::new(features, limits))
    }
}

/// The decimal digit as a character.
pub open spec fn digit_char(d: nat) -> char {
    if d == 0 {
        '0'
    } else if d == 1 {
        '1'
    } else if d == 2 {
        '2'
    } else if d == 3 {
        '3'
    } else if d == 4 {
        '4'
    } else if d == 5 {
        '5'
    } else if d == 6 {
        '6'
    } else if d == 7 {
        '7'
    } else if d == 8 {
        '8'
    } else {
        '9'
    }
}

/// The decimal spelling of a number, most significant digit first.
pub open spec fn dec_chars(n: nat) -> Seq<char>
    decreases n,
{
    if n < 10 {
        seq![digit_char(n)]
    } else {
        dec_chars(n / 10).push(digit_char(n % 10))
    }
}

/// One decimal digit as a string slice.
fn digit_str(d: u64) -> (s: &'static str)
    requires
        d < 10,
    ensures
        s@ =~= seq![digit_char(d as nat)],
{
    if d == 0 {
        proof {
            reveal_strlit("0");
        }
        "0"
    } else if d == 1 {
        proof {
            reveal_strlit("1");
        }
        "1"
    } else if d == 2 {
        proof {
            reveal_strlit("2");
        }
        "2"
    } else if d == 3 {
        proof {
            reveal_strlit("3");
        }
        "3"
    } else if d == 4 {
        proof {
            reveal_strlit("4");
        }
        "4"
    } else if d == 5 {
        proof {
            reveal_strlit("5");
        }
        "5"
    } else if d == 6 {
        proof {
            reveal_strlit("6");
        }
        "6"
    } else if d == 7 {
        proof {
            reveal_strlit("7");
        }
        "7"
    } else if d == 8 {
        proof {
            reveal_strlit("8");
        }
        "8"
    } else {
        proof {
            reveal_strlit("9");
        }
        "9"
    }
}

/// The decimal spelling of a number.
pub fn u64_to_decimal(n: u64) -> (s: String)
    ensures
        s@ == dec_chars(n as nat),
    decreases n,
{
    if n < 10 {
        String::from_str(digit_str(n))
    } else {
        let mut s = u64_to_decimal(n / 10);
        s.append(digit_str(n % 10));
        proof {
            assert(s@ =~= dec_chars(n as nat));
        }
        s
    }
}

/// The characters of the cache key for a Vulkan-family adapter.
pub open spec fn cache_key_chars(vendor: u32, device: u32) -> Seq<char> {
    "wgpu_pipeline_cache_vulkan_"@ + dec_chars(vendor as nat) + "_"@ + dec_chars(device as nat)
}

/// A filesystem-safe key under which compiled-pipeline caches for this
/// class of adapters may be stored: composed deterministically from the
/// vendor and device identifiers.  Only the Vulkan backend family supports
/// an application-managed cache here; every other family reports `None`.
pub fn pipeline_cache_key(adapter_info: &AdapterInfo) -> (r: Option<String>)
    ensures
        adapter_info.backend == Backend::Vulkan ==> (r matches Some(s) && s@ == cache_key_chars(
            adapter_info.vendor,
            adapter_info.device,
        )),
        adapter_info.backend != Backend::Vulkan ==> r is None,
{
    match adapter_info.backend {
        Backend::Vulkan => {
            let mut s = String::from_str("wgpu_pipeline_cache_vulkan_");
            let vendor = u64_to_decimal(adapter_info.vendor as u64);
            s.append(vendor.as_str());
            s.append("_");
            let device = u64_to_decimal(adapter_info.device as u64);
            s.append(device.as_str());
            proof {
                assert(s@ =~= cache_key_chars(adapter_info.vendor, adapter_info.device));
            }
            Some(s)
        },
        _ => None,
    }
}

} // verus!
