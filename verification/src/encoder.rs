use crate::device::Device;
use crate::error::Error;
use crate::resource::{Extent3d, ResourceId};
use crate::tracker::{find_scope_hazard, scope_has_hazard, Touch};
use crate::usage::UsageFlags;
use vstd::prelude::*;

verus! {

/// The recording state machine of an encoder.
#[derive(Clone, Copy, Debug, PartialEq, Eq, Structural)]
pub enum EncoderState {
    /// Created, recording not begun.
    Initial,
    /// Open for recording commands.
    Recording,
    /// A render pass is open; only the pass can be ended.
    RenderPassActive,
    /// Encoding ended; the encoder yielded its command buffer and takes no
    /// further recording.
    Ended,
}

/// One recorded command.
#[derive(Clone, Copy, Debug, PartialEq, Eq, Structural)]
pub enum Command {
    BeginRenderPass { extent: Extent3d, sample_count: u32 },
    EndRenderPass,
    CopyBufferToBuffer { src: ResourceId, src_offset: u64, dst: ResourceId, dst_offset: u64, size: u64 },
}

/// One color attachment of a render pass.
#[derive(Clone, Copy, Debug)]
pub struct ColorAttachment {
    /// The view rendered into; its usage must include the color-target flag.
    pub view: ResourceId,
    /// Whether the attachment is cleared when the pass begins.
    pub clear: bool,
    /// An optional multisample resolve destination.
    pub resolve_target: Option<ResourceId>,
}

/// The depth/stencil attachment of a render pass.
#[derive(Clone, Copy, Debug)]
pub struct DepthStencilAttachment {
    /// The view written; its usage must include the depth-write flag.
    pub view: ResourceId,
}

/// What a render pass is begun from.
pub struct RenderPassDescriptor {
    pub color_attachments: Vec<ColorAttachment>,
    pub depth_stencil_attachment: Option<DepthStencilAttachment>,
    /// The pass extent; it must not exceed any attachment's backing texture.
    pub extent: Extent3d,
    /// Samples per pixel; it must match every attachment's backing texture.
    pub sample_count: u32,
}

/// The immutable product of a finished encoder.  Submitting consumes it, so
/// a command buffer is submitted at most once.
pub struct CommandBuffer {
    pub commands: Vec<Command>,
    pub touches: Vec<Touch>,
}

/// A mutable, exclusive recording context.  Exactly one thread may hold an
/// encoder while it records; the core adds no internal locking for it.
pub struct CommandEncoder {
    pub state: EncoderState,
    /// The commands recorded so far.
    pub commands: Vec<Command>,
    /// The resource usages the recorded commands intend.
    pub touches: Vec<Touch>,
}

/// The usage a color attachment puts its backing texture to.
pub open spec fn color_usage() -> UsageFlags {
    UsageFlags { color_target: true, ..UsageFlags::spec_none() }
}

/// The usage a depth/stencil attachment puts its backing texture to.
pub open spec fn depth_usage() -> UsageFlags {
    UsageFlags { depth_write: true, ..UsageFlags::spec_none() }
}

/// The usage a copy source is put to.
pub open spec fn copy_src_usage() -> UsageFlags {
    UsageFlags { copy_src: true, ..UsageFlags::spec_none() }
}

/// The usage a copy destination is put to.
pub open spec fn copy_dst_usage() -> UsageFlags {
    UsageFlags { copy_dst: true, ..UsageFlags::spec_none() }
}

/// A view is fit to serve as a target of the given kind in a pass of the
/// given extent and sample count: it is live, declared for the usage, its
/// backing texture is live, the pass does not exceed that texture's extent,
/// and the sample counts agree.
pub open spec fn target_ok(
    d: Device,
    view: ResourceId,
    extent: Extent3d,
    sample_count: u32,
    wants_color: bool,
) -> bool {
    &&& d.is_live_view(view)
    &&& (if wants_color {
        d.spec_view(view).usage.color_target
    } else {
        d.spec_view(view).usage.depth_write
    })
    &&& d.is_live_texture(d.spec_view(view).texture)
    &&& extent.fits_within(d.spec_texture(d.spec_view(view).texture).extent)
    &&& sample_count == d.spec_texture(d.spec_view(view).texture).sample_count
}

/// One color attachment is fit for the pass, resolve destination included.
pub open spec fn attachment_ok(
    d: Device,
    a: ColorAttachment,
    extent: Extent3d,
    sample_count: u32,
) -> bool {
    &&& target_ok(d, a.view, extent, sample_count, true)
    &&& match a.resolve_target {
        Some(rv) => target_ok(d, rv, extent, 1, true),
        None => true,
    }
}

/// The whole descriptor is fit: at least one attachment, every color
/// attachment fit, and the depth/stencil attachment fit where present.
pub open spec fn pass_valid(d: Device, desc: RenderPassDescriptor) -> bool {
    &&& desc.color_attachments@.len() > 0 || desc.depth_stencil_attachment is Some
    &&& forall|i: int|
        0 <= i < desc.color_attachments@.len() ==> attachment_ok(
            d,
            #[trigger] desc.color_attachments@[i],
            desc.extent,
            desc.sample_count,
        )
    &&& match desc.depth_stencil_attachment {
        Some(a) => target_ok(d, a.view, desc.extent, desc.sample_count, false),
        None => true,
    }
}

/// The usages a sequence of color attachments records against their backing
/// textures, in attachment order, resolve destinations included.
pub open spec fn color_touches(d: Device, atts: Seq<ColorAttachment>) -> Seq<Touch>
    decreases atts.len(),
{
    if atts.len() == 0 {
        Seq::empty()
    } else {
        let a = atts.last();
        let own = seq![
            Touch { resource: d.spec_view(a.view).texture, usage: color_usage() },
        ] + match a.resolve_target {
            Some(rv) => seq![Touch { resource: d.spec_view(rv).texture, usage: color_usage() }],
            None => Seq::empty(),
        };
        color_touches(d, atts.drop_last()) + own
    }
}

/// The usages a whole pass descriptor records.
pub open spec fn pass_touches(d: Device, desc: RenderPassDescriptor) -> Seq<Touch> {
    color_touches(d, desc.color_attachments@) + match desc.depth_stencil_attachment {
        Some(a) => seq![Touch { resource: d.spec_view(a.view).texture, usage: depth_usage() }],
        None => Seq::empty(),
    }
}

impl CommandEncoder {
    /// A fresh encoder, before recording begins.  Encoders are handed out by
    /// the device factory.
    pub(crate) fn fresh() -> (e: CommandEncoder)
        ensures
            e.state == EncoderState::Initial,
            e.commands@.len() == 0,
            e.touches@.len() == 0,
    {
        CommandEncoder { state: EncoderState::Initial, commands: Vec::new(), touches: Vec::new() }
    }

    /// Opens the encoder for recording.  Fails with `InvalidState`, changing
    /// nothing, unless the encoder is still in its initial state.
    pub fn begin_encoding(&mut self) -> (r: Result<(), Error>)
        ensures
            r is Ok <==> old(self).state == EncoderState::Initial,
            r is Ok ==> *final(self) == (CommandEncoder {
                state: EncoderState::Recording,
                ..*old(self)
            }),
            r is Err ==> r == Err::<(), Error>(Error::InvalidState) && *final(self) == *old(self),
    {
        if !(self.state == EncoderState::Initial) {
            return Err(Error::InvalidState);
        }
        self.state = EncoderState::Recording;
        Ok(())
    }

    /// Opens a render pass.  The encoder must be recording and outside a
    /// pass, every named view must be live and declared for its target
    /// usage, the pass extent must not exceed any attachment's backing
    /// texture, and the sample counts must agree; otherwise the call fails
    /// and changes nothing.  On success the attachments' intended usages are
    /// recorded for reconciliation at the end of encoding.
    pub fn begin_render_pass(&mut self, device: &Device, desc: &RenderPassDescriptor) -> (r: Result<
        (),
        Error,
    >)
        ensures
            r is Ok <==> old(self).state == EncoderState::Recording && pass_valid(*device, *desc),
            old(self).state != EncoderState::Recording ==> r == Err::<(), Error>(
                Error::InvalidState,
            ),
            old(self).state == EncoderState::Recording && !pass_valid(*device, *desc) ==> r
                == Err::<(), Error>(Error::InvalidUsage),
            r is Err ==> *final(self) == *old(self),
            r is Ok ==> final(self).state == EncoderState::RenderPassActive && final(self).commands@ == old(self).commands@.push(
                Command::BeginRenderPass { extent: desc.extent, sample_count: desc.sample_count },
            ) && final(self).touches@ == old(self).touches@ + pass_touches(*device, *desc),
    {
        if !(self.state == EncoderState::Recording) {
            return Err(Error::InvalidState);
        }
        if desc.color_attachments.len() == 0 && desc.depth_stencil_attachment.is_none() {
            return Err(Error::InvalidUsage);
        }
        let mut new_touches: Vec<Touch> = Vec::new();
        let mut i: usize = 0;
        while i < desc.color_attachments.len()
            invariant
                *self == *old(self),
                old(self).state == EncoderState::Recording,
                i <= desc.color_attachments@.len(),
                forall|j: int|
                    0 <= j < i ==> attachment_ok(
                        *device,
                        #[trigger] desc.color_attachments@[j],
                        desc.extent,
                        desc.sample_count,
                    ),
                new_touches@ == color_touches(*device, desc.color_attachments@.take(i as int)),
            decreases desc.color_attachments@.len() - i,
        {
            let a = desc.color_attachments[i];
            if !check_target(device, a.view, &desc.extent, desc.sample_count, true) {
                return Err(Error::InvalidUsage);
            }
            let tex = device.get_view(a.view).unwrap().texture;
            new_touches.push(Touch { resource: tex, usage: UsageFlags::none().with_color_target() });
            match a.resolve_target {
                Some(rv) => {
                    if !check_target(device, rv, &desc.extent, 1, true) {
                        return Err(Error::InvalidUsage);
                    }
                    let rtex = device.get_view(rv).unwrap().texture;
                    new_touches.push(
                        Touch { resource: rtex, usage: UsageFlags::none().with_color_target() },
                    );
                },
                None => {},
            }
            proof {
                assert(desc.color_attachments@.take(i + 1).drop_last() =~= desc.color_attachments@
                    .take(i as int));
                assert(desc.color_attachments@.take(i + 1).last() == desc.color_attachments@[
                    i as int]);
            }
            i = i + 1;
        }
        proof {
            assert(desc.color_attachments@.take(desc.color_attachments@.len() as int)
                =~= desc.color_attachments@);
        }
        match &desc.depth_stencil_attachment {
            Some(a) => {
                if !check_target(device, a.view, &desc.extent, desc.sample_count, false) {
                    return Err(Error::InvalidUsage);
                }
                let dtex = device.get_view(a.view).unwrap().texture;
                new_touches.push(
                    Touch { resource: dtex, usage: UsageFlags::none().with_depth_write() },
                );
            },
            None => {},
        }
        self.state = EncoderState::RenderPassActive;
        self.commands.push(
            Command::BeginRenderPass { extent: desc.extent, sample_count: desc.sample_count },
        );
        self.touches.append(&mut new_touches);
        Ok(())
    }

    /// Closes the open render pass and returns to plain recording.  Fails
    /// with `InvalidState`, changing nothing, when no pass is open.
    pub fn end_render_pass(&mut self) -> (r: Result<(), Error>)
        ensures
            r is Ok <==> old(self).state == EncoderState::RenderPassActive,
            r is Ok ==> final(self).state == EncoderState::Recording && final(self).commands@
                == old(self).commands@.push(Command::EndRenderPass) && final(self).touches@ == old(self).touches@,
            r is Err ==> r == Err::<(), Error>(Error::InvalidState) && *final(self) == *old(self),
    {
        if !(self.state == EncoderState::RenderPassActive) {
            return Err(Error::InvalidState);
        }
        self.state = EncoderState::Recording;
        self.commands.push(Command::EndRenderPass);
        Ok(())
    }

    /// Records a copy of `size` bytes between two buffers.  The encoder must
    /// be recording and outside a pass; the source must be live and declared
    /// copy-source, the destination live and declared copy-destination, and
    /// both ranges in bounds; otherwise the call fails and changes nothing.
    pub fn copy_buffer_to_buffer(
        &mut self,
        device: &Device,
        src: ResourceId,
        src_offset: u64,
        dst: ResourceId,
        dst_offset: u64,
        size: u64,
    ) -> (r: Result<(), Error>)
        ensures
            r is Ok <==> old(self).state == EncoderState::Recording && copy_args_ok(
                *device,
                src,
                src_offset,
                dst,
                dst_offset,
                size,
            ),
            old(self).state != EncoderState::Recording ==> r == Err::<(), Error>(
                Error::InvalidState,
            ),
            old(self).state == EncoderState::Recording && !copy_args_ok(
                *device,
                src,
                src_offset,
                dst,
                dst_offset,
                size,
            ) ==> r == Err::<(), Error>(Error::InvalidUsage),
            r is Err ==> *final(self) == *old(self),
            r is Ok ==> final(self).state == EncoderState::Recording && final(self).commands@
                == old(self).commands@.push(
                Command::CopyBufferToBuffer { src, src_offset, dst, dst_offset, size },
            ) && final(self).touches@ == old(self).touches@.push(
                Touch { resource: src, usage: copy_src_usage() },
            ).push(Touch { resource: dst, usage: copy_dst_usage() }),
    {
        if !(self.state == EncoderState::Recording) {
            return Err(Error::InvalidState);
        }
        let src_ok = match device.get_buffer(src) {
            Some(b) => b.usage.copy_src && size <= b.size && src_offset <= b.size - size,
            None => false,
        };
        let dst_ok = match device.get_buffer(dst) {
            Some(b) => b.usage.copy_dst && size <= b.size && dst_offset <= b.size - size,
            None => false,
        };
        if !src_ok || !dst_ok {
            return Err(Error::InvalidUsage);
        }
        self.commands.push(Command::CopyBufferToBuffer { src, src_offset, dst, dst_offset, size });
        self.touches.push(Touch { resource: src, usage: UsageFlags::none().with_copy_src() });
        self.touches.push(Touch { resource: dst, usage: UsageFlags::none().with_copy_dst() });
        Ok(())
    }

    /// Ends encoding.  The encoder must be recording with no pass open, and
    /// the recorded usages are reconciled: a resource whose combined usage
    /// writes and is not the sole access is a hazard, reported here at
    /// encode time with `ResourceHazard` and the encoder left unchanged.  On
    /// success the encoder is sealed and yields its command buffer; every
    /// later recording call fails with `InvalidState`.
    pub fn end_encoding(&mut self) -> (r: Result<CommandBuffer, Error>)
        ensures
            r is Ok <==> old(self).state == EncoderState::Recording && !scope_has_hazard(
                old(self).touches@,
            ),
            old(self).state != EncoderState::Recording ==> r == Err::<CommandBuffer, Error>(
                Error::InvalidState,
            ),
            old(self).state == EncoderState::Recording && scope_has_hazard(old(self).touches@)
                ==> r == Err::<CommandBuffer, Error>(Error::ResourceHazard),
            r is Err ==> *final(self) == *old(self),
            r matches Ok(cb) ==> cb.commands@ == old(self).commands@ && cb.touches@ == old(self).touches@ && final(self).state == EncoderState::Ended && final(self).commands@.len()
                == 0 && final(self).touches@.len() == 0,
    {
        if !(self.state == EncoderState::Recording) {
            return Err(Error::InvalidState);
        }
        match find_scope_hazard(&self.touches) {
            Some(_) => Err(Error::ResourceHazard),
            None => {
                self.state = EncoderState::Ended;
                let mut commands: Vec<Command> = Vec::new();
                let mut touches: Vec<Touch> = Vec::new();
                core::mem::swap(&mut commands, &mut self.commands);
                core::mem::swap(&mut touches, &mut self.touches);
                Ok(CommandBuffer { commands, touches })
            },
        }
    }
}

/// Both ends of a recorded copy are fit: live buffers declared for their
/// copy direction, with the copied range inside each.
pub open spec fn copy_args_ok(
    d: Device,
    src: ResourceId,
    src_offset: u64,
    dst: ResourceId,
    dst_offset: u64,
    size: u64,
) -> bool {
    &&& d.is_live_buffer(src)
    &&& d.spec_buffer(src).usage.copy_src
    &&& src_offset + size <= d.spec_buffer(src).size
    &&& d.is_live_buffer(dst)
    &&& d.spec_buffer(dst).usage.copy_dst
    &&& dst_offset + size <= d.spec_buffer(dst).size
}

/// Exec mirror of [`target_ok`].
fn check_target(
    device: &Device,
    view: ResourceId,
    extent: &Extent3d,
    sample_count: u32,
    wants_color: bool,
) -> (r: bool)
    ensures
        r == target_ok(*device, view, *extent, sample_count, wants_color),
{
    match device.get_view(view) {
        Some(v) => {
            let usage_ok = if wants_color {
                v.usage.color_target
            } else {
                v.usage.depth_write
            };
            if !usage_ok {
                return false;
            }
            match device.get_texture(v.texture) {
                Some(t) => extent.check_fits_within(&t.extent) && sample_count == t.sample_count,
                None => false,
            }
        },
        None => false,
    }
}

} // verus!
