//! A plain-data model of the native graphics device as the backend sees it:
//! a capability level and the device-resident resources the host has
//! registered, each addressed by a positive handle id. A texture or buffer
//! with handle id `i` lives at index `i - 1`.

use vstd::prelude::*;

use crate::render_api::Handle;

verus! {

/// The feature threshold at and above which the depth convention is
/// reversed (near mapped to depth 1).
pub const REVERSE_Z_FEATURE_LEVEL: u32 = 0xa000;

/// The backend's view of the bound native device.
pub struct DeviceModel {
    /// The capability level the device reports; fixed for its lifetime.
    pub feature_level: u32,
    /// Contents of each registered texture, by handle id minus one.
    pub textures: Vec<Vec<u8>>,
    /// Contents of each registered mappable buffer, by handle id minus one.
    pub buffers: Vec<Vec<u8>>,
}

impl DeviceModel {
    /// Every mappable buffer is small enough for its byte size to be
    /// reported in a 32-bit value.
    pub open spec fn wf(self) -> bool {
        forall|i: int| 0 <= i < self.buffers@.len() ==> #[trigger] self.buffers@[i]@.len()
            <= 0x7fff_ffff
    }

    /// Whether `h` refers to a registered texture.
    pub open spec fn spec_has_texture(self, h: Handle) -> bool {
        1 <= h.id <= self.textures@.len()
    }

    /// The bytes of the texture `h` refers to.
    pub open spec fn spec_texture(self, h: Handle) -> Seq<u8> {
        self.textures@[h.id - 1]@
    }

    /// Whether `h` refers to a registered mappable buffer.
    pub open spec fn spec_has_buffer(self, h: Handle) -> bool {
        1 <= h.id <= self.buffers@.len()
    }

    /// The bytes of the buffer `h` refers to.
    pub open spec fn spec_buffer(self, h: Handle) -> Seq<u8> {
        self.buffers@[h.id - 1]@
    }

    /// A device with no registered resources.
    pub fn new(feature_level: u32) -> (d: DeviceModel)
        ensures
            d.feature_level == feature_level,
            d.textures@.len() == 0,
            d.buffers@.len() == 0,
            d.wf(),
    {
        DeviceModel { feature_level, textures: Vec::new(), buffers: Vec::new() }
    }

    /// Registers a texture and hands back its handle.
    pub fn register_texture(&mut self, texels: Vec<u8>) -> (h: Handle)
        requires
            old(self).textures@.len() < usize::MAX,
        ensures
            h.id == old(self).textures@.len() + 1,
            final(self).textures@ == old(self).textures@.push(texels),
            final(self).buffers == old(self).buffers,
            final(self).feature_level == old(self).feature_level,
            old(self).wf() ==> final(self).wf(),
    {
        self.textures.push(texels);
        Handle { id: self.textures.len() as u64 }
    }

    /// Registers a mappable buffer and hands back its handle.
    pub fn register_buffer(&mut self, bytes: Vec<u8>) -> (h: Handle)
        requires
            old(self).buffers@.len() < usize::MAX,
            bytes@.len() <= 0x7fff_ffff,
        ensures
            h.id == old(self).buffers@.len() + 1,
            final(self).buffers@ == old(self).buffers@.push(bytes),
            final(self).textures == old(self).textures,
            final(self).feature_level == old(self).feature_level,
            old(self).wf() ==> final(self).wf(),
    {
        self.buffers.push(bytes);
        Handle { id: self.buffers.len() as u64 }
    }

    /// The current bytes of the texture `h` refers to, if any.
    pub fn texture_contents(&self, h: Handle) -> (r: Option<&Vec<u8>>)
        ensures
            r matches Some(v) ==> self.spec_has_texture(h) && v@ == self.spec_texture(h),
            r is None ==> !self.spec_has_texture(h),
    {
        if 1 <= h.id && h.id <= self.textures.len() as u64 {
            Some(&self.textures[(h.id - 1) as usize])
        } else {
            None
        }
    }

    /// The current bytes of the buffer `h` refers to, if any.
    pub fn buffer_contents(&self, h: Handle) -> (r: Option<&Vec<u8>>)
        ensures
            r matches Some(v) ==> self.spec_has_buffer(h) && v@ == self.spec_buffer(h),
            r is None ==> !self.spec_has_buffer(h),
    {
        if 1 <= h.id && h.id <= self.buffers.len() as u64 {
            Some(&self.buffers[(h.id - 1) as usize])
        } else {
            None
        }
    }
}

} // verus!
