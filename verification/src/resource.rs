//! The GPU resource record: the registry's authoritative description of one
//! guest-visible resource.

use vstd::prelude::*;

use crate::rutabaga_utils::Resource3DInfo;
use crate::rutabaga_utils::RutabagaHandleOwnership;
use crate::rutabaga_utils::RutabagaIovec;
use crate::rutabaga_utils::VulkanInfo;

verus! {

/// Host-side state of a 2D resource: its geometry and the host pixel
/// buffer, four bytes per pixel.
pub struct Rutabaga2DInfo {
    pub width: u32,
    pub height: u32,
    pub host_mem: Vec<u8>,
}

impl Rutabaga2DInfo {
    /// The host buffer covers exactly the advertised geometry.
    pub open spec fn wf(&self) -> bool {
        self.host_mem@.len() == (self.width as int) * (self.height as int) * 4
    }
}

/// A resource record, supporting both 2D and 3D features.
pub struct RutabagaResource {
    pub resource_id: u32,
    pub handle: Option<RutabagaHandleOwnership>,
    pub blob: bool,
    pub blob_mem: u32,
    pub blob_flags: u32,
    pub map_info: Option<u32>,
    pub info_2d: Option<Rutabaga2DInfo>,
    pub info_3d: Option<Resource3DInfo>,
    pub vulkan_info: Option<VulkanInfo>,
    pub backing_iovecs: Option<Vec<RutabagaIovec>>,
    /// Bitmask of components that have already imported this resource.
    pub import_mask: u32,
}

impl RutabagaResource {
    /// Validity of a stored resource record: a shared handle really is
    /// shared, and 2D state covers its geometry.
    pub open spec fn wf(&self) -> bool {
        &&& (self.handle matches Some(h) ==> h.wf())
        &&& (self.info_2d matches Some(info) ==> info.wf())
    }
}

} // verus!
