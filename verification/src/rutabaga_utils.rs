//! Common types shared by every part of the library: error taxonomy,
//! wire-level constants, parameter structs, fences and handles.

use vstd::prelude::*;

verus! {

/// Every fallible operation of the library reports one of these errors.
#[derive(Clone, Copy, Debug, PartialEq, Eq, Structural)]
pub enum RutabagaError {
    /// A resource or context id handed to a create operation is already live.
    AlreadyInUse,
    /// A capability-set index or id did not resolve to a catalog entry.
    InvalidCapset,
    /// The resolved component is not instantiated in this build.
    InvalidComponent,
    /// No live context carries the given context id.
    InvalidContextId,
    /// No live resource carries the given resource id.
    InvalidResourceId,
    /// The builder was asked for a configuration this build cannot provide.
    InvalidRutabagaBuild,
    /// A handle was absent, or exporting it would break single ownership.
    InvalidRutabagaHandle,
    /// The resource carries no Vulkan metadata.
    InvalidVulkanInfo,
    /// An invariant the caller should have upheld was violated.
    SpecViolation,
    /// The resolved component or context does not implement the operation.
    Unsupported,
}

/// The result type shared by every fallible operation.
pub type RutabagaResult<T> = Result<T, RutabagaError>;

/// Fence flag: the fence belongs to a specific context ring rather than to
/// the default component's global timeline.
pub const RUTABAGA_FLAG_INFO_RING_IDX: u32 = 1 << 1;

/// Capability-set id served by the legacy 3D command-stream renderer.
pub const RUTABAGA_CAPSET_VIRGL: u32 = 1;
/// Capability-set id for the second-generation 3D command stream.
pub const RUTABAGA_CAPSET_VIRGL2: u32 = 2;
/// Capability-set id served by the Vulkan/GLES stream renderer.
pub const RUTABAGA_CAPSET_GFXSTREAM: u32 = 3;
/// Capability-set id for the Vulkan command stream.
pub const RUTABAGA_CAPSET_VENUS: u32 = 4;
/// Capability-set id served by the cross-domain channel backend.
pub const RUTABAGA_CAPSET_CROSS_DOMAIN: u32 = 5;
/// Capability-set id for direct render-node pass-through.
pub const RUTABAGA_CAPSET_DRM: u32 = 6;

/// Low bits of a context-init parameter that carry a capability-set id.
pub const RUTABAGA_CONTEXT_INIT_CAPSET_ID_MASK: u32 = 0xff;

/// Blob memory placement: guest memory.
pub const RUTABAGA_BLOB_MEM_GUEST: u32 = 1;
/// Blob memory placement: host memory.
pub const RUTABAGA_BLOB_MEM_HOST3D: u32 = 2;
/// Blob memory placement: host memory shadowed by guest pages.
pub const RUTABAGA_BLOB_MEM_HOST3D_GUEST: u32 = 3;

/// Blob use flag: the blob may be mapped into the guest.
pub const RUTABAGA_BLOB_FLAG_USE_MAPPABLE: u32 = 1 << 0;
/// Blob use flag: the blob is meant for wide sharing across processes.
pub const RUTABAGA_BLOB_FLAG_USE_SHAREABLE: u32 = 1 << 1;
/// Blob use flag: the blob may be imported by another device.
pub const RUTABAGA_BLOB_FLAG_USE_CROSS_DEVICE: u32 = 1 << 2;

/// Map-info cacheability: cached.
pub const RUTABAGA_MAP_CACHE_CACHED: u32 = 1;
/// Map-info cacheability: uncached.
pub const RUTABAGA_MAP_CACHE_UNCACHED: u32 = 2;
/// Map-info cacheability: write-combining.
pub const RUTABAGA_MAP_CACHE_WC: u32 = 3;

/// Handle type: opaque memory file descriptor.
pub const RUTABAGA_MEM_HANDLE_TYPE_OPAQUE_FD: u32 = 1;
/// Handle type: dma-buf memory object.
pub const RUTABAGA_MEM_HANDLE_TYPE_DMABUF: u32 = 2;
/// Handle type: shared-memory object.
pub const RUTABAGA_MEM_HANDLE_TYPE_SHM: u32 = 4;
/// Handle type: opaque fence file descriptor.
pub const RUTABAGA_FENCE_HANDLE_TYPE_OPAQUE_FD: u32 = 16;

/// Channel type: Wayland display channel.
pub const RUTABAGA_CHANNEL_TYPE_WAYLAND: u32 = 1;
/// Channel type: camera channel.
pub const RUTABAGA_CHANNEL_TYPE_CAMERA: u32 = 2;

/// Metadata a guest supplies when creating a 3D (or 2D) resource.
#[derive(Clone, Copy, Debug, Default, PartialEq, Eq, Structural)]
pub struct ResourceCreate3D {
    pub target: u32,
    pub format: u32,
    pub bind: u32,
    pub width: u32,
    pub height: u32,
    pub depth: u32,
    pub array_size: u32,
    pub last_level: u32,
    pub nr_samples: u32,
    pub flags: u32,
}

/// Memory parameters, size and usage of a blob resource.
#[derive(Clone, Copy, Debug, Default, PartialEq, Eq, Structural)]
pub struct ResourceCreateBlob {
    pub blob_mem: u32,
    pub blob_flags: u32,
    pub blob_id: u64,
    pub size: u64,
}

/// A transfer rectangle between guest backing and a host-side resource copy.
#[derive(Clone, Copy, Debug, Default, PartialEq, Eq, Structural)]
pub struct Transfer3D {
    pub x: u32,
    pub y: u32,
    pub z: u32,
    pub w: u32,
    pub h: u32,
    pub d: u32,
    pub level: u32,
    pub stride: u32,
    pub layer_stride: u32,
    pub offset: u64,
}

/// 3D metadata a renderer reports for a resource.
#[derive(Clone, Copy, Debug, Default, PartialEq, Eq, Structural)]
pub struct Resource3DInfo {
    pub width: u32,
    pub height: u32,
    pub drm_fourcc: u32,
    pub stride: u32,
    pub modifier: u64,
}

/// Vulkan metadata of a blob resource backed by Vulkan memory: the physical
/// device and the memory type the allocation came from.
#[derive(Clone, Copy, Debug, Default, PartialEq, Eq, Structural)]
pub struct VulkanInfo {
    pub memory_idx: u32,
    pub physical_device_idx: u32,
}

/// One guest scatter/gather memory descriptor: a guest address and a length.
/// The bytes it points at live outside this library; operations that need
/// them take the gathered bytes as an argument.
#[derive(Clone, Copy, Debug, PartialEq, Eq, Structural)]
pub struct RutabagaIovec {
    pub base: u64,
    pub len: u64,
}

/// A host mapping of a blob resource: an address and a size.
#[derive(Clone, Copy, Debug, PartialEq, Eq, Structural)]
pub struct RutabagaMapping {
    pub ptr: u64,
    pub size: u64,
}

/// A synchronization token: completion of previously submitted work.
/// When `flags` carries `RUTABAGA_FLAG_INFO_RING_IDX`, the fence belongs to
/// ring `ring_idx` of the context `ctx_id`; otherwise it belongs to the
/// default component's global timeline.
#[derive(Clone, Copy, Debug, PartialEq, Eq, Structural)]
pub struct RutabagaFence {
    pub flags: u32,
    pub fence_id: u64,
    pub ctx_id: u32,
    pub ring_idx: u8,
}

/// The rendering technologies a build may offer. The set of instantiated
/// components is fixed when the orchestrator is built.
#[derive(Clone, Copy, Debug, PartialEq, Eq, Structural)]
pub enum RutabagaComponentType {
    Rutabaga2D,
    VirglRenderer,
    Gfxstream,
    CrossDomain,
}

/// An opaque, cross-process-shareable reference to host memory or to a
/// synchronization primitive. `os_handle` stands for the underlying OS
/// object; two handles with the same token refer to the same object.
#[derive(Clone, Copy, Debug, PartialEq, Eq, Structural)]
pub struct RutabagaHandle {
    pub os_handle: u64,
    pub handle_type: u32,
}

impl RutabagaHandle {
    /// Duplicates the reference to the underlying OS object, leaving the
    /// original intact.
    pub fn try_clone(&self) -> (r: RutabagaResult<RutabagaHandle>)
        ensures
            r == RutabagaResult::<RutabagaHandle>::Ok(*self),
    {
        Ok(RutabagaHandle { os_handle: self.os_handle, handle_type: self.handle_type })
    }
}

/// How a stored handle is owned: `Exclusive` is the sole reference to the
/// underlying object; `Shared` is one of `count` outstanding strong
/// references (so `count` is at least 2 whenever other owners exist).
#[derive(Clone, Copy, Debug, PartialEq, Eq, Structural)]
pub enum RutabagaHandleOwnership {
    Exclusive(RutabagaHandle),
    Shared(RutabagaHandle, u32),
}

impl RutabagaHandleOwnership {
    /// A stored ownership record is well formed when a shared record really
    /// has other owners.
    pub open spec fn wf(self) -> bool {
        self matches RutabagaHandleOwnership::Shared(_, count) ==> count >= 2
    }

    /// The handle this record owns or shares.
    pub open spec fn spec_handle(self) -> RutabagaHandle {
        match self {
            RutabagaHandleOwnership::Exclusive(h) => h,
            RutabagaHandleOwnership::Shared(h, _) => h,
        }
    }
}

/// The pure mapping from a resource's blob flags to its export policy: a
/// resource may be exported by duplication exactly when it is not a blob at
/// all (legacy resources are always treated as shareable) or when its blob
/// flags ask for wide sharing or cross-device use.
pub open spec fn spec_resource_shareable(blob: bool, blob_flags: u32) -> bool {
    !blob || (blob_flags & (RUTABAGA_BLOB_FLAG_USE_SHAREABLE | RUTABAGA_BLOB_FLAG_USE_CROSS_DEVICE))
        != 0
}

/// Executable form of [`spec_resource_shareable`].
pub fn resource_shareable(blob: bool, blob_flags: u32) -> (r: bool)
    ensures
        r == spec_resource_shareable(blob, blob_flags),
{
    !blob || (blob_flags & (RUTABAGA_BLOB_FLAG_USE_SHAREABLE | RUTABAGA_BLOB_FLAG_USE_CROSS_DEVICE))
        != 0
}

/// A host-side channel the cross-domain backend may bind to.
#[derive(Clone, Debug)]
pub struct RutabagaChannel {
    pub base_channel: String,
    pub channel_type: u32,
}

/// Which window-system integration the Vulkan stream renderer should use.
#[derive(Clone, Copy, Debug, PartialEq, Eq, Structural)]
pub enum RutabagaWsi {
    Surfaceless,
    VulkanSwapchain,
}

/// Replaces bits `mask` of `bits` by `mask` when `value` is set and clears
/// them otherwise.
pub open spec fn spec_set_flag(bits: u32, mask: u32, value: bool) -> u32 {
    if value {
        bits | mask
    } else {
        bits & !mask
    }
}

fn set_flag(bits: u32, mask: u32, value: bool) -> (r: u32)
    ensures
        r == spec_set_flag(bits, mask, value),
{
    if value {
        bits | mask
    } else {
        bits & !mask
    }
}

/// Vulkan/GLES stream renderer start-up flag: use EGL.
pub const GFXSTREAM_FLAG_USE_EGL: u32 = 1 << 0;
/// Stream renderer flag: use GLES.
pub const GFXSTREAM_FLAG_USE_GLES: u32 = 1 << 1;
/// Stream renderer flag: use GLX.
pub const GFXSTREAM_FLAG_USE_GLX: u32 = 1 << 2;
/// Stream renderer flag: run without a window system.
pub const GFXSTREAM_FLAG_USE_SURFACELESS: u32 = 1 << 3;
/// Stream renderer flag: enable the Vulkan stream.
pub const GFXSTREAM_FLAG_USE_VULKAN: u32 = 1 << 4;
/// Stream renderer flag: the guest renders through ANGLE.
pub const GFXSTREAM_FLAG_USE_GUEST_ANGLE: u32 = 1 << 5;
/// Stream renderer flag: advertise GLES 3.1.
pub const GFXSTREAM_FLAG_SUPPORT_GLES31: u32 = 1 << 6;
/// Stream renderer flag: allocate blobs outside the renderer.
pub const GFXSTREAM_FLAG_USE_EXTERNAL_BLOB: u32 = 1 << 7;
/// Stream renderer flag: allocate blobs from system memory.
pub const GFXSTREAM_FLAG_USE_SYSTEM_BLOB: u32 = 1 << 8;
/// Stream renderer flag: deliver fence completion through callbacks.
pub const GFXSTREAM_FLAG_USE_ASYNC_FENCE_CB: u32 = 1 << 9;
/// Stream renderer flag: present through the Vulkan swapchain.
pub const GFXSTREAM_FLAG_USE_VULKAN_SWAPCHAIN: u32 = 1 << 10;

/// Start-up flags handed to the Vulkan/GLES stream renderer.
#[derive(Clone, Copy, Debug, PartialEq, Eq, Structural)]
pub struct GfxstreamFlags {
    pub bits: u32,
}

impl GfxstreamFlags {
    /// A flag word with nothing set.
    pub fn new() -> (r: GfxstreamFlags)
        ensures
            r.bits == 0u32,
    {
        GfxstreamFlags { bits: 0 }
    }

    pub fn use_egl(self, v: bool) -> (r: GfxstreamFlags)
        ensures
            r.bits == spec_set_flag(self.bits, GFXSTREAM_FLAG_USE_EGL, v),
    {
        GfxstreamFlags { bits: set_flag(self.bits, GFXSTREAM_FLAG_USE_EGL, v) }
    }

    pub fn use_gles(self, v: bool) -> (r: GfxstreamFlags)
        ensures
            r.bits == spec_set_flag(self.bits, GFXSTREAM_FLAG_USE_GLES, v),
    {
        GfxstreamFlags { bits: set_flag(self.bits, GFXSTREAM_FLAG_USE_GLES, v) }
    }

    pub fn use_glx(self, v: bool) -> (r: GfxstreamFlags)
        ensures
            r.bits == spec_set_flag(self.bits, GFXSTREAM_FLAG_USE_GLX, v),
    {
        GfxstreamFlags { bits: set_flag(self.bits, GFXSTREAM_FLAG_USE_GLX, v) }
    }

    pub fn use_surfaceless(self, v: bool) -> (r: GfxstreamFlags)
        ensures
            r.bits == spec_set_flag(self.bits, GFXSTREAM_FLAG_USE_SURFACELESS, v),
    {
        GfxstreamFlags { bits: set_flag(self.bits, GFXSTREAM_FLAG_USE_SURFACELESS, v) }
    }

    pub fn use_vulkan(self, v: bool) -> (r: GfxstreamFlags)
        ensures
            r.bits == spec_set_flag(self.bits, GFXSTREAM_FLAG_USE_VULKAN, v),
    {
        GfxstreamFlags { bits: set_flag(self.bits, GFXSTREAM_FLAG_USE_VULKAN, v) }
    }

    pub fn use_guest_angle(self, v: bool) -> (r: GfxstreamFlags)
        ensures
            r.bits == spec_set_flag(self.bits, GFXSTREAM_FLAG_USE_GUEST_ANGLE, v),
    {
        GfxstreamFlags { bits: set_flag(self.bits, GFXSTREAM_FLAG_USE_GUEST_ANGLE, v) }
    }

    pub fn support_gles31(self, v: bool) -> (r: GfxstreamFlags)
        ensures
            r.bits == spec_set_flag(self.bits, GFXSTREAM_FLAG_SUPPORT_GLES31, v),
    {
        GfxstreamFlags { bits: set_flag(self.bits, GFXSTREAM_FLAG_SUPPORT_GLES31, v) }
    }

    pub fn use_external_blob(self, v: bool) -> (r: GfxstreamFlags)
        ensures
            r.bits == spec_set_flag(self.bits, GFXSTREAM_FLAG_USE_EXTERNAL_BLOB, v),
    {
        GfxstreamFlags { bits: set_flag(self.bits, GFXSTREAM_FLAG_USE_EXTERNAL_BLOB, v) }
    }

    pub fn use_system_blob(self, v: bool) -> (r: GfxstreamFlags)
        ensures
            r.bits == spec_set_flag(self.bits, GFXSTREAM_FLAG_USE_SYSTEM_BLOB, v),
    {
        GfxstreamFlags { bits: set_flag(self.bits, GFXSTREAM_FLAG_USE_SYSTEM_BLOB, v) }
    }

    pub fn use_async_fence_cb(self, v: bool) -> (r: GfxstreamFlags)
        ensures
            r.bits == spec_set_flag(self.bits, GFXSTREAM_FLAG_USE_ASYNC_FENCE_CB, v),
    {
        GfxstreamFlags { bits: set_flag(self.bits, GFXSTREAM_FLAG_USE_ASYNC_FENCE_CB, v) }
    }

    /// Chooses the window-system integration. Only an explicit request for
    /// the Vulkan swapchain sets the corresponding flag.
    pub fn set_wsi(self, v: Option<&RutabagaWsi>) -> (r: GfxstreamFlags)
        ensures
            r.bits == spec_set_flag(
                self.bits,
                GFXSTREAM_FLAG_USE_VULKAN_SWAPCHAIN,
                (v matches Some(w) && *w == RutabagaWsi::VulkanSwapchain),
            ),
    {
        let is_vulkan_swapchain = match v {
            Some(RutabagaWsi::VulkanSwapchain) => true,
            _ => false,
        };
        GfxstreamFlags {
            bits: set_flag(self.bits, GFXSTREAM_FLAG_USE_VULKAN_SWAPCHAIN, is_vulkan_swapchain),
        }
    }
}

/// Legacy 3D renderer start-up flag: use EGL.
pub const VIRGLRENDERER_FLAG_USE_EGL: u32 = 1 << 0;
/// Legacy renderer flag: synchronize through a thread.
pub const VIRGLRENDERER_FLAG_THREAD_SYNC: u32 = 1 << 1;
/// Legacy renderer flag: use GLX.
pub const VIRGLRENDERER_FLAG_USE_GLX: u32 = 1 << 2;
/// Legacy renderer flag: run without a window system.
pub const VIRGLRENDERER_FLAG_USE_SURFACELESS: u32 = 1 << 3;
/// Legacy renderer flag: use GLES.
pub const VIRGLRENDERER_FLAG_USE_GLES: u32 = 1 << 4;
/// Legacy renderer flag: allocate blobs outside the renderer.
pub const VIRGLRENDERER_FLAG_USE_EXTERNAL_BLOB: u32 = 1 << 5;
/// Legacy renderer flag: enable the Vulkan command stream.
pub const VIRGLRENDERER_FLAG_USE_VENUS: u32 = 1 << 6;
/// Legacy renderer flag: enable the legacy command stream.
pub const VIRGLRENDERER_FLAG_USE_VIRGL: u32 = 1 << 7;
/// Legacy renderer flag: deliver fence completion through callbacks.
pub const VIRGLRENDERER_FLAG_USE_ASYNC_FENCE_CB: u32 = 1 << 8;
/// Legacy renderer flag: spawn a render server.
pub const VIRGLRENDERER_FLAG_USE_RENDER_SERVER: u32 = 1 << 9;
/// Legacy renderer flag: enable render-node pass-through.
pub const VIRGLRENDERER_FLAG_USE_DRM: u32 = 1 << 10;

/// Start-up flags handed to the legacy 3D command-stream renderer.
#[derive(Clone, Copy, Debug, PartialEq, Eq, Structural)]
pub struct VirglRendererFlags {
    pub bits: u32,
}

impl VirglRendererFlags {
    /// A flag word with nothing set.
    pub fn new() -> (r: VirglRendererFlags)
        ensures
            r.bits == 0u32,
    {
        VirglRendererFlags { bits: 0 }
    }

    pub fn use_egl(self, v: bool) -> (r: VirglRendererFlags)
        ensures
            r.bits == spec_set_flag(self.bits, VIRGLRENDERER_FLAG_USE_EGL, v),
    {
        VirglRendererFlags { bits: set_flag(self.bits, VIRGLRENDERER_FLAG_USE_EGL, v) }
    }

    pub fn use_thread_sync(self, v: bool) -> (r: VirglRendererFlags)
        ensures
            r.bits == spec_set_flag(self.bits, VIRGLRENDERER_FLAG_THREAD_SYNC, v),
    {
        VirglRendererFlags { bits: set_flag(self.bits, VIRGLRENDERER_FLAG_THREAD_SYNC, v) }
    }

    pub fn use_glx(self, v: bool) -> (r: VirglRendererFlags)
        ensures
            r.bits == spec_set_flag(self.bits, VIRGLRENDERER_FLAG_USE_GLX, v),
    {
        VirglRendererFlags { bits: set_flag(self.bits, VIRGLRENDERER_FLAG_USE_GLX, v) }
    }

    pub fn use_surfaceless(self, v: bool) -> (r: VirglRendererFlags)
        ensures
            r.bits == spec_set_flag(self.bits, VIRGLRENDERER_FLAG_USE_SURFACELESS, v),
    {
        VirglRendererFlags { bits: set_flag(self.bits, VIRGLRENDERER_FLAG_USE_SURFACELESS, v) }
    }

    pub fn use_gles(self, v: bool) -> (r: VirglRendererFlags)
        ensures
            r.bits == spec_set_flag(self.bits, VIRGLRENDERER_FLAG_USE_GLES, v),
    {
        VirglRendererFlags { bits: set_flag(self.bits, VIRGLRENDERER_FLAG_USE_GLES, v) }
    }

    pub fn use_external_blob(self, v: bool) -> (r: VirglRendererFlags)
        ensures
            r.bits == spec_set_flag(self.bits, VIRGLRENDERER_FLAG_USE_EXTERNAL_BLOB, v),
    {
        VirglRendererFlags { bits: set_flag(self.bits, VIRGLRENDERER_FLAG_USE_EXTERNAL_BLOB, v) }
    }

    pub fn use_venus(self, v: bool) -> (r: VirglRendererFlags)
        ensures
            r.bits == spec_set_flag(self.bits, VIRGLRENDERER_FLAG_USE_VENUS, v),
    {
        VirglRendererFlags { bits: set_flag(self.bits, VIRGLRENDERER_FLAG_USE_VENUS, v) }
    }

    pub fn use_virgl(self, v: bool) -> (r: VirglRendererFlags)
        ensures
            r.bits == spec_set_flag(self.bits, VIRGLRENDERER_FLAG_USE_VIRGL, v),
    {
        VirglRendererFlags { bits: set_flag(self.bits, VIRGLRENDERER_FLAG_USE_VIRGL, v) }
    }

    pub fn use_async_fence_cb(self, v: bool) -> (r: VirglRendererFlags)
        ensures
            r.bits == spec_set_flag(self.bits, VIRGLRENDERER_FLAG_USE_ASYNC_FENCE_CB, v),
    {
        VirglRendererFlags { bits: set_flag(self.bits, VIRGLRENDERER_FLAG_USE_ASYNC_FENCE_CB, v) }
    }

    pub fn use_render_server(self, v: bool) -> (r: VirglRendererFlags)
        ensures
            r.bits == spec_set_flag(self.bits, VIRGLRENDERER_FLAG_USE_RENDER_SERVER, v),
    {
        VirglRendererFlags { bits: set_flag(self.bits, VIRGLRENDERER_FLAG_USE_RENDER_SERVER, v) }
    }

    pub fn use_drm(self, v: bool) -> (r: VirglRendererFlags)
        ensures
            r.bits == spec_set_flag(self.bits, VIRGLRENDERER_FLAG_USE_DRM, v),
    {
        VirglRendererFlags { bits: set_flag(self.bits, VIRGLRENDERER_FLAG_USE_DRM, v) }
    }
}

} // verus!
