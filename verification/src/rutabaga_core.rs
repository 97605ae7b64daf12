//! The orchestrator: it owns the resource and context registries and the
//! fixed set of instantiated components, routes every guest operation to
//! the right component or context, and enforces the cross-cutting
//! invariants (id uniqueness, component availability, fence routing, and
//! handle export ownership).

use vstd::prelude::*;

use crate::capset::capset_catalog;
use crate::capset::capset_info_view;
use crate::capset::capset_infos_view;
use crate::capset::find_capset_by_id;
use crate::capset::find_capset_entry_by_id;
use crate::capset::rutabaga_capsets;
use crate::capset::CapsetInfoView;
use crate::capset::RutabagaCapsetInfo;
use crate::cross_domain::cross_domain_blob_resource;
use crate::cross_domain::fresh_cross_domain_context;
use crate::cross_domain::CrossDomain;
use crate::cross_domain::CrossDomainContext;
use crate::registry::lemma_map_remove_insert;
use crate::registry::Registry;
use crate::resource::RutabagaResource;
use crate::rutabaga_2d::create_3d_oversize;
use crate::rutabaga_2d::fresh_2d_resource;
use crate::rutabaga_2d::transfer_read_rejected;
use crate::rutabaga_2d::transfer_read_result;
use crate::rutabaga_2d::transfer_write_applied;
use crate::rutabaga_2d::transfer_write_rejected;
use crate::rutabaga_2d::Rutabaga2D;
use crate::rutabaga_utils::spec_set_flag;
use crate::rutabaga_utils::GfxstreamFlags;
use crate::rutabaga_utils::GFXSTREAM_FLAG_SUPPORT_GLES31;
use crate::rutabaga_utils::GFXSTREAM_FLAG_USE_ASYNC_FENCE_CB;
use crate::rutabaga_utils::GFXSTREAM_FLAG_USE_EGL;
use crate::rutabaga_utils::GFXSTREAM_FLAG_USE_EXTERNAL_BLOB;
use crate::rutabaga_utils::GFXSTREAM_FLAG_USE_GLES;
use crate::rutabaga_utils::GFXSTREAM_FLAG_USE_GLX;
use crate::rutabaga_utils::GFXSTREAM_FLAG_USE_GUEST_ANGLE;
use crate::rutabaga_utils::GFXSTREAM_FLAG_USE_SURFACELESS;
use crate::rutabaga_utils::GFXSTREAM_FLAG_USE_SYSTEM_BLOB;
use crate::rutabaga_utils::GFXSTREAM_FLAG_USE_VULKAN;
use crate::rutabaga_utils::GFXSTREAM_FLAG_USE_VULKAN_SWAPCHAIN;
use crate::rutabaga_utils::VIRGLRENDERER_FLAG_THREAD_SYNC;
use crate::rutabaga_utils::VIRGLRENDERER_FLAG_USE_ASYNC_FENCE_CB;
use crate::rutabaga_utils::VIRGLRENDERER_FLAG_USE_EGL;
use crate::rutabaga_utils::VIRGLRENDERER_FLAG_USE_EXTERNAL_BLOB;
use crate::rutabaga_utils::VIRGLRENDERER_FLAG_USE_GLES;
use crate::rutabaga_utils::VIRGLRENDERER_FLAG_USE_GLX;
use crate::rutabaga_utils::VIRGLRENDERER_FLAG_USE_RENDER_SERVER;
use crate::rutabaga_utils::VIRGLRENDERER_FLAG_USE_SURFACELESS;
use crate::rutabaga_utils::VIRGLRENDERER_FLAG_USE_VENUS;
use crate::rutabaga_utils::Resource3DInfo;
use crate::rutabaga_utils::ResourceCreate3D;
use crate::rutabaga_utils::ResourceCreateBlob;
use crate::rutabaga_utils::RutabagaChannel;
use crate::rutabaga_utils::RutabagaComponentType;
use crate::rutabaga_utils::RutabagaError;
use crate::rutabaga_utils::RutabagaFence;
use crate::rutabaga_utils::resource_shareable;
use crate::rutabaga_utils::spec_resource_shareable;
use crate::rutabaga_utils::RutabagaHandle;
use crate::rutabaga_utils::RutabagaHandleOwnership;
use crate::rutabaga_utils::RutabagaIovec;
use crate::rutabaga_utils::RutabagaMapping;
use crate::rutabaga_utils::RutabagaResult;
use crate::rutabaga_utils::RutabagaWsi;
use crate::rutabaga_utils::Transfer3D;
use crate::rutabaga_utils::VirglRendererFlags;
use crate::rutabaga_utils::VulkanInfo;
use crate::rutabaga_utils::RUTABAGA_CAPSET_CROSS_DOMAIN;
use crate::rutabaga_utils::RUTABAGA_CAPSET_DRM;
use crate::rutabaga_utils::RUTABAGA_CAPSET_GFXSTREAM;
use crate::rutabaga_utils::RUTABAGA_CAPSET_VENUS;
use crate::rutabaga_utils::RUTABAGA_CAPSET_VIRGL2;
use crate::rutabaga_utils::RUTABAGA_CONTEXT_INIT_CAPSET_ID_MASK;
use crate::rutabaga_utils::RUTABAGA_FLAG_INFO_RING_IDX;

verus! {

/// The resource record a component without true 3D resources hands back:
/// an empty placeholder under the requested id.
pub open spec fn default_resource_record(resource_id: u32, res: RutabagaResource) -> bool {
    &&& res.resource_id == resource_id
    &&& res.handle is None
    &&& res.blob == false
    &&& res.blob_mem == 0
    &&& res.blob_flags == 0
    &&& res.map_info is None
    &&& res.info_2d is None
    &&& res.info_3d is None
    &&& res.vulkan_info is None
    &&& res.backing_iovecs is None
    &&& res.import_mask == 0
}

/// One instantiated rendering backend. The set of variants is closed: a
/// build instantiates some of them, and the orchestrator treats them
/// uniformly through this surface. Operations a backend does not implement
/// keep the explicit unsupported default.
pub enum RutabagaComponent {
    Rutabaga2D(Rutabaga2D),
    CrossDomain(CrossDomain),
}

impl RutabagaComponent {
    /// Which rendering technology this component is.
    pub open spec fn spec_component_type(&self) -> RutabagaComponentType {
        match self {
            RutabagaComponent::Rutabaga2D(_) => RutabagaComponentType::Rutabaga2D,
            RutabagaComponent::CrossDomain(_) => RutabagaComponentType::CrossDomain,
        }
    }

    pub fn component_type(&self) -> (r: RutabagaComponentType)
        ensures
            r == self.spec_component_type(),
    {
        match self {
            RutabagaComponent::Rutabaga2D(_) => RutabagaComponentType::Rutabaga2D,
            RutabagaComponent::CrossDomain(_) => RutabagaComponentType::CrossDomain,
        }
    }

    /// Version and size of the capability set: both built-in backends
    /// advertise the default (0, 0).
    pub fn get_capset_info(&self, capset_id: u32) -> (r: (u32, u32))
        ensures
            r == (0u32, 0u32),
    {
        let _ = capset_id;
        (0, 0)
    }

    /// The opaque capability blob: both built-in backends return the
    /// default empty blob.
    pub fn get_capset(&self, capset_id: u32, version: u32) -> (r: Vec<u8>)
        ensures
            r@ == Seq::<u8>::empty(),
    {
        let _ = capset_id;
        let _ = version;
        let r: Vec<u8> = Vec::new();
        proof {
            assert(r@ =~= Seq::<u8>::empty());
        }
        r
    }

    /// Resets the backend-internal context selection to the reserved
    /// context 0; a no-op for both built-in backends.
    pub fn force_ctx_0(&self) {
    }

    /// Cooperative polling hook; inert for both built-in backends.
    pub fn event_poll(&self) {
    }

    /// A descriptor to poll for completions; neither built-in backend
    /// signals completion through one.
    pub fn poll_descriptor(&self) -> (r: Option<RutabagaHandle>)
        ensures
            r is None,
    {
        None
    }

    /// Creates a fence on the global timeline. Both built-in backends
    /// complete such fences synchronously; the orchestrator records the
    /// completion.
    pub fn create_fence(&self, fence: RutabagaFence) -> (r: RutabagaResult<()>)
        ensures
            r is Ok,
    {
        let _ = fence;
        Ok(())
    }

    /// Creates a resource: a host pixel buffer for the 2D backend, the
    /// empty placeholder record for backends with no true 3D resources.
    pub fn create_3d(&self, resource_id: u32, resource_create_3d: ResourceCreate3D) -> (r:
        RutabagaResult<RutabagaResource>)
        ensures
            match r {
                Ok(res) => res.wf() && match self.spec_component_type() {
                    RutabagaComponentType::Rutabaga2D => !create_3d_oversize(resource_create_3d)
                        && fresh_2d_resource(resource_id, resource_create_3d, res),
                    _ => default_resource_record(resource_id, res),
                },
                Err(e) => self.spec_component_type() == RutabagaComponentType::Rutabaga2D && e
                    == RutabagaError::SpecViolation && create_3d_oversize(resource_create_3d),
            },
    {
        match self {
            RutabagaComponent::Rutabaga2D(c) => c.create_3d(resource_id, resource_create_3d),
            RutabagaComponent::CrossDomain(_) => Ok(
                RutabagaResource {
                    resource_id,
                    handle: None,
                    blob: false,
                    blob_mem: 0,
                    blob_flags: 0,
                    map_info: None,
                    info_2d: None,
                    info_3d: None,
                    vulkan_info: None,
                    backing_iovecs: None,
                    import_mask: 0,
                },
            ),
        }
    }

    /// Attaches guest backing; the registry is the source of truth, so the
    /// default success no-op suffices for both built-in backends.
    pub fn attach_backing(&self, resource_id: u32, vecs: &Vec<RutabagaIovec>) -> (r: RutabagaResult<
        (),
    >)
        ensures
            r is Ok,
    {
        let _ = resource_id;
        let _ = vecs;
        Ok(())
    }

    /// Releases guest backing; a no-op for both built-in backends.
    pub fn detach_backing(&self, resource_id: u32) {
        let _ = resource_id;
    }

    /// Releases backend-internal state of a resource; a no-op, the
    /// registry holds the only state.
    pub fn unref_resource(&self, resource_id: u32) {
        let _ = resource_id;
    }

    /// Writes the gathered guest bytes of a transfer into the backend's
    /// host copy; backends without one accept the transfer unchanged.
    pub fn transfer_write(
        &self,
        ctx_id: u32,
        resource: &mut RutabagaResource,
        transfer: Transfer3D,
        data: &[u8],
    ) -> (r: RutabagaResult<()>)
        requires
            old(resource).wf(),
        ensures
            final(resource).wf(),
            match self.spec_component_type() {
                RutabagaComponentType::Rutabaga2D => match r {
                    Ok(()) => transfer_write_applied(
                        *old(resource),
                        *final(resource),
                        transfer,
                        data@,
                    ),
                    Err(e) => *final(resource) == *old(resource) && e
                        == RutabagaError::SpecViolation && transfer_write_rejected(
                        *old(resource),
                        transfer,
                        data@,
                    ),
                },
                _ => r is Ok && *final(resource) == *old(resource),
            },
    {
        let _ = ctx_id;
        match self {
            RutabagaComponent::Rutabaga2D(c) => c.transfer_write(resource, transfer, data),
            RutabagaComponent::CrossDomain(_) => Ok(()),
        }
    }

    /// Reads a transfer rectangle out of the backend's host copy; backends
    /// without one return the default empty read.
    pub fn transfer_read(&self, ctx_id: u32, resource: &RutabagaResource, transfer: Transfer3D) -> (
        r: RutabagaResult<Vec<u8>>)
        requires
            resource.wf(),
        ensures
            match self.spec_component_type() {
                RutabagaComponentType::Rutabaga2D => match r {
                    Ok(data) => transfer_read_result(*resource, transfer, data@),
                    Err(e) => e == RutabagaError::SpecViolation && transfer_read_rejected(
                        *resource,
                        transfer,
                    ),
                },
                _ => (r matches Ok(data) && data@ == Seq::<u8>::empty()),
            },
    {
        let _ = ctx_id;
        match self {
            RutabagaComponent::Rutabaga2D(c) => c.transfer_read(resource, transfer),
            RutabagaComponent::CrossDomain(_) => {
                let empty: Vec<u8> = Vec::new();
                proof {
                    assert(empty@ =~= Seq::<u8>::empty());
                }
                Ok(empty)
            },
        }
    }

    /// Pushes a resource to a display; neither built-in backend drives
    /// one, so the explicit unsupported default answers.
    pub fn resource_flush(&self, resource: &mut RutabagaResource) -> (r: RutabagaResult<()>)
        ensures
            r == RutabagaResult::<()>::Err(RutabagaError::Unsupported),
            *final(resource) == *old(resource),
    {
        let _ = resource;
        Err(RutabagaError::Unsupported)
    }

    /// Component-global blob creation; unsupported by both built-in
    /// backends (the cross-domain backend creates blobs through its
    /// contexts).
    pub fn create_blob(
        &self,
        ctx_id: u32,
        resource_id: u32,
        resource_create_blob: ResourceCreateBlob,
        iovec_opt: Option<Vec<RutabagaIovec>>,
        handle_opt: Option<RutabagaHandle>,
    ) -> (r: RutabagaResult<RutabagaResource>)
        ensures
            (r matches Err(e) && e == RutabagaError::Unsupported),
    {
        let _ = ctx_id;
        let _ = resource_id;
        let _ = resource_create_blob;
        let _ = iovec_opt;
        let _ = handle_opt;
        Err(RutabagaError::Unsupported)
    }

    /// Maps a blob resource into host memory; unsupported by both
    /// built-in backends.
    pub fn map(&self, resource_id: u32) -> (r: RutabagaResult<RutabagaMapping>)
        ensures
            (r matches Err(e) && e == RutabagaError::Unsupported),
    {
        let _ = resource_id;
        Err(RutabagaError::Unsupported)
    }

    /// Unmaps a blob resource; unsupported by both built-in backends.
    pub fn unmap(&self, resource_id: u32) -> (r: RutabagaResult<()>)
        ensures
            (r matches Err(e) && e == RutabagaError::Unsupported),
    {
        let _ = resource_id;
        Err(RutabagaError::Unsupported)
    }

    /// Exports a fence as a cross-process handle; unsupported by both
    /// built-in backends.
    pub fn export_fence(&self, fence_id: u32) -> (r: RutabagaResult<RutabagaHandle>)
        ensures
            (r matches Err(e) && e == RutabagaError::Unsupported),
    {
        let _ = fence_id;
        Err(RutabagaError::Unsupported)
    }

    /// Creates a per-context command sink; only the cross-domain backend
    /// supports multiple contexts.
    pub fn create_context(&self, ctx_id: u32, context_init: u32, context_name: Option<&str>) -> (r:
        RutabagaResult<RutabagaContext>)
        ensures
            match self.spec_component_type() {
                RutabagaComponentType::CrossDomain => (r matches Ok(ctx)
                    && ctx matches RutabagaContext::CrossDomain(c) && fresh_cross_domain_context(
                    ctx_id,
                    context_init,
                    c,
                )),
                _ => (r matches Err(e) && e == RutabagaError::Unsupported),
            },
    {
        match self {
            RutabagaComponent::Rutabaga2D(_) => {
                let _ = context_name;
                Err(RutabagaError::Unsupported)
            },
            RutabagaComponent::CrossDomain(c) => {
                let ctx = c.create_context(ctx_id, context_init, context_name)?;
                Ok(RutabagaContext::CrossDomain(ctx))
            },
        }
    }
}

/// One live per-context command sink. The set of variants is closed; every
/// context identifies the component that created it.
pub enum RutabagaContext {
    CrossDomain(CrossDomainContext),
}

impl RutabagaContext {
    /// The guest-visible id this context is bound to.
    pub open spec fn spec_ctx_id(&self) -> u32 {
        match self {
            RutabagaContext::CrossDomain(c) => c.ctx_id,
        }
    }

    /// The component that created this context.
    pub open spec fn spec_component_type(&self) -> RutabagaComponentType {
        match self {
            RutabagaContext::CrossDomain(_) => RutabagaComponentType::CrossDomain,
        }
    }

    /// Fences pending on this context's own rings, oldest first.
    pub open spec fn spec_pending_fences(&self) -> Seq<RutabagaFence> {
        match self {
            RutabagaContext::CrossDomain(c) => c.pending_fences@,
        }
    }

    /// The resource ids in this context's working set.
    pub open spec fn spec_attached(&self) -> Seq<u32> {
        match self {
            RutabagaContext::CrossDomain(c) => c.attached_resources@,
        }
    }

    /// How many command buffers this context has accepted.
    pub open spec fn spec_submitted(&self) -> u64 {
        match self {
            RutabagaContext::CrossDomain(c) => c.submitted_commands,
        }
    }

    pub open spec fn wf(&self) -> bool {
        match self {
            RutabagaContext::CrossDomain(c) => c.wf(),
        }
    }

    pub fn component_type(&self) -> (r: RutabagaComponentType)
        ensures
            r == self.spec_component_type(),
    {
        match self {
            RutabagaContext::CrossDomain(c) => c.component_type(),
        }
    }
}

/// Two contexts that differ only in their pending fences, the second
/// holding one more.
pub open spec fn context_with_fence(a: RutabagaContext, b: RutabagaContext, fence: RutabagaFence) -> bool {
    match (a, b) {
        (RutabagaContext::CrossDomain(x), RutabagaContext::CrossDomain(y)) => {
            &&& y == (CrossDomainContext { pending_fences: y.pending_fences, ..x })
            &&& y.pending_fences@ == x.pending_fences@.push(fence)
        },
    }
}

/// Two contexts that differ only in their working set, the second holding
/// `resource_id` and otherwise the same ids.
pub open spec fn context_with_attach(a: RutabagaContext, b: RutabagaContext, resource_id: u32) -> bool {
    match (a, b) {
        (RutabagaContext::CrossDomain(x), RutabagaContext::CrossDomain(y)) => {
            &&& y == (CrossDomainContext { attached_resources: y.attached_resources, ..x })
            &&& y.attached_resources@ == if x.attached_resources@.contains(resource_id) {
                x.attached_resources@
            } else {
                x.attached_resources@.push(resource_id)
            }
        },
    }
}

/// Two contexts that differ only in their working set, the second without
/// `resource_id` and otherwise the same ids.
pub open spec fn context_with_detach(a: RutabagaContext, b: RutabagaContext, resource_id: u32) -> bool {
    match (a, b) {
        (RutabagaContext::CrossDomain(x), RutabagaContext::CrossDomain(y)) => {
            &&& y == (CrossDomainContext { attached_resources: y.attached_resources, ..x })
            &&& !y.attached_resources@.contains(resource_id)
            &&& forall|id: u32|
                id != resource_id ==> y.attached_resources@.contains(id)
                    == x.attached_resources@.contains(id)
        },
    }
}

/// Two contexts that differ only in the count of accepted command buffers,
/// the second one higher (saturating).
pub open spec fn context_with_submit(a: RutabagaContext, b: RutabagaContext) -> bool {
    match (a, b) {
        (RutabagaContext::CrossDomain(x), RutabagaContext::CrossDomain(y)) => {
            &&& y == (CrossDomainContext { submitted_commands: y.submitted_commands, ..x })
            &&& y.submitted_commands == if x.submitted_commands < u64::MAX {
                (x.submitted_commands + 1) as u64
            } else {
                x.submitted_commands
            }
        },
    }
}

/// The context-side effect of creating a blob through a context: with a
/// caller-supplied handle nothing changes; with a context-minted handle the
/// context retains the blob and advances its token source.
pub open spec fn context_with_blob(
    a: RutabagaContext,
    b: RutabagaContext,
    resource_id: u32,
    handle_opt: Option<RutabagaHandle>,
) -> bool {
    match (a, b) {
        (RutabagaContext::CrossDomain(x), RutabagaContext::CrossDomain(y)) => {
            match handle_opt {
                Some(_) => y == x,
                None => {
                    &&& y == (CrossDomainContext {
                        retained_blob_ids: y.retained_blob_ids,
                        next_blob_token: y.next_blob_token,
                        ..x
                    })
                    &&& y.retained_blob_ids@ == x.retained_blob_ids@.push(resource_id)
                    &&& y.next_blob_token == if x.next_blob_token == u64::MAX {
                        0u64
                    } else {
                        (x.next_blob_token + 1) as u64
                    }
                },
            }
        },
    }
}

/// The token a context would use for the next minted blob handle.
pub open spec fn context_next_token(a: RutabagaContext) -> u64 {
    match a {
        RutabagaContext::CrossDomain(c) => c.next_blob_token,
    }
}

/// The orchestrator. It owns the registries and the instantiated
/// components; every guest operation resolves ids here, delegates to the
/// governing component or context, and updates the registries only on
/// success.
pub struct Rutabaga {
    resources: Registry<RutabagaResource>,
    contexts: Registry<RutabagaContext>,
    components: Vec<RutabagaComponent>,
    default_component: RutabagaComponentType,
    capset_info: Vec<RutabagaCapsetInfo>,
    completed_fences: Vec<RutabagaFence>,
}

impl Rutabaga {
    /// The live resources, by id.
    pub closed spec fn resources_map(&self) -> Map<u32, RutabagaResource> {
        self.resources.as_map()
    }

    /// The live contexts, by id.
    pub closed spec fn contexts_map(&self) -> Map<u32, RutabagaContext> {
        self.contexts.as_map()
    }

    /// The component serving operations not routed to a context.
    pub closed spec fn default_component_type(&self) -> RutabagaComponentType {
        self.default_component
    }

    /// The active capability-set catalog of this instance.
    pub closed spec fn capset_entries(&self) -> Seq<CapsetInfoView> {
        capset_infos_view(self.capset_info@)
    }

    /// Fences whose completion has been recorded and not yet polled,
    /// oldest first: the global timeline's completion queue.
    pub closed spec fn completed(&self) -> Seq<RutabagaFence> {
        self.completed_fences@
    }

    /// Whether a component of type `t` is instantiated in this build.
    pub closed spec fn spec_has_component(&self, t: RutabagaComponentType) -> bool {
        exists|i: int|
            0 <= i < self.components@.len() && (#[trigger] self.components@[i]).spec_component_type()
                == t
    }

    /// The orchestrator's cross-cutting invariant: registries are
    /// well-formed and keyed consistently, the default component is
    /// instantiated, and every active capability set is served by an
    /// instantiated component.
    pub closed spec fn wf(&self) -> bool {
        &&& self.resources.wf()
        &&& self.contexts.wf()
        &&& forall|id: u32|
            self.resources_map().contains_key(id) ==> (#[trigger] self.resources_map()[id]).wf()
                && self.resources_map()[id].resource_id == id
        &&& forall|id: u32|
            self.contexts_map().contains_key(id) ==> (#[trigger] self.contexts_map()[id]).wf()
                && self.contexts_map()[id].spec_ctx_id() == id
        &&& self.spec_has_component(self.default_component)
        &&& forall|i: int|
            0 <= i < self.capset_entries().len() ==> self.spec_has_component(
                (#[trigger] self.capset_entries()[i]).component,
            )
    }

    /// The component that serves `capset_id` in this instance, falling
    /// back to the default component for an unrecognized id.
    pub open spec fn resolved_capset_component(&self, capset_id: u32) -> RutabagaComponentType {
        match find_capset_entry_by_id(self.capset_entries(), capset_id) {
            Some(e) => e.component,
            None => self.default_component_type(),
        }
    }

    /// The component that serves a context created with `context_init`:
    /// the capability set named by its low bits, with the same fallback.
    pub open spec fn resolved_context_component(&self, context_init: u32) -> RutabagaComponentType {
        self.resolved_capset_component(context_init & RUTABAGA_CONTEXT_INIT_CAPSET_ID_MASK)
    }

    fn find_component_index(&self, t: RutabagaComponentType) -> (r: Option<usize>)
        ensures
            match r {
                Some(i) => i < self.components@.len() && self.components@[i as int].spec_component_type()
                    == t && self.spec_has_component(t),
                None => !self.spec_has_component(t),
            },
    {
        let n = self.components.len();
        let mut i: usize = 0;
        while i < n
            invariant
                i <= n,
                n == self.components@.len(),
                forall|j: int|
                    0 <= j < i ==> (#[trigger] self.components@[j]).spec_component_type() != t,
            decreases n - i,
        {
            if self.components[i].component_type() == t {
                return Some(i);
            }
            i = i + 1;
        }
        None
    }

    fn capset_id_to_component_type(&self, capset_id: u32) -> (r: RutabagaResult<
        RutabagaComponentType,
    >)
        ensures
            match find_capset_entry_by_id(self.capset_entries(), capset_id) {
                Some(e) => (r matches Ok(t) && t == e.component),
                None => (r matches Err(err) && err == RutabagaError::InvalidCapset),
            },
    {
        match find_capset_by_id(&self.capset_info, capset_id) {
            Some(info) => Ok(info.component),
            None => Err(RutabagaError::InvalidCapset),
        }
    }

    /// Version and size of the capability set at catalog position `index`.
    pub fn get_capset_info(&self, index: u32) -> (r: RutabagaResult<(u32, u32, u32)>)
        requires
            self.wf(),
        ensures
            match r {
                Ok(info) => (index as int) < self.capset_entries().len() && info == (
                    self.capset_entries()[index as int].id,
                    0u32,
                    0u32,
                ),
                Err(e) => e == RutabagaError::InvalidCapset && (index as int)
                    >= self.capset_entries().len(),
            },
    {
        if (index as usize) >= self.capset_info.len() {
            return Err(RutabagaError::InvalidCapset);
        }
        let info = self.capset_info[index as usize];
        proof {
            assert(self.capset_entries()[index as int].component == info.component);
        }
        match self.find_component_index(info.component) {
            Some(i) => {
                let (capset_version, capset_size) = self.components[i].get_capset_info(
                    info.capset_id,
                );
                proof {
                    assert(self.capset_entries()[index as int].id == info.capset_id);
                }
                Ok((info.capset_id, capset_version, capset_size))
            },
            None => {
                proof {
                    assert(self.spec_has_component(self.capset_entries()[index as int].component));
                }
                Err(RutabagaError::InvalidComponent)
            },
        }
    }

    /// The capability blob for `capset_id` and `version`. Both built-in
    /// backends advertise the empty blob; an unrecognized capability set
    /// falls back to the default component.
    pub fn get_capset(&self, capset_id: u32, version: u32) -> (r: RutabagaResult<Vec<u8>>)
        requires
            self.wf(),
        ensures
            (r matches Ok(v) && v@ == Seq::<u8>::empty()),
    {
        let component_type = match self.capset_id_to_component_type(capset_id) {
            Ok(t) => t,
            Err(_) => self.default_component,
        };
        proof {
            if component_type != self.default_component {
                crate::capset::lemma_find_by_id_props(self.capset_entries(), capset_id);
            }
        }
        match self.find_component_index(component_type) {
            Some(i) => Ok(self.components[i].get_capset(capset_id, version)),
            None => {
                proof {
                    assert(self.spec_has_component(component_type));
                }
                Err(RutabagaError::InvalidComponent)
            },
        }
    }

    /// Forces context zero for the default component; a no-op for the
    /// built-in backends.
    pub fn force_ctx_0(&self)
        requires
            self.wf(),
    {
        match self.find_component_index(self.default_component) {
            Some(i) => self.components[i].force_ctx_0(),
            None => {},
        }
    }

    /// Polls the default component; inert for the built-in backends.
    pub fn event_poll(&self)
        requires
            self.wf(),
    {
        match self.find_component_index(self.default_component) {
            Some(i) => self.components[i].event_poll(),
            None => {},
        }
    }

    /// A descriptor to poll for asynchronous completions; none for the
    /// built-in backends.
    pub fn poll_descriptor(&self) -> (r: Option<RutabagaHandle>)
        requires
            self.wf(),
        ensures
            r is None,
    {
        match self.find_component_index(self.default_component) {
            Some(i) => self.components[i].poll_descriptor(),
            None => None,
        }
    }
}

/// The parts of the orchestrator an operation on the context registry
/// leaves untouched.
pub open spec fn same_except_contexts(a: Rutabaga, b: Rutabaga) -> bool {
    &&& b.resources_map() == a.resources_map()
    &&& b.completed() == a.completed()
    &&& b.default_component_type() == a.default_component_type()
    &&& b.capset_entries() == a.capset_entries()
    &&& forall|t: RutabagaComponentType| b.spec_has_component(t) == a.spec_has_component(t)
}

/// The parts of the orchestrator an operation on the resource registry
/// leaves untouched.
pub open spec fn same_except_resources(a: Rutabaga, b: Rutabaga) -> bool {
    &&& b.contexts_map() == a.contexts_map()
    &&& b.completed() == a.completed()
    &&& b.default_component_type() == a.default_component_type()
    &&& b.capset_entries() == a.capset_entries()
    &&& forall|t: RutabagaComponentType| b.spec_has_component(t) == a.spec_has_component(t)
}

/// The parts of the orchestrator untouched when only the completion queue
/// advances.
pub open spec fn same_except_completed(a: Rutabaga, b: Rutabaga) -> bool {
    &&& b.resources_map() == a.resources_map()
    &&& b.contexts_map() == a.contexts_map()
    &&& b.default_component_type() == a.default_component_type()
    &&& b.capset_entries() == a.capset_entries()
    &&& forall|t: RutabagaComponentType| b.spec_has_component(t) == a.spec_has_component(t)
}

/// The parts of the orchestrator untouched when a context creates a blob
/// resource: everything but the two registries.
pub open spec fn same_except_registries(a: Rutabaga, b: Rutabaga) -> bool {
    &&& b.completed() == a.completed()
    &&& b.default_component_type() == a.default_component_type()
    &&& b.capset_entries() == a.capset_entries()
    &&& forall|t: RutabagaComponentType| b.spec_has_component(t) == a.spec_has_component(t)
}

/// `a` without its stored handle.
pub open spec fn res_without_handle(a: RutabagaResource) -> RutabagaResource {
    RutabagaResource { handle: None, ..a }
}

/// All guest-observable state of the orchestrator is unchanged.
pub open spec fn state_unchanged(a: Rutabaga, b: Rutabaga) -> bool {
    &&& b.resources_map() == a.resources_map()
    &&& b.contexts_map() == a.contexts_map()
    &&& b.completed() == a.completed()
    &&& b.default_component_type() == a.default_component_type()
    &&& b.capset_entries() == a.capset_entries()
    &&& forall|t: RutabagaComponentType| b.spec_has_component(t) == a.spec_has_component(t)
}

/// `a` with its guest backing cleared.
pub open spec fn res_without_backing(a: RutabagaResource) -> RutabagaResource {
    RutabagaResource { backing_iovecs: None, ..a }
}

impl Rutabaga {
    /// Creates a fence. A fence carrying the per-ring flag is delivered to
    /// the context named by its `ctx_id` and to no component; any other
    /// fence is delivered to the default component's global timeline,
    /// which completes it synchronously, and to no context.
    pub fn create_fence(&mut self, fence: RutabagaFence) -> (r: RutabagaResult<()>)
        requires
            old(self).wf(),
        ensures
            final(self).wf(),
            fence.flags & RUTABAGA_FLAG_INFO_RING_IDX != 0 ==> (if old(self).contexts_map().contains_key(fence.ctx_id) {
                &&& r is Ok
                &&& same_except_contexts(*old(self), *final(self))
                &&& final(self).contexts_map().contains_key(fence.ctx_id)
                &&& context_with_fence(
                    old(self).contexts_map()[fence.ctx_id],
                    final(self).contexts_map()[fence.ctx_id],
                    fence,
                )
                &&& final(self).contexts_map() == old(self).contexts_map().insert(
                    fence.ctx_id,
                    final(self).contexts_map()[fence.ctx_id],
                )
            } else {
                (r matches Err(e) && e == RutabagaError::InvalidContextId) && state_unchanged(
                    *old(self),
                    *final(self),
                )
            }),
            fence.flags & RUTABAGA_FLAG_INFO_RING_IDX == 0 ==> {
                &&& r is Ok
                &&& same_except_completed(*old(self), *final(self))
                &&& final(self).completed() == old(self).completed().push(fence)
            },
    {
        if fence.flags & RUTABAGA_FLAG_INFO_RING_IDX != 0 {
            match self.contexts.remove(fence.ctx_id) {
                None => Err(RutabagaError::InvalidContextId),
                Some(ctx) => {
                    match ctx {
                        RutabagaContext::CrossDomain(mut c) => {
                            let ghost c0 = c;
                            let fr = c.context_create_fence(fence);
                            proof {
                                assert(old(self).contexts_map().contains_key(fence.ctx_id));
                                assert(old(self).contexts_map()[fence.ctx_id].wf());
                                assert(old(self).contexts_map()[fence.ctx_id]
                                    == RutabagaContext::CrossDomain(c0));
                                assert(c.attached_resources@ == c0.attached_resources@);
                                assert(c.wf());
                                assert(c.ctx_id == c0.ctx_id);
                            }
                            self.contexts.insert(fence.ctx_id, RutabagaContext::CrossDomain(c));
                            proof {
                                self.lemma_restore_contexts(*old(self), fence.ctx_id);
                            }
                            match fr {
                                Ok(()) => Ok(()),
                                Err(e) => Err(e),
                            }
                        },
                    }
                },
            }
        } else {
            match self.find_component_index(self.default_component) {
                None => Err(RutabagaError::InvalidComponent),
                Some(i) => {
                    let fr = self.components[i].create_fence(fence);
                    match fr {
                        Ok(()) => {
                            self.completed_fences.push(fence);
                            proof {
                                self.lemma_frame_completed(*old(self));
                            }
                            Ok(())
                        },
                        Err(e) => Err(e),
                    }
                },
            }
        }
    }

    /// An identical component list instantiates the same component types.
    proof fn lemma_components_preserved(&self, pre: Rutabaga)
        requires
            self.components == pre.components,
        ensures
            forall|t: RutabagaComponentType|
                #[trigger] self.spec_has_component(t) == pre.spec_has_component(t),
    {
        assert forall|t: RutabagaComponentType|
            #[trigger] self.spec_has_component(t) == pre.spec_has_component(t) by {
            if self.spec_has_component(t) {
                let i = choose|i: int|
                    0 <= i < self.components@.len() && (
                    #[trigger] self.components@[i]).spec_component_type() == t;
                assert(pre.components@[i].spec_component_type() == t);
            }
            if pre.spec_has_component(t) {
                let i = choose|i: int|
                    0 <= i < pre.components@.len() && (
                    #[trigger] pre.components@[i]).spec_component_type() == t;
                assert(self.components@[i].spec_component_type() == t);
            }
        }
    }

    /// The invariant clauses about components and capability sets carry
    /// over whenever those fields are unchanged.
    proof fn lemma_static_wf(&self, pre: Rutabaga)
        requires
            pre.wf(),
            self.components == pre.components,
            self.default_component == pre.default_component,
            self.capset_info == pre.capset_info,
        ensures
            self.spec_has_component(self.default_component),
            forall|i: int|
                0 <= i < self.capset_entries().len() ==> self.spec_has_component(
                    (#[trigger] self.capset_entries()[i]).component,
                ),
            self.capset_entries() == pre.capset_entries(),
            self.default_component_type() == pre.default_component_type(),
            forall|t: RutabagaComponentType|
                #[trigger] self.spec_has_component(t) == pre.spec_has_component(t),
    {
        self.lemma_components_preserved(pre);
        assert(self.capset_entries() == pre.capset_entries());
        assert forall|i: int| 0 <= i < self.capset_entries().len() implies self.spec_has_component(
            (#[trigger] self.capset_entries()[i]).component,
        ) by {
            assert(pre.spec_has_component(pre.capset_entries()[i].component));
        }
        assert(pre.spec_has_component(pre.default_component));
    }

    /// An operation that leaves every field of the orchestrator unchanged
    /// except the completion queue keeps the invariant.
    proof fn lemma_frame_completed(&self, pre: Rutabaga)
        requires
            pre.wf(),
            self.resources == pre.resources,
            self.contexts == pre.contexts,
            self.components == pre.components,
            self.default_component == pre.default_component,
            self.capset_info == pre.capset_info,
        ensures
            self.wf(),
            same_except_completed(pre, *self),
    {
        self.lemma_static_wf(pre);
        assert(self.resources_map() == pre.resources_map());
        assert(self.contexts_map() == pre.contexts_map());
        assert forall|id: u32| self.resources_map().contains_key(id) implies (
        #[trigger] self.resources_map()[id]).wf() && self.resources_map()[id].resource_id == id by {
            assert(pre.resources_map().contains_key(id));
        }
        assert forall|id: u32| self.contexts_map().contains_key(id) implies (
        #[trigger] self.contexts_map()[id]).wf() && self.contexts_map()[id].spec_ctx_id() == id by {
            assert(pre.contexts_map().contains_key(id));
        }
    }

    /// After a context registry entry was removed and reinserted, the
    /// invariant holds again and the whole map changed only at that key.
    proof fn lemma_restore_contexts(&self, pre: Rutabaga, ctx_id: u32)
        requires
            pre.wf(),
            self.resources == pre.resources,
            self.components == pre.components,
            self.default_component == pre.default_component,
            self.capset_info == pre.capset_info,
            self.completed_fences == pre.completed_fences,
            self.contexts.wf(),
            self.contexts_map() == pre.contexts_map().remove(ctx_id).insert(
                ctx_id,
                self.contexts_map()[ctx_id],
            ) || self.contexts_map() == pre.contexts_map().insert(
                ctx_id,
                self.contexts_map()[ctx_id],
            ),
            self.contexts_map().contains_key(ctx_id),
            self.contexts_map()[ctx_id].wf(),
            self.contexts_map()[ctx_id].spec_ctx_id() == ctx_id,
        ensures
            self.wf(),
            self.contexts_map() == pre.contexts_map().insert(ctx_id, self.contexts_map()[ctx_id]),
            same_except_contexts(pre, *self),
    {
        self.lemma_static_wf(pre);
        assert(self.resources_map() == pre.resources_map());
        assert forall|id: u32| self.resources_map().contains_key(id) implies (
        #[trigger] self.resources_map()[id]).wf() && self.resources_map()[id].resource_id == id by {
            assert(pre.resources_map().contains_key(id));
        }
        lemma_map_remove_insert(pre.contexts_map(), ctx_id, self.contexts_map()[ctx_id]);
        assert forall|id: u32| self.contexts_map().contains_key(id) implies (
        #[trigger] self.contexts_map()[id]).wf() && self.contexts_map()[id].spec_ctx_id() == id by {
            if id != ctx_id {
                assert(self.contexts_map()[id] == pre.contexts_map()[id]);
                assert(pre.contexts_map().contains_key(id));
            }
        }
    }

    /// After a resource registry entry was inserted (fresh or reinserted
    /// after removal), the invariant holds again.
    proof fn lemma_restore_resources(&self, pre: Rutabaga, resource_id: u32)
        requires
            pre.wf(),
            self.contexts == pre.contexts,
            self.components == pre.components,
            self.default_component == pre.default_component,
            self.capset_info == pre.capset_info,
            self.completed_fences == pre.completed_fences,
            self.resources.wf(),
            self.resources_map().contains_key(resource_id),
            self.resources_map()[resource_id].wf(),
            self.resources_map()[resource_id].resource_id == resource_id,
            self.resources_map() == pre.resources_map().remove(resource_id).insert(
                resource_id,
                self.resources_map()[resource_id],
            ) || self.resources_map() == pre.resources_map().insert(
                resource_id,
                self.resources_map()[resource_id],
            ),
        ensures
            self.wf(),
            self.resources_map() == pre.resources_map().insert(
                resource_id,
                self.resources_map()[resource_id],
            ),
            same_except_resources(pre, *self),
    {
        self.lemma_static_wf(pre);
        assert(self.contexts_map() == pre.contexts_map());
        assert forall|id: u32| self.contexts_map().contains_key(id) implies (
        #[trigger] self.contexts_map()[id]).wf() && self.contexts_map()[id].spec_ctx_id() == id by {
            assert(pre.contexts_map().contains_key(id));
        }
        lemma_map_remove_insert(pre.resources_map(), resource_id, self.resources_map()[resource_id]);
        assert forall|id: u32| self.resources_map().contains_key(id) implies (
        #[trigger] self.resources_map()[id]).wf() && self.resources_map()[id].resource_id == id by {
            if id != resource_id {
                assert(self.resources_map()[id] == pre.resources_map()[id]);
                assert(pre.resources_map().contains_key(id));
            }
        }
    }

    /// Drains the completion queue: the fences of the global timeline that
    /// have completed since the last poll, oldest first. This is the hook
    /// an embedder's event loop reads instead of a callback.
    pub fn poll_completed_fences(&mut self) -> (r: Vec<RutabagaFence>)
        requires
            old(self).wf(),
        ensures
            final(self).wf(),
            r@ == old(self).completed(),
            final(self).completed() == Seq::<RutabagaFence>::empty(),
            same_except_completed(*old(self), *final(self)),
    {
        let n = self.completed_fences.len();
        let mut out: Vec<RutabagaFence> = Vec::new();
        let mut i: usize = 0;
        while i < n
            invariant
                i <= n,
                n == self.completed_fences@.len(),
                *self == *old(self),
                out@ == self.completed_fences@.take(i as int),
            decreases n - i,
        {
            out.push(self.completed_fences[i]);
            proof {
                assert(out@ =~= self.completed_fences@.take(i as int + 1));
            }
            i = i + 1;
        }
        proof {
            assert(self.completed_fences@.take(n as int) =~= self.completed_fences@);
        }
        self.completed_fences.clear();
        proof {
            assert(self.completed_fences@ =~= Seq::<RutabagaFence>::empty());
            self.lemma_frame_completed(*old(self));
        }
        out
    }

    /// The fences pending on the rings of context `ctx_id`, oldest first.
    pub fn context_pending_fences(&self, ctx_id: u32) -> (r: RutabagaResult<Vec<RutabagaFence>>)
        requires
            self.wf(),
        ensures
            match r {
                Ok(v) => self.contexts_map().contains_key(ctx_id) && v@
                    == self.contexts_map()[ctx_id].spec_pending_fences(),
                Err(e) => e == RutabagaError::InvalidContextId && !self.contexts_map().contains_key(
                    ctx_id,
                ),
            },
    {
        match self.contexts.get(ctx_id) {
            None => Err(RutabagaError::InvalidContextId),
            Some(ctx) => match ctx {
                RutabagaContext::CrossDomain(c) => {
                    let n = c.pending_fences.len();
                    let mut out: Vec<RutabagaFence> = Vec::new();
                    let mut i: usize = 0;
                    while i < n
                        invariant
                            i <= n,
                            n == c.pending_fences@.len(),
                            out@ == c.pending_fences@.take(i as int),
                        decreases n - i,
                    {
                        out.push(c.pending_fences[i]);
                        proof {
                            assert(out@ =~= c.pending_fences@.take(i as int + 1));
                        }
                        i = i + 1;
                    }
                    proof {
                        assert(c.pending_fences@.take(n as int) =~= c.pending_fences@);
                    }
                    Ok(out)
                },
            },
        }
    }

    /// Creates a resource with the given metadata through the default
    /// component and registers it; a live id is refused before the
    /// component is consulted.
    pub fn resource_create_3d(&mut self, resource_id: u32, resource_create_3d: ResourceCreate3D)
        -> (r: RutabagaResult<()>)
        requires
            old(self).wf(),
        ensures
            final(self).wf(),
            same_except_resources(*old(self), *final(self)),
            old(self).resources_map().contains_key(resource_id) ==> (r matches Err(e) && e
                == RutabagaError::AlreadyInUse) && state_unchanged(*old(self), *final(self)),
            !old(self).resources_map().contains_key(resource_id) ==> (if old(self).default_component_type() == RutabagaComponentType::Rutabaga2D {
                if create_3d_oversize(resource_create_3d) {
                    (r matches Err(e) && e == RutabagaError::SpecViolation) && state_unchanged(
                        *old(self),
                        *final(self),
                    )
                } else {
                    &&& r is Ok
                    &&& final(self).resources_map().contains_key(resource_id)
                    &&& fresh_2d_resource(
                        resource_id,
                        resource_create_3d,
                        final(self).resources_map()[resource_id],
                    )
                    &&& final(self).resources_map() == old(self).resources_map().insert(
                        resource_id,
                        final(self).resources_map()[resource_id],
                    )
                }
            } else {
                &&& r is Ok
                &&& final(self).resources_map().contains_key(resource_id)
                &&& default_resource_record(
                    resource_id,
                    final(self).resources_map()[resource_id],
                )
                &&& final(self).resources_map() == old(self).resources_map().insert(
                    resource_id,
                    final(self).resources_map()[resource_id],
                )
            }),
    {
        let comp_idx = match self.find_component_index(self.default_component) {
            Some(i) => i,
            None => {
                return Err(RutabagaError::InvalidComponent);
            },
        };
        if self.resources.contains_key(resource_id) {
            return Err(RutabagaError::AlreadyInUse);
        }
        let res = match self.components[comp_idx].create_3d(resource_id, resource_create_3d) {
            Ok(res) => res,
            Err(e) => {
                return Err(e);
            },
        };
        self.resources.insert(resource_id, res);
        proof {
            self.lemma_restore_resources(*old(self), resource_id);
        }
        Ok(())
    }

    /// Attaches guest scatter/gather backing to a live resource; the
    /// registry records the descriptors as the source of truth.
    pub fn attach_backing(&mut self, resource_id: u32, vecs: Vec<RutabagaIovec>) -> (r:
        RutabagaResult<()>)
        requires
            old(self).wf(),
        ensures
            final(self).wf(),
            same_except_resources(*old(self), *final(self)),
            !old(self).resources_map().contains_key(resource_id) ==> (r matches Err(e) && e
                == RutabagaError::InvalidResourceId) && state_unchanged(*old(self), *final(self)),
            old(self).resources_map().contains_key(resource_id) ==> r is Ok && final(self).resources_map() == old(self).resources_map().insert(
                resource_id,
                (RutabagaResource {
                    backing_iovecs: Some(vecs),
                    ..old(self).resources_map()[resource_id]
                }),
            ),
    {
        let comp_idx = match self.find_component_index(self.default_component) {
            Some(i) => i,
            None => {
                return Err(RutabagaError::InvalidComponent);
            },
        };
        match self.resources.remove(resource_id) {
            None => Err(RutabagaError::InvalidResourceId),
            Some(mut res) => {
                let ar = self.components[comp_idx].attach_backing(resource_id, &vecs);
                match ar {
                    Ok(()) => {
                        res.backing_iovecs = Some(vecs);
                        self.resources.insert(resource_id, res);
                        proof {
                            self.lemma_restore_resources(*old(self), resource_id);
                        }
                        Ok(())
                    },
                    Err(e) => {
                        self.resources.insert(resource_id, res);
                        proof {
                            self.lemma_restore_resources(*old(self), resource_id);
                        }
                        Err(e)
                    },
                }
            },
        }
    }

    /// Detaches any previously attached backing from a live resource. The
    /// registry clears the descriptors regardless of backend bookkeeping.
    pub fn detach_backing(&mut self, resource_id: u32) -> (r: RutabagaResult<()>)
        requires
            old(self).wf(),
        ensures
            final(self).wf(),
            same_except_resources(*old(self), *final(self)),
            !old(self).resources_map().contains_key(resource_id) ==> (r matches Err(e) && e
                == RutabagaError::InvalidResourceId) && state_unchanged(*old(self), *final(self)),
            old(self).resources_map().contains_key(resource_id) ==> r is Ok && final(self).resources_map() == old(self).resources_map().insert(
                resource_id,
                res_without_backing(old(self).resources_map()[resource_id]),
            ),
    {
        let comp_idx = match self.find_component_index(self.default_component) {
            Some(i) => i,
            None => {
                return Err(RutabagaError::InvalidComponent);
            },
        };
        match self.resources.remove(resource_id) {
            None => Err(RutabagaError::InvalidResourceId),
            Some(mut res) => {
                self.components[comp_idx].detach_backing(resource_id);
                res.backing_iovecs = None;
                self.resources.insert(resource_id, res);
                proof {
                    self.lemma_restore_resources(*old(self), resource_id);
                }
                Ok(())
            },
        }
    }

    /// Releases the guest reference on a resource: the registry entry is
    /// removed, and with it the record's ownership of its handle.
    pub fn unref_resource(&mut self, resource_id: u32) -> (r: RutabagaResult<()>)
        requires
            old(self).wf(),
        ensures
            final(self).wf(),
            same_except_resources(*old(self), *final(self)),
            !old(self).resources_map().contains_key(resource_id) ==> (r matches Err(e) && e
                == RutabagaError::InvalidResourceId) && state_unchanged(*old(self), *final(self)),
            old(self).resources_map().contains_key(resource_id) ==> r is Ok && final(self).resources_map() == old(self).resources_map().remove(resource_id),
    {
        let comp_idx = match self.find_component_index(self.default_component) {
            Some(i) => i,
            None => {
                return Err(RutabagaError::InvalidComponent);
            },
        };
        match self.resources.remove(resource_id) {
            None => Err(RutabagaError::InvalidResourceId),
            Some(_res) => {
                self.components[comp_idx].unref_resource(resource_id);
                proof {
                    self.lemma_static_wf(*old(self));
                    assert(self.contexts_map() == old(self).contexts_map());
                    assert forall|id: u32| self.contexts_map().contains_key(id) implies (
                    #[trigger] self.contexts_map()[id]).wf()
                        && self.contexts_map()[id].spec_ctx_id() == id by {
                        assert(old(self).contexts_map().contains_key(id));
                    }
                    assert forall|id: u32| self.resources_map().contains_key(id) implies (
                    #[trigger] self.resources_map()[id]).wf() && self.resources_map()[id].resource_id
                        == id by {
                        assert(self.resources_map()[id] == old(self).resources_map()[id]);
                        assert(old(self).resources_map().contains_key(id));
                    }
                }
                Ok(())
            },
        }
    }
}

impl Rutabaga {
    /// Copies the gathered guest bytes `data` of the transfer rectangle
    /// into the host copy of a live resource, through the default
    /// component. The embedder gathers `data` from the resource's backing.
    pub fn transfer_write(
        &mut self,
        ctx_id: u32,
        resource_id: u32,
        transfer: Transfer3D,
        data: &[u8],
    ) -> (r: RutabagaResult<()>)
        requires
            old(self).wf(),
        ensures
            final(self).wf(),
            same_except_resources(*old(self), *final(self)),
            !old(self).resources_map().contains_key(resource_id) ==> (r matches Err(e) && e
                == RutabagaError::InvalidResourceId) && state_unchanged(*old(self), *final(self)),
            old(self).resources_map().contains_key(resource_id) ==> (if old(self).default_component_type() == RutabagaComponentType::Rutabaga2D {
                match r {
                    Ok(_) => {
                        &&& final(self).resources_map().contains_key(resource_id)
                        &&& transfer_write_applied(
                            old(self).resources_map()[resource_id],
                            final(self).resources_map()[resource_id],
                            transfer,
                            data@,
                        )
                        &&& final(self).resources_map() == old(self).resources_map().insert(
                            resource_id,
                            final(self).resources_map()[resource_id],
                        )
                    },
                    Err(e) => e == RutabagaError::SpecViolation && state_unchanged(
                        *old(self),
                        *final(self),
                    ) && transfer_write_rejected(
                        old(self).resources_map()[resource_id],
                        transfer,
                        data@,
                    ),
                }
            } else {
                r is Ok && state_unchanged(*old(self), *final(self))
            }),
    {
        let comp_idx = match self.find_component_index(self.default_component) {
            Some(i) => i,
            None => {
                return Err(RutabagaError::InvalidComponent);
            },
        };
        match self.resources.remove(resource_id) {
            None => Err(RutabagaError::InvalidResourceId),
            Some(mut res) => {
                proof {
                    assert(old(self).resources_map()[resource_id].wf());
                }
                let tr = self.components[comp_idx].transfer_write(
                    ctx_id,
                    &mut res,
                    transfer,
                    data,
                );
                self.resources.insert(resource_id, res);
                proof {
                    self.lemma_restore_resources(*old(self), resource_id);
                    if !(tr matches Ok(_)
                        && old(self).default_component_type()
                        == RutabagaComponentType::Rutabaga2D) {
                        assert(self.resources_map() =~= old(self).resources_map());
                    }
                }
                tr
            },
        }
    }

    /// Reads the transfer rectangle out of the host copy of a live
    /// resource through the default component and returns the bytes; the
    /// embedder scatters them into the guest backing or the caller's
    /// buffer.
    pub fn transfer_read(&mut self, ctx_id: u32, resource_id: u32, transfer: Transfer3D) -> (r:
        RutabagaResult<Vec<u8>>)
        requires
            old(self).wf(),
        ensures
            final(self).wf(),
            state_unchanged(*old(self), *final(self)),
            !old(self).resources_map().contains_key(resource_id) ==> (r matches Err(e) && e
                == RutabagaError::InvalidResourceId),
            old(self).resources_map().contains_key(resource_id) ==> (if old(self).default_component_type() == RutabagaComponentType::Rutabaga2D {
                match r {
                    Ok(data) => transfer_read_result(
                        old(self).resources_map()[resource_id],
                        transfer,
                        data@,
                    ),
                    Err(e) => e == RutabagaError::SpecViolation && transfer_read_rejected(
                        old(self).resources_map()[resource_id],
                        transfer,
                    ),
                }
            } else {
                (r matches Ok(data) && data@ == Seq::<u8>::empty())
            }),
    {
        let comp_idx = match self.find_component_index(self.default_component) {
            Some(i) => i,
            None => {
                return Err(RutabagaError::InvalidComponent);
            },
        };
        match self.resources.get(resource_id) {
            None => Err(RutabagaError::InvalidResourceId),
            Some(res) => {
                proof {
                    assert(old(self).resources_map()[resource_id].wf());
                }
                self.components[comp_idx].transfer_read(ctx_id, res, transfer)
            },
        }
    }

    /// Pushes a live resource to a display surface. Neither built-in
    /// backend drives a display, so a live resource answers unsupported.
    pub fn resource_flush(&mut self, resource_id: u32) -> (r: RutabagaResult<()>)
        requires
            old(self).wf(),
        ensures
            final(self).wf(),
            state_unchanged(*old(self), *final(self)),
            !old(self).resources_map().contains_key(resource_id) ==> (r matches Err(e) && e
                == RutabagaError::InvalidResourceId),
            old(self).resources_map().contains_key(resource_id) ==> (r matches Err(e) && e
                == RutabagaError::Unsupported),
    {
        let comp_idx = match self.find_component_index(self.default_component) {
            Some(i) => i,
            None => {
                return Err(RutabagaError::Unsupported);
            },
        };
        match self.resources.remove(resource_id) {
            None => Err(RutabagaError::InvalidResourceId),
            Some(mut res) => {
                let fr = self.components[comp_idx].resource_flush(&mut res);
                self.resources.insert(resource_id, res);
                proof {
                    self.lemma_restore_resources(*old(self), resource_id);
                    assert(self.resources_map() =~= old(self).resources_map());
                }
                fr
            },
        }
    }

    /// A host mapping of a live blob resource; unsupported by both
    /// built-in backends.
    pub fn map(&self, resource_id: u32) -> (r: RutabagaResult<RutabagaMapping>)
        requires
            self.wf(),
        ensures
            !self.resources_map().contains_key(resource_id) ==> (r matches Err(e) && e
                == RutabagaError::InvalidResourceId),
            self.resources_map().contains_key(resource_id) ==> (r matches Err(e) && e
                == RutabagaError::Unsupported),
    {
        let comp_idx = match self.find_component_index(self.default_component) {
            Some(i) => i,
            None => {
                return Err(RutabagaError::InvalidComponent);
            },
        };
        if !self.resources.contains_key(resource_id) {
            return Err(RutabagaError::InvalidResourceId);
        }
        self.components[comp_idx].map(resource_id)
    }

    /// Releases a host mapping of a live blob resource; unsupported by
    /// both built-in backends.
    pub fn unmap(&self, resource_id: u32) -> (r: RutabagaResult<()>)
        requires
            self.wf(),
        ensures
            !self.resources_map().contains_key(resource_id) ==> (r matches Err(e) && e
                == RutabagaError::InvalidResourceId),
            self.resources_map().contains_key(resource_id) ==> (r matches Err(e) && e
                == RutabagaError::Unsupported),
    {
        let comp_idx = match self.find_component_index(self.default_component) {
            Some(i) => i,
            None => {
                return Err(RutabagaError::InvalidComponent);
            },
        };
        if !self.resources.contains_key(resource_id) {
            return Err(RutabagaError::InvalidResourceId);
        }
        self.components[comp_idx].unmap(resource_id)
    }

    /// The cacheability descriptor of a live blob resource; asking for it
    /// on a resource that was never mapped is a caller error.
    pub fn map_info(&self, resource_id: u32) -> (r: RutabagaResult<u32>)
        requires
            self.wf(),
        ensures
            match r {
                Ok(m) => self.resources_map().contains_key(resource_id)
                    && self.resources_map()[resource_id].map_info == Some(m),
                Err(e) => {
                    ||| (e == RutabagaError::InvalidResourceId
                        && !self.resources_map().contains_key(resource_id))
                    ||| (e == RutabagaError::SpecViolation && self.resources_map().contains_key(
                        resource_id,
                    ) && self.resources_map()[resource_id].map_info is None)
                },
            },
    {
        match self.resources.get(resource_id) {
            None => Err(RutabagaError::InvalidResourceId),
            Some(res) => match res.map_info {
                Some(m) => Ok(m),
                None => Err(RutabagaError::SpecViolation),
            },
        }
    }

    /// The Vulkan metadata of a live blob resource, if it has any.
    pub fn vulkan_info(&self, resource_id: u32) -> (r: RutabagaResult<VulkanInfo>)
        requires
            self.wf(),
        ensures
            match r {
                Ok(v) => self.resources_map().contains_key(resource_id)
                    && self.resources_map()[resource_id].vulkan_info == Some(v),
                Err(e) => {
                    ||| (e == RutabagaError::InvalidResourceId
                        && !self.resources_map().contains_key(resource_id))
                    ||| (e == RutabagaError::InvalidVulkanInfo && self.resources_map().contains_key(
                        resource_id,
                    ) && self.resources_map()[resource_id].vulkan_info is None)
                },
            },
    {
        match self.resources.get(resource_id) {
            None => Err(RutabagaError::InvalidResourceId),
            Some(res) => match res.vulkan_info {
                Some(v) => Ok(v),
                None => Err(RutabagaError::InvalidVulkanInfo),
            },
        }
    }

    /// The 3D metadata of a live resource, if it has any.
    pub fn query(&self, resource_id: u32) -> (r: RutabagaResult<Resource3DInfo>)
        requires
            self.wf(),
        ensures
            match r {
                Ok(v) => self.resources_map().contains_key(resource_id)
                    && self.resources_map()[resource_id].info_3d == Some(v),
                Err(e) => {
                    ||| (e == RutabagaError::InvalidResourceId
                        && !self.resources_map().contains_key(resource_id))
                    ||| (e == RutabagaError::SpecViolation && self.resources_map().contains_key(
                        resource_id,
                    ) && self.resources_map()[resource_id].info_3d is None)
                },
            },
    {
        match self.resources.get(resource_id) {
            None => Err(RutabagaError::InvalidResourceId),
            Some(res) => match res.info_3d {
                Some(v) => Ok(v),
                None => Err(RutabagaError::SpecViolation),
            },
        }
    }

    /// Exports a fence as a cross-process handle; unsupported by both
    /// built-in backends.
    pub fn export_fence(&self, fence_id: u32) -> (r: RutabagaResult<RutabagaHandle>)
        requires
            self.wf(),
        ensures
            (r matches Err(e) && e == RutabagaError::Unsupported),
    {
        match self.find_component_index(self.default_component) {
            Some(i) => self.components[i].export_fence(fence_id),
            None => Err(RutabagaError::InvalidComponent),
        }
    }
}

impl Rutabaga {
    /// Exports a live resource's handle. A shareable resource — a legacy
    /// non-blob resource, or a blob whose flags ask for wide sharing or
    /// cross-device use — is exported by duplicating the underlying object
    /// and the original stays in place. Any other blob must move its sole
    /// reference out: if other owners are outstanding the export fails
    /// with an ownership conflict, and either way the record no longer
    /// holds a handle afterwards.
    pub fn export_blob(&mut self, resource_id: u32) -> (r: RutabagaResult<RutabagaHandle>)
        requires
            old(self).wf(),
        ensures
            final(self).wf(),
            same_except_resources(*old(self), *final(self)),
            !old(self).resources_map().contains_key(resource_id) ==> (r matches Err(e) && e
                == RutabagaError::InvalidResourceId) && state_unchanged(*old(self), *final(self)),
            old(self).resources_map().contains_key(resource_id) ==> {
                &&& (old(self).resources_map()[resource_id].handle is None ==> (r matches Err(e)
                    && e == RutabagaError::InvalidRutabagaHandle) && state_unchanged(
                    *old(self),
                    *final(self),
                ))
                &&& (old(self).resources_map()[resource_id].handle matches Some(own) ==> (
                if spec_resource_shareable(
                    old(self).resources_map()[resource_id].blob,
                    old(self).resources_map()[resource_id].blob_flags,
                ) {
                    (r matches Ok(h) && h == own.spec_handle()) && state_unchanged(
                        *old(self),
                        *final(self),
                    )
                } else {
                    &&& (own matches RutabagaHandleOwnership::Exclusive(h) ==> (r matches Ok(h2)
                        && h2 == h))
                    &&& (own matches RutabagaHandleOwnership::Shared(h, n) ==> (r matches Err(e)
                        && e == RutabagaError::InvalidRutabagaHandle))
                    &&& final(self).resources_map() == old(self).resources_map().insert(
                        resource_id,
                        res_without_handle(old(self).resources_map()[resource_id]),
                    )
                }))
            },
    {
        match self.resources.remove(resource_id) {
            None => Err(RutabagaError::InvalidResourceId),
            Some(mut res) => {
                proof {
                    assert(old(self).resources_map()[resource_id].wf());
                }
                let shareable = resource_shareable(res.blob, res.blob_flags);
                let opt = res.handle.take();
                match opt {
                    None => {
                        self.resources.insert(resource_id, res);
                        proof {
                            self.lemma_restore_resources(*old(self), resource_id);
                            assert(self.resources_map() =~= old(self).resources_map());
                        }
                        Err(RutabagaError::InvalidRutabagaHandle)
                    },
                    Some(own) => {
                        if shareable {
                            let (own_back, clone) = match own {
                                RutabagaHandleOwnership::Exclusive(h) => {
                                    let c = match h.try_clone() {
                                        Ok(c) => c,
                                        Err(e) => {
                                            self.resources.insert(resource_id, res);
                                            return Err(e);
                                        },
                                    };
                                    (RutabagaHandleOwnership::Exclusive(h), c)
                                },
                                RutabagaHandleOwnership::Shared(h, n) => {
                                    let c = match h.try_clone() {
                                        Ok(c) => c,
                                        Err(e) => {
                                            self.resources.insert(resource_id, res);
                                            return Err(e);
                                        },
                                    };
                                    (RutabagaHandleOwnership::Shared(h, n), c)
                                },
                            };
                            res.handle = Some(own_back);
                            self.resources.insert(resource_id, res);
                            proof {
                                self.lemma_restore_resources(*old(self), resource_id);
                                assert(self.resources_map() =~= old(self).resources_map());
                            }
                            Ok(clone)
                        } else {
                            match own {
                                RutabagaHandleOwnership::Exclusive(h) => {
                                    self.resources.insert(resource_id, res);
                                    proof {
                                        self.lemma_restore_resources(*old(self), resource_id);
                                    }
                                    Ok(h)
                                },
                                RutabagaHandleOwnership::Shared(_, _) => {
                                    self.resources.insert(resource_id, res);
                                    proof {
                                        self.lemma_restore_resources(*old(self), resource_id);
                                    }
                                    Err(RutabagaError::InvalidRutabagaHandle)
                                },
                            }
                        }
                    },
                }
            },
        }
    }

    /// Creates a blob resource. A nonzero `ctx_id` naming a live
    /// cross-domain context routes creation through that context's
    /// bookkeeping; otherwise the default component answers, and neither
    /// built-in backend supports component-global blobs. A live resource
    /// id is refused first.
    pub fn resource_create_blob(
        &mut self,
        ctx_id: u32,
        resource_id: u32,
        resource_create_blob: ResourceCreateBlob,
        iovecs: Option<Vec<RutabagaIovec>>,
        handle: Option<RutabagaHandle>,
    ) -> (r: RutabagaResult<()>)
        requires
            old(self).wf(),
        ensures
            final(self).wf(),
            same_except_registries(*old(self), *final(self)),
            old(self).resources_map().contains_key(resource_id) ==> (r matches Err(e) && e
                == RutabagaError::AlreadyInUse) && state_unchanged(*old(self), *final(self)),
            !old(self).resources_map().contains_key(resource_id) ==> (if ctx_id == 0 {
                (r matches Err(e) && e == RutabagaError::Unsupported) && state_unchanged(
                    *old(self),
                    *final(self),
                )
            } else if !old(self).contexts_map().contains_key(ctx_id) {
                (r matches Err(e) && e == RutabagaError::InvalidContextId) && state_unchanged(
                    *old(self),
                    *final(self),
                )
            } else {
                &&& r is Ok
                &&& final(self).resources_map().contains_key(resource_id)
                &&& cross_domain_blob_resource(
                    resource_id,
                    resource_create_blob,
                    handle,
                    context_next_token(old(self).contexts_map()[ctx_id]),
                    final(self).resources_map()[resource_id],
                )
                &&& final(self).resources_map() == old(self).resources_map().insert(
                    resource_id,
                    final(self).resources_map()[resource_id],
                )
                &&& final(self).contexts_map().contains_key(ctx_id)
                &&& context_with_blob(
                    old(self).contexts_map()[ctx_id],
                    final(self).contexts_map()[ctx_id],
                    resource_id,
                    handle,
                )
                &&& final(self).contexts_map() == old(self).contexts_map().insert(
                    ctx_id,
                    final(self).contexts_map()[ctx_id],
                )
            }),
    {
        let _ = iovecs;
        if self.resources.contains_key(resource_id) {
            return Err(RutabagaError::AlreadyInUse);
        }
        let comp_idx = match self.find_component_index(self.default_component) {
            Some(i) => i,
            None => {
                return Err(RutabagaError::InvalidComponent);
            },
        };
        if ctx_id > 0 {
            match self.contexts.remove(ctx_id) {
                None => Err(RutabagaError::InvalidContextId),
                Some(ctx) => {
                    match ctx {
                        RutabagaContext::CrossDomain(mut c) => {
                            let ghost c0 = c;
                            let rres = c.context_create_blob(
                                resource_id,
                                resource_create_blob,
                                handle,
                            );
                            proof {
                                assert(old(self).contexts_map().contains_key(ctx_id));
                                assert(old(self).contexts_map()[ctx_id].wf());
                                assert(old(self).contexts_map()[ctx_id]
                                    == RutabagaContext::CrossDomain(c0));
                                assert(c.attached_resources@ == c0.attached_resources@);
                                assert(c.wf());
                            }
                            self.contexts.insert(ctx_id, RutabagaContext::CrossDomain(c));
                            proof {
                                self.lemma_restore_contexts(*old(self), ctx_id);
                            }
                            match rres {
                                Ok(res) => {
                                    let ghost mid = *self;
                                    self.resources.insert(resource_id, res);
                                    proof {
                                        self.lemma_restore_resources(mid, resource_id);
                                    }
                                    Ok(())
                                },
                                Err(e) => Err(e),
                            }
                        },
                    }
                },
            }
        } else {
            let rres = self.components[comp_idx].create_blob(
                ctx_id,
                resource_id,
                resource_create_blob,
                None,
                handle,
            );
            match rres {
                Ok(res) => {
                    self.resources.insert(resource_id, res);
                    proof {
                        self.lemma_restore_resources(*old(self), resource_id);
                    }
                    Ok(())
                },
                Err(e) => Err(e),
            }
        }
    }

    /// Creates a context under a fresh id. The component is chosen from
    /// the capability-set id in the low bits of `context_init`, resolved
    /// through this instance's catalog and falling back to the default
    /// component; only the cross-domain backend accepts the request.
    pub fn create_context(&mut self, ctx_id: u32, context_init: u32, context_name: Option<&str>)
        -> (r: RutabagaResult<()>)
        requires
            old(self).wf(),
        ensures
            final(self).wf(),
            same_except_contexts(*old(self), *final(self)),
            old(self).contexts_map().contains_key(ctx_id) ==> (r matches Err(e) && e
                == RutabagaError::AlreadyInUse) && state_unchanged(*old(self), *final(self)),
            !old(self).contexts_map().contains_key(ctx_id) ==> (if old(self).resolved_context_component(context_init) == RutabagaComponentType::CrossDomain {
                &&& r is Ok
                &&& final(self).contexts_map().contains_key(ctx_id)
                &&& (final(self).contexts_map()[ctx_id] matches RutabagaContext::CrossDomain(c)
                    && fresh_cross_domain_context(ctx_id, context_init, c))
                &&& final(self).contexts_map() == old(self).contexts_map().insert(
                    ctx_id,
                    final(self).contexts_map()[ctx_id],
                )
            } else {
                (r matches Err(e) && e == RutabagaError::Unsupported) && state_unchanged(
                    *old(self),
                    *final(self),
                )
            }),
    {
        let capset_id = context_init & RUTABAGA_CONTEXT_INIT_CAPSET_ID_MASK;
        let component_type = match self.capset_id_to_component_type(capset_id) {
            Ok(t) => t,
            Err(_) => self.default_component,
        };
        proof {
            if component_type != self.default_component {
                crate::capset::lemma_find_by_id_props(self.capset_entries(), capset_id);
            }
        }
        let comp_idx = match self.find_component_index(component_type) {
            Some(i) => i,
            None => {
                proof {
                    assert(self.spec_has_component(component_type));
                }
                return Err(RutabagaError::InvalidComponent);
            },
        };
        if self.contexts.contains_key(ctx_id) {
            return Err(RutabagaError::AlreadyInUse);
        }
        let ctx = match self.components[comp_idx].create_context(
            ctx_id,
            context_init,
            context_name,
        ) {
            Ok(ctx) => ctx,
            Err(e) => {
                return Err(e);
            },
        };
        self.contexts.insert(ctx_id, ctx);
        proof {
            self.lemma_restore_contexts(*old(self), ctx_id);
        }
        Ok(())
    }

    /// Destroys a live context; its pending ring fences and its working
    /// set go with it. The resources it referenced stay live.
    pub fn destroy_context(&mut self, ctx_id: u32) -> (r: RutabagaResult<()>)
        requires
            old(self).wf(),
        ensures
            final(self).wf(),
            same_except_contexts(*old(self), *final(self)),
            !old(self).contexts_map().contains_key(ctx_id) ==> (r matches Err(e) && e
                == RutabagaError::InvalidContextId) && state_unchanged(*old(self), *final(self)),
            old(self).contexts_map().contains_key(ctx_id) ==> r is Ok && final(self).contexts_map() == old(self).contexts_map().remove(ctx_id),
    {
        match self.contexts.remove(ctx_id) {
            None => Err(RutabagaError::InvalidContextId),
            Some(_ctx) => {
                proof {
                    self.lemma_static_wf(*old(self));
                    assert(self.resources_map() == old(self).resources_map());
                    assert forall|id: u32| self.resources_map().contains_key(id) implies (
                    #[trigger] self.resources_map()[id]).wf()
                        && self.resources_map()[id].resource_id == id by {
                        assert(old(self).resources_map().contains_key(id));
                    }
                    assert forall|id: u32| self.contexts_map().contains_key(id) implies (
                    #[trigger] self.contexts_map()[id]).wf()
                        && self.contexts_map()[id].spec_ctx_id() == id by {
                        assert(old(self).contexts_map().contains_key(id));
                        assert(self.contexts_map()[id] == old(self).contexts_map()[id]);
                    }
                }
                Ok(())
            },
        }
    }

    /// Records the live resource `resource_id` in the working set of the
    /// live context `ctx_id`.
    pub fn context_attach_resource(&mut self, ctx_id: u32, resource_id: u32) -> (r: RutabagaResult<
        (),
    >)
        requires
            old(self).wf(),
        ensures
            final(self).wf(),
            same_except_contexts(*old(self), *final(self)),
            !old(self).contexts_map().contains_key(ctx_id) ==> (r matches Err(e) && e
                == RutabagaError::InvalidContextId) && state_unchanged(*old(self), *final(self)),
            old(self).contexts_map().contains_key(ctx_id) && !old(self).resources_map().contains_key(resource_id) ==> (r matches Err(e) && e
                == RutabagaError::InvalidResourceId) && state_unchanged(*old(self), *final(self)),
            old(self).contexts_map().contains_key(ctx_id) && old(self).resources_map().contains_key(resource_id) ==> {
                &&& r is Ok
                &&& final(self).contexts_map().contains_key(ctx_id)
                &&& context_with_attach(
                    old(self).contexts_map()[ctx_id],
                    final(self).contexts_map()[ctx_id],
                    resource_id,
                )
                &&& final(self).contexts_map() == old(self).contexts_map().insert(
                    ctx_id,
                    final(self).contexts_map()[ctx_id],
                )
            },
    {
        match self.contexts.remove(ctx_id) {
            None => Err(RutabagaError::InvalidContextId),
            Some(ctx) => {
                if !self.resources.contains_key(resource_id) {
                    self.contexts.insert(ctx_id, ctx);
                    proof {
                        assert(old(self).contexts_map().contains_key(ctx_id));
                        assert(old(self).contexts_map()[ctx_id].wf());
                        self.lemma_restore_contexts(*old(self), ctx_id);
                        assert(self.contexts_map() =~= old(self).contexts_map());
                    }
                    return Err(RutabagaError::InvalidResourceId);
                }
                match ctx {
                    RutabagaContext::CrossDomain(mut c) => {
                        let ghost c0 = c;
                        proof {
                            assert(old(self).contexts_map().contains_key(ctx_id));
                            assert(old(self).contexts_map()[ctx_id].wf());
                            assert(old(self).contexts_map()[ctx_id]
                                == RutabagaContext::CrossDomain(c0));
                        }
                        c.attach(resource_id);
                        self.contexts.insert(ctx_id, RutabagaContext::CrossDomain(c));
                        proof {
                            assert(c.wf());
                            assert(self.contexts_map()[ctx_id] == RutabagaContext::CrossDomain(c));
                            self.lemma_restore_contexts(*old(self), ctx_id);
                        }
                        Ok(())
                    },
                }
            },
        }
    }

    /// Removes the live resource `resource_id` from the working set of
    /// the live context `ctx_id`; detaching a resource that is not in the
    /// working set changes nothing there.
    pub fn context_detach_resource(&mut self, ctx_id: u32, resource_id: u32) -> (r: RutabagaResult<
        (),
    >)
        requires
            old(self).wf(),
        ensures
            final(self).wf(),
            same_except_contexts(*old(self), *final(self)),
            !old(self).contexts_map().contains_key(ctx_id) ==> (r matches Err(e) && e
                == RutabagaError::InvalidContextId) && state_unchanged(*old(self), *final(self)),
            old(self).contexts_map().contains_key(ctx_id) && !old(self).resources_map().contains_key(resource_id) ==> (r matches Err(e) && e
                == RutabagaError::InvalidResourceId) && state_unchanged(*old(self), *final(self)),
            old(self).contexts_map().contains_key(ctx_id) && old(self).resources_map().contains_key(resource_id) ==> {
                &&& r is Ok
                &&& final(self).contexts_map().contains_key(ctx_id)
                &&& context_with_detach(
                    old(self).contexts_map()[ctx_id],
                    final(self).contexts_map()[ctx_id],
                    resource_id,
                )
                &&& final(self).contexts_map() == old(self).contexts_map().insert(
                    ctx_id,
                    final(self).contexts_map()[ctx_id],
                )
            },
    {
        match self.contexts.remove(ctx_id) {
            None => Err(RutabagaError::InvalidContextId),
            Some(ctx) => {
                if !self.resources.contains_key(resource_id) {
                    self.contexts.insert(ctx_id, ctx);
                    proof {
                        assert(old(self).contexts_map().contains_key(ctx_id));
                        assert(old(self).contexts_map()[ctx_id].wf());
                        self.lemma_restore_contexts(*old(self), ctx_id);
                        assert(self.contexts_map() =~= old(self).contexts_map());
                    }
                    return Err(RutabagaError::InvalidResourceId);
                }
                match ctx {
                    RutabagaContext::CrossDomain(mut c) => {
                        let ghost c0 = c;
                        proof {
                            assert(old(self).contexts_map().contains_key(ctx_id));
                            assert(old(self).contexts_map()[ctx_id].wf());
                            assert(old(self).contexts_map()[ctx_id]
                                == RutabagaContext::CrossDomain(c0));
                        }
                        c.detach(resource_id);
                        self.contexts.insert(ctx_id, RutabagaContext::CrossDomain(c));
                        proof {
                            assert(c.wf());
                            assert(self.contexts_map()[ctx_id] == RutabagaContext::CrossDomain(c));
                            self.lemma_restore_contexts(*old(self), ctx_id);
                        }
                        Ok(())
                    },
                }
            },
        }
    }

    /// Submits an opaque command buffer to the live context `ctx_id`.
    pub fn submit_command(&mut self, ctx_id: u32, commands: &[u8]) -> (r: RutabagaResult<()>)
        requires
            old(self).wf(),
        ensures
            final(self).wf(),
            same_except_contexts(*old(self), *final(self)),
            !old(self).contexts_map().contains_key(ctx_id) ==> (r matches Err(e) && e
                == RutabagaError::InvalidContextId) && state_unchanged(*old(self), *final(self)),
            old(self).contexts_map().contains_key(ctx_id) ==> {
                &&& r is Ok
                &&& final(self).contexts_map().contains_key(ctx_id)
                &&& context_with_submit(
                    old(self).contexts_map()[ctx_id],
                    final(self).contexts_map()[ctx_id],
                )
                &&& final(self).contexts_map() == old(self).contexts_map().insert(
                    ctx_id,
                    final(self).contexts_map()[ctx_id],
                )
            },
    {
        match self.contexts.remove(ctx_id) {
            None => Err(RutabagaError::InvalidContextId),
            Some(ctx) => {
                match ctx {
                    RutabagaContext::CrossDomain(mut c) => {
                        let ghost c0 = c;
                        proof {
                            assert(old(self).contexts_map().contains_key(ctx_id));
                            assert(old(self).contexts_map()[ctx_id].wf());
                            assert(old(self).contexts_map()[ctx_id]
                                == RutabagaContext::CrossDomain(c0));
                        }
                        let sr = c.submit_cmd(commands);
                        self.contexts.insert(ctx_id, RutabagaContext::CrossDomain(c));
                        proof {
                            self.lemma_restore_contexts(*old(self), ctx_id);
                        }
                        match sr {
                            Ok(()) => Ok(()),
                            Err(e) => Err(e),
                        }
                    },
                }
            },
        }
    }
}

/// Whether `mask` enables the capability set `capset_id`.
pub open spec fn spec_capset_enabled(mask: u64, capset_id: u32) -> bool {
    mask & (1u64 << (capset_id as u64)) != 0
}

/// The default component a builder resolves: a nonzero capability mask
/// overrides the caller's choice, preferring the streaming renderer, then
/// the legacy renderer family, then the channel backend.
pub open spec fn spec_resolved_default(b: RutabagaBuilder) -> RutabagaComponentType {
    if b.context_mask != 0 {
        if spec_capset_enabled(b.context_mask, RUTABAGA_CAPSET_GFXSTREAM) {
            RutabagaComponentType::Gfxstream
        } else if spec_capset_enabled(b.context_mask, RUTABAGA_CAPSET_VIRGL2)
            || spec_capset_enabled(b.context_mask, RUTABAGA_CAPSET_VENUS)
            || spec_capset_enabled(b.context_mask, RUTABAGA_CAPSET_DRM) {
            RutabagaComponentType::VirglRenderer
        } else {
            RutabagaComponentType::CrossDomain
        }
    } else {
        b.default_component
    }
}

/// Declarative configuration of an orchestrator, validated once when the
/// orchestrator is built.
pub struct RutabagaBuilder {
    pub display_width: Option<u32>,
    pub display_height: Option<u32>,
    pub default_component: RutabagaComponentType,
    pub gfxstream_flags: GfxstreamFlags,
    pub virglrenderer_flags: VirglRendererFlags,
    pub context_mask: u64,
    pub channels: Option<Vec<RutabagaChannel>>,
}

impl RutabagaBuilder {
    /// A new configuration for the given default component and requested
    /// capability mask. The renderer flag words come preset: the legacy
    /// renderer synchronizes through a thread and both renderer families
    /// deliver fence completion through callbacks.
    pub fn new(default_component: RutabagaComponentType, context_mask: u64) -> (r: RutabagaBuilder)
        ensures
            r.display_width is None,
            r.display_height is None,
            r.default_component == default_component,
            r.context_mask == context_mask,
            r.channels is None,
            r.virglrenderer_flags.bits == (VIRGLRENDERER_FLAG_THREAD_SYNC
                | VIRGLRENDERER_FLAG_USE_ASYNC_FENCE_CB),
            r.gfxstream_flags.bits == GFXSTREAM_FLAG_USE_ASYNC_FENCE_CB,
    {
        let virglrenderer_flags = VirglRendererFlags::new().use_thread_sync(true).use_async_fence_cb(
            true,
        );
        let gfxstream_flags = GfxstreamFlags::new().use_async_fence_cb(true);
        proof {
            assert((0u32 | VIRGLRENDERER_FLAG_THREAD_SYNC) | VIRGLRENDERER_FLAG_USE_ASYNC_FENCE_CB
                == (VIRGLRENDERER_FLAG_THREAD_SYNC | VIRGLRENDERER_FLAG_USE_ASYNC_FENCE_CB))
                by (bit_vector);
            assert(0u32 | GFXSTREAM_FLAG_USE_ASYNC_FENCE_CB == GFXSTREAM_FLAG_USE_ASYNC_FENCE_CB)
                by (bit_vector);
        }
        RutabagaBuilder {
            display_width: None,
            display_height: None,
            default_component,
            gfxstream_flags,
            virglrenderer_flags,
            context_mask,
            channels: None,
        }
    }

    /// Sets the display width.
    pub fn set_display_width(self, display_width: u32) -> (r: RutabagaBuilder)
        ensures
            r == (RutabagaBuilder { display_width: Some(display_width), ..self }),
    {
        RutabagaBuilder { display_width: Some(display_width), ..self }
    }

    /// Sets the display height.
    pub fn set_display_height(self, display_height: u32) -> (r: RutabagaBuilder)
        ensures
            r == (RutabagaBuilder { display_height: Some(display_height), ..self }),
    {
        RutabagaBuilder { display_height: Some(display_height), ..self }
    }

    /// Sets the EGL flag of both renderer families.
    pub fn set_use_egl(self, v: bool) -> (r: RutabagaBuilder)
        ensures
            r.gfxstream_flags.bits == spec_set_flag(self.gfxstream_flags.bits, GFXSTREAM_FLAG_USE_EGL, v),
            r.virglrenderer_flags.bits == spec_set_flag(self.virglrenderer_flags.bits, VIRGLRENDERER_FLAG_USE_EGL, v),
            r == (RutabagaBuilder {
                gfxstream_flags: r.gfxstream_flags,
                virglrenderer_flags: r.virglrenderer_flags,
                ..self
            }),
    {
        RutabagaBuilder {
            gfxstream_flags: self.gfxstream_flags.use_egl(v),
            virglrenderer_flags: self.virglrenderer_flags.use_egl(v),
            ..self
        }
    }

    /// Sets the GLES flag of both renderer families.
    pub fn set_use_gles(self, v: bool) -> (r: RutabagaBuilder)
        ensures
            r.gfxstream_flags.bits == spec_set_flag(self.gfxstream_flags.bits, GFXSTREAM_FLAG_USE_GLES, v),
            r.virglrenderer_flags.bits == spec_set_flag(self.virglrenderer_flags.bits, VIRGLRENDERER_FLAG_USE_GLES, v),
            r == (RutabagaBuilder {
                gfxstream_flags: r.gfxstream_flags,
                virglrenderer_flags: r.virglrenderer_flags,
                ..self
            }),
    {
        RutabagaBuilder {
            gfxstream_flags: self.gfxstream_flags.use_gles(v),
            virglrenderer_flags: self.virglrenderer_flags.use_gles(v),
            ..self
        }
    }

    /// Sets the GLX flag of both renderer families.
    pub fn set_use_glx(self, v: bool) -> (r: RutabagaBuilder)
        ensures
            r.gfxstream_flags.bits == spec_set_flag(self.gfxstream_flags.bits, GFXSTREAM_FLAG_USE_GLX, v),
            r.virglrenderer_flags.bits == spec_set_flag(self.virglrenderer_flags.bits, VIRGLRENDERER_FLAG_USE_GLX, v),
            r == (RutabagaBuilder {
                gfxstream_flags: r.gfxstream_flags,
                virglrenderer_flags: r.virglrenderer_flags,
                ..self
            }),
    {
        RutabagaBuilder {
            gfxstream_flags: self.gfxstream_flags.use_glx(v),
            virglrenderer_flags: self.virglrenderer_flags.use_glx(v),
            ..self
        }
    }

    /// Sets the surfaceless flag of both renderer families.
    pub fn set_use_surfaceless(self, v: bool) -> (r: RutabagaBuilder)
        ensures
            r.gfxstream_flags.bits == spec_set_flag(self.gfxstream_flags.bits, GFXSTREAM_FLAG_USE_SURFACELESS, v),
            r.virglrenderer_flags.bits == spec_set_flag(self.virglrenderer_flags.bits, VIRGLRENDERER_FLAG_USE_SURFACELESS, v),
            r == (RutabagaBuilder {
                gfxstream_flags: r.gfxstream_flags,
                virglrenderer_flags: r.virglrenderer_flags,
                ..self
            }),
    {
        RutabagaBuilder {
            gfxstream_flags: self.gfxstream_flags.use_surfaceless(v),
            virglrenderer_flags: self.virglrenderer_flags.use_surfaceless(v),
            ..self
        }
    }

    /// Sets Vulkan support: the Vulkan flag of the streaming renderer and
    /// the Vulkan command stream of the legacy renderer.
    pub fn set_use_vulkan(self, v: bool) -> (r: RutabagaBuilder)
        ensures
            r.gfxstream_flags.bits == spec_set_flag(self.gfxstream_flags.bits, GFXSTREAM_FLAG_USE_VULKAN, v),
            r.virglrenderer_flags.bits == spec_set_flag(self.virglrenderer_flags.bits, VIRGLRENDERER_FLAG_USE_VENUS, v),
            r == (RutabagaBuilder {
                gfxstream_flags: r.gfxstream_flags,
                virglrenderer_flags: r.virglrenderer_flags,
                ..self
            }),
    {
        RutabagaBuilder {
            gfxstream_flags: self.gfxstream_flags.use_vulkan(v),
            virglrenderer_flags: self.virglrenderer_flags.use_venus(v),
            ..self
        }
    }

    /// Sets guest-ANGLE rendering in the streaming renderer.
    pub fn set_use_guest_angle(self, v: bool) -> (r: RutabagaBuilder)
        ensures
            r.gfxstream_flags.bits == spec_set_flag(self.gfxstream_flags.bits, GFXSTREAM_FLAG_USE_GUEST_ANGLE, v),
            r == (RutabagaBuilder { gfxstream_flags: r.gfxstream_flags, ..self }),
    {
        RutabagaBuilder { gfxstream_flags: self.gfxstream_flags.use_guest_angle(v), ..self }
    }

    /// Sets GLES 3.1 support in the streaming renderer.
    pub fn set_support_gles31(self, v: bool) -> (r: RutabagaBuilder)
        ensures
            r.gfxstream_flags.bits == spec_set_flag(self.gfxstream_flags.bits, GFXSTREAM_FLAG_SUPPORT_GLES31, v),
            r == (RutabagaBuilder { gfxstream_flags: r.gfxstream_flags, ..self }),
    {
        RutabagaBuilder { gfxstream_flags: self.gfxstream_flags.support_gles31(v), ..self }
    }

    /// Sets external blob allocation in both renderer families.
    pub fn set_use_external_blob(self, v: bool) -> (r: RutabagaBuilder)
        ensures
            r.gfxstream_flags.bits == spec_set_flag(self.gfxstream_flags.bits, GFXSTREAM_FLAG_USE_EXTERNAL_BLOB, v),
            r.virglrenderer_flags.bits == spec_set_flag(self.virglrenderer_flags.bits, VIRGLRENDERER_FLAG_USE_EXTERNAL_BLOB, v),
            r == (RutabagaBuilder {
                gfxstream_flags: r.gfxstream_flags,
                virglrenderer_flags: r.virglrenderer_flags,
                ..self
            }),
    {
        RutabagaBuilder {
            gfxstream_flags: self.gfxstream_flags.use_external_blob(v),
            virglrenderer_flags: self.virglrenderer_flags.use_external_blob(v),
            ..self
        }
    }

    /// Sets system-memory blob allocation in the streaming renderer.
    pub fn set_use_system_blob(self, v: bool) -> (r: RutabagaBuilder)
        ensures
            r.gfxstream_flags.bits == spec_set_flag(self.gfxstream_flags.bits, GFXSTREAM_FLAG_USE_SYSTEM_BLOB, v),
            r == (RutabagaBuilder { gfxstream_flags: r.gfxstream_flags, ..self }),
    {
        RutabagaBuilder { gfxstream_flags: self.gfxstream_flags.use_system_blob(v), ..self }
    }

    /// Sets the render server in the legacy renderer.
    pub fn set_use_render_server(self, v: bool) -> (r: RutabagaBuilder)
        ensures
            r.virglrenderer_flags.bits == spec_set_flag(
                self.virglrenderer_flags.bits,
                VIRGLRENDERER_FLAG_USE_RENDER_SERVER,
                v,
            ),
            r == (RutabagaBuilder { virglrenderer_flags: r.virglrenderer_flags, ..self }),
    {
        RutabagaBuilder { virglrenderer_flags: self.virglrenderer_flags.use_render_server(v), ..self }
    }

    /// Chooses the window-system integration of the streaming renderer.
    pub fn set_wsi(self, v: Option<&RutabagaWsi>) -> (r: RutabagaBuilder)
        ensures
            r.gfxstream_flags.bits == spec_set_flag(
                self.gfxstream_flags.bits,
                GFXSTREAM_FLAG_USE_VULKAN_SWAPCHAIN,
                (v matches Some(w) && *w == RutabagaWsi::VulkanSwapchain),
            ),
            r == (RutabagaBuilder { gfxstream_flags: r.gfxstream_flags, ..self }),
    {
        RutabagaBuilder { gfxstream_flags: self.gfxstream_flags.set_wsi(v), ..self }
    }

    /// Sets the host channels for the cross-domain backend.
    pub fn set_rutabaga_channels(self, channels: Option<Vec<RutabagaChannel>>) -> (r:
        RutabagaBuilder)
        ensures
            r == (RutabagaBuilder { channels: channels, ..self }),
    {
        RutabagaBuilder { channels, ..self }
    }

    /// Builds the orchestrator. A nonzero capability mask first revises
    /// the default component. A resolved default this build does not
    /// compile (the renderer families) is rejected before anything is
    /// instantiated. Otherwise exactly the needed components are created:
    /// the 2D path alone, or the cross-domain backend with its capability
    /// set active when the mask is absent or enables it. The registries
    /// start empty.
    pub fn build(self) -> (r: RutabagaResult<Rutabaga>)
        ensures
            match r {
                Err(e) => e == RutabagaError::InvalidRutabagaBuild && (spec_resolved_default(self)
                    == RutabagaComponentType::VirglRenderer || spec_resolved_default(self)
                    == RutabagaComponentType::Gfxstream),
                Ok(o) => {
                    &&& (spec_resolved_default(self) == RutabagaComponentType::Rutabaga2D
                        || spec_resolved_default(self) == RutabagaComponentType::CrossDomain)
                    &&& o.wf()
                    &&& o.default_component_type() == spec_resolved_default(self)
                    &&& o.resources_map() == Map::<u32, RutabagaResource>::empty()
                    &&& o.contexts_map() == Map::<u32, RutabagaContext>::empty()
                    &&& o.completed() == Seq::<RutabagaFence>::empty()
                    &&& o.spec_has_component(spec_resolved_default(self))
                    &&& (spec_resolved_default(self) == RutabagaComponentType::Rutabaga2D ==> {
                        &&& !o.spec_has_component(RutabagaComponentType::CrossDomain)
                        &&& o.capset_entries() == Seq::<CapsetInfoView>::empty()
                    })
                    &&& (spec_resolved_default(self) == RutabagaComponentType::CrossDomain ==> {
                        &&& !o.spec_has_component(RutabagaComponentType::Rutabaga2D)
                        &&& (if self.context_mask == 0 || spec_capset_enabled(
                            self.context_mask,
                            RUTABAGA_CAPSET_CROSS_DOMAIN,
                        ) {
                            o.capset_entries() == seq![capset_catalog()[4]]
                        } else {
                            o.capset_entries() == Seq::<CapsetInfoView>::empty()
                        })
                    })
                    &&& !o.spec_has_component(RutabagaComponentType::VirglRenderer)
                    &&& !o.spec_has_component(RutabagaComponentType::Gfxstream)
                },
            },
    {
        let mut default_component = self.default_component;
        let mut virglrenderer_flags = self.virglrenderer_flags;
        if self.context_mask != 0 {
            let supports_gfxstream = self.context_mask & (1u64 << (RUTABAGA_CAPSET_GFXSTREAM
                as u64)) != 0;
            let supports_virglrenderer = (self.context_mask & (1u64 << (RUTABAGA_CAPSET_VIRGL2
                as u64)) != 0) || (self.context_mask & (1u64 << (RUTABAGA_CAPSET_VENUS as u64))
                != 0) || (self.context_mask & (1u64 << (RUTABAGA_CAPSET_DRM as u64)) != 0);
            if supports_gfxstream {
                default_component = RutabagaComponentType::Gfxstream;
            } else if supports_virglrenderer {
                default_component = RutabagaComponentType::VirglRenderer;
            } else {
                default_component = RutabagaComponentType::CrossDomain;
            }
            virglrenderer_flags = virglrenderer_flags.use_virgl(
                self.context_mask & (1u64 << (RUTABAGA_CAPSET_VIRGL2 as u64)) != 0,
            ).use_venus(self.context_mask & (1u64 << (RUTABAGA_CAPSET_VENUS as u64)) != 0).use_drm(
                self.context_mask & (1u64 << (RUTABAGA_CAPSET_DRM as u64)) != 0,
            );
        }
        // the revised flag word would configure the legacy renderer, but
        // this build compiles neither renderer family: refuse them before
        // instantiating anything
        let _ = virglrenderer_flags;
        if default_component == RutabagaComponentType::VirglRenderer {
            return Err(RutabagaError::InvalidRutabagaBuild);
        }
        if default_component == RutabagaComponentType::Gfxstream {
            return Err(RutabagaError::InvalidRutabagaBuild);
        }
        let mut components: Vec<RutabagaComponent> = Vec::new();
        let mut capset_info: Vec<RutabagaCapsetInfo> = Vec::new();
        if default_component == RutabagaComponentType::Rutabaga2D {
            let rutabaga_2d = match Rutabaga2D::init() {
                Ok(c) => c,
                Err(e) => {
                    return Err(e);
                },
            };
            components.push(RutabagaComponent::Rutabaga2D(rutabaga_2d));
        } else {
            let cross_domain = match CrossDomain::init(self.channels) {
                Ok(c) => c,
                Err(e) => {
                    return Err(e);
                },
            };
            components.push(RutabagaComponent::CrossDomain(cross_domain));
            let capsets = rutabaga_capsets();
            match find_capset_by_id(&capsets, RUTABAGA_CAPSET_CROSS_DOMAIN) {
                Some(info) => {
                    proof {
                        crate::capset::lemma_find_by_id_props(
                            capset_catalog(),
                            RUTABAGA_CAPSET_CROSS_DOMAIN,
                        );
                        crate::capset::lemma_catalog_facts();
                        let e = capset_info_view(info);
                        let i = choose|i: int|
                            0 <= i < capset_catalog().len() && capset_catalog()[i] == e;
                        assert(capset_catalog()[i].id == i + 1);
                        assert(i == 4);
                        assert(capset_info_view(info) == capset_catalog()[4]);
                    }
                    if self.context_mask == 0 || (self.context_mask & (1u64 << (
                    RUTABAGA_CAPSET_CROSS_DOMAIN as u64)) != 0) {
                        capset_info.push(info);
                    }
                },
                None => {
                    proof {
                        crate::capset::lemma_find_by_id_props(
                            capset_catalog(),
                            RUTABAGA_CAPSET_CROSS_DOMAIN,
                        );
                        crate::capset::lemma_catalog_facts();
                        assert(capset_catalog()[4].id == RUTABAGA_CAPSET_CROSS_DOMAIN);
                        assert(false);
                    }
                },
            }
        }
        let r = Rutabaga {
            resources: Registry::new(),
            contexts: Registry::new(),
            components,
            default_component,
            capset_info,
            completed_fences: Vec::new(),
        };
        proof {
            assert(r.spec_has_component(default_component)) by {
                assert(r.components@[0].spec_component_type() == default_component);
            }
            assert forall|i: int| 0 <= i < r.capset_entries().len() implies r.spec_has_component(
                (#[trigger] r.capset_entries()[i]).component,
            ) by {
                assert(r.capset_entries()[i] == capset_info_view(r.capset_info@[i]));
            }
            assert forall|t: RutabagaComponentType|
                r.spec_has_component(t) implies t == default_component by {
                let i = choose|i: int|
                    0 <= i < r.components@.len() && (
                    #[trigger] r.components@[i]).spec_component_type() == t;
            }
            if default_component == RutabagaComponentType::CrossDomain && (self.context_mask == 0
                || spec_capset_enabled(self.context_mask, RUTABAGA_CAPSET_CROSS_DOMAIN)) {
                assert(r.capset_entries() =~= seq![capset_catalog()[4]]);
            }
            if default_component == RutabagaComponentType::Rutabaga2D {
                assert(r.capset_entries() =~= Seq::<CapsetInfoView>::empty());
            }
            if default_component == RutabagaComponentType::CrossDomain && !(self.context_mask == 0
                || spec_capset_enabled(self.context_mask, RUTABAGA_CAPSET_CROSS_DOMAIN)) {
                assert(r.capset_entries() =~= Seq::<CapsetInfoView>::empty());
            }
        }
        Ok(r)
    }
}

/// A successful create leaves its id live: by `resource_create_3d`'s (or
/// `resource_create_blob`'s, or `create_context`'s) contract, repeating
/// the create with the same id must then answer already-in-use, since
/// those operations insert exactly the created id.
pub proof fn lemma_create_then_create_conflicts<T>(m: Map<u32, T>, id: u32, value: T)
    ensures
        m.insert(id, value).contains_key(id),
{
}

/// A successful unref (or context destruction) leaves its id dead: by the
/// operations' contracts, any later operation naming the id must then
/// answer not-found, since unref removes exactly that id.
pub proof fn lemma_unref_then_gone<T>(m: Map<u32, T>, id: u32)
    ensures
        !m.remove(id).contains_key(id),
{
}

/// Export idempotence: a successful export of a shareable resource leaves
/// the orchestrator exactly as it was (the handle is duplicated, never
/// moved), so every condition under which the export succeeded still
/// holds and a second export succeeds with the same handle.
pub proof fn lemma_export_shareable_idempotent(pre: Rutabaga, post: Rutabaga, resource_id: u32)
    requires
        pre.wf(),
        pre.resources_map().contains_key(resource_id),
        pre.resources_map()[resource_id].handle is Some,
        spec_resource_shareable(
            pre.resources_map()[resource_id].blob,
            pre.resources_map()[resource_id].blob_flags,
        ),
        state_unchanged(pre, post),
        post.wf(),
    ensures
        post.wf(),
        post.resources_map().contains_key(resource_id),
        post.resources_map()[resource_id].handle is Some,
        spec_resource_shareable(
            post.resources_map()[resource_id].blob,
            post.resources_map()[resource_id].blob_flags,
        ),
        post.resources_map()[resource_id].handle == pre.resources_map()[resource_id].handle,
{
}

/// Export exclusivity: by `export_blob`'s contract a non-shareable blob
/// whose handle has outstanding shared owners answers an ownership
/// conflict, and a non-shareable blob with the sole reference exports it;
/// in both cases the record afterwards holds no handle, so a further
/// export of the same id must answer an ownership conflict.
pub proof fn lemma_export_exclusive_empties(pre: Rutabaga, post: Rutabaga, resource_id: u32)
    requires
        pre.wf(),
        pre.resources_map().contains_key(resource_id),
        pre.resources_map()[resource_id].handle is Some,
        !spec_resource_shareable(
            pre.resources_map()[resource_id].blob,
            pre.resources_map()[resource_id].blob_flags,
        ),
        post.resources_map() == pre.resources_map().insert(
            resource_id,
            res_without_handle(pre.resources_map()[resource_id]),
        ),
    ensures
        post.resources_map().contains_key(resource_id),
        post.resources_map()[resource_id].handle is None,
{
}

} // verus!







