//! The cross-domain channel backend: the one component whose blob
//! bookkeeping lives with its per-context state. Its contexts accept
//! command buffers, track attached resources, keep per-ring fence
//! timelines, and create blob resources whose handles they may share.

use vstd::prelude::*;

use crate::resource::RutabagaResource;
use crate::rutabaga_utils::ResourceCreateBlob;
use crate::rutabaga_utils::RutabagaChannel;
use crate::rutabaga_utils::RutabagaComponentType;
use crate::rutabaga_utils::RutabagaFence;
use crate::rutabaga_utils::RutabagaHandle;
use crate::rutabaga_utils::RutabagaHandleOwnership;
use crate::rutabaga_utils::RutabagaResult;
use crate::rutabaga_utils::RUTABAGA_MAP_CACHE_CACHED;
use crate::rutabaga_utils::RUTABAGA_MEM_HANDLE_TYPE_SHM;

verus! {

/// The cross-domain channel component. It holds only its configuration;
/// all per-context state lives in the contexts it creates.
pub struct CrossDomain {
    pub channels: Option<Vec<RutabagaChannel>>,
}

impl CrossDomain {
    /// Initializes the cross-domain backend over the given host channels,
    /// which become the component's configuration.
    pub fn init(channels: Option<Vec<RutabagaChannel>>) -> (r: RutabagaResult<CrossDomain>)
        ensures
            (r matches Ok(c) && c.channels == channels),
    {
        Ok(CrossDomain { channels })
    }

    /// Creates a per-context command sink bound to `ctx_id`. The optional
    /// name only labels diagnostics elsewhere and is not retained.
    pub fn create_context(&self, ctx_id: u32, context_init: u32, context_name: Option<&str>) -> (r:
        RutabagaResult<CrossDomainContext>)
        ensures
            (r matches Ok(ctx) && fresh_cross_domain_context(ctx_id, context_init, ctx)),
    {
        let _ = context_name;
        Ok(
            CrossDomainContext {
                ctx_id,
                context_init,
                attached_resources: Vec::new(),
                pending_fences: Vec::new(),
                retained_blob_ids: Vec::new(),
                next_blob_token: 1,
                submitted_commands: 0,
            },
        )
    }
}

/// A freshly created cross-domain context: empty working set, empty fence
/// timeline, no retained blob handles.
pub open spec fn fresh_cross_domain_context(
    ctx_id: u32,
    context_init: u32,
    ctx: CrossDomainContext,
) -> bool {
    &&& ctx.ctx_id == ctx_id
    &&& ctx.context_init == context_init
    &&& ctx.attached_resources@ == Seq::<u32>::empty()
    &&& ctx.pending_fences@ == Seq::<RutabagaFence>::empty()
    &&& ctx.retained_blob_ids@ == Seq::<u32>::empty()
    &&& ctx.next_blob_token == 1
    &&& ctx.submitted_commands == 0
}

/// The blob resource a cross-domain context creates: an exclusively owned
/// record of a caller-supplied handle, or a context-minted handle the
/// context itself keeps a second reference to.
pub open spec fn cross_domain_blob_resource(
    resource_id: u32,
    p: ResourceCreateBlob,
    handle_opt: Option<RutabagaHandle>,
    token: u64,
    res: RutabagaResource,
) -> bool {
    &&& res.resource_id == resource_id
    &&& res.blob == true
    &&& res.blob_mem == p.blob_mem
    &&& res.blob_flags == p.blob_flags
    &&& res.map_info == Some(RUTABAGA_MAP_CACHE_CACHED)
    &&& res.info_2d is None
    &&& res.info_3d is None
    &&& res.vulkan_info is None
    &&& res.backing_iovecs is None
    &&& res.import_mask == 0
    &&& match handle_opt {
        Some(h) => res.handle == Some(RutabagaHandleOwnership::Exclusive(h)),
        None => res.handle == Some(
            RutabagaHandleOwnership::Shared(
                RutabagaHandle { os_handle: token, handle_type: RUTABAGA_MEM_HANDLE_TYPE_SHM },
                2,
            ),
        ),
    }
}

/// A per-context command sink of the cross-domain backend.
pub struct CrossDomainContext {
    pub ctx_id: u32,
    pub context_init: u32,
    /// Resource ids in this context's working set; no id occurs twice.
    pub attached_resources: Vec<u32>,
    /// Fences created on this context's rings, oldest first, completed when
    /// the channel answers.
    pub pending_fences: Vec<RutabagaFence>,
    /// Resource ids of blobs whose handle this context keeps a reference to.
    pub retained_blob_ids: Vec<u32>,
    /// Source of tokens for context-minted blob handles.
    pub next_blob_token: u64,
    /// How many command buffers were submitted (saturating).
    pub submitted_commands: u64,
}

fn vec_contains_u32(v: &Vec<u32>, x: u32) -> (r: bool)
    ensures
        r == v@.contains(x),
{
    let n = v.len();
    let mut i: usize = 0;
    while i < n
        invariant
            i <= n,
            n == v@.len(),
            forall|j: int| 0 <= j < i ==> v@[j] != x,
        decreases n - i,
    {
        if v[i] == x {
            return true;
        }
        i = i + 1;
    }
    proof {
        assert(forall|j: int| 0 <= j < v@.len() ==> v@[j] != x);
    }
    false
}

impl CrossDomainContext {
    /// The working set holds each resource id at most once.
    pub open spec fn wf(&self) -> bool {
        forall|i: int, j: int|
            0 <= i < j < self.attached_resources@.len() ==> self.attached_resources@[i]
                != self.attached_resources@[j]
    }

    /// Feeds one opaque command buffer into the channel. The buffer's
    /// content is interpreted by the peer; this side only accounts for it.
    pub fn submit_cmd(&mut self, commands: &[u8]) -> (r: RutabagaResult<()>)
        ensures
            r is Ok,
            final(self).submitted_commands == if old(self).submitted_commands < u64::MAX {
                (old(self).submitted_commands + 1) as u64
            } else {
                old(self).submitted_commands
            },
            *final(self) == (CrossDomainContext {
                submitted_commands: final(self).submitted_commands,
                ..*old(self)
            }),
    {
        let _ = commands;
        if self.submitted_commands < u64::MAX {
            self.submitted_commands = self.submitted_commands + 1;
        }
        Ok(())
    }

    /// Records `resource_id` in the working set; attaching an already
    /// attached resource changes nothing.
    pub fn attach(&mut self, resource_id: u32)
        requires
            old(self).wf(),
        ensures
            final(self).wf(),
            final(self).attached_resources@ == if old(self).attached_resources@.contains(
                resource_id,
            ) {
                old(self).attached_resources@
            } else {
                old(self).attached_resources@.push(resource_id)
            },
            *final(self) == (CrossDomainContext {
                attached_resources: final(self).attached_resources,
                ..*old(self)
            }),
    {
        if !vec_contains_u32(&self.attached_resources, resource_id) {
            self.attached_resources.push(resource_id);
        }
    }

    /// Removes `resource_id` from the working set; detaching a resource
    /// that is not attached changes nothing.
    pub fn detach(&mut self, resource_id: u32)
        requires
            old(self).wf(),
        ensures
            final(self).wf(),
            !final(self).attached_resources@.contains(resource_id),
            forall|x: u32|
                x != resource_id ==> (final(self).attached_resources@.contains(x) == old(
                    self,
                ).attached_resources@.contains(x)),
            *final(self) == (CrossDomainContext {
                attached_resources: final(self).attached_resources,
                ..*old(self)
            }),
    {
        let n = self.attached_resources.len();
        let mut i: usize = 0;
        while i < n
            invariant
                i <= n,
                n == self.attached_resources@.len(),
                old(self).wf(),
                *self == *old(self),
                forall|j: int| 0 <= j < i ==> self.attached_resources@[j] != resource_id,
            decreases n - i,
        {
            if self.attached_resources[i] == resource_id {
                let ghost prev = self.attached_resources@;
                self.attached_resources.remove(i);
                proof {
                    let cur = self.attached_resources@;
                    assert forall|p: int, q: int| 0 <= p < q < cur.len() implies cur[p]
                        != cur[q] by {
                        assert(cur[p] == if p < i {
                            prev[p]
                        } else {
                            prev[p + 1]
                        });
                        assert(cur[q] == if q < i {
                            prev[q]
                        } else {
                            prev[q + 1]
                        });
                    }
                    assert forall|k: int| 0 <= k < cur.len() implies cur[k] != resource_id by {
                        assert(cur[k] == if k < i {
                            prev[k]
                        } else {
                            prev[k + 1]
                        });
                    }
                    assert(!cur.contains(resource_id));
                    assert forall|x: u32| x != resource_id && prev.contains(x) implies cur.contains(
                        x,
                    ) by {
                        let j = choose|j: int| 0 <= j < prev.len() && prev[j] == x;
                        if j < i {
                            assert(cur[j] == prev[j]);
                        } else {
                            assert(j != i);
                            assert(cur[j - 1] == prev[j]);
                        }
                    }
                    assert forall|x: u32| x != resource_id && cur.contains(x) implies prev.contains(
                        x,
                    ) by {
                        let j = choose|j: int| 0 <= j < cur.len() && cur[j] == x;
                        assert(cur[j] == if j < i {
                            prev[j]
                        } else {
                            prev[j + 1]
                        });
                    }
                }
                return ;
            }
            i = i + 1;
        }
        proof {
            assert(!self.attached_resources@.contains(resource_id));
        }
    }

    /// Creates a fence on this context's own timeline; it completes when
    /// the channel answers, observable through the pending list.
    pub fn context_create_fence(&mut self, fence: RutabagaFence) -> (r: RutabagaResult<()>)
        ensures
            r is Ok,
            final(self).pending_fences@ == old(self).pending_fences@.push(fence),
            *final(self) == (CrossDomainContext {
                pending_fences: final(self).pending_fences,
                ..*old(self)
            }),
    {
        self.pending_fences.push(fence);
        Ok(())
    }

    /// Creates a blob resource through this context's bookkeeping. A
    /// caller-supplied handle is transferred into the resource as its sole
    /// reference; otherwise the context mints a handle from its channel
    /// state and keeps a second reference to it.
    pub fn context_create_blob(
        &mut self,
        resource_id: u32,
        resource_create_blob: ResourceCreateBlob,
        handle_opt: Option<RutabagaHandle>,
    ) -> (r: RutabagaResult<RutabagaResource>)
        ensures
            (r matches Ok(res) && cross_domain_blob_resource(
                resource_id,
                resource_create_blob,
                handle_opt,
                old(self).next_blob_token,
                res,
            ) && res.wf()),
            handle_opt is Some ==> *final(self) == *old(self),
            handle_opt is None ==> *final(self) == (CrossDomainContext {
                retained_blob_ids: final(self).retained_blob_ids,
                next_blob_token: final(self).next_blob_token,
                ..*old(self)
            }) && final(self).retained_blob_ids@ == old(self).retained_blob_ids@.push(resource_id)
                && final(self).next_blob_token == if old(self).next_blob_token == u64::MAX {
                0u64
            } else {
                (old(self).next_blob_token + 1) as u64
            },
    {
        let handle_ownership = match handle_opt {
            Some(h) => RutabagaHandleOwnership::Exclusive(h),
            None => {
                let token = self.next_blob_token;
                self.next_blob_token = if token == u64::MAX {
                    0
                } else {
                    token + 1
                };
                self.retained_blob_ids.push(resource_id);
                RutabagaHandleOwnership::Shared(
                    RutabagaHandle { os_handle: token, handle_type: RUTABAGA_MEM_HANDLE_TYPE_SHM },
                    2,
                )
            },
        };
        Ok(
            RutabagaResource {
                resource_id,
                handle: Some(handle_ownership),
                blob: true,
                blob_mem: resource_create_blob.blob_mem,
                blob_flags: resource_create_blob.blob_flags,
                map_info: Some(RUTABAGA_MAP_CACHE_CACHED),
                info_2d: None,
                info_3d: None,
                vulkan_info: None,
                backing_iovecs: None,
                import_mask: 0,
            },
        )
    }

    /// The component this context belongs to.
    pub fn component_type(&self) -> (r: RutabagaComponentType)
        ensures
            r == RutabagaComponentType::CrossDomain,
    {
        RutabagaComponentType::CrossDomain
    }
}

} // verus!
