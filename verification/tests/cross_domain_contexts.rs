//! Contexts, fence routing and blob export over the cross-domain backend.

use rutabaga_gfx::Rutabaga;
use rutabaga_gfx::RutabagaBuilder;
use rutabaga_gfx::RutabagaComponentType;
use rutabaga_gfx::RutabagaError;
use rutabaga_gfx::RutabagaFence;
use rutabaga_gfx::RutabagaHandle;
use rutabaga_gfx::ResourceCreateBlob;
use rutabaga_gfx::rutabaga_utils::RUTABAGA_BLOB_FLAG_USE_SHAREABLE;
use rutabaga_gfx::rutabaga_utils::RUTABAGA_CAPSET_CROSS_DOMAIN;
use rutabaga_gfx::rutabaga_utils::RUTABAGA_FLAG_INFO_RING_IDX;
use rutabaga_gfx::rutabaga_utils::RUTABAGA_MAP_CACHE_CACHED;
use rutabaga_gfx::rutabaga_utils::RUTABAGA_MEM_HANDLE_TYPE_OPAQUE_FD;

fn build_cross_domain() -> Rutabaga {
    RutabagaBuilder::new(RutabagaComponentType::CrossDomain, 0)
        .build()
        .unwrap()
}

fn ring_fence(fence_id: u64, ctx_id: u32) -> RutabagaFence {
    RutabagaFence {
        flags: RUTABAGA_FLAG_INFO_RING_IDX,
        fence_id,
        ctx_id,
        ring_idx: 0,
    }
}

fn global_fence(fence_id: u64) -> RutabagaFence {
    RutabagaFence {
        flags: 0,
        fence_id,
        ctx_id: 0,
        ring_idx: 0,
    }
}

fn blob_params(blob_flags: u32) -> ResourceCreateBlob {
    ResourceCreateBlob {
        blob_mem: 1,
        blob_flags,
        blob_id: 0,
        size: 4096,
    }
}

#[test]
fn create_and_destroy_context() {
    let mut r = build_cross_domain();
    assert!(r.create_context(1, RUTABAGA_CAPSET_CROSS_DOMAIN, Some("guest")).is_ok());
    // a duplicate context id is already-in-use
    assert_eq!(
        r.create_context(1, RUTABAGA_CAPSET_CROSS_DOMAIN, None),
        Err(RutabagaError::AlreadyInUse)
    );
    assert!(r.destroy_context(1).is_ok());
    // once destroyed, the id is not-found again
    assert_eq!(r.destroy_context(1), Err(RutabagaError::InvalidContextId));
    assert!(r.create_context(1, 0, None).is_ok());
}

#[test]
fn context_creation_falls_back_to_default() {
    let mut r = build_cross_domain();
    // capset id 0 is not in the catalog; the default (cross-domain)
    // component serves the context
    assert!(r.create_context(4, 0, None).is_ok());
    assert!(r.submit_command(4, &[0u8; 8]).is_ok());
}

#[test]
fn capset_catalog_in_cross_domain_build() {
    let r = build_cross_domain();
    assert_eq!(
        r.get_capset_info(0),
        Ok((RUTABAGA_CAPSET_CROSS_DOMAIN, 0, 0))
    );
    assert_eq!(r.get_capset_info(1), Err(RutabagaError::InvalidCapset));
    assert_eq!(r.get_capset(RUTABAGA_CAPSET_CROSS_DOMAIN, 0), Ok(Vec::new()));
}

#[test]
fn fence_with_ring_flag_goes_to_context_only() {
    let mut r = build_cross_domain();
    assert!(r.create_context(1, 0, None).is_ok());
    assert!(r.create_fence(ring_fence(10, 1)).is_ok());
    // delivered to the context's own timeline
    let pending = r.context_pending_fences(1).unwrap();
    assert_eq!(pending.len(), 1);
    assert_eq!(pending[0].fence_id, 10);
    // and never to the default component's global timeline
    assert!(r.poll_completed_fences().is_empty());
}

#[test]
fn fence_without_ring_flag_goes_to_default_component_only() {
    let mut r = build_cross_domain();
    assert!(r.create_context(1, 0, None).is_ok());
    assert!(r.create_fence(global_fence(11)).is_ok());
    // completed synchronously on the global timeline
    let done = r.poll_completed_fences();
    assert_eq!(done.len(), 1);
    assert_eq!(done[0].fence_id, 11);
    // polling drained the queue
    assert!(r.poll_completed_fences().is_empty());
    // and no context saw the fence
    assert!(r.context_pending_fences(1).unwrap().is_empty());
}

#[test]
fn fence_with_ring_flag_and_dead_context_fails() {
    let mut r = build_cross_domain();
    assert_eq!(
        r.create_fence(ring_fence(1, 99)),
        Err(RutabagaError::InvalidContextId)
    );
    // nothing was delivered anywhere
    assert!(r.poll_completed_fences().is_empty());
}

#[test]
fn attach_and_detach_resources() {
    let mut r = build_cross_domain();
    assert!(r.create_context(1, 0, None).is_ok());
    assert!(r.resource_create_3d(2, Default::default()).is_ok());
    assert!(r.context_attach_resource(1, 2).is_ok());
    // attaching twice is harmless
    assert!(r.context_attach_resource(1, 2).is_ok());
    assert!(r.context_detach_resource(1, 2).is_ok());
    // detaching a non-attached resource is not a correctness violation
    assert!(r.context_detach_resource(1, 2).is_ok());
    // but both ids must be live
    assert_eq!(
        r.context_attach_resource(1, 3),
        Err(RutabagaError::InvalidResourceId)
    );
    assert_eq!(
        r.context_attach_resource(2, 2),
        Err(RutabagaError::InvalidContextId)
    );
}

#[test]
fn blob_create_routes_through_context() {
    let mut r = build_cross_domain();
    assert!(r.create_context(1, 0, None).is_ok());
    assert!(r.resource_create_blob(1, 5, blob_params(0), None, None).is_ok());
    // the context path marked the blob mappable-cached
    assert_eq!(r.map_info(5), Ok(RUTABAGA_MAP_CACHE_CACHED));
    // a duplicate resource id is already-in-use
    assert_eq!(
        r.resource_create_blob(1, 5, blob_params(0), None, None),
        Err(RutabagaError::AlreadyInUse)
    );
    // a dead context id is not-found
    assert_eq!(
        r.resource_create_blob(9, 6, blob_params(0), None, None),
        Err(RutabagaError::InvalidContextId)
    );
    // the component-global path is unsupported
    assert_eq!(
        r.resource_create_blob(0, 6, blob_params(0), None, None),
        Err(RutabagaError::Unsupported)
    );
}

#[test]
fn export_shareable_blob_is_repeatable() {
    let mut r = build_cross_domain();
    assert!(r.create_context(1, 0, None).is_ok());
    let handle = RutabagaHandle {
        os_handle: 77,
        handle_type: RUTABAGA_MEM_HANDLE_TYPE_OPAQUE_FD,
    };
    assert!(r
        .resource_create_blob(1, 5, blob_params(RUTABAGA_BLOB_FLAG_USE_SHAREABLE), None, Some(handle))
        .is_ok());
    let first = r.export_blob(5).unwrap();
    assert_eq!(first.os_handle, 77);
    // the first export duplicated the handle; a second one succeeds too
    let second = r.export_blob(5).unwrap();
    assert_eq!(second.os_handle, 77);
}

#[test]
fn export_non_blob_resource_is_treated_shareable() {
    let mut r = build_cross_domain();
    assert!(r.create_context(1, 0, None).is_ok());
    // a non-blob resource created by the default component has no handle
    assert!(r.resource_create_3d(2, Default::default()).is_ok());
    assert_eq!(r.export_blob(2), Err(RutabagaError::InvalidRutabagaHandle));
}

#[test]
fn export_exclusive_blob_moves_sole_reference() {
    let mut r = build_cross_domain();
    assert!(r.create_context(1, 0, None).is_ok());
    let handle = RutabagaHandle {
        os_handle: 33,
        handle_type: RUTABAGA_MEM_HANDLE_TYPE_OPAQUE_FD,
    };
    // no shareable flags and a caller-supplied handle: the record holds
    // the sole reference
    assert!(r
        .resource_create_blob(1, 5, blob_params(0), None, Some(handle))
        .is_ok());
    let exported = r.export_blob(5).unwrap();
    assert_eq!(exported.os_handle, 33);
    // the record is now empty: a further export is an ownership conflict
    assert_eq!(r.export_blob(5), Err(RutabagaError::InvalidRutabagaHandle));
}

#[test]
fn export_exclusive_blob_with_shared_owner_fails() {
    let mut r = build_cross_domain();
    assert!(r.create_context(1, 0, None).is_ok());
    // no shareable flags and no caller handle: the context mints the
    // handle and keeps a second strong reference
    assert!(r.resource_create_blob(1, 5, blob_params(0), None, None).is_ok());
    assert_eq!(r.export_blob(5), Err(RutabagaError::InvalidRutabagaHandle));
    // the record dropped its reference; the export stays refused
    assert_eq!(r.export_blob(5), Err(RutabagaError::InvalidRutabagaHandle));
    // an unknown resource id is not-found, not an ownership conflict
    assert_eq!(r.export_blob(6), Err(RutabagaError::InvalidResourceId));
}

#[test]
fn submit_command_requires_live_context() {
    let mut r = build_cross_domain();
    assert_eq!(
        r.submit_command(1, &[0u8; 4]),
        Err(RutabagaError::InvalidContextId)
    );
    assert!(r.create_context(1, 0, None).is_ok());
    assert!(r.submit_command(1, &[0u8; 4]).is_ok());
}
