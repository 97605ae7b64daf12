//! The orchestrator over the trivial 2D default component: resource
//! lifecycle, transfers, and the error taxonomy.

use rutabaga_gfx::Rutabaga;
use rutabaga_gfx::RutabagaBuilder;
use rutabaga_gfx::RutabagaComponentType;
use rutabaga_gfx::RutabagaError;
use rutabaga_gfx::RutabagaIovec;
use rutabaga_gfx::ResourceCreate3D;
use rutabaga_gfx::Transfer3D;

fn build_2d() -> Rutabaga {
    RutabagaBuilder::new(RutabagaComponentType::Rutabaga2D, 0)
        .build()
        .unwrap()
}

fn params(width: u32, height: u32) -> ResourceCreate3D {
    ResourceCreate3D {
        width,
        height,
        ..Default::default()
    }
}

fn rect(x: u32, y: u32, w: u32, h: u32) -> Transfer3D {
    Transfer3D {
        x,
        y,
        w,
        h,
        d: 1,
        ..Default::default()
    }
}

#[test]
fn end_to_end_2d_lifecycle() {
    let mut r = build_2d();
    assert!(r.resource_create_3d(1, params(4, 4)).is_ok());
    // the registry now holds id 1: operations on it succeed
    let iovecs = vec![RutabagaIovec { base: 0x1000, len: 64 }];
    assert!(r.attach_backing(1, iovecs).is_ok());
    assert!(r.unref_resource(1).is_ok());
    // after unref every operation on the id reports not-found
    assert_eq!(
        r.transfer_write(0, 1, rect(0, 0, 1, 1), &[0u8; 4]),
        Err(RutabagaError::InvalidResourceId)
    );
}

#[test]
fn create_twice_fails_already_in_use() {
    let mut r = build_2d();
    assert!(r.resource_create_3d(7, params(2, 2)).is_ok());
    assert_eq!(
        r.resource_create_3d(7, params(2, 2)),
        Err(RutabagaError::AlreadyInUse)
    );
    // the resource survived the failed second create
    assert!(r.attach_backing(7, vec![]).is_ok());
}

#[test]
fn unref_unknown_fails_not_found() {
    let mut r = build_2d();
    assert_eq!(r.unref_resource(9), Err(RutabagaError::InvalidResourceId));
}

#[test]
fn transfer_write_then_read_back_rect() {
    let mut r = build_2d();
    assert!(r.resource_create_3d(1, params(4, 4)).is_ok());
    let data: Vec<u8> = (1..=16u8).collect(); // 2 rows x 2 pixels x 4 bytes = 16
    assert!(r.transfer_write(0, 1, rect(1, 1, 2, 2), &data).is_ok());
    // reading the same rectangle returns exactly the written bytes
    let read = r.transfer_read(0, 1, rect(1, 1, 2, 2)).unwrap();
    assert_eq!(read, data);
    // the full image holds the rows at the exact offsets, zeros elsewhere
    let full = r.transfer_read(0, 1, rect(0, 0, 4, 4)).unwrap();
    let mut expected = vec![0u8; 64];
    for row in 0..2usize {
        for c in 0..8usize {
            expected[((1 + row) * 4 + 1) * 4 + c] = data[row * 8 + c];
        }
    }
    assert_eq!(full, expected);
}

#[test]
fn transfer_out_of_bounds_rejected() {
    let mut r = build_2d();
    assert!(r.resource_create_3d(1, params(4, 4)).is_ok());
    assert_eq!(
        r.transfer_write(0, 1, rect(3, 0, 2, 1), &[0u8; 8]),
        Err(RutabagaError::SpecViolation)
    );
    assert_eq!(
        r.transfer_read(0, 1, rect(0, 4, 1, 1)),
        Err(RutabagaError::SpecViolation)
    );
    // a data buffer that does not match the rectangle is rejected
    assert_eq!(
        r.transfer_write(0, 1, rect(0, 0, 2, 2), &[0u8; 15]),
        Err(RutabagaError::SpecViolation)
    );
}

#[test]
fn detach_backing_clears_descriptors() {
    let mut r = build_2d();
    assert!(r.resource_create_3d(3, params(1, 1)).is_ok());
    assert!(r
        .attach_backing(3, vec![RutabagaIovec { base: 16, len: 4 }])
        .is_ok());
    assert!(r.detach_backing(3).is_ok());
    assert_eq!(
        r.detach_backing(4),
        Err(RutabagaError::InvalidResourceId)
    );
}

#[test]
fn metadata_queries_report_taxonomy() {
    let mut r = build_2d();
    assert!(r.resource_create_3d(1, params(1, 1)).is_ok());
    // a 2D resource was never mapped and carries no 3D or Vulkan metadata
    assert_eq!(r.map_info(1), Err(RutabagaError::SpecViolation));
    assert_eq!(r.query(1), Err(RutabagaError::SpecViolation));
    assert_eq!(r.vulkan_info(1), Err(RutabagaError::InvalidVulkanInfo));
    // a dead id is not-found, not a spec violation
    assert_eq!(r.map_info(2), Err(RutabagaError::InvalidResourceId));
    assert_eq!(r.query(2), Err(RutabagaError::InvalidResourceId));
    assert_eq!(r.vulkan_info(2), Err(RutabagaError::InvalidResourceId));
}

#[test]
fn unsupported_operations_2d() {
    let mut r = build_2d();
    assert!(r.resource_create_3d(1, params(1, 1)).is_ok());
    assert_eq!(r.map(1), Err(RutabagaError::Unsupported));
    assert_eq!(r.unmap(1), Err(RutabagaError::Unsupported));
    assert_eq!(r.resource_flush(1), Err(RutabagaError::Unsupported));
    assert_eq!(r.export_fence(0), Err(RutabagaError::Unsupported));
    assert_eq!(r.map(2), Err(RutabagaError::InvalidResourceId));
    assert!(r.poll_descriptor().is_none());
    r.event_poll();
    r.force_ctx_0();
}

#[test]
fn capsets_empty_in_2d_build() {
    let r = build_2d();
    // the 2D build activates no capability set
    assert_eq!(r.get_capset_info(0), Err(RutabagaError::InvalidCapset));
    // an unknown capset id falls back to the default component's blob
    assert_eq!(r.get_capset(42, 0), Ok(Vec::new()));
}

#[test]
fn contexts_unsupported_in_2d_build() {
    let mut r = build_2d();
    // the 2D component does not create contexts
    assert_eq!(r.create_context(1, 0, None), Err(RutabagaError::Unsupported));
    // context-scoped operations on a nonexistent id are not-found
    assert_eq!(r.destroy_context(1), Err(RutabagaError::InvalidContextId));
    assert_eq!(
        r.submit_command(1, &[1, 2, 3]),
        Err(RutabagaError::InvalidContextId)
    );
    assert_eq!(
        r.context_attach_resource(1, 1),
        Err(RutabagaError::InvalidContextId)
    );
    assert_eq!(
        r.context_detach_resource(1, 1),
        Err(RutabagaError::InvalidContextId)
    );
}

#[test]
fn blob_unsupported_without_cross_domain_context() {
    let mut r = build_2d();
    assert_eq!(
        r.resource_create_blob(0, 5, Default::default(), None, None),
        Err(RutabagaError::Unsupported)
    );
}

#[test]
fn zero_sized_transfer_succeeds() {
    let mut r = build_2d();
    assert!(r.resource_create_3d(1, params(4, 4)).is_ok());
    // an empty rectangle transfers nothing and succeeds
    assert!(r.transfer_write(0, 1, rect(0, 0, 0, 0), &[]).is_ok());
    let read = r.transfer_read(0, 1, rect(2, 2, 0, 2)).unwrap();
    assert!(read.is_empty());
    // the image is untouched
    let full = r.transfer_read(0, 1, rect(0, 0, 4, 4)).unwrap();
    assert_eq!(full, vec![0u8; 64]);
}

#[test]
fn oversize_2d_geometry_rejected() {
    let mut r = build_2d();
    // width * height * 4 bytes cannot fit an allocation
    assert_eq!(
        r.resource_create_3d(1, params(u32::MAX, u32::MAX)),
        Err(RutabagaError::SpecViolation)
    );
    // the failed create left no registry entry
    assert_eq!(r.unref_resource(1), Err(RutabagaError::InvalidResourceId));
}

#[test]
fn zero_geometry_resource_is_legal() {
    let mut r = build_2d();
    assert!(r.resource_create_3d(1, params(0, 0)).is_ok());
    let read = r.transfer_read(0, 1, rect(0, 0, 0, 0)).unwrap();
    assert!(read.is_empty());
}
