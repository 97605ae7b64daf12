//! Builder validation and flag words.

use rutabaga_gfx::GfxstreamFlags;
use rutabaga_gfx::RutabagaBuilder;
use rutabaga_gfx::RutabagaChannel;
use rutabaga_gfx::RutabagaComponentType;
use rutabaga_gfx::RutabagaError;
use rutabaga_gfx::RutabagaWsi;
use rutabaga_gfx::VirglRendererFlags;
use rutabaga_gfx::rutabaga_utils::GFXSTREAM_FLAG_USE_ASYNC_FENCE_CB;
use rutabaga_gfx::rutabaga_utils::GFXSTREAM_FLAG_USE_EGL;
use rutabaga_gfx::rutabaga_utils::GFXSTREAM_FLAG_USE_VULKAN_SWAPCHAIN;
use rutabaga_gfx::rutabaga_utils::RUTABAGA_CAPSET_CROSS_DOMAIN;
use rutabaga_gfx::rutabaga_utils::RUTABAGA_CAPSET_GFXSTREAM;
use rutabaga_gfx::rutabaga_utils::RUTABAGA_CAPSET_VENUS;
use rutabaga_gfx::rutabaga_utils::RUTABAGA_CHANNEL_TYPE_WAYLAND;
use rutabaga_gfx::rutabaga_utils::VIRGLRENDERER_FLAG_THREAD_SYNC;
use rutabaga_gfx::rutabaga_utils::VIRGLRENDERER_FLAG_USE_EGL;

#[test]
fn builder_rejects_uncompiled_default() {
    // neither renderer family is compiled into this build; construction
    // fails and no component is instantiated (no orchestrator exists)
    assert_eq!(
        RutabagaBuilder::new(RutabagaComponentType::VirglRenderer, 0)
            .build()
            .err(),
        Some(RutabagaError::InvalidRutabagaBuild)
    );
    assert_eq!(
        RutabagaBuilder::new(RutabagaComponentType::Gfxstream, 0)
            .build()
            .err(),
        Some(RutabagaError::InvalidRutabagaBuild)
    );
}

#[test]
fn capability_mask_overrides_naive_default() {
    // a mask asking for the streaming renderer overrides a 2D default,
    // and the streaming renderer is not compiled in
    assert_eq!(
        RutabagaBuilder::new(
            RutabagaComponentType::Rutabaga2D,
            1 << RUTABAGA_CAPSET_GFXSTREAM
        )
        .build()
        .err(),
        Some(RutabagaError::InvalidRutabagaBuild)
    );
    // the legacy renderer family likewise
    assert_eq!(
        RutabagaBuilder::new(RutabagaComponentType::Rutabaga2D, 1 << RUTABAGA_CAPSET_VENUS)
            .build()
            .err(),
        Some(RutabagaError::InvalidRutabagaBuild)
    );
    // a mask enabling only the cross-domain capset resolves to the
    // channel backend, which is compiled in
    let r = RutabagaBuilder::new(
        RutabagaComponentType::Rutabaga2D,
        1 << RUTABAGA_CAPSET_CROSS_DOMAIN,
    )
    .build()
    .unwrap();
    assert_eq!(
        r.get_capset_info(0).unwrap().0,
        RUTABAGA_CAPSET_CROSS_DOMAIN
    );
}

#[test]
fn cross_domain_capset_follows_mask() {
    // with a nonzero mask that does not enable the cross-domain capset,
    // the backend is still the default but its capset is not active
    let r = RutabagaBuilder::new(RutabagaComponentType::CrossDomain, 1 << 13)
        .build()
        .unwrap();
    assert_eq!(r.get_capset_info(0), Err(RutabagaError::InvalidCapset));
}

#[test]
fn builder_setters_chain() {
    let b = RutabagaBuilder::new(RutabagaComponentType::Rutabaga2D, 0)
        .set_display_width(1280)
        .set_display_height(800)
        .set_use_egl(true)
        .set_use_gles(true)
        .set_use_glx(false)
        .set_use_surfaceless(true)
        .set_use_vulkan(true)
        .set_use_guest_angle(false)
        .set_support_gles31(true)
        .set_use_external_blob(false)
        .set_use_system_blob(false)
        .set_use_render_server(false)
        .set_wsi(Some(&RutabagaWsi::VulkanSwapchain))
        .set_rutabaga_channels(Some(vec![RutabagaChannel {
            base_channel: "/run/wayland-0".to_string(),
            channel_type: RUTABAGA_CHANNEL_TYPE_WAYLAND,
        }]));
    assert_eq!(b.display_width, Some(1280));
    assert_eq!(b.display_height, Some(800));
    assert!(b.gfxstream_flags.bits & GFXSTREAM_FLAG_USE_EGL != 0);
    assert!(b.gfxstream_flags.bits & GFXSTREAM_FLAG_USE_VULKAN_SWAPCHAIN != 0);
    assert!(b.build().is_ok());
}

#[test]
fn flag_words_set_and_clear_bits() {
    let g = GfxstreamFlags::new();
    assert_eq!(g.bits, 0);
    let g = g.use_egl(true);
    assert_eq!(g.bits, GFXSTREAM_FLAG_USE_EGL);
    let g = g.use_egl(false);
    assert_eq!(g.bits, 0);
    let g = g.use_async_fence_cb(true).use_egl(true);
    assert_eq!(g.bits, GFXSTREAM_FLAG_USE_ASYNC_FENCE_CB | GFXSTREAM_FLAG_USE_EGL);

    let v = VirglRendererFlags::new().use_egl(true).use_thread_sync(true);
    assert_eq!(
        v.bits,
        VIRGLRENDERER_FLAG_USE_EGL | VIRGLRENDERER_FLAG_THREAD_SYNC
    );
    let v = v.use_thread_sync(false);
    assert_eq!(v.bits, VIRGLRENDERER_FLAG_USE_EGL);
}

#[test]
fn new_builder_presets_fence_callbacks() {
    let b = RutabagaBuilder::new(RutabagaComponentType::Rutabaga2D, 0);
    assert!(b.gfxstream_flags.bits & GFXSTREAM_FLAG_USE_ASYNC_FENCE_CB != 0);
    assert!(b.virglrenderer_flags.bits & VIRGLRENDERER_FLAG_THREAD_SYNC != 0);
}
