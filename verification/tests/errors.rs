//! Messages of errors.

use lamco_wgpu::error::{BridgeError, ImportError, RenderError, Transform};
use lamco_wgpu::format::DrmFourcc;
use lamco_wgpu::text::{decimal, hex, joined};

#[test]
fn numbers_as_text() {
    for n in [0, 1, 9, 10, 42, 99, 100, 65_535, u64::MAX] {
        assert_eq!(decimal(n), format!("{}", n));
        assert_eq!(hex(n), format!("{:#x}", n));
    }
    assert_eq!(joined("a", "b"), "ab");
}

#[test]
fn bridge_error_messages() {
    let s = || "x".to_string();
    let cases = [
        (BridgeError::InstanceCreation(s()), "failed to create wgpu instance: x"),
        (BridgeError::AdapterCreation(s()), "failed to create wgpu adapter: x"),
        (BridgeError::DeviceCreation(s()), "failed to create wgpu device: x"),
        (BridgeError::MissingExtension(s()), "missing required Vulkan extension: x"),
        (BridgeError::HalAccess(s()), "failed to access raw Vulkan handles: x"),
        (BridgeError::Sync(s()), "synchronization error: x"),
        (BridgeError::Render(s()), "rendering error: x"),
    ];
    for (error, message) in cases {
        assert_eq!(error.message(), message);
    }
}

#[test]
fn import_error_messages() {
    let s = || "x".to_string();
    let cases = [
        (
            ImportError::UnsupportedFormat(DrmFourcc::Nv12),
            "unsupported dmabuf format: DrmFourcc(NV12)",
        ),
        (
            ImportError::MultiPlanarFormat { fourcc: DrmFourcc::P010, hint: s() },
            "multi-planar format DrmFourcc(P010) requires special handling: x",
        ),
        (ImportError::UnsupportedModifier(255), "unsupported dmabuf modifier: 0xff"),
        (ImportError::FdImport(s()), "failed to import dmabuf fd: x"),
        (ImportError::ImageCreation(s()), "failed to create Vulkan image: x"),
        (ImportError::MemoryAllocation(s()), "memory allocation failed: x"),
        (ImportError::InvalidPlanes(s()), "invalid dmabuf plane configuration: x"),
        (
            ImportError::InvalidDimensions { width: 10, height: 0 },
            "invalid texture dimensions: 10x0",
        ),
        (ImportError::BridgeUnavailable, "bridge not available"),
        (ImportError::ShmAccess(s()), "shm buffer access failed: x"),
        (ImportError::UnsupportedShmFormat, "unsupported shm format"),
    ];
    for (error, message) in cases {
        assert_eq!(error.message(), message);
    }
}

#[test]
fn render_error_messages() {
    let s = || "x".to_string();
    let cases = [
        (RenderError::FrameFinished, "frame has already been finished"),
        (RenderError::BeginRenderPass(s()), "failed to begin render pass: x"),
        (RenderError::Submit(s()), "failed to submit commands: x"),
        (
            RenderError::ContextMismatch { expected: "a\"b".to_string(), actual: s() },
            "texture context mismatch: expected \"a\\\"b\", got \"x\"",
        ),
        (RenderError::InvalidFramebuffer(s()), "invalid framebuffer: x"),
        (
            RenderError::UnsupportedTransform(Transform::Rotated90),
            "unsupported transformation: _90",
        ),
        (
            RenderError::from(ImportError::BridgeUnavailable),
            "import error: bridge not available",
        ),
        (
            RenderError::from(BridgeError::Sync(s())),
            "bridge error: synchronization error: x",
        ),
    ];
    for (error, message) in cases {
        assert_eq!(error.message(), message);
    }
}

#[test]
fn transform_names() {
    let pairs = [
        (Transform::Normal, "Normal"),
        (Transform::Rotated90, "_90"),
        (Transform::Rotated180, "_180"),
        (Transform::Rotated270, "_270"),
        (Transform::Flipped, "Flipped"),
        (Transform::Flipped90, "Flipped90"),
        (Transform::Flipped180, "Flipped180"),
        (Transform::Flipped270, "Flipped270"),
    ];
    for (transform, name) in pairs {
        assert_eq!(transform.text(), name);
    }
}
