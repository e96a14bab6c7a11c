use hal_core::adapter::{
    pipeline_cache_key, u64_to_decimal, Adapter, AdapterInfo, Backend, ContextState,
    ExternalContext, Features, Limits, Probe,
};
use hal_core::error::Error;
use hal_core::format::{StorageFormat, TextureFormat, TextureFormatExt};

fn probe(backend: Backend) -> Probe {
    Probe {
        info: AdapterInfo { backend, vendor: 4318, device: 9340 },
        features: Features { bits: 0b1011 },
        limits: Limits {
            max_buffer_size: 1 << 28,
            max_texture_dimension: 8192,
            max_color_attachments: 8,
        },
    }
}

#[test]
fn enumerate_yields_one_adapter_per_probe() {
    let adapters = Adapter::enumerate(vec![probe(Backend::Vulkan), probe(Backend::Metal)]);
    assert_eq!(adapters.len(), 2);
    assert_eq!(adapters[0].info.backend, Backend::Vulkan);
    assert_eq!(adapters[1].info.backend, Backend::Metal);
    assert!(!adapters[0].opened);
    assert!(!adapters[0].external);
}

#[test]
fn open_grants_at_most_one_device() {
    let mut adapters = Adapter::enumerate(vec![probe(Backend::Vulkan)]);
    let a = &mut adapters[0];
    let limits = Limits { max_buffer_size: 1 << 20, max_texture_dimension: 1024, max_color_attachments: 4 };
    let d = a.open(Features { bits: 0b0011 }, limits).unwrap();
    assert!(!d.lost);
    assert!(matches!(a.open(Features { bits: 0 }, limits), Err(Error::DeviceLost)));
}

#[test]
fn open_rejects_excess_features_and_limits() {
    let mut adapters = Adapter::enumerate(vec![probe(Backend::Vulkan)]);
    let a = &mut adapters[0];
    let limits = Limits { max_buffer_size: 1 << 20, max_texture_dimension: 1024, max_color_attachments: 4 };
    assert!(matches!(a.open(Features { bits: 0b0100 }, limits), Err(Error::UnsupportedFeature)));
    let too_big = Limits { max_buffer_size: 1 << 29, max_texture_dimension: 1024, max_color_attachments: 4 };
    assert!(matches!(a.open(Features { bits: 0 }, too_big), Err(Error::UnsupportedFeature)));
    // Neither failure marked the adapter opened.
    assert!(!a.opened);
    a.open(Features { bits: 0 }, limits).unwrap();
}

#[test]
fn external_adoption_needs_a_current_context() {
    let mut ctx = ExternalContext::new();
    assert!(matches!(Adapter::new_external(&ctx, probe(Backend::Gl)), Err(Error::InvalidState)));
    ctx.make_current(7, 9).unwrap();
    assert_eq!(ctx.state, ContextState::Current { surface: 7, window: 9 });
    let a = Adapter::new_external(&ctx, probe(Backend::Gl)).unwrap();
    assert!(a.external);
    assert_eq!(a.info.backend, Backend::Gl);
    // The context is only read: it is still current and transitions as the
    // event handler drives it.
    assert!(matches!(ctx.make_current(1, 2), Err(Error::InvalidState)));
    ctx.make_not_current().unwrap();
    assert_eq!(ctx.state, ContextState::NotCurrent);
    assert!(matches!(ctx.make_not_current(), Err(Error::InvalidState)));
}

#[test]
fn cache_key_is_stable_for_vulkan_only() {
    let info = AdapterInfo { backend: Backend::Vulkan, vendor: 4318, device: 9340 };
    assert_eq!(pipeline_cache_key(&info), Some(String::from("wgpu_pipeline_cache_vulkan_4318_9340")));
    for backend in [Backend::Metal, Backend::Dx12, Backend::Gl] {
        let other = AdapterInfo { backend, vendor: 4318, device: 9340 };
        assert_eq!(pipeline_cache_key(&other), None);
    }
}

#[test]
fn decimal_spelling_is_exact() {
    assert_eq!(u64_to_decimal(0), String::from("0"));
    assert_eq!(u64_to_decimal(7), String::from("7"));
    assert_eq!(u64_to_decimal(10), String::from("10"));
    assert_eq!(u64_to_decimal(4302), String::from("4302"));
    assert_eq!(u64_to_decimal(18446744073709551615), String::from("18446744073709551615"));
}

#[test]
fn storage_formats_round_trip() {
    for s in [
        StorageFormat::R8Unorm,
        StorageFormat::Rgba8Unorm,
        StorageFormat::Bgra8Unorm,
        StorageFormat::R32Uint,
        StorageFormat::Rgba32Uint,
    ] {
        let t = TextureFormat::from_storage_format(s);
        assert_eq!(t.to_storage_format(), Some(s));
    }
    assert_eq!(TextureFormat::from_storage_format(StorageFormat::Bgra8Unorm), TextureFormat::Bgra8Unorm);
    assert_eq!(TextureFormat::Depth32.to_storage_format(), None);
    assert_eq!(TextureFormat::Rgba8UnormSrgb.to_storage_format(), None);
}
