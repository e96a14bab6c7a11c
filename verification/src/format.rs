use vstd::prelude::*;

verus! {

/// The texel formats the core's textures can be created with.
#[derive(Clone, Copy, Debug, PartialEq, Eq, Structural)]
pub enum TextureFormat {
    R8Unorm,
    R8Snorm,
    Rg8Unorm,
    Rgba8Unorm,
    Rgba8UnormSrgb,
    Rgba8Snorm,
    Bgra8Unorm,
    R32Uint,
    R32Sint,
    Rg32Uint,
    Rgba16Uint,
    Rgba32Uint,
    Depth32,
    Depth24PlusStencil8,
}

/// The formats a shader's storage image can be declared with.  Not every
/// texture format has one: depth formats and packed sRGB formats do not.
#[derive(Clone, Copy, Debug, PartialEq, Eq, Structural)]
pub enum StorageFormat {
    R8Unorm,
    R8Snorm,
    Rgba8Unorm,
    Rgba8Snorm,
    Bgra8Unorm,
    R32Uint,
    R32Sint,
    Rg32Uint,
    Rgba16Uint,
    Rgba32Uint,
}

/// The texture format a storage format corresponds to.
pub open spec fn spec_from_storage_format(s: StorageFormat) -> TextureFormat {
    match s {
        StorageFormat::R8Unorm => TextureFormat::R8Unorm,
        StorageFormat::R8Snorm => TextureFormat::R8Snorm,
        StorageFormat::Rgba8Unorm => TextureFormat::Rgba8Unorm,
        StorageFormat::Rgba8Snorm => TextureFormat::Rgba8Snorm,
        StorageFormat::Bgra8Unorm => TextureFormat::Bgra8Unorm,
        StorageFormat::R32Uint => TextureFormat::R32Uint,
        StorageFormat::R32Sint => TextureFormat::R32Sint,
        StorageFormat::Rg32Uint => TextureFormat::Rg32Uint,
        StorageFormat::Rgba16Uint => TextureFormat::Rgba16Uint,
        StorageFormat::Rgba32Uint => TextureFormat::Rgba32Uint,
    }
}

/// The storage format a texture format corresponds to, where one exists.
pub open spec fn spec_to_storage_format(f: TextureFormat) -> Option<StorageFormat> {
    match f {
        TextureFormat::R8Unorm => Some(StorageFormat::R8Unorm),
        TextureFormat::R8Snorm => Some(StorageFormat::R8Snorm),
        TextureFormat::Rgba8Unorm => Some(StorageFormat::Rgba8Unorm),
        TextureFormat::Rgba8Snorm => Some(StorageFormat::Rgba8Snorm),
        TextureFormat::Bgra8Unorm => Some(StorageFormat::Bgra8Unorm),
        TextureFormat::R32Uint => Some(StorageFormat::R32Uint),
        TextureFormat::R32Sint => Some(StorageFormat::R32Sint),
        TextureFormat::Rg32Uint => Some(StorageFormat::Rg32Uint),
        TextureFormat::Rgba16Uint => Some(StorageFormat::Rgba16Uint),
        TextureFormat::Rgba32Uint => Some(StorageFormat::Rgba32Uint),
        _ => None,
    }
}

/// Conversions between texture formats and shader storage formats.
pub trait TextureFormatExt: Sized {
    /// The texture format corresponding to the given storage format.
    fn from_storage_format(storage_format: StorageFormat) -> (r: Self);

    /// The storage format corresponding to this texture format, `None` when
    /// the format is not usable for storage textures.
    fn to_storage_format(&self) -> (r: Option<StorageFormat>);
}

impl TextureFormatExt for TextureFormat {
    /// The texture format corresponding to the given storage format.
    fn from_storage_format(storage_format: StorageFormat) -> (r: TextureFormat)
        ensures
            r == spec_from_storage_format(storage_format),
    {
        match storage_format {
            StorageFormat::R8Unorm => TextureFormat::R8Unorm,
            StorageFormat::R8Snorm => TextureFormat::R8Snorm,
            StorageFormat::Rgba8Unorm => TextureFormat::Rgba8Unorm,
            StorageFormat::Rgba8Snorm => TextureFormat::Rgba8Snorm,
            StorageFormat::Bgra8Unorm => TextureFormat::Bgra8Unorm,
            StorageFormat::R32Uint => TextureFormat::R32Uint,
            StorageFormat::R32Sint => TextureFormat::R32Sint,
            StorageFormat::Rg32Uint => TextureFormat::Rg32Uint,
            StorageFormat::Rgba16Uint => TextureFormat::Rgba16Uint,
            StorageFormat::Rgba32Uint => TextureFormat::Rgba32Uint,
        }
    }

    /// The storage format corresponding to this texture format, `None` when
    /// the format is not usable for storage textures.
    fn to_storage_format(&self) -> (r: Option<StorageFormat>)
        ensures
            r == spec_to_storage_format(*self),
    {
        match self {
            TextureFormat::R8Unorm => Some(StorageFormat::R8Unorm),
            TextureFormat::R8Snorm => Some(StorageFormat::R8Snorm),
            TextureFormat::Rgba8Unorm => Some(StorageFormat::Rgba8Unorm),
            TextureFormat::Rgba8Snorm => Some(StorageFormat::Rgba8Snorm),
            TextureFormat::Bgra8Unorm => Some(StorageFormat::Bgra8Unorm),
            TextureFormat::R32Uint => Some(StorageFormat::R32Uint),
            TextureFormat::R32Sint => Some(StorageFormat::R32Sint),
            TextureFormat::Rg32Uint => Some(StorageFormat::Rg32Uint),
            TextureFormat::Rgba16Uint => Some(StorageFormat::Rgba16Uint),
            TextureFormat::Rgba32Uint => Some(StorageFormat::Rgba32Uint),
            _ => None,
        }
    }
}

/// Law: every storage format round-trips through its texture format.
pub proof fn lemma_storage_format_round_trip(s: StorageFormat)
    ensures
        spec_to_storage_format(spec_from_storage_format(s)) == Some(s),
{
}

} // verus!
