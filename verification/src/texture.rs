//! Texture resource: decodes an encoded image into an RGBA8 pixel grid and
//! builds everything a pipeline needs to sample it — the texture allocation
//! descriptor, the row-major upload layout, the sampler descriptor, the
//! two-slot binding layout (texture + sampler) and the bound binding group
//! wiring this texture's view and sampler into those slots.

use vstd::prelude::*;

verus! {

/// Texel filtering mode of a sampler.
#[derive(Clone, Copy, PartialEq, Eq, Structural, Debug)]
pub enum FilterMode {
    Nearest,
    Linear,
}

/// How a sampler wraps texture coordinates outside [0, 1].
#[derive(Clone, Copy, PartialEq, Eq, Structural, Debug)]
pub enum AddressMode {
    ClampToEdge,
    Repeat,
    MirrorRepeat,
}

/// Vertex-stage visibility bit; a binding's visibility is a set of these
/// stage bits.
pub const SHADER_STAGE_VERTEX: u32 = 1;

/// Fragment-stage visibility bit.
pub const SHADER_STAGE_FRAGMENT: u32 = 2;

/// Compute-stage visibility bit.
pub const SHADER_STAGE_COMPUTE: u32 = 4;

/// Texture usage bit: the texture can be copied into.
pub const TEXTURE_USAGE_COPY_DST: u32 = 2;

/// Texture usage bit: the texture can be bound for shader reads.
pub const TEXTURE_USAGE_TEXTURE_BINDING: u32 = 4;

/// Texture usage bit: the texture can be rendered to.
pub const TEXTURE_USAGE_RENDER_ATTACHMENT: u32 = 16;

/// Pixel formats this sandbox distinguishes; anything else is carried as
/// `Other` with its gamma interpretation.
#[derive(Clone, Copy, PartialEq, Eq, Structural, Debug)]
pub enum TextureFormat {
    Rgba8Unorm,
    Rgba8UnormSrgb,
    Bgra8Unorm,
    Bgra8UnormSrgb,
    Other { srgb: bool },
}

impl TextureFormat {
    /// Whether this format uses implicit gamma (sRGB) interpretation.
    pub open spec fn is_srgb_spec(self) -> bool {
        match self {
            TextureFormat::Rgba8Unorm => false,
            TextureFormat::Rgba8UnormSrgb => true,
            TextureFormat::Bgra8Unorm => false,
            TextureFormat::Bgra8UnormSrgb => true,
            TextureFormat::Other { srgb } => srgb,
        }
    }

    pub fn is_srgb(&self) -> (r: bool)
        ensures
            r == self.is_srgb_spec(),
    {
        match *self {
            TextureFormat::Rgba8Unorm => false,
            TextureFormat::Rgba8UnormSrgb => true,
            TextureFormat::Bgra8Unorm => false,
            TextureFormat::Bgra8UnormSrgb => true,
            TextureFormat::Other { srgb } => srgb,
        }
    }
}

/// Size of a texture in texels and array layers.
#[derive(Clone, Copy, PartialEq, Eq, Structural, Debug)]
pub struct Extent3d {
    pub width: u32,
    pub height: u32,
    pub depth_or_array_layers: u32,
}

/// Row-major layout of the pixel bytes handed to the upload command.
#[derive(Clone, Copy, PartialEq, Eq, Structural, Debug)]
pub struct ImageDataLayout {
    pub offset: u64,
    pub bytes_per_row: u64,
    pub rows_per_image: u32,
}

/// Descriptor of the GPU image allocation backing a texture.
#[derive(Clone, Copy, PartialEq, Eq, Structural, Debug)]
pub struct TextureDescriptor {
    pub size: Extent3d,
    pub mip_level_count: u32,
    pub sample_count: u32,
    pub format: TextureFormat,
    pub usage: u32,
}

/// Descriptor of the sampler a shader reads this texture through.
#[derive(Clone, Copy, PartialEq, Eq, Structural, Debug)]
pub struct SamplerDescriptor {
    pub address_mode_u: AddressMode,
    pub address_mode_v: AddressMode,
    pub address_mode_w: AddressMode,
    pub mag_filter: FilterMode,
    pub min_filter: FilterMode,
    pub mipmap_filter: FilterMode,
}

/// The kind of resource a binding slot expects.
#[derive(Clone, Copy, PartialEq, Eq, Structural, Debug)]
pub enum BindingType {
    /// A two-dimensional, single-sampled, filterable float texture.
    FloatTexture2d,
    /// A filtering sampler.
    FilteringSampler,
}

/// One slot of a binding layout: its index, the stages it is visible to and
/// the kind of resource it expects.
#[derive(Clone, Copy, PartialEq, Eq, Structural, Debug)]
pub struct BindGroupLayoutEntry {
    pub binding: u32,
    pub visibility: u32,
    pub ty: BindingType,
}

/// The shape half of the binding contract: the slots a shader expects.
#[derive(Clone)]
pub struct BindGroupLayout {
    pub entries: Vec<BindGroupLayoutEntry>,
}

/// The resource a bound group supplies to one slot, drawn from the owning
/// texture.
#[derive(Clone, Copy, PartialEq, Eq, Structural, Debug)]
pub enum BindingResource {
    /// The view into this texture's GPU image.
    OwnView,
    /// This texture's sampler.
    OwnSampler,
}

/// One wired slot of a bound binding group.
#[derive(Clone, Copy, PartialEq, Eq, Structural, Debug)]
pub struct BindGroupEntry {
    pub binding: u32,
    pub resource: BindingResource,
}

/// The content half of the binding contract: this texture's view and sampler
/// wired into the layout's slots.
pub struct BindGroup {
    pub entries: Vec<BindGroupEntry>,
}

/// A decoded RGBA8 pixel grid.
pub struct DecodedImage {
    pub width: u32,
    pub height: u32,
    pub pixels: Vec<u8>,
}

/// What decoding a byte string as an image yields: `None` when the bytes are
/// not a supported image container, otherwise the width, height and RGBA8
/// pixel bytes. Decoding is a pure function of the input bytes.
pub uninterp spec fn decoded_rgba(bytes: Seq<u8>) -> Option<(u32, u32, Seq<u8>)>;

/// Relies on image::load_from_memory and image::DynamicImage::to_rgba8:
/// decoding is deterministic in the input bytes, and the RGBA8 buffer that
/// to_rgba8 yields holds exactly 4 bytes per texel, row-major.
#[verifier::external_body]
fn decode_rgba(bytes: &[u8]) -> (r: Option<DecodedImage>)
    ensures
        r is Some <==> decoded_rgba(bytes@) is Some,
        r matches Some(img) ==> {
            &&& decoded_rgba(bytes@) == Some((img.width, img.height, img.pixels@))
            &&& img.pixels@.len() == 4 * img.width * img.height
        },
{
    match image::load_from_memory(bytes) {
        Ok(decoded) => {
            let rgba = decoded.to_rgba8();
            let width = rgba.width();
            let height = rgba.height();
            Some(DecodedImage { width, height, pixels: rgba.into_raw() })
        }
        Err(_) => None,
    }
}

/// Why texture creation failed.
#[derive(Clone, Copy, PartialEq, Eq, Structural, Debug)]
pub enum TextureError {
    /// The input bytes are not a supported image container.
    DecodeFailed,
}

/// A texture resource: the decoded pixel grid, the allocation and upload
/// descriptors for the GPU image, the sampler descriptor, and the two halves
/// of the binding contract. Created once; immutable thereafter.
pub struct Texture {
    image: DecodedImage,
    descriptor: TextureDescriptor,
    data_layout: ImageDataLayout,
    sampler: SamplerDescriptor,
    bind_group_layout: BindGroupLayout,
    bind_group: BindGroup,
}

impl Texture {
    /// The decoded width in texels.
    pub closed spec fn width_spec(self) -> u32 {
        self.image.width
    }

    /// The decoded height in texels.
    pub closed spec fn height_spec(self) -> u32 {
        self.image.height
    }

    /// The decoded RGBA8 pixel bytes.
    pub closed spec fn pixels_spec(self) -> Seq<u8> {
        self.image.pixels@
    }

    /// The GPU image allocation descriptor.
    pub closed spec fn descriptor_spec(self) -> TextureDescriptor {
        self.descriptor
    }

    /// The row-major upload layout.
    pub closed spec fn data_layout_spec(self) -> ImageDataLayout {
        self.data_layout
    }

    /// The sampler descriptor.
    pub closed spec fn sampler_spec(self) -> SamplerDescriptor {
        self.sampler
    }

    /// The slots of the binding layout.
    pub closed spec fn layout_entries_spec(self) -> Seq<BindGroupLayoutEntry> {
        self.bind_group_layout.entries@
    }

    /// The wired slots of the bound group.
    pub closed spec fn group_entries_spec(self) -> Seq<BindGroupEntry> {
        self.bind_group.entries@
    }

    /// The descriptors a texture built from a decoded image of size
    /// (width, height) with the given sampler settings must carry.
    pub open spec fn describes(
        self,
        width: u32,
        height: u32,
        filter: FilterMode,
        address_mode: AddressMode,
        visibility: u32,
    ) -> bool {
        &&& self.descriptor_spec() == (TextureDescriptor {
            size: Extent3d { width, height, depth_or_array_layers: 1 },
            mip_level_count: 1,
            sample_count: 1,
            format: TextureFormat::Rgba8UnormSrgb,
            usage: TEXTURE_USAGE_TEXTURE_BINDING | TEXTURE_USAGE_COPY_DST,
        })
        &&& self.data_layout_spec().offset == 0
        &&& self.data_layout_spec().bytes_per_row == 4 * width
        &&& self.data_layout_spec().rows_per_image == height
        &&& self.sampler_spec() == (SamplerDescriptor {
            address_mode_u: address_mode,
            address_mode_v: address_mode,
            address_mode_w: AddressMode::ClampToEdge,
            mag_filter: filter,
            min_filter: FilterMode::Nearest,
            mipmap_filter: FilterMode::Nearest,
        })
        &&& self.layout_entries_spec() == seq![
            BindGroupLayoutEntry { binding: 0, visibility, ty: BindingType::FloatTexture2d },
            BindGroupLayoutEntry { binding: 1, visibility, ty: BindingType::FilteringSampler },
        ]
        &&& self.group_entries_spec() == seq![
            BindGroupEntry { binding: 0, resource: BindingResource::OwnView },
            BindGroupEntry { binding: 1, resource: BindingResource::OwnSampler },
        ]
    }

    /// Create a texture from encoded image bytes.
    ///
    /// Decodes the bytes to an RGBA8 grid (an error when they are not a
    /// supported image container), sizes a 2D sRGB GPU image to the decoded
    /// dimensions, lays the pixels out row-major at 4 bytes per texel,
    /// builds the sampler from the given wrap and magnification settings
    /// (minification and mip filtering fixed to nearest, W axis fixed to
    /// clamp-to-edge), and builds the two-slot binding layout and bound
    /// group: slot 0 the filterable float texture, slot 1 the filtering
    /// sampler, both visible to the given stages.
    pub fn new(
        bytes: &[u8],
        filter: FilterMode,
        address_mode: AddressMode,
        visibility: u32,
    ) -> (r: Result<Texture, TextureError>)
        ensures
            r is Ok <==> decoded_rgba(bytes@) is Some,
            r is Err ==> r == Err::<Texture, TextureError>(TextureError::DecodeFailed),
            r matches Ok(t) ==> {
                &&& decoded_rgba(bytes@) == Some((t.width_spec(), t.height_spec(), t.pixels_spec()))
                &&& t.pixels_spec().len() == 4 * t.width_spec() * t.height_spec()
                &&& t.describes(t.width_spec(), t.height_spec(), filter, address_mode, visibility)
            },
    {
        let image = match decode_rgba(bytes) {
            Some(image) => image,
            None => {
                return Err(TextureError::DecodeFailed);
            }
        };
        let width = image.width;
        let height = image.height;

        let descriptor = TextureDescriptor {
            size: Extent3d { width, height, depth_or_array_layers: 1 },
            mip_level_count: 1,
            sample_count: 1,
            format: TextureFormat::Rgba8UnormSrgb,
            usage: TEXTURE_USAGE_TEXTURE_BINDING | TEXTURE_USAGE_COPY_DST,
        };

        let data_layout = ImageDataLayout {
            offset: 0,
            bytes_per_row: 4 * width as u64,
            rows_per_image: height,
        };

        let sampler = SamplerDescriptor {
            address_mode_u: address_mode,
            address_mode_v: address_mode,
            address_mode_w: AddressMode::ClampToEdge,
            mag_filter: filter,
            min_filter: FilterMode::Nearest,
            mipmap_filter: FilterMode::Nearest,
        };

        let mut layout_entries: Vec<BindGroupLayoutEntry> = Vec::new();
        layout_entries.push(BindGroupLayoutEntry {
            binding: 0,
            visibility,
            ty: BindingType::FloatTexture2d,
        });
        layout_entries.push(BindGroupLayoutEntry {
            binding: 1,
            visibility,
            ty: BindingType::FilteringSampler,
        });

        let mut group_entries: Vec<BindGroupEntry> = Vec::new();
        group_entries.push(BindGroupEntry { binding: 0, resource: BindingResource::OwnView });
        group_entries.push(BindGroupEntry { binding: 1, resource: BindingResource::OwnSampler });

        let texture = Texture {
            image,
            descriptor,
            data_layout,
            sampler,
            bind_group_layout: BindGroupLayout { entries: layout_entries },
            bind_group: BindGroup { entries: group_entries },
        };
        proof {
            assert(texture.layout_entries_spec() =~= seq![
                BindGroupLayoutEntry { binding: 0, visibility, ty: BindingType::FloatTexture2d },
                BindGroupLayoutEntry { binding: 1, visibility, ty: BindingType::FilteringSampler },
            ]);
            assert(texture.group_entries_spec() =~= seq![
                BindGroupEntry { binding: 0, resource: BindingResource::OwnView },
                BindGroupEntry { binding: 1, resource: BindingResource::OwnSampler },
            ]);
        }
        Ok(texture)
    }

    /// The shape half of the binding contract.
    pub fn bind_group_layout(&self) -> (l: &BindGroupLayout)
        ensures
            l.entries@ == self.layout_entries_spec(),
    {
        &self.bind_group_layout
    }

    /// The content half of the binding contract.
    pub fn bind_group(&self) -> (g: &BindGroup)
        ensures
            g.entries@ == self.group_entries_spec(),
    {
        &self.bind_group
    }

    /// Width of the decoded image in texels.
    pub fn width(&self) -> (w: u32)
        ensures
            w == self.width_spec(),
    {
        self.image.width
    }

    /// Height of the decoded image in texels.
    pub fn height(&self) -> (h: u32)
        ensures
            h == self.height_spec(),
    {
        self.image.height
    }

    /// The decoded RGBA8 pixel bytes, row-major at 4 bytes per texel.
    pub fn pixels(&self) -> (p: &Vec<u8>)
        ensures
            p@ == self.pixels_spec(),
    {
        &self.image.pixels
    }

    /// The GPU image allocation descriptor.
    pub fn descriptor(&self) -> (d: &TextureDescriptor)
        ensures
            d == self.descriptor_spec(),
    {
        &self.descriptor
    }

    /// The row-major upload layout for the pixel bytes.
    pub fn data_layout(&self) -> (l: &ImageDataLayout)
        ensures
            l == self.data_layout_spec(),
    {
        &self.data_layout
    }

    /// The sampler descriptor.
    pub fn sampler(&self) -> (s: &SamplerDescriptor)
        ensures
            s == self.sampler_spec(),
    {
        &self.sampler
    }
}

} // verus!
