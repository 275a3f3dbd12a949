//! Plans of the textures the renderer allocates and of how they are bound
//! to shaders. Allocating and binding them on a device is the caller's
//! part.

use vstd::prelude::*;

use crate::camera::ScreenPos;
use crate::text::{contains, joined, occurs};

verus! {

/// The texel formats that the renderer tells apart.
#[derive(Clone, Copy, Debug, PartialEq, Eq, Structural)]
pub enum TextureFormat {
    Rgba8Unorm,
    Rgba16Float,
    Rgba32Float,
    Depth32Float,
    /// Any other format. Of such a format the plans need to know only
    /// that it holds no depth.
    Other,
}

/// How a texture may be used.
#[derive(Clone, Copy, Debug, PartialEq, Eq, Structural)]
pub struct TextureUsages {
    pub texture_binding: bool,
    pub storage_binding: bool,
    pub render_attachment: bool,
    pub copy_dst: bool,
}

/// How a sampler reads between texels.
#[derive(Clone, Copy, Debug, PartialEq, Eq, Structural)]
pub enum FilterMode {
    Nearest,
    Linear,
}

/// What the device is asked for when a texture is allocated: a
/// two-dimensional texture of one layer, one mip level and one sample.
#[derive(Debug)]
pub struct TextureDescriptor {
    pub label: String,
    pub width: u32,
    pub height: u32,
    pub format: TextureFormat,
    pub usage: TextureUsages,
}

/// What the device is asked for when a texture's sampler is created.
#[derive(Debug)]
pub struct SamplerDescriptor {
    pub label: String,
    pub mag_filter: FilterMode,
    pub min_filter: FilterMode,
}

/// A texture together with its sampler.
#[derive(Debug)]
pub struct Texture {
    tex: TextureDescriptor,
    sampler: SamplerDescriptor,
    format: TextureFormat,
    filterable: bool,
}

/// What a binding slot holds.
#[derive(Clone, Copy, Debug, PartialEq, Eq, Structural)]
pub enum BindingType {
    /// A two-dimensional texture that is sampled.
    Texture { filterable: bool },
    /// The sampler of such a texture.
    Sampler { filtering: bool },
    /// A two-dimensional texture that is read and written texel by texel.
    StorageTexture { format: TextureFormat },
}

/// One slot of a bind group's layout. Every slot is visible to all shader
/// stages.
#[derive(Clone, Copy, Debug, PartialEq, Eq, Structural)]
pub struct BindGroupLayoutEntry {
    pub binding: u32,
    pub ty: BindingType,
}

/// Which of a texture's handles fills a slot.
#[derive(Clone, Copy, Debug, PartialEq, Eq, Structural)]
pub enum BindingResource {
    TextureView,
    Sampler,
}

/// Binds a texture for sampling: the texture takes one slot and its
/// sampler the next.
pub struct TextureSampledBinder<'a> {
    parent: &'a Texture,
}

/// Binds a texture for reading and writing texel by texel.
pub struct TextureStorageBinder<'a> {
    parent: &'a Texture,
}

/// What names a texture that is sampled with filtering.
pub open spec fn filterable_marker() -> Seq<char> {
    "atmosphere"@
}

/// The uses of a texture of the given format. A depth texture is rendered
/// to and sampled; any other is also written by shaders and copied to.
pub open spec fn usage_of(format: TextureFormat) -> TextureUsages {
    if format == TextureFormat::Depth32Float {
        TextureUsages {
            texture_binding: true,
            storage_binding: false,
            render_attachment: true,
            copy_dst: false,
        }
    } else {
        TextureUsages {
            texture_binding: true,
            storage_binding: true,
            render_attachment: true,
            copy_dst: true,
        }
    }
}

/// How the sampler of a texture reads between texels.
pub open spec fn filter_of(filterable: bool) -> FilterMode {
    if filterable {
        FilterMode::Linear
    } else {
        FilterMode::Nearest
    }
}

/// The slots that a sampled texture fills from slot `binding` on.
pub open spec fn sampled_slots(filterable: bool, binding: u32) -> Seq<
    (BindGroupLayoutEntry, BindingResource),
> {
    seq![
        (
            BindGroupLayoutEntry { binding, ty: BindingType::Texture { filterable } },
            BindingResource::TextureView,
        ),
        (
            BindGroupLayoutEntry {
                binding: (binding + 1) as u32,
                ty: BindingType::Sampler { filtering: filterable },
            },
            BindingResource::Sampler,
        ),
    ]
}

/// The slot that a storage texture fills.
pub open spec fn storage_slots(format: TextureFormat, binding: u32) -> Seq<
    (BindGroupLayoutEntry, BindingResource),
> {
    seq![
        (
            BindGroupLayoutEntry { binding, ty: BindingType::StorageTexture { format } },
            BindingResource::TextureView,
        ),
    ]
}

impl Texture {
    /// Whether the texture is planned as `new` plans it for the given
    /// label, size and format.
    pub open spec fn is_planned(self, label: Seq<char>, size: ScreenPos, format: TextureFormat)
        -> bool {
        &&& self.texture().label@ == label + "_tex"@
        &&& self.texture().width == size.x
        &&& self.texture().height == size.y
        &&& self.texture().format == format
        &&& self.texture().usage == usage_of(format)
        &&& self.sampling().label@ == label + "_sampler"@
        &&& self.sampling().mag_filter == filter_of(occurs(label, filterable_marker()))
        &&& self.sampling().min_filter == filter_of(occurs(label, filterable_marker()))
        &&& self.texel_format() == format
        &&& self.is_filterable() == occurs(label, filterable_marker())
    }

    /// What the device is asked for when the texture is allocated.
    pub closed spec fn texture(self) -> TextureDescriptor {
        self.tex
    }

    /// What the device is asked for when the sampler is created.
    pub closed spec fn sampling(self) -> SamplerDescriptor {
        self.sampler
    }

    /// The texel format.
    pub closed spec fn texel_format(self) -> TextureFormat {
        self.format
    }

    /// Whether the texture is sampled with filtering.
    pub closed spec fn is_filterable(self) -> bool {
        self.filterable
    }

    /// Plans a texture of `size` texels. The texture is labelled
    /// `<label>_tex` and its sampler `<label>_sampler`; a texture whose
    /// label holds `atmosphere` is sampled with filtering.
    pub fn new(label: &str, size: ScreenPos, format: TextureFormat) -> (texture: Texture)
        requires
            size.x > 0,
            size.y > 0,
        ensures
            texture.is_planned(label@, size, format),
    {
        let usage = match format {
            TextureFormat::Depth32Float => TextureUsages {
                texture_binding: true,
                storage_binding: false,
                render_attachment: true,
                copy_dst: false,
            },
            _ => TextureUsages {
                texture_binding: true,
                storage_binding: true,
                render_attachment: true,
                copy_dst: true,
            },
        };
        let tex = TextureDescriptor {
            label: joined(label, "_tex"),
            width: size.x,
            height: size.y,
            format,
            usage,
        };
        let filterable = contains(label, "atmosphere");
        let filter = if filterable {
            FilterMode::Linear
        } else {
            FilterMode::Nearest
        };
        let sampler = SamplerDescriptor {
            label: joined(label, "_sampler"),
            mag_filter: filter,
            min_filter: filter,
        };
        Texture { tex, format, sampler, filterable }
    }

    /// What the device is asked for when the texture is allocated.
    pub fn tex(&self) -> (tex: &TextureDescriptor)
        ensures
            *tex == self.texture(),
    {
        &self.tex
    }

    /// What the device is asked for when the sampler is created.
    pub fn sampler(&self) -> (sampler: &SamplerDescriptor)
        ensures
            *sampler == self.sampling(),
    {
        &self.sampler
    }

    /// The texel format.
    pub fn format(&self) -> (format: TextureFormat)
        ensures
            format == self.texel_format(),
    {
        self.format
    }

    /// Binds the texture and its sampler for sampling. The sampler's slot
    /// follows the texture's.
    pub fn bind_sampled(&self) -> (binder: TextureSampledBinder<'_>)
        ensures
            binder.bound() == *self,
    {
        TextureSampledBinder { parent: self }
    }

    /// Binds the texture for reading texel by texel. Shaders cannot yet
    /// bind a storage texture for reading only, so this is the binding of
    /// `bind_writable`.
    pub fn bind_readable(&self) -> (binder: TextureStorageBinder<'_>)
        ensures
            binder.bound() == *self,
    {
        TextureStorageBinder { parent: self }
    }

    /// Binds the texture for reading and writing texel by texel.
    pub fn bind_writable(&self) -> (binder: TextureStorageBinder<'_>)
        ensures
            binder.bound() == *self,
    {
        TextureStorageBinder { parent: self }
    }
}

impl<'a> TextureSampledBinder<'a> {
    /// The texture that is bound.
    pub closed spec fn bound(self) -> Texture {
        *self.parent
    }

    /// The slots the binding fills when it starts at slot `binding`.
    pub fn bind(&self, binding: u32) -> (slots: Vec<(BindGroupLayoutEntry, BindingResource)>)
        requires
            binding < u32::MAX,
        ensures
            slots@ == sampled_slots(self.bound().is_filterable(), binding),
    {
        let tex_layout = BindGroupLayoutEntry {
            binding,
            ty: BindingType::Texture { filterable: self.parent.filterable },
        };
        let sampler_layout = BindGroupLayoutEntry {
            binding: binding + 1,
            ty: BindingType::Sampler { filtering: self.parent.filterable },
        };
        let mut slots = Vec::new();
        slots.push((tex_layout, BindingResource::TextureView));
        slots.push((sampler_layout, BindingResource::Sampler));
        assert(slots@ =~= sampled_slots(self.bound().is_filterable(), binding));
        slots
    }
}

impl<'a> TextureStorageBinder<'a> {
    /// The texture that is bound.
    pub closed spec fn bound(self) -> Texture {
        *self.parent
    }

    /// The slot the binding fills when it is given slot `binding`.
    pub fn bind(&self, binding: u32) -> (slots: Vec<(BindGroupLayoutEntry, BindingResource)>)
        ensures
            slots@ == storage_slots(self.bound().texel_format(), binding),
    {
        let tex_layout = BindGroupLayoutEntry {
            binding,
            ty: BindingType::StorageTexture { format: self.parent.format },
        };
        let mut slots = Vec::new();
        slots.push((tex_layout, BindingResource::TextureView));
        assert(slots@ =~= storage_slots(self.bound().texel_format(), binding));
        slots
    }
}

} // verus!
