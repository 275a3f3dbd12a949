use strolle::camera::ScreenPos;
use strolle::texture::{
    BindGroupLayoutEntry, BindingResource, BindingType, FilterMode, Texture, TextureFormat,
    TextureUsages,
};

const SIZE: ScreenPos = ScreenPos { x: 640, y: 480 };

#[test]
fn texture_and_sampler_are_labelled_after_the_texture() {
    let t = Texture::new("direct_colors", SIZE, TextureFormat::Rgba16Float);
    assert_eq!(t.tex().label, "direct_colors_tex");
    assert_eq!(t.sampler().label, "direct_colors_sampler");
    let unnamed = Texture::new("", SIZE, TextureFormat::Rgba16Float);
    assert_eq!(unnamed.tex().label, "_tex");
    assert_eq!(unnamed.sampler().label, "_sampler");
}

#[test]
fn texture_has_the_size_and_format_asked_for() {
    let t = Texture::new("direct_colors", SIZE, TextureFormat::Rgba32Float);
    assert_eq!(t.tex().width, 640);
    assert_eq!(t.tex().height, 480);
    assert_eq!(t.tex().format, TextureFormat::Rgba32Float);
    assert_eq!(t.format(), TextureFormat::Rgba32Float);
}

#[test]
fn colour_textures_are_written_by_shaders() {
    for format in [TextureFormat::Rgba8Unorm, TextureFormat::Rgba16Float, TextureFormat::Rgba32Float]
    {
        let t = Texture::new("direct_colors", SIZE, format);
        assert_eq!(
            t.tex().usage,
            TextureUsages {
                texture_binding: true,
                storage_binding: true,
                render_attachment: true,
                copy_dst: true,
            }
        );
    }
}

#[test]
fn depth_textures_are_only_rendered_to_and_sampled() {
    let t = Texture::new("direct_depth", SIZE, TextureFormat::Depth32Float);
    assert_eq!(
        t.tex().usage,
        TextureUsages {
            texture_binding: true,
            storage_binding: false,
            render_attachment: true,
            copy_dst: false,
        }
    );
}

#[test]
fn atmosphere_textures_are_filtered() {
    for label in ["atmosphere", "atmosphere_sky_lut", "the_atmosphere", "xatmospherex"] {
        let t = Texture::new(label, SIZE, TextureFormat::Rgba16Float);
        assert_eq!(t.sampler().mag_filter, FilterMode::Linear);
        assert_eq!(t.sampler().min_filter, FilterMode::Linear);
        let slots = t.bind_sampled().bind(0);
        assert_eq!(slots[0].0.ty, BindingType::Texture { filterable: true });
        assert_eq!(slots[1].0.ty, BindingType::Sampler { filtering: true });
    }
}

#[test]
fn other_textures_are_not_filtered() {
    for label in ["", "direct_colors", "atmospher", "tmosphere", "Atmosphere", "atmo_sphere"] {
        let t = Texture::new(label, SIZE, TextureFormat::Rgba16Float);
        assert_eq!(t.sampler().mag_filter, FilterMode::Nearest);
        assert_eq!(t.sampler().min_filter, FilterMode::Nearest);
        let slots = t.bind_sampled().bind(0);
        assert_eq!(slots[0].0.ty, BindingType::Texture { filterable: false });
        assert_eq!(slots[1].0.ty, BindingType::Sampler { filtering: false });
    }
}

#[test]
fn sampler_takes_the_slot_after_the_texture() {
    let t = Texture::new("atmosphere_sky_lut", SIZE, TextureFormat::Rgba16Float);
    let slots = t.bind_sampled().bind(3);
    assert_eq!(
        slots,
        vec![
            (
                BindGroupLayoutEntry { binding: 3, ty: BindingType::Texture { filterable: true } },
                BindingResource::TextureView
            ),
            (
                BindGroupLayoutEntry { binding: 4, ty: BindingType::Sampler { filtering: true } },
                BindingResource::Sampler
            ),
        ]
    );
    let last = t.bind_sampled().bind(u32::MAX - 1);
    assert_eq!(last[1].0.binding, u32::MAX);
}

#[test]
fn storage_binding_takes_one_slot() {
    let t = Texture::new("direct_colors", SIZE, TextureFormat::Rgba16Float);
    let expected = vec![(
        BindGroupLayoutEntry {
            binding: 7,
            ty: BindingType::StorageTexture { format: TextureFormat::Rgba16Float },
        },
        BindingResource::TextureView,
    )];
    assert_eq!(t.bind_readable().bind(7), expected);
    assert_eq!(t.bind_writable().bind(7), expected);
    assert_eq!(t.bind_writable().bind(u32::MAX)[0].0.binding, u32::MAX);
}

#[test]
fn other_formats_are_treated_as_colour() {
    let t = Texture::new("velocity", SIZE, TextureFormat::Other);
    assert_eq!(t.format(), TextureFormat::Other);
    assert_eq!(
        t.tex().usage,
        TextureUsages {
            texture_binding: true,
            storage_binding: true,
            render_attachment: true,
            copy_dst: true,
        }
    );
    assert_eq!(
        t.bind_writable().bind(0)[0].0.ty,
        BindingType::StorageTexture { format: TextureFormat::Other }
    );
}
