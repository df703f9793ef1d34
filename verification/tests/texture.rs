use lockstep::glenum;
use lockstep::texture::choose_gl_format;
use lockstep::texture::classify_layout;
use lockstep::texture::is_compatible_format;
use lockstep::texture::DecodedLayout;
use lockstep::texture::ImageFormat;
use lockstep::texture::ImageMetadata;
use lockstep::texture::ImageType;
use lockstep::texture::Texture;
use lockstep::texture::TextureError;
use lockstep::texture::TextureFiltering;
use lockstep::texture::Textures;
use lockstep::GlProperty;
use lockstep::GpuResource;

#[test]
fn rgba_eight_bit_uses_the_classic_triple() {
    let triple = choose_gl_format(ImageFormat::Rgba, ImageType::Bits8);
    assert_eq!(triple.internal, glenum::RGBA8);
    assert_eq!(triple.format, glenum::RGBA);
    assert_eq!(triple.data_type, glenum::UNSIGNED_BYTE);
}

#[test]
fn packed_formats_use_their_packed_data_types() {
    let triple = choose_gl_format(ImageFormat::Rgb, ImageType::Bits332);
    assert_eq!(triple.internal, glenum::R3_G3_B2);
    assert_eq!(triple.data_type, glenum::UNSIGNED_BYTE_3_3_2);
    let with_alpha = choose_gl_format(ImageFormat::Rgba, ImageType::Bits5);
    assert_eq!(with_alpha.internal, glenum::RGB5_A1);
    assert_eq!(with_alpha.data_type, glenum::UNSIGNED_SHORT_5_5_5_1);
    let without_alpha = choose_gl_format(ImageFormat::Rgb, ImageType::Bits5);
    assert_eq!(without_alpha.internal, glenum::RGB5);
    assert_eq!(without_alpha.data_type, glenum::UNSIGNED_BYTE);
}

#[test]
fn depth_and_stencil_formats_map_to_their_attachments() {
    let depth = choose_gl_format(ImageFormat::Depth, ImageType::Bits24);
    assert_eq!(depth.internal, glenum::DEPTH_COMPONENT24);
    assert_eq!(depth.format, glenum::DEPTH_COMPONENT);
    let both = choose_gl_format(ImageFormat::DepthStencil, ImageType::Float32);
    assert_eq!(both.internal, glenum::DEPTH32F_STENCIL8);
}

#[test]
fn incompatible_pairs_are_recognised() {
    assert!(is_compatible_format(ImageFormat::Rgba, ImageType::Bits8));
    assert!(!is_compatible_format(ImageFormat::Rgba, ImageType::Bits332));
    assert!(!is_compatible_format(ImageFormat::SingleChannel, ImageType::Integer8));
    assert!(!is_compatible_format(ImageFormat::Depth, ImageType::Bits8));
}

#[test]
fn alpha_is_carried_by_the_four_channel_formats() {
    assert!(ImageFormat::Rgba.has_alpha());
    assert!(ImageFormat::BgraInteger.has_alpha());
    assert!(!ImageFormat::Rgb.has_alpha());
    assert!(!ImageFormat::Depth.has_alpha());
}

#[test]
fn mipmapped_filtering_coerces_to_its_base() {
    assert_eq!(TextureFiltering::NearestMipmap(true).force_base_filtering(), TextureFiltering::Linear);
    assert_eq!(TextureFiltering::NearestMipmap(false).force_base_filtering(), TextureFiltering::Nearest);
    assert_eq!(TextureFiltering::LinearMipmap(true).force_base_filtering(), TextureFiltering::Linear);
    assert_eq!(TextureFiltering::LinearMipmap(false).force_base_filtering(), TextureFiltering::Nearest);
    assert_eq!(TextureFiltering::Linear.force_base_filtering(), TextureFiltering::Linear);
    assert_eq!(TextureFiltering::Nearest.force_base_filtering(), TextureFiltering::Nearest);
}

#[test]
fn filtering_property_enums_match_gl() {
    assert_eq!(TextureFiltering::Linear.property_enum(), glenum::LINEAR);
    assert_eq!(TextureFiltering::NearestMipmap(true).property_enum(), glenum::NEAREST_MIPMAP_LINEAR);
}

#[test]
fn accepted_layouts_classify_to_type_and_format() {
    assert_eq!(classify_layout(DecodedLayout::Rgb8), Ok((ImageType::Bits8, ImageFormat::Rgb)));
    assert_eq!(classify_layout(DecodedLayout::Rgba16), Ok((ImageType::Bits16, ImageFormat::Rgba)));
    assert_eq!(
        classify_layout(DecodedLayout::Luma8),
        Ok((ImageType::Bits8, ImageFormat::SingleChannel))
    );
    assert_eq!(
        classify_layout(DecodedLayout::LumaA16),
        Ok((ImageType::Bits16, ImageFormat::DualChannel))
    );
    assert_eq!(classify_layout(DecodedLayout::Rgb32F), Ok((ImageType::Float32, ImageFormat::Rgb)));
}

#[test]
fn unsupported_layouts_are_refused() {
    assert_eq!(classify_layout(DecodedLayout::Other), Err(TextureError::UnsupportedFormat));
}

#[test]
fn metadata_reports_its_fields() {
    let meta = ImageMetadata::new(640, 480, ImageFormat::Rgba, ImageType::Bits8);
    assert_eq!(meta.width(), 640);
    assert_eq!(meta.height(), 480);
    assert_eq!(meta.format(), ImageFormat::Rgba);
    assert_eq!(meta.pixel(), ImageType::Bits8);
    assert_eq!(meta.max_size(), 640);
    let tall = ImageMetadata::new(32, 128, ImageFormat::Rgb, ImageType::Bits16);
    assert_eq!(tall.max_size(), 128);
}

#[test]
fn the_registry_stores_and_hands_out_records() {
    let mut textures = Textures::new();
    let meta = ImageMetadata::new(2, 2, ImageFormat::Rgba, ImageType::Bits8);
    let first = textures.put(Texture::new(11, meta));
    let second = textures.put(Texture::new(22, meta));
    assert_eq!(first, 0);
    assert_eq!(second, 1);
    assert_eq!(textures.owner(0).resource_id(), 11);
    assert_eq!(textures.view(1).resource_id(), 22);
    let removed = textures.delete(0);
    assert_eq!(removed.resource_id(), 11);
    assert_eq!(textures.owner(0).resource_id(), 22);
}

#[test]
fn put_and_view_returns_a_view_of_the_stored_record() {
    let mut textures = Textures::with_capacity(4);
    let meta = ImageMetadata::new(1, 1, ImageFormat::Rgb, ImageType::Bits8);
    let view = textures.put_and_view(Texture::new(7, meta));
    assert_eq!(view.resource_id(), 7);
    assert_eq!(textures.owner(0).view(), view);
}

#[test]
fn a_registry_built_from_records_keeps_them() {
    let meta = ImageMetadata::new(1, 1, ImageFormat::Rgb, ImageType::Bits8);
    let textures = Textures::from(vec![Texture::new(1, meta), Texture::new(2, meta)]);
    assert_eq!(textures.owner(1).resource_id(), 2);
}

#[test]
fn a_tiny_image_decodes_to_plain_values() {
    let mut ppm: Vec<u8> = b"P6\n2 1\n255\n".to_vec();
    ppm.extend_from_slice(&[10, 20, 30, 40, 50, 60]);
    let decoded = lockstep::texture::decode_image(&ppm).expect("a valid image");
    assert_eq!(decoded.width, 2);
    assert_eq!(decoded.height, 1);
    assert_eq!(decoded.layout, DecodedLayout::Rgb8);
    assert_eq!(decoded.bytes, vec![10, 20, 30, 40, 50, 60]);
    assert_eq!(lockstep::texture::read_image_data(&ppm), Ok(vec![10, 20, 30, 40, 50, 60]));
}

#[test]
fn garbage_bytes_do_not_decode() {
    match lockstep::texture::decode_image(&[1, 2, 3, 4]) {
        Err(lockstep::texture::ImageLoadError::Decoding(message)) => {
            assert!(!message.is_empty());
        },
        other => panic!("expected a decoding failure, got {:?}", other),
    }
}

#[test]
fn a_decoded_image_classifies_to_its_metadata() {
    let mut ppm: Vec<u8> = b"P6\n2 1\n255\n".to_vec();
    ppm.extend_from_slice(&[0, 0, 0, 255, 255, 255]);
    let decoded = lockstep::texture::decode_image(&ppm).expect("a valid image");
    let meta = lockstep::texture::image_metadata(&decoded).expect("an accepted layout");
    assert_eq!(meta.width(), 2);
    assert_eq!(meta.height(), 1);
    assert_eq!(meta.format(), ImageFormat::Rgb);
    assert_eq!(meta.pixel(), ImageType::Bits8);
}

#[test]
fn an_unaccepted_layout_is_refused_as_metadata() {
    let decoded = lockstep::texture::DecodedImage {
        width: 1,
        height: 1,
        layout: DecodedLayout::Other,
        bytes: vec![],
    };
    assert_eq!(
        lockstep::texture::image_metadata(&decoded),
        Err(lockstep::texture::ImageLoadError::UnsupportedLayout)
    );
}

#[test]
fn integer_formats_use_integer_data_types() {
    let triple = choose_gl_format(ImageFormat::RgbaInteger, ImageType::Integer16U);
    assert_eq!(triple.internal, glenum::RGBA16UI);
    assert_eq!(triple.format, glenum::RGBA_INTEGER);
    assert_eq!(triple.data_type, glenum::UNSIGNED_INT);
}
