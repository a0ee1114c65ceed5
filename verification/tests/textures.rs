//! Texture decoding and dynamic (re-rendered) textures.

use safehouse_render::commands::{Color, RenderCommand};
use safehouse_render::gpu::GpuContext;
use safehouse_render::manager::RenderManager;
use safehouse_render::texture::{DynamicTexture, ImgEncoding, Texture};

/// Encodes a two-by-one RGBA image (one red pixel, one blue) as PNG bytes.
fn tiny_png() -> Vec<u8> {
    let mut img = image::RgbaImage::new(2, 1);
    img.put_pixel(0, 0, image::Rgba([255, 0, 0, 255]));
    img.put_pixel(1, 0, image::Rgba([0, 0, 255, 255]));
    let mut bytes = std::io::Cursor::new(Vec::new());
    img.write_to(&mut bytes, image::ImageFormat::Png).unwrap();
    bytes.into_inner()
}

#[test]
fn decodes_and_uploads_an_encoded_image() {
    let mut ctx = GpuContext::new(800, 600);
    let png = tiny_png();
    let texture = Texture::load_encoded(&mut ctx, &png, ImgEncoding::Png).unwrap();
    assert_eq!((texture.width, texture.height), (2, 1));
    let rec = &ctx.textures[texture.texture.0];
    assert_eq!((rec.width, rec.height), (2, 1));
    // The uploaded pixels are the decoded ones, not the encoded bytes.
    let rgba = rec.rgba.as_ref().unwrap();
    assert_eq!(rgba, &vec![255, 0, 0, 255, 0, 0, 255, 255]);
    assert_ne!(rgba, &png);
}

#[test]
fn malformed_bytes_fail_to_decode() {
    let mut ctx = GpuContext::new(800, 600);
    assert!(Texture::load_encoded(&mut ctx, &[1, 2, 3, 4], ImgEncoding::Png).is_none());
    assert!(ctx.textures.is_empty());
    // PNG bytes are not a JPEG.
    assert!(Texture::load_encoded(&mut ctx, &tiny_png(), ImgEncoding::Jpeg).is_none());
}

#[test]
fn blank_dynamic_texture_is_a_render_target() {
    let mut ctx = GpuContext::new(800, 600);
    let t = Texture::new_blank_dynamic(&mut ctx, 64, 32);
    assert_eq!((t.width, t.height), (64, 32));
    assert!(ctx.textures[t.texture.0].render_target);
    assert!(ctx.textures[t.texture.0].rgba.is_none());
}

#[test]
fn queued_text_is_rendered_before_the_main_pass() {
    let mut rm = RenderManager::new(800, 600);
    let dt = DynamicTexture::new_text(&mut rm.ctx, Color::transparent(), String::from("score: 3"));
    let texture_id = dt.texture.texture;
    let handle = rm.add_dyn_texture(dt);
    assert!(rm.prepare_dyn_texture(handle));
    rm.queue_dyn_texture(handle);

    let commands = rm.render();
    assert!(
        matches!(commands[0], RenderCommand::BeginTexturePass { texture, .. } if texture == texture_id)
    );
    assert!(matches!(&commands[1], RenderCommand::DrawText { text } if text == "score: 3"));
    assert!(matches!(commands[2], RenderCommand::EndPass));
    // The main pass starts only after the texture pass.
    assert!(matches!(commands[3], RenderCommand::BeginSurfacePass { .. }));

    // The queue is drained: the next frame re-renders nothing.
    let commands = rm.render();
    assert!(matches!(commands[0], RenderCommand::BeginSurfacePass { .. }));
}

#[test]
fn stale_dyn_texture_handles_are_skipped() {
    let mut rm = RenderManager::new(800, 600);
    let dt = DynamicTexture::new_text(&mut rm.ctx, Color::black(), String::from("gone"));
    let handle = rm.add_dyn_texture(dt);
    let bogus = safehouse_render::handle::Handle {
        index: handle.index,
        generation: handle.generation + 1,
    };
    rm.queue_dyn_texture(bogus);
    let commands = rm.render();
    assert!(matches!(commands[0], RenderCommand::BeginSurfacePass { .. }));
    assert!(!rm.prepare_dyn_texture(bogus));
    assert!(rm.get_dyn_texture(handle).is_some());
}

#[test]
fn hardcoded_image_blocks_load() {
    let mut ctx = GpuContext::new(800, 600);
    let block: safehouse_render::texture::DataUnit =
        (tiny_png(), safehouse_render::texture::UnitFormat::IMAGE(ImgEncoding::Png));
    let texture = Texture::load_hardcoded(&mut ctx, &block).unwrap();
    assert_eq!((texture.width, texture.height), (2, 1));
}

#[test]
fn texture_type_distinguishes_static_and_dynamic() {
    let mut ctx = GpuContext::new(800, 600);
    let texture = Texture::new_blank_dynamic(&mut ctx, 8, 8);
    let static_kind =
        safehouse_render::texture::TextureType::Static(std::rc::Rc::new(texture));
    match static_kind {
        safehouse_render::texture::TextureType::Static(t) => assert_eq!(t.width, 8),
        safehouse_render::texture::TextureType::Dynamic(_) => panic!("expected a static texture"),
    }
}

#[test]
fn decodes_jpeg_images_too() {
    let mut img = image::RgbaImage::new(2, 1);
    img.put_pixel(0, 0, image::Rgba([255, 0, 0, 255]));
    img.put_pixel(1, 0, image::Rgba([0, 0, 255, 255]));
    let mut bytes = std::io::Cursor::new(Vec::new());
    image::DynamicImage::ImageRgba8(img)
        .to_rgb8()
        .write_to(&mut bytes, image::ImageFormat::Jpeg)
        .unwrap();
    let jpeg = bytes.into_inner();

    let mut ctx = GpuContext::new(800, 600);
    let texture = Texture::load_encoded(&mut ctx, &jpeg, ImgEncoding::Jpeg).unwrap();
    assert_eq!((texture.width, texture.height), (2, 1));
    // The format is checked, not guessed: the same bytes are not a PNG.
    assert!(Texture::load_encoded(&mut ctx, &jpeg, ImgEncoding::Png).is_none());
}
