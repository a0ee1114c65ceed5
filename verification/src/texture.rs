//! Textures, samplers and dynamic (re-rendered) textures.
//!
//! Encoded images are decoded through the `image` crate; everything that
//! follows the decode — sizing, upload layout, bind entries — is the
//! library's own logic.  A dynamic texture owns a render-target texture that
//! the frame re-renders (currently: rasterised text) before the main pass.

use crate::binding::{BindGroupEntry, BindingKind, BindingResource, LayoutEntry, Visibility};
use crate::commands::{Color, RenderCommand};
use crate::gpu::{GpuContext, SamplerId, TextureId};
use crate::handle::Handle;
use std::rc::Rc;
use vstd::prelude::*;

verus! {

/// The encoded-image formats the loader accepts.
#[derive(Clone, Copy, PartialEq, Eq, Structural, Debug)]
pub enum ImgEncoding {
    Png,
    Jpeg,
}

impl ImgEncoding {
    /// Stable code naming the format in specifications.
    pub open spec fn code(self) -> int {
        match self {
            ImgEncoding::Png => 0,
            ImgEncoding::Jpeg => 1,
        }
    }
}

/// The RGBA pixels that decoding an encoded image yields.  Decoding is a
/// pure function of the encoded bytes and their format.
pub uninterp spec fn decoded_rgba(data: Seq<u8>, format: int) -> Seq<u8>;

/// The pixel width of a decoded image.
pub uninterp spec fn decoded_width(data: Seq<u8>, format: int) -> u32;

/// The pixel height of a decoded image.
pub uninterp spec fn decoded_height(data: Seq<u8>, format: int) -> u32;

/// Whether the bytes decode successfully in the stated format.
pub uninterp spec fn decode_succeeds(data: Seq<u8>, format: int) -> bool;

/// Relies on image::load_from_memory_with_format (and the RGBA conversion
/// DynamicImage::to_rgba8): decoding returns pixels, width and height that
/// depend on the encoded bytes and the stated format alone, and fails
/// exactly on bytes that are malformed for that format.
#[verifier::external_body]
fn decode_image(data: &[u8], format: ImgEncoding) -> (r: Option<(Vec<u8>, u32, u32)>)
    ensures
        r is Some <==> decode_succeeds(data@, format.code()),
        r matches Some(t) ==> t.0@ == decoded_rgba(data@, format.code()) && t.1 == decoded_width(
            data@,
            format.code(),
        ) && t.2 == decoded_height(data@, format.code()),
{
    let fmt = match format {
        ImgEncoding::Png => image::ImageFormat::Png,
        ImgEncoding::Jpeg => image::ImageFormat::Jpeg,
    };
    match image::load_from_memory_with_format(data, fmt) {
        Ok(img) => {
            let rgba = img.to_rgba8();
            let width = rgba.width();
            let height = rgba.height();
            Some((rgba.into_raw(), width, height))
        },
        Err(_) => None,
    }
}

/// A GPU texture: the created object and its pixel dimensions.
pub struct Texture {
    pub texture: TextureId,
    pub width: u32,
    pub height: u32,
}

impl Texture {
    pub open spec fn wf(self, ctx: GpuContext) -> bool {
        ctx.texture_valid(self.texture)
    }

    /// Uploads decoded RGBA pixels as a texture: four bytes per pixel, rows
    /// of `4 * width` bytes, `height` rows.
    pub fn from_rgba(ctx: &mut GpuContext, rgba: Vec<u8>, width: u32, height: u32) -> (t: Texture)
        requires
            rgba@.len() == 4 * width * height,
        ensures
            t.wf(*final(ctx)),
            t.width == width,
            t.height == height,
            t.texture.0 == old(ctx).textures@.len(),
            final(ctx).grows(*old(ctx)),
            old(ctx).wf() ==> final(ctx).wf(),
            final(ctx).textures@ == old(ctx).textures@.push(
                (crate::gpu::TextureRec { width, height, rgba: Some(rgba), render_target: false }),
            ),
    {
        let texture = ctx.create_texture(width, height, rgba);
        Texture { texture, width, height }
    }

    /// Decodes an encoded image and uploads it.  Returns `None` exactly when
    /// the bytes do not decode in the stated format, or when the decode
    /// reports pixels inconsistent with its own dimensions.
    pub fn load_encoded(ctx: &mut GpuContext, data: &[u8], encoding_format: ImgEncoding) -> (r:
        Option<Texture>)
        ensures
            r is Some <==> decode_succeeds(data@, encoding_format.code()) && decoded_rgba(
                data@,
                encoding_format.code(),
            ).len() == 4 * decoded_width(data@, encoding_format.code()) * decoded_height(
                data@,
                encoding_format.code(),
            ),
            r matches Some(t) ==> t.wf(*final(ctx)) && t.width == decoded_width(
                data@,
                encoding_format.code(),
            ) && t.height == decoded_height(data@, encoding_format.code())
                && (final(ctx).textures@[t.texture.0 as int].rgba matches Some(px)
                && px@ == decoded_rgba(data@, encoding_format.code())),
            final(ctx).grows(*old(ctx)),
            old(ctx).wf() ==> final(ctx).wf(),
    {
        match decode_image(data, encoding_format) {
            Some((rgba, width, height)) => {
                proof {
                    assert(4 * (width as int) * (height as int) < 0x80000000000000000000000000000000)
                        by (nonlinear_arith)
                        requires
                            width <= 0xFFFF_FFFFu64,
                            height <= 0xFFFF_FFFFu64,
                    ;
                }
                if 4u128 * (width as u128) * (height as u128) == rgba.len() as u128 {
                    let t = Texture::from_rgba(ctx, rgba, width, height);
                    Some(t)
                } else {
                    None
                }
            },
            None => None,
        }
    }

    /// Loads a hardcoded data block that must hold an encoded image.
    /// Succeeds exactly when the block's bytes decode in its stated format.
    pub fn load_hardcoded(ctx: &mut GpuContext, block: &DataUnit) -> (r: Option<Texture>)
        requires
            block.1 is IMAGE,
        ensures
            final(ctx).grows(*old(ctx)),
            old(ctx).wf() ==> final(ctx).wf(),
            block.1 matches UnitFormat::IMAGE(f) ==> (r is Some <==> decode_succeeds(
                block.0@,
                f.code(),
            ) && decoded_rgba(block.0@, f.code()).len() == 4 * decoded_width(block.0@, f.code())
                * decoded_height(block.0@, f.code())),
            block.1 matches UnitFormat::IMAGE(f) ==> (r matches Some(t) ==> t.wf(*final(ctx))
                && t.width == decoded_width(block.0@, f.code()) && t.height == decoded_height(
                block.0@,
                f.code(),
            )),
    {
        match block.1 {
            UnitFormat::IMAGE(imgfmt) => Texture::load_encoded(ctx, block.0.as_slice(), imgfmt),
            _ => None,
        }
    }

    /// Creates a blank texture that render passes can draw into.
    pub fn new_blank_dynamic(ctx: &mut GpuContext, width: u32, height: u32) -> (t: Texture)
        ensures
            t.wf(*final(ctx)),
            t.width == width,
            t.height == height,
            final(ctx).grows(*old(ctx)),
            old(ctx).wf() ==> final(ctx).wf(),
            final(ctx).textures@[t.texture.0 as int].render_target,
    {
        let texture = ctx.create_render_target(width, height);
        Texture { texture, width, height }
    }

    /// Layout entry of a texture binding at the given slot.
    pub fn get_layout_entry(slot: u32, visibility: Visibility) -> (e: LayoutEntry)
        ensures
            e == (LayoutEntry { binding: slot, visibility, kind: BindingKind::Texture }),
    {
        LayoutEntry { binding: slot, visibility, kind: BindingKind::Texture }
    }

    /// Binding entry presenting this texture's view at the given slot.
    pub fn get_binding_entry(&self, slot: u32) -> (e: BindGroupEntry)
        ensures
            e == (BindGroupEntry {
                binding: slot,
                resource: BindingResource::TextureView(self.texture),
            }),
    {
        BindGroupEntry { binding: slot, resource: BindingResource::TextureView(self.texture) }
    }
}

/// A texture sampler.
pub struct TextureSampler {
    pub sampler: SamplerId,
}

impl TextureSampler {
    pub open spec fn wf(self, ctx: GpuContext) -> bool {
        ctx.sampler_valid(self.sampler)
    }

    pub fn new(ctx: &mut GpuContext, label: String) -> (s: TextureSampler)
        ensures
            s.wf(*final(ctx)),
            final(ctx).grows(*old(ctx)),
            old(ctx).wf() ==> final(ctx).wf(),
    {
        let sampler = ctx.create_sampler(label);
        TextureSampler { sampler }
    }

    /// Layout entry of a sampler binding at the given slot.
    pub fn get_layout_entry(slot: u32, visibility: Visibility) -> (e: LayoutEntry)
        ensures
            e == (LayoutEntry { binding: slot, visibility, kind: BindingKind::Sampler }),
    {
        LayoutEntry { binding: slot, visibility, kind: BindingKind::Sampler }
    }

    /// Binding entry presenting this sampler at the given slot.
    pub fn get_binding_entry(&self, slot: u32) -> (e: BindGroupEntry)
        ensures
            e == (BindGroupEntry {
                binding: slot,
                resource: BindingResource::Sampler(self.sampler),
            }),
    {
        BindGroupEntry { binding: slot, resource: BindingResource::Sampler(self.sampler) }
    }
}

/// What a hardcoded data block holds.
#[allow(non_camel_case_types)]
#[derive(Clone, Copy, PartialEq, Eq, Structural, Debug)]
pub enum UnitFormat {
    IMAGE(ImgEncoding),
    FONT_TTF,
    VERTEXD,
    OBJ,
}

/// A hardcoded data block: raw bytes and what they encode.
pub type DataUnit = (Vec<u8>, UnitFormat);

/// Handle of a dynamic texture in the manager's store.
pub type DynamicTextureHandle = Handle;

/// A texture an object can sample from, either re-rendered every frame or
/// loaded once.
pub enum TextureType {
    Dynamic(DynamicTextureHandle),
    Static(Rc<Texture>),
}

/// What a dynamic texture renders into itself.
enum DynamicTextureState {
    Text { text: String, prepared: bool },
}

/// A texture that changes, re-rendered into before the main pass of a frame.
pub struct DynamicTexture {
    pub texture: Rc<Texture>,
    dynamic_state: DynamicTextureState,
    clear_background: Color,
}

impl DynamicTexture {
    pub closed spec fn wf(self, ctx: GpuContext) -> bool {
        self.texture.wf(ctx)
    }

    /// Liveness of the texture survives the creation of further resources.
    pub proof fn lemma_wf_grows(self, c1: GpuContext, c2: GpuContext)
        requires
            self.wf(c1),
            c2.store_extends(c1),
        ensures
            self.wf(c2),
    {
    }

    /// The text this texture renders.
    pub closed spec fn spec_text(self) -> Seq<char> {
        match self.dynamic_state {
            DynamicTextureState::Text { text, prepared } => text@,
        }
    }

    /// Whether the text was prepared since it last changed.
    pub closed spec fn spec_prepared(self) -> bool {
        match self.dynamic_state {
            DynamicTextureState::Text { text, prepared } => prepared,
        }
    }

    pub closed spec fn spec_clear_background(self) -> Color {
        self.clear_background
    }

    /// The commands that re-render this texture: one pass onto the texture,
    /// cleared to the background colour, drawing the text.
    pub closed spec fn spec_render_commands(self) -> Seq<RenderCommand> {
        seq![
            RenderCommand::BeginTexturePass {
                texture: self.texture.texture,
                clear: self.spec_clear_background(),
            },
            RenderCommand::DrawText { text: self.spec_text_string() },
            RenderCommand::EndPass,
        ]
    }

    /// Re-rendering a dynamic texture binds no groups and issues no vertex
    /// draws: it cannot disturb the main pass's slot assignment or draw
    /// order.
    pub proof fn lemma_render_commands_shape(self)
        ensures
            self.spec_render_commands().len() == 3,
            forall|i: int|
                0 <= i < self.spec_render_commands().len() ==> !((
                #[trigger] self.spec_render_commands()[i]) is SetBindGroup) && !(
                self.spec_render_commands()[i] is Draw),
    {
    }

    /// The texture this dynamic texture renders into.
    pub closed spec fn spec_texture(self) -> Texture {
        *self.texture
    }

    /// The text as the stored string value.
    pub closed spec fn spec_text_string(self) -> String {
        match self.dynamic_state {
            DynamicTextureState::Text { text, prepared } => text,
        }
    }

    /// Creates a text texture covering the current surface configuration.
    pub fn new_text(ctx: &mut GpuContext, clear_background: Color, text: String) -> (dt:
        DynamicTexture)
        ensures
            dt.wf(*final(ctx)),
            dt.spec_text() == text@,
            !dt.spec_prepared(),
            dt.spec_clear_background() == clear_background,
            dt.spec_texture().width == old(ctx).width,
            dt.spec_texture().height == old(ctx).height,
            final(ctx).grows(*old(ctx)),
            old(ctx).wf() ==> final(ctx).wf(),
    {
        let width = ctx.width;
        let height = ctx.height;
        DynamicTexture {
            texture: Rc::new(Texture::new_blank_dynamic(ctx, width, height)),
            dynamic_state: DynamicTextureState::Text { text, prepared: false },
            clear_background,
        }
    }

    /// Prepares the texture's content for rendering (shapes the text).
    pub fn prepare(&mut self)
        ensures
            forall|c: GpuContext| old(self).wf(c) ==> #[trigger] final(self).wf(c),
            final(self).spec_prepared(),
            final(self).spec_text() == old(self).spec_text(),
            final(self).spec_text_string() == old(self).spec_text_string(),
            final(self).spec_texture() == old(self).spec_texture(),
            final(self).spec_clear_background() == old(self).spec_clear_background(),
    {
        match &mut self.dynamic_state {
            DynamicTextureState::Text { text: _, prepared } => {
                *prepared = true;
            },
        }
    }

    /// Appends this texture's draw onto an already begun pass.
    pub fn render_to_pass(&self, pass: &mut Vec<RenderCommand>)
        ensures
            final(pass)@ == old(pass)@.push(
                (RenderCommand::DrawText { text: self.spec_text_string() }),
            ),
    {
        match &self.dynamic_state {
            DynamicTextureState::Text { text, prepared: _ } => {
                pass.push(RenderCommand::DrawText { text: text.clone() });
            },
        }
    }

    /// The full re-render of this texture: its own pass, cleared, then the
    /// draw.
    pub fn render_self(&self) -> (r: Vec<RenderCommand>)
        ensures
            r@ == self.spec_render_commands(),
    {
        let mut r: Vec<RenderCommand> = Vec::new();
        r.push(
            RenderCommand::BeginTexturePass {
                texture: self.texture.texture,
                clear: self.clear_background,
            },
        );
        self.render_to_pass(&mut r);
        r.push(RenderCommand::EndPass);
        proof {
            assert(r@ =~= self.spec_render_commands());
        }
        r
    }
}

} // verus!
