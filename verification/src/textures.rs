//! Loading an image into a two-dimensional texture, without touching the
//! graphics API or the disk.
//!
//! A `Texture` holds the state of one load. It says which call comes next
//! and takes the answer; the caller makes the call. One of the calls is not
//! for the graphics driver: it asks the caller to decode the image file.
use crate::convert::{reinterpret, to_signed};
use image::DynamicImage;
use image::ImageError;
use vstd::prelude::*;

verus! {

/// `image::DynamicImage`, a decoded image. Nothing is known of what is
/// inside one but what the functions below say.
#[verifier::external_type_specification]
#[verifier::external_body]
pub struct ExDynamicImage(image::DynamicImage);

/// `image::ImageError`, the error of a decoder. It is only handed on.
#[verifier::external_type_specification]
#[verifier::external_body]
pub struct ExImageError(image::ImageError);

/// The bytes of an image's pixels, row after row from the top, as
/// `DynamicImage::as_bytes` gives them.
pub uninterp spec fn image_bytes(image: DynamicImage) -> Seq<u8>;

/// The width of an image in pixels, as `DynamicImage::width` gives it.
pub uninterp spec fn image_width(image: DynamicImage) -> nat;

/// The height of an image in pixels, as `DynamicImage::height` gives it.
pub uninterp spec fn image_height(image: DynamicImage) -> nat;

/// The number of bytes that one pixel of an image takes, which its pixel
/// type decides.
pub uninterp spec fn image_pixel_size(image: DynamicImage) -> nat;

/// The first `rows` rows of `bytes`, each `row` bytes long, in reverse order.
pub open spec fn rows_reversed(bytes: Seq<u8>, row: nat, rows: nat) -> Seq<u8> {
    Seq::new(row * rows, |k: int| bytes[(rows - 1 - k / (row as int)) * row + k % (row as int)])
}

/// Calls `DynamicImage::width`.
#[verifier::external_body]
fn width_of(image: &DynamicImage) -> (width: u32)
    ensures
        width == image_width(*image),
{
    image.width()
}

/// Calls `DynamicImage::height`.
#[verifier::external_body]
fn height_of(image: &DynamicImage) -> (height: u32)
    ensures
        height == image_height(*image),
{
    image.height()
}

/// Calls `DynamicImage::flipv`, which makes a new image of the same size and
/// pixel type and puts the pixel at `(x, y)` of the old one at
/// `(x, height - 1 - y)` of the new one. In bytes: the rows come out in
/// reverse order, and the new image holds nothing but those rows.
#[verifier::external_body]
fn flip_vertically(image: &DynamicImage) -> (flipped: DynamicImage)
    ensures
        image_width(flipped) == image_width(*image),
        image_height(flipped) == image_height(*image),
        image_pixel_size(flipped) == image_pixel_size(*image),
        image_bytes(flipped) == rows_reversed(
            image_bytes(*image),
            image_width(*image) * image_pixel_size(*image),
            image_height(*image),
        ),
{
    image.flipv()
}

/// Calls `DynamicImage::into_bytes`, which gives the bytes of the pixels.
#[verifier::external_body]
fn bytes_of(image: DynamicImage) -> (bytes: Vec<u8>)
    ensures
        bytes@ == image_bytes(image),
{
    image.into_bytes()
}

/// The parameters of a texture that a load sets.
#[derive(Debug, Clone, Copy, PartialEq, Eq, Structural)]
pub enum TextureParameter {
    WrapS,
    WrapT,
    MinFilter,
    MagFilter,
}

/// The values that a load gives to a texture's parameters.
#[derive(Debug, Clone, Copy, PartialEq, Eq, Structural)]
pub enum TextureSetting {
    Repeat,
    Linear,
    LinearMipmapLinear,
}

/// How the colour channels of a pixel are laid out.
#[derive(Debug, Clone, Copy, PartialEq, Eq, Structural)]
pub enum PixelFormat {
    Rgb,
    Rgba,
}

/// A call to make for a texture that is being loaded.
#[derive(Debug, Clone, Copy, PartialEq, Eq, Structural)]
pub enum TextureCall {
    /// Generate a texture name; the answer is the name.
    Generate,
    /// Bind the texture to the two-dimensional target.
    Bind { texture: u32 },
    /// Set a parameter of the bound texture.
    Parameter { parameter: TextureParameter, setting: TextureSetting },
    /// Decode the image file; the answer is the image, or the decoder's
    /// error.
    Decode,
    /// Give the bound texture the load's pixels at level zero: unsigned
    /// bytes laid out as `format` says, stored as `internal_format`.
    Image { internal_format: PixelFormat, width: i32, height: i32, format: PixelFormat },
    /// Generate the mipmaps of the bound texture.
    Mipmap,
}

/// What comes back from a call.
#[derive(Debug)]
pub enum TextureReply {
    /// The call returns nothing.
    Done,
    /// A newly generated texture name.
    Handle(u32),
    /// The decoded image.
    Decoded(DynamicImage),
    /// The decoder's error.
    DecodeFailed(ImageError),
}

/// Why a texture could not be loaded.
#[derive(Debug)]
pub enum TextureError {
    /// The image could not be decoded.
    Decode(ImageError),
}

/// How far a load has come: the call it waits on, or how it ended.
#[derive(Debug, Clone, Copy, PartialEq, Eq, Structural)]
pub enum TextureStep {
    Generate,
    Bind,
    WrapS,
    WrapT,
    MinFilter,
    MagFilter,
    Decode,
    Image,
    Mipmap,
    Loaded,
    Failed,
}

/// A texture on its way from an image file to the graphics driver.
pub struct Texture {
    texture_id: u32,
    is_png: bool,
    step: TextureStep,
    width: u32,
    height: u32,
    pixels: Vec<u8>,
    error: Option<ImageError>,
}

/// What a `Texture` stands for.
pub struct TextureView {
    /// The texture's name, zero until the driver has given one.
    pub id: u32,
    /// Whether the pixels are to be read with an alpha channel.
    pub is_png: bool,
    pub step: TextureStep,
    /// The size of the decoded image, zero until there is one.
    pub width: u32,
    pub height: u32,
    /// The pixels to upload: the rows of the decoded image from the bottom
    /// up, empty until there is one.
    pub pixels: Seq<u8>,
    /// The decoder's error, if the load failed.
    pub error: Option<ImageError>,
}

impl TextureView {
    /// The state of a load of which no call has been made.
    pub open spec fn start(is_png: bool) -> TextureView {
        TextureView {
            id: 0,
            is_png,
            step: TextureStep::Generate,
            width: 0,
            height: 0,
            pixels: Seq::empty(),
            error: None,
        }
    }

    /// A load that has failed holds the decoder's error.
    pub open spec fn wf(self) -> bool {
        self.step is Failed ==> self.error is Some
    }

    /// The layout in which the pixels are read.
    pub open spec fn format(self) -> PixelFormat {
        if self.is_png {
            PixelFormat::Rgba
        } else {
            PixelFormat::Rgb
        }
    }

    /// The call to make now, if the load has not ended.
    pub open spec fn call(self) -> Option<TextureCall> {
        match self.step {
            TextureStep::Generate => Some(TextureCall::Generate),
            TextureStep::Bind => Some(TextureCall::Bind { texture: self.id }),
            TextureStep::WrapS => Some(
                TextureCall::Parameter {
                    parameter: TextureParameter::WrapS,
                    setting: TextureSetting::Repeat,
                },
            ),
            TextureStep::WrapT => Some(
                TextureCall::Parameter {
                    parameter: TextureParameter::WrapT,
                    setting: TextureSetting::Repeat,
                },
            ),
            TextureStep::MinFilter => Some(
                TextureCall::Parameter {
                    parameter: TextureParameter::MinFilter,
                    setting: TextureSetting::LinearMipmapLinear,
                },
            ),
            TextureStep::MagFilter => Some(
                TextureCall::Parameter {
                    parameter: TextureParameter::MagFilter,
                    setting: TextureSetting::Linear,
                },
            ),
            TextureStep::Decode => Some(TextureCall::Decode),
            TextureStep::Image => Some(
                TextureCall::Image {
                    internal_format: PixelFormat::Rgb,
                    width: reinterpret(self.width) as i32,
                    height: reinterpret(self.height) as i32,
                    format: self.format(),
                },
            ),
            TextureStep::Mipmap => Some(TextureCall::Mipmap),
            TextureStep::Loaded | TextureStep::Failed => None,
        }
    }

    /// Whether `reply` is the kind of answer that the call of this state gets.
    pub open spec fn awaits(self, reply: TextureReply) -> bool {
        match self.step {
            TextureStep::Generate => reply is Handle,
            TextureStep::Decode => reply is Decoded || reply is DecodeFailed,
            TextureStep::Loaded | TextureStep::Failed => false,
            _ => reply is Done,
        }
    }

    /// The step that follows one whose call returns nothing.
    pub open spec fn following(step: TextureStep) -> TextureStep {
        match step {
            TextureStep::Bind => TextureStep::WrapS,
            TextureStep::WrapS => TextureStep::WrapT,
            TextureStep::WrapT => TextureStep::MinFilter,
            TextureStep::MinFilter => TextureStep::MagFilter,
            TextureStep::MagFilter => TextureStep::Decode,
            TextureStep::Image => TextureStep::Mipmap,
            TextureStep::Mipmap => TextureStep::Loaded,
            _ => step,
        }
    }

    /// The state after `reply`. An answer of another kind than the one
    /// awaited changes nothing; a state that has ended stays as it is.
    pub open spec fn next(self, reply: TextureReply) -> TextureView {
        if !self.awaits(reply) {
            self
        } else {
            match reply {
                TextureReply::Handle(id) => TextureView { id, step: TextureStep::Bind, ..self },
                TextureReply::Decoded(image) => TextureView {
                    step: TextureStep::Image,
                    width: image_width(image) as u32,
                    height: image_height(image) as u32,
                    pixels: rows_reversed(
                        image_bytes(image),
                        image_width(image) * image_pixel_size(image),
                        image_height(image),
                    ),
                    ..self
                },
                TextureReply::DecodeFailed(error) => TextureView {
                    step: TextureStep::Failed,
                    error: Some(error),
                    ..self
                },
                TextureReply::Done => TextureView { step: Self::following(self.step), ..self },
            }
        }
    }

    /// Whether the load has ended, well or badly.
    pub open spec fn ended(self) -> bool {
        self.step is Loaded || self.step is Failed
    }

    /// How many calls have been answered.
    pub open spec fn position(self) -> nat {
        match self.step {
            TextureStep::Generate => 0,
            TextureStep::Bind => 1,
            TextureStep::WrapS => 2,
            TextureStep::WrapT => 3,
            TextureStep::MinFilter => 4,
            TextureStep::MagFilter => 5,
            TextureStep::Decode => 6,
            TextureStep::Failed => 7,
            TextureStep::Image => 7,
            TextureStep::Mipmap => 8,
            TextureStep::Loaded => 9,
        }
    }
}

impl View for Texture {
    type V = TextureView;

    closed spec fn view(&self) -> TextureView {
        TextureView {
            id: self.texture_id,
            is_png: self.is_png,
            step: self.step,
            width: self.width,
            height: self.height,
            pixels: self.pixels@,
            error: self.error,
        }
    }
}

impl Texture {
    #[verifier::type_invariant]
    spec fn inv(self) -> bool {
        self@.wf()
    }

    /// Starts the load of a texture. `is_png` says that the image's pixels
    /// are to be read with an alpha channel; the image's own pixel type is
    /// not looked at.
    pub fn load_texture(is_png: bool) -> (texture: Texture)
        ensures
            texture@ == TextureView::start(is_png),
    {
        Texture {
            texture_id: 0,
            is_png,
            step: TextureStep::Generate,
            width: 0,
            height: 0,
            pixels: Vec::new(),
            error: None,
        }
    }

    /// The pixels that the `Image` call uploads.
    pub fn pixels(&self) -> (pixels: &Vec<u8>)
        ensures
            pixels@ == self@.pixels,
    {
        &self.pixels
    }

    /// The call to make now, or `None` once the load has ended.
    pub fn next_call(&self) -> (call: Option<TextureCall>)
        ensures
            call == self@.call(),
    {
        match self.step {
            TextureStep::Generate => Some(TextureCall::Generate),
            TextureStep::Bind => Some(TextureCall::Bind { texture: self.texture_id }),
            TextureStep::WrapS => Some(
                TextureCall::Parameter {
                    parameter: TextureParameter::WrapS,
                    setting: TextureSetting::Repeat,
                },
            ),
            TextureStep::WrapT => Some(
                TextureCall::Parameter {
                    parameter: TextureParameter::WrapT,
                    setting: TextureSetting::Repeat,
                },
            ),
            TextureStep::MinFilter => Some(
                TextureCall::Parameter {
                    parameter: TextureParameter::MinFilter,
                    setting: TextureSetting::LinearMipmapLinear,
                },
            ),
            TextureStep::MagFilter => Some(
                TextureCall::Parameter {
                    parameter: TextureParameter::MagFilter,
                    setting: TextureSetting::Linear,
                },
            ),
            TextureStep::Decode => Some(TextureCall::Decode),
            TextureStep::Image => {
                let format = if self.is_png {
                    PixelFormat::Rgba
                } else {
                    PixelFormat::Rgb
                };
                Some(
                    TextureCall::Image {
                        internal_format: PixelFormat::Rgb,
                        width: to_signed(self.width),
                        height: to_signed(self.height),
                        format,
                    },
                )
            },
            TextureStep::Mipmap => Some(TextureCall::Mipmap),
            TextureStep::Loaded | TextureStep::Failed => None,
        }
    }

    /// Takes the answer to the call last asked for. A decoded image is
    /// turned upside down, since the driver counts rows from the bottom.
    pub fn advance(&mut self, reply: TextureReply)
        ensures
            final(self)@ == old(self)@.next(reply),
    {
        proof {
            use_type_invariant(&*self);
        }
        match (self.step, reply) {
            (TextureStep::Generate, TextureReply::Handle(id)) => {
                self.texture_id = id;
                self.step = TextureStep::Bind;
            },
            (TextureStep::Bind, TextureReply::Done) => {
                self.step = TextureStep::WrapS;
            },
            (TextureStep::WrapS, TextureReply::Done) => {
                self.step = TextureStep::WrapT;
            },
            (TextureStep::WrapT, TextureReply::Done) => {
                self.step = TextureStep::MinFilter;
            },
            (TextureStep::MinFilter, TextureReply::Done) => {
                self.step = TextureStep::MagFilter;
            },
            (TextureStep::MagFilter, TextureReply::Done) => {
                self.step = TextureStep::Decode;
            },
            (TextureStep::Decode, TextureReply::Decoded(image)) => {
                let flipped = flip_vertically(&image);
                self.width = width_of(&flipped);
                self.height = height_of(&flipped);
                self.pixels = bytes_of(flipped);
                self.step = TextureStep::Image;
            },
            (TextureStep::Decode, TextureReply::DecodeFailed(error)) => {
                self.error = Some(error);
                self.step = TextureStep::Failed;
            },
            (TextureStep::Image, TextureReply::Done) => {
                self.step = TextureStep::Mipmap;
            },
            (TextureStep::Mipmap, TextureReply::Done) => {
                self.step = TextureStep::Loaded;
            },
            _ => {},
        }
    }

    /// Whether the load has ended.
    pub fn is_finished(&self) -> (finished: bool)
        ensures
            finished == self@.ended(),
    {
        match self.step {
            TextureStep::Loaded | TextureStep::Failed => true,
            _ => false,
        }
    }

    /// How the load ended: the texture's name, or the decoder's error.
    /// `None` while calls are still to be made.
    pub fn finish(self) -> (outcome: Option<Result<u32, TextureError>>)
        ensures
            self@.wf(),
            !self@.ended() ==> outcome is None,
            self@.step is Loaded ==> (outcome matches Some(Ok(id)) && id == self@.id),
            self@.step is Failed ==> (outcome matches Some(Err(TextureError::Decode(error)))
                && self@.error == Some(error)),
    {
        proof {
            use_type_invariant(&self);
        }
        match self.step {
            TextureStep::Loaded => Some(Ok(self.texture_id)),
            TextureStep::Failed => match self.error {
                Some(error) => Some(Err(TextureError::Decode(error))),
                None => None,
            },
            _ => None,
        }
    }
}

/// An awaited answer moves a load one call further; nothing else moves it
/// at all. Only the first answer sets the texture's name, and no answer
/// changes how the pixels are to be read.
pub proof fn lemma_load_moves_by_answers(state: TextureView, reply: TextureReply)
    ensures
        state.awaits(reply) ==> state.next(reply).position() == state.position() + 1,
        !state.awaits(reply) ==> state.next(reply) == state,
        state.ended() ==> !state.awaits(reply),
        !(state.step is Generate) ==> state.next(reply).id == state.id,
        state.next(reply).is_png == state.is_png,
        state.wf() ==> state.next(reply).wf(),
{
}

/// A load fails if and only if the decoder does, and then it makes no
/// further call: nothing is uploaded.
pub proof fn lemma_load_fails_with_the_decoder(state: TextureView, reply: TextureReply)
    requires
        !(state.step is Failed),
    ensures
        state.next(reply).step is Failed <==> state.step is Decode && reply is DecodeFailed,
        state.next(reply).step is Failed ==> state.next(reply).call() is None,
{
}

/// Where `index` lies in row `line` of rows that are `row` long, at `column`.
proof fn lemma_row_and_column(index: int, row: int, line: int, column: int)
    requires
        row > 0,
        0 <= column < row,
        index == line * row + column,
    ensures
        index / row == line,
        index % row == column,
{
    vstd::arithmetic::div_mod::lemma_fundamental_div_mod_converse(index, row, line, column);
}

/// Turning rows upside down twice gives them back as they were.
pub proof fn lemma_rows_reversed_twice(bytes: Seq<u8>, row: nat, rows: nat)
    requires
        bytes.len() == row * rows,
    ensures
        rows_reversed(rows_reversed(bytes, row, rows), row, rows) == bytes,
{
    let once = rows_reversed(bytes, row, rows);
    let twice = rows_reversed(once, row, rows);
    assert(twice.len() == bytes.len());
    assert forall|k: int| 0 <= k < bytes.len() implies twice[k] == bytes[k] by {
        let width = row as int;
        assert(width > 0) by (nonlinear_arith)
            requires
                0 <= k < row * rows,
                width == row,
        ;
        let line = k / width;
        let column = k % width;
        vstd::arithmetic::div_mod::lemma_fundamental_div_mod(k, width);
        assert(k == line * width + column) by (nonlinear_arith)
            requires
                k == width * line + column,
        ;
        assert(0 <= column < width);
        assert(0 <= line < rows) by (nonlinear_arith)
            requires
                k == line * width + column,
                0 <= column < width,
                0 <= k < width * rows,
        ;
        let mirrored = (rows - 1 - line) * width + column;
        assert(0 <= mirrored < width * rows) by (nonlinear_arith)
            requires
                mirrored == (rows - 1 - line) * width + column,
                0 <= line < rows,
                0 <= column < width,
        ;
        lemma_row_and_column(mirrored, width, rows - 1 - line, column);
        assert(once[mirrored] == bytes[(rows - 1 - (rows - 1 - line)) * width + column]);
    }
    assert(twice =~= bytes);
}

/// Turning rows upside down keeps every row as it is and moves the row at
/// `line` to `rows - 1 - line`.
pub proof fn lemma_rows_reversed_moves_rows(
    bytes: Seq<u8>,
    row: nat,
    rows: nat,
    line: int,
    column: int,
)
    requires
        bytes.len() >= row * rows,
        0 <= line < rows,
        0 <= column < row,
    ensures
        rows_reversed(bytes, row, rows).len() == row * rows,
        0 <= (rows - 1 - line) * row + column < row * rows,
        rows_reversed(bytes, row, rows)[(rows - 1 - line) * row + column] == bytes[line * row
            + column],
{
    let width = row as int;
    let mirrored = (rows - 1 - line) * width + column;
    assert(0 <= mirrored < width * rows) by (nonlinear_arith)
        requires
            mirrored == (rows - 1 - line) * width + column,
            0 <= line < rows,
            0 <= column < width,
    ;
    lemma_row_and_column(mirrored, width, rows - 1 - line, column);
}

} // verus!
