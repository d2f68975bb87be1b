//! Texture records, the names of the sampler uniforms they are bound to, and
//! the decision of how a decoded image is handed to the graphics API.

use crate::jpeg::{has_wide_frame, is_wide_jpeg};
use crate::utils::{has_parameter_value, is_parameter_value, GlEnum, GL_RED, GL_RG, GL_RGB, GL_RGBA};
use vstd::prelude::*;
use vstd::string::*;

verus! {

/// What a texture contributes to the shading of a surface.
#[derive(Clone, Copy, Debug, PartialEq, Eq, Structural)]
pub enum TextureType {
    Diffuse,
    Specular,
    Emission,
    Ambient,
    Normal,
}

impl TextureType {
    /// The part of a sampler uniform's name that stands for the type.
    pub open spec fn prefix(self) -> Seq<char> {
        match self {
            TextureType::Diffuse => "texture_diffuse"@,
            TextureType::Specular => "texture_specular"@,
            TextureType::Emission => "texture_emission"@,
            TextureType::Ambient => "texture_ambient"@,
            TextureType::Normal => "texture_normal"@,
        }
    }

    /// The types whose textures a mesh numbers and binds when it is drawn.
    pub open spec fn is_bindable(self) -> bool {
        self == TextureType::Diffuse || self == TextureType::Specular
    }

    /// The part of a sampler uniform's name that stands for the type.
    pub fn uniform_prefix(&self) -> (s: &'static str)
        ensures
            s@ == self.prefix(),
    {
        match self {
            TextureType::Diffuse => "texture_diffuse",
            TextureType::Specular => "texture_specular",
            TextureType::Emission => "texture_emission",
            TextureType::Ambient => "texture_ambient",
            TextureType::Normal => "texture_normal",
        }
    }

    /// Decides [`TextureType::is_bindable`].
    pub fn can_bind(&self) -> (b: bool)
        ensures
            b == self.is_bindable(),
    {
        match self {
            TextureType::Diffuse => true,
            TextureType::Specular => true,
            _ => false,
        }
    }
}

/// The character that stands for the decimal digit `d`.
pub open spec fn digit_char(d: nat) -> char
    recommends
        d < 10,
{
    if d == 0 {
        '0'
    } else if d == 1 {
        '1'
    } else if d == 2 {
        '2'
    } else if d == 3 {
        '3'
    } else if d == 4 {
        '4'
    } else if d == 5 {
        '5'
    } else if d == 6 {
        '6'
    } else if d == 7 {
        '7'
    } else if d == 8 {
        '8'
    } else {
        '9'
    }
}

/// The decimal numeral of `n`, without leading zeros.
pub open spec fn decimal(n: nat) -> Seq<char>
    decreases n,
{
    if n < 10 {
        seq![digit_char(n)]
    } else {
        decimal(n / 10).push(digit_char(n % 10))
    }
}

/// The name of the sampler uniform for the `number`-th texture of type `ty`:
/// the type's prefix followed by the number in decimal.
pub open spec fn uniform_name_spec(ty: TextureType, number: nat) -> Seq<char> {
    ty.prefix() + decimal(number)
}

fn digit_str(d: usize) -> (s: &'static str)
    requires
        d < 10,
    ensures
        s@ == seq![digit_char(d as nat)],
{
    proof {
        reveal_strlit("0");
        reveal_strlit("1");
        reveal_strlit("2");
        reveal_strlit("3");
        reveal_strlit("4");
        reveal_strlit("5");
        reveal_strlit("6");
        reveal_strlit("7");
        reveal_strlit("8");
        reveal_strlit("9");
    }
    match d {
        0 => "0",
        1 => "1",
        2 => "2",
        3 => "3",
        4 => "4",
        5 => "5",
        6 => "6",
        7 => "7",
        8 => "8",
        _ => "9",
    }
}

fn append_decimal(s: &mut String, n: usize)
    ensures
        final(s)@ == old(s)@ + decimal(n as nat),
    decreases n,
{
    if n >= 10 {
        append_decimal(s, n / 10);
    }
    s.append(digit_str(n % 10));
}

/// The name of the sampler uniform for the `number`-th texture of type `ty`.
pub fn uniform_name(ty: TextureType, number: usize) -> (s: String)
    ensures
        s@ == uniform_name_spec(ty, number as nat),
{
    let mut s = String::from_str(ty.uniform_prefix());
    append_decimal(&mut s, number);
    s
}

/// A texture that lives on the graphics device: its handle there, what it is
/// used for, and the path it was loaded from.
#[derive(Debug, PartialEq, Eq)]
pub struct Texture2D {
    pub id: u32,
    pub ty: TextureType,
    pub path: String,
}

impl Texture2D {
    /// The record of the texture that was uploaded under the handle `id` from
    /// the image at `path`.
    pub fn from_image(id: u32, path: &str, ty: TextureType) -> (t: Self)
        requires
            id != 0,
        ensures
            t.id == id,
            t.ty == ty,
            t.path@ == path@,
    {
        Texture2D { id, ty, path: String::from_str(path) }
    }
}

impl Clone for Texture2D {
    fn clone(&self) -> (t: Self)
        ensures
            t == *self,
    {
        Texture2D { id: self.id, ty: self.ty, path: self.path.clone() }
    }
}

/// The file that holds the image `path` of a model whose files lie in
/// `directory`.
pub open spec fn image_file_spec(path: Seq<char>, directory: Seq<char>) -> Seq<char> {
    directory + seq!['/'] + path
}

/// The file that holds the image `path` of a model whose files lie in
/// `directory`.
pub fn image_file(path: &str, directory: &str) -> (file: String)
    ensures
        file@ == image_file_spec(path@, directory@),
{
    proof {
        reveal_strlit("/");
    }
    let mut file = String::from_str(directory);
    file.append("/");
    file.append(path);
    file
}

/// How the pixels of a decoded image are laid out in memory.
#[derive(Clone, Copy, Debug, PartialEq, Eq, Structural)]
pub enum ColorLayout {
    /// One byte of luminance per pixel.
    Luma8,
    /// Luminance and alpha, one byte each.
    LumaA8,
    /// Red, green and blue, one byte each.
    Rgb8,
    /// Red, green, blue and alpha, one byte each.
    Rgba8,
    /// Any layout with wider channels.
    Other,
}

/// An image as the decoder hands it over.
#[derive(Debug, PartialEq, Eq)]
pub struct DecodedImage {
    pub layout: ColorLayout,
    pub width: u32,
    pub height: u32,
    /// The channels of the pixels, row after row from the top; empty where
    /// the layout is `Other`.
    pub pixels: Vec<u8>,
}

/// A [`DecodedImage`] as a mathematical value.
pub struct ImageData {
    pub layout: ColorLayout,
    pub width: u32,
    pub height: u32,
    pub pixels: Seq<u8>,
}

/// How many bytes one pixel of the layout takes; none where the layout is
/// `Other`, of which no pixels are kept.
pub open spec fn channel_count(layout: ColorLayout) -> nat {
    match layout {
        ColorLayout::Luma8 => 1,
        ColorLayout::LumaA8 => 2,
        ColorLayout::Rgb8 => 3,
        ColorLayout::Rgba8 => 4,
        ColorLayout::Other => 0,
    }
}

impl ImageData {
    /// Whether the pixels are at least as many bytes as the size and the
    /// layout ask for.
    pub open spec fn holds_every_pixel(self) -> bool {
        self.pixels.len() >= self.width * self.height * channel_count(self.layout)
    }
}

impl View for DecodedImage {
    type V = ImageData;

    open spec fn view(&self) -> ImageData {
        ImageData { layout: self.layout, width: self.width, height: self.height, pixels: self.pixels@ }
    }
}

/// What the graphics API is told when the pixels of an image are uploaded as
/// a two-dimensional texture.
#[derive(Debug, PartialEq, Eq)]
pub struct TextureUpload {
    /// The format of the pixel data.
    pub format: GlEnum,
    /// The format in which the device stores the texture.
    pub internal_format: i32,
    pub width: i32,
    pub height: i32,
    pub pixels: Vec<u8>,
}

/// A [`TextureUpload`] as a mathematical value.
pub struct UploadData {
    pub format: GlEnum,
    pub internal_format: i32,
    pub width: i32,
    pub height: i32,
    pub pixels: Seq<u8>,
}

/// How many bytes one pixel of the format takes, each channel being a byte.
pub open spec fn format_channels(format: GlEnum) -> nat {
    if format.0 == GL_RED {
        1
    } else if format.0 == GL_RG {
        2
    } else if format.0 == GL_RGB {
        3
    } else {
        4
    }
}

impl UploadData {
    /// Whether the pixels are at least as many bytes as the graphics API
    /// reads for the size and the format.
    pub open spec fn holds_every_pixel(self) -> bool {
        self.pixels.len() >= self.width * self.height * format_channels(self.format)
    }
}

impl View for TextureUpload {
    type V = UploadData;

    open spec fn view(&self) -> UploadData {
        UploadData {
            format: self.format,
            internal_format: self.internal_format,
            width: self.width,
            height: self.height,
            pixels: self.pixels@,
        }
    }
}

/// Why an image cannot become a texture.
#[derive(Clone, Copy, Debug, PartialEq, Eq, Structural)]
pub enum TextureError {
    /// The file name stands for no known image format, or the bytes are no
    /// image of that format.
    Undecodable,
    /// The pixels have a layout that no pixel format stands for: their
    /// channels are not one byte wide.
    UnsupportedLayout,
    /// The pixel format cannot serve as an internal format.
    NoInternalFormat,
    /// The width or the height does not fit the signed size of the API.
    TooLarge,
}

/// The pixel format that stands for a layout of one-byte channels.
pub open spec fn pixel_format_spec(layout: ColorLayout) -> GlEnum
    recommends
        layout != ColorLayout::Other,
{
    match layout {
        ColorLayout::Luma8 => GlEnum(GL_RED),
        ColorLayout::LumaA8 => GlEnum(GL_RG),
        ColorLayout::Rgb8 => GlEnum(GL_RGB),
        ColorLayout::Rgba8 => GlEnum(GL_RGBA),
        ColorLayout::Other => GlEnum(0),
    }
}

/// Why `img` cannot be uploaded, if it cannot. The layout is looked at first,
/// then the pixel format, then the size.
pub open spec fn upload_error(img: ImageData) -> Option<TextureError> {
    if img.layout == ColorLayout::Other {
        Some(TextureError::UnsupportedLayout)
    } else if !is_parameter_value(pixel_format_spec(img.layout)) {
        Some(TextureError::NoInternalFormat)
    } else if img.width > i32::MAX || img.height > i32::MAX {
        Some(TextureError::TooLarge)
    } else {
        None
    }
}

/// The upload of an image that [`upload_error`] finds no fault with: the
/// pixel format of its layout, the same number as internal format, its size
/// and its pixels.
pub open spec fn upload_data(img: ImageData) -> UploadData
    recommends
        upload_error(img) is None,
{
    UploadData {
        format: pixel_format_spec(img.layout),
        internal_format: pixel_format_spec(img.layout).0 as i32,
        width: img.width as i32,
        height: img.height as i32,
        pixels: img.pixels,
    }
}

/// What becomes of what a decoder returned: an error where it returned no
/// image or one that cannot be uploaded, else the upload of that image.
pub open spec fn upload_result(decoded: Option<ImageData>) -> Result<UploadData, TextureError> {
    match decoded {
        None => Err(TextureError::Undecodable),
        Some(img) => match upload_error(img) {
            Some(e) => Err(e),
            None => Ok(upload_data(img)),
        },
    }
}

/// The view of what a decoder returned.
pub open spec fn decoded_view(decoded: Option<DecodedImage>) -> Option<ImageData> {
    match decoded {
        Some(img) => Some(img@),
        None => None,
    }
}

/// The view of an upload or the error in its place.
pub open spec fn result_view(r: Result<TextureUpload, TextureError>) -> Result<
    UploadData,
    TextureError,
> {
    match r {
        Ok(upload) => Ok(upload@),
        Err(e) => Err(e),
    }
}

/// The pixel format that stands for a layout of one-byte channels.
pub fn pixel_format(layout: ColorLayout) -> (format: GlEnum)
    requires
        layout != ColorLayout::Other,
    ensures
        format == pixel_format_spec(layout),
{
    match layout {
        ColorLayout::Luma8 => GlEnum(GL_RED),
        ColorLayout::LumaA8 => GlEnum(GL_RG),
        ColorLayout::Rgb8 => GlEnum(GL_RGB),
        _ => GlEnum(GL_RGBA),
    }
}

/// Decides whether `img` can be uploaded, and says why not where it cannot.
pub fn upload_check(img: &DecodedImage) -> (e: Option<TextureError>)
    ensures
        e == upload_error(img@),
{
    match img.layout {
        ColorLayout::Other => Some(TextureError::UnsupportedLayout),
        layout => {
            if !has_parameter_value(pixel_format(layout)) {
                Some(TextureError::NoInternalFormat)
            } else if img.width > i32::MAX as u32 || img.height > i32::MAX as u32 {
                Some(TextureError::TooLarge)
            } else {
                None
            }
        },
    }
}

impl TextureUpload {
    /// The upload of an image that [`upload_error`] finds no fault with.
    pub fn from_decoded(img: DecodedImage) -> (upload: Self)
        requires
            upload_error(img@) is None,
        ensures
            upload@ == upload_data(img@),
    {
        let format = pixel_format(img.layout);
        TextureUpload {
            format,
            internal_format: crate::utils::glenum_to_i32(format),
            width: img.width as i32,
            height: img.height as i32,
            pixels: img.pixels,
        }
    }
}

/// The upload for what a decoder returned: an error where it returned no
/// image or one that cannot be uploaded, else the upload of that image.
pub fn upload_of(decoded: Option<DecodedImage>) -> (r: Result<TextureUpload, TextureError>)
    ensures
        result_view(r) == upload_result(decoded_view(decoded)),
{
    match decoded {
        None => Err(TextureError::Undecodable),
        Some(img) => match upload_check(&img) {
            Some(e) => Err(e),
            None => Ok(TextureUpload::from_decoded(img)),
        },
    }
}

/// Whether `r` is what becomes of some outcome of a decoder that hands over
/// every pixel of the images it decodes.
pub open spec fn is_decoding_result(r: Result<UploadData, TextureError>) -> bool {
    exists|decoded: Option<ImageData>|
        (decoded matches Some(img) ==> img.holds_every_pixel()) && r == #[trigger] upload_result(
            decoded,
        )
}

/// Every upload has a pixel format that also serves as the internal format,
/// and a size that is not negative.
pub proof fn lemma_upload_is_valid(decoded: Option<ImageData>)
    ensures
        upload_result(decoded) matches Ok(upload) ==> {
            &&& upload.format.0 == GL_RED || upload.format.0 == GL_RGB
            &&& upload.internal_format == upload.format.0
            &&& upload.width >= 0
            &&& upload.height >= 0
        },
{
}

/// The upload of a decoded image that holds every pixel holds every pixel
/// that the graphics API reads.
pub proof fn lemma_upload_holds_every_pixel(r: Result<UploadData, TextureError>)
    requires
        is_decoding_result(r),
    ensures
        r matches Ok(upload) ==> upload.holds_every_pixel(),
{
}

/// An image format of the `image` crate, which the library hands from the
/// one call to the other and never looks into.
#[verifier::external_type_specification]
#[verifier::external_body]
pub struct ExImageFormat(image::ImageFormat);

/// Calls `image::ImageFormat::from_path`, which reads the format off the
/// extension of the file name. Nothing is claimed of the result: where a file
/// name ends and its extension begins differs between systems.
#[verifier::external_body]
fn format_of_path(filename: &str) -> (format: Option<image::ImageFormat>) {
    image::ImageFormat::from_path(filename).ok()
}

/// Calls `image::load_from_memory_with_format`, which decodes `bytes` as an
/// image of the given format, and takes the layout, the size and, where the
/// channels are one byte wide, the pixels out of the image it returns. Which
/// pixels come out may differ from machine to machine, so the contract
/// claims only what the image buffer of the crate holds of itself: it has a
/// byte for every channel of every pixel. The JPEG decoder behind the call
/// fails an assertion on a lossless frame whose samples are not eight bits
/// wide, so such bytes are left out.
#[verifier::external_body]
fn decode_as(bytes: &[u8], format: image::ImageFormat) -> (decoded: Option<DecodedImage>)
    requires
        !is_wide_jpeg(bytes@),
    ensures
        decoded matches Some(img) ==> img@.holds_every_pixel(),
{
    let img = image::load_from_memory_with_format(bytes, format).ok()?;
    let (width, height) = (img.width(), img.height());
    let (layout, pixels) = match img {
        image::DynamicImage::ImageLuma8(buffer) => (ColorLayout::Luma8, buffer.into_raw()),
        image::DynamicImage::ImageLumaA8(buffer) => (ColorLayout::LumaA8, buffer.into_raw()),
        image::DynamicImage::ImageRgb8(buffer) => (ColorLayout::Rgb8, buffer.into_raw()),
        image::DynamicImage::ImageRgba8(buffer) => (ColorLayout::Rgba8, buffer.into_raw()),
        _ => (ColorLayout::Other, Vec::new()),
    };
    Some(DecodedImage { layout, width, height, pixels })
}

/// An error is what becomes of a decoded image that cannot be uploaded.
proof fn lemma_unsupported_is_decoding_result()
    ensures
        is_decoding_result(Err(TextureError::UnsupportedLayout)),
{
    let img = ImageData { layout: ColorLayout::Other, width: 0, height: 0, pixels: Seq::empty() };
    assert(upload_result(Some(img)) == Err::<UploadData, TextureError>(
        TextureError::UnsupportedLayout,
    ));
}

/// Decodes `bytes` as an image of the given format and prepares the upload
/// of the image. A JPEG file whose first frame is lossless with samples that
/// are not eight bits wide has a layout that cannot be uploaded, and is not
/// handed to the decoder. Of any other bytes the result is what [`upload_of`]
/// returns for what the decoder makes of them.
pub fn decode_texture_as(bytes: &[u8], format: image::ImageFormat) -> (r: Result<
    TextureUpload,
    TextureError,
>)
    ensures
        is_wide_jpeg(bytes@) ==> r == Err::<TextureUpload, TextureError>(
            TextureError::UnsupportedLayout,
        ),
        is_decoding_result(result_view(r)),
        r matches Ok(upload) ==> upload@.holds_every_pixel(),
{
    if has_wide_frame(bytes) {
        proof {
            lemma_unsupported_is_decoding_result();
        }
        return Err(TextureError::UnsupportedLayout);
    }
    upload_of(decode_as(bytes, format))
}

/// Decodes `bytes` as an image of the format `format` and prepares the
/// upload of the image. Without a format the image is undecodable; with one
/// the result is that of [`decode_texture_as`].
pub fn decode_texture_in(bytes: &[u8], format: Option<image::ImageFormat>) -> (r: Result<
    TextureUpload,
    TextureError,
>)
    ensures
        format is None ==> r == Err::<TextureUpload, TextureError>(TextureError::Undecodable),
        format is Some && is_wide_jpeg(bytes@) ==> r == Err::<TextureUpload, TextureError>(
            TextureError::UnsupportedLayout,
        ),
        is_decoding_result(result_view(r)),
        r matches Ok(upload) ==> upload@.holds_every_pixel(),
{
    match format {
        None => {
            assert(result_view(Err::<TextureUpload, TextureError>(TextureError::Undecodable))
                == upload_result(None));
            Err(TextureError::Undecodable)
        },
        Some(format) => decode_texture_as(bytes, format),
    }
}

/// Decodes the contents `bytes` of the image file `filename`, whose extension
/// tells the format, and prepares the upload of the image. [`decode_texture_in`]
/// says what the result is for the format that the extension tells.
pub fn decode_texture(bytes: &[u8], filename: &str) -> (r: Result<TextureUpload, TextureError>)
    ensures
        is_decoding_result(result_view(r)),
        r matches Ok(upload) ==> upload@.holds_every_pixel(),
{
    decode_texture_in(bytes, format_of_path(filename))
}

} // verus!
