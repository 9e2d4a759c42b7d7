//! Icons and names of executables, prepared for display.
//!
//! The embedding program reads the bitmap of an icon and the version
//! resource of an executable; this module turns the bitmap into the base64
//! text of a PNG image and finds the display name in the resource.

use vstd::prelude::*;
use vstd::slice::slice_subrange;
use vstd::string::StringExecFns;
use crate::text::{decode_utf16, text_of, utf16_text};

verus! {

/// The PNG file that encodes an image of `width` by `height` pixels with
/// the colour samples `rgba`, four to a pixel, row by row from the top; or
/// `None` where the encoder refuses the image.
pub uninterp spec fn png_encoding(width: u32, height: u32, rgba: Seq<u8>) -> Option<Seq<u8>>;

/// The standard base64 text of `bytes`, with padding.
pub uninterp spec fn base64_text(bytes: Seq<u8>) -> Seq<char>;

/// `ImageError` of the `image` crate: why an image could not be written.
/// Nothing is claimed of its contents.
#[verifier::external_type_specification]
#[verifier::external_body]
pub struct ExImageError(image::ImageError);

/// `write_buffer_with_format` of the `image` crate, with eight-bit RGBA
/// samples, the PNG format and a buffer in memory as the target: the bytes
/// written are the PNG encoding of the image, and the call fails exactly
/// where there is none. The call panics where the samples are not four for
/// each pixel, which the bound excludes.
#[verifier::external_body]
fn encode_png(width: u32, height: u32, rgba: &Vec<u8>) -> (r: Result<Vec<u8>, image::ImageError>)
    requires
        rgba.len() == width * height * 4,
    ensures
        match r {
            Ok(png) => png_encoding(width, height, rgba@) == Some(png@),
            Err(_) => png_encoding(width, height, rgba@) is None,
        },
{
    let mut png: Vec<u8> = Vec::new();
    image::write_buffer_with_format(
        &mut std::io::Cursor::new(&mut png),
        rgba,
        width,
        height,
        image::ExtendedColorType::Rgba8,
        image::ImageFormat::Png,
    )?;
    Ok(png)
}

/// `Engine::encode` of the `base64` crate on its `STANDARD` engine: the
/// result is the standard base64 text of the bytes. The call panics where
/// the length of that text does not fit a `usize`, which the bound excludes.
#[verifier::external_body]
fn encode_base64(bytes: &Vec<u8>) -> (r: String)
    requires
        bytes.len() / 3 * 4 + 4 <= usize::MAX,
    ensures
        r@ == base64_text(bytes@),
{
    base64::Engine::encode(&base64::engine::general_purpose::STANDARD, bytes)
}

/// The bitmap of an icon: 32 bits per pixel, rows from the top, each pixel
/// as blue, green, red and alpha.
#[derive(Clone, Debug, PartialEq, Eq)]
pub struct IconBitmap {
    pub width: u32,
    pub height: u32,
    pub pixels: Vec<u8>,
}

/// An [`IconBitmap`] with its pixels as a sequence of bytes.
pub struct IconBitmapView {
    pub width: u32,
    pub height: u32,
    pub pixels: Seq<u8>,
}

impl View for IconBitmap {
    type V = IconBitmapView;

    open spec fn view(&self) -> IconBitmapView {
        IconBitmapView { width: self.width, height: self.height, pixels: self.pixels@ }
    }
}

/// The extent of a bitmap whose header gives `bi_width` and `bi_height`:
/// the width, and the height without its sign, which only tells whether the
/// rows run from the bottom. A bitmap without width or height has no extent.
pub open spec fn extent_of(bi_width: i32, bi_height: i32) -> Option<(u32, u32)> {
    if bi_width <= 0 || bi_height == 0 {
        None
    } else if bi_height < 0 {
        Some((bi_width as u32, (-bi_height) as u32))
    } else {
        Some((bi_width as u32, bi_height as u32))
    }
}

/// The extent of a bitmap from the width and height of its header.
pub fn bitmap_extent(bi_width: i32, bi_height: i32) -> (r: Option<(u32, u32)>)
    ensures
        r == extent_of(bi_width, bi_height),
{
    if bi_width <= 0 || bi_height == 0 {
        None
    } else if bi_height == i32::MIN {
        Some((bi_width as u32, 0x8000_0000u32))
    } else if bi_height < 0 {
        Some((bi_width as u32, (-bi_height) as u32))
    } else {
        Some((bi_width as u32, bi_height as u32))
    }
}

/// The number of bytes that the pixels of a bitmap take, four to a pixel,
/// or `None` where that number does not fit the address space.
pub fn pixel_buffer_len(width: u32, height: u32) -> (r: Option<usize>)
    ensures
        width * height * 4 <= usize::MAX ==> r == Some((width * height * 4) as usize),
        width * height * 4 > usize::MAX ==> r is None,
{
    assert(width * height <= 0xFFFF_FFFF * 0xFFFF_FFFF) by (nonlinear_arith)
        requires
            width <= 0xFFFF_FFFF,
            height <= 0xFFFF_FFFF,
    ;
    let pixels: u64 = (width as u64) * (height as u64);
    if pixels > (usize::MAX / 4) as u64 {
        None
    } else {
        Some((pixels * 4) as usize)
    }
}

/// The byte at position `k` after the channels of each complete pixel were
/// reordered from blue, green, red, alpha to red, green, blue, alpha.
pub open spec fn reordered_byte(bgra: Seq<u8>, k: int) -> u8 {
    if k - k % 4 + 4 > bgra.len() {
        bgra[k]
    } else if k % 4 == 0 {
        bgra[k + 2]
    } else if k % 4 == 2 {
        bgra[k - 2]
    } else {
        bgra[k]
    }
}

/// The pixels with red and blue exchanged in each complete pixel.
pub open spec fn rgba_of(bgra: Seq<u8>) -> Seq<u8> {
    Seq::new(bgra.len(), |k: int| reordered_byte(bgra, k))
}

/// Reorders the channels of each pixel from blue, green, red, alpha to
/// red, green, blue, alpha. Bytes after the last complete pixel are kept.
pub fn bgra_to_rgba(bgra: &Vec<u8>) -> (rgba: Vec<u8>)
    ensures
        rgba@ == rgba_of(bgra@),
{
    let len: usize = bgra.len();
    let mut rgba: Vec<u8> = Vec::with_capacity(len);
    let mut k: usize = 0;
    while len - k >= 4
        invariant
            len == bgra.len(),
            k <= len,
            k % 4 == 0,
            rgba.len() == k,
            forall|j: int| 0 <= j < k ==> rgba[j] == reordered_byte(bgra@, j),
        decreases len - k,
    {
        rgba.push(bgra[k + 2]);
        rgba.push(bgra[k + 1]);
        rgba.push(bgra[k]);
        rgba.push(bgra[k + 3]);
        k = k + 4;
    }
    while k < len
        invariant
            len == bgra.len(),
            k <= len,
            len - (k - k % 4) < 4,
            rgba.len() == k,
            forall|j: int| 0 <= j < k ==> rgba[j] == reordered_byte(bgra@, j),
        decreases len - k,
    {
        rgba.push(bgra[k]);
        k = k + 1;
    }
    assert(rgba@ =~= rgba_of(bgra@));
    rgba
}

/// Whether a bitmap can be drawn: it has width and height, and holds
/// exactly four bytes for each of its pixels.
pub open spec fn is_drawable(bitmap: IconBitmapView) -> bool {
    &&& bitmap.width != 0
    &&& bitmap.height != 0
    &&& bitmap.pixels.len() == bitmap.width * bitmap.height * 4
}

/// Whether the base64 text of `len` bytes fits a string.
pub open spec fn fits_base64(len: nat) -> bool {
    len / 3 * 4 + 4 <= usize::MAX
}

/// The text that stands for an encoded icon: the base64 text of the PNG
/// file, or none where there is no file or its text would not fit.
pub open spec fn png_text(png: Option<Seq<u8>>) -> Option<Seq<char>> {
    match png {
        Some(bytes) => if fits_base64(bytes.len()) {
            Some(base64_text(bytes))
        } else {
            None
        },
        None => None,
    }
}

/// The icon text of a bitmap: that of its PNG encoding where it can be
/// drawn, none where it cannot.
pub open spec fn icon_text(bitmap: IconBitmapView) -> Option<Seq<char>> {
    if is_drawable(bitmap) {
        png_text(png_encoding(bitmap.width, bitmap.height, rgba_of(bitmap.pixels)))
    } else {
        None
    }
}

/// The base64 text of an encoded icon, or `None` where there is no
/// encoding or its text would not fit a string.
pub fn png_to_base64(png: Option<Vec<u8>>) -> (r: Option<String>)
    ensures
        text_of(r) == png_text(
            match png {
                Some(bytes) => Some(bytes@),
                None => None,
            },
        ),
{
    match png {
        Some(bytes) => {
            if bytes.len() / 3 <= (usize::MAX - 4) / 4 {
                Some(encode_base64(&bytes))
            } else {
                None
            }
        },
        None => None,
    }
}

/// Turns the bitmap of an icon into the base64 text of a PNG image. A
/// bitmap that cannot be drawn, or that the encoder refuses, gives `None`.
pub fn hicon_to_base64_png(bitmap: &IconBitmap) -> (r: Option<String>)
    ensures
        text_of(r) == icon_text(bitmap@),
{
    if bitmap.width == 0 || bitmap.height == 0 {
        return None;
    }
    match pixel_buffer_len(bitmap.width, bitmap.height) {
        Some(len) => {
            if bitmap.pixels.len() != len {
                return None;
            }
        },
        None => {
            assert(bitmap.pixels.len() <= usize::MAX);
            return None;
        },
    }
    let rgba = bgra_to_rgba(&bitmap.pixels);
    let png = match encode_png(bitmap.width, bitmap.height, &rgba) {
        Ok(bytes) => Some(bytes),
        Err(_) => None,
    };
    png_to_base64(png)
}

/// The icon of an executable as base64 text of a PNG image, from the
/// bitmap of its icon; `None` where the executable has no icon.
pub fn extract_icon_base64(icon: Option<&IconBitmap>) -> (r: Option<String>)
    ensures
        text_of(r) == match icon {
            Some(bitmap) => icon_text(bitmap@),
            None => None,
        },
{
    match icon {
        Some(bitmap) => hicon_to_base64_png(bitmap),
        None => None,
    }
}

/// The language of a translation entry: its low 16 bits.
pub open spec fn language_of(translation: u32) -> u16 {
    (translation % 0x1_0000) as u16
}

/// The code page of a translation entry: its high 16 bits.
pub open spec fn code_page_of(translation: u32) -> u16 {
    (translation / 0x1_0000) as u16
}

/// The first translation entry of a translation block, read as a
/// little-endian number, or `None` where the block is shorter than one entry.
pub open spec fn translation_of(block: Seq<u8>) -> Option<u32> {
    if block.len() >= 4 {
        Some((block[0] + block[1] * 0x100 + block[2] * 0x1_0000 + block[3] * 0x100_0000) as u32)
    } else {
        None
    }
}

/// The first translation entry of a translation block.
pub fn first_translation(block: &Vec<u8>) -> (r: Option<u32>)
    ensures
        r == translation_of(block@),
{
    if block.len() >= 4 {
        let low: u32 = block[0] as u32 + block[1] as u32 * 0x100;
        let high: u32 = block[2] as u32 + block[3] as u32 * 0x100;
        Some(low + high * 0x1_0000)
    } else {
        None
    }
}

/// The lower-case hexadecimal digit of a number below 16.
pub open spec fn hex_digit_of(n: u16) -> char {
    if n == 0 {
        '0'
    } else if n == 1 {
        '1'
    } else if n == 2 {
        '2'
    } else if n == 3 {
        '3'
    } else if n == 4 {
        '4'
    } else if n == 5 {
        '5'
    } else if n == 6 {
        '6'
    } else if n == 7 {
        '7'
    } else if n == 8 {
        '8'
    } else if n == 9 {
        '9'
    } else if n == 10 {
        'a'
    } else if n == 11 {
        'b'
    } else if n == 12 {
        'c'
    } else if n == 13 {
        'd'
    } else if n == 14 {
        'e'
    } else {
        'f'
    }
}

/// The four lower-case hexadecimal digits of a 16-bit number.
pub open spec fn hex4_of(value: u16) -> Seq<char> {
    seq![
        hex_digit_of(value / 0x1000),
        hex_digit_of(value / 0x100 % 0x10),
        hex_digit_of(value / 0x10 % 0x10),
        hex_digit_of(value % 0x10),
    ]
}

/// The name of the string of the version resource that holds the file
/// description in the language and code page of `translation`.
pub open spec fn sub_block_of(translation: u32) -> Seq<char> {
    "\\StringFileInfo\\"@ + hex4_of(language_of(translation)) + hex4_of(
        code_page_of(translation),
    ) + "\\FileDescription"@
}

/// The text of one hexadecimal digit.
fn hex_digit(n: u16) -> (digit: &'static str)
    requires
        n < 16,
    ensures
        digit@ == seq![hex_digit_of(n)],
{
    proof {
        reveal_strlit("0");
        reveal_strlit("1");
        reveal_strlit("2");
        reveal_strlit("3");
        reveal_strlit("4");
        reveal_strlit("5");
        reveal_strlit("6");
        reveal_strlit("7");
        reveal_strlit("8");
        reveal_strlit("9");
        reveal_strlit("a");
        reveal_strlit("b");
        reveal_strlit("c");
        reveal_strlit("d");
        reveal_strlit("e");
        reveal_strlit("f");
    }
    let digit = if n == 0 {
        "0"
    } else if n == 1 {
        "1"
    } else if n == 2 {
        "2"
    } else if n == 3 {
        "3"
    } else if n == 4 {
        "4"
    } else if n == 5 {
        "5"
    } else if n == 6 {
        "6"
    } else if n == 7 {
        "7"
    } else if n == 8 {
        "8"
    } else if n == 9 {
        "9"
    } else if n == 10 {
        "a"
    } else if n == 11 {
        "b"
    } else if n == 12 {
        "c"
    } else if n == 13 {
        "d"
    } else if n == 14 {
        "e"
    } else {
        "f"
    };
    assert(digit@ =~= seq![hex_digit_of(n)]);
    digit
}

/// Appends the four hexadecimal digits of `value`.
fn push_hex4(text: &mut String, value: u16)
    ensures
        final(text)@ == old(text)@ + hex4_of(value),
{
    text.append(hex_digit(value / 0x1000));
    text.append(hex_digit(value / 0x100 % 0x10));
    text.append(hex_digit(value / 0x10 % 0x10));
    text.append(hex_digit(value % 0x10));
    assert(text@ =~= old(text)@ + hex4_of(value));
}

/// The name of the string to ask the version resource for, given a
/// translation entry of that resource.
pub fn description_sub_block(translation: u32) -> (name: String)
    ensures
        name@ == sub_block_of(translation),
{
    let language: u16 = (translation % 0x1_0000) as u16;
    let code_page: u16 = (translation / 0x1_0000) as u16;
    let mut name = String::from_str("\\StringFileInfo\\");
    push_hex4(&mut name, language);
    push_hex4(&mut name, code_page);
    name.append("\\FileDescription");
    name
}

/// The name that a string value of the version resource holds: the text of
/// its code units before the terminator that ends it. An empty value, or one
/// that is no UTF-16, holds no name.
pub open spec fn name_of(value: Seq<u16>) -> Option<Seq<char>> {
    if value.len() == 0 {
        None
    } else {
        utf16_text(value.drop_last())
    }
}

/// The display name of an executable, from the string value that its
/// version resource gave for the file description.
pub fn extract_product_name(value: &Vec<u16>) -> (r: Option<String>)
    ensures
        text_of(r) == name_of(value@),
{
    if value.len() == 0 {
        None
    } else {
        let units = slice_subrange(value.as_slice(), 0, value.len() - 1);
        assert(units@ == value@.drop_last());
        decode_utf16(units)
    }
}

} // verus!
