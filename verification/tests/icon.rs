use audio_mixer::icon::{
    bgra_to_rgba, bitmap_extent, description_sub_block, extract_icon_base64, extract_product_name,
    first_translation, hicon_to_base64_png, pixel_buffer_len, png_to_base64, IconBitmap,
};
use audio_mixer::text::path_file_name;
use base64::Engine;

fn wide(text: &str) -> Vec<u16> {
    text.encode_utf16().collect()
}

fn decoded(text: &str) -> image::RgbaImage {
    let png = base64::engine::general_purpose::STANDARD.decode(text).unwrap();
    image::load_from_memory_with_format(&png, image::ImageFormat::Png).unwrap().to_rgba8()
}

#[test]
fn channels_of_each_pixel_are_reordered() {
    assert_eq!(bgra_to_rgba(&vec![1, 2, 3, 4, 5, 6, 7, 8]), vec![3, 2, 1, 4, 7, 6, 5, 8]);
    assert_eq!(bgra_to_rgba(&vec![]), Vec::<u8>::new());
}

#[test]
fn bytes_after_the_last_complete_pixel_are_kept() {
    assert_eq!(bgra_to_rgba(&vec![1, 2, 3, 4, 5, 6, 7]), vec![3, 2, 1, 4, 5, 6, 7]);
    assert_eq!(bgra_to_rgba(&vec![9, 8]), vec![9, 8]);
}

#[test]
fn icon_is_a_png_with_the_pixels_of_the_bitmap() {
    let bitmap = IconBitmap {
        width: 2,
        height: 1,
        pixels: vec![10, 20, 30, 255, 40, 50, 60, 128],
    };
    let text = hicon_to_base64_png(&bitmap).unwrap();
    assert!(text.starts_with("iVBORw0KGgo"));
    let image = decoded(&text);
    assert_eq!(image.dimensions(), (2, 1));
    assert_eq!(image.get_pixel(0, 0).0, [30, 20, 10, 255]);
    assert_eq!(image.get_pixel(1, 0).0, [60, 50, 40, 128]);
    assert_eq!(extract_icon_base64(Some(&bitmap)), Some(text));
}

#[test]
fn rows_of_the_icon_run_from_the_top() {
    let bitmap = IconBitmap {
        width: 1,
        height: 2,
        pixels: vec![0, 0, 255, 255, 255, 0, 0, 255],
    };
    let image = decoded(&hicon_to_base64_png(&bitmap).unwrap());
    assert_eq!(image.dimensions(), (1, 2));
    assert_eq!(image.get_pixel(0, 0).0, [255, 0, 0, 255]);
    assert_eq!(image.get_pixel(0, 1).0, [0, 0, 255, 255]);
}

#[test]
fn bitmap_that_cannot_be_drawn_gives_no_icon() {
    assert_eq!(hicon_to_base64_png(&IconBitmap { width: 0, height: 1, pixels: vec![] }), None);
    assert_eq!(hicon_to_base64_png(&IconBitmap { width: 1, height: 0, pixels: vec![] }), None);
    assert_eq!(hicon_to_base64_png(&IconBitmap { width: 1, height: 1, pixels: vec![] }), None);
    assert_eq!(
        hicon_to_base64_png(&IconBitmap { width: 1, height: 1, pixels: vec![1, 2, 3] }),
        None
    );
    assert_eq!(
        hicon_to_base64_png(&IconBitmap { width: 1, height: 1, pixels: vec![0; 8] }),
        None
    );
    assert_eq!(
        hicon_to_base64_png(&IconBitmap { width: u32::MAX, height: u32::MAX, pixels: vec![0; 4] }),
        None
    );
    assert_eq!(extract_icon_base64(None), None);
}

#[test]
fn encoded_icon_becomes_standard_base64_with_padding() {
    assert_eq!(png_to_base64(Some(b"hello".to_vec())), Some("aGVsbG8=".to_string()));
    assert_eq!(png_to_base64(Some(vec![0xfb, 0xff])), Some("+/8=".to_string()));
    assert_eq!(png_to_base64(Some(vec![])), Some(String::new()));
    assert_eq!(png_to_base64(None), None);
}

#[test]
fn extent_drops_the_sign_of_the_height() {
    assert_eq!(bitmap_extent(32, 32), Some((32, 32)));
    assert_eq!(bitmap_extent(32, -48), Some((32, 48)));
    assert_eq!(bitmap_extent(1, i32::MIN), Some((1, 2147483648)));
    assert_eq!(bitmap_extent(0, 32), None);
    assert_eq!(bitmap_extent(32, 0), None);
    assert_eq!(bitmap_extent(-1, 32), None);
}

#[test]
fn pixel_buffer_takes_four_bytes_for_each_pixel() {
    assert_eq!(pixel_buffer_len(32, 32), Some(4096));
    assert_eq!(pixel_buffer_len(0, 7), Some(0));
    assert_eq!(pixel_buffer_len(3, 5), Some(60));
    assert_eq!(pixel_buffer_len(u32::MAX, u32::MAX), None);
}

#[test]
fn sub_block_names_language_and_code_page_in_hexadecimal() {
    assert_eq!(
        description_sub_block(0x04b0_0409),
        "\\StringFileInfo\\040904b0\\FileDescription"
    );
    assert_eq!(
        description_sub_block(0xabcd_ef12),
        "\\StringFileInfo\\ef12abcd\\FileDescription"
    );
    assert_eq!(description_sub_block(0), "\\StringFileInfo\\00000000\\FileDescription");
    assert_eq!(description_sub_block(u32::MAX), "\\StringFileInfo\\ffffffff\\FileDescription");
    assert_eq!(description_sub_block(0x0001_000a), "\\StringFileInfo\\000a0001\\FileDescription");
}

#[test]
fn translation_is_read_from_the_first_four_bytes() {
    assert_eq!(first_translation(&vec![0x09, 0x04, 0xb0, 0x04]), Some(0x04b0_0409));
    assert_eq!(first_translation(&vec![0xff, 0xff, 0xff, 0xff, 1, 2]), Some(u32::MAX));
    assert_eq!(first_translation(&vec![1, 0, 0, 0, 9, 9, 9, 9]), Some(1));
    assert_eq!(first_translation(&vec![0x09, 0x04, 0xb0]), None);
    assert_eq!(first_translation(&vec![]), None);
}

#[test]
fn product_name_is_the_value_without_its_terminator() {
    let mut value = wide("Fine Player");
    value.push(0);
    assert_eq!(extract_product_name(&value), Some("Fine Player".to_string()));
    assert_eq!(extract_product_name(&vec![0]), Some(String::new()));
    assert_eq!(extract_product_name(&wide("ab")), Some("a".to_string()));
    assert_eq!(extract_product_name(&vec![0xD83D, 0xDE00, 0]), Some("\u{1F600}".to_string()));
}

#[test]
fn empty_or_malformed_value_holds_no_product_name() {
    assert_eq!(extract_product_name(&vec![]), None);
    assert_eq!(extract_product_name(&vec![0xD800, 0x0041, 0]), None);
    assert_eq!(extract_product_name(&vec![0x0041, 0xDC00, 0]), None);
}

#[test]
fn file_name_is_what_follows_the_last_separator() {
    assert_eq!(path_file_name("C:\\Windows\\System32\\audiodg.exe"), "audiodg.exe");
    assert_eq!(path_file_name("audiodg.exe"), "audiodg.exe");
    assert_eq!(path_file_name("C:\\dir\\"), "");
    assert_eq!(path_file_name(""), "");
    assert_eq!(path_file_name("\\"), "");
    assert_eq!(path_file_name("C:/dir/app.exe"), "C:/dir/app.exe");
    assert_eq!(path_file_name("C:\\ü\\音.exe"), "音.exe");
}
