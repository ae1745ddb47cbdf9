use base64::Engine;
use media_fetcher::art::album_art_data_uri;
use media_fetcher::art::album_art_response;
use media_fetcher::art::art_file_path;
use media_fetcher::art::render_album_art;
use media_fetcher::art::scaled_dimensions;
use media_fetcher::fetcher::LinuxCall;
use media_fetcher::fetcher::LinuxMediaFetcher;
use media_fetcher::protocol::parse_request;

fn png_of(width: u32, height: u32, pixel: image::Rgba<u8>) -> Vec<u8> {
    let img = image::DynamicImage::ImageRgba8(image::RgbaImage::from_pixel(width, height, pixel));
    let mut bytes = Vec::new();
    img.write_to(&mut std::io::Cursor::new(&mut bytes), image::ImageFormat::Png)
        .unwrap();
    bytes
}

fn respond(bytes: &Vec<u8>, strip: bool) -> Option<String> {
    album_art_response(bytes, strip).map(|(_, line)| line)
}

fn decoded_dimensions(line: &str) -> (u32, u32) {
    let prefix = "{\"type\":\"AlbumArt\",\"data\":\"data:image/png;base64,";
    assert!(line.starts_with(prefix), "unexpected line shape: {}", line);
    assert!(line.ends_with("\"}"));
    let b64 = &line[prefix.len()..line.len() - 2];
    let png = base64::prelude::BASE64_STANDARD.decode(b64).unwrap();
    let img = image::load_from_memory(&png).unwrap();
    (img.width(), img.height())
}

#[test]
fn within_limit_needs_no_scaling() {
    assert_eq!(scaled_dimensions(1000, 1000), None);
    assert_eq!(scaled_dimensions(1, 1), None);
    assert_eq!(scaled_dimensions(999, 1000), None);
}

#[test]
fn long_edge_becomes_exactly_one_thousand() {
    assert_eq!(scaled_dimensions(2000, 1000), Some((1000, 500)));
    assert_eq!(scaled_dimensions(500, 2000), Some((250, 1000)));
    assert_eq!(scaled_dimensions(4000, 4000), Some((1000, 1000)));
}

#[test]
fn short_edge_is_rounded() {
    // 1000 * 1000 / 1500 is 666.67, which rounds up.
    assert_eq!(scaled_dimensions(1500, 1000), Some((1000, 667)));
    assert_eq!(scaled_dimensions(1000, 1500), Some((667, 1000)));
    // 1000 * 1000 / 1001 is 999.001, which rounds down.
    assert_eq!(scaled_dimensions(1001, 1000), Some((1000, 999)));
}

#[test]
fn sliver_images_keep_one_pixel() {
    assert_eq!(scaled_dimensions(5000, 1), Some((1000, 1)));
}

#[test]
fn art_file_path_reads_file_urls() {
    assert_eq!(
        art_file_path("file:///tmp/a%20b.png"),
        Some(b"/tmp/a b.png".to_vec())
    );
    assert_eq!(art_file_path("file:///plain.png"), Some(b"/plain.png".to_vec()));
    // A percent sign without two hexadecimal digits passes through.
    assert_eq!(art_file_path("file:///a%zz"), Some(b"/a%zz".to_vec()));
    assert_eq!(art_file_path("https://example.invalid/x.png"), None);
    assert_eq!(art_file_path(""), None);
}

#[test]
fn data_uri_wraps_standard_base64() {
    assert_eq!(album_art_data_uri(&b"abc".to_vec()), "data:image/png;base64,YWJj");
    assert_eq!(album_art_data_uri(&vec![0xFF]), "data:image/png;base64,/w==");
    assert_eq!(album_art_data_uri(&Vec::new()), "data:image/png;base64,");
}

#[test]
fn oversized_art_is_scaled_to_the_limit() {
    let bytes = png_of(2000, 1000, image::Rgba([10, 20, 30, 255]));
    let line = respond(&bytes, false).unwrap();
    assert_eq!(decoded_dimensions(&line), (1000, 500));
}

#[test]
fn rendered_dimensions_match_the_true_image() {
    let bytes = png_of(2000, 1000, image::Rgba([10, 20, 30, 255]));
    let (png, dims) = render_album_art(&bytes, false).unwrap();
    assert_eq!(dims, (1000, 500));
    let img = image::load_from_memory(&png).unwrap();
    assert_eq!((img.width(), img.height()), dims);
}

#[test]
fn tall_art_is_scaled_on_its_long_edge() {
    let bytes = png_of(500, 2000, image::Rgba([1, 2, 3, 255]));
    let line = respond(&bytes, false).unwrap();
    assert_eq!(decoded_dimensions(&line), (250, 1000));
}

#[test]
fn small_art_keeps_its_size() {
    let bytes = png_of(300, 200, image::Rgba([1, 2, 3, 255]));
    let line = respond(&bytes, false).unwrap();
    assert_eq!(decoded_dimensions(&line), (300, 200));
}

#[test]
fn watermarked_art_is_cropped() {
    // A fully transparent black top-left pixel marks the watermark.
    let bytes = png_of(300, 300, image::Rgba([0, 0, 0, 0]));
    let line = respond(&bytes, true).unwrap();
    assert_eq!(decoded_dimensions(&line), (233, 233));
}

#[test]
fn unmarked_art_is_not_cropped() {
    let bytes = png_of(300, 300, image::Rgba([5, 5, 5, 255]));
    let line = respond(&bytes, true).unwrap();
    assert_eq!(decoded_dimensions(&line), (300, 300));
}

#[test]
fn crop_only_applies_when_asked() {
    let bytes = png_of(300, 300, image::Rgba([0, 0, 0, 0]));
    let line = respond(&bytes, false).unwrap();
    assert_eq!(decoded_dimensions(&line), (300, 300));
}

#[test]
fn undecodable_bytes_give_no_response() {
    assert!(album_art_response(&b"not an image".to_vec(), false).is_none());
    assert!(render_album_art(&Vec::new(), false).is_none());
}

#[test]
fn play_then_get_album_art_end_to_end() {
    // The first line is a pure side effect: a transport call, no response.
    let play = parse_request("{\"type\":\"Play\"}").unwrap();
    let plan = LinuxMediaFetcher::plan(&play, true);
    assert_eq!(plan, Ok(LinuxCall::PlayPause));

    // The second asks for art; once the source resolves to image bytes,
    // exactly one AlbumArt response comes back.
    let art = parse_request("{\"type\":\"GetAlbumArt\"}").unwrap();
    assert_eq!(LinuxMediaFetcher::plan(&art, true), Ok(LinuxCall::FetchArtUrl));
    let bytes = png_of(64, 64, image::Rgba([9, 9, 9, 255]));
    let response = respond(&bytes, false);
    assert!(response.is_some());
    let line = response.unwrap();
    assert!(line.starts_with("{\"type\":\"AlbumArt\",\"data\":\"data:image/png;base64,"));
    assert!(!line.contains('\n'));
}

#[test]
fn floating_sample_art_is_refused() {
    // EXR covers decode to floating-point samples, the one family the PNG
    // encoder refuses; rendering owes nothing for them.
    let img = image::DynamicImage::ImageRgb32F(image::Rgb32FImage::from_pixel(
        8,
        8,
        image::Rgb([0.25f32, 0.5f32, 0.75f32]),
    ));
    let mut bytes = Vec::new();
    img.write_to(&mut std::io::Cursor::new(&mut bytes), image::ImageFormat::OpenExr)
        .unwrap();
    assert!(render_album_art(&bytes, false).is_none());
    assert!(album_art_response(&bytes, false).is_none());
}
