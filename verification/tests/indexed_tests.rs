use greachers::color::{Color, GreacherColorPalette};
use greachers::image::{Image, ImageIndexError, LoadState};
use greachers::indexed::{remap_pixels, IndexedImageServer, PreloadAsset};
use greachers::palettes::GreacherPalettes;

const RED: [u8; 4] = [255, 0, 0, 255];
const GREEN: [u8; 4] = [0, 255, 0, 255];
const BLUE: [u8; 4] = [0, 0, 255, 255];
const YELLOW: [u8; 4] = [255, 255, 0, 255];

fn pixels(list: &[[u8; 4]]) -> Vec<u8> {
    list.iter().flatten().copied().collect()
}

fn sample_palette() -> GreacherColorPalette {
    GreacherColorPalette {
        dark: Color::new(10, 20, 30, 255),
        darkish: Color::new(40, 50, 60, 255),
        basic: Color::new(70, 80, 90, 255),
        highlight: Color::new(100, 110, 120, 128),
    }
}

fn sprite() -> Image {
    Image::new(
        3,
        2,
        pixels(&[RED, GREEN, BLUE, YELLOW, [0, 0, 0, 0], [255, 255, 255, 255]]),
    )
}

fn two_palettes() -> GreacherPalettes {
    GreacherPalettes {
        palette_source: Some(1),
        palettes: vec![GreacherColorPalette::default(), sample_palette()],
    }
}

#[test]
fn remap_swaps_markers_and_keeps_the_rest() {
    let out = remap_pixels(&sprite().data, &sample_palette());
    assert_eq!(
        out,
        pixels(&[
            [10, 20, 30, 255],
            [40, 50, 60, 255],
            [70, 80, 90, 255],
            [100, 110, 120, 128],
            [0, 0, 0, 0],
            [255, 255, 255, 255],
        ])
    );
}

#[test]
fn remap_needs_an_exact_match_of_all_four_bytes() {
    let near = pixels(&[[255, 0, 0, 254], [0, 254, 0, 255], [1, 0, 255, 255], [255, 255, 1, 255]]);
    assert_eq!(remap_pixels(&near, &sample_palette()), near);
}

#[test]
fn remap_of_nothing_is_nothing() {
    assert_eq!(remap_pixels(&[], &sample_palette()), Vec::<u8>::new());
}

#[test]
fn remap_drops_bytes_after_the_last_whole_pixel() {
    let mut data = pixels(&[RED, BLUE]);
    data.extend_from_slice(&[255, 0, 0]);
    assert_eq!(
        remap_pixels(&data, &sample_palette()),
        pixels(&[[10, 20, 30, 255], [70, 80, 90, 255]])
    );
}

#[test]
fn remap_with_the_marker_palette_changes_nothing() {
    let data = sprite().data;
    assert_eq!(remap_pixels(&data, &GreacherColorPalette::default()), data);
}

#[test]
fn round_trip_with_a_palette_that_keeps_the_markers_in_use() {
    let data = pixels(&[RED, RED, BLUE, RED, BLUE, BLUE]);
    let palette = GreacherColorPalette {
        dark: Color::new(255, 0, 0, 255),
        darkish: Color::new(1, 2, 3, 4),
        basic: Color::new(0, 0, 255, 255),
        highlight: Color::new(5, 6, 7, 8),
    };
    let there = remap_pixels(&data, &palette);
    let back = remap_pixels(&there, &GreacherColorPalette::default());
    assert_eq!(back, data);
}

#[test]
fn second_remap_leaves_what_the_first_made() {
    let data = pixels(&[RED, GREEN, BLUE, YELLOW]);
    let there = remap_pixels(&data, &sample_palette());
    let back = remap_pixels(&there, &GreacherColorPalette::default());
    assert_eq!(back, there);
    assert_ne!(back, data);
}

#[test]
fn new_server_has_no_sources() {
    let server = IndexedImageServer::new();
    assert!(!server.is_indexed(0));
    assert!(!server.is_indexed(1));
    assert_eq!(server.derivations(), 0);
    assert!(server.preloaded().is_empty());
}

#[test]
fn preload_sets_the_paths() {
    let server = IndexedImageServer::new()
        .preload(vec!["indexed/wings.png".to_string(), "indexed/legs.png".to_string()]);
    assert_eq!(
        server.preloaded(),
        &vec!["indexed/wings.png".to_string(), "indexed/legs.png".to_string()]
    );
    assert!(!server.is_indexed(0));
}

#[test]
fn one_variant_is_derived_for_each_palette() {
    let mut server = IndexedImageServer::new();
    let table = two_palettes();
    let source = sprite();
    let r = server.generate_indexed_images(5, LoadState::Loaded, Some(&source), &table);
    assert_eq!(r, Ok(()));
    assert!(server.is_indexed(5));
    assert!(!server.is_indexed(6));
    assert_eq!(server.variant_count(5), 2);
    assert_eq!(server.get(5, 0), &source);
    let second = server.get(5, 1);
    assert_eq!((second.width, second.height), (3, 2));
    assert_eq!(second.data, remap_pixels(&source.data, &sample_palette()));
    assert_eq!(server.derivations(), 2);
}

#[test]
fn a_variant_is_derived_once_and_stays() {
    let mut server = IndexedImageServer::new();
    let table = GreacherPalettes::default();
    let source = sprite();
    assert_eq!(server.generate_indexed_images(9, LoadState::Loaded, Some(&source), &table), Ok(()));
    assert_eq!(server.derivations(), 1);
    let first = server.get(9, 0).clone();
    let second = server.get(9, 0).clone();
    assert_eq!(first, second);
    assert_eq!(first.data, second.data);
    assert_eq!(server.derivations(), 1);

    let other = Image::new(1, 1, pixels(&[GREEN]));
    assert_eq!(server.generate_indexed_images(9, LoadState::Loaded, Some(&other), &table), Ok(()));
    assert_eq!(server.generate_indexed_images(9, LoadState::Failed, None, &two_palettes()), Ok(()));
    assert_eq!(server.derivations(), 1);
    assert_eq!(server.variant_count(9), 1);
    assert_eq!(server.get(9, 0), &first);
}

#[test]
fn a_pending_source_is_not_registered() {
    for status in [LoadState::NotLoaded, LoadState::Loading] {
        let mut server = IndexedImageServer::new();
        let r = server.generate_indexed_images(1, status, None, &two_palettes());
        assert_eq!(r, Err(ImageIndexError::NotLoaded));
        assert!(!server.is_indexed(1));
        assert_eq!(server.derivations(), 0);
    }
}

#[test]
fn a_lost_source_is_not_registered() {
    let mut server = IndexedImageServer::new();
    let source = sprite();
    let r = server.generate_indexed_images(1, LoadState::Failed, Some(&source), &two_palettes());
    assert_eq!(r, Err(ImageIndexError::LoadFailure));
    assert!(!server.is_indexed(1));
    assert_eq!(server.derivations(), 0);
}

#[test]
fn deriving_a_variant_counts_it() {
    let mut server = IndexedImageServer::new();
    let source = sprite();
    let image = server.generate_indexed_image(&source, &sample_palette());
    assert_eq!((image.width, image.height), (3, 2));
    assert_eq!(image.data, remap_pixels(&source.data, &sample_palette()));
    assert_eq!(server.derivations(), 1);
    server.generate_indexed_image(&source, &sample_palette());
    assert_eq!(server.derivations(), 2);
    assert!(!server.is_indexed(0));
}

fn asset(source: u64, status: LoadState, image: Option<Image>) -> PreloadAsset {
    PreloadAsset { source, status, image }
}

#[test]
fn preload_registers_all_that_are_loaded() {
    let mut server = IndexedImageServer::new();
    let assets = vec![
        asset(1, LoadState::Loaded, Some(sprite())),
        asset(2, LoadState::Loaded, Some(Image::new(1, 1, pixels(&[YELLOW])))),
    ];
    assert_eq!(server.do_preload(&assets, &two_palettes()), Ok(()));
    assert!(server.is_indexed(1) && server.is_indexed(2));
    assert_eq!(server.get(2, 1).data, pixels(&[[100, 110, 120, 128]]));
    assert_eq!(server.derivations(), 4);
}

#[test]
fn preload_stops_at_the_first_pending_asset() {
    let mut server = IndexedImageServer::new();
    let assets = vec![
        asset(1, LoadState::Loaded, Some(sprite())),
        asset(2, LoadState::Loading, None),
        asset(3, LoadState::Failed, None),
        asset(4, LoadState::Loaded, Some(sprite())),
    ];
    assert_eq!(server.do_preload(&assets, &two_palettes()), Err(ImageIndexError::NotLoaded));
    assert!(server.is_indexed(1));
    assert!(!server.is_indexed(2) && !server.is_indexed(3) && !server.is_indexed(4));
    assert_eq!(server.derivations(), 2);
}

#[test]
fn preload_reports_a_lost_asset() {
    let mut server = IndexedImageServer::new();
    let assets = vec![asset(3, LoadState::Failed, None), asset(1, LoadState::Loaded, Some(sprite()))];
    assert_eq!(server.do_preload(&assets, &two_palettes()), Err(ImageIndexError::LoadFailure));
    assert!(!server.is_indexed(1));
}

#[test]
fn preload_goes_on_where_it_stopped() {
    let mut server = IndexedImageServer::new();
    let table = two_palettes();
    let pending = vec![
        asset(1, LoadState::Loaded, Some(sprite())),
        asset(2, LoadState::NotLoaded, None),
    ];
    assert_eq!(server.do_preload(&pending, &table), Err(ImageIndexError::NotLoaded));
    let ready = vec![
        asset(1, LoadState::Failed, None),
        asset(2, LoadState::Loaded, Some(Image::new(1, 1, pixels(&[BLUE])))),
    ];
    assert_eq!(server.do_preload(&ready, &table), Ok(()));
    assert_eq!(server.derivations(), 4);
    assert_eq!(server.get(1, 0), &sprite());
    assert_eq!(server.get(2, 1).data, pixels(&[[70, 80, 90, 255]]));
}

#[test]
fn preload_of_nothing_is_done() {
    let mut server = IndexedImageServer::new();
    assert_eq!(server.do_preload(&vec![], &two_palettes()), Ok(()));
    assert_eq!(server.derivations(), 0);
}
