use greachers::color::{Color, GreacherColorPalette};
use greachers::head::{
    blank_template, cell_index, create_color_data, generate_eyes, generate_greacher_head_texture,
    generate_head_pattern, generate_head_shape, outline_eyes, paint_eyes, paint_head_pattern,
    paint_head_shape, step_on_torus, ColorMapping, GREACHER_CANVAS_SIZE, GREACHER_HEAD_SIZE,
};
use greachers::image::Image;
use greachers::stream::SeedStream;

fn token(c: char) -> ColorMapping {
    match c {
        '.' => ColorMapping::Transparent,
        'D' => ColorMapping::Dark,
        'd' => ColorMapping::Darkish,
        'B' => ColorMapping::Basic,
        'H' => ColorMapping::Highlight,
        'W' => ColorMapping::White,
        _ => panic!("no such token"),
    }
}

fn template(rows: [&str; 10]) -> Vec<ColorMapping> {
    let mut cells = Vec::new();
    for row in rows {
        assert_eq!(row.len(), 10);
        for c in row.chars() {
            cells.push(token(c));
        }
    }
    cells
}

fn default_pixels(rows: [&str; 10]) -> Vec<u8> {
    let mut bytes = Vec::new();
    for row in rows {
        assert_eq!(row.len(), 10);
        for c in row.chars() {
            let px: [u8; 4] = match c {
                '.' => [0, 0, 0, 0],
                'D' => [255, 0, 0, 255],
                'd' => [0, 255, 0, 255],
                'B' => [0, 0, 255, 255],
                'H' => [255, 255, 0, 255],
                'W' => [255, 255, 255, 255],
                _ => panic!("no such token"),
            };
            bytes.extend_from_slice(&px);
        }
    }
    bytes
}

fn head_of(seed: u64, palette: &GreacherColorPalette) -> Image {
    let mut rng = SeedStream::new(seed);
    let mut image = Image::new(10, 10, vec![0; 400]);
    generate_greacher_head_texture(&mut rng, &mut image, palette);
    image
}

#[test]
fn canvas_is_the_head_and_a_margin() {
    assert_eq!(GREACHER_HEAD_SIZE, 8);
    assert_eq!(GREACHER_CANVAS_SIZE, 10);
    assert_eq!(cell_index(0, 0), 0);
    assert_eq!(cell_index(9, 0), 9);
    assert_eq!(cell_index(3, 2), 23);
    assert_eq!(cell_index(9, 9), 99);
}

#[test]
fn blank_template_is_transparent() {
    let t = blank_template();
    assert_eq!(t.len(), 100);
    assert!(t.iter().all(|c| *c == ColorMapping::Transparent));
}

#[test]
fn shape_of_six_by_four_stands_on_the_bottom_row() {
    let mut t = blank_template();
    paint_head_shape(&mut t, 6, 4);
    assert_eq!(
        t,
        template([
            "..........",
            "..........",
            "..........",
            "..........",
            "..........",
            "..dBBBBd..",
            "..BBBBBB..",
            "..BBBBBB..",
            "..dBBBBd..",
            "..........",
        ])
    );
}

#[test]
fn shape_of_eight_by_eight_fills_the_head_region() {
    let mut t = blank_template();
    paint_head_shape(&mut t, 8, 8);
    assert_eq!(
        t,
        template([
            "..........",
            ".dBBBBBBd.",
            ".BBBBBBBB.",
            ".BBBBBBBB.",
            ".BBBBBBBB.",
            ".BBBBBBBB.",
            ".BBBBBBBB.",
            ".BBBBBBBB.",
            ".dBBBBBBd.",
            "..........",
        ])
    );
}

#[test]
fn shape_of_height_one_is_a_row_with_two_corners() {
    let mut t = blank_template();
    paint_head_shape(&mut t, 6, 1);
    let mut expected = template(["..........";10]);
    for x in 2..=7 {
        expected[cell_index(x, 8)] = ColorMapping::Basic;
    }
    expected[cell_index(2, 8)] = ColorMapping::Darkish;
    expected[cell_index(7, 8)] = ColorMapping::Darkish;
    assert_eq!(t, expected);
}

#[test]
fn shape_without_height_or_width_paints_nothing() {
    let mut t = blank_template();
    paint_head_shape(&mut t, 8, 0);
    assert_eq!(t, blank_template());
    paint_head_shape(&mut t, 0, 8);
    assert_eq!(t, blank_template());
}

#[test]
fn shape_paints_over_what_was_there() {
    let mut t = vec![ColorMapping::Highlight; 100];
    paint_head_shape(&mut t, 6, 4);
    assert_eq!(t[cell_index(2, 5)], ColorMapping::Darkish);
    assert_eq!(t[cell_index(3, 5)], ColorMapping::Basic);
    assert_eq!(t[cell_index(1, 5)], ColorMapping::Highlight);
    assert_eq!(t[cell_index(3, 4)], ColorMapping::Highlight);
}

#[test]
fn drawn_shape_has_a_size_from_the_ranges() {
    for seed in 0..300u64 {
        let mut rng = SeedStream::new(seed);
        let mut t = blank_template();
        let (w, h) = generate_head_shape(&mut t, &mut rng);
        assert!(w == 6 || w == 8);
        assert!((4..=8).contains(&h));
        let mut expected = blank_template();
        paint_head_shape(&mut expected, w, h);
        assert_eq!(t, expected);
    }
}

#[test]
fn drawn_shape_takes_width_then_height_from_the_stream() {
    let mut rng = SeedStream::new(21);
    let mut t = blank_template();
    let size = generate_head_shape(&mut t, &mut rng);
    let mut same = SeedStream::new(21);
    let half = same.range(3, 5);
    let height = same.range(4, 9);
    assert_eq!(size, (half * 2, height));
    assert_eq!(rng.range(0, 1000), same.range(0, 1000));
}

#[test]
fn steps_wrap_around_the_head_region() {
    assert_eq!(step_on_torus((4, 4), 0), (5, 4));
    assert_eq!(step_on_torus((4, 4), 1), (3, 4));
    assert_eq!(step_on_torus((4, 4), 2), (4, 5));
    assert_eq!(step_on_torus((4, 4), 3), (4, 3));
    assert_eq!(step_on_torus((8, 3), 0), (1, 3));
    assert_eq!(step_on_torus((1, 3), 1), (8, 3));
    assert_eq!(step_on_torus((4, 8), 2), (4, 1));
    assert_eq!(step_on_torus((4, 1), 3), (4, 8));
}

#[test]
fn an_unknown_direction_stays_in_place() {
    assert_eq!(step_on_torus((2, 7), 4), (2, 7));
    assert_eq!(step_on_torus((8, 1), usize::MAX), (8, 1));
}

#[test]
fn pattern_marks_each_cell_and_its_mirror() {
    let mut t = blank_template();
    paint_head_pattern(&mut t, (1, 1), &vec![0, 0, 2]);
    assert_eq!(
        t,
        template([
            "..........",
            ".HHH..HHH.",
            "..........",
            "..........",
            "..........",
            "..........",
            "..........",
            "..........",
            "..........",
            "..........",
        ])
    );
}

#[test]
fn pattern_walks_across_the_edges() {
    let mut t = blank_template();
    paint_head_pattern(&mut t, (1, 8), &vec![1, 2, 2, 0]);
    assert_eq!(
        t,
        template([
            "..........",
            ".H......H.",
            ".H......H.",
            "..........",
            "..........",
            "..........",
            "..........",
            "..........",
            ".H......H.",
            "..........",
        ])
    );
}

#[test]
fn pattern_without_steps_marks_nothing() {
    let mut t = blank_template();
    paint_head_pattern(&mut t, (3, 3), &vec![]);
    assert_eq!(t, blank_template());
}

#[test]
fn pattern_may_come_back_to_a_cell() {
    let mut t = blank_template();
    paint_head_pattern(&mut t, (2, 2), &vec![0, 1, 0, 1]);
    let mut expected = blank_template();
    for x in [2, 3, 7, 6] {
        expected[cell_index(x, 2)] = ColorMapping::Highlight;
    }
    assert_eq!(t, expected);
}

#[test]
fn drawn_pattern_takes_start_length_and_directions_from_the_stream() {
    for seed in 0..100u64 {
        let mut rng = SeedStream::new(seed);
        let mut t = blank_template();
        generate_head_pattern(&mut t, &mut rng);

        let mut same = SeedStream::new(seed);
        let x = 1 + same.range(0, 8);
        let y = 1 + same.range(0, 8);
        let length = same.range(8, 16);
        assert!((8..16).contains(&length));
        let dirs: Vec<usize> = (0..length).map(|_| same.range(0, 4)).collect();
        let mut expected = blank_template();
        paint_head_pattern(&mut expected, (x, y), &dirs);
        assert_eq!(t, expected);
        assert_eq!(rng.range(0, 1000), same.range(0, 1000));
    }
}

#[test]
fn eyes_are_placed_with_their_mirror_image() {
    let mut t = blank_template();
    paint_eyes(&mut t, (2, 1), (2, 3));
    assert_eq!(
        t,
        template([
            "..........",
            "..........",
            "..........",
            "..WW..WW..",
            "..........",
            "..........",
            "..........",
            "..........",
            "..........",
            "..........",
        ])
    );
}

#[test]
fn eyes_of_two_by_two_at_the_lowest_place() {
    let mut t = blank_template();
    paint_eyes(&mut t, (2, 2), (2, 7));
    let mut expected = blank_template();
    for y in [7, 8] {
        for x in [2, 3, 6, 7] {
            expected[cell_index(x, y)] = ColorMapping::White;
        }
    }
    assert_eq!(t, expected);
}

#[test]
fn eyes_without_size_paint_nothing() {
    let mut t = blank_template();
    paint_eyes(&mut t, (0, 2), (1, 1));
    assert_eq!(t, blank_template());
    paint_eyes(&mut t, (2, 0), (1, 1));
    assert_eq!(t, blank_template());
}

#[test]
fn outline_darkens_painted_cells_next_to_white() {
    let mut t = template([
        "..........",
        "..........",
        "..BBBBBB..",
        "..BWBBWB..",
        "..BBBBBB..",
        "..HHHHHH..",
        "..dBBBBd..",
        "..........",
        "..........",
        "..........",
    ]);
    outline_eyes(&mut t);
    assert_eq!(
        t,
        template([
            "..........",
            "..........",
            "..BDBBDB..",
            "..DWDDWD..",
            "..BDBBDB..",
            "..HHHHHH..",
            "..dBBBBd..",
            "..........",
            "..........",
            "..........",
        ])
    );
}

#[test]
fn outline_does_not_spread_from_outline_cells() {
    let mut t = template([
        "..........",
        ".WBBBBBBB.",
        "..........",
        "..........",
        "..........",
        "..........",
        "..........",
        "..........",
        "..........",
        "..........",
    ]);
    outline_eyes(&mut t);
    assert_eq!(t[cell_index(1, 1)], ColorMapping::White);
    assert_eq!(t[cell_index(2, 1)], ColorMapping::Dark);
    for x in 3..=8 {
        assert_eq!(t[cell_index(x, 1)], ColorMapping::Basic);
    }
}

#[test]
fn outline_leaves_transparent_and_white_cells() {
    let mut t = template([
        "..........",
        ".WW.......",
        ".W........",
        "..........",
        "..........",
        "..........",
        "..........",
        "..........",
        "..........",
        "..........",
    ]);
    let before = t.clone();
    outline_eyes(&mut t);
    assert_eq!(t, before);
}

#[test]
fn outline_does_not_reach_across_the_edge_of_a_row() {
    let mut t = blank_template();
    t[cell_index(9, 3)] = ColorMapping::White;
    t[cell_index(0, 4)] = ColorMapping::Basic;
    t[cell_index(0, 3)] = ColorMapping::Basic;
    outline_eyes(&mut t);
    assert_eq!(t[cell_index(0, 4)], ColorMapping::Basic);
    assert_eq!(t[cell_index(0, 3)], ColorMapping::Basic);
}

fn has_white_neighbor(t: &[ColorMapping], x: usize, y: usize) -> bool {
    (x > 0 && t[cell_index(x - 1, y)] == ColorMapping::White)
        || (x < 9 && t[cell_index(x + 1, y)] == ColorMapping::White)
        || (y > 0 && t[cell_index(x, y - 1)] == ColorMapping::White)
        || (y < 9 && t[cell_index(x, y + 1)] == ColorMapping::White)
}

#[test]
fn new_outline_cells_touch_the_eyes_as_placed() {
    for seed in 0..300u64 {
        let mut rng = SeedStream::new(seed);
        let mut t = blank_template();
        generate_head_shape(&mut t, &mut rng);
        generate_head_pattern(&mut t, &mut rng);
        let width = rng.range(1, 3);
        let height = rng.range(1, 3);
        let x = 1 + rng.range(0, 2);
        let y = 1 + rng.range(0, 7);
        paint_eyes(&mut t, (width, height), (x, y));
        let before = t.clone();
        outline_eyes(&mut t);
        for cy in 0..10 {
            for cx in 0..10 {
                let i = cell_index(cx, cy);
                if t[i] == ColorMapping::Dark && before[i] != ColorMapping::Dark {
                    assert!(has_white_neighbor(&before, cx, cy));
                }
                assert_eq!(t[i] == ColorMapping::White, before[i] == ColorMapping::White);
            }
        }
    }
}

#[test]
fn drawn_eyes_take_size_then_place_from_the_stream() {
    for seed in 0..100u64 {
        let mut rng = SeedStream::new(seed);
        let mut t = blank_template();
        paint_head_shape(&mut t, 8, 8);
        generate_eyes(&mut t, &mut rng);

        let mut same = SeedStream::new(seed);
        let width = same.range(1, 3);
        let height = same.range(1, 3);
        let x = 1 + same.range(0, 2);
        let y = 1 + same.range(0, 7);
        let mut expected = blank_template();
        paint_head_shape(&mut expected, 8, 8);
        paint_eyes(&mut expected, (width, height), (x, y));
        outline_eyes(&mut expected);
        assert_eq!(t, expected);
        assert_eq!(rng.range(0, 1000), same.range(0, 1000));
    }
}

#[test]
fn color_data_maps_each_token() {
    let palette = GreacherColorPalette {
        dark: Color::new(1, 2, 3, 4),
        darkish: Color::new(5, 6, 7, 8),
        basic: Color::new(9, 10, 11, 12),
        highlight: Color::new(13, 14, 15, 16),
    };
    let mut t = blank_template();
    t[0] = ColorMapping::Dark;
    t[1] = ColorMapping::Darkish;
    t[2] = ColorMapping::Basic;
    t[3] = ColorMapping::Highlight;
    t[4] = ColorMapping::White;
    t[99] = ColorMapping::Basic;
    let data = create_color_data(&t, &palette);
    assert_eq!(data.len(), 400);
    assert_eq!(
        &data[0..24],
        &[1, 2, 3, 4, 5, 6, 7, 8, 9, 10, 11, 12, 13, 14, 15, 16, 255, 255, 255, 255, 0, 0, 0, 0]
    );
    assert!(data[24..396].iter().all(|b| *b == 0));
    assert_eq!(&data[396..400], &[9, 10, 11, 12]);
}

#[test]
fn head_of_seed_zero_under_the_default_palette() {
    let image = head_of(0, &GreacherColorPalette::default());
    assert_eq!((image.width, image.height), (10, 10));
    assert_eq!(image.data.len(), 400);
    assert_eq!(
        image.data,
        default_pixels([
            "..........",
            "..H....H..",
            "..H....H..",
            ".WDBBBBDW.",
            ".WDBBBBDW.",
            "..BBBBBB..",
            "..BBBBBB..",
            "..BBBBBB..",
            "..dBBBBd..",
            "..........",
        ])
    );
}

#[test]
fn heads_of_seeds_one_and_two_under_the_default_palette() {
    assert_eq!(
        head_of(1, &GreacherColorPalette::default()).data,
        default_pixels([
            "..........",
            "..........",
            "..........",
            "..........",
            "..........",
            ".HHHBBHHH.",
            ".BDDBBDDB.",
            ".DWWDDWWD.",
            ".DWWDDWWD.",
            "..........",
        ])
    );
    assert_eq!(
        head_of(2, &GreacherColorPalette::default()).data,
        default_pixels([
            "..........",
            ".HH....HH.",
            ".HHBBBBHH.",
            ".DDBBBBDD.",
            ".WWDBBDWW.",
            ".DDBBBBDD.",
            ".BBBBBBBB.",
            ".BBHBBHBB.",
            ".dHHBBHHd.",
            "..........",
        ])
    );
}

#[test]
fn head_is_the_same_each_time() {
    let palette = GreacherColorPalette::from_seed(5);
    for seed in 0..200u64 {
        assert_eq!(head_of(seed, &palette), head_of(seed, &palette));
    }
}

#[test]
fn head_replaces_the_pixels_and_keeps_the_size() {
    let mut rng = SeedStream::new(0);
    let mut image = Image::new(7, 3, vec![9; 84]);
    generate_greacher_head_texture(&mut rng, &mut image, &GreacherColorPalette::default());
    assert_eq!((image.width, image.height), (7, 3));
    assert_eq!(image.data, head_of(0, &GreacherColorPalette::default()).data);

    let mut rng = SeedStream::new(0);
    let mut empty = Image::new(0, 0, Vec::new());
    generate_greacher_head_texture(&mut rng, &mut empty, &GreacherColorPalette::default());
    assert_eq!((empty.width, empty.height), (0, 0));
    assert_eq!(empty.data.len(), 400);
}

#[test]
fn every_pixel_of_a_head_is_a_token_color() {
    let palette = GreacherColorPalette::from_seed(9);
    let colors: Vec<[u8; 4]> = vec![
        [0, 0, 0, 0],
        [255, 255, 255, 255],
        palette.dark.into(),
        palette.darkish.into(),
        palette.basic.into(),
        palette.highlight.into(),
    ];
    for seed in 0..200u64 {
        let image = head_of(seed, &palette);
        for px in image.data.chunks(4) {
            assert!(colors.iter().any(|c| c == px));
        }
    }
}

#[test]
fn every_head_has_its_eyes_and_its_body() {
    let palette = GreacherColorPalette::default();
    for seed in 0..500u64 {
        let image = head_of(seed, &palette);
        let mut white = 0;
        for y in 0..10 {
            for x in 0..10 {
                let at = cell_index(x, y) * 4;
                let px = &image.data[at..at + 4];
                if px == [255, 255, 255, 255] {
                    white += 1;
                    assert!(x != 4 && x != 5);
                }
                if (2..=7).contains(&x) && (5..=8).contains(&y) {
                    assert_eq!(px[3], 255);
                }
            }
        }
        assert!(white == 2 || white == 4 || white == 8, "{white}");
    }
}

#[test]
fn drawn_pattern_marks_its_start_and_stays_in_the_head_region() {
    for seed in 0..300u64 {
        let mut rng = SeedStream::new(seed);
        let mut t = blank_template();
        paint_head_shape(&mut t, 6, 4);
        let before = t.clone();
        generate_head_pattern(&mut t, &mut rng);

        let mut same = SeedStream::new(seed);
        let x = 1 + same.range(0, 8);
        let y = 1 + same.range(0, 8);
        assert_eq!(t[cell_index(x, y)], ColorMapping::Highlight);
        assert_eq!(t[cell_index(9 - x, y)], ColorMapping::Highlight);
        let mut changed = 0;
        for cy in 0..10 {
            for cx in 0..10 {
                let i = cell_index(cx, cy);
                if t[i] != before[i] {
                    changed += 1;
                    assert_eq!(t[i], ColorMapping::Highlight);
                    assert!((1..=8).contains(&cx) && (1..=8).contains(&cy));
                }
            }
        }
        assert!(changed >= 2 && changed <= 30, "{changed}");
    }
}

#[test]
fn margin_of_every_head_is_transparent() {
    let palette = GreacherColorPalette {
        dark: Color::new(1, 1, 1, 255),
        darkish: Color::new(2, 2, 2, 255),
        basic: Color::new(3, 3, 3, 255),
        highlight: Color::new(4, 4, 4, 255),
    };
    for seed in 0..1000u64 {
        let image = head_of(seed, &palette);
        assert_eq!(image.data.len(), 400);
        for y in 0..10 {
            for x in 0..10 {
                if x == 0 || x == 9 || y == 0 || y == 9 {
                    let at = cell_index(x, y) * 4;
                    assert_eq!(&image.data[at..at + 4], &[0, 0, 0, 0]);
                }
            }
        }
    }
}

#[test]
fn head_is_mirrored_across_the_vertical_axis() {
    let palette = GreacherColorPalette::default();
    for seed in 0..300u64 {
        let image = head_of(seed, &palette);
        for y in 0..10 {
            for x in 0..10 {
                let a = cell_index(x, y) * 4;
                let b = cell_index(9 - x, y) * 4;
                assert_eq!(&image.data[a..a + 4], &image.data[b..b + 4]);
            }
        }
    }
}

#[test]
fn head_is_built_in_the_order_shape_pattern_eyes() {
    let palette = GreacherColorPalette::default();
    for seed in 0..100u64 {
        let mut rng = SeedStream::new(seed);
        let mut t = blank_template();
        generate_head_shape(&mut t, &mut rng);
        generate_head_pattern(&mut t, &mut rng);
        generate_eyes(&mut t, &mut rng);
        assert_eq!(head_of(seed, &palette).data, create_color_data(&t, &palette));
    }
}
