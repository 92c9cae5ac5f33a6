use image::{DynamicImage, GenericImage, GenericImageView, Luma, Rgb, Rgba};
use palette_mapper::algorithms::Algorithms;
use palette_mapper::color::Color;
use palette_mapper::distance::{EuclidianDistance, EuclidianDistanceNoAlpha};
use palette_mapper::fast_path::{map_rgb8_bytes, map_rgb8_pixel, map_rgba8_bytes, map_rgba8_pixel};
use palette_mapper::map_image_to_palette;
use palette_mapper::parallel::{par_map_rgb8_bytes, par_map_rgba8_bytes};
use palette_mapper::Palette;
use rayon::prelude::{IndexedParallelIterator, ParallelIterator, ParallelSliceMut};

fn red_and_white() -> Palette {
    Palette::from(vec![Color::rgba(255, 0, 0, 255), Color::rgba(255, 255, 255, 255)])
}

fn testing_palette() -> Palette {
    Palette::from(vec![
        Color::rgba(255, 0, 0, 255),
        Color::rgba(255, 128, 0, 255),
        Color::rgba(255, 255, 0, 255),
        Color::rgba(128, 255, 0, 255),
        Color::rgba(0, 255, 0, 255),
        Color::rgba(0, 255, 128, 255),
        Color::rgba(0, 255, 255, 255),
        Color::rgba(0, 128, 255, 255),
        Color::rgba(0, 0, 255, 255),
        Color::rgba(128, 0, 255, 255),
        Color::rgba(255, 0, 255, 255),
        Color::rgba(255, 0, 128, 255),
        Color::rgba(255, 255, 255, 255),
        Color::rgba(192, 192, 192, 255),
        Color::rgba(64, 64, 64, 255),
        Color::rgba(0, 0, 0, 255),
    ])
}

fn noise(seed: u32, len: usize) -> Vec<u8> {
    let mut state = seed;
    let mut bytes = Vec::with_capacity(len);
    for _ in 0..len {
        state = state.wrapping_mul(1_103_515_245).wrapping_add(12_345);
        bytes.push((state >> 16) as u8);
    }
    bytes
}

fn contains(palette: &Palette, color: Color) -> bool {
    (0..palette.len()).any(|i| *palette.get(i).unwrap() == color)
}

#[test]
fn rgba8_image_is_mapped_pixel_by_pixel() {
    let mut img = DynamicImage::new_rgba8(3, 2);
    img.put_pixel(0, 0, Rgba([200, 10, 10, 255]));
    img.put_pixel(1, 0, Rgba([250, 250, 250, 255]));
    img.put_pixel(2, 0, Rgba([0, 0, 0, 0]));
    img.put_pixel(0, 1, Rgba([255, 200, 200, 255]));
    img.put_pixel(1, 1, Rgba([255, 0, 0, 0]));
    img.put_pixel(2, 1, Rgba([128, 128, 128, 255]));

    map_image_to_palette(&mut img, &red_and_white(), &EuclidianDistance);

    assert_eq!(img.width(), 3);
    assert_eq!(img.height(), 2);
    assert!(img.as_rgba8().is_some());
    assert_eq!(img.get_pixel(0, 0), Rgba([255, 0, 0, 255]));
    assert_eq!(img.get_pixel(1, 0), Rgba([255, 255, 255, 255]));
    assert_eq!(img.get_pixel(2, 0), Rgba([255, 0, 0, 255]));
    assert_eq!(img.get_pixel(0, 1), Rgba([255, 255, 255, 255]));
    assert_eq!(img.get_pixel(1, 1), Rgba([255, 0, 0, 255]));
    assert_eq!(img.get_pixel(2, 1), Rgba([255, 255, 255, 255]));
}

#[test]
fn rgb8_image_keeps_three_channels() {
    let mut img = DynamicImage::new_rgb8(2, 2);
    img.put_pixel(0, 0, Rgba([200, 10, 10, 255]));
    img.put_pixel(1, 0, Rgba([250, 250, 250, 255]));
    img.put_pixel(0, 1, Rgba([10, 10, 10, 255]));
    img.put_pixel(1, 1, Rgba([0, 200, 0, 255]));
    let palette = Palette::from(vec![
        Color::rgba(255, 0, 0, 10),
        Color::rgba(255, 255, 255, 255),
        Color::rgba(0, 0, 0, 255),
    ]);

    map_image_to_palette(&mut img, &palette, &EuclidianDistanceNoAlpha);

    let buffer = img.as_rgb8().unwrap();
    assert_eq!(buffer.dimensions(), (2, 2));
    assert_eq!(*buffer.get_pixel(0, 0), Rgb([255, 0, 0]));
    assert_eq!(*buffer.get_pixel(1, 0), Rgb([255, 255, 255]));
    assert_eq!(*buffer.get_pixel(0, 1), Rgb([0, 0, 0]));
    assert_eq!(*buffer.get_pixel(1, 1), Rgb([0, 0, 0]));
    assert_eq!(img.get_pixel(0, 0), Rgba([255, 0, 0, 255]));
}

#[test]
fn rgb8_pixels_are_looked_up_as_opaque() {
    let mut img = DynamicImage::new_rgb8(1, 1);
    img.put_pixel(0, 0, Rgba([100, 100, 100, 255]));
    // With alpha in the measure the transparent entry is far from an opaque pixel.
    let palette = Palette::from(vec![Color::rgba(100, 100, 100, 0), Color::rgba(90, 90, 90, 255)]);

    map_image_to_palette(&mut img, &palette, &EuclidianDistance);

    assert_eq!(img.get_pixel(0, 0), Rgba([90, 90, 90, 255]));
}

#[test]
fn gray_image_stores_what_its_layout_can_hold() {
    let mut img = DynamicImage::new_luma8(2, 1);
    img.put_pixel(0, 0, Rgba([250, 250, 250, 255]));
    img.put_pixel(1, 0, Rgba([5, 5, 5, 255]));
    let palette = Palette::from(vec![Color::rgba(255, 255, 255, 255), Color::rgba(0, 0, 0, 255)]);

    map_image_to_palette(&mut img, &palette, &EuclidianDistance);

    let buffer = img.as_luma8().unwrap();
    assert_eq!(buffer.dimensions(), (2, 1));
    assert_eq!(*buffer.get_pixel(0, 0), Luma([255]));
    assert_eq!(*buffer.get_pixel(1, 0), Luma([0]));

    // What a gray image reports after a write is the color taken to gray and back.
    let mut probe = DynamicImage::new_luma8(1, 1);
    probe.put_pixel(0, 0, Rgba([255, 0, 0, 255]));
    let stored = probe.get_pixel(0, 0);
    let mut img = DynamicImage::new_luma8(1, 1);
    img.put_pixel(0, 0, Rgba([60, 60, 60, 255]));
    let reds = Palette::from(vec![Color::rgba(255, 0, 0, 255)]);
    map_image_to_palette(&mut img, &reds, &EuclidianDistance);
    assert_eq!(img.get_pixel(0, 0), stored);
}

#[test]
fn sixteen_bit_image_is_mapped_through_four_channels() {
    let mut img = DynamicImage::new_rgba16(2, 2);
    img.put_pixel(0, 0, Rgba([200, 10, 10, 255]));
    img.put_pixel(1, 0, Rgba([250, 250, 250, 255]));
    img.put_pixel(0, 1, Rgba([250, 250, 250, 255]));
    img.put_pixel(1, 1, Rgba([200, 10, 10, 255]));

    map_image_to_palette(&mut img, &red_and_white(), &EuclidianDistance);

    assert!(img.as_rgba16().is_some());
    assert_eq!(img.get_pixel(0, 0), Rgba([255, 0, 0, 255]));
    assert_eq!(img.get_pixel(1, 0), Rgba([255, 255, 255, 255]));
    assert_eq!(img.get_pixel(0, 1), Rgba([255, 255, 255, 255]));
    assert_eq!(img.get_pixel(1, 1), Rgba([255, 0, 0, 255]));
}

#[test]
fn empty_image_stays_empty() {
    let mut img = DynamicImage::new_rgba8(0, 0);
    map_image_to_palette(&mut img, &red_and_white(), &EuclidianDistance);
    assert_eq!(img.dimensions(), (0, 0));

    let mut img = DynamicImage::new_rgb8(0, 5);
    map_image_to_palette(&mut img, &red_and_white(), &EuclidianDistance);
    assert_eq!(img.dimensions(), (0, 5));

    let mut img = DynamicImage::new_luma8(4, 0);
    map_image_to_palette(&mut img, &red_and_white(), &EuclidianDistance);
    assert_eq!(img.dimensions(), (4, 0));
}

#[test]
fn every_output_pixel_is_a_palette_color() {
    let palette = testing_palette();
    let bytes = noise(7, 4 * 13 * 11);
    let mut img = DynamicImage::ImageRgba8(image::RgbaImage::from_raw(13, 11, bytes).unwrap());

    map_image_to_palette(&mut img, &palette, &Algorithms::EuclidianDistance);

    for (_, _, Rgba([red, green, blue, alpha])) in img.pixels() {
        assert!(contains(&palette, Color::rgba(red, green, blue, alpha)));
    }
}

#[test]
fn image_traversal_agrees_with_the_search() {
    let palette = testing_palette();
    let bytes = noise(99, 4 * 9 * 7);
    let before = DynamicImage::ImageRgba8(image::RgbaImage::from_raw(9, 7, bytes).unwrap());
    let mut img = before.clone();

    map_image_to_palette(&mut img, &palette, &EuclidianDistance);

    for y in 0..7 {
        for x in 0..9 {
            let Rgba([red, green, blue, alpha]) = before.get_pixel(x, y);
            let expected = *palette_mapper::closest_color_in_pallete(
                &Color::rgba(red, green, blue, alpha),
                &palette,
                &EuclidianDistance,
            )
            .unwrap();
            assert_eq!(
                img.get_pixel(x, y),
                Rgba([expected.red, expected.green, expected.blue, expected.alpha])
            );
        }
    }
}

#[test]
fn layouts_agree_on_opaque_pixels() {
    let palette = testing_palette();
    let bytes = noise(3, 3 * 8 * 5);
    let mut three = DynamicImage::ImageRgb8(image::RgbImage::from_raw(8, 5, bytes).unwrap());
    let mut four = DynamicImage::ImageRgba8(three.to_rgba8());
    let mut wide = DynamicImage::ImageRgba16(three.to_rgba16());

    map_image_to_palette(&mut three, &palette, &EuclidianDistance);
    map_image_to_palette(&mut four, &palette, &EuclidianDistance);
    map_image_to_palette(&mut wide, &palette, &EuclidianDistance);

    for y in 0..5 {
        for x in 0..8 {
            assert_eq!(three.get_pixel(x, y), four.get_pixel(x, y));
            assert_eq!(wide.get_pixel(x, y), four.get_pixel(x, y));
        }
    }
}

#[test]
fn repeated_traversals_give_the_same_bytes() {
    let palette = testing_palette();
    let bytes = noise(21, 4 * 16 * 16);
    let mut first = DynamicImage::ImageRgba8(image::RgbaImage::from_raw(16, 16, bytes).unwrap());
    let mut second = first.clone();

    map_image_to_palette(&mut first, &palette, &EuclidianDistance);
    map_image_to_palette(&mut second, &palette, &EuclidianDistance);
    assert_eq!(first.as_bytes(), second.as_bytes());

    // Mapping a mapped image changes nothing: every pixel is its own closest entry.
    let once = first.clone();
    map_image_to_palette(&mut first, &palette, &EuclidianDistance);
    assert_eq!(first.as_bytes(), once.as_bytes());
}

#[test]
fn buffer_longer_than_the_image_is_accepted() {
    let mut bytes = vec![250u8; 4 * 2 * 2];
    bytes.extend_from_slice(&[1, 2, 3]);
    let mut img = DynamicImage::ImageRgba8(image::RgbaImage::from_raw(2, 2, bytes).unwrap());

    map_image_to_palette(&mut img, &red_and_white(), &EuclidianDistance);

    for (_, _, pixel) in img.pixels() {
        assert_eq!(pixel, Rgba([255, 255, 255, 255]));
    }
}

#[test]
fn rgba8_bytes_are_mapped_in_place() {
    let mut bytes = vec![200, 10, 10, 255, 250, 250, 250, 255, 9, 9];
    map_rgba8_bytes(&mut bytes, &red_and_white(), &EuclidianDistance);
    assert_eq!(bytes, vec![255, 0, 0, 255, 255, 255, 255, 255, 9, 9]);

    let mut none: Vec<u8> = Vec::new();
    map_rgba8_bytes(&mut none, &red_and_white(), &EuclidianDistance);
    assert!(none.is_empty());
}

#[test]
fn rgb8_bytes_are_mapped_in_place() {
    let palette = Palette::from(vec![Color::rgba(255, 0, 0, 7), Color::rgba(255, 255, 255, 255)]);
    let mut bytes = vec![200, 10, 10, 250, 250, 250, 9];
    map_rgb8_bytes(&mut bytes, &palette, &EuclidianDistanceNoAlpha);
    assert_eq!(bytes, vec![255, 0, 0, 255, 255, 255, 9]);
}

#[test]
fn single_pixels_are_mapped() {
    assert_eq!(
        map_rgba8_pixel([200, 10, 10, 255], &red_and_white(), &EuclidianDistance),
        [255, 0, 0, 255]
    );
    assert_eq!(
        map_rgb8_pixel([250, 250, 250], &red_and_white(), &EuclidianDistance),
        [255, 255, 255]
    );
}

#[test]
fn pieces_mapped_apart_equal_the_whole_mapped_at_once() {
    let palette = testing_palette();
    let bytes = noise(5, 4 * 64);
    let mut whole = bytes.clone();
    map_rgba8_bytes(&mut whole, &palette, &EuclidianDistance);

    for pieces in [1usize, 2, 3, 7, 64] {
        let mut split = bytes.clone();
        let size = 4 * ((64 + pieces - 1) / pieces);
        for piece in split.chunks_mut(size).rev() {
            map_rgba8_bytes(piece, &palette, &EuclidianDistance);
        }
        assert_eq!(split, whole);
    }

    let bytes = noise(6, 3 * 50);
    let mut whole = bytes.clone();
    map_rgb8_bytes(&mut whole, &palette, &EuclidianDistance);
    let mut split = bytes.clone();
    for piece in split.chunks_mut(3 * 7) {
        map_rgb8_bytes(piece, &palette, &EuclidianDistance);
    }
    assert_eq!(split, whole);
}

#[test]
fn bytes_and_image_traversal_agree() {
    let palette = testing_palette();
    let bytes = noise(11, 4 * 6 * 4);
    let mut img = DynamicImage::ImageRgba16(
        DynamicImage::ImageRgba8(image::RgbaImage::from_raw(6, 4, bytes.clone()).unwrap())
            .to_rgba16(),
    );
    let mut mapped = bytes;
    map_rgba8_bytes(&mut mapped, &palette, &EuclidianDistance);

    map_image_to_palette(&mut img, &palette, &EuclidianDistance);

    assert_eq!(img.to_rgba8().into_raw(), mapped);
}

#[test]
fn parallel_pieces_equal_one_walk_for_any_number_of_workers() {
    let palette = testing_palette();
    let bytes = noise(42, 4 * 40 * 30);
    let mut walked = bytes.clone();
    map_rgba8_bytes(&mut walked, &palette, &EuclidianDistance);

    for workers in [1usize, 2, 3, 8] {
        let pool = rayon::ThreadPoolBuilder::new().num_threads(workers).build().unwrap();
        for row in [4 * 40usize, 4, 4 * 7] {
            let mut spread = bytes.clone();
            pool.install(|| {
                spread
                    .par_chunks_mut(row)
                    .with_min_len(1)
                    .for_each(|piece| map_rgba8_bytes(piece, &palette, &EuclidianDistance));
            });
            assert_eq!(spread, walked);
        }
    }
}

#[test]
fn parallel_pixels_equal_the_image_traversal() {
    let palette = testing_palette();
    let four = image::RgbaImage::from_raw(17, 9, noise(8, 4 * 17 * 9)).unwrap();
    let three = image::RgbImage::from_raw(17, 9, noise(9, 3 * 17 * 9)).unwrap();

    let mut walked = DynamicImage::ImageRgba8(four.clone());
    map_image_to_palette(&mut walked, &palette, &EuclidianDistance);
    let mut spread = four;
    spread
        .par_enumerate_pixels_mut()
        .for_each(|(_, _, px)| px.0 = map_rgba8_pixel(px.0, &palette, &EuclidianDistance));
    assert_eq!(walked.as_bytes(), spread.as_raw().as_slice());

    let mut walked = DynamicImage::ImageRgb8(three.clone());
    map_image_to_palette(&mut walked, &palette, &EuclidianDistance);
    let mut spread = three;
    spread
        .par_enumerate_pixels_mut()
        .for_each(|(_, _, px)| px.0 = map_rgb8_pixel(px.0, &palette, &EuclidianDistance));
    assert_eq!(walked.as_bytes(), spread.as_raw().as_slice());
}

#[test]
fn both_ways_through_a_byte_layout_agree() {
    let palette = Palette::from(vec![
        Color::rgba(255, 0, 0, 30),
        Color::rgba(0, 255, 0, 255),
        Color::rgba(0, 0, 255, 128),
        Color::rgba(20, 20, 20, 255),
    ]);
    for metric in Algorithms::all() {
        let four = DynamicImage::ImageRgba8(
            image::RgbaImage::from_raw(5, 6, noise(1, 4 * 5 * 6)).unwrap(),
        );
        let mut fast = four.clone();
        let mut slow = four;
        map_image_to_palette(&mut fast, &palette, &metric);
        palette_mapper::traversal::map_pixel_by_pixel(&mut slow, &palette, &metric);
        assert_eq!(fast, slow);

        let three =
            DynamicImage::ImageRgb8(image::RgbImage::from_raw(5, 6, noise(2, 3 * 5 * 6)).unwrap());
        let mut fast = three.clone();
        let mut slow = three;
        map_image_to_palette(&mut fast, &palette, &metric);
        palette_mapper::traversal::map_pixel_by_pixel(&mut slow, &palette, &metric);
        assert_eq!(fast, slow);
    }
}

#[test]
fn all_cores_give_the_bytes_of_one_walk() {
    let palette = testing_palette();
    for len in [0usize, 1, 3, 4, 5, 4 * 50, 4 * 50 + 3, 4 * 1000 + 1] {
        let bytes = noise(len as u32, len);
        let mut walked = bytes.clone();
        map_rgba8_bytes(&mut walked, &palette, &EuclidianDistance);
        for workers in [1usize, 2, 5] {
            let pool = rayon::ThreadPoolBuilder::new().num_threads(workers).build().unwrap();
            let mut spread = bytes.clone();
            pool.install(|| par_map_rgba8_bytes(&mut spread, &palette, &EuclidianDistance));
            assert_eq!(spread, walked);
        }
    }
    for len in [0usize, 1, 2, 3, 4, 3 * 50, 3 * 50 + 2, 3 * 1000 + 1] {
        let bytes = noise(len as u32 + 77, len);
        let mut walked = bytes.clone();
        map_rgb8_bytes(&mut walked, &palette, &EuclidianDistanceNoAlpha);
        for workers in [1usize, 2, 5] {
            let pool = rayon::ThreadPoolBuilder::new().num_threads(workers).build().unwrap();
            let mut spread = bytes.clone();
            pool.install(|| par_map_rgb8_bytes(&mut spread, &palette, &EuclidianDistanceNoAlpha));
            assert_eq!(spread, walked);
        }
    }
}

#[test]
fn image_traversal_is_the_same_for_any_number_of_workers() {
    let palette = testing_palette();
    let four =
        DynamicImage::ImageRgba8(image::RgbaImage::from_raw(31, 17, noise(4, 4 * 31 * 17)).unwrap());
    let mut one_core = four.clone();
    palette_mapper::traversal::map_pixel_by_pixel(&mut one_core, &palette, &EuclidianDistance);
    for workers in [1usize, 2, 4, 7] {
        let pool = rayon::ThreadPoolBuilder::new().num_threads(workers).build().unwrap();
        let mut img = four.clone();
        pool.install(|| map_image_to_palette(&mut img, &palette, &EuclidianDistance));
        assert_eq!(img.as_bytes(), one_core.as_bytes());
    }
}
