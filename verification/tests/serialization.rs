use path_tracer::image::ImageBuffer;
use path_tracer::ppm::{ppm_image, Rgb8};
use path_tracer::schedule::WorkQueue;

#[test]
fn image_buffer_starts_filled() {
    let img: ImageBuffer<u8> = ImageBuffer::new(3, 2, 7);
    assert_eq!(img.width(), 3);
    assert_eq!(img.height(), 2);
    for j in 0..2 {
        for i in 0..3 {
            assert_eq!(img.get_pixel(i, j), 7);
        }
    }
}

#[test]
fn image_buffer_set_changes_one_cell() {
    let mut img: ImageBuffer<u32> = ImageBuffer::new(3, 2, 0);
    img.set_pixel(1, 0, 9);
    for j in 0..2 {
        for i in 0..3 {
            let expected = if (i, j) == (1, 0) { 9 } else { 0 };
            assert_eq!(img.get_pixel(i, j), expected);
        }
    }
}

#[test]
fn image_buffer_is_row_major() {
    let mut img: ImageBuffer<u32> = ImageBuffer::new(4, 3, 0);
    for j in 0..3 {
        for i in 0..4 {
            img.set_pixel(i, j, (10 * j + i) as u32);
        }
    }
    let data = img.pixels();
    for j in 0..3 {
        for i in 0..4 {
            assert_eq!(data[j * 4 + i], (10 * j + i) as u32);
        }
    }
}

#[test]
fn buffer_filled_through_queue_writes_every_cell_once() {
    let width = 4;
    let height = 3;
    let mut queue = WorkQueue::new(width, height);
    let mut img: ImageBuffer<u32> = ImageBuffer::new(width as usize, height as usize, 0);
    let mut writes = 0u32;
    while let Some(p) = queue.pop_task() {
        assert_eq!(img.get_pixel(p.i as usize, p.j as usize), 0);
        writes += 1;
        img.set_pixel(p.i as usize, p.j as usize, writes);
    }
    assert_eq!(writes, 12);
    for j in 0..height as usize {
        for i in 0..width as usize {
            assert_ne!(img.get_pixel(i, j), 0);
        }
    }
}

#[test]
fn ppm_two_pixels() {
    let pixels = vec![Rgb8 { r: 255, g: 0, b: 0 }, Rgb8 { r: 0, g: 255, b: 0 }];
    let out = ppm_image(2, 1, &pixels);
    assert_eq!(out, b"P3\n2 1\n255\n255 0 0\n0 255 0\n".to_vec());
}

#[test]
fn ppm_single_black_pixel() {
    let pixels = vec![Rgb8 { r: 0, g: 0, b: 0 }];
    let out = ppm_image(1, 1, &pixels);
    assert_eq!(out, b"P3\n1 1\n255\n0 0 0\n".to_vec());
}

#[test]
fn ppm_multi_digit_dimensions() {
    let pixels = vec![Rgb8 { r: 12, g: 34, b: 250 }; 120];
    let out = ppm_image(12, 10, &pixels);
    let text = String::from_utf8(out).unwrap();
    assert!(text.starts_with("P3\n12 10\n255\n"));
    assert_eq!(text.lines().count(), 3 + 120);
    for line in text.lines().skip(3) {
        assert_eq!(line, "12 34 250");
    }
}

#[test]
fn ppm_channel_digits() {
    let pixels = vec![Rgb8 { r: 0, g: 7, b: 255 }];
    let out = ppm_image(1, 1, &pixels);
    assert_eq!(out, b"P3\n1 1\n255\n0 7 255\n".to_vec());
}

#[test]
fn queue_buffer_ppm_pipeline() {
    let width = 2;
    let height = 2;
    let mut queue = WorkQueue::new(width, height);
    let mut img: ImageBuffer<Rgb8> =
        ImageBuffer::new(width as usize, height as usize, Rgb8 { r: 0, g: 0, b: 0 });
    while let Some(p) = queue.pop_task() {
        let shade = Rgb8 { r: p.i as u8, g: p.j as u8, b: 9 };
        img.set_pixel(p.i as usize, p.j as usize, shade);
    }
    let out = ppm_image(width, height, img.pixels());
    assert_eq!(out, b"P3\n2 2\n255\n0 0 9\n1 0 9\n0 1 9\n1 1 9\n".to_vec());
}
