use raytracing_weekend::bounce::{Render, BOX_SIZE, HEIGHT, WIDTH};
use raytracing_weekend::framebuffer::{Framebuffer, Rgb};
use raytracing_weekend::path::{next_step, PathEvent, PathStep};
use raytracing_weekend::settings::{ConfigError, RenderSettings};

fn settings(w: u32, h: u32) -> RenderSettings {
    RenderSettings::new(w, h, 1, 1, 7).unwrap()
}

#[test]
fn settings_accepts_valid_input() {
    let s = RenderSettings::new(640, 480, 16, 32, 99).unwrap();
    assert_eq!(s.image_width, 640);
    assert_eq!(s.image_height, 480);
    assert_eq!(s.samples_per_pixel, 16);
    assert_eq!(s.max_depth, 32);
    assert_eq!(s.random_seed, 99);
    assert_eq!(s.frame_len(), 640 * 480 * 4);
}

#[test]
fn settings_rejects_zero_width() {
    assert_eq!(RenderSettings::new(0, 0, 0, 1, 1).unwrap_err(), ConfigError::ZeroWidth);
}

#[test]
fn settings_rejects_zero_height() {
    assert_eq!(RenderSettings::new(2, 0, 0, 1, 1).unwrap_err(), ConfigError::ZeroHeight);
}

#[test]
fn settings_rejects_zero_samples() {
    assert_eq!(RenderSettings::new(2, 2, 0, 1, 1).unwrap_err(), ConfigError::ZeroSamples);
}

#[test]
fn settings_accepts_zero_max_depth() {
    assert!(RenderSettings::new(1, 1, 1, 0, 0).is_ok());
}

#[test]
fn settings_rejects_frame_too_large() {
    let r = RenderSettings::new(u32::MAX, u32::MAX, 1, 1, 1);
    if (u32::MAX as u128) * (u32::MAX as u128) * 4 > usize::MAX as u128 {
        assert_eq!(r.unwrap_err(), ConfigError::FrameTooLarge);
    } else {
        assert!(r.is_ok());
    }
}

#[test]
fn pixel_streams_are_row_major_from_the_bottom() {
    let s = settings(3, 2);
    assert_eq!(s.pixel_stream(0, 0), 0);
    assert_eq!(s.pixel_stream(2, 0), 2);
    assert_eq!(s.pixel_stream(0, 1), 3);
    assert_eq!(s.pixel_stream(2, 1), 5);
}

#[test]
fn pixel_streams_are_distinct() {
    let s = settings(5, 4);
    let mut seen = Vec::new();
    for j in 0..4 {
        for i in 0..5 {
            let k = s.pixel_stream(i, j);
            assert!(!seen.contains(&k));
            seen.push(k);
        }
    }
    assert_eq!(seen.len(), 20);
}

#[test]
fn new_frame_is_zeroed() {
    let f = Framebuffer::new(&settings(3, 2));
    assert_eq!(f.width(), 3);
    assert_eq!(f.height(), 2);
    assert_eq!(f.into_bytes(), vec![0u8; 24]);
}

#[test]
fn bottom_row_is_stored_last() {
    let f = Framebuffer::new(&settings(2, 2));
    assert_eq!(f.pixel_offset(0, 0), 8);
    assert_eq!(f.pixel_offset(1, 0), 12);
    assert_eq!(f.pixel_offset(0, 1), 0);
    assert_eq!(f.pixel_offset(1, 1), 4);
}

#[test]
fn set_pixel_writes_one_slot() {
    let mut f = Framebuffer::new(&settings(2, 2));
    f.set_pixel(1, 0, Rgb { r: 10, g: 20, b: 30 });
    assert_eq!(f.pixel(1, 0), Rgb { r: 10, g: 20, b: 30 });
    assert_eq!(f.pixel(0, 0), Rgb { r: 0, g: 0, b: 0 });
    let bytes = f.into_bytes();
    assert_eq!(bytes, vec![0, 0, 0, 0, 0, 0, 0, 0, 0, 0, 0, 0, 10, 20, 30, 255]);
}

#[test]
fn from_pixels_flips_rows() {
    let colours = vec![
        Rgb { r: 1, g: 2, b: 3 },
        Rgb { r: 4, g: 5, b: 6 },
        Rgb { r: 7, g: 8, b: 9 },
        Rgb { r: 10, g: 11, b: 12 },
        Rgb { r: 13, g: 14, b: 15 },
        Rgb { r: 16, g: 17, b: 18 },
    ];
    let f = Framebuffer::from_pixels(&settings(3, 2), &colours);
    assert_eq!(f.pixel(2, 1), Rgb { r: 16, g: 17, b: 18 });
    assert_eq!(
        f.into_bytes(),
        vec![
            10, 11, 12, 255, 13, 14, 15, 255, 16, 17, 18, 255, 1, 2, 3, 255, 4, 5, 6, 255, 7, 8,
            9, 255
        ]
    );
}

#[test]
fn equal_pixels_give_identical_frames() {
    let s = settings(4, 3);
    let colours: Vec<Rgb> = (0..12u8).map(|k| Rgb { r: k, g: k * 2, b: 255 - k }).collect();
    let a = Framebuffer::from_pixels(&s, &colours).into_bytes();
    let b = Framebuffer::from_pixels(&s, &colours).into_bytes();
    assert_eq!(a, b);
}

#[test]
fn miss_ends_on_background() {
    assert_eq!(next_step(0, 32, PathEvent::Miss), PathStep::Background);
    assert_eq!(next_step(32, 32, PathEvent::Miss), PathStep::Background);
}

#[test]
fn scattered_hit_bounces_deeper() {
    assert_eq!(
        next_step(3, 32, PathEvent::Hit { scattered: true }),
        PathStep::Bounce { depth: 4 }
    );
}

#[test]
fn absorbed_hit_ends_on_emission() {
    assert_eq!(next_step(3, 32, PathEvent::Hit { scattered: false }), PathStep::Emission);
}

#[test]
fn depth_limit_ends_on_emission() {
    assert_eq!(next_step(32, 32, PathEvent::Hit { scattered: true }), PathStep::Emission);
    assert_eq!(next_step(0, 0, PathEvent::Hit { scattered: true }), PathStep::Emission);
}

#[test]
fn path_makes_at_most_max_depth_plus_one_tests() {
    let max_depth = 5;
    let mut depth = 0;
    let mut tests = 0;
    loop {
        tests += 1;
        match next_step(depth, max_depth, PathEvent::Hit { scattered: true }) {
            PathStep::Bounce { depth: d } => depth = d,
            _ => break,
        }
    }
    assert_eq!(tests, 6);
}

#[test]
fn box_starts_moving_right_and_down() {
    let r = Render::new();
    assert_eq!((r.box_x, r.box_y, r.velocity_x, r.velocity_y), (24, 16, 1, 1));
}

#[test]
fn box_moves_one_pixel_a_step() {
    let mut r = Render::new();
    r.update();
    assert_eq!((r.box_x, r.box_y), (25, 17));
}

#[test]
fn box_turns_back_at_the_far_edge() {
    let mut r = Render { box_x: 448, box_y: 100, velocity_x: 1, velocity_y: -1 };
    r.update();
    assert_eq!((r.box_x, r.velocity_x), (449, 1));
    r.update();
    assert_eq!((r.box_x, r.velocity_x), (448, -1));
}

#[test]
fn box_stays_on_the_frame() {
    let mut r = Render::new();
    for _ in 0..2000 {
        r.update();
        assert!(r.box_x >= 0 && r.box_x + BOX_SIZE <= WIDTH as i16 + 1);
        assert!(r.box_y >= 0 && r.box_y + BOX_SIZE <= HEIGHT as i16 + 1);
    }
}
