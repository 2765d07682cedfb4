use rgb_clock::{add_colors, scale_color, Rgb};

// ===== scale_color =====

#[test]
fn test_scale_color_basic() {
    assert_eq!(scale_color((10, 20, 30), 2), (20, 40, 60));
    assert_eq!(scale_color((1, 2, 3), 10), (10, 20, 30));
}

#[test]
fn test_scale_color_zero_factor() {
    assert_eq!(scale_color((255, 255, 255), 0), (0, 0, 0));
}

#[test]
fn test_scale_color_one_factor() {
    assert_eq!(scale_color((100, 150, 200), 1), (100, 150, 200));
}

#[test]
fn test_scale_color_saturates() {
    // Should saturate at 255, not overflow
    assert_eq!(scale_color((100, 100, 100), 10), (255, 255, 255));
    assert_eq!(scale_color((128, 64, 32), 3), (255, 192, 96));
}

// ===== add_colors =====

#[test]
fn test_add_colors_basic() {
    assert_eq!(add_colors((10, 20, 30), (5, 10, 15)), (15, 30, 45));
}

#[test]
fn test_add_colors_with_zero() {
    assert_eq!(add_colors((100, 150, 200), (0, 0, 0)), (100, 150, 200));
    assert_eq!(add_colors((0, 0, 0), (100, 150, 200)), (100, 150, 200));
}

#[test]
fn test_add_colors_saturates() {
    // Should saturate at 255, not overflow
    assert_eq!(
        add_colors((200, 200, 200), (100, 100, 100)),
        (255, 255, 255)
    );
    assert_eq!(add_colors((255, 0, 128), (1, 255, 200)), (255, 255, 255));
}

#[test]
fn test_add_colors_partial_saturation() {
    // Only some channels saturate
    assert_eq!(add_colors((200, 50, 100), (100, 50, 100)), (255, 100, 200));
}

// ===== every input =====

fn capped(value: u32) -> u8 {
    if value > 255 {
        255
    } else {
        value as u8
    }
}

#[test]
fn scale_color_is_the_capped_product_for_every_channel_and_factor() {
    for channel in 0..=255u8 {
        for factor in 0..=255u8 {
            let expected: u8 = capped(u32::from(channel) * u32::from(factor));
            let other: u8 = capped(u32::from(255 - channel) * u32::from(factor));
            assert_eq!(
                scale_color((channel, 255 - channel, channel), factor),
                (expected, other, expected)
            );
        }
    }
}

#[test]
fn add_colors_is_the_capped_sum_for_every_pair_of_channels() {
    for left in 0..=255u8 {
        for right in 0..=255u8 {
            let expected: u8 = capped(u32::from(left) + u32::from(right));
            let other: u8 = capped(u32::from(255 - left) + u32::from(right));
            assert_eq!(
                add_colors((left, 255 - left, left), (right, right, right)),
                (expected, other, expected)
            );
        }
    }
}

#[test]
fn scale_color_channels_are_independent() {
    assert_eq!(scale_color((1, 200, 0), 2), (2, 255, 0));
    assert_eq!(scale_color((255, 1, 128), 255), (255, 255, 255));
    assert_eq!(scale_color((0, 0, 0), 255), (0, 0, 0));
    assert_eq!(scale_color((51, 52, 50), 5), (255, 255, 250));
}

#[test]
fn add_colors_does_not_depend_on_order() {
    let samples: [Rgb; 5] = [(0, 0, 0), (1, 2, 3), (200, 100, 55), (255, 255, 255), (128, 127, 254)];
    for a in samples {
        for b in samples {
            assert_eq!(add_colors(a, b), add_colors(b, a));
        }
    }
}

#[test]
fn add_colors_does_not_depend_on_grouping() {
    let samples: [Rgb; 5] = [(0, 0, 0), (1, 2, 3), (200, 100, 55), (255, 255, 255), (128, 127, 254)];
    for a in samples {
        for b in samples {
            for c in samples {
                assert_eq!(add_colors(add_colors(a, b), c), add_colors(a, add_colors(b, c)));
            }
        }
    }
    assert_eq!(
        add_colors(add_colors((200, 1, 0), (100, 2, 0)), (50, 3, 0)),
        (255, 6, 0)
    );
}
