use stripe_bench::pixel::Rgba;
use stripe_bench::raster::{buffer_len, side_length, Image, MAX_SIZE_POWER};

fn numbered(size_power: u32) -> Vec<u8> {
    let side = 1usize << size_power;
    (0..4 * side * side).map(|i| (i % 251) as u8).collect()
}

#[test]
fn side_length_is_power_of_two() {
    assert_eq!(side_length(0), 1);
    assert_eq!(side_length(1), 2);
    assert_eq!(side_length(8), 256);
    assert_eq!(side_length(MAX_SIZE_POWER), 1 << 30);
}

#[test]
fn buffer_len_is_four_bytes_per_pixel() {
    assert_eq!(buffer_len(0), 4);
    assert_eq!(buffer_len(1), 16);
    assert_eq!(buffer_len(8), 262144);
    assert_eq!(buffer_len(14), 1 << 30);
    assert_eq!(buffer_len(MAX_SIZE_POWER), 1 << 62);
}

#[test]
fn from_raw_accepts_exact_length_only() {
    assert!(Image::from_raw(0, vec![0; 4]).is_some());
    assert!(Image::from_raw(0, vec![0; 3]).is_none());
    assert!(Image::from_raw(0, vec![0; 5]).is_none());
    assert!(Image::from_raw(0, vec![]).is_none());
    assert!(Image::from_raw(2, vec![0; 64]).is_some());
    assert!(Image::from_raw(2, vec![0; 63]).is_none());
    assert!(Image::from_raw(2, vec![0; 65]).is_none());
    assert!(Image::from_raw(3, vec![0; 64]).is_none());
}

#[test]
fn from_raw_refuses_large_exponents() {
    assert!(Image::from_raw(31, vec![0; 4]).is_none());
    assert!(Image::from_raw(32, vec![0; 4]).is_none());
    assert!(Image::from_raw(u32::MAX, vec![]).is_none());
}

#[test]
fn raw_bytes_round_trip() {
    let data = numbered(3);
    let img = Image::from_raw(3, data.clone()).unwrap();
    assert_eq!(img.size_power(), 3);
    assert_eq!(img.width(), 8);
    assert_eq!(img.height(), 8);
    assert_eq!(img.byte_len(), 256);
    assert_eq!(img.as_bytes(), &data[..]);
    let copy = img.clone();
    assert_eq!(copy, img);
    assert_eq!(img.into_raw(), data);
    assert_eq!(copy.into_raw(), data);
}

#[test]
fn pixel_reads_four_bytes_at_row_major_offset() {
    for p in 0..=5u32 {
        let data = numbered(p);
        let img = Image::from_raw(p, data.clone()).unwrap();
        let side = img.width();
        for y in 0..side {
            for x in 0..side {
                let o = 4 * (y as usize * side as usize + x as usize);
                let expected = Rgba {
                    red: data[o],
                    green: data[o + 1],
                    blue: data[o + 2],
                    alpha: data[o + 3],
                };
                assert_eq!(img.pixel(x, y), expected);
            }
        }
    }
}

#[test]
fn pixel_tells_columns_from_rows() {
    let mut data = vec![0u8; 4 * 4 * 4];
    let o = 4 * (1 * 4 + 2);
    data[o] = 10;
    data[o + 1] = 20;
    data[o + 2] = 30;
    data[o + 3] = 40;
    let img = Image::from_raw(2, data).unwrap();
    assert_eq!(img.pixel(2, 1), Rgba { red: 10, green: 20, blue: 30, alpha: 40 });
    assert_eq!(img.pixel(1, 2), Rgba { red: 0, green: 0, blue: 0, alpha: 0 });
}
