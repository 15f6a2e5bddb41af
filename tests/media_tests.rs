use izkaypro::media::{detect_media_format, Media, MediaError, MediaFormat};

fn patterned(len: usize) -> Vec<u8> {
    (0..len).map(|i| (i % 251) as u8).collect()
}

#[test]
fn format_detection_known_lengths() {
    assert_eq!(detect_media_format(102400), MediaFormat::SSSD);
    assert_eq!(detect_media_format(204800), MediaFormat::SSDD);
    assert_eq!(detect_media_format(205312), MediaFormat::SSDD);
    assert_eq!(detect_media_format(205824), MediaFormat::SSDD);
    assert_eq!(detect_media_format(409600), MediaFormat::DSDD);
    assert_eq!(detect_media_format(410624), MediaFormat::DSDD);
    assert_eq!(detect_media_format(411648), MediaFormat::DSDD);
}

#[test]
fn format_detection_unknown_lengths() {
    assert_eq!(detect_media_format(409599), MediaFormat::Unformatted);
    assert_eq!(detect_media_format(411649), MediaFormat::Unformatted);
    assert_eq!(detect_media_format(0), MediaFormat::Unformatted);
    assert_eq!(detect_media_format(102401), MediaFormat::Unformatted);
}

#[test]
fn geometry_by_format() {
    let m = Media::new("dsdd".to_string(), vec![0; 409600]);
    assert!(m.double_sided());
    assert_eq!(m.tracks(), 40);
    assert_eq!(m.sectors_per_side(), 10);
    assert_eq!(m.sectors(), 20);
    let m = Media::new("ssdd".to_string(), vec![0; 204800]);
    assert!(!m.double_sided());
    assert_eq!(m.sectors(), 10);
    let m = Media::new("raw".to_string(), vec![0; 10]);
    assert_eq!(m.format, MediaFormat::Unformatted);
    assert_eq!(m.tracks(), 0);
    assert_eq!(m.sectors_per_side(), 0);
    assert!(!m.is_valid_track(0));
}

#[test]
fn write_then_read_round_trip() {
    let mut m = Media::new("ssdd".to_string(), vec![0; 204800]);
    for &o in &[0usize, 1, 511, 512, 100000, 204799] {
        m.write_byte(o, 0xa5);
        assert_eq!(m.read_byte(o), 0xa5);
        m.write_byte(o, 0x3c);
        assert_eq!(m.read_byte(o), 0x3c);
    }
}

#[test]
fn write_extends_dirty_range() {
    let mut m = Media::new("ssdd".to_string(), vec![0; 204800]);
    assert!(m.write_max < m.write_min);
    m.write_byte(700, 1);
    assert_eq!((m.write_min, m.write_max), (700, 700));
    m.write_byte(600, 1);
    m.write_byte(900, 1);
    assert_eq!((m.write_min, m.write_max), (600, 900));
}

#[test]
fn flush_twice_writes_once() {
    let mut m = Media::new("disk".to_string(), vec![0; 204800]);
    m.load_disk("disk.img".to_string(), patterned(204800), true).unwrap();
    m.write_byte(10, 0xff);
    m.write_byte(13, 0xee);
    let w = m.flush_disk().expect("a write");
    assert_eq!(w.offset, 10);
    // The whole span goes out, untouched interior bytes included.
    assert_eq!(w.bytes, vec![0xff, 11, 12, 0xee]);
    assert!(m.flush_disk().is_none());
    assert!(m.write_max < m.write_min);
}

#[test]
fn transient_flush_writes_nothing() {
    let mut m = Media::new("mem".to_string(), vec![0; 204800]);
    m.write_byte(5, 9);
    assert!(m.flush_disk().is_none());
    assert!(m.write_max < m.write_min);
    assert_eq!(m.read_byte(5), 9);
}

#[test]
fn load_rejects_unknown_length_and_keeps_content() {
    let mut m = Media::new("old".to_string(), vec![7; 204800]);
    let r = m.load_disk("bad.img".to_string(), vec![0; 1000], true);
    assert_eq!(r.err(), Some(MediaError::UnrecognizedFormat(1000)));
    assert_eq!(m.name, "old");
    assert_eq!(m.content.len(), 204800);
    assert_eq!(m.read_byte(0), 7);
    assert!(!m.persistent);
}

#[test]
fn load_returns_pending_writes_of_previous_image() {
    let mut m = Media::new("old".to_string(), vec![0; 204800]);
    m.load_disk("a.img".to_string(), vec![0; 204800], true).unwrap();
    m.write_byte(3, 1);
    let w = m.load_disk("b.img".to_string(), vec![2; 409600], false).unwrap().expect("pending");
    assert_eq!(w.offset, 3);
    assert_eq!(w.bytes, vec![1]);
    assert_eq!(m.format, MediaFormat::DSDD);
    assert_eq!(m.name, "b.img");
    assert!(m.write_max < m.write_min);
}

#[test]
fn sector_addressing_double_sided() {
    let m = Media::new("dsdd".to_string(), vec![0; 409600]);
    assert_eq!(m.sector_index(false, 0, 0), (true, 0, 512));
    assert_eq!(m.sector_index(true, 0, 10), (true, 5120, 5632));
    assert_eq!(m.sector_index(false, 1, 3), (true, (20 + 3) * 512, (20 + 4) * 512));
    assert_eq!(m.sector_index(true, 39, 19), (true, 799 * 512, 800 * 512));
    assert_eq!(m.sector_index(false, 0, 10), (false, 0, 0));
    assert_eq!(m.sector_index(true, 0, 9), (false, 0, 0));
    assert_eq!(m.sector_index(true, 0, 20), (false, 0, 0));
    assert_eq!(m.sector_index(false, 40, 0), (false, 0, 0));
    assert!(m.is_valid_sector(true, 5, 15));
    assert!(!m.is_valid_sector(true, 5, 5));
}

#[test]
fn sector_addressing_single_sided() {
    let m = Media::new("ssdd".to_string(), vec![0; 204800]);
    assert_eq!(m.sector_index(true, 0, 10), (false, 0, 0));
    assert_eq!(m.sector_index(false, 39, 9), (true, 399 * 512, 400 * 512));
    assert!(m.is_valid_track(39));
    assert!(!m.is_valid_track(40));
}

#[test]
fn single_density_sectors_stay_inside_the_image() {
    let m = Media::new("sssd".to_string(), vec![0; 102400]);
    assert_eq!(m.format, MediaFormat::SSSD);
    assert_eq!(m.sector_index(false, 19, 9), (true, 199 * 512, 200 * 512));
    assert_eq!(m.sector_index(false, 20, 0), (false, 0, 0));
}

#[test]
fn sector_increment_wraps() {
    let m = Media::new("ssdd".to_string(), vec![0; 204800]);
    assert_eq!(m.inc_sector(0), 1);
    assert_eq!(m.inc_sector(8), 9);
    assert_eq!(m.inc_sector(9), 0);
    assert_eq!(m.inc_sector(255), 0);
}

#[test]
fn info_describes_media() {
    let m = Media::new("Blank".to_string(), vec![0; 204800]);
    assert_eq!(m.info(), "Blank (transient  (SSDD))");
    let mut m = Media::new("x".to_string(), vec![0; 204800]);
    m.load_disk("d.img".to_string(), vec![0; 409600], true).unwrap();
    assert_eq!(m.info(), "d.img (persistent  (DSDD))");
}
