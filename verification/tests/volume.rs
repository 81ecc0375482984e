use slipmat::volume::{clamp, icon_for};

fn icon(volume: f64) -> &'static str {
    icon_for(volume.to_bits())
}

fn clamped(volume: f64) -> f64 {
    f64::from_bits(clamp(volume.to_bits()))
}

#[test]
fn the_icon_reads_the_level() {
    assert_eq!(icon(0.0), "audio-volume-muted-symbolic");
    assert_eq!(icon(0.05), "audio-volume-low-symbolic");
    assert_eq!(icon(0.5), "audio-volume-medium-symbolic");
    assert_eq!(icon(1.0), "audio-volume-high-symbolic");
}

#[test]
fn silence_is_muted_rather_than_low() {
    assert_eq!(icon(0.0), "audio-volume-muted-symbolic");
    assert_ne!(icon(0.0), icon(f64::EPSILON));
}

#[test]
fn a_volume_outside_the_range_still_picks_an_icon() {
    assert_eq!(icon(-1.0), "audio-volume-muted-symbolic");
    assert_eq!(icon(2.0), "audio-volume-high-symbolic");
}

#[test]
fn the_thirds_fall_where_numbers_put_them() {
    for volume in [
        -f64::INFINITY, -1.0, -0.0, 0.0, f64::MIN_POSITIVE, 0.2, 1.0 / 3.0, 0.34, 0.6,
        2.0 / 3.0, 0.67, 1.0, 1.5, f64::INFINITY, f64::NAN, -f64::NAN,
    ] {
        let expected = match volume {
            v if v <= 0.0 => "audio-volume-muted-symbolic",
            v if v < 1.0 / 3.0 => "audio-volume-low-symbolic",
            v if v < 2.0 / 3.0 => "audio-volume-medium-symbolic",
            _ => "audio-volume-high-symbolic",
        };
        assert_eq!(icon(volume), expected, "{volume}");
    }
}

#[test]
fn a_volume_is_clamped_as_numbers_are() {
    for volume in [
        -f64::INFINITY, -1.0, -f64::MIN_POSITIVE, -0.0, 0.0, 0.3, 1.0, 1.0 + f64::EPSILON, 2.0,
        f64::INFINITY, f64::NAN,
    ] {
        assert_eq!(clamped(volume).to_bits(), volume.clamp(0.0, 1.0).to_bits(), "{volume}");
    }
}
