use simple_rpt::config::AspectRatio;
use simple_rpt::config::Config;
use simple_rpt::config::ImageConfig;
use simple_rpt::config::RenderConfig;
use simple_rpt::config::default_max_depth;
use simple_rpt::config::default_output_path;
use simple_rpt::config::default_samples_per_pixel;
use simple_rpt::config::default_width;

#[test]
fn default_values() {
    assert_eq!(default_width(), 400);
    assert_eq!(default_output_path(), "output/image.ppm");
    assert_eq!(default_samples_per_pixel(), 100);
    assert_eq!(default_max_depth(), 50);
}

#[test]
fn default_image_config_resolves_to_16_9() {
    let c = ImageConfig::default();
    let r = c.resolved();
    assert_eq!(r.width, 400);
    // round(400 / (16/9)) = round(225.0)
    assert_eq!(r.height, 225);
    assert_eq!(r.aspect_ratio, AspectRatio { num: 16, den: 9 });
    assert_eq!(r.output_path, "output/image.ppm");
}

#[test]
fn derived_height_rounds_half_up() {
    // 401 * 9 / 16 = 225.5625 -> 226
    let c = ImageConfig {
        width: 401,
        ..ImageConfig::default()
    };
    assert_eq!(c.resolved().height, 226);

    // 4 * 2 / 3 = 2.666... -> 3
    let c = ImageConfig {
        width: 4,
        aspect_ratio: Some(AspectRatio { num: 3, den: 2 }),
        ..ImageConfig::default()
    };
    assert_eq!(c.resolved().height, 3);

    // 1 * 1 / 2 = 0.5 -> rounds away from zero to 1
    let c = ImageConfig {
        width: 1,
        aspect_ratio: Some(AspectRatio { num: 2, den: 1 }),
        ..ImageConfig::default()
    };
    assert_eq!(c.resolved().height, 1);
}

#[test]
fn explicit_height_wins() {
    let c = ImageConfig {
        width: 640,
        height: Some(480),
        aspect_ratio: Some(AspectRatio { num: 16, den: 9 }),
        ..ImageConfig::default()
    };
    let r = c.resolved();
    assert_eq!(r.width, 640);
    assert_eq!(r.height, 480);
}

#[test]
fn aspect_pair_is_used_when_no_direct_ratio() {
    let c = ImageConfig {
        width: 300,
        aspect_width: Some(3),
        aspect_height: Some(2),
        ..ImageConfig::default()
    };
    let r = c.resolved();
    assert_eq!(r.aspect_ratio, AspectRatio { num: 3, den: 2 });
    assert_eq!(r.height, 200);
}

#[test]
fn direct_ratio_wins_over_pair() {
    let c = ImageConfig {
        width: 100,
        aspect_ratio: Some(AspectRatio { num: 1, den: 1 }),
        aspect_width: Some(16),
        aspect_height: Some(9),
        ..ImageConfig::default()
    };
    let r = c.resolved();
    assert_eq!(r.aspect_ratio, AspectRatio { num: 1, den: 1 });
    assert_eq!(r.height, 100);
}

#[test]
fn zero_aspect_height_falls_back_to_default() {
    let c = ImageConfig {
        width: 400,
        aspect_width: Some(7),
        aspect_height: Some(0),
        ..ImageConfig::default()
    };
    let r = c.resolved();
    assert_eq!(r.aspect_ratio, AspectRatio { num: 16, den: 9 });
    assert_eq!(r.height, 225);
}

#[test]
fn missing_half_of_pair_falls_back_to_default() {
    let c = ImageConfig {
        width: 400,
        aspect_width: Some(7),
        ..ImageConfig::default()
    };
    assert_eq!(c.resolved().aspect_ratio, AspectRatio { num: 16, den: 9 });
}

#[test]
fn zero_ratio_numerator_saturates_height() {
    let c = ImageConfig {
        width: 10,
        aspect_ratio: Some(AspectRatio { num: 0, den: 1 }),
        ..ImageConfig::default()
    };
    assert_eq!(c.resolved().height, u32::MAX);
}

#[test]
fn resolve_carries_render_settings() {
    let c = Config::default();
    let r = c.resolve();
    assert_eq!(r.samples_per_pixel, 100);
    assert_eq!(r.max_depth, 50);
    assert_eq!(r.image.width, 400);
    assert_eq!(r.image.height, 225);

    let c = Config {
        render: RenderConfig {
            samples_per_pixel: 7,
            max_depth: 3,
        },
        ..Config::default()
    };
    let r = c.resolve();
    assert_eq!(r.samples_per_pixel, 7);
    assert_eq!(r.max_depth, 3);
}

#[test]
fn output_path_is_kept() {
    let c = ImageConfig {
        output_path: String::from("render/out.ppm"),
        ..ImageConfig::default()
    };
    assert_eq!(c.resolved().output_path, "render/out.ppm");
}
