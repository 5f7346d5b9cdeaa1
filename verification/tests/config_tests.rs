use k_shrink::config::{default_format, default_poll_ms, default_quality, OutputFormat};
use k_shrink::{load_config_from, validate, Config, ConfigError, GeneralConfig};
use std::path::PathBuf;

#[test]
fn default_config_format_webp_quality_80() {
    let c = Config::default();
    assert_eq!(c.general.format, OutputFormat::Webp);
    assert_eq!(c.general.quality, 80);
    assert_eq!(c.general.poll_ms, 500);
}

#[test]
fn missing_file_returns_default() {
    let path = PathBuf::from("/tmp/definitely_does_not_exist_k_shrink.toml");
    let result = if !path.exists() {
        load_config_from(None)
    } else {
        load_config_from(Some(Ok(Config::default())))
    };
    assert!(result.is_ok());
    assert_eq!(result.unwrap().general.quality, 80);
}

#[test]
fn invalid_quality_returns_error() {
    let c = Config {
        general: GeneralConfig {
            format: OutputFormat::Webp,
            quality: 200,
            poll_ms: 500,
            extra_mimes: Vec::new(),
        },
    };
    assert!(matches!(validate(c), Err(ConfigError::InvalidQuality(200))));
}

#[test]
fn poll_ms_too_low_returns_error() {
    let c = Config {
        general: GeneralConfig {
            format: OutputFormat::Webp,
            quality: 80,
            poll_ms: 50,
            extra_mimes: Vec::new(),
        },
    };
    assert!(matches!(validate(c), Err(ConfigError::InvalidPollMs(50))));
}

#[test]
fn quality_checked_before_poll_interval() {
    let c = Config {
        general: GeneralConfig {
            format: OutputFormat::Jpeg,
            quality: 101,
            poll_ms: 99,
            extra_mimes: Vec::new(),
        },
    };
    assert!(matches!(validate(c), Err(ConfigError::InvalidQuality(101))));
}

#[test]
fn boundary_values_are_accepted() {
    let c = Config {
        general: GeneralConfig {
            format: OutputFormat::Avif,
            quality: 100,
            poll_ms: 100,
            extra_mimes: vec!["image/png".to_string()],
        },
    };
    let v = validate(c).unwrap();
    assert_eq!(v.general.quality, 100);
    assert_eq!(v.general.poll_ms, 100);
    assert_eq!(v.general.extra_mimes, vec!["image/png".to_string()]);
}

#[test]
fn default_config_passes_validation() {
    let v = validate(Config::default()).unwrap();
    assert_eq!(v.general.format, OutputFormat::Webp);
    assert!(v.general.extra_mimes.is_empty());
}

#[test]
fn default_helpers() {
    assert_eq!(default_format(), OutputFormat::Webp);
    assert_eq!(default_quality(), 80);
    assert_eq!(default_poll_ms(), 500);
}

#[test]
fn parse_failure_becomes_parse_error() {
    let r = load_config_from(Some(Err("bad toml".to_string())));
    assert!(matches!(r, Err(ConfigError::ParseError(ref m)) if m == "bad toml"));
}

#[test]
fn loaded_config_is_validated() {
    let mut c = Config::default();
    c.general.poll_ms = 10;
    assert!(matches!(load_config_from(Some(Ok(c))), Err(ConfigError::InvalidPollMs(10))));
    let mut ok = Config::default();
    ok.general.quality = 40;
    assert_eq!(load_config_from(Some(Ok(ok))).unwrap().general.quality, 40);
}

#[test]
fn configured_format_converts_to_same_named_format() {
    let pairs = [
        (OutputFormat::Jpeg, k_shrink::OutputFormat::Jpeg),
        (OutputFormat::Avif, k_shrink::OutputFormat::Avif),
        (OutputFormat::Webp, k_shrink::OutputFormat::Webp),
        (OutputFormat::Png, k_shrink::OutputFormat::Png),
        (OutputFormat::Qoi, k_shrink::OutputFormat::Qoi),
        (OutputFormat::Farbfeld, k_shrink::OutputFormat::Farbfeld),
        (OutputFormat::Tiff, k_shrink::OutputFormat::Tiff),
        (OutputFormat::Gif, k_shrink::OutputFormat::Gif),
        (OutputFormat::Hdr, k_shrink::OutputFormat::Hdr),
        (OutputFormat::OpenExr, k_shrink::OutputFormat::OpenExr),
        (OutputFormat::Bmp, k_shrink::OutputFormat::Bmp),
        (OutputFormat::Tga, k_shrink::OutputFormat::Tga),
        (OutputFormat::Pnm, k_shrink::OutputFormat::Pnm),
        (OutputFormat::Ico, k_shrink::OutputFormat::Ico),
    ];
    for (c, l) in pairs {
        let converted: k_shrink::OutputFormat = c.into();
        assert_eq!(converted, l);
    }
}

#[test]
fn settings_follow_the_configuration() {
    let mut c = Config::default();
    c.general.format = OutputFormat::Jpeg;
    c.general.quality = 55;
    c.general.poll_ms = 250;
    c.general.extra_mimes = vec!["image/png".to_string()];
    let s = k_shrink::settings_from(Ok(c));
    assert_eq!(s.options.target_format, k_shrink::OutputFormat::Jpeg);
    assert_eq!(s.options.quality, 55);
    assert_eq!(s.poll_ms, 250);
    assert_eq!(s.extra_mimes, vec!["image/png".to_string()]);
}

#[test]
fn settings_default_when_config_failed() {
    let s = k_shrink::settings_from(Err(ConfigError::InvalidQuality(200)));
    assert_eq!(s.options.target_format, k_shrink::OutputFormat::Webp);
    assert_eq!(s.options.quality, 80);
    assert_eq!(s.poll_ms, 500);
    assert!(s.extra_mimes.is_empty());
}
