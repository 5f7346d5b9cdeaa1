use vstd::prelude::*;
use vstd::std_specs::convert::FromSpecImpl;
use crate::errors::{decimal, labelled, push_decimal};

verus! {

/// Why a configuration was refused.
#[derive(Debug)]
pub enum ConfigError {
    /// The configuration file could not be read or parsed.
    ParseError(String),
    /// `quality` is above 100.
    InvalidQuality(u8),
    /// `poll_ms` is below 100.
    InvalidPollMs(u64),
}

/// The text that describes a configuration error.
pub open spec fn config_message(e: ConfigError) -> Seq<char> {
    match e {
        ConfigError::ParseError(m) => "Failed to parse config: "@ + m@,
        ConfigError::InvalidQuality(q) => "Quality must be 0–100, got "@ + decimal(q as nat),
        ConfigError::InvalidPollMs(ms) => "poll_ms must be at least 100, got "@ + decimal(
            ms as nat,
        ),
    }
}

impl ConfigError {
    /// A human-readable description of the error.
    pub fn message(&self) -> (m: String)
        ensures
            m@ == config_message(*self),
    {
        proof {
            reveal_strlit("Failed to parse config: ");
            reveal_strlit("Quality must be 0–100, got ");
            reveal_strlit("poll_ms must be at least 100, got ");
        }
        match self {
            ConfigError::ParseError(m) => labelled("Failed to parse config: ", m),
            ConfigError::InvalidQuality(q) => {
                let mut m = String::from_str("Quality must be 0–100, got ");
                push_decimal(&mut m, *q as u64);
                m
            },
            ConfigError::InvalidPollMs(ms) => {
                let mut m = String::from_str("poll_ms must be at least 100, got ");
                push_decimal(&mut m, *ms);
                m
            },
        }
    }
}

/// Output format for compressed images, as named in the configuration file.
///
/// Lossy (quality applies): `jpeg`, `avif`. Lossless (quality ignored):
/// `webp`, `png`, `qoi`, `farbfeld`, `tiff`, `gif`, `hdr`, `openexr`.
/// Uncompressed: `bmp`, `tga`, `pnm`, `ico`.
#[derive(Debug, Clone, Copy, PartialEq, Eq, Structural)]
pub enum OutputFormat {
    Jpeg,
    Avif,
    Webp,
    Png,
    Qoi,
    Farbfeld,
    Tiff,
    Gif,
    Hdr,
    OpenExr,
    Bmp,
    Tga,
    Pnm,
    Ico,
}

/// The `[general]` section of the configuration.
#[derive(Debug, Clone)]
pub struct GeneralConfig {
    /// Output format. Default: `webp`.
    pub format: OutputFormat,
    /// Compression quality 0–100, used by the lossy formats. Default: 80.
    pub quality: u8,
    /// Clipboard polling interval in milliseconds, at least 100. Default: 500.
    pub poll_ms: u64,
    /// Further MIME types under which the compressed bytes are also offered.
    /// Default: none.
    pub extra_mimes: Vec<String>,
}

/// The whole configuration.
#[derive(Debug, Clone)]
pub struct Config {
    pub general: GeneralConfig,
}

pub open spec fn spec_default_quality() -> u8 {
    80
}

pub open spec fn spec_default_poll_ms() -> u64 {
    500
}

/// The default output format: WebP.
pub fn default_format() -> (f: OutputFormat)
    ensures
        f == OutputFormat::Webp,
{
    OutputFormat::Webp
}

/// The default quality: 80.
pub fn default_quality() -> (q: u8)
    ensures
        q == spec_default_quality(),
{
    80
}

/// The default polling interval: 500 ms.
pub fn default_poll_ms() -> (ms: u64)
    ensures
        ms == spec_default_poll_ms(),
{
    500
}

/// Whether a `[general]` section holds the default settings.
pub open spec fn is_default_general(g: GeneralConfig) -> bool {
    &&& g.format == OutputFormat::Webp
    &&& g.quality == spec_default_quality()
    &&& g.poll_ms == spec_default_poll_ms()
    &&& g.extra_mimes@.len() == 0
}

impl Default for GeneralConfig {
    fn default() -> (g: Self)
        ensures
            is_default_general(g),
    {
        GeneralConfig {
            format: default_format(),
            quality: default_quality(),
            poll_ms: default_poll_ms(),
            extra_mimes: Vec::new(),
        }
    }
}

impl Default for Config {
    fn default() -> (c: Self)
        ensures
            is_default_general(c.general),
    {
        Config { general: GeneralConfig::default() }
    }
}

/// Whether the settings are within their documented ranges.
pub open spec fn is_valid_config(c: Config) -> bool {
    c.general.quality <= 100 && c.general.poll_ms >= 100
}

/// Accepts a configuration whose quality is at most 100 and whose polling
/// interval is at least 100 ms; the quality is checked first.
pub fn validate(config: Config) -> (r: Result<Config, ConfigError>)
    ensures
        config.general.quality > 100 ==> (r matches Err(ConfigError::InvalidQuality(q))
            && q == config.general.quality),
        config.general.quality <= 100 && config.general.poll_ms < 100 ==> (r matches Err(
            ConfigError::InvalidPollMs(ms),
        ) && ms == config.general.poll_ms),
        is_valid_config(config) ==> r == Ok::<Config, ConfigError>(config),
{
    if config.general.quality > 100 {
        return Err(ConfigError::InvalidQuality(config.general.quality));
    }
    if config.general.poll_ms < 100 {
        return Err(ConfigError::InvalidPollMs(config.general.poll_ms));
    }
    Ok(config)
}

/// Completes loading once the file has been looked for and parsed: a missing
/// file (`None`) gives the defaults, a file that could not be read or parsed
/// gives `ParseError` with its message, and a parsed one is validated.
pub fn load_config_from(loaded: Option<Result<Config, String>>) -> (r: Result<Config, ConfigError>)
    ensures
        loaded is None ==> (r matches Ok(c) && is_default_general(c.general)),
        loaded matches Some(Err(msg)) ==> (r matches Err(ConfigError::ParseError(m)) && m == msg),
        loaded matches Some(Ok(c)) ==> (match r {
            Ok(v) => v == c && is_valid_config(c),
            Err(ConfigError::InvalidQuality(q)) => c.general.quality > 100 && q == c.general.quality,
            Err(ConfigError::InvalidPollMs(ms)) => c.general.quality <= 100 && c.general.poll_ms < 100
                && ms == c.general.poll_ms,
            Err(ConfigError::ParseError(_)) => false,
        }),
{
    match loaded {
        None => Ok(Config::default()),
        Some(Err(msg)) => Err(ConfigError::ParseError(msg)),
        Some(Ok(c)) => validate(c),
    }
}

/// The default configuration is accepted by validation.
pub proof fn lemma_default_config_is_valid(c: Config)
    requires
        is_default_general(c.general),
    ensures
        is_valid_config(c),
{
}

/// The library's format that a configured format stands for: the variant of
/// the same name.
pub open spec fn lib_format(f: OutputFormat) -> crate::shrink::OutputFormat {
    match f {
        OutputFormat::Jpeg => crate::shrink::OutputFormat::Jpeg,
        OutputFormat::Avif => crate::shrink::OutputFormat::Avif,
        OutputFormat::Webp => crate::shrink::OutputFormat::Webp,
        OutputFormat::Png => crate::shrink::OutputFormat::Png,
        OutputFormat::Qoi => crate::shrink::OutputFormat::Qoi,
        OutputFormat::Farbfeld => crate::shrink::OutputFormat::Farbfeld,
        OutputFormat::Tiff => crate::shrink::OutputFormat::Tiff,
        OutputFormat::Gif => crate::shrink::OutputFormat::Gif,
        OutputFormat::Hdr => crate::shrink::OutputFormat::Hdr,
        OutputFormat::OpenExr => crate::shrink::OutputFormat::OpenExr,
        OutputFormat::Bmp => crate::shrink::OutputFormat::Bmp,
        OutputFormat::Tga => crate::shrink::OutputFormat::Tga,
        OutputFormat::Pnm => crate::shrink::OutputFormat::Pnm,
        OutputFormat::Ico => crate::shrink::OutputFormat::Ico,
    }
}

impl From<OutputFormat> for crate::shrink::OutputFormat {
    fn from(f: OutputFormat) -> (r: Self) {
        match f {
            OutputFormat::Jpeg => crate::shrink::OutputFormat::Jpeg,
            OutputFormat::Avif => crate::shrink::OutputFormat::Avif,
            OutputFormat::Webp => crate::shrink::OutputFormat::Webp,
            OutputFormat::Png => crate::shrink::OutputFormat::Png,
            OutputFormat::Qoi => crate::shrink::OutputFormat::Qoi,
            OutputFormat::Farbfeld => crate::shrink::OutputFormat::Farbfeld,
            OutputFormat::Tiff => crate::shrink::OutputFormat::Tiff,
            OutputFormat::Gif => crate::shrink::OutputFormat::Gif,
            OutputFormat::Hdr => crate::shrink::OutputFormat::Hdr,
            OutputFormat::OpenExr => crate::shrink::OutputFormat::OpenExr,
            OutputFormat::Bmp => crate::shrink::OutputFormat::Bmp,
            OutputFormat::Tga => crate::shrink::OutputFormat::Tga,
            OutputFormat::Pnm => crate::shrink::OutputFormat::Pnm,
            OutputFormat::Ico => crate::shrink::OutputFormat::Ico,
        }
    }
}

impl FromSpecImpl<OutputFormat> for crate::shrink::OutputFormat {
    open spec fn obeys_from_spec() -> bool {
        true
    }

    open spec fn from_spec(f: OutputFormat) -> Self {
        lib_format(f)
    }
}

/// Converting a configured format never merges two formats: distinct
/// configured formats stand for distinct output formats.
pub proof fn lemma_lib_format_injective(a: OutputFormat, b: OutputFormat)
    requires
        lib_format(a) == lib_format(b),
    ensures
        a == b,
{
}

/// What the daemon runs with.
pub struct Settings {
    pub options: crate::shrink::ShrinkOptions,
    /// Clipboard polling interval in milliseconds.
    pub poll_ms: u64,
    pub extra_mimes: Vec<String>,
}

/// The settings that a configuration gives; a configuration that could not
/// be loaded gives the defaults.
pub fn settings_from(loaded: Result<Config, ConfigError>) -> (s: Settings)
    ensures
        match loaded {
            Ok(c) => s.options.target_format == lib_format(c.general.format) && s.options.quality
                == c.general.quality && s.poll_ms == c.general.poll_ms && s.extra_mimes@
                == c.general.extra_mimes@,
            Err(_) => s.options.target_format == crate::shrink::OutputFormat::Webp
                && s.options.quality == spec_default_quality() && s.poll_ms
                == spec_default_poll_ms() && s.extra_mimes@.len() == 0,
        },
{
    let cfg = match loaded {
        Ok(c) => c,
        Err(_) => Config::default(),
    };
    let target_format = crate::shrink::OutputFormat::from(cfg.general.format);
    Settings {
        options: crate::shrink::ShrinkOptions { quality: cfg.general.quality, target_format },
        poll_ms: cfg.general.poll_ms,
        extra_mimes: cfg.general.extra_mimes,
    }
}

} // verus!
