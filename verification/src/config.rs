//! The service's configuration and the preferences handed to the fetch engine.

use vstd::prelude::*;
use crate::dispatch::{DispatchError, DispatchErrorView, Dispatcher};
use crate::text::{chars_of, decimal, push_decimal, same_text, string_of};

verus! {

/// Preferred video quality.
#[derive(Debug, Clone, Copy, PartialEq, Eq, Structural)]
pub enum VideoQualityEnv {
    Best,
    High,
    Medium,
    Low,
    Worst,
}

/// Preferred video codec.
#[derive(Debug, Clone, Copy, PartialEq, Eq, Structural)]
pub enum VideoCodecPreferenceEnv {
    VP9,
    AVC1,
    AV1,
    Any,
}

/// Preferred audio quality.
#[derive(Debug, Clone, Copy, PartialEq, Eq, Structural)]
pub enum AudioQualityEnv {
    Best,
    High,
    Medium,
    Low,
    Worst,
}

/// Preferred audio codec.
#[derive(Debug, Clone, Copy, PartialEq, Eq, Structural)]
pub enum AudioCodecPreferenceEnv {
    Opus,
    AAC,
    MP3,
    Any,
}

/// The quality and codec preferences of a fetch. The library hands them to the
/// fetch engine as they are.
#[derive(Debug, Clone, Copy, PartialEq, Eq, Structural)]
pub struct Preferences {
    pub video_quality: VideoQualityEnv,
    pub video_codec: VideoCodecPreferenceEnv,
    pub audio_quality: AudioQualityEnv,
    pub audio_codec: AudioCodecPreferenceEnv,
}

impl VideoQualityEnv {
    /// The quality that a name stands for. Names are written with a capital
    /// first letter.
    pub open spec fn named(name: Seq<char>) -> Option<VideoQualityEnv> {
        if name == "Best"@ {
            Some(VideoQualityEnv::Best)
        } else if name == "High"@ {
            Some(VideoQualityEnv::High)
        } else if name == "Medium"@ {
            Some(VideoQualityEnv::Medium)
        } else if name == "Low"@ {
            Some(VideoQualityEnv::Low)
        } else if name == "Worst"@ {
            Some(VideoQualityEnv::Worst)
        } else {
            None
        }
    }

    /// Reads a quality from its name.
    pub fn parse(name: &str) -> (r: Option<VideoQualityEnv>)
        ensures
            r == Self::named(name@),
    {
        if same_text(name, "Best") {
            Some(VideoQualityEnv::Best)
        } else if same_text(name, "High") {
            Some(VideoQualityEnv::High)
        } else if same_text(name, "Medium") {
            Some(VideoQualityEnv::Medium)
        } else if same_text(name, "Low") {
            Some(VideoQualityEnv::Low)
        } else if same_text(name, "Worst") {
            Some(VideoQualityEnv::Worst)
        } else {
            None
        }
    }
}

impl AudioQualityEnv {
    /// The quality that a name stands for. Names are written with a capital
    /// first letter.
    pub open spec fn named(name: Seq<char>) -> Option<AudioQualityEnv> {
        if name == "Best"@ {
            Some(AudioQualityEnv::Best)
        } else if name == "High"@ {
            Some(AudioQualityEnv::High)
        } else if name == "Medium"@ {
            Some(AudioQualityEnv::Medium)
        } else if name == "Low"@ {
            Some(AudioQualityEnv::Low)
        } else if name == "Worst"@ {
            Some(AudioQualityEnv::Worst)
        } else {
            None
        }
    }

    /// Reads a quality from its name.
    pub fn parse(name: &str) -> (r: Option<AudioQualityEnv>)
        ensures
            r == Self::named(name@),
    {
        if same_text(name, "Best") {
            Some(AudioQualityEnv::Best)
        } else if same_text(name, "High") {
            Some(AudioQualityEnv::High)
        } else if same_text(name, "Medium") {
            Some(AudioQualityEnv::Medium)
        } else if same_text(name, "Low") {
            Some(AudioQualityEnv::Low)
        } else if same_text(name, "Worst") {
            Some(AudioQualityEnv::Worst)
        } else {
            None
        }
    }
}

impl VideoCodecPreferenceEnv {
    /// The codec that a name stands for. Names are written in lower case.
    pub open spec fn named(name: Seq<char>) -> Option<VideoCodecPreferenceEnv> {
        if name == "vp9"@ {
            Some(VideoCodecPreferenceEnv::VP9)
        } else if name == "avc1"@ {
            Some(VideoCodecPreferenceEnv::AVC1)
        } else if name == "av1"@ {
            Some(VideoCodecPreferenceEnv::AV1)
        } else if name == "any"@ {
            Some(VideoCodecPreferenceEnv::Any)
        } else {
            None
        }
    }

    /// Reads a codec from its name.
    pub fn parse(name: &str) -> (r: Option<VideoCodecPreferenceEnv>)
        ensures
            r == Self::named(name@),
    {
        if same_text(name, "vp9") {
            Some(VideoCodecPreferenceEnv::VP9)
        } else if same_text(name, "avc1") {
            Some(VideoCodecPreferenceEnv::AVC1)
        } else if same_text(name, "av1") {
            Some(VideoCodecPreferenceEnv::AV1)
        } else if same_text(name, "any") {
            Some(VideoCodecPreferenceEnv::Any)
        } else {
            None
        }
    }
}

impl AudioCodecPreferenceEnv {
    /// The codec that a name stands for. Names are written in lower case.
    pub open spec fn named(name: Seq<char>) -> Option<AudioCodecPreferenceEnv> {
        if name == "opus"@ {
            Some(AudioCodecPreferenceEnv::Opus)
        } else if name == "aac"@ {
            Some(AudioCodecPreferenceEnv::AAC)
        } else if name == "mp3"@ {
            Some(AudioCodecPreferenceEnv::MP3)
        } else if name == "any"@ {
            Some(AudioCodecPreferenceEnv::Any)
        } else {
            None
        }
    }

    /// Reads a codec from its name.
    pub fn parse(name: &str) -> (r: Option<AudioCodecPreferenceEnv>)
        ensures
            r == Self::named(name@),
    {
        if same_text(name, "opus") {
            Some(AudioCodecPreferenceEnv::Opus)
        } else if same_text(name, "aac") {
            Some(AudioCodecPreferenceEnv::AAC)
        } else if same_text(name, "mp3") {
            Some(AudioCodecPreferenceEnv::MP3)
        } else if same_text(name, "any") {
            Some(AudioCodecPreferenceEnv::Any)
        } else {
            None
        }
    }
}

/// The value of a decimal digit.
pub open spec fn digit_value(c: char) -> Option<nat> {
    let n = c as u32;
    if 0x30 <= n <= 0x39 {
        Some((n - 0x30) as nat)
    } else {
        None
    }
}

/// The number that a run of decimal digits writes; the empty run writes zero.
/// `None` where a character is no digit.
pub open spec fn digits_value(s: Seq<char>) -> Option<nat>
    decreases s.len(),
{
    if s.len() == 0 {
        Some(0)
    } else {
        match (digits_value(s.drop_last()), digit_value(s.last())) {
            (Some(high), Some(low)) => Some(high * 10 + low),
            _ => None,
        }
    }
}

/// The number that a text writes, up to `max`: an optional `+`, then one decimal
/// digit or more. `None` for every other text and for a number above `max`.
pub open spec fn parsed_number(s: Seq<char>, max: nat) -> Option<nat> {
    let body = if s.len() > 0 && s[0] == '+' {
        s.drop_first()
    } else {
        s
    };
    if body.len() == 0 {
        None
    } else {
        match digits_value(body) {
            Some(value) => if value <= max {
                Some(value)
            } else {
                None
            },
            None => None,
        }
    }
}

/// The truth value that a text writes: `true` or `false`, nothing else.
pub open spec fn parsed_flag(s: Seq<char>) -> Option<bool> {
    if s == "true"@ {
        Some(true)
    } else if s == "false"@ {
        Some(false)
    } else {
        None
    }
}

proof fn lemma_digits_prefix(s: Seq<char>, n: int)
    requires
        0 <= n <= s.len(),
    ensures
        digits_value(s.take(n)) is None ==> digits_value(s) is None,
        digits_value(s) matches Some(whole) ==> digits_value(s.take(n)) matches Some(part) && part
            <= whole,
    decreases s.len() - n,
{
    if n == s.len() {
        assert(s.take(n) == s);
    } else {
        lemma_digits_prefix(s.drop_last(), n);
        assert(s.drop_last().take(n) == s.take(n));
    }
}

/// Reads a number up to `max` from a text.
pub fn parse_number(text: &str, max: u64) -> (r: Option<u64>)
    ensures
        r matches Some(value) ==> parsed_number(text@, max as nat) == Some(value as nat),
        r is None ==> parsed_number(text@, max as nat) is None,
{
    let chars = chars_of(text);
    let start: usize = if chars.len() > 0 && chars[0] == '+' {
        1
    } else {
        0
    };
    let ghost body = chars@.subrange(start as int, chars.len() as int);
    assert(body == if text@.len() > 0 && text@[0] == '+' {
        text@.drop_first()
    } else {
        text@
    });
    if start == chars.len() {
        return None;
    }
    let mut value: u64 = 0;
    let mut i: usize = start;
    assert(body.take(0) == Seq::<char>::empty());
    while i < chars.len()
        invariant
            start <= i <= chars.len(),
            body == chars@.subrange(start as int, chars.len() as int),
            body.len() > 0,
            body == if text@.len() > 0 && text@[0] == '+' {
                text@.drop_first()
            } else {
                text@
            },
            digits_value(body.take(i - start)) == Some(value as nat),
            value <= max,
        decreases chars.len() - i,
    {
        let c = chars[i];
        let n: u32 = c as u32;
        proof {
            lemma_digits_prefix(body, i - start + 1);
            assert(body.take(i - start + 1).drop_last() == body.take(i - start));
            assert(body.take(i - start + 1).last() == c);
        }
        if !(0x30 <= n && n <= 0x39) {
            return None;
        }
        let low: u64 = (n - 0x30) as u64;
        if low > max || value > (max - low) / 10 {
            assert(value * 10 + low > max);
            return None;
        }
        value = value * 10 + low;
        i += 1;
    }
    assert(body.take(chars.len() - start) == body);
    Some(value)
}

/// Reads a truth value from a text.
pub fn parse_flag(text: &str) -> (r: Option<bool>)
    ensures
        r == parsed_flag(text@),
{
    if same_text(text, "true") {
        Some(true)
    } else if same_text(text, "false") {
        Some(false)
    } else {
        None
    }
}

/// What `str::to_lowercase` makes of a text.
pub uninterp spec fn lowercased(s: Seq<char>) -> Seq<char>;

/// `str::to_lowercase` returns the text with each character in its lower-case
/// form, as Unicode defines it; the result is known by its name alone.
pub assume_specification[ str::to_lowercase ](s: &str) -> (r: String)
    ensures
        r@ == lowercased(s@),
;

/// The service's settings.
#[derive(Debug, Clone, PartialEq, Eq)]
pub struct Config {
    pub port: u16,
    pub host: String,
    pub external_url: String,
    pub use_https: bool,
    /// The cache root.
    pub download_dir: String,
    /// The time to live of a cache entry, in minutes.
    pub cleanup_after_minutes: u64,
    pub video_quality: VideoQualityEnv,
    pub video_codec: VideoCodecPreferenceEnv,
    pub audio_quality: AudioQualityEnv,
    pub audio_codec: AudioCodecPreferenceEnv,
    /// How many fetches may run at once.
    pub max_concurrent_downloads: usize,
    /// How long a job may take, in seconds.
    pub timeout_seconds: u64,
}

pub struct ConfigView {
    pub port: u16,
    pub host: Seq<char>,
    pub external_url: Seq<char>,
    pub use_https: bool,
    pub download_dir: Seq<char>,
    pub cleanup_after_minutes: u64,
    pub video_quality: VideoQualityEnv,
    pub video_codec: VideoCodecPreferenceEnv,
    pub audio_quality: AudioQualityEnv,
    pub audio_codec: AudioCodecPreferenceEnv,
    pub max_concurrent_downloads: usize,
    pub timeout_seconds: u64,
}

impl View for Config {
    type V = ConfigView;

    open spec fn view(&self) -> ConfigView {
        ConfigView {
            port: self.port,
            host: self.host@,
            external_url: self.external_url@,
            use_https: self.use_https,
            download_dir: self.download_dir@,
            cleanup_after_minutes: self.cleanup_after_minutes,
            video_quality: self.video_quality,
            video_codec: self.video_codec,
            audio_quality: self.audio_quality,
            audio_codec: self.audio_codec,
            max_concurrent_downloads: self.max_concurrent_downloads,
            timeout_seconds: self.timeout_seconds,
        }
    }
}

/// The settings of a service that was told nothing.
pub open spec fn default_config() -> ConfigView {
    ConfigView {
        port: 3000,
        host: "0.0.0.0"@,
        external_url: Seq::empty(),
        use_https: false,
        download_dir: "./downloads"@,
        cleanup_after_minutes: 10,
        video_quality: VideoQualityEnv::Best,
        video_codec: VideoCodecPreferenceEnv::VP9,
        audio_quality: AudioQualityEnv::Best,
        audio_codec: AudioCodecPreferenceEnv::Opus,
        max_concurrent_downloads: 5,
        timeout_seconds: 300,
    }
}

impl Default for Config {
    fn default() -> (config: Config)
        ensures
            config@ == default_config(),
    {
        Config {
            port: 3000,
            host: "0.0.0.0".to_owned(),
            external_url: String::new(),
            use_https: false,
            download_dir: "./downloads".to_owned(),
            cleanup_after_minutes: 10,
            video_quality: VideoQualityEnv::Best,
            video_codec: VideoCodecPreferenceEnv::VP9,
            audio_quality: AudioQualityEnv::Best,
            audio_codec: AudioCodecPreferenceEnv::Opus,
            max_concurrent_downloads: 5,
            timeout_seconds: 300,
        }
    }
}

/// The variables that configure the service, each as the environment holds it:
/// `None` where the variable is not set.
#[derive(Debug, Clone, PartialEq, Eq)]
pub struct Environment {
    pub port: Option<String>,
    pub host: Option<String>,
    pub external_url: Option<String>,
    pub use_https: Option<String>,
    pub download_dir: Option<String>,
    pub cleanup_after_minutes: Option<String>,
    pub video_quality: Option<String>,
    pub video_codec: Option<String>,
    pub audio_quality: Option<String>,
    pub audio_codec: Option<String>,
    pub max_concurrent_downloads: Option<String>,
    pub timeout_seconds: Option<String>,
}

/// The text of a variable, `None` where it is not set.
pub open spec fn variable(value: Option<String>) -> Option<Seq<char>> {
    match value {
        Some(text) => Some(text@),
        None => None,
    }
}

/// The number that a variable writes, or `default` where it is not set or writes
/// no number up to `max`.
pub open spec fn number_or(value: Option<Seq<char>>, max: nat, default: nat) -> nat {
    match value {
        Some(text) => match parsed_number(text, max) {
            Some(n) => n,
            None => default,
        },
        None => default,
    }
}

/// The text of a variable, or `default` where it is not set.
pub open spec fn text_or(value: Option<Seq<char>>, default: Seq<char>) -> Seq<char> {
    match value {
        Some(text) => text,
        None => default,
    }
}

/// The truth value that a variable writes, or `default` where it is not set or
/// writes none.
pub open spec fn flag_or(value: Option<Seq<char>>, default: bool) -> bool {
    match value {
        Some(text) => match parsed_flag(text) {
            Some(flag) => flag,
            None => default,
        },
        None => default,
    }
}

/// The name that a variable gives a preference by: its text in lower case.
pub open spec fn preference_name(value: Option<Seq<char>>) -> Option<Seq<char>> {
    match value {
        Some(text) => Some(lowercased(text)),
        None => None,
    }
}

/// The video quality that a variable names, or `default`.
pub open spec fn video_quality_or(value: Option<Seq<char>>, default: VideoQualityEnv) -> VideoQualityEnv {
    match preference_name(value) {
        Some(name) => match VideoQualityEnv::named(name) {
            Some(quality) => quality,
            None => default,
        },
        None => default,
    }
}

/// The audio quality that a variable names, or `default`.
pub open spec fn audio_quality_or(value: Option<Seq<char>>, default: AudioQualityEnv) -> AudioQualityEnv {
    match preference_name(value) {
        Some(name) => match AudioQualityEnv::named(name) {
            Some(quality) => quality,
            None => default,
        },
        None => default,
    }
}

/// The video codec that a variable names, or `default`.
pub open spec fn video_codec_or(
    value: Option<Seq<char>>,
    default: VideoCodecPreferenceEnv,
) -> VideoCodecPreferenceEnv {
    match preference_name(value) {
        Some(name) => match VideoCodecPreferenceEnv::named(name) {
            Some(codec) => codec,
            None => default,
        },
        None => default,
    }
}

/// The audio codec that a variable names, or `default`.
pub open spec fn audio_codec_or(
    value: Option<Seq<char>>,
    default: AudioCodecPreferenceEnv,
) -> AudioCodecPreferenceEnv {
    match preference_name(value) {
        Some(name) => match AudioCodecPreferenceEnv::named(name) {
            Some(codec) => codec,
            None => default,
        },
        None => default,
    }
}

/// The settings that an environment asks for: each variable that is set and can
/// be read replaces the default.
pub open spec fn configured(env: Environment) -> ConfigView {
    let default = default_config();
    ConfigView {
        port: number_or(variable(env.port), u16::MAX as nat, default.port as nat) as u16,
        host: text_or(variable(env.host), default.host),
        external_url: text_or(variable(env.external_url), default.external_url),
        use_https: flag_or(variable(env.use_https), default.use_https),
        download_dir: text_or(variable(env.download_dir), default.download_dir),
        cleanup_after_minutes: number_or(
            variable(env.cleanup_after_minutes),
            u64::MAX as nat,
            default.cleanup_after_minutes as nat,
        ) as u64,
        video_quality: video_quality_or(variable(env.video_quality), default.video_quality),
        video_codec: video_codec_or(variable(env.video_codec), default.video_codec),
        audio_quality: audio_quality_or(variable(env.audio_quality), default.audio_quality),
        audio_codec: audio_codec_or(variable(env.audio_codec), default.audio_codec),
        max_concurrent_downloads: number_or(
            variable(env.max_concurrent_downloads),
            usize::MAX as nat,
            default.max_concurrent_downloads as nat,
        ) as usize,
        timeout_seconds: number_or(
            variable(env.timeout_seconds),
            u64::MAX as nat,
            default.timeout_seconds as nat,
        ) as u64,
    }
}

/// Reads a number up to `max` from a variable, with a default.
pub fn parse_env_number(value: &Option<String>, max: u64, default: u64) -> (n: u64)
    ensures
        n == number_or(variable(*value), max as nat, default as nat),
{
    match value {
        Some(text) => match parse_number(text.as_str(), max) {
            Some(n) => n,
            None => default,
        },
        None => default,
    }
}

/// Reads a text from a variable, with a default.
pub fn parse_env_text(value: &Option<String>, default: &str) -> (text: String)
    ensures
        text@ == text_or(variable(*value), default@),
{
    match value {
        Some(text) => text.clone(),
        None => default.to_owned(),
    }
}

/// Reads a truth value from a variable, with a default.
pub fn parse_env_flag(value: &Option<String>, default: bool) -> (flag: bool)
    ensures
        flag == flag_or(variable(*value), default),
{
    match value {
        Some(text) => match parse_flag(text.as_str()) {
            Some(flag) => flag,
            None => default,
        },
        None => default,
    }
}

/// Reads a video quality from a variable, with a default. The variable's text is
/// put in lower case before it is read as a name.
pub fn parse_env_video_quality(value: &Option<String>, default: VideoQualityEnv) -> (quality:
    VideoQualityEnv)
    ensures
        quality == video_quality_or(variable(*value), default),
{
    match value {
        Some(text) => match VideoQualityEnv::parse(text.as_str().to_lowercase().as_str()) {
            Some(quality) => quality,
            None => default,
        },
        None => default,
    }
}

/// Reads an audio quality from a variable, with a default. The variable's text is
/// put in lower case before it is read as a name.
pub fn parse_env_audio_quality(value: &Option<String>, default: AudioQualityEnv) -> (quality:
    AudioQualityEnv)
    ensures
        quality == audio_quality_or(variable(*value), default),
{
    match value {
        Some(text) => match AudioQualityEnv::parse(text.as_str().to_lowercase().as_str()) {
            Some(quality) => quality,
            None => default,
        },
        None => default,
    }
}

/// Reads a video codec from a variable, with a default. The variable's text is put
/// in lower case before it is read as a name.
pub fn parse_env_video_codec(value: &Option<String>, default: VideoCodecPreferenceEnv) -> (codec:
    VideoCodecPreferenceEnv)
    ensures
        codec == video_codec_or(variable(*value), default),
{
    match value {
        Some(text) => match VideoCodecPreferenceEnv::parse(
            text.as_str().to_lowercase().as_str(),
        ) {
            Some(codec) => codec,
            None => default,
        },
        None => default,
    }
}

/// Reads an audio codec from a variable, with a default. The variable's text is put
/// in lower case before it is read as a name.
pub fn parse_env_audio_codec(value: &Option<String>, default: AudioCodecPreferenceEnv) -> (codec:
    AudioCodecPreferenceEnv)
    ensures
        codec == audio_codec_or(variable(*value), default),
{
    match value {
        Some(text) => match AudioCodecPreferenceEnv::parse(
            text.as_str().to_lowercase().as_str(),
        ) {
            Some(codec) => codec,
            None => default,
        },
        None => default,
    }
}

/// The address a configuration binds to: host, colon, port.
pub open spec fn address_of(config: ConfigView) -> Seq<char> {
    config.host + seq![':'] + decimal(config.port as nat)
}

impl Config {
    /// Makes the settings from the variables of the environment. A variable that
    /// is not set, or whose text cannot be read, leaves the default in place.
    pub fn from_env(env: &Environment) -> (config: Config)
        ensures
            config@ == configured(*env),
    {
        let port = parse_env_number(&env.port, 0xffff, 3000);
        let cleanup_after_minutes = parse_env_number(
            &env.cleanup_after_minutes,
            u64::MAX,
            10,
        );
        let max_concurrent_downloads = parse_env_number(
            &env.max_concurrent_downloads,
            usize::MAX as u64,
            5,
        );
        let timeout_seconds = parse_env_number(&env.timeout_seconds, u64::MAX, 300);
        proof {
            reveal_strlit("");
            assert(""@ =~= Seq::<char>::empty());
        }
        Config {
            port: port as u16,
            host: parse_env_text(&env.host, "0.0.0.0"),
            external_url: parse_env_text(&env.external_url, ""),
            use_https: parse_env_flag(&env.use_https, false),
            download_dir: parse_env_text(&env.download_dir, "./downloads"),
            cleanup_after_minutes,
            video_quality: parse_env_video_quality(&env.video_quality, VideoQualityEnv::Best),
            video_codec: parse_env_video_codec(&env.video_codec, VideoCodecPreferenceEnv::VP9),
            audio_quality: parse_env_audio_quality(&env.audio_quality, AudioQualityEnv::Best),
            audio_codec: parse_env_audio_codec(&env.audio_codec, AudioCodecPreferenceEnv::Opus),
            max_concurrent_downloads: max_concurrent_downloads as usize,
            timeout_seconds,
        }
    }

    /// The address to bind to: host, colon, port.
    pub fn address(&self) -> (address: String)
        ensures
            address@ == address_of(self@),
    {
        let mut out = chars_of(self.host.as_str());
        out.push(':');
        push_decimal(&mut out, self.port as u64);
        string_of(&out)
    }

    /// The preferences handed to the fetch engine.
    pub fn preferences(&self) -> (preferences: Preferences)
        ensures
            preferences == (Preferences {
                video_quality: self.video_quality,
                video_codec: self.video_codec,
                audio_quality: self.audio_quality,
                audio_codec: self.audio_codec,
            }),
    {
        Preferences {
            video_quality: self.video_quality,
            video_codec: self.video_codec,
            audio_quality: self.audio_quality,
            audio_codec: self.audio_codec,
        }
    }

    /// The dispatcher for these settings; a ceiling of zero fetches at once is
    /// refused. `windows_names` says whether artifact names avoid the names
    /// reserved on Windows.
    pub fn dispatcher(&self, windows_names: bool) -> (r: Result<Dispatcher, DispatchError>)
        ensures
            match r {
                Ok(d) => self.max_concurrent_downloads > 0 && d == (Dispatcher {
                    max_concurrent: self.max_concurrent_downloads,
                    timeout_seconds: self.timeout_seconds,
                    windows_names,
                    preferences: Preferences {
                        video_quality: self.video_quality,
                        video_codec: self.video_codec,
                        audio_quality: self.audio_quality,
                        audio_codec: self.audio_codec,
                    },
                }),
                Err(e) => self.max_concurrent_downloads == 0 && e@
                    == DispatchErrorView::InvalidConfiguration,
            },
    {
        Dispatcher::new(
            self.max_concurrent_downloads,
            self.timeout_seconds,
            windows_names,
            self.preferences(),
        )
    }
}

} // verus!
