//! The launcher's configuration: its keys, what each holds, and reading and
//! writing a key by name.
//!
//! The three sampling settings are `f32` values; the configuration holds
//! each as its bit pattern (`f32::to_bits`), and their text is written and
//! read outside this library.
use vstd::prelude::*;

use crate::text::{decimal, parse_unsigned, parse_unsigned_spec, str_eq, to_decimal};

verus! {

/// A key of the configuration file.
#[derive(Clone, Copy, Debug, PartialEq, Eq, Structural)]
pub enum ConfigKey {
    KvCache,
    KvAdaptive,
    FlashMode,
    DefaultModel,
    Temperature,
    TopP,
    RepeatPenalty,
    MaxTokens,
    MaxSeq,
    Thinking,
    MaxThinkTokens,
    Host,
    Port,
    DflashMode,
}

/// What a key holds: free text, an `f32`, or an unsigned integer.
#[derive(Clone, Copy, Debug, PartialEq, Eq, Structural)]
pub enum KeyKind {
    Text,
    Float,
    Integer,
}

/// The value of a key that is set, as contracts see it.
pub enum Setting {
    Text(Seq<char>),
    /// The bit pattern of an `f32`.
    Float(u32),
    Int(nat),
}

/// What reading a key shows: text (integers in decimal) or an `f32`'s bits.
pub enum Shown {
    Text(Seq<char>),
    Float(u32),
}

/// The value that reading a key gives.
pub enum ConfigValue {
    Text(String),
    /// The bit pattern of an `f32`.
    Float(u32),
}

impl View for ConfigValue {
    type V = Shown;

    open spec fn view(&self) -> Shown {
        match self {
            ConfigValue::Text(s) => Shown::Text(s@),
            ConfigValue::Float(b) => Shown::Float(*b),
        }
    }
}

/// Why setting a key failed.
#[derive(Clone, Copy, Debug, PartialEq, Eq, Structural)]
pub enum SetError {
    /// The key holds an integer and the text is not one that fits.
    NotAnInteger,
    /// The key holds an `f32`: its value must be given as one.
    FloatKey,
    /// An `f32` was given for a key that does not hold one.
    NotAFloatKey,
}

/// What each key holds.
pub open spec fn kind_of(key: ConfigKey) -> KeyKind {
    match key {
        ConfigKey::Temperature | ConfigKey::TopP | ConfigKey::RepeatPenalty => KeyKind::Float,
        ConfigKey::MaxTokens | ConfigKey::MaxSeq | ConfigKey::MaxThinkTokens | ConfigKey::Port => {
            KeyKind::Integer
        },
        _ => KeyKind::Text,
    }
}

/// The largest value of an integer key: that of its field's type.
pub open spec fn int_limit(key: ConfigKey) -> nat {
    match key {
        ConfigKey::MaxTokens => u32::MAX as nat,
        ConfigKey::MaxSeq | ConfigKey::MaxThinkTokens => usize::MAX as nat,
        ConfigKey::Port => u16::MAX as nat,
        _ => 0,
    }
}

/// The name of each key in the configuration file and on the command line.
pub open spec fn key_name_spec(key: ConfigKey) -> Seq<char> {
    match key {
        ConfigKey::KvCache => "kv_cache"@,
        ConfigKey::KvAdaptive => "kv_adaptive"@,
        ConfigKey::FlashMode => "flash_mode"@,
        ConfigKey::DefaultModel => "default_model"@,
        ConfigKey::Temperature => "temperature"@,
        ConfigKey::TopP => "top_p"@,
        ConfigKey::RepeatPenalty => "repeat_penalty"@,
        ConfigKey::MaxTokens => "max_tokens"@,
        ConfigKey::MaxSeq => "max_seq"@,
        ConfigKey::Thinking => "thinking"@,
        ConfigKey::MaxThinkTokens => "max_think_tokens"@,
        ConfigKey::Host => "host"@,
        ConfigKey::Port => "port"@,
        ConfigKey::DflashMode => "dflash_mode"@,
    }
}

/// The key that a name names, if any.
pub open spec fn key_named(s: Seq<char>) -> Option<ConfigKey> {
    if s == "kv_cache"@ {
        Some(ConfigKey::KvCache)
    } else if s == "kv_adaptive"@ {
        Some(ConfigKey::KvAdaptive)
    } else if s == "flash_mode"@ {
        Some(ConfigKey::FlashMode)
    } else if s == "default_model"@ {
        Some(ConfigKey::DefaultModel)
    } else if s == "temperature"@ {
        Some(ConfigKey::Temperature)
    } else if s == "top_p"@ {
        Some(ConfigKey::TopP)
    } else if s == "repeat_penalty"@ {
        Some(ConfigKey::RepeatPenalty)
    } else if s == "max_tokens"@ {
        Some(ConfigKey::MaxTokens)
    } else if s == "max_seq"@ {
        Some(ConfigKey::MaxSeq)
    } else if s == "thinking"@ {
        Some(ConfigKey::Thinking)
    } else if s == "max_think_tokens"@ {
        Some(ConfigKey::MaxThinkTokens)
    } else if s == "host"@ {
        Some(ConfigKey::Host)
    } else if s == "port"@ {
        Some(ConfigKey::Port)
    } else if s == "dflash_mode"@ {
        Some(ConfigKey::DflashMode)
    } else {
        None
    }
}

/// What a key of kind `kind_of(key)` may hold.
pub open spec fn fits_key(key: ConfigKey, s: Setting) -> bool {
    match s {
        Setting::Text(_) => kind_of(key) == KeyKind::Text,
        Setting::Float(_) => kind_of(key) == KeyKind::Float,
        Setting::Int(n) => kind_of(key) == KeyKind::Integer && n <= int_limit(key),
    }
}

/// What reading a set value shows.
pub open spec fn shown(s: Setting) -> Shown {
    match s {
        Setting::Text(t) => Shown::Text(t),
        Setting::Float(b) => Shown::Float(b),
        Setting::Int(n) => Shown::Text(decimal(n)),
    }
}

/// What reading `key` from a configuration shows: nothing when it is unset.
pub open spec fn get_spec(m: Map<ConfigKey, Setting>, key: ConfigKey) -> Option<Shown> {
    if m.contains_key(key) {
        Some(shown(m[key]))
    } else {
        None
    }
}

/// What setting `key` to the text `value` makes of a configuration: text
/// keys take it as it is, integer keys take the integer it writes, and
/// `f32` keys take no text.
pub open spec fn set_spec(m: Map<ConfigKey, Setting>, key: ConfigKey, value: Seq<char>) -> Result<
    Map<ConfigKey, Setting>,
    SetError,
> {
    match kind_of(key) {
        KeyKind::Text => Ok(m.insert(key, Setting::Text(value))),
        KeyKind::Integer => match parse_unsigned_spec(value, int_limit(key)) {
            Some(n) => Ok(m.insert(key, Setting::Int(n))),
            None => Err(SetError::NotAnInteger),
        },
        KeyKind::Float => Err(SetError::FloatKey),
    }
}

/// What setting `key` to the `f32` with bit pattern `bits` makes of a
/// configuration.
pub open spec fn set_float_spec(m: Map<ConfigKey, Setting>, key: ConfigKey, bits: u32) -> Result<
    Map<ConfigKey, Setting>,
    SetError,
> {
    if kind_of(key) == KeyKind::Float {
        Ok(m.insert(key, Setting::Float(bits)))
    } else {
        Err(SetError::NotAFloatKey)
    }
}

/// The launcher's configuration, as its configuration file stores it.
pub struct HipfireArwakyConfig {
    pub kv_cache: Option<String>,
    pub kv_adaptive: Option<String>,
    pub flash_mode: Option<String>,
    pub default_model: Option<String>,
    /// The bit pattern of the `f32` temperature.
    pub temperature: Option<u32>,
    /// The bit pattern of the `f32` top-p.
    pub top_p: Option<u32>,
    /// The bit pattern of the `f32` repeat penalty.
    pub repeat_penalty: Option<u32>,
    pub max_tokens: Option<u32>,
    pub max_seq: Option<usize>,
    pub thinking: Option<String>,
    pub max_think_tokens: Option<usize>,
    pub host: Option<String>,
    pub port: Option<u16>,
    pub dflash_mode: Option<String>,
}

/// A text field as a setting.
pub open spec fn text_setting(f: Option<String>) -> Option<Setting> {
    match f {
        Some(s) => Some(Setting::Text(s@)),
        None => None,
    }
}

/// A float field as a setting.
pub open spec fn float_setting(f: Option<u32>) -> Option<Setting> {
    match f {
        Some(b) => Some(Setting::Float(b)),
        None => None,
    }
}

/// An integer field as a setting.
pub open spec fn int_setting(f: Option<nat>) -> Option<Setting> {
    match f {
        Some(n) => Some(Setting::Int(n)),
        None => None,
    }
}

impl HipfireArwakyConfig {
    /// The value of `key`, if it is set.
    pub open spec fn setting(&self, key: ConfigKey) -> Option<Setting> {
        match key {
            ConfigKey::KvCache => text_setting(self.kv_cache),
            ConfigKey::KvAdaptive => text_setting(self.kv_adaptive),
            ConfigKey::FlashMode => text_setting(self.flash_mode),
            ConfigKey::DefaultModel => text_setting(self.default_model),
            ConfigKey::Temperature => float_setting(self.temperature),
            ConfigKey::TopP => float_setting(self.top_p),
            ConfigKey::RepeatPenalty => float_setting(self.repeat_penalty),
            ConfigKey::MaxTokens => int_setting(
                match self.max_tokens {
                    Some(n) => Some(n as nat),
                    None => None,
                },
            ),
            ConfigKey::MaxSeq => int_setting(
                match self.max_seq {
                    Some(n) => Some(n as nat),
                    None => None,
                },
            ),
            ConfigKey::Thinking => text_setting(self.thinking),
            ConfigKey::MaxThinkTokens => int_setting(
                match self.max_think_tokens {
                    Some(n) => Some(n as nat),
                    None => None,
                },
            ),
            ConfigKey::Host => text_setting(self.host),
            ConfigKey::Port => int_setting(
                match self.port {
                    Some(n) => Some(n as nat),
                    None => None,
                },
            ),
            ConfigKey::DflashMode => text_setting(self.dflash_mode),
        }
    }
}

impl View for HipfireArwakyConfig {
    type V = Map<ConfigKey, Setting>;

    /// The keys that are set, each with its value.
    open spec fn view(&self) -> Map<ConfigKey, Setting> {
        Map::new(|k: ConfigKey| self.setting(k) is Some, |k: ConfigKey| self.setting(k)->0)
    }
}

impl Default for HipfireArwakyConfig {
    /// The configuration in which no key is set.
    fn default() -> (r: Self)
        ensures
            r@ == Map::<ConfigKey, Setting>::empty(),
    {
        HipfireArwakyConfig {
            kv_cache: None,
            kv_adaptive: None,
            flash_mode: None,
            default_model: None,
            temperature: None,
            top_p: None,
            repeat_penalty: None,
            max_tokens: None,
            max_seq: None,
            thinking: None,
            max_think_tokens: None,
            host: None,
            port: None,
            dflash_mode: None,
        }
    }
}

/// The key that `name` names, if any.
pub fn parse_config_key(name: &str) -> (r: Option<ConfigKey>)
    ensures
        r == key_named(name@),
{
    if str_eq(name, "kv_cache") {
        Some(ConfigKey::KvCache)
    } else if str_eq(name, "kv_adaptive") {
        Some(ConfigKey::KvAdaptive)
    } else if str_eq(name, "flash_mode") {
        Some(ConfigKey::FlashMode)
    } else if str_eq(name, "default_model") {
        Some(ConfigKey::DefaultModel)
    } else if str_eq(name, "temperature") {
        Some(ConfigKey::Temperature)
    } else if str_eq(name, "top_p") {
        Some(ConfigKey::TopP)
    } else if str_eq(name, "repeat_penalty") {
        Some(ConfigKey::RepeatPenalty)
    } else if str_eq(name, "max_tokens") {
        Some(ConfigKey::MaxTokens)
    } else if str_eq(name, "max_seq") {
        Some(ConfigKey::MaxSeq)
    } else if str_eq(name, "thinking") {
        Some(ConfigKey::Thinking)
    } else if str_eq(name, "max_think_tokens") {
        Some(ConfigKey::MaxThinkTokens)
    } else if str_eq(name, "host") {
        Some(ConfigKey::Host)
    } else if str_eq(name, "port") {
        Some(ConfigKey::Port)
    } else if str_eq(name, "dflash_mode") {
        Some(ConfigKey::DflashMode)
    } else {
        None
    }
}

/// The name of `key`.
pub fn key_name(key: ConfigKey) -> (r: &'static str)
    ensures
        r@ == key_name_spec(key),
{
    match key {
        ConfigKey::KvCache => "kv_cache",
        ConfigKey::KvAdaptive => "kv_adaptive",
        ConfigKey::FlashMode => "flash_mode",
        ConfigKey::DefaultModel => "default_model",
        ConfigKey::Temperature => "temperature",
        ConfigKey::TopP => "top_p",
        ConfigKey::RepeatPenalty => "repeat_penalty",
        ConfigKey::MaxTokens => "max_tokens",
        ConfigKey::MaxSeq => "max_seq",
        ConfigKey::Thinking => "thinking",
        ConfigKey::MaxThinkTokens => "max_think_tokens",
        ConfigKey::Host => "host",
        ConfigKey::Port => "port",
        ConfigKey::DflashMode => "dflash_mode",
    }
}

/// What `key` holds.
pub fn key_kind(key: ConfigKey) -> (r: KeyKind)
    ensures
        r == kind_of(key),
{
    match key {
        ConfigKey::Temperature | ConfigKey::TopP | ConfigKey::RepeatPenalty => KeyKind::Float,
        ConfigKey::MaxTokens | ConfigKey::MaxSeq | ConfigKey::MaxThinkTokens | ConfigKey::Port => {
            KeyKind::Integer
        },
        _ => KeyKind::Text,
    }
}

fn text_value(f: &Option<String>) -> (r: Option<ConfigValue>)
    ensures
        match f {
            Some(s) => r matches Some(v) && v@ == Shown::Text(s@),
            None => r is None,
        },
{
    match f {
        Some(s) => Some(ConfigValue::Text(s.clone())),
        None => None,
    }
}

fn int_value(f: Option<u64>) -> (r: Option<ConfigValue>)
    ensures
        match f {
            Some(n) => r matches Some(v) && v@ == Shown::Text(decimal(n as nat)),
            None => r is None,
        },
{
    match f {
        Some(n) => Some(ConfigValue::Text(to_decimal(n))),
        None => None,
    }
}

fn float_value(f: Option<u32>) -> (r: Option<ConfigValue>)
    ensures
        match f {
            Some(b) => r matches Some(v) && v@ == Shown::Float(b),
            None => r is None,
        },
{
    match f {
        Some(b) => Some(ConfigValue::Float(b)),
        None => None,
    }
}

/// Reads `key`: its text, the decimal text of its integer, or its `f32`'s
/// bit pattern; `None` when it is unset.
pub fn config_get(cfg: &HipfireArwakyConfig, key: ConfigKey) -> (r: Option<ConfigValue>)
    ensures
        match get_spec(cfg@, key) {
            Some(s) => r matches Some(v) && v@ == s,
            None => r is None,
        },
{
    match key {
        ConfigKey::KvCache => text_value(&cfg.kv_cache),
        ConfigKey::KvAdaptive => text_value(&cfg.kv_adaptive),
        ConfigKey::FlashMode => text_value(&cfg.flash_mode),
        ConfigKey::DefaultModel => text_value(&cfg.default_model),
        ConfigKey::Temperature => float_value(cfg.temperature),
        ConfigKey::TopP => float_value(cfg.top_p),
        ConfigKey::RepeatPenalty => float_value(cfg.repeat_penalty),
        ConfigKey::MaxTokens => int_value(
            match cfg.max_tokens {
                Some(n) => Some(n as u64),
                None => None,
            },
        ),
        ConfigKey::MaxSeq => int_value(
            match cfg.max_seq {
                Some(n) => Some(n as u64),
                None => None,
            },
        ),
        ConfigKey::Thinking => text_value(&cfg.thinking),
        ConfigKey::MaxThinkTokens => int_value(
            match cfg.max_think_tokens {
                Some(n) => Some(n as u64),
                None => None,
            },
        ),
        ConfigKey::Host => text_value(&cfg.host),
        ConfigKey::Port => int_value(
            match cfg.port {
                Some(n) => Some(n as u64),
                None => None,
            },
        ),
        ConfigKey::DflashMode => text_value(&cfg.dflash_mode),
    }
}

/// Sets `key` from the text `value`, as `config set` does: a text key takes
/// the text, an integer key the integer that it writes (an error when it
/// writes none that fits the key); an `f32` key takes no text. On an error
/// the configuration is unchanged.
pub fn config_set(cfg: &mut HipfireArwakyConfig, key: ConfigKey, value: &str) -> (r: Result<
    (),
    SetError,
>)
    ensures
        match set_spec(old(cfg)@, key, value@) {
            Ok(m) => r is Ok && final(cfg)@ == m,
            Err(e) => r == Err::<(), SetError>(e) && *final(cfg) == *old(cfg),
        },
{
    let ghost m0 = cfg@;
    match key {
        ConfigKey::KvCache => {
            cfg.kv_cache = Some(String::from_str(value));
        },
        ConfigKey::KvAdaptive => {
            cfg.kv_adaptive = Some(String::from_str(value));
        },
        ConfigKey::FlashMode => {
            cfg.flash_mode = Some(String::from_str(value));
        },
        ConfigKey::DefaultModel => {
            cfg.default_model = Some(String::from_str(value));
        },
        ConfigKey::Thinking => {
            cfg.thinking = Some(String::from_str(value));
        },
        ConfigKey::Host => {
            cfg.host = Some(String::from_str(value));
        },
        ConfigKey::DflashMode => {
            cfg.dflash_mode = Some(String::from_str(value));
        },
        ConfigKey::Temperature | ConfigKey::TopP | ConfigKey::RepeatPenalty => {
            return Err(SetError::FloatKey);
        },
        ConfigKey::MaxTokens => match parse_unsigned(value, u32::MAX as u64) {
            Some(n) => {
                cfg.max_tokens = Some(n as u32);
            },
            None => {
                return Err(SetError::NotAnInteger);
            },
        },
        ConfigKey::MaxSeq => match parse_unsigned(value, usize::MAX as u64) {
            Some(n) => {
                cfg.max_seq = Some(n as usize);
            },
            None => {
                return Err(SetError::NotAnInteger);
            },
        },
        ConfigKey::MaxThinkTokens => match parse_unsigned(value, usize::MAX as u64) {
            Some(n) => {
                cfg.max_think_tokens = Some(n as usize);
            },
            None => {
                return Err(SetError::NotAnInteger);
            },
        },
        ConfigKey::Port => match parse_unsigned(value, u16::MAX as u64) {
            Some(n) => {
                cfg.port = Some(n as u16);
            },
            None => {
                return Err(SetError::NotAnInteger);
            },
        },
    }
    proof {
        assert(cfg@ =~= set_spec(m0, key, value@)->Ok_0);
    }
    Ok(())
}

/// Sets the `f32` key `key` to the value whose bit pattern is `bits`; any
/// other key is an error and leaves the configuration unchanged.
pub fn config_set_float(cfg: &mut HipfireArwakyConfig, key: ConfigKey, bits: u32) -> (r: Result<
    (),
    SetError,
>)
    ensures
        match set_float_spec(old(cfg)@, key, bits) {
            Ok(m) => r is Ok && final(cfg)@ == m,
            Err(e) => r == Err::<(), SetError>(e) && *final(cfg) == *old(cfg),
        },
{
    let ghost m0 = cfg@;
    match key {
        ConfigKey::Temperature => {
            cfg.temperature = Some(bits);
        },
        ConfigKey::TopP => {
            cfg.top_p = Some(bits);
        },
        ConfigKey::RepeatPenalty => {
            cfg.repeat_penalty = Some(bits);
        },
        _ => {
            return Err(SetError::NotAFloatKey);
        },
    }
    proof {
        assert(cfg@ =~= set_float_spec(m0, key, bits)->Ok_0);
    }
    Ok(())
}

/// The line that `config get` prints for a value: the value's text, or
/// `<not set>`.
pub fn display_value(value: Option<String>) -> (r: String)
    ensures
        r@ == match value {
            Some(v) => v@,
            None => "<not set>"@,
        },
{
    match value {
        Some(v) => v,
        None => String::from_str("<not set>"),
    }
}

/// The line that `config set` prints once it has stored a value:
/// `Set <key> = <value>`.
pub fn set_confirmation(key: &str, value: &str) -> (r: String)
    ensures
        r@ == "Set "@ + key@ + " = "@ + value@,
{
    let mut r = String::from_str("Set ");
    r.append(key);
    r.append(" = ");
    r.append(value);
    r
}

/// Law: every key that a configuration sets holds a value of the key's kind,
/// and an integer key one that fits its type.
pub proof fn law_settings_fit_keys(cfg: HipfireArwakyConfig, key: ConfigKey)
    requires
        cfg@.contains_key(key),
    ensures
        fits_key(key, cfg@[key]),
{
}

/// Law: reading a text key after setting it gives back the text that was set.
pub proof fn law_get_after_set_text(m: Map<ConfigKey, Setting>, key: ConfigKey, value: Seq<char>)
    requires
        kind_of(key) == KeyKind::Text,
    ensures
        set_spec(m, key, value) matches Ok(m2) && get_spec(m2, key) == Some(Shown::Text(value)),
{
}

/// Law: after an integer key is set from a text, reading it gives the
/// decimal text of the integer that the text writes; and setting it from
/// that decimal text leaves the configuration as it is.
pub proof fn law_get_after_set_integer(
    m: Map<ConfigKey, Setting>,
    key: ConfigKey,
    value: Seq<char>,
    n: nat,
)
    requires
        kind_of(key) == KeyKind::Integer,
        parse_unsigned_spec(value, int_limit(key)) == Some(n),
    ensures
        set_spec(m, key, value) matches Ok(m2) && get_spec(m2, key) == Some(
            Shown::Text(decimal(n)),
        ) && set_spec(m2, key, decimal(n)) == Ok::<Map<ConfigKey, Setting>, SetError>(m2),
{
    crate::text::law_parse_decimal_round_trip(n, int_limit(key));
    let m2 = m.insert(key, Setting::Int(n));
    assert(m2.insert(key, Setting::Int(n)) =~= m2);
}

/// Law: reading an `f32` key after setting it gives back the bit pattern.
pub proof fn law_get_after_set_float(m: Map<ConfigKey, Setting>, key: ConfigKey, bits: u32)
    requires
        kind_of(key) == KeyKind::Float,
    ensures
        set_float_spec(m, key, bits) matches Ok(m2) && get_spec(m2, key) == Some(
            Shown::Float(bits),
        ),
{
}

/// Law: setting one key, from text or as an `f32`, leaves what every other
/// key reads unchanged.
pub proof fn law_set_leaves_other_keys(
    m: Map<ConfigKey, Setting>,
    key: ConfigKey,
    other: ConfigKey,
    value: Seq<char>,
    bits: u32,
)
    requires
        other != key,
    ensures
        set_spec(m, key, value) matches Ok(m2) ==> get_spec(m2, other) == get_spec(m, other),
        set_float_spec(m, key, bits) matches Ok(m2) ==> get_spec(m2, other) == get_spec(
            m,
            other,
        ),
{
}

/// What reading a text field shows.
pub open spec fn shown_text_field(f: Option<String>) -> Option<Shown> {
    match f {
        Some(s) => Some(Shown::Text(s@)),
        None => None,
    }
}

/// What reading an `f32` field shows.
pub open spec fn shown_float_field(f: Option<u32>) -> Option<Shown> {
    match f {
        Some(b) => Some(Shown::Float(b)),
        None => None,
    }
}

/// What reading an integer field shows.
pub open spec fn shown_int_field(f: Option<nat>) -> Option<Shown> {
    match f {
        Some(n) => Some(Shown::Text(decimal(n))),
        None => None,
    }
}

/// Law: each name on the command line names the key of the configuration
/// field of the same name, and reading that key reads that field: its text,
/// the decimal text of its integer, or its `f32`'s bit pattern.
pub proof fn law_names_read_their_fields(cfg: HipfireArwakyConfig)
    ensures
        key_named("kv_cache"@) == Some(ConfigKey::KvCache),
        key_name_spec(ConfigKey::KvCache) == "kv_cache"@,
        get_spec(cfg@, ConfigKey::KvCache) == shown_text_field(cfg.kv_cache),
        key_named("kv_adaptive"@) == Some(ConfigKey::KvAdaptive),
        key_name_spec(ConfigKey::KvAdaptive) == "kv_adaptive"@,
        get_spec(cfg@, ConfigKey::KvAdaptive) == shown_text_field(cfg.kv_adaptive),
        key_named("flash_mode"@) == Some(ConfigKey::FlashMode),
        key_name_spec(ConfigKey::FlashMode) == "flash_mode"@,
        get_spec(cfg@, ConfigKey::FlashMode) == shown_text_field(cfg.flash_mode),
        key_named("default_model"@) == Some(ConfigKey::DefaultModel),
        key_name_spec(ConfigKey::DefaultModel) == "default_model"@,
        get_spec(cfg@, ConfigKey::DefaultModel) == shown_text_field(cfg.default_model),
        key_named("temperature"@) == Some(ConfigKey::Temperature),
        key_name_spec(ConfigKey::Temperature) == "temperature"@,
        get_spec(cfg@, ConfigKey::Temperature) == shown_float_field(cfg.temperature),
        key_named("top_p"@) == Some(ConfigKey::TopP),
        key_name_spec(ConfigKey::TopP) == "top_p"@,
        get_spec(cfg@, ConfigKey::TopP) == shown_float_field(cfg.top_p),
        key_named("repeat_penalty"@) == Some(ConfigKey::RepeatPenalty),
        key_name_spec(ConfigKey::RepeatPenalty) == "repeat_penalty"@,
        get_spec(cfg@, ConfigKey::RepeatPenalty) == shown_float_field(cfg.repeat_penalty),
        key_named("max_tokens"@) == Some(ConfigKey::MaxTokens),
        key_name_spec(ConfigKey::MaxTokens) == "max_tokens"@,
        get_spec(cfg@, ConfigKey::MaxTokens) == shown_int_field(match cfg.max_tokens { Some(x) => Some(x as nat), None => None }),
        key_named("max_seq"@) == Some(ConfigKey::MaxSeq),
        key_name_spec(ConfigKey::MaxSeq) == "max_seq"@,
        get_spec(cfg@, ConfigKey::MaxSeq) == shown_int_field(match cfg.max_seq { Some(x) => Some(x as nat), None => None }),
        key_named("thinking"@) == Some(ConfigKey::Thinking),
        key_name_spec(ConfigKey::Thinking) == "thinking"@,
        get_spec(cfg@, ConfigKey::Thinking) == shown_text_field(cfg.thinking),
        key_named("max_think_tokens"@) == Some(ConfigKey::MaxThinkTokens),
        key_name_spec(ConfigKey::MaxThinkTokens) == "max_think_tokens"@,
        get_spec(cfg@, ConfigKey::MaxThinkTokens) == shown_int_field(match cfg.max_think_tokens { Some(x) => Some(x as nat), None => None }),
        key_named("host"@) == Some(ConfigKey::Host),
        key_name_spec(ConfigKey::Host) == "host"@,
        get_spec(cfg@, ConfigKey::Host) == shown_text_field(cfg.host),
        key_named("port"@) == Some(ConfigKey::Port),
        key_name_spec(ConfigKey::Port) == "port"@,
        get_spec(cfg@, ConfigKey::Port) == shown_int_field(match cfg.port { Some(x) => Some(x as nat), None => None }),
        key_named("dflash_mode"@) == Some(ConfigKey::DflashMode),
        key_name_spec(ConfigKey::DflashMode) == "dflash_mode"@,
        get_spec(cfg@, ConfigKey::DflashMode) == shown_text_field(cfg.dflash_mode),
{
    lemma_key_name_shapes();
}

/// Law: after `config set` of a text key succeeds, the configuration field
/// of that key's name holds the text given, and every other field reads as
/// it did before.
pub proof fn law_set_text_writes_its_field(
    old: HipfireArwakyConfig,
    new: HipfireArwakyConfig,
    key: ConfigKey,
    value: Seq<char>,
)
    requires
        kind_of(key) == KeyKind::Text,
        set_spec(old@, key, value) == Ok::<Map<ConfigKey, Setting>, SetError>(new@),
    ensures
        key == ConfigKey::KvCache ==> shown_text_field(new.kv_cache) == Some(Shown::Text(value)),
        key == ConfigKey::KvAdaptive ==> shown_text_field(new.kv_adaptive) == Some(Shown::Text(value)),
        key == ConfigKey::FlashMode ==> shown_text_field(new.flash_mode) == Some(Shown::Text(value)),
        key == ConfigKey::DefaultModel ==> shown_text_field(new.default_model) == Some(Shown::Text(value)),
        key == ConfigKey::Thinking ==> shown_text_field(new.thinking) == Some(Shown::Text(value)),
        key == ConfigKey::Host ==> shown_text_field(new.host) == Some(Shown::Text(value)),
        key == ConfigKey::DflashMode ==> shown_text_field(new.dflash_mode) == Some(Shown::Text(value)),
        key != ConfigKey::KvCache ==> shown_text_field(new.kv_cache) == shown_text_field(old.kv_cache),
        key != ConfigKey::KvAdaptive ==> shown_text_field(new.kv_adaptive) == shown_text_field(old.kv_adaptive),
        key != ConfigKey::FlashMode ==> shown_text_field(new.flash_mode) == shown_text_field(old.flash_mode),
        key != ConfigKey::DefaultModel ==> shown_text_field(new.default_model) == shown_text_field(old.default_model),
        key != ConfigKey::Temperature ==> shown_float_field(new.temperature) == shown_float_field(old.temperature),
        key != ConfigKey::TopP ==> shown_float_field(new.top_p) == shown_float_field(old.top_p),
        key != ConfigKey::RepeatPenalty ==> shown_float_field(new.repeat_penalty) == shown_float_field(old.repeat_penalty),
        key != ConfigKey::MaxTokens ==> shown_int_field(match new.max_tokens { Some(x) => Some(x as nat), None => None }) == shown_int_field(match old.max_tokens { Some(x) => Some(x as nat), None => None }),
        key != ConfigKey::MaxSeq ==> shown_int_field(match new.max_seq { Some(x) => Some(x as nat), None => None }) == shown_int_field(match old.max_seq { Some(x) => Some(x as nat), None => None }),
        key != ConfigKey::Thinking ==> shown_text_field(new.thinking) == shown_text_field(old.thinking),
        key != ConfigKey::MaxThinkTokens ==> shown_int_field(match new.max_think_tokens { Some(x) => Some(x as nat), None => None }) == shown_int_field(match old.max_think_tokens { Some(x) => Some(x as nat), None => None }),
        key != ConfigKey::Host ==> shown_text_field(new.host) == shown_text_field(old.host),
        key != ConfigKey::Port ==> shown_int_field(match new.port { Some(x) => Some(x as nat), None => None }) == shown_int_field(match old.port { Some(x) => Some(x as nat), None => None }),
        key != ConfigKey::DflashMode ==> shown_text_field(new.dflash_mode) == shown_text_field(old.dflash_mode),
{
    law_names_read_their_fields(old);
    law_names_read_their_fields(new);
    assert(new@ == old@.insert(key, Setting::Text(value)));
    assert forall|k: ConfigKey| k != key implies #[trigger] get_spec(new@, k) == get_spec(old@, k) by {
        assert(new@.contains_key(k) == old@.contains_key(k));
    }
    assert(get_spec(new@, key) == Some(Shown::Text(value)));
}

/// Law: the keys that hold free text are `kv_cache`, `kv_adaptive`,
/// `flash_mode`, `default_model`, `thinking`, `host` and `dflash_mode`; the
/// `f32` keys are `temperature`, `top_p` and `repeat_penalty`; and an
/// integer key takes, from the decimal text of a number, exactly the numbers
/// that fit its field's type: `max_tokens` a `u32`, `max_seq` and
/// `max_think_tokens` a `usize`, `port` a `u16`.
pub proof fn law_key_kinds_and_ranges(m: Map<ConfigKey, Setting>, n: nat)
    ensures
        kind_of(ConfigKey::KvCache) == KeyKind::Text,
        kind_of(ConfigKey::KvAdaptive) == KeyKind::Text,
        kind_of(ConfigKey::FlashMode) == KeyKind::Text,
        kind_of(ConfigKey::DefaultModel) == KeyKind::Text,
        kind_of(ConfigKey::Thinking) == KeyKind::Text,
        kind_of(ConfigKey::Host) == KeyKind::Text,
        kind_of(ConfigKey::DflashMode) == KeyKind::Text,
        kind_of(ConfigKey::Temperature) == KeyKind::Float,
        kind_of(ConfigKey::TopP) == KeyKind::Float,
        kind_of(ConfigKey::RepeatPenalty) == KeyKind::Float,
        set_spec(m, ConfigKey::MaxTokens, decimal(n)) is Ok <==> n <= u32::MAX,
        set_spec(m, ConfigKey::MaxSeq, decimal(n)) is Ok <==> n <= usize::MAX,
        set_spec(m, ConfigKey::MaxThinkTokens, decimal(n)) is Ok <==> n <= usize::MAX,
        set_spec(m, ConfigKey::Port, decimal(n)) is Ok <==> n <= 65535,
        n <= 65535 ==> set_spec(m, ConfigKey::Port, decimal(n)) == Ok::<
            Map<ConfigKey, Setting>,
            SetError,
        >(m.insert(ConfigKey::Port, Setting::Int(n))),
{
    crate::text::lemma_decimal_value(n);
}

/// Law: distinct keys have distinct names.
pub proof fn law_key_names_distinct(a: ConfigKey, b: ConfigKey)
    requires
        a != b,
    ensures
        key_name_spec(a) != key_name_spec(b),
{
    law_key_names_round_trip(a);
    law_key_names_round_trip(b);
}

/// The length and first character of each key's name, which tell the
/// names apart.
proof fn lemma_key_name_shapes()
    ensures
        "kv_cache"@.len() == 8 && "kv_cache"@[0] == 'k',
        "kv_adaptive"@.len() == 11 && "kv_adaptive"@[0] == 'k',
        "flash_mode"@.len() == 10 && "flash_mode"@[0] == 'f',
        "default_model"@.len() == 13 && "default_model"@[0] == 'd',
        "temperature"@.len() == 11 && "temperature"@[0] == 't',
        "top_p"@.len() == 5 && "top_p"@[0] == 't',
        "repeat_penalty"@.len() == 14 && "repeat_penalty"@[0] == 'r',
        "max_tokens"@.len() == 10 && "max_tokens"@[0] == 'm',
        "max_seq"@.len() == 7 && "max_seq"@[0] == 'm',
        "thinking"@.len() == 8 && "thinking"@[0] == 't',
        "max_think_tokens"@.len() == 16 && "max_think_tokens"@[0] == 'm',
        "host"@.len() == 4 && "host"@[0] == 'h',
        "port"@.len() == 4 && "port"@[0] == 'p',
        "dflash_mode"@.len() == 11 && "dflash_mode"@[0] == 'd',
{
    reveal_strlit("kv_cache");
    assert("kv_cache"@.len() == 8 && "kv_cache"@[0] == 'k');
    reveal_strlit("kv_adaptive");
    assert("kv_adaptive"@.len() == 11 && "kv_adaptive"@[0] == 'k');
    reveal_strlit("flash_mode");
    assert("flash_mode"@.len() == 10 && "flash_mode"@[0] == 'f');
    reveal_strlit("default_model");
    assert("default_model"@.len() == 13 && "default_model"@[0] == 'd');
    reveal_strlit("temperature");
    assert("temperature"@.len() == 11 && "temperature"@[0] == 't');
    reveal_strlit("top_p");
    assert("top_p"@.len() == 5 && "top_p"@[0] == 't');
    reveal_strlit("repeat_penalty");
    assert("repeat_penalty"@.len() == 14 && "repeat_penalty"@[0] == 'r');
    reveal_strlit("max_tokens");
    assert("max_tokens"@.len() == 10 && "max_tokens"@[0] == 'm');
    reveal_strlit("max_seq");
    assert("max_seq"@.len() == 7 && "max_seq"@[0] == 'm');
    reveal_strlit("thinking");
    assert("thinking"@.len() == 8 && "thinking"@[0] == 't');
    reveal_strlit("max_think_tokens");
    assert("max_think_tokens"@.len() == 16 && "max_think_tokens"@[0] == 'm');
    reveal_strlit("host");
    assert("host"@.len() == 4 && "host"@[0] == 'h');
    reveal_strlit("port");
    assert("port"@.len() == 4 && "port"@[0] == 'p');
    reveal_strlit("dflash_mode");
    assert("dflash_mode"@.len() == 11 && "dflash_mode"@[0] == 'd');
}

/// Law: every key's name names that key, and no other.
pub proof fn law_key_names_round_trip(key: ConfigKey)
    ensures
        key_named(key_name_spec(key)) == Some(key),
{
    lemma_key_name_shapes();
}

} // verus!
