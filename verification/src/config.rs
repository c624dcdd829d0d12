//! The typed settings model and its validation.
//!
//! [`Config`] is the public representation a configuration arrives in:
//! every field a string, the colour in `#rrggbb` form. [`InternalConfig`] is
//! what the core works with and persists: the colour as a 24-bit code.
//! Validation runs on demand, never at construction, checks every field and
//! reports every violation together, tagged by field.

use vstd::prelude::*;
use vstd::string::StringExecFns;

use crate::codec::{decode_config, decode_view, encode_config, encode_view};
use crate::color::{
    color_code_of, color_ok, color_string_of, format_color, lemma_color_code_fits,
    lemma_color_roundtrip, normalized_color, parse_color, valid_color_chars,
};
use crate::storage::{Storage, StorageError};

verus! {

/// The abstract value of an [`InternalConfig`].
pub ghost struct InternalView {
    pub wifi_ssid: Seq<char>,
    pub wifi_pass: Seq<char>,
    pub tz: Seq<char>,
    pub led_color: u32,
}

impl InternalView {
    /// The colour code is 24-bit.
    pub open spec fn wf(self) -> bool {
        self.led_color <= 0xFFFFFF
    }
}

/// The abstract value of a [`Config`].
pub ghost struct ConfigView {
    pub wifi_ssid: Seq<char>,
    pub wifi_pass: Seq<char>,
    pub time_zone: Seq<char>,
    pub led_color: Seq<char>,
}

/// The internal form of a public configuration: strings carried over, the
/// colour string parsed to its code (or 0 when it is not a valid colour).
pub open spec fn internal_of(c: ConfigView) -> InternalView {
    InternalView {
        wifi_ssid: c.wifi_ssid,
        wifi_pass: c.wifi_pass,
        tz: c.time_zone,
        led_color: color_code_of(c.led_color),
    }
}

/// The public form of an internal configuration: strings carried over, the
/// colour code formatted as its lowercase colour string.
pub open spec fn config_of(i: InternalView) -> ConfigView {
    ConfigView {
        wifi_ssid: i.wifi_ssid,
        wifi_pass: i.wifi_pass,
        time_zone: i.tz,
        led_color: color_string_of(i.led_color),
    }
}

/// The configuration used whenever nothing has ever been persisted.
pub open spec fn default_internal_view() -> InternalView {
    InternalView {
        wifi_ssid: "Wokwi-GUEST"@,
        wifi_pass: ""@,
        tz: "US/Central"@,
        led_color: 0x88,
    }
}

/// The settings the core runs on, in their internal form.
#[derive(Debug, PartialEq, Eq)]
pub struct InternalConfig {
    wifi_ssid: String,
    wifi_pass: String,
    tz: String,
    led_color: u32,
}

impl View for InternalConfig {
    type V = InternalView;

    closed spec fn view(&self) -> InternalView {
        InternalView {
            wifi_ssid: self.wifi_ssid@,
            wifi_pass: self.wifi_pass@,
            tz: self.tz@,
            led_color: self.led_color,
        }
    }
}

impl Clone for InternalConfig {
    fn clone(&self) -> (r: Self)
        ensures
            r@ == self@,
    {
        InternalConfig {
            wifi_ssid: self.wifi_ssid.clone(),
            wifi_pass: self.wifi_pass.clone(),
            tz: self.tz.clone(),
            led_color: self.led_color,
        }
    }
}

impl Default for InternalConfig {
    /// The fixed default configuration.
    fn default() -> (r: Self)
        ensures
            r@ == default_internal_view(),
            r@.wf(),
    {
        InternalConfig::new("Wokwi-GUEST", "", "US/Central", 0x000088)
    }
}

impl InternalConfig {
    pub fn new(wifi_ssid: &str, wifi_pass: &str, tz: &str, led_color: u32) -> (r: Self)
        requires
            led_color <= 0xFFFFFF,
        ensures
            r@ == (InternalView { wifi_ssid: wifi_ssid@, wifi_pass: wifi_pass@, tz: tz@, led_color }),
            r@.wf(),
    {
        InternalConfig {
            wifi_ssid: String::from_str(wifi_ssid),
            wifi_pass: String::from_str(wifi_pass),
            tz: String::from_str(tz),
            led_color,
        }
    }

    pub fn wifi_ssid(&self) -> (r: &str)
        ensures
            r@ == self@.wifi_ssid,
    {
        self.wifi_ssid.as_str()
    }

    pub fn wifi_pass(&self) -> (r: &str)
        ensures
            r@ == self@.wifi_pass,
    {
        self.wifi_pass.as_str()
    }

    pub fn tz(&self) -> (r: &str)
        ensures
            r@ == self@.tz,
    {
        self.tz.as_str()
    }

    pub fn led_color(&self) -> (r: u32)
        ensures
            r == self@.led_color,
    {
        self.led_color
    }

    /// The internal form of a public configuration. Callers are expected to
    /// validate first: a malformed colour string degrades to colour 0 here
    /// rather than failing.
    pub fn from_config(config: Config) -> (r: Self)
        ensures
            r@ == internal_of(config@),
            r@.wf(),
    {
        proof {
            lemma_color_code_fits(config@.led_color);
        }
        let led_color = parse_color(config.led_color.as_str());
        InternalConfig {
            wifi_ssid: config.wifi_ssid,
            wifi_pass: config.wifi_pass,
            tz: config.time_zone,
            led_color,
        }
    }
}

/// A field of [`Config`] that validation can report.
#[derive(Clone, Copy, PartialEq, Eq, Structural, Debug)]
pub enum ConfigField {
    WifiSsid,
    TimeZone,
    LedColor,
}

impl ConfigField {
    /// The name validation reports this field under.
    pub fn name(&self) -> (r: &'static str)
        ensures
            *self == ConfigField::WifiSsid ==> r@ == "wifi_ssid"@,
            *self == ConfigField::TimeZone ==> r@ == "time_zone"@,
            *self == ConfigField::LedColor ==> r@ == "led_color"@,
    {
        match self {
            ConfigField::WifiSsid => "wifi_ssid",
            ConfigField::TimeZone => "time_zone",
            ConfigField::LedColor => "led_color",
        }
    }
}

/// Every field violation one validation pass found, in field order.
#[derive(Debug)]
pub struct ValidationErrors {
    fields: Vec<ConfigField>,
}

impl View for ValidationErrors {
    type V = Seq<ConfigField>;

    closed spec fn view(&self) -> Seq<ConfigField> {
        self.fields@
    }
}

impl ValidationErrors {
    /// The violated fields, in field order.
    pub fn fields(&self) -> (r: &Vec<ConfigField>)
        ensures
            r@ == self@,
    {
        &self.fields
    }

    /// Whether `field` is among the violations.
    pub fn has_field(&self, field: ConfigField) -> (r: bool)
        ensures
            r == self@.contains(field),
    {
        let mut i: usize = 0;
        while i < self.fields.len()
            invariant
                i <= self.fields@.len(),
                forall|j: int| 0 <= j < i ==> self.fields@[j] != field,
            decreases self.fields@.len() - i,
        {
            if self.fields[i] == field {
                return true;
            }
            i = i + 1;
        }
        false
    }
}

/// Whether the network name is acceptable: it must not be blank.
pub open spec fn wifi_ssid_ok(c: ConfigView) -> bool {
    c.wifi_ssid.len() >= 1
}

/// Whether the time zone is acceptable: it must not be blank.
pub open spec fn time_zone_ok(c: ConfigView) -> bool {
    c.time_zone.len() >= 1
}

/// Whether the colour is acceptable: a valid `#rrggbb` string.
pub open spec fn led_color_ok(c: ConfigView) -> bool {
    valid_color_chars(c.led_color)
}

/// Whether a configuration passes validation outright.
pub open spec fn config_valid(c: ConfigView) -> bool {
    wifi_ssid_ok(c) && time_zone_ok(c) && led_color_ok(c)
}

/// Every violation a configuration has, in field order: validation never
/// stops at the first.
pub open spec fn violations_of(c: ConfigView) -> Seq<ConfigField> {
    (if wifi_ssid_ok(c) {
        Seq::<ConfigField>::empty()
    } else {
        seq![ConfigField::WifiSsid]
    }) + (if time_zone_ok(c) {
        Seq::<ConfigField>::empty()
    } else {
        seq![ConfigField::TimeZone]
    }) + (if led_color_ok(c) {
        Seq::<ConfigField>::empty()
    } else {
        seq![ConfigField::LedColor]
    })
}

/// The public representation of the settings: every field a string.
#[derive(Debug, PartialEq, Eq)]
pub struct Config {
    pub(crate) wifi_ssid: String,
    pub(crate) wifi_pass: String,
    pub(crate) time_zone: String,
    pub(crate) led_color: String,
}

impl View for Config {
    type V = ConfigView;

    closed spec fn view(&self) -> ConfigView {
        ConfigView {
            wifi_ssid: self.wifi_ssid@,
            wifi_pass: self.wifi_pass@,
            time_zone: self.time_zone@,
            led_color: self.led_color@,
        }
    }
}

impl Clone for Config {
    fn clone(&self) -> (r: Self)
        ensures
            r@ == self@,
    {
        Config {
            wifi_ssid: self.wifi_ssid.clone(),
            wifi_pass: self.wifi_pass.clone(),
            time_zone: self.time_zone.clone(),
            led_color: self.led_color.clone(),
        }
    }
}

impl Config {
    pub fn new(wifi_ssid: &str, wifi_pass: &str, time_zone: &str, led_color: &str) -> (r: Self)
        ensures
            r@ == (ConfigView {
                wifi_ssid: wifi_ssid@,
                wifi_pass: wifi_pass@,
                time_zone: time_zone@,
                led_color: led_color@,
            }),
    {
        Config {
            wifi_ssid: String::from_str(wifi_ssid),
            wifi_pass: String::from_str(wifi_pass),
            time_zone: String::from_str(time_zone),
            led_color: String::from_str(led_color),
        }
    }

    /// Check every field and report every violation together: `Ok` exactly
    /// when the network name and time zone are non-blank and the colour is a
    /// valid `#rrggbb` string.
    pub fn validate(&self) -> (r: Result<(), ValidationErrors>)
        ensures
            r is Ok <==> config_valid(self@),
            r is Err ==> r->Err_0@ == violations_of(self@),
    {
        let mut fields: Vec<ConfigField> = Vec::new();
        if self.wifi_ssid.as_str().is_empty() {
            fields.push(ConfigField::WifiSsid);
        }
        if self.time_zone.as_str().is_empty() {
            fields.push(ConfigField::TimeZone);
        }
        if !color_ok(self.led_color.as_str()) {
            fields.push(ConfigField::LedColor);
        }
        proof {
            assert(fields@ =~= violations_of(self@));
        }
        if fields.len() == 0 {
            Ok(())
        } else {
            Err(ValidationErrors { fields })
        }
    }

    /// The public form of an internal configuration: the colour code comes
    /// back as its lowercase colour string.
    pub fn from_internal(config: InternalConfig) -> (r: Self)
        requires
            config@.wf(),
        ensures
            r@ == config_of(config@),
    {
        let led_color = format_color(config.led_color);
        Config {
            wifi_ssid: config.wifi_ssid,
            wifi_pass: config.wifi_pass,
            time_zone: config.tz,
            led_color,
        }
    }
}

/// Why a configuration update was rejected: bad input and unavailable
/// storage stay distinguishable.
#[derive(Debug)]
pub enum UpdateError {
    Validation(ValidationErrors),
    Storage(StorageError),
}

/// The configuration a fresh load resolves from the given store contents:
/// the record under the configuration key when it decodes, and the default
/// configuration when the record is absent or malformed.
pub open spec fn resolved_from(contents: Map<Seq<char>, Seq<u8>>) -> InternalView {
    if contents.contains_key("config"@) && decode_view(contents["config"@]) is Some {
        decode_view(contents["config"@])->0
    } else {
        default_internal_view()
    }
}

/// A single-slot read-through, write-through cache over an injected raw
/// persistence capability. Created empty; populated by the first load;
/// never cleared while the process lives.
pub struct ConfigStorage<S: Storage> {
    storage: S,
    config: Option<InternalConfig>,
}

impl<S: Storage> ConfigStorage<S> {
    /// The cached configuration, if one has been resolved.
    pub closed spec fn cached(&self) -> Option<InternalView> {
        match self.config {
            Option::Some(c) => Option::Some(c@),
            Option::None => Option::None,
        }
    }

    /// What the underlying persistence capability holds.
    pub closed spec fn store_contents(&self) -> Map<Seq<char>, Seq<u8>> {
        self.storage.contents()
    }

    /// Whether the underlying capability can fail a read.
    pub closed spec fn may_fail_reads(&self) -> bool {
        self.storage.may_fail_reads()
    }

    /// Whether the underlying capability can fail a write.
    pub closed spec fn may_fail_writes(&self) -> bool {
        self.storage.may_fail_writes()
    }

    /// Whatever the cache holds is well formed.
    pub closed spec fn wf(&self) -> bool {
        match self.config {
            Option::Some(c) => c@.wf(),
            Option::None => true,
        }
    }

    /// The underlying persistence capability.
    pub fn storage_ref(&self) -> (r: &S)
        ensures
            r.contents() == self.store_contents(),
    {
        &self.storage
    }

    /// A store over `storage`, with an empty cache.
    pub fn new(storage: S) -> (r: ConfigStorage<S>)
        ensures
            r.cached() is None,
            r.store_contents() == storage.contents(),
            r.wf(),
    {
        ConfigStorage { storage, config: None }
    }

    /// Resolve the configuration. A populated cache answers by itself, with
    /// the store left completely untouched. Otherwise the persisted record
    /// is read once: a missing record, a read fault or a malformed record
    /// all resolve to the default configuration. Whatever was resolved
    /// populates the cache before it is returned; the call never fails.
    pub fn load(&mut self) -> (r: Result<InternalConfig, StorageError>)
        requires
            old(self).wf(),
        ensures
            r is Ok,
            final(self).wf(),
            final(self).store_contents() == old(self).store_contents(),
            final(self).cached() == Some(r->Ok_0@),
            r->Ok_0@.wf(),
            old(self).cached() is Some ==> *final(self) == *old(self) && r->Ok_0@ == old(
                self,
            ).cached()->0,
            old(self).cached() is None ==> r->Ok_0@ == resolved_from(old(self).store_contents())
                || r->Ok_0@ == default_internal_view(),
            old(self).cached() is None && !old(self).may_fail_reads() ==> r->Ok_0@
                == resolved_from(old(self).store_contents()),
    {
        if let Some(config) = &self.config {
            return Ok(config.clone());
        }
        let config = match self.storage.get_raw("config") {
            Ok(Some(bytes)) => match decode_config(bytes.as_slice()) {
                Some(c) => c,
                None => InternalConfig::default(),
            },
            _ => InternalConfig::default(),
        };
        self.config = Some(config.clone());
        Ok(config)
    }

    /// Write a configuration through to persistence and, only on success,
    /// replace the cache with it, so the next load reflects it without
    /// touching persistence. A write fault is propagated and leaves both
    /// the cache and the persisted contents as they were.
    pub fn save(&mut self, config: &InternalConfig) -> (r: Result<(), StorageError>)
        requires
            old(self).wf(),
            config@.wf(),
        ensures
            final(self).wf(),
            !old(self).may_fail_writes() ==> r is Ok,
            r is Ok ==> final(self).store_contents() == old(self).store_contents().insert(
                "config"@,
                encode_view(config@),
            ) && final(self).cached() == Some(config@),
            r is Err ==> final(self).store_contents() == old(self).store_contents()
                && final(self).cached() == old(self).cached(),
    {
        let record = encode_config(config);
        if let Err(e) = self.storage.set_raw("config", record.as_slice()) {
            return Err(e);
        }
        self.config = Some(config.clone());
        Ok(())
    }

    /// Apply an externally supplied configuration update: validate every
    /// field, and only when all of them pass convert and save. A validation
    /// failure reports every violated field and never reaches the store; a
    /// write fault is reported as a storage error, distinguishable from bad
    /// input.
    pub fn apply_update(&mut self, config: Config) -> (r: Result<InternalConfig, UpdateError>)
        requires
            old(self).wf(),
        ensures
            final(self).wf(),
            config_valid(config@) && !old(self).may_fail_writes() ==> r is Ok,
            r is Ok ==> {
                &&& config_valid(config@)
                &&& r->Ok_0@ == internal_of(config@)
                &&& final(self).cached() == Some(internal_of(config@))
                &&& final(self).store_contents() == old(self).store_contents().insert(
                    "config"@,
                    encode_view(internal_of(config@)),
                )
            },
            !config_valid(config@) ==> {
                &&& r is Err
                &&& r->Err_0 is Validation
                &&& r->Err_0->Validation_0@ == violations_of(config@)
                &&& final(self).cached() == old(self).cached()
                &&& final(self).store_contents() == old(self).store_contents()
            },
            r is Err && config_valid(config@) ==> {
                &&& r->Err_0 is Storage
                &&& final(self).cached() == old(self).cached()
                &&& final(self).store_contents() == old(self).store_contents()
            },
    {
        if let Err(e) = config.validate() {
            return Err(UpdateError::Validation(e));
        }
        let internal = InternalConfig::from_config(config);
        match self.save(&internal) {
            Ok(()) => Ok(internal),
            Err(e) => Err(UpdateError::Storage(e)),
        }
    }
}

/// A backing store that was never written resolves to the default
/// configuration: first boot and a missing record are indistinguishable.
pub proof fn lemma_empty_store_resolves_default(contents: Map<Seq<char>, Seq<u8>>)
    requires
        !contents.contains_key("config"@),
    ensures
        resolved_from(contents) == default_internal_view(),
{
}

/// After a successful save, the persisted record resolves back to exactly
/// the saved configuration — so a load after a restart, when the cache is
/// empty again, returns what was saved, not the default.
pub proof fn lemma_saved_record_resolves(contents: Map<Seq<char>, Seq<u8>>, m: InternalView)
    requires
        m.wf(),
        vstd::utf8::encode_utf8(m.wifi_ssid).len() < crate::codec::pow256(8),
        vstd::utf8::encode_utf8(m.wifi_pass).len() < crate::codec::pow256(8),
        vstd::utf8::encode_utf8(m.tz).len() < crate::codec::pow256(8),
    ensures
        resolved_from(contents.insert("config"@, encode_view(m))) == m,
{
    crate::codec::lemma_codec_roundtrip(m);
}

/// Converting a syntactically valid configuration to its internal form and
/// back yields the original, with only the colour digit case normalized to
/// lowercase.
pub proof fn lemma_config_roundtrip(c: ConfigView)
    requires
        led_color_ok(c),
    ensures
        internal_of(c).wf(),
        config_of(internal_of(c)) == (ConfigView { led_color: normalized_color(c.led_color), ..c }),
{
    lemma_color_code_fits(c.led_color);
    lemma_color_roundtrip(c.led_color);
}

} // verus!
