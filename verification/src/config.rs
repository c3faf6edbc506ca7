//! Configuration: `~/.config/whisperme/config.ini`, its sections
//! `[whisper]`, `[ui]`, `[transcription]` and `[output]`, their defaults, and
//! where the model file and the configuration file are found.
//!
//! Paths are handled as text here; the application turns them into
//! `PathBuf`s, reads the environment and the file.

use ini::{Ini, Properties};
use vstd::prelude::*;
use vstd::string::StringExecFns;

use crate::text::{
    lowercase, lowercase_spec, parse_usize, parse_usize_spec, starts_with, starts_with_spec,
    text_eq,
};

verus! {

// ----- paths -----

/// `PathBuf::join` on Unix for a relative or absolute `part`: an absolute part
/// replaces the base; otherwise a `/` is inserted unless the base is empty or
/// already ends with one.
pub open spec fn path_join_spec(base: Seq<char>, part: Seq<char>) -> Seq<char> {
    if part.len() > 0 && part[0] == '/' {
        part
    } else if base.len() == 0 {
        part
    } else if base.last() == '/' {
        base + part
    } else {
        base + "/"@ + part
    }
}

/// Joins a path component to a directory, as `PathBuf::join` does on Unix.
pub fn path_join(base: &str, part: &str) -> (r: String)
    ensures
        r@ == path_join_spec(base@, part@),
{
    proof {
        reveal_strlit("/");
    }
    if part.unicode_len() > 0 && part.get_char(0) == '/' {
        return part.to_owned();
    }
    let n = base.unicode_len();
    if n == 0 {
        return part.to_owned();
    }
    let mut r = base.to_owned();
    if base.get_char(n - 1) != '/' {
        r.append("/");
    }
    r.append(part);
    assert(r@ =~= path_join_spec(base@, part@));
    r
}

/// The file name of a model: `ggml-{name}.bin`.
pub open spec fn model_file_name_spec(model: Seq<char>) -> Seq<char> {
    "ggml-"@ + model + ".bin"@
}

/// The file name of a model: `ggml-{name}.bin`.
pub fn model_file_name(model: &str) -> (r: String)
    ensures
        r@ == model_file_name_spec(model@),
{
    let mut r = "ggml-".to_owned();
    r.append(model);
    r.append(".bin");
    r
}

/// Where the model named in the configuration is found: an absolute path
/// (starting with `/`) or a path relative to the working directory (starting
/// with `./`) as written; any other text is a model name, looked up as
/// `ggml-{name}.bin` in the models directory.
pub open spec fn resolve_model_path_spec(model: Seq<char>, models_dir: Seq<char>) -> Seq<char> {
    if starts_with_spec(model, "/"@) || starts_with_spec(model, "./"@) {
        model
    } else {
        path_join_spec(models_dir, model_file_name_spec(model))
    }
}

/// Resolves the configured model to the path of its file.
pub fn resolve_model_path(model: &str, models_dir: &str) -> (r: String)
    ensures
        r@ == resolve_model_path_spec(model@, models_dir@),
{
    if starts_with(model, "/") || starts_with(model, "./") {
        model.to_owned()
    } else {
        let name = model_file_name(model);
        path_join(models_dir, name.as_str())
    }
}

/// A base directory taken from an XDG variable, or from `$HOME` and a
/// fallback below it; `None` when neither is set.
pub open spec fn base_dir_spec(
    xdg: Option<Seq<char>>,
    home: Option<Seq<char>>,
    fallback: Seq<char>,
) -> Option<Seq<char>> {
    match xdg {
        Some(d) => Some(d),
        None => match home {
            Some(h) => Some(path_join_spec(h, fallback)),
            None => None,
        },
    }
}

/// The view of an optional text.
pub open spec fn opt_view(o: Option<String>) -> Option<Seq<char>> {
    match o {
        Some(s) => Some(s@),
        None => None,
    }
}

fn base_dir(xdg: Option<&str>, home: Option<&str>, fallback: &str) -> (r: Option<String>)
    ensures
        opt_view(r) == base_dir_spec(
            match xdg {
                Some(d) => Some(d@),
                None => None,
            },
            match home {
                Some(h) => Some(h@),
                None => None,
            },
            fallback@,
        ),
{
    match xdg {
        Some(d) => Some(d.to_owned()),
        None => match home {
            Some(h) => Some(path_join(h, fallback)),
            None => None,
        },
    }
}

/// The directory of the models: `$XDG_DATA_HOME/whisperme/models`, or
/// `$HOME/.local/share/whisperme/models`; `None` when neither variable is set.
pub fn models_dir(xdg_data_home: Option<&str>, home: Option<&str>) -> (r: Option<String>)
    ensures
        opt_view(r) == match base_dir_spec(
            match xdg_data_home {
                Some(d) => Some(d@),
                None => None,
            },
            match home {
                Some(h) => Some(h@),
                None => None,
            },
            ".local/share"@,
        ) {
            Some(d) => Some(path_join_spec(path_join_spec(d, "whisperme"@), "models"@)),
            None => None,
        },
{
    match base_dir(xdg_data_home, home, ".local/share") {
        Some(d) => {
            let w = path_join(d.as_str(), "whisperme");
            Some(path_join(w.as_str(), "models"))
        },
        None => None,
    }
}

/// The configuration file: `$XDG_CONFIG_HOME/whisperme/config.ini`, or
/// `$HOME/.config/whisperme/config.ini`; `None` when neither variable is set.
pub fn config_path(xdg_config_home: Option<&str>, home: Option<&str>) -> (r: Option<String>)
    ensures
        opt_view(r) == match base_dir_spec(
            match xdg_config_home {
                Some(d) => Some(d@),
                None => None,
            },
            match home {
                Some(h) => Some(h@),
                None => None,
            },
            ".config"@,
        ) {
            Some(d) => Some(path_join_spec(path_join_spec(d, "whisperme"@), "config.ini"@)),
            None => None,
        },
{
    match base_dir(xdg_config_home, home, ".config") {
        Some(d) => {
            let w = path_join(d.as_str(), "whisperme");
            Some(path_join(w.as_str(), "config.ini"))
        },
        None => None,
    }
}

// ----- enumerations -----

/// How transcribed text is delivered.
#[derive(Debug, Clone, Copy, PartialEq, Eq, Structural)]
pub enum OutputMethod {
    Xdo,
    Clipboard,
    Ydotool,
    Print,
}

/// The output method a configuration value names, compared case-insensitively;
/// anything else is the default method.
pub open spec fn output_method_spec(s: Seq<char>) -> OutputMethod {
    let l = lowercase_spec(s);
    if l == "xdo"@ {
        OutputMethod::Xdo
    } else if l == "clipboard"@ {
        OutputMethod::Clipboard
    } else if l == "ydotool"@ {
        OutputMethod::Ydotool
    } else if l == "print"@ {
        OutputMethod::Print
    } else {
        default_method_spec(XDO_BUILT)
    }
}

/// The documented names of the output methods are read as those methods,
/// in any mix of upper and lower case.
pub proof fn lemma_method_names_understood()
    ensures
        output_method_spec("xdo"@) == OutputMethod::Xdo,
        output_method_spec("clipboard"@) == OutputMethod::Clipboard,
        output_method_spec("ydotool"@) == OutputMethod::Ydotool,
        output_method_spec("print"@) == OutputMethod::Print,
        output_method_spec("Ydotool"@) == OutputMethod::Ydotool,
{
    reveal_strlit("xdo");
    reveal_strlit("clipboard");
    reveal_strlit("ydotool");
    reveal_strlit("print");
    reveal_strlit("Ydotool");
    assert(crate::text::ascii_lowercase_spec("xdo"@) =~= "xdo"@);
    assert(crate::text::ascii_lowercase_spec("clipboard"@) =~= "clipboard"@);
    assert(crate::text::ascii_lowercase_spec("ydotool"@) =~= "ydotool"@);
    assert(crate::text::ascii_lowercase_spec("print"@) =~= "print"@);
    assert(crate::text::ascii_lowercase_spec("Ydotool"@) =~= "ydotool"@);
}

impl OutputMethod {
    /// Parses a configuration value; never fails, unknown names give the default.
    pub fn from_str(s: &str) -> (m: Self)
        ensures
            m == output_method_spec(s@),
    {
        let l = lowercase(s);
        if text_eq(l.as_str(), "xdo") {
            OutputMethod::Xdo
        } else if text_eq(l.as_str(), "clipboard") {
            OutputMethod::Clipboard
        } else if text_eq(l.as_str(), "ydotool") {
            OutputMethod::Ydotool
        } else if text_eq(l.as_str(), "print") {
            OutputMethod::Print
        } else {
            OutputMethod::default()
        }
    }
}

/// Whether the programs are built with typing through libxdo. They link
/// libxdo, so they are.
pub const XDO_BUILT: bool = true;

/// The default output method: typing through libxdo in a build that has
/// it, printing otherwise.
pub open spec fn default_method_spec(xdo_built: bool) -> OutputMethod {
    if xdo_built {
        OutputMethod::Xdo
    } else {
        OutputMethod::Print
    }
}

/// The default output method of a build with or without libxdo.
pub fn default_method(xdo_built: bool) -> (m: OutputMethod)
    ensures
        m == default_method_spec(xdo_built),
{
    if xdo_built {
        OutputMethod::Xdo
    } else {
        OutputMethod::Print
    }
}

impl Default for OutputMethod {
    /// The default output method of this build.
    fn default() -> (m: Self)
        ensures
            m == default_method_spec(XDO_BUILT),
    {
        default_method(XDO_BUILT)
    }
}

/// Where on the screen the recording indicator appears.
#[derive(Debug, Clone, Copy, PartialEq, Eq, Structural)]
pub enum UiPosition {
    BottomRight,
    BottomCenter,
    BottomLeft,
    TopRight,
    TopCenter,
    TopLeft,
}

/// The position a configuration value names, compared case-insensitively;
/// anything else is the top centre.
pub open spec fn ui_position_spec(s: Seq<char>) -> UiPosition {
    let l = lowercase_spec(s);
    if l == "bottom-left"@ {
        UiPosition::BottomLeft
    } else if l == "bottom-center"@ {
        UiPosition::BottomCenter
    } else if l == "bottom-right"@ {
        UiPosition::BottomRight
    } else if l == "top-right"@ {
        UiPosition::TopRight
    } else if l == "top-center"@ {
        UiPosition::TopCenter
    } else if l == "top-left"@ {
        UiPosition::TopLeft
    } else {
        UiPosition::TopCenter
    }
}

impl UiPosition {
    /// Parses a configuration value; never fails, unknown names give the top centre.
    pub fn from_str(s: &str) -> (p: Self)
        ensures
            p == ui_position_spec(s@),
    {
        let l = lowercase(s);
        if text_eq(l.as_str(), "bottom-left") {
            UiPosition::BottomLeft
        } else if text_eq(l.as_str(), "bottom-center") {
            UiPosition::BottomCenter
        } else if text_eq(l.as_str(), "bottom-right") {
            UiPosition::BottomRight
        } else if text_eq(l.as_str(), "top-right") {
            UiPosition::TopRight
        } else if text_eq(l.as_str(), "top-center") {
            UiPosition::TopCenter
        } else if text_eq(l.as_str(), "top-left") {
            UiPosition::TopLeft
        } else {
            UiPosition::TopCenter
        }
    }
}

// ----- configuration sections -----

/// `[whisper]`: the model and the spoken language.
#[derive(Debug, Clone)]
pub struct WhisperConfig {
    /// Model name, relative path (`./`) or absolute path.
    pub model: String,
    /// The resolved path of the model file.
    pub model_path: String,
    /// Language code, or `auto`.
    pub language: String,
}

/// `[output]`: how text is delivered.
#[derive(Debug, Clone)]
pub struct OutputConfig {
    pub method: OutputMethod,
    /// Keyboard layout for ydotool (e.g. "us", "dk", "de"); "auto" detects it from the system.
    pub keyboard_layout: String,
}

impl OutputConfig {
    /// The default output: the default method and an automatically detected layout.
    pub fn default() -> (c: Self)
        ensures
            c.method == default_method_spec(XDO_BUILT),
            c.keyboard_layout@ == "auto"@,
    {
        OutputConfig { method: OutputMethod::default(), keyboard_layout: "auto".to_owned() }
    }
}

/// `[ui]`: the recording indicator.
#[derive(Debug, Clone)]
pub struct UiConfig {
    pub enabled: bool,
    pub position: UiPosition,
}

/// `[transcription]`: the integer and switch settings of the transcription
/// loop. The language-confidence and silence thresholds are real numbers;
/// their text is in [`ConfigSettings`] and the application reads them.
#[derive(Debug, Clone)]
pub struct TranscriptionConfig {
    /// How long to buffer audio before each transcription attempt (ms).
    pub transcription_interval_ms: usize,
    /// Segments must end this many ms before the audio end to be emitted.
    pub emit_grace_ms: usize,
    /// Transcribe while recording instead of once at the end.
    pub continuous_transcription: bool,
}

impl TranscriptionConfig {
    /// The defaults: a 1000 ms interval, a 1200 ms grace, transcription at the end.
    pub fn default() -> (c: Self)
        ensures
            c.transcription_interval_ms == 1000,
            c.emit_grace_ms == 1200,
            !c.continuous_transcription,
    {
        TranscriptionConfig {
            transcription_interval_ms: 1000,
            emit_grace_ms: 1200,
            continuous_transcription: false,
        }
    }
}

/// The whole configuration.
#[derive(Debug, Clone)]
pub struct Config {
    pub whisper: WhisperConfig,
    pub ui: UiConfig,
    pub transcription: TranscriptionConfig,
    pub output: OutputConfig,
}

// ----- reading the file -----

#[verifier::external_type_specification]
#[verifier::external_body]
pub struct ExIni(Ini);

#[verifier::external_type_specification]
#[verifier::external_body]
pub struct ExProperties(Properties);

/// What a loaded configuration file holds: for each section name, the keys
/// and values of the first section of that name, each key with its first value.
pub uninterp spec fn ini_values(ini: Ini) -> Map<Seq<char>, Map<Seq<char>, Seq<char>>>;

/// What one section holds: each key with its first value.
pub uninterp spec fn properties_values(p: Properties) -> Map<Seq<char>, Seq<char>>;

/// The value of `key` in `section` of the file, if any.
pub open spec fn ini_setting(ini: Ini, section: Seq<char>, key: Seq<char>) -> Option<Seq<char>> {
    if ini_values(ini).contains_key(section) && ini_values(ini)[section].contains_key(key) {
        Some(ini_values(ini)[section][key])
    } else {
        None
    }
}

/// `Ini::section(Some(name))`: the first section of that name, whose
/// contents are the entry of `ini_values` for the name.
#[verifier::external_body]
fn ini_section<'a>(ini: &'a Ini, name: &str) -> (r: Option<&'a Properties>)
    ensures
        r is Some == ini_values(*ini).contains_key(name@),
        r matches Some(p) ==> properties_values(*p) == ini_values(*ini)[name@],
{
    ini.section(Some(name))
}

/// `Properties::get(key)`: the first value of the key, as `properties_values` holds it.
#[verifier::external_body]
fn properties_get(p: &Properties, key: &str) -> (r: Option<String>)
    ensures
        r is Some == properties_values(*p).contains_key(key@),
        r matches Some(v) ==> v@ == properties_values(*p)[key@],
{
    match p.get(key) {
        Some(v) => Some(v.to_string()),
        None => None,
    }
}

/// `Ini::new()`: a configuration with no named section (only the empty
/// general section).
#[verifier::external_body]
pub(crate) fn ini_new() -> (r: Ini)
    ensures
        ini_values(r) =~= Map::empty(),
{
    Ini::new()
}

/// The keys and values of the section `name` in `values`; none when the
/// section is absent.
pub open spec fn section_of(
    values: Map<Seq<char>, Map<Seq<char>, Seq<char>>>,
    name: Seq<char>,
) -> Map<Seq<char>, Seq<char>> {
    if values.contains_key(name) {
        values[name]
    } else {
        Map::empty()
    }
}

/// `Ini::set_to(Some(section), key, value)`: sets the key in the first
/// section of that name, creating the section when it is absent; the key then
/// has this one value, and every other key and section is unchanged.
#[verifier::external_body]
pub(crate) fn ini_set(ini: &mut Ini, section: &str, key: &str, value: &str)
    ensures
        ini_values(*final(ini)) == ini_values(*old(ini)).insert(
            section@,
            section_of(ini_values(*old(ini)), section@).insert(key@, value@),
        ),
{
    ini.set_to(Some(section), key.to_string(), value.to_string())
}

/// The value of `key` in `section` of the file, if any.
fn ini_get(ini: &Ini, section: &str, key: &str) -> (r: Option<String>)
    ensures
        opt_view(r) == ini_setting(*ini, section@, key@),
{
    match ini_section(ini, section) {
        Some(p) => properties_get(p, key),
        None => None,
    }
}

/// The raw text of every setting the configuration reads, as found in the file.
#[derive(Debug, Clone)]
pub struct ConfigSettings {
    pub model: Option<String>,
    pub language: Option<String>,
    pub ui_enabled: Option<String>,
    pub ui_position: Option<String>,
    pub transcription_interval_ms: Option<String>,
    pub emit_grace_ms: Option<String>,
    pub continuous_transcription: Option<String>,
    pub language_confidence: Option<String>,
    pub silence_threshold_dbfs: Option<String>,
    pub silence_rms_threshold: Option<String>,
    pub output_method: Option<String>,
    pub keyboard_layout: Option<String>,
}

/// The settings as texts.
pub struct SettingsView {
    pub model: Option<Seq<char>>,
    pub language: Option<Seq<char>>,
    pub ui_enabled: Option<Seq<char>>,
    pub ui_position: Option<Seq<char>>,
    pub transcription_interval_ms: Option<Seq<char>>,
    pub emit_grace_ms: Option<Seq<char>>,
    pub continuous_transcription: Option<Seq<char>>,
    pub language_confidence: Option<Seq<char>>,
    pub silence_threshold_dbfs: Option<Seq<char>>,
    pub silence_rms_threshold: Option<Seq<char>>,
    pub output_method: Option<Seq<char>>,
    pub keyboard_layout: Option<Seq<char>>,
}

impl View for ConfigSettings {
    type V = SettingsView;

    open spec fn view(&self) -> SettingsView {
        SettingsView {
            model: opt_view(self.model),
            language: opt_view(self.language),
            ui_enabled: opt_view(self.ui_enabled),
            ui_position: opt_view(self.ui_position),
            transcription_interval_ms: opt_view(self.transcription_interval_ms),
            emit_grace_ms: opt_view(self.emit_grace_ms),
            continuous_transcription: opt_view(self.continuous_transcription),
            language_confidence: opt_view(self.language_confidence),
            silence_threshold_dbfs: opt_view(self.silence_threshold_dbfs),
            silence_rms_threshold: opt_view(self.silence_rms_threshold),
            output_method: opt_view(self.output_method),
            keyboard_layout: opt_view(self.keyboard_layout),
        }
    }
}

/// No setting present (a missing file).
pub open spec fn no_settings() -> SettingsView {
    SettingsView {
        model: None,
        language: None,
        ui_enabled: None,
        ui_position: None,
        transcription_interval_ms: None,
        emit_grace_ms: None,
        continuous_transcription: None,
        language_confidence: None,
        silence_threshold_dbfs: None,
        silence_rms_threshold: None,
        output_method: None,
        keyboard_layout: None,
    }
}

/// The settings a loaded file holds, under the keys the configuration reads.
pub open spec fn ini_settings(ini: Ini) -> SettingsView {
    SettingsView {
        model: ini_setting(ini, "whisper"@, "model"@),
        language: ini_setting(ini, "whisper"@, "language"@),
        ui_enabled: ini_setting(ini, "ui"@, "enabled"@),
        ui_position: ini_setting(ini, "ui"@, "position"@),
        transcription_interval_ms: ini_setting(
            ini,
            "transcription"@,
            "transcription_interval_ms"@,
        ),
        emit_grace_ms: ini_setting(ini, "transcription"@, "emit_grace_ms"@),
        continuous_transcription: ini_setting(ini, "transcription"@, "continuous_transcription"@),
        language_confidence: ini_setting(ini, "transcription"@, "language_confidence"@),
        silence_threshold_dbfs: ini_setting(ini, "transcription"@, "silence_threshold_dbfs"@),
        silence_rms_threshold: ini_setting(ini, "transcription"@, "silence_rms_threshold"@),
        output_method: ini_setting(ini, "output"@, "method"@),
        keyboard_layout: ini_setting(ini, "output"@, "keyboard_layout"@),
    }
}

impl ConfigSettings {
    /// No setting present (a missing file).
    pub fn empty() -> (s: Self)
        ensures
            s@ == no_settings(),
    {
        ConfigSettings {
            model: None,
            language: None,
            ui_enabled: None,
            ui_position: None,
            transcription_interval_ms: None,
            emit_grace_ms: None,
            continuous_transcription: None,
            language_confidence: None,
            silence_threshold_dbfs: None,
            silence_rms_threshold: None,
            output_method: None,
            keyboard_layout: None,
        }
    }

    /// Reads every setting from the loaded file.
    pub fn from_ini(ini: &Ini) -> (s: Self)
        ensures
            s@ == ini_settings(*ini),
    {
        ConfigSettings {
            model: ini_get(ini, "whisper", "model"),
            language: ini_get(ini, "whisper", "language"),
            ui_enabled: ini_get(ini, "ui", "enabled"),
            ui_position: ini_get(ini, "ui", "position"),
            transcription_interval_ms: ini_get(ini, "transcription", "transcription_interval_ms"),
            emit_grace_ms: ini_get(ini, "transcription", "emit_grace_ms"),
            continuous_transcription: ini_get(ini, "transcription", "continuous_transcription"),
            language_confidence: ini_get(ini, "transcription", "language_confidence"),
            silence_threshold_dbfs: ini_get(ini, "transcription", "silence_threshold_dbfs"),
            silence_rms_threshold: ini_get(ini, "transcription", "silence_rms_threshold"),
            output_method: ini_get(ini, "output", "method"),
            keyboard_layout: ini_get(ini, "output", "keyboard_layout"),
        }
    }
}

/// A text setting, or its default when absent.
pub open spec fn text_or(o: Option<Seq<char>>, default: Seq<char>) -> Seq<char> {
    match o {
        Some(s) => s,
        None => default,
    }
}

/// A switch: present and exactly `true`, or the default when absent.
pub open spec fn switch_or(o: Option<Seq<char>>, default: bool) -> bool {
    match o {
        Some(s) => s == "true"@,
        None => default,
    }
}

/// A number: the setting parsed as `usize`, or the default when it is absent
/// or does not parse.
pub open spec fn number_or(o: Option<Seq<char>>, default: usize) -> usize {
    match o {
        Some(s) => match parse_usize_spec(s) {
            Some(n) => n,
            None => default,
        },
        None => default,
    }
}

/// What the configuration is, for the settings found and the models directory.
pub open spec fn config_matches(c: Config, s: SettingsView, models_dir: Seq<char>) -> bool {
    &&& c.whisper.model@ == text_or(s.model, "base.en"@)
    &&& c.whisper.language@ == text_or(s.language, "auto"@)
    &&& c.whisper.model_path@ == resolve_model_path_spec(c.whisper.model@, models_dir)
    &&& c.ui.enabled == switch_or(s.ui_enabled, true)
    &&& c.ui.position == match s.ui_position {
        Some(p) => ui_position_spec(p),
        None => UiPosition::TopCenter,
    }
    &&& c.transcription.transcription_interval_ms == number_or(s.transcription_interval_ms, 1000)
    &&& c.transcription.emit_grace_ms == number_or(s.emit_grace_ms, 1200)
    &&& c.transcription.continuous_transcription == switch_or(s.continuous_transcription, false)
    &&& c.output.method == match s.output_method {
        Some(m) => output_method_spec(m),
        None => default_method_spec(XDO_BUILT),
    }
    &&& c.output.keyboard_layout@ == text_or(s.keyboard_layout, "auto"@)
}

pub(crate) fn text_setting_or(o: &Option<String>, default: &str) -> (r: String)
    ensures
        r@ == text_or(opt_view(*o), default@),
{
    match o {
        Some(s) => s.clone(),
        None => default.to_owned(),
    }
}

pub(crate) fn switch_setting_or(o: &Option<String>, default: bool) -> (r: bool)
    ensures
        r == switch_or(opt_view(*o), default),
{
    match o {
        Some(s) => text_eq(s.as_str(), "true"),
        None => default,
    }
}

pub(crate) fn number_setting_or(o: &Option<String>, default: usize) -> (r: usize)
    ensures
        r == number_or(opt_view(*o), default),
{
    match o {
        Some(s) => match parse_usize(s.as_str()) {
            Some(n) => n,
            None => default,
        },
        None => default,
    }
}

impl Config {
    /// Builds the configuration from the settings found in the file; every
    /// missing or unreadable setting takes its default.
    pub fn from_settings(s: &ConfigSettings, models_dir: &str) -> (c: Config)
        ensures
            config_matches(c, s@, models_dir@),
    {
        let model = text_setting_or(&s.model, "base.en");
        let language = text_setting_or(&s.language, "auto");
        let model_path = resolve_model_path(model.as_str(), models_dir);
        let position = match &s.ui_position {
            Some(p) => UiPosition::from_str(p.as_str()),
            None => UiPosition::TopCenter,
        };
        let method = match &s.output_method {
            Some(m) => OutputMethod::from_str(m.as_str()),
            None => OutputMethod::default(),
        };
        Config {
            whisper: WhisperConfig { model, model_path, language },
            ui: UiConfig { enabled: switch_setting_or(&s.ui_enabled, true), position },
            transcription: TranscriptionConfig {
                transcription_interval_ms: number_setting_or(&s.transcription_interval_ms, 1000),
                emit_grace_ms: number_setting_or(&s.emit_grace_ms, 1200),
                continuous_transcription: switch_setting_or(&s.continuous_transcription, false),
            },
            output: OutputConfig {
                method,
                keyboard_layout: text_setting_or(&s.keyboard_layout, "auto"),
            },
        }
    }

    /// Reads the configuration from the loaded file.
    pub fn from_ini(ini: &Ini, models_dir: &str) -> (c: Config)
        ensures
            config_matches(c, ini_settings(*ini), models_dir@),
    {
        let s = ConfigSettings::from_ini(ini);
        Config::from_settings(&s, models_dir)
    }

    /// The configuration when there is no file: every setting at its default.
    pub fn default(models_dir: &str) -> (c: Config)
        ensures
            config_matches(c, no_settings(), models_dir@),
            c.whisper.model@ == "base.en"@,
            c.whisper.language@ == "auto"@,
            c.whisper.model_path@ == path_join_spec(models_dir@, model_file_name_spec("base.en"@)),
            c.ui.enabled,
            c.ui.position == UiPosition::TopCenter,
            c.transcription.transcription_interval_ms == 1000,
            c.transcription.emit_grace_ms == 1200,
            !c.transcription.continuous_transcription,
            c.output.method == default_method_spec(XDO_BUILT),
            c.output.keyboard_layout@ == "auto"@,
    {
        proof {
            reveal_strlit("base.en");
            reveal_strlit("/");
            reveal_strlit("./");
            assert("base.en"@.subrange(0, 1)[0] != "/"@[0]);
            assert("base.en"@.subrange(0, 2)[0] != "./"@[0]);
            assert(!starts_with_spec("base.en"@, "/"@));
            assert(!starts_with_spec("base.en"@, "./"@));
        }
        Config::from_settings(&ConfigSettings::empty(), models_dir)
    }
}

} // verus!
