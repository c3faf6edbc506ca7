//! The configuration dialog's settings: what it shows when it opens, read
//! from the configuration file, and the file it writes back when saving.
//!
//! The two real-valued settings (the language confidence and the silence
//! level) are carried as the text the file holds; the dialog converts them.

use ini::Ini;
use vstd::prelude::*;

use crate::config::{
    config_matches, ini_new, ini_set, ini_settings, ini_values, number_or, number_setting_or,
    resolve_model_path_spec, section_of, switch_or, switch_setting_or, text_or, text_setting_or,
    ui_position_spec, default_method_spec, Config, ConfigSettings, SettingsView, XDO_BUILT,
};
use crate::text::{decimal, decimal_spec, lemma_decimal_parses_back};

verus! {

/// The dialog's integer, switch and text settings.
#[derive(Debug, Clone)]
pub struct DialogSettings {
    pub model: String,
    pub language: String,
    pub ui_enabled: bool,
    /// The indicator position as written in the file (e.g. `top-center`).
    pub position: String,
    pub transcription_interval_ms: usize,
    pub emit_grace_ms: usize,
}

/// What the dialog shows for the settings found in the file: each setting,
/// or its default when absent (or, for a number, unreadable).
pub open spec fn dialog_matches(d: DialogSettings, s: SettingsView) -> bool {
    &&& d.model@ == text_or(s.model, "base.en"@)
    &&& d.language@ == text_or(s.language, "auto"@)
    &&& d.ui_enabled == switch_or(s.ui_enabled, true)
    &&& d.position@ == text_or(s.ui_position, "top-center"@)
    &&& d.transcription_interval_ms == number_or(s.transcription_interval_ms, 1000)
    &&& d.emit_grace_ms == number_or(s.emit_grace_ms, 1200)
}

impl DialogSettings {
    /// The settings the dialog opens with.
    pub fn from_settings(s: &ConfigSettings) -> (d: Self)
        ensures
            dialog_matches(d, s@),
    {
        DialogSettings {
            model: text_setting_or(&s.model, "base.en"),
            language: text_setting_or(&s.language, "auto"),
            ui_enabled: switch_setting_or(&s.ui_enabled, true),
            position: text_setting_or(&s.ui_position, "top-center"),
            transcription_interval_ms: number_setting_or(&s.transcription_interval_ms, 1000),
            emit_grace_ms: number_setting_or(&s.emit_grace_ms, 1200),
        }
    }
}

/// How a switch is written: `true` or `false`.
pub open spec fn switch_text(on: bool) -> Seq<char> {
    if on {
        "true"@
    } else {
        "false"@
    }
}

/// The sections and keys of a saved configuration file.
pub open spec fn saved_values(
    model: Seq<char>,
    language: Seq<char>,
    ui_enabled: bool,
    position: Seq<char>,
    transcription_interval_ms: nat,
    emit_grace_ms: nat,
    language_confidence: Seq<char>,
    silence_rms_threshold: Seq<char>,
) -> Map<Seq<char>, Map<Seq<char>, Seq<char>>> {
    Map::empty().insert(
        "whisper"@,
        Map::empty().insert("model"@, model).insert("language"@, language),
    ).insert(
        "ui"@,
        Map::empty().insert("enabled"@, switch_text(ui_enabled)).insert("position"@, position),
    ).insert(
        "transcription"@,
        Map::empty().insert(
            "transcription_interval_ms"@,
            decimal_spec(transcription_interval_ms),
        ).insert("emit_grace_ms"@, decimal_spec(emit_grace_ms)).insert(
            "language_confidence"@,
            language_confidence,
        ).insert("silence_rms_threshold"@, silence_rms_threshold),
    )
}

/// The configuration file the dialog saves: `[whisper]` with the model and
/// the language, `[ui]` with the switch and the position, `[transcription]`
/// with the two intervals in decimal and the two real-valued settings as given.
pub fn config_ini(
    model: &str,
    language: &str,
    ui_enabled: bool,
    position: &str,
    transcription_interval_ms: usize,
    emit_grace_ms: usize,
    language_confidence: &str,
    silence_rms_threshold: &str,
) -> (ini: Ini)
    ensures
        ini_values(ini) == saved_values(
            model@,
            language@,
            ui_enabled,
            position@,
            transcription_interval_ms as nat,
            emit_grace_ms as nat,
            language_confidence@,
            silence_rms_threshold@,
        ),
{
    proof {
        reveal_strlit("whisper");
        reveal_strlit("ui");
        reveal_strlit("transcription");
        reveal_strlit("model");
        reveal_strlit("language");
        reveal_strlit("enabled");
        reveal_strlit("position");
        reveal_strlit("transcription_interval_ms");
        reveal_strlit("emit_grace_ms");
        reveal_strlit("language_confidence");
        reveal_strlit("silence_rms_threshold");
        reveal_strlit("true");
        reveal_strlit("false");
    }
    let ghost w = Map::<Seq<char>, Seq<char>>::empty().insert("model"@, model@).insert(
        "language"@,
        language@,
    );
    let ghost u = Map::<Seq<char>, Seq<char>>::empty().insert(
        "enabled"@,
        switch_text(ui_enabled),
    ).insert("position"@, position@);
    let ghost t1 = Map::<Seq<char>, Seq<char>>::empty().insert(
        "transcription_interval_ms"@,
        decimal_spec(transcription_interval_ms as nat),
    );
    let ghost t2 = t1.insert("emit_grace_ms"@, decimal_spec(emit_grace_ms as nat));
    let ghost t3 = t2.insert("language_confidence"@, language_confidence@);
    let ghost t4 = t3.insert("silence_rms_threshold"@, silence_rms_threshold@);
    let mut ini = ini_new();
    ini_set(&mut ini, "whisper", "model", model);
    assert(section_of(Map::empty(), "whisper"@) =~= Map::empty());
    ini_set(&mut ini, "whisper", "language", language);
    assert(ini_values(ini) =~= Map::empty().insert("whisper"@, w));
    let enabled = if ui_enabled {
        "true"
    } else {
        "false"
    };
    assert(enabled@ == switch_text(ui_enabled));
    assert("ui"@.len() != "whisper"@.len());
    assert(!ini_values(ini).contains_key("ui"@));
    assert(section_of(ini_values(ini), "ui"@) =~= Map::empty());
    ini_set(&mut ini, "ui", "enabled", enabled);
    ini_set(&mut ini, "ui", "position", position);
    assert(ini_values(ini) =~= Map::empty().insert("whisper"@, w).insert("ui"@, u));
    let interval = decimal(transcription_interval_ms as u64);
    let grace = decimal(emit_grace_ms as u64);
    assert("transcription"@.len() != "whisper"@.len());
    assert("transcription"@.len() != "ui"@.len());
    assert(!ini_values(ini).contains_key("transcription"@));
    assert(section_of(ini_values(ini), "transcription"@) =~= Map::empty());
    ini_set(&mut ini, "transcription", "transcription_interval_ms", interval.as_str());
    assert(ini_values(ini) =~= Map::empty().insert("whisper"@, w).insert("ui"@, u).insert(
        "transcription"@,
        t1,
    ));
    ini_set(&mut ini, "transcription", "emit_grace_ms", grace.as_str());
    ini_set(&mut ini, "transcription", "language_confidence", language_confidence);
    ini_set(&mut ini, "transcription", "silence_rms_threshold", silence_rms_threshold);
    assert(ini_values(ini) =~= Map::empty().insert("whisper"@, w).insert("ui"@, u).insert(
        "transcription"@,
        t4,
    ));
    ini
}

proof fn lemma_saved_file_settings(
    ini: Ini,
    model: Seq<char>,
    language: Seq<char>,
    ui_enabled: bool,
    position: Seq<char>,
    transcription_interval_ms: usize,
    emit_grace_ms: usize,
    language_confidence: Seq<char>,
    silence_rms_threshold: Seq<char>,
)
    requires
        ini_values(ini) == saved_values(
            model,
            language,
            ui_enabled,
            position,
            transcription_interval_ms as nat,
            emit_grace_ms as nat,
            language_confidence,
            silence_rms_threshold,
        ),
    ensures
        ini_settings(ini).model == Some(model),
        ini_settings(ini).language == Some(language),
        ini_settings(ini).ui_enabled == Some(switch_text(ui_enabled)),
        ini_settings(ini).ui_position == Some(position),
        ini_settings(ini).transcription_interval_ms == Some(
            decimal_spec(transcription_interval_ms as nat),
        ),
        ini_settings(ini).emit_grace_ms == Some(decimal_spec(emit_grace_ms as nat)),
        ini_settings(ini).language_confidence == Some(language_confidence),
        ini_settings(ini).silence_rms_threshold == Some(silence_rms_threshold),
        ini_settings(ini).continuous_transcription is None,
        ini_settings(ini).output_method is None,
        ini_settings(ini).keyboard_layout is None,
{
    reveal_strlit("whisper");
    reveal_strlit("ui");
    reveal_strlit("transcription");
    reveal_strlit("output");
    reveal_strlit("model");
    reveal_strlit("language");
    reveal_strlit("enabled");
    reveal_strlit("position");
    reveal_strlit("transcription_interval_ms");
    reveal_strlit("emit_grace_ms");
    reveal_strlit("language_confidence");
    reveal_strlit("silence_rms_threshold");
    reveal_strlit("continuous_transcription");
    assert("whisper"@.len() != "ui"@.len() && "whisper"@.len() != "transcription"@.len());
    assert("ui"@.len() != "transcription"@.len());
    assert("output"@.len() != "whisper"@.len() && "output"@.len() != "ui"@.len()
        && "output"@.len() != "transcription"@.len());
    assert("model"@.len() != "language"@.len());
    assert("enabled"@.len() != "position"@.len());
    assert("transcription_interval_ms"@.len() != "emit_grace_ms"@.len());
    assert("transcription_interval_ms"@.len() != "language_confidence"@.len());
    assert("transcription_interval_ms"@.len() != "silence_rms_threshold"@.len());
    assert("emit_grace_ms"@.len() != "language_confidence"@.len());
    assert("emit_grace_ms"@.len() != "silence_rms_threshold"@.len());
    assert("language_confidence"@.len() != "silence_rms_threshold"@.len());
    assert("continuous_transcription"@.len() != "transcription_interval_ms"@.len());
    assert("continuous_transcription"@.len() != "emit_grace_ms"@.len());
    assert("continuous_transcription"@.len() != "language_confidence"@.len());
    assert("continuous_transcription"@.len() != "silence_rms_threshold"@.len());
}

/// What the dialog saves, it shows again when it is opened next: the model,
/// the language, the indicator switch and position and both intervals come
/// back unchanged, and the two real-valued settings come back as the text
/// that was written.
pub proof fn lemma_dialog_reopens_saved(
    ini: Ini,
    d: DialogSettings,
    model: Seq<char>,
    language: Seq<char>,
    ui_enabled: bool,
    position: Seq<char>,
    transcription_interval_ms: usize,
    emit_grace_ms: usize,
    language_confidence: Seq<char>,
    silence_rms_threshold: Seq<char>,
)
    requires
        ini_values(ini) == saved_values(
            model,
            language,
            ui_enabled,
            position,
            transcription_interval_ms as nat,
            emit_grace_ms as nat,
            language_confidence,
            silence_rms_threshold,
        ),
        dialog_matches(d, ini_settings(ini)),
    ensures
        d.model@ == model,
        d.language@ == language,
        d.ui_enabled == ui_enabled,
        d.position@ == position,
        d.transcription_interval_ms == transcription_interval_ms,
        d.emit_grace_ms == emit_grace_ms,
        ini_settings(ini).language_confidence == Some(language_confidence),
        ini_settings(ini).silence_rms_threshold == Some(silence_rms_threshold),
{
    lemma_saved_file_settings(
        ini,
        model,
        language,
        ui_enabled,
        position,
        transcription_interval_ms,
        emit_grace_ms,
        language_confidence,
        silence_rms_threshold,
    );
    lemma_decimal_parses_back(transcription_interval_ms as nat);
    lemma_decimal_parses_back(emit_grace_ms as nat);
    reveal_strlit("true");
    reveal_strlit("false");
    assert("false"@.len() != "true"@.len());
}

/// The daemon reads what the dialog saves: the model (and so the model file),
/// the language, the indicator switch and the position it names, and both
/// intervals. The file holds no `[output]` section and no
/// `continuous_transcription` key, so those settings are at their defaults.
pub proof fn lemma_daemon_reads_saved_config(
    ini: Ini,
    c: Config,
    models_dir: Seq<char>,
    model: Seq<char>,
    language: Seq<char>,
    ui_enabled: bool,
    position: Seq<char>,
    transcription_interval_ms: usize,
    emit_grace_ms: usize,
    language_confidence: Seq<char>,
    silence_rms_threshold: Seq<char>,
)
    requires
        ini_values(ini) == saved_values(
            model,
            language,
            ui_enabled,
            position,
            transcription_interval_ms as nat,
            emit_grace_ms as nat,
            language_confidence,
            silence_rms_threshold,
        ),
        config_matches(c, ini_settings(ini), models_dir),
    ensures
        c.whisper.model@ == model,
        c.whisper.language@ == language,
        c.whisper.model_path@ == resolve_model_path_spec(model, models_dir),
        c.ui.enabled == ui_enabled,
        c.ui.position == ui_position_spec(position),
        c.transcription.transcription_interval_ms == transcription_interval_ms,
        c.transcription.emit_grace_ms == emit_grace_ms,
        !c.transcription.continuous_transcription,
        c.output.method == default_method_spec(XDO_BUILT),
        c.output.keyboard_layout@ == "auto"@,
{
    lemma_saved_file_settings(
        ini,
        model,
        language,
        ui_enabled,
        position,
        transcription_interval_ms,
        emit_grace_ms,
        language_confidence,
        silence_rms_threshold,
    );
    lemma_decimal_parses_back(transcription_interval_ms as nat);
    lemma_decimal_parses_back(emit_grace_ms as nat);
    reveal_strlit("true");
    reveal_strlit("false");
    assert("false"@.len() != "true"@.len());
}

} // verus!
