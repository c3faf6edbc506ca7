use ini::Ini;
use whisperme::text::{decimal, parse_usize};
use whisperme::dialog::{config_ini, DialogSettings};
use whisperme::config::{
    default_method, XDO_BUILT,
    config_path, models_dir, path_join, resolve_model_path, Config, ConfigSettings, OutputConfig,
    OutputMethod, TranscriptionConfig, UiPosition,
};

#[test]
fn defaults_without_a_file() {
    let c = Config::default("/home/u/.local/share/whisperme/models");
    assert_eq!(c.whisper.model, "base.en");
    assert_eq!(c.whisper.language, "auto");
    assert_eq!(c.whisper.model_path, "/home/u/.local/share/whisperme/models/ggml-base.en.bin");
    assert!(c.ui.enabled);
    assert_eq!(c.ui.position, UiPosition::TopCenter);
    assert_eq!(c.transcription.transcription_interval_ms, 1000);
    assert_eq!(c.transcription.emit_grace_ms, 1200);
    assert!(!c.transcription.continuous_transcription);
    assert_eq!(c.output.method, OutputMethod::Xdo);
    assert_eq!(c.output.keyboard_layout, "auto");
}

#[test]
fn readme_example_file() {
    let text = "[whisper]\nmodel = base.en\nlanguage = auto\n\n[ui]\nenabled = true\nposition = top-center\n\n[transcription]\ncontinuous_transcription = false\n\n[output]\nmethod = ydotool\nkeyboard_layout = auto\n";
    let ini = Ini::load_from_str(text).unwrap();
    let c = Config::from_ini(&ini, "/m");
    assert_eq!(c.whisper.model, "base.en");
    assert_eq!(c.whisper.model_path, "/m/ggml-base.en.bin");
    assert_eq!(c.output.method, OutputMethod::Ydotool);
    assert_eq!(c.ui.position, UiPosition::TopCenter);
    assert!(!c.transcription.continuous_transcription);
}

#[test]
fn every_setting_is_read() {
    let text = "[whisper]\nmodel = ./models/tiny.bin\nlanguage = de\n[ui]\nenabled = false\nposition = Bottom-Left\n[transcription]\ntranscription_interval_ms = 500\nemit_grace_ms = +750\ncontinuous_transcription = true\nlanguage_confidence = 0.9\nsilence_threshold_dbfs = -50\n[output]\nmethod = PRINT\nkeyboard_layout = dk\n";
    let ini = Ini::load_from_str(text).unwrap();
    let s = ConfigSettings::from_ini(&ini);
    assert_eq!(s.language_confidence.as_deref(), Some("0.9"));
    assert_eq!(s.silence_threshold_dbfs.as_deref(), Some("-50"));
    let c = Config::from_settings(&s, "/m");
    assert_eq!(c.whisper.model_path, "./models/tiny.bin");
    assert_eq!(c.whisper.language, "de");
    assert!(!c.ui.enabled);
    assert_eq!(c.ui.position, UiPosition::BottomLeft);
    assert_eq!(c.transcription.transcription_interval_ms, 500);
    assert_eq!(c.transcription.emit_grace_ms, 750);
    assert!(c.transcription.continuous_transcription);
    assert_eq!(c.output.method, OutputMethod::Print);
    assert_eq!(c.output.keyboard_layout, "dk");
}

#[test]
fn unreadable_settings_fall_back() {
    let text = "[ui]\nenabled = yes\nposition = middle\n[transcription]\ntranscription_interval_ms = fast\nemit_grace_ms = -5\n[output]\nmethod = carrier-pigeon\n";
    let ini = Ini::load_from_str(text).unwrap();
    let c = Config::from_ini(&ini, "/m");
    assert!(!c.ui.enabled);
    assert_eq!(c.ui.position, UiPosition::TopCenter);
    assert_eq!(c.transcription.transcription_interval_ms, 1000);
    assert_eq!(c.transcription.emit_grace_ms, 1200);
    assert_eq!(c.output.method, OutputMethod::Xdo);
}

#[test]
fn output_method_names() {
    assert_eq!(OutputMethod::from_str("xdo"), OutputMethod::Xdo);
    assert_eq!(OutputMethod::from_str("Clipboard"), OutputMethod::Clipboard);
    assert_eq!(OutputMethod::from_str("YDOTOOL"), OutputMethod::Ydotool);
    assert_eq!(OutputMethod::from_str("print"), OutputMethod::Print);
    assert_eq!(OutputMethod::from_str(" print"), OutputMethod::Xdo);
    assert_eq!(OutputMethod::default(), OutputMethod::Xdo);
    let o = OutputConfig::default();
    assert_eq!(o.method, OutputMethod::Xdo);
    assert_eq!(o.keyboard_layout, "auto");
}

#[test]
fn default_method_depends_on_the_build() {
    assert_eq!(default_method(true), OutputMethod::Xdo);
    assert_eq!(default_method(false), OutputMethod::Print);
    assert!(XDO_BUILT);
}

#[test]
fn ui_position_names() {
    assert_eq!(UiPosition::from_str("bottom-left"), UiPosition::BottomLeft);
    assert_eq!(UiPosition::from_str("bottom-center"), UiPosition::BottomCenter);
    assert_eq!(UiPosition::from_str("bottom-right"), UiPosition::BottomRight);
    assert_eq!(UiPosition::from_str("TOP-RIGHT"), UiPosition::TopRight);
    assert_eq!(UiPosition::from_str("top-center"), UiPosition::TopCenter);
    assert_eq!(UiPosition::from_str("top-left"), UiPosition::TopLeft);
    assert_eq!(UiPosition::from_str("nowhere"), UiPosition::TopCenter);
}

#[test]
fn transcription_defaults() {
    let t = TranscriptionConfig::default();
    assert_eq!(t.transcription_interval_ms, 1000);
    assert_eq!(t.emit_grace_ms, 1200);
    assert!(!t.continuous_transcription);
}

#[test]
fn model_paths() {
    assert_eq!(resolve_model_path("/opt/m.bin", "/d"), "/opt/m.bin");
    assert_eq!(resolve_model_path("./m.bin", "/d"), "./m.bin");
    assert_eq!(resolve_model_path("tiny", "/d"), "/d/ggml-tiny.bin");
    assert_eq!(resolve_model_path("tiny", "/d/"), "/d/ggml-tiny.bin");
    assert_eq!(resolve_model_path("../m", "/d"), "/d/ggml-../m.bin");
}

#[test]
fn path_joining() {
    assert_eq!(path_join("/a", "b"), "/a/b");
    assert_eq!(path_join("/a/", "b"), "/a/b");
    assert_eq!(path_join("", "b"), "b");
    assert_eq!(path_join("/a", "/b"), "/b");
}

#[test]
fn directories_from_environment() {
    assert_eq!(models_dir(Some("/x"), Some("/h")).as_deref(), Some("/x/whisperme/models"));
    assert_eq!(models_dir(None, Some("/h")).as_deref(), Some("/h/.local/share/whisperme/models"));
    assert_eq!(models_dir(None, None), None);
    assert_eq!(config_path(Some("/c"), None).as_deref(), Some("/c/whisperme/config.ini"));
    assert_eq!(config_path(None, Some("/h")).as_deref(), Some("/h/.config/whisperme/config.ini"));
    assert_eq!(config_path(None, None), None);
}

#[test]
fn dialog_choices_are_understood_by_the_daemon() {
    let expected = [
        UiPosition::TopLeft,
        UiPosition::TopCenter,
        UiPosition::TopRight,
        UiPosition::BottomLeft,
        UiPosition::BottomCenter,
        UiPosition::BottomRight,
    ];
    for ((code, _), p) in whisperme::catalogue::positions().into_iter().zip(expected) {
        assert_eq!(UiPosition::from_str(code), p);
    }
}

#[test]
fn saved_settings_read_back() {
    assert_eq!(parse_usize(&decimal(1500)), Some(1500));
    let ini = config_ini("small.en", "en", false, "bottom-right", 2500, 0, "0.5", "0.02");
    let c = Config::from_ini(&ini, "/m");
    assert_eq!(c.whisper.model, "small.en");
    assert_eq!(c.whisper.language, "en");
    assert_eq!(c.whisper.model_path, "/m/ggml-small.en.bin");
    assert!(!c.ui.enabled);
    assert_eq!(c.ui.position, UiPosition::BottomRight);
    assert_eq!(c.transcription.transcription_interval_ms, 2500);
    assert_eq!(c.transcription.emit_grace_ms, 0);
    // The dialog writes no [output] section: the daemon falls back to its defaults.
    assert!(!c.transcription.continuous_transcription);
    assert_eq!(c.output.method, OutputMethod::Xdo);
    assert_eq!(c.output.keyboard_layout, "auto");
}

#[test]
fn dialog_reopens_what_it_saved() {
    let ini = config_ini("medium", "de", true, "top-left", 1500, 900, "0.85", "0.005");
    let s = ConfigSettings::from_ini(&ini);
    let d = DialogSettings::from_settings(&s);
    assert_eq!(d.model, "medium");
    assert_eq!(d.language, "de");
    assert!(d.ui_enabled);
    assert_eq!(d.position, "top-left");
    assert_eq!(d.transcription_interval_ms, 1500);
    assert_eq!(d.emit_grace_ms, 900);
    assert_eq!(s.language_confidence.as_deref(), Some("0.85"));
    assert_eq!(s.silence_rms_threshold.as_deref(), Some("0.005"));
}

#[test]
fn saved_file_layout() {
    let ini = config_ini("base.en", "en", true, "top-center", 1000, 1200, "0.7", "0.01");
    assert_eq!(ini.get_from(Some("whisper"), "model"), Some("base.en"));
    assert_eq!(ini.get_from(Some("whisper"), "language"), Some("en"));
    assert_eq!(ini.get_from(Some("ui"), "enabled"), Some("true"));
    assert_eq!(ini.get_from(Some("ui"), "position"), Some("top-center"));
    assert_eq!(ini.get_from(Some("transcription"), "transcription_interval_ms"), Some("1000"));
    assert_eq!(ini.get_from(Some("transcription"), "emit_grace_ms"), Some("1200"));
    assert_eq!(ini.get_from(Some("transcription"), "language_confidence"), Some("0.7"));
    assert_eq!(ini.get_from(Some("transcription"), "silence_rms_threshold"), Some("0.01"));
    assert!(ini.section(Some("output")).is_none());
}

#[test]
fn dialog_defaults_without_a_file() {
    let d = DialogSettings::from_settings(&ConfigSettings::empty());
    assert_eq!(d.model, "base.en");
    assert_eq!(d.language, "auto");
    assert!(d.ui_enabled);
    assert_eq!(d.position, "top-center");
    assert_eq!(d.transcription_interval_ms, 1000);
    assert_eq!(d.emit_grace_ms, 1200);
}
