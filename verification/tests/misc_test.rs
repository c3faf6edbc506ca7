use whisperme::catalogue::{
    download_progress_text, is_english_model, language_display, languages, lookup_label,
    model_display, model_temp_file_name, model_url, models, position_display, positions,
    saved_language,
};
use whisperme::config::OutputMethod;
use whisperme::monitor::{select_monitor, select_monitor_index, MonitorInfo};
use whisperme::output::{clipboard_text, emitter_for, should_emit, AvailableMethods};
use whisperme::text::{decimal, ends_with, parse_usize, starts_with, text_eq, trim, trim_start};

fn mon(x: i16, y: i16, width: u16, height: u16, primary: bool) -> MonitorInfo {
    MonitorInfo { x, y, width, height, primary }
}

#[test]
fn monitor_under_the_pointer() {
    let ms = vec![mon(0, 0, 1920, 1080, false), mon(1920, 0, 2560, 1440, true)];
    assert_eq!(select_monitor_index(&ms, 100, 100), Some(0));
    assert_eq!(select_monitor_index(&ms, 1920, 0), Some(1));
    assert_eq!(select_monitor_index(&ms, 5000, 5000), Some(1));
    let r = select_monitor(&ms, 2000, 10).unwrap();
    assert_eq!((r.x, r.y, r.width, r.height), (1920, 0, 2560, 1440));
}

#[test]
fn monitor_fallbacks() {
    let ms = vec![mon(-100, 0, 50, 50, false), mon(0, 0, 50, 50, false)];
    assert_eq!(select_monitor_index(&ms, 500, 500), Some(0));
    assert_eq!(select_monitor_index(&ms, -60, 10), Some(0));
    assert_eq!(select_monitor_index(&ms, 50, 10), Some(0));
    assert!(select_monitor(&Vec::new(), 0, 0).is_none());
}

#[test]
fn dialog_choices() {
    assert_eq!(models().len(), 12);
    assert_eq!(languages().len(), 11);
    assert_eq!(positions().len(), 6);
    assert_eq!(lookup_label(&models(), "medium.en"), Some("1.5 GB"));
    assert_eq!(lookup_label(&models(), "huge"), None);
    assert_eq!(model_display("base"), "base (147 MB)");
    assert_eq!(model_display("custom"), "custom ()");
    assert_eq!(language_display("tiny.en", "fr"), "English");
    assert_eq!(language_display("tiny", "fr"), "French");
    assert_eq!(language_display("tiny", "xx"), "xx");
    assert_eq!(position_display("bottom-right"), "Bottom Right");
    assert_eq!(position_display("elsewhere"), "elsewhere");
    assert!(is_english_model("small.en"));
    assert!(!is_english_model("small"));
    assert_eq!(saved_language("base.en", "de"), "en");
    assert_eq!(saved_language("base", "de"), "de");
}

#[test]
fn download_locations_and_progress() {
    assert_eq!(
        model_url("tiny.en"),
        "https://huggingface.co/ggerganov/whisper.cpp/resolve/main/ggml-tiny.en.bin"
    );
    assert_eq!(model_temp_file_name("tiny"), "ggml-tiny.bin.tmp");
    assert_eq!(
        download_progress_text(36_750_000, Some(147_000_000)),
        "Downloading... 25% of 147 MB"
    );
    assert_eq!(download_progress_text(5_300_000, None), "Downloading... 5 MB");
    assert_eq!(download_progress_text(1, Some(1)), "Downloading... 100% of 0 MB");
}

#[test]
fn output_method_fallback() {
    let all = AvailableMethods { xdo: true, clipboard: true, ydotool: true };
    let none = AvailableMethods { xdo: false, clipboard: false, ydotool: false };
    assert_eq!(emitter_for(OutputMethod::Ydotool, all), OutputMethod::Ydotool);
    assert_eq!(emitter_for(OutputMethod::Ydotool, none), OutputMethod::Print);
    assert_eq!(emitter_for(OutputMethod::Xdo, none), OutputMethod::Print);
    assert_eq!(emitter_for(OutputMethod::Clipboard, all), OutputMethod::Clipboard);
    assert_eq!(emitter_for(OutputMethod::Print, none), OutputMethod::Print);
    assert!(should_emit(" "));
    assert!(!should_emit(""));
    assert_eq!(clipboard_text("Hello,", " world"), "Hello, world");
}

#[test]
fn text_primitives() {
    assert_eq!(trim(" \t x y \u{3000}\n"), "x y");
    assert_eq!(trim("   "), "");
    assert_eq!(trim_start("\u{a0} a "), "a ");
    assert!(starts_with("X11 Layout: us", "X11 Layout:"));
    assert!(!starts_with("X1", "X11"));
    assert!(ends_with("base.en", ".en"));
    assert!(!ends_with("en", ".en"));
    assert!(text_eq("a", "a"));
    assert!(!text_eq("a", "A"));
    assert_eq!(parse_usize("1200"), Some(1200));
    assert_eq!(parse_usize("+7"), Some(7));
    assert_eq!(parse_usize("+"), None);
    assert_eq!(parse_usize(""), None);
    assert_eq!(parse_usize("-1"), None);
    assert_eq!(parse_usize(" 1"), None);
    assert_eq!(parse_usize("12a"), None);
    assert_eq!(parse_usize("99999999999999999999999"), None);
    assert_eq!(parse_usize("18446744073709551615"), Some(usize::MAX));
    assert_eq!(decimal(0), "0");
    assert_eq!(decimal(907), "907");
    assert_eq!(decimal(u64::MAX), u64::MAX.to_string());
}
