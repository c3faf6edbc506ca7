//! The choices offered by the configuration dialog and the model download.
//!
//! The dialog lists the Whisper models with their download sizes, the
//! languages and the indicator positions; an English-only model (`.en`)
//! fixes the language to English. Models are downloaded from the whisper.cpp
//! repository on Hugging Face into the models directory.

use vstd::prelude::*;
use vstd::string::StringExecFns;

use crate::config::{model_file_name, model_file_name_spec};
use crate::text::{decimal, decimal_spec, ends_with, ends_with_spec, text_eq};

verus! {

/// A table of (code, label) pairs as texts.
pub open spec fn table_view(t: Seq<(&'static str, &'static str)>) -> Seq<(Seq<char>, Seq<char>)> {
    t.map_values(|e: (&'static str, &'static str)| (e.0@, e.1@))
}

/// The label of the first entry with the given code.
pub open spec fn table_lookup(t: Seq<(Seq<char>, Seq<char>)>, key: Seq<char>) -> Option<Seq<char>>
    decreases t.len(),
{
    if t.len() == 0 {
        None
    } else if t[0].0 == key {
        Some(t[0].1)
    } else {
        table_lookup(t.drop_first(), key)
    }
}

/// The models offered, with their download sizes.
pub open spec fn models_spec() -> Seq<(Seq<char>, Seq<char>)> {
    seq![
        ("tiny"@, "39 MB"@),
        ("tiny.en"@, "39 MB"@),
        ("base"@, "147 MB"@),
        ("base.en"@, "147 MB"@),
        ("small"@, "488 MB"@),
        ("small.en"@, "488 MB"@),
        ("medium"@, "1.5 GB"@),
        ("medium.en"@, "1.5 GB"@),
        ("large-v3"@, "3.1 GB"@),
        ("large-v3-turbo"@, "1.6 GB"@),
        ("large-v3-turbo-q8_0"@, "809 MB"@),
        ("large-v3-turbo-q5_0"@, "547 MB"@),
    ]
}

/// The languages offered: code and name.
pub open spec fn languages_spec() -> Seq<(Seq<char>, Seq<char>)> {
    seq![
        ("auto"@, "Auto-detect"@),
        ("en"@, "English"@),
        ("es"@, "Spanish"@),
        ("fr"@, "French"@),
        ("de"@, "German"@),
        ("zh"@, "Chinese"@),
        ("ja"@, "Japanese"@),
        ("ko"@, "Korean"@),
        ("pt"@, "Portuguese"@),
        ("ru"@, "Russian"@),
        ("it"@, "Italian"@),
    ]
}

/// The indicator positions offered: configuration value and name.
pub open spec fn positions_spec() -> Seq<(Seq<char>, Seq<char>)> {
    seq![
        ("top-left"@, "Top Left"@),
        ("top-center"@, "Top Center"@),
        ("top-right"@, "Top Right"@),
        ("bottom-left"@, "Bottom Left"@),
        ("bottom-center"@, "Bottom Center"@),
        ("bottom-right"@, "Bottom Right"@),
    ]
}

/// The models offered, with their download sizes.
pub fn models() -> (t: Vec<(&'static str, &'static str)>)
    ensures
        table_view(t@) == models_spec(),
{
    let t = vec![
        ("tiny", "39 MB"),
        ("tiny.en", "39 MB"),
        ("base", "147 MB"),
        ("base.en", "147 MB"),
        ("small", "488 MB"),
        ("small.en", "488 MB"),
        ("medium", "1.5 GB"),
        ("medium.en", "1.5 GB"),
        ("large-v3", "3.1 GB"),
        ("large-v3-turbo", "1.6 GB"),
        ("large-v3-turbo-q8_0", "809 MB"),
        ("large-v3-turbo-q5_0", "547 MB"),
    ];
    assert(table_view(t@) =~= models_spec());
    t
}

/// The languages offered: code and name.
pub fn languages() -> (t: Vec<(&'static str, &'static str)>)
    ensures
        table_view(t@) == languages_spec(),
{
    let t = vec![
        ("auto", "Auto-detect"),
        ("en", "English"),
        ("es", "Spanish"),
        ("fr", "French"),
        ("de", "German"),
        ("zh", "Chinese"),
        ("ja", "Japanese"),
        ("ko", "Korean"),
        ("pt", "Portuguese"),
        ("ru", "Russian"),
        ("it", "Italian"),
    ];
    assert(table_view(t@) =~= languages_spec());
    t
}

/// The indicator positions offered: configuration value and name.
pub fn positions() -> (t: Vec<(&'static str, &'static str)>)
    ensures
        table_view(t@) == positions_spec(),
{
    let t = vec![
        ("top-left", "Top Left"),
        ("top-center", "Top Center"),
        ("top-right", "Top Right"),
        ("bottom-left", "Bottom Left"),
        ("bottom-center", "Bottom Center"),
        ("bottom-right", "Bottom Right"),
    ];
    assert(table_view(t@) =~= positions_spec());
    t
}

/// Every indicator position the dialog offers is read by the daemon as that
/// position, in the dialog's order.
pub proof fn lemma_offered_positions_understood()
    ensures
        crate::config::ui_position_spec(positions_spec()[0].0) == crate::config::UiPosition::TopLeft,
        crate::config::ui_position_spec(positions_spec()[1].0) == crate::config::UiPosition::TopCenter,
        crate::config::ui_position_spec(positions_spec()[2].0) == crate::config::UiPosition::TopRight,
        crate::config::ui_position_spec(positions_spec()[3].0) == crate::config::UiPosition::BottomLeft,
        crate::config::ui_position_spec(positions_spec()[4].0)
            == crate::config::UiPosition::BottomCenter,
        crate::config::ui_position_spec(positions_spec()[5].0)
            == crate::config::UiPosition::BottomRight,
{
    reveal_strlit("top-left");
    reveal_strlit("top-center");
    reveal_strlit("top-right");
    reveal_strlit("bottom-left");
    reveal_strlit("bottom-center");
    reveal_strlit("bottom-right");
    assert(crate::text::ascii_lowercase_spec("top-left"@) =~= "top-left"@);
    assert(crate::text::ascii_lowercase_spec("top-center"@) =~= "top-center"@);
    assert(crate::text::ascii_lowercase_spec("top-right"@) =~= "top-right"@);
    assert(crate::text::ascii_lowercase_spec("bottom-left"@) =~= "bottom-left"@);
    assert(crate::text::ascii_lowercase_spec("bottom-center"@) =~= "bottom-center"@);
    assert(crate::text::ascii_lowercase_spec("bottom-right"@) =~= "bottom-right"@);
}

/// The label of the first entry of `table` whose code is `key`.
pub fn lookup_label(table: &Vec<(&'static str, &'static str)>, key: &str) -> (r: Option<
    &'static str,
>)
    ensures
        match r {
            Some(l) => table_lookup(table_view(table@), key@) == Some(l@),
            None => table_lookup(table_view(table@), key@) is None,
        },
{
    let n = table.len();
    let mut i: usize = 0;
    assert(table_view(table@).skip(0) =~= table_view(table@));
    while i < n
        invariant
            n == table@.len(),
            i <= n,
            table_lookup(table_view(table@), key@) == table_lookup(
                table_view(table@).skip(i as int),
                key@,
            ),
        decreases n - i,
    {
        let e = table[i];
        assert(table_view(table@).skip(i as int)[0] == (e.0@, e.1@));
        if text_eq(e.0, key) {
            return Some(e.1);
        }
        assert(table_view(table@).skip(i as int).drop_first() =~= table_view(table@).skip(i + 1));
        i = i + 1;
    }
    assert(table_view(table@).skip(n as int) =~= Seq::<(Seq<char>, Seq<char>)>::empty());
    None
}

/// An English-only model: its name ends with `.en`.
pub fn is_english_model(model: &str) -> (b: bool)
    ensures
        b == ends_with_spec(model@, ".en"@),
{
    ends_with(model, ".en")
}

/// The language written to the configuration: `en` for an English-only
/// model, the chosen language otherwise.
pub fn saved_language(model: &str, language: &str) -> (r: String)
    ensures
        r@ == if ends_with_spec(model@, ".en"@) {
            "en"@
        } else {
            language@
        },
{
    if is_english_model(model) {
        "en".to_owned()
    } else {
        language.to_owned()
    }
}

/// What the model selector shows: `{model} ({size})`, the size empty for a
/// model not in the list.
pub fn model_display(model: &str) -> (r: String)
    ensures
        r@ == model@ + " ("@ + match table_lookup(models_spec(), model@) {
            Some(s) => s,
            None => ""@,
        } + ")"@,
{
    let t = models();
    let size = match lookup_label(&t, model) {
        Some(s) => s,
        None => "",
    };
    let mut r = model.to_owned();
    r.append(" (");
    r.append(size);
    r.append(")");
    r
}

/// What the language selector shows: `English` for an English-only model;
/// otherwise the name of the chosen language, or its code when it is not in the list.
pub fn language_display(model: &str, language: &str) -> (r: String)
    ensures
        r@ == if ends_with_spec(model@, ".en"@) {
            "English"@
        } else {
            match table_lookup(languages_spec(), language@) {
                Some(n) => n,
                None => language@,
            }
        },
{
    if is_english_model(model) {
        return "English".to_owned();
    }
    let t = languages();
    match lookup_label(&t, language) {
        Some(n) => n.to_owned(),
        None => language.to_owned(),
    }
}

/// What the position selector shows: the name of the position, or the
/// configured value when it is not in the list.
pub fn position_display(position: &str) -> (r: String)
    ensures
        r@ == match table_lookup(positions_spec(), position@) {
            Some(n) => n,
            None => position@,
        },
{
    let t = positions();
    match lookup_label(&t, position) {
        Some(n) => n.to_owned(),
        None => position.to_owned(),
    }
}

/// Where a model is downloaded from.
pub fn model_url(model: &str) -> (r: String)
    ensures
        r@ == "https://huggingface.co/ggerganov/whisper.cpp/resolve/main/"@
            + model_file_name_spec(model@),
{
    let mut r = "https://huggingface.co/ggerganov/whisper.cpp/resolve/main/".to_owned();
    let f = model_file_name(model);
    r.append(f.as_str());
    r
}

/// The file a download is written to before it is complete: `ggml-{name}.bin.tmp`.
pub fn model_temp_file_name(model: &str) -> (r: String)
    ensures
        r@ == model_file_name_spec(model@) + ".tmp"@,
{
    let mut r = model_file_name(model);
    r.append(".tmp");
    r
}

/// The progress shown during a download: the percentage and the total size
/// in MB when the size is known, the downloaded MB otherwise.
pub open spec fn progress_text_spec(downloaded: nat, total: Option<u64>) -> Seq<char> {
    match total {
        Some(t) => "Downloading... "@ + decimal_spec(downloaded * 100 / (t as nat)) + "% of "@
            + decimal_spec((t / 1_000_000) as nat) + " MB"@,
        None => "Downloading... "@ + decimal_spec(downloaded / 1_000_000) + " MB"@,
    }
}

/// The progress text after `downloaded` bytes of a model of `total` bytes.
pub fn download_progress_text(downloaded: u64, total: Option<u64>) -> (r: String)
    requires
        downloaded * 100 <= u64::MAX,
        total matches Some(t) ==> t > 0,
    ensures
        r@ == progress_text_spec(downloaded as nat, total),
{
    let mut r = "Downloading... ".to_owned();
    match total {
        Some(t) => {
            let pct = decimal(downloaded * 100 / t);
            r.append(pct.as_str());
            r.append("% of ");
            let mb = decimal(t / 1_000_000);
            r.append(mb.as_str());
            r.append(" MB");
        },
        None => {
            let mb = decimal(downloaded / 1_000_000);
            r.append(mb.as_str());
            r.append(" MB");
        },
    }
    r
}

} // verus!
