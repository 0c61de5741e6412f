use vstd::prelude::*;
use crate::text::str_equal;

verus! {

/// The languages that have a translation record.
pub enum Language {
    English,
    Ukrainian,
    Russian,
}

/// A translation record as character sequences.
pub struct TranslationsView {
    pub settings: Seq<char>,
    pub window_mode: Seq<char>,
    pub position: Seq<char>,
    pub hide: Seq<char>,
    pub show: Seq<char>,
    pub quit: Seq<char>,
    pub center: Seq<char>,
    pub bottom_left: Seq<char>,
    pub bottom_right: Seq<char>,
    pub fade_on_hover: Seq<char>,
    pub move_window: Seq<char>,
    pub resize: Seq<char>,
}

/// The tray menu's labels in one language.
pub struct TrayTranslations {
    pub settings: String,
    pub window_mode: String,
    pub position: String,
    pub hide: String,
    pub show: String,
    pub quit: String,
    pub center: String,
    pub bottom_left: String,
    pub bottom_right: String,
    pub fade_on_hover: String,
    pub move_window: String,
    pub resize: String,
}

impl View for TrayTranslations {
    type V = TranslationsView;

    open spec fn view(&self) -> TranslationsView {
        TranslationsView {
            settings: self.settings@,
            window_mode: self.window_mode@,
            position: self.position@,
            hide: self.hide@,
            show: self.show@,
            quit: self.quit@,
            center: self.center@,
            bottom_left: self.bottom_left@,
            bottom_right: self.bottom_right@,
            fade_on_hover: self.fade_on_hover@,
            move_window: self.move_window@,
            resize: self.resize@,
        }
    }
}

/// The language selected by a locale code: only the exact codes `uk`, `uk-UA`,
/// `ru` and `ru-RU` select a language other than English.
pub open spec fn language_of(locale: Seq<char>) -> Language {
    if locale == "uk"@ || locale == "uk-UA"@ {
        Language::Ukrainian
    } else if locale == "ru"@ || locale == "ru-RU"@ {
        Language::Russian
    } else {
        Language::English
    }
}

/// The fixed record of labels of each language.
pub open spec fn record_of(lang: Language) -> TranslationsView {
    match lang {
        Language::Ukrainian => TranslationsView {
            settings: "Налаштування"@,
            window_mode: "Режим вікна"@,
            position: "Позиція"@,
            hide: "Сховати"@,
            show: "Показати"@,
            quit: "Вийти"@,
            center: "По центру"@,
            bottom_left: "Внизу ліворуч"@,
            bottom_right: "Внизу праворуч"@,
            fade_on_hover: "Затухання при наведенні"@,
            move_window: "Переміщення"@,
            resize: "Масштабування"@,
        },
        Language::Russian => TranslationsView {
            settings: "Настройки"@,
            window_mode: "Режим окна"@,
            position: "Позиция"@,
            hide: "Скрыть"@,
            show: "Показать"@,
            quit: "Выйти"@,
            center: "По центру"@,
            bottom_left: "Внизу слева"@,
            bottom_right: "Внизу справа"@,
            fade_on_hover: "Затухание при наведении"@,
            move_window: "Перемещение"@,
            resize: "Масштабирование"@,
        },
        Language::English => TranslationsView {
            settings: "Settings"@,
            window_mode: "Window Mode"@,
            position: "Position"@,
            hide: "Hide"@,
            show: "Show"@,
            quit: "Quit"@,
            center: "Center"@,
            bottom_left: "Bottom Left"@,
            bottom_right: "Bottom Right"@,
            fade_on_hover: "Fade On Hover"@,
            move_window: "Move"@,
            resize: "Resize"@,
        },
    }
}

/// The record that a lookup of `locale` yields.
pub open spec fn translations_for(locale: Seq<char>) -> TranslationsView {
    record_of(language_of(locale))
}

/// Whether every label of a record holds at least one character.
pub open spec fn all_labels_nonempty(t: TranslationsView) -> bool {
    &&& t.settings.len() > 0
    &&& t.window_mode.len() > 0
    &&& t.position.len() > 0
    &&& t.hide.len() > 0
    &&& t.show.len() > 0
    &&& t.quit.len() > 0
    &&& t.center.len() > 0
    &&& t.bottom_left.len() > 0
    &&& t.bottom_right.len() > 0
    &&& t.fade_on_hover.len() > 0
    &&& t.move_window.len() > 0
    &&& t.resize.len() > 0
}

impl TrayTranslations {
    /// The labels for `locale`; any code but `uk`, `uk-UA`, `ru` and `ru-RU`
    /// gives the English labels.
    pub fn new(locale: &str) -> (r: Self)
        ensures
            r@ == translations_for(locale@),
    {
        if str_equal(locale, "uk") || str_equal(locale, "uk-UA") {
            Self {
                settings: "Налаштування".to_string(),
                window_mode: "Режим вікна".to_string(),
                position: "Позиція".to_string(),
                hide: "Сховати".to_string(),
                show: "Показати".to_string(),
                quit: "Вийти".to_string(),
                center: "По центру".to_string(),
                bottom_left: "Внизу ліворуч".to_string(),
                bottom_right: "Внизу праворуч".to_string(),
                fade_on_hover: "Затухання при наведенні".to_string(),
                move_window: "Переміщення".to_string(),
                resize: "Масштабування".to_string(),
            }
        } else if str_equal(locale, "ru") || str_equal(locale, "ru-RU") {
            Self {
                settings: "Настройки".to_string(),
                window_mode: "Режим окна".to_string(),
                position: "Позиция".to_string(),
                hide: "Скрыть".to_string(),
                show: "Показать".to_string(),
                quit: "Выйти".to_string(),
                center: "По центру".to_string(),
                bottom_left: "Внизу слева".to_string(),
                bottom_right: "Внизу справа".to_string(),
                fade_on_hover: "Затухание при наведении".to_string(),
                move_window: "Перемещение".to_string(),
                resize: "Масштабирование".to_string(),
            }
        } else {
            Self {
                settings: "Settings".to_string(),
                window_mode: "Window Mode".to_string(),
                position: "Position".to_string(),
                hide: "Hide".to_string(),
                show: "Show".to_string(),
                quit: "Quit".to_string(),
                center: "Center".to_string(),
                bottom_left: "Bottom Left".to_string(),
                bottom_right: "Bottom Right".to_string(),
                fade_on_hover: "Fade On Hover".to_string(),
                move_window: "Move".to_string(),
                resize: "Resize".to_string(),
            }
        }
    }
}

/// Any locale code other than `uk`, `uk-UA`, `ru` and `ru-RU` yields exactly the
/// English record.
pub proof fn lemma_unknown_locale_is_english(locale: Seq<char>)
    requires
        locale != "uk"@,
        locale != "uk-UA"@,
        locale != "ru"@,
        locale != "ru-RU"@,
    ensures
        translations_for(locale) == record_of(Language::English),
{
}

/// The bare and the region-qualified code of a supported language yield the same
/// record.
pub proof fn lemma_regional_codes_agree()
    ensures
        translations_for("uk"@) == translations_for("uk-UA"@),
        translations_for("ru"@) == translations_for("ru-RU"@),
{
    reveal_strlit("uk");
    reveal_strlit("uk-UA");
    reveal_strlit("ru");
    reveal_strlit("ru-RU");
    assert("ru"@[0] != "uk"@[0]);
    assert("ru-RU"@[0] != "uk-UA"@[0]);
}

/// Every label of every record that a lookup yields is non-empty.
pub proof fn lemma_labels_nonempty(locale: Seq<char>)
    ensures
        all_labels_nonempty(translations_for(locale)),
{
    reveal_strlit("Налаштування");
    reveal_strlit("Режим вікна");
    reveal_strlit("Позиція");
    reveal_strlit("Сховати");
    reveal_strlit("Показати");
    reveal_strlit("Вийти");
    reveal_strlit("По центру");
    reveal_strlit("Внизу ліворуч");
    reveal_strlit("Внизу праворуч");
    reveal_strlit("Затухання при наведенні");
    reveal_strlit("Переміщення");
    reveal_strlit("Масштабування");
    reveal_strlit("Настройки");
    reveal_strlit("Режим окна");
    reveal_strlit("Позиция");
    reveal_strlit("Скрыть");
    reveal_strlit("Показать");
    reveal_strlit("Выйти");
    reveal_strlit("Внизу слева");
    reveal_strlit("Внизу справа");
    reveal_strlit("Затухание при наведении");
    reveal_strlit("Перемещение");
    reveal_strlit("Масштабирование");
    reveal_strlit("Settings");
    reveal_strlit("Window Mode");
    reveal_strlit("Position");
    reveal_strlit("Hide");
    reveal_strlit("Show");
    reveal_strlit("Quit");
    reveal_strlit("Center");
    reveal_strlit("Bottom Left");
    reveal_strlit("Bottom Right");
    reveal_strlit("Fade On Hover");
    reveal_strlit("Move");
    reveal_strlit("Resize");
}

} // verus!
