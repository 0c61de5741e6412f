use tray_i18n::translations::TrayTranslations;

fn labels(t: &TrayTranslations) -> Vec<String> {
    vec![
        t.settings.clone(),
        t.window_mode.clone(),
        t.position.clone(),
        t.hide.clone(),
        t.show.clone(),
        t.quit.clone(),
        t.center.clone(),
        t.bottom_left.clone(),
        t.bottom_right.clone(),
        t.fade_on_hover.clone(),
        t.move_window.clone(),
        t.resize.clone(),
    ]
}

#[test]
fn ukrainian_region_code_gives_ukrainian_labels() {
    let t = TrayTranslations::new("uk-UA");
    assert_eq!(t.settings, "Налаштування");
    assert_eq!(t.quit, "Вийти");
    assert_eq!(t.resize, "Масштабування");
}

#[test]
fn russian_code_gives_russian_labels() {
    let t = TrayTranslations::new("ru");
    assert_eq!(t.hide, "Скрыть");
    assert_eq!(t.show, "Показать");
    assert_eq!(t.bottom_left, "Внизу слева");
}

#[test]
fn unsupported_code_gives_english_labels() {
    let t = TrayTranslations::new("fr-FR");
    assert_eq!(t.settings, "Settings");
    assert_eq!(t.quit, "Quit");
    assert_eq!(t.move_window, "Move");
}

#[test]
fn english_record_exact() {
    let t = TrayTranslations::new("en");
    let expected = vec![
        "Settings", "Window Mode", "Position", "Hide", "Show", "Quit", "Center",
        "Bottom Left", "Bottom Right", "Fade On Hover", "Move", "Resize",
    ];
    assert_eq!(labels(&t), expected);
}

#[test]
fn other_codes_all_give_the_english_record() {
    let english = labels(&TrayTranslations::new("en"));
    for code in ["", "UK", "uk-CA", "ru-ru", "Ru", "de", "uk ", "ru-RU-x", "xyz"] {
        assert_eq!(labels(&TrayTranslations::new(code)), english, "code {:?}", code);
    }
}

#[test]
fn bare_and_regional_codes_agree() {
    assert_eq!(labels(&TrayTranslations::new("uk")), labels(&TrayTranslations::new("uk-UA")));
    assert_eq!(labels(&TrayTranslations::new("ru")), labels(&TrayTranslations::new("ru-RU")));
    assert_ne!(labels(&TrayTranslations::new("uk")), labels(&TrayTranslations::new("ru")));
}

#[test]
fn every_label_is_nonempty() {
    for code in ["uk", "uk-UA", "ru", "ru-RU", "en", "", "fr-FR"] {
        for label in labels(&TrayTranslations::new(code)) {
            assert!(!label.is_empty(), "code {:?}", code);
        }
    }
}
