use cosmic_caffeineland::{Language, Locale};
use cosmic_caffeineland::locale::language_from_tag;

#[test]
fn language_by_prefix() {
    assert_eq!(language_from_tag("it-IT"), Language::Italian);
    assert_eq!(language_from_tag("it"), Language::Italian);
    assert_eq!(language_from_tag("de-AT"), Language::German);
    assert_eq!(language_from_tag("ja-JP"), Language::Japanese);
    assert_eq!(language_from_tag("zh-Hans-CN"), Language::Chinese);
    assert_eq!(language_from_tag("en-US"), Language::English);
    assert_eq!(language_from_tag("nl-NL"), Language::English);
    assert_eq!(language_from_tag("ita"), Language::English);
    assert_eq!(language_from_tag(""), Language::English);
    assert_eq!(language_from_tag("-it"), Language::English);
}

#[test]
fn italian_texts() {
    let l = Locale { translations: Locale::get_translations("it-IT") };
    assert_eq!(l.get("app-name"), "CosmicCaffeineLand");
    assert_eq!(
        l.get("battery-low-notification"),
        "Caffeine è stato disattivato e non può essere riattivato, livello batteria troppo basso"
    );
    assert_eq!(
        l.get("lid-closed-notification"),
        "Caffeine è stato disattivato per aver rilevato la chiusura dello schermo"
    );
}

#[test]
fn english_fallback() {
    let l = Locale { translations: Locale::get_translations("sv-SE") };
    assert_eq!(
        l.get("battery-low-notification"),
        "Caffeine has been disabled and cannot be reactivated, battery level too low"
    );
    assert_eq!(l.get("lid-closed-notification"), "Caffeine has been disabled after detecting screen closure");
}

#[test]
fn unknown_key_is_given_back() {
    let l = Locale { translations: Locale::get_translations("fr") };
    assert_eq!(l.get("no-such-key"), "no-such-key");
    assert_eq!(l.get(""), "");
}

#[test]
fn app_name_in_every_language() {
    for tag in ["it", "es", "fr", "de", "pt", "ru", "zh", "ja", "en", "xx"] {
        let l = Locale { translations: Locale::get_translations(tag) };
        assert_eq!(l.get("app-name"), "CosmicCaffeineLand");
    }
}

#[test]
fn default_tag_is_english() {
    let l = Locale::for_tag(None);
    assert_eq!(l.get("lid-closed-notification"), "Caffeine has been disabled after detecting screen closure");
    let l = Locale::for_tag(Some("ru-RU".to_string()));
    assert_eq!(l.get("lid-closed-notification"), "Caffeine был отключен из-за обнаружения закрытия экрана");
}

#[test]
fn system_locale_gives_some_table() {
    let l = Locale::new();
    assert_eq!(l.get("app-name"), "CosmicCaffeineLand");
}
