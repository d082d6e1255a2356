//! The applet's texts in the user's language.
use vstd::prelude::*;
use vstd::string::*;

use crate::text::{chars_eq, chars_of};

verus! {

/// A language that the applet speaks.
#[derive(Debug, Clone, Copy, PartialEq, Eq, Structural)]
pub enum Language {
    English,
    Italian,
    Spanish,
    French,
    German,
    Portuguese,
    Russian,
    Chinese,
    Japanese,
}

/// The part of a language tag before its first `-` (the whole tag when it has none).
pub open spec fn language_prefix(tag: Seq<char>) -> Seq<char>
    decreases tag.len(),
{
    if tag.len() == 0 || tag[0] == '-' {
        Seq::empty()
    } else {
        seq![tag[0]] + language_prefix(tag.drop_first())
    }
}

/// The language of a tag, by its prefix: `it`, `es`, `fr`, `de`, `pt`, `ru`,
/// `zh`, `ja`; English for any other.
pub open spec fn language_of(tag: Seq<char>) -> Language {
    let prefix = language_prefix(tag);
    if prefix == "it"@ {
        Language::Italian
    } else if prefix == "es"@ {
        Language::Spanish
    } else if prefix == "fr"@ {
        Language::French
    } else if prefix == "de"@ {
        Language::German
    } else if prefix == "pt"@ {
        Language::Portuguese
    } else if prefix == "ru"@ {
        Language::Russian
    } else if prefix == "zh"@ {
        Language::Chinese
    } else if prefix == "ja"@ {
        Language::Japanese
    } else {
        Language::English
    }
}

/// The tag assumed when the system names no locale.
pub open spec fn default_tag() -> Seq<char> {
    "en-US"@
}

/// The applet's name, the same in every language.
pub open spec fn app_name_text() -> Seq<char> {
    "CosmicCaffeineLand"@
}

/// The low-battery notice in `lang`.
pub open spec fn battery_low_text(lang: Language) -> Seq<char> {
    match lang {
        Language::Italian => "Caffeine è stato disattivato e non può essere riattivato, livello batteria troppo basso"@,
        Language::Spanish => "Caffeine ha sido desactivado y no puede ser reactivado, nivel de batería demasiado bajo"@,
        Language::French => "Caffeine a été désactivé et ne peut pas être réactivé, niveau de batterie trop faible"@,
        Language::German => "Caffeine wurde deaktiviert und kann nicht reaktiviert werden, Batteriestand zu niedrig"@,
        Language::Portuguese => "Caffeine foi desativado e não pode ser reativado, nível de bateria muito baixo"@,
        Language::Russian => "Caffeine был отключен и не может быть включен, уровень заряда слишком низкий"@,
        Language::Chinese => "咖啡因已被禁用且无法重新启用,电池电量过低"@,
        Language::Japanese => "バッテリー残量が少ないため、カフェインが無効化され、再有効化できません"@,
        Language::English => "Caffeine has been disabled and cannot be reactivated, battery level too low"@,
    }
}

/// The lid-closed notice in `lang`.
pub open spec fn lid_closed_text(lang: Language) -> Seq<char> {
    match lang {
        Language::Italian => "Caffeine è stato disattivato per aver rilevato la chiusura dello schermo"@,
        Language::Spanish => "Caffeine ha sido desactivado al detectar el cierre de la pantalla"@,
        Language::French => "Caffeine a été désactivé suite à la détection de la fermeture de l'écran"@,
        Language::German => "Caffeine wurde deaktiviert, da das Schließen des Bildschirms erkannt wurde"@,
        Language::Portuguese => "Caffeine foi desativado ao detectar o fechamento da tela"@,
        Language::Russian => "Caffeine был отключен из-за обнаружения закрытия экрана"@,
        Language::Chinese => "检测到屏幕关闭,咖啡因已被禁用"@,
        Language::Japanese => "画面の閉鎖を検出したため、カフェインが無効化されました"@,
        Language::English => "Caffeine has been disabled after detecting screen closure"@,
    }
}

/// The key of the applet's name.
pub open spec fn app_name_key() -> Seq<char> {
    "app-name"@
}

/// The key of the low-battery notice.
pub open spec fn battery_low_key() -> Seq<char> {
    "battery-low-notification"@
}

/// The key of the lid-closed notice.
pub open spec fn lid_closed_key() -> Seq<char> {
    "lid-closed-notification"@
}

/// The table of texts in `lang`, by key: exactly the three keys.
pub open spec fn translation_table(lang: Language) -> Map<Seq<char>, Seq<char>> {
    map![
        app_name_key() => app_name_text(),
        battery_low_key() => battery_low_text(lang),
        lid_closed_key() => lid_closed_text(lang),
    ]
}

/// The texts of one language, by key.
pub struct Translations {
    pub app_name: String,
    pub battery_low_notification: String,
    pub lid_closed_notification: String,
}

impl View for Translations {
    type V = Map<Seq<char>, Seq<char>>;

    open spec fn view(&self) -> Map<Seq<char>, Seq<char>> {
        map![
            app_name_key() => self.app_name@,
            battery_low_key() => self.battery_low_notification@,
            lid_closed_key() => self.lid_closed_notification@,
        ]
    }
}

/// The texts of the user's language.
pub struct Locale {
    pub translations: Translations,
}

/// `sys_locale::get_locale`: the user's preferred locale as a BCP 47 tag, read
/// from the process environment (on Unix the `LANGUAGE`, `LC_ALL`,
/// `LC_MESSAGES` and `LANG` variables), or `None` when none names one. It
/// depends on the environment alone, so nothing is stated of which tag comes
/// back.
#[verifier::external_body]
fn system_locale() -> (tag: Option<String>) {
    sys_locale::get_locale()
}

proof fn lemma_keys_distinct()
    ensures
        app_name_key() != battery_low_key(),
        app_name_key() != lid_closed_key(),
        battery_low_key() != lid_closed_key(),
{
    reveal_strlit("app-name");
    reveal_strlit("battery-low-notification");
    reveal_strlit("lid-closed-notification");
    assert(app_name_key().len() != battery_low_key().len());
    assert(app_name_key().len() != lid_closed_key().len());
    assert(battery_low_key().len() != lid_closed_key().len());
}

/// The prefix of a tag is the part before its first `-`: when `p` holds no
/// `-` and `rest` is empty or starts with `-`, the prefix of `p + rest` is `p`.
pub proof fn lemma_prefix_before_dash(p: Seq<char>, rest: Seq<char>)
    requires
        !p.contains('-'),
        rest.len() == 0 || rest[0] == '-',
    ensures
        language_prefix(p + rest) == p,
    decreases p.len(),
{
    if p.len() == 0 {
        assert(p + rest =~= rest);
    } else {
        assert(p[0] != '-');
        assert(!p.drop_first().contains('-')) by {
            if p.drop_first().contains('-') {
                let i = choose|i: int| 0 <= i < p.drop_first().len() && p.drop_first()[i] == '-';
                assert(p[i + 1] == '-');
            }
        }
        lemma_prefix_before_dash(p.drop_first(), rest);
        assert((p + rest).drop_first() =~= p.drop_first() + rest);
        assert(seq![p[0]] + p.drop_first() =~= p);
    }
}

/// Each listed prefix picks its own language: `it` Italian, `es` Spanish,
/// `fr` French, `de` German, `pt` Portuguese, `ru` Russian, `zh` Chinese,
/// `ja` Japanese, whatever follows the first `-`; any other prefix English.
pub proof fn lemma_language_by_prefix(tag: Seq<char>)
    ensures
        language_prefix(tag) == "it"@ ==> language_of(tag) == Language::Italian,
        language_prefix(tag) == "es"@ ==> language_of(tag) == Language::Spanish,
        language_prefix(tag) == "fr"@ ==> language_of(tag) == Language::French,
        language_prefix(tag) == "de"@ ==> language_of(tag) == Language::German,
        language_prefix(tag) == "pt"@ ==> language_of(tag) == Language::Portuguese,
        language_prefix(tag) == "ru"@ ==> language_of(tag) == Language::Russian,
        language_prefix(tag) == "zh"@ ==> language_of(tag) == Language::Chinese,
        language_prefix(tag) == "ja"@ ==> language_of(tag) == Language::Japanese,
        language_prefix(tag) != "it"@ && language_prefix(tag) != "es"@ && language_prefix(tag)
            != "fr"@ && language_prefix(tag) != "de"@ && language_prefix(tag) != "pt"@
            && language_prefix(tag) != "ru"@ && language_prefix(tag) != "zh"@ && language_prefix(
            tag,
        ) != "ja"@ ==> language_of(tag) == Language::English,
{
    reveal_strlit("it");
    reveal_strlit("es");
    reveal_strlit("fr");
    reveal_strlit("de");
    reveal_strlit("pt");
    reveal_strlit("ru");
    reveal_strlit("zh");
    reveal_strlit("ja");
    assert("it"@[0] != "es"@[0] && "it"@[0] != "fr"@[0] && "it"@[0] != "de"@[0] && "it"@[0]
        != "pt"@[0] && "it"@[0] != "ru"@[0] && "it"@[0] != "zh"@[0] && "it"@[0] != "ja"@[0]);
    assert("es"@[0] != "fr"@[0] && "es"@[0] != "de"@[0] && "es"@[0] != "pt"@[0] && "es"@[0]
        != "ru"@[0] && "es"@[0] != "zh"@[0] && "es"@[0] != "ja"@[0]);
    assert("fr"@[0] != "de"@[0] && "fr"@[0] != "pt"@[0] && "fr"@[0] != "ru"@[0] && "fr"@[0]
        != "zh"@[0] && "fr"@[0] != "ja"@[0]);
    assert("de"@[0] != "pt"@[0] && "de"@[0] != "ru"@[0] && "de"@[0] != "zh"@[0] && "de"@[0]
        != "ja"@[0]);
    assert("pt"@[0] != "ru"@[0] && "pt"@[0] != "zh"@[0] && "pt"@[0] != "ja"@[0]);
    assert("ru"@[0] != "zh"@[0] && "ru"@[0] != "ja"@[0]);
    assert("zh"@[0] != "ja"@[0]);
}

/// A tag made of a listed two-letter language code, optionally followed by
/// `-` and a region or script, picks that language; for instance `pt-BR`
/// picks Portuguese and its texts.
pub proof fn lemma_tag_picks_language(code: Seq<char>, rest: Seq<char>)
    requires
        code == "it"@ || code == "es"@ || code == "fr"@ || code == "de"@ || code == "pt"@ || code
            == "ru"@ || code == "zh"@ || code == "ja"@,
        rest.len() == 0 || rest[0] == '-',
    ensures
        language_prefix(code + rest) == code,
        code == "pt"@ ==> language_of(code + rest) == Language::Portuguese
            && Locale::table_for(code + rest)[battery_low_key()] == battery_low_text(
            Language::Portuguese,
        ),
        code == "it"@ ==> language_of(code + rest) == Language::Italian,
        code == "es"@ ==> language_of(code + rest) == Language::Spanish,
        code == "fr"@ ==> language_of(code + rest) == Language::French,
        code == "de"@ ==> language_of(code + rest) == Language::German,
        code == "ru"@ ==> language_of(code + rest) == Language::Russian,
        code == "zh"@ ==> language_of(code + rest) == Language::Chinese,
        code == "ja"@ ==> language_of(code + rest) == Language::Japanese,
{
    reveal_strlit("it");
    reveal_strlit("es");
    reveal_strlit("fr");
    reveal_strlit("de");
    reveal_strlit("pt");
    reveal_strlit("ru");
    reveal_strlit("zh");
    reveal_strlit("ja");
    assert(!code.contains('-')) by {
        if code.contains('-') {
            let i = choose|i: int| 0 <= i < code.len() && code[i] == '-';
            assert(code.len() == 2);
        }
    }
    lemma_prefix_before_dash(code, rest);
    lemma_language_by_prefix(code + rest);
    lemma_keys_distinct();
}

fn prefix_chars(tag: &str) -> (p: Vec<char>)
    ensures
        p@ == language_prefix(tag@),
{
    let text = chars_of(tag);
    let mut p: Vec<char> = Vec::new();
    let mut k: usize = 0;
    assert(text@.skip(0) =~= text@);
    while k < text.len() && text[k] != '-'
        invariant
            k <= text@.len(),
            text@ == tag@,
            language_prefix(text@) == p@ + language_prefix(text@.skip(k as int)),
        decreases text@.len() - k,
    {
        assert(text@.skip(k as int).drop_first() =~= text@.skip(k + 1));
        assert(language_prefix(text@.skip(k as int)) == seq![text@[k as int]] + language_prefix(
            text@.skip(k + 1),
        ));
        p.push(text[k]);
        k = k + 1;
        assert(language_prefix(text@) == p@ + language_prefix(text@.skip(k as int)));
    }
    assert(language_prefix(text@.skip(k as int)) =~= Seq::<char>::empty());
    assert(p@ + Seq::<char>::empty() =~= p@);
    p
}

fn same_as(text: &Vec<char>, literal: &str) -> (r: bool)
    ensures
        r == (text@ == literal@),
{
    chars_eq(text, &chars_of(literal))
}

/// The language that `tag` names.
pub fn language_from_tag(tag: &str) -> (lang: Language)
    ensures
        lang == language_of(tag@),
{
    let prefix = prefix_chars(tag);
    if same_as(&prefix, "it") {
        Language::Italian
    } else if same_as(&prefix, "es") {
        Language::Spanish
    } else if same_as(&prefix, "fr") {
        Language::French
    } else if same_as(&prefix, "de") {
        Language::German
    } else if same_as(&prefix, "pt") {
        Language::Portuguese
    } else if same_as(&prefix, "ru") {
        Language::Russian
    } else if same_as(&prefix, "zh") {
        Language::Chinese
    } else if same_as(&prefix, "ja") {
        Language::Japanese
    } else {
        Language::English
    }
}

fn battery_low_string(lang: Language) -> (s: String)
    ensures
        s@ == battery_low_text(lang),
{
    match lang {
        Language::Italian => String::from_str("Caffeine è stato disattivato e non può essere riattivato, livello batteria troppo basso"),
        Language::Spanish => String::from_str("Caffeine ha sido desactivado y no puede ser reactivado, nivel de batería demasiado bajo"),
        Language::French => String::from_str("Caffeine a été désactivé et ne peut pas être réactivé, niveau de batterie trop faible"),
        Language::German => String::from_str("Caffeine wurde deaktiviert und kann nicht reaktiviert werden, Batteriestand zu niedrig"),
        Language::Portuguese => String::from_str("Caffeine foi desativado e não pode ser reativado, nível de bateria muito baixo"),
        Language::Russian => String::from_str("Caffeine был отключен и не может быть включен, уровень заряда слишком низкий"),
        Language::Chinese => String::from_str("咖啡因已被禁用且无法重新启用,电池电量过低"),
        Language::Japanese => String::from_str("バッテリー残量が少ないため、カフェインが無効化され、再有効化できません"),
        Language::English => String::from_str("Caffeine has been disabled and cannot be reactivated, battery level too low"),
    }
}

fn lid_closed_string(lang: Language) -> (s: String)
    ensures
        s@ == lid_closed_text(lang),
{
    match lang {
        Language::Italian => String::from_str("Caffeine è stato disattivato per aver rilevato la chiusura dello schermo"),
        Language::Spanish => String::from_str("Caffeine ha sido desactivado al detectar el cierre de la pantalla"),
        Language::French => String::from_str("Caffeine a été désactivé suite à la détection de la fermeture de l'écran"),
        Language::German => String::from_str("Caffeine wurde deaktiviert, da das Schließen des Bildschirms erkannt wurde"),
        Language::Portuguese => String::from_str("Caffeine foi desativado ao detectar o fechamento da tela"),
        Language::Russian => String::from_str("Caffeine был отключен из-за обнаружения закрытия экрана"),
        Language::Chinese => String::from_str("检测到屏幕关闭,咖啡因已被禁用"),
        Language::Japanese => String::from_str("画面の閉鎖を検出したため、カフェインが無効化されました"),
        Language::English => String::from_str("Caffeine has been disabled after detecting screen closure"),
    }
}

impl Locale {
    /// The table of texts for a tag.
    pub open spec fn table_for(tag: Seq<char>) -> Map<Seq<char>, Seq<char>> {
        translation_table(language_of(tag))
    }

    /// The table of texts for the language that the tag `lang` names.
    pub fn get_translations(lang: &str) -> (t: Translations)
        ensures
            t@ == translation_table(language_of(lang@)),
    {
        let language = language_from_tag(lang);
        Translations {
            app_name: String::from_str("CosmicCaffeineLand"),
            battery_low_notification: battery_low_string(language),
            lid_closed_notification: lid_closed_string(language),
        }
    }

    /// The text stored under `key`, or `key` itself when there is none.
    pub fn get(&self, key: &str) -> (s: String)
        ensures
            s@ == (if self.translations@.contains_key(key@) {
                self.translations@[key@]
            } else {
                key@
            }),
    {
        proof {
            lemma_keys_distinct();
        }
        let k = chars_of(key);
        if same_as(&k, "app-name") {
            self.translations.app_name.clone()
        } else if same_as(&k, "battery-low-notification") {
            self.translations.battery_low_notification.clone()
        } else if same_as(&k, "lid-closed-notification") {
            self.translations.lid_closed_notification.clone()
        } else {
            String::from_str(key)
        }
    }

    /// The texts for the locale tag `tag`, or for `en-US` when there is none.
    pub fn for_tag(tag: Option<String>) -> (l: Locale)
        ensures
            l.translations@ == translation_table(
                language_of(
                    match tag {
                        Some(t) => t@,
                        None => default_tag(),
                    },
                ),
            ),
    {
        match tag {
            Some(t) => Locale { translations: Locale::get_translations(t.as_str()) },
            None => Locale { translations: Locale::get_translations("en-US") },
        }
    }

    /// The texts for the user's locale, as the environment names it.
    pub fn new() -> (l: Locale)
        ensures
            exists|lang: Language| l.translations@ == translation_table(lang),
    {
        let tag = system_locale();
        let ghost tag_chars = match &tag {
            Some(t) => t@,
            None => default_tag(),
        };
        let l = Locale::for_tag(tag);
        assert(l.translations@ == translation_table(language_of(tag_chars)));
        l
    }
}

} // verus!
