//! The localized label of the create-tournament control. Message
//! formatting is delegated to the fluent system; an unresolved key
//! degrades to a visible fallback, never failing the view.

use vstd::prelude::*;
use vstd::string::StringExecFns;

verus! {

/// What fluent's formatter yields for the message named `key`, looked
/// up in the FTL resource `source` under `locale`: `None` when the
/// source does not parse, the locale is malformed, or the key has no
/// message with a value; otherwise the formatted text. Formatting a
/// fixed resource with no arguments is deterministic: the result
/// depends on these three inputs alone.
pub uninterp spec fn translation_of(source: Seq<char>, locale: Seq<char>, key: Seq<char>) -> Option<
    Seq<char>,
>;

/// Relies on fluent_bundle: `FluentResource::try_new` parses `source`
/// as an FTL resource, `FluentBundle::new` + `add_resource` build a
/// bundle for `locale`, and `get_message` + `format_pattern` format the
/// message named `key` with no arguments. The formatted text is a
/// function of the three inputs alone. The contract covers only the
/// compiled-in triple: its one message is plain text, which formats
/// without failing, whereas fluent's resolver can panic while
/// formatting exotic select expressions, so no promise is made for
/// arbitrary sources.
#[verifier::external_body]
fn fluent_lookup(source: &str, locale: &str, key: &str) -> (r: Option<String>)
    requires
        source@ == label_source(),
        locale@ == label_locale(),
        key@ == label_key(),
    ensures
        (r is Some) == (translation_of(source@, locale@, key@) is Some),
        r matches Some(s) ==> translation_of(source@, locale@, key@) == Some(s@),
{
    let resource = fluent_bundle::FluentResource::try_new(source.to_string()).ok()?;
    let lang: unic_langid::LanguageIdentifier = locale.parse().ok()?;
    let mut bundle = fluent_bundle::FluentBundle::new(vec![lang]);
    bundle.add_resource(&resource).ok()?;
    let message = bundle.get_message(key)?;
    let pattern = message.value()?;
    let mut errors = Vec::new();
    Some(bundle.format_pattern(pattern, None, &mut errors).into_owned())
}

/// The FTL resource compiled into this bracket: the one message in
/// scope, the label of the create control, in French.
pub open spec fn label_source() -> Seq<char> {
    "create-tournament = Cr\u{e9}er un tournoi"@
}

/// The locale the label is formatted under.
pub open spec fn label_locale() -> Seq<char> {
    "fr-FR"@
}

/// The message key of the create control's label.
pub open spec fn label_key() -> Seq<char> {
    "create-tournament"@
}

/// The text on the create control: the localized label, or, when
/// localization fails, the raw key as a visible fallback.
pub open spec fn spec_create_tournament() -> Seq<char> {
    match translation_of(label_source(), label_locale(), label_key()) {
        Some(text) => text,
        None => label_key(),
    }
}

/// The localized label of the create control; falls back to the raw
/// key rather than failing the view.
pub fn create_tournament() -> (r: String)
    ensures
        r@ == spec_create_tournament(),
{
    match fluent_lookup(
        "create-tournament = Cr\u{e9}er un tournoi",
        "fr-FR",
        "create-tournament",
    ) {
        Some(text) => text,
        None => String::from_str("create-tournament"),
    }
}

} // verus!
