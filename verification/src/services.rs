//! The outside collaborators of the logger, behind trusted declarations:
//! the timezone database (`chrono-tz`), the wall clock (`chrono`), the
//! translation table (`rust-i18n`), terminal coloring (`colored`), and the
//! standard-output sink. Verus believes the contracts stated here; the
//! bodies only make the named calls.

use vstd::prelude::*;
use crate::timestamp::DateParts;
use chrono::Datelike;
use chrono::Timelike;
use colored::Colorize;
use rust_i18n::Backend;
use std::borrow::Cow;
use std::collections::HashMap;
use std::io::Write;
use std::str::FromStr;

verus! {

#[verifier::external_type_specification]
#[verifier::external_body]
pub struct ExTz(chrono_tz::Tz);

#[verifier::external_type_specification]
#[verifier::external_body]
pub struct ExSimpleBackend(rust_i18n::SimpleBackend);

/// Whether the timezone database knows `name`: the set of accepted names is
/// compiled into `chrono-tz` and is a function of the name alone.
pub uninterp spec fn is_valid_tz_name(name: Seq<char>) -> bool;

/// The canonical name of a timezone value: `chrono-tz` renders each zone of
/// its compiled-in table by a fixed per-variant string, a function of the
/// value alone.
pub uninterp spec fn tz_name_of(tz: chrono_tz::Tz) -> Seq<char>;

/// The translations a table holds, as a map from (locale, key) to the
/// localized string.
pub uninterp spec fn backend_map(backend: rust_i18n::SimpleBackend) -> Map<
    (Seq<char>, Seq<char>),
    Seq<char>,
>;

/// A translation table with no entries.
pub open spec fn empty_translations() -> Map<(Seq<char>, Seq<char>), Seq<char>> {
    Map::empty()
}

/// `s` holds no ASCII escape character, so terminal coloring passes it
/// through verbatim between its control sequences.
pub open spec fn esc_free(s: Seq<char>) -> bool {
    forall|i: int| 0 <= i < s.len() ==> s[i] != '\u{1b}'
}

/// Relies on `chrono_tz::Tz::from_str`: a lookup of the name in the
/// compiled-in timezone table, succeeding exactly on the names it holds.
#[verifier::external_body]
pub(crate) fn resolve_tz(name: &str) -> (r: Option<chrono_tz::Tz>)
    ensures
        r is Some <==> is_valid_tz_name(name@),
{
    chrono_tz::Tz::from_str(name).ok()
}

/// Relies on `chrono_tz::Tz::name`: the canonical name of a timezone value,
/// a pure per-variant string.
#[verifier::external_body]
pub(crate) fn tz_canonical_name(tz: &chrono_tz::Tz) -> (r: String)
    ensures
        r@ == tz_name_of(*tz),
{
    tz.name().to_owned()
}

/// Relies on `chrono::Local::now` and the `Datelike`/`Timelike` accessors,
/// which document the field ranges stated here. The value is the clock's,
/// so nothing more can be promised of it.
#[verifier::external_body]
pub(crate) fn now_local_parts() -> (r: DateParts)
    ensures
        r.wf(),
{
    let now = chrono::Local::now();
    DateParts {
        year: now.year(),
        month: now.month(),
        day: now.day(),
        hour: now.hour(),
        minute: now.minute(),
        second: now.second(),
    }
}

/// Relies on `chrono::DateTime::with_timezone` converting the current
/// instant into `tz`, and on the `Datelike`/`Timelike` accessor ranges.
/// The value is the clock's, so nothing more can be promised of it.
#[verifier::external_body]
pub(crate) fn now_parts_in(tz: &chrono_tz::Tz) -> (r: DateParts)
    ensures
        r.wf(),
{
    let now = chrono::Local::now().with_timezone(tz);
    DateParts {
        year: now.year(),
        month: now.month(),
        day: now.day(),
        hour: now.hour(),
        minute: now.minute(),
        second: now.second(),
    }
}

/// Relies on `rust_i18n::SimpleBackend::new`: a table with no translations.
#[verifier::external_body]
pub(crate) fn backend_new() -> (r: rust_i18n::SimpleBackend)
    ensures
        backend_map(r) == empty_translations(),
{
    rust_i18n::SimpleBackend::new()
}

/// Relies on `rust_i18n::SimpleBackend::add_translations`: entries of other
/// locales and other keys of this locale are kept, the given key is bound to
/// `value`, overwriting any earlier binding.
#[verifier::external_body]
pub(crate) fn backend_add(
    backend: &mut rust_i18n::SimpleBackend,
    locale: &str,
    key: &str,
    value: &str,
)
    ensures
        backend_map(*final(backend)) == backend_map(*old(backend)).insert(
            (locale@, key@),
            value@,
        ),
{
    let mut data: HashMap<Cow<'static, str>, Cow<'static, str>> = HashMap::new();
    data.insert(Cow::Owned(key.to_owned()), Cow::Owned(value.to_owned()));
    backend.add_translations(Cow::Owned(locale.to_owned()), data);
}

/// Relies on `rust_i18n::Backend::translate` for `SimpleBackend`: the
/// localized string bound to (locale, key), or `None` when the table holds
/// no such binding.
#[verifier::external_body]
pub(crate) fn backend_translate(
    backend: &rust_i18n::SimpleBackend,
    locale: &str,
    key: &str,
) -> (r: Option<String>)
    ensures
        r is Some <==> backend_map(*backend).contains_key((locale@, key@)),
        r is Some ==> r->0@ == backend_map(*backend)[(locale@, key@)],
{
    backend.translate(locale, key).map(|c| c.into_owned())
}

/// Relies on `rust_i18n::set_locale`: switches the process-wide locale that
/// other users of the translation crate observe.
#[verifier::external_body]
pub(crate) fn set_global_locale(locale: &str) {
    rust_i18n::set_locale(locale);
}

/// Relies on `colored::Colorize::truecolor` and the `Display` of its
/// result: when coloring is off the text is written verbatim, else it is
/// wrapped in control sequences; an escape-free text is kept whole either
/// way.
#[verifier::external_body]
pub(crate) fn paint(text: &str, red: u8, green: u8, blue: u8) -> (r: String)
    ensures
        esc_free(text@) ==> exists|p: Seq<char>, s: Seq<char>| r@ == p + text@ + s,
{
    text.truecolor(red, green, blue).to_string()
}

/// Relies on `std::io::Stdout`: one `writeln!` locks standard output for
/// the whole call, so the line and its terminator are written as one piece.
#[verifier::external_body]
pub(crate) fn emit_line(line: &str) {
    let _ = writeln!(std::io::stdout(), "{}", line);
}

} // verus!
