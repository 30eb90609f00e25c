//! The logger: its configuration, the filtering and fallback rules, and the
//! rendering of one log line per accepted event.

use vstd::prelude::*;
use vstd::string::StringExecFns;
use crate::level::{LogLevel, severity, spec_emits, spec_level_key};
use crate::services::{
    backend_add, backend_map, backend_new, backend_translate, emit_line, empty_translations,
    esc_free, is_valid_tz_name, now_local_parts, now_parts_in, paint, resolve_tz,
    set_global_locale, tz_canonical_name, tz_name_of,
};
use crate::timestamp::{DateParts, spec_timestamp};

verus! {

/// Error raised by configuration: the given timezone name is unknown to the
/// timezone database. Raised only while configuring, never by logging.
#[derive(Clone, Copy, PartialEq, Eq, Structural, Debug)]
pub enum LogError {
    InvalidTimezone,
}

/// A resolved timezone: its name, which the rendering logic reads, and the
/// database value that the clock conversion needs.
struct TzChoice {
    name: String,
    tz: chrono_tz::Tz,
}

/// A leveled, localized console logger.
///
/// It owns its configuration — minimum level, active language, optional
/// timezone — and a translation table filled through [`Logger::add_translation`].
pub struct Logger {
    min_level: LogLevel,
    language: String,
    timezone: Option<TzChoice>,
    translations: rust_i18n::SimpleBackend,
}

/// Mathematical image of a logger: everything the rendering logic reads.
pub ghost struct LoggerView {
    pub min_level: LogLevel,
    pub language: Seq<char>,
    pub timezone: Option<Seq<char>>,
    pub translations: Map<(Seq<char>, Seq<char>), Seq<char>>,
}

impl View for Logger {
    type V = LoggerView;

    closed spec fn view(&self) -> LoggerView {
        LoggerView {
            min_level: self.min_level,
            language: self.language@,
            timezone: match self.timezone {
                Some(choice) => Some(choice.name@),
                None => None,
            },
            translations: backend_map(self.translations),
        }
    }
}

/// The timezone name shown inside the fallback diagnostic: the configured
/// name, or the literal `unknown` when no timezone is set.
pub open spec fn spec_tz_display(tz: Option<Seq<char>>) -> Seq<char> {
    match tz {
        Some(name) => name,
        None => "unknown"@,
    }
}

/// The diagnostic emitted in place of a message whose key has no
/// translation: a fixed template naming the configured language, the
/// configured timezone (or `unknown`), and the original key.
pub open spec fn spec_fallback(language: Seq<char>, tz: Option<Seq<char>>, key: Seq<char>) -> Seq<
    char,
> {
    "Translate Failed! | Lang "@ + language + " | Tz "@ + spec_tz_display(tz) + " | Value "@ + key
}

/// The message body of an event: the localized string bound to the active
/// language and the key, else the fallback diagnostic. A binding counts as
/// found even when its text happens to equal the key, so such a
/// translation is never mistaken for a missing one.
pub open spec fn spec_message(v: LoggerView, key: Seq<char>) -> Seq<char> {
    if v.translations.contains_key((v.language, key)) {
        v.translations[(v.language, key)]
    } else {
        spec_fallback(v.language, v.timezone, key)
    }
}

/// The display tag of a level: the localized name of the level, or the bare
/// level key when the table has no entry for it.
pub open spec fn spec_tag(v: LoggerView, level: LogLevel) -> Seq<char> {
    if v.translations.contains_key((v.language, spec_level_key(level))) {
        v.translations[(v.language, spec_level_key(level))]
    } else {
        spec_level_key(level)
    }
}

/// The configuration a successful `configure` call leaves behind: all three
/// fields replaced by the arguments, the translation table kept.
pub open spec fn spec_configured(
    translations: Map<(Seq<char>, Seq<char>), Seq<char>>,
    min_level: LogLevel,
    language: Seq<char>,
    timezone_name: Seq<char>,
) -> LoggerView {
    LoggerView { min_level, language, timezone: Some(timezone_name), translations }
}

/// The plain (uncolored) pieces of the line rendered for an event, as a
/// function of the configuration: `None` when the event is suppressed, else
/// its timestamp, level tag, and message body.
pub open spec fn spec_line_parts(
    v: LoggerView,
    level: LogLevel,
    key: Seq<char>,
    now: DateParts,
) -> Option<(Seq<char>, Seq<char>, Seq<char>)> {
    if spec_emits(v.min_level, level) {
        Some((spec_timestamp(now), spec_tag(v, level), spec_message(v, key)))
    } else {
        None
    }
}

/// `line` reads `<ts> [<tag>] <msg>`, with some decoration — the terminal
/// color wrapping, possibly empty — around the tag and around the message.
pub open spec fn decorated(line: Seq<char>, ts: Seq<char>, tag: Seq<char>, msg: Seq<char>) -> bool {
    exists|p1: Seq<char>, s1: Seq<char>, p2: Seq<char>, s2: Seq<char>|
        line == ts + " ["@ + p1 + tag + s1 + "] "@ + p2 + msg + s2
}

impl Logger {
    /// A logger with the default configuration: everything permitted
    /// (minimum level `Debug`), language `en`, no timezone, an empty
    /// translation table.
    pub fn new() -> (r: Logger)
        ensures
            r@.min_level == LogLevel::Debug,
            r@.language == "en"@,
            r@.timezone is None,
            r@.translations == empty_translations(),
    {
        Logger {
            min_level: LogLevel::Debug,
            language: String::from_str("en"),
            timezone: None,
            translations: backend_new(),
        }
    }

    /// Replaces the minimum severity; events strictly below it are
    /// suppressed from then on.
    pub fn set_min_level(&mut self, level: LogLevel)
        ensures
            final(self)@ == (LoggerView { min_level: level, ..old(self)@ }),
    {
        self.min_level = level;
    }

    /// Replaces the active language, and switches the process-wide locale
    /// of the translation crate along with it.
    pub fn set_language(&mut self, lang: &str)
        ensures
            final(self)@ == (LoggerView { language: lang@, ..old(self)@ }),
    {
        set_global_locale(lang);
        self.language = lang.to_owned();
    }

    /// Replaces the timezone by an already-resolved database value; its
    /// canonical name is what later fallback diagnostics show.
    pub fn set_timezone(&mut self, tz: chrono_tz::Tz)
        ensures
            final(self)@ == (LoggerView { timezone: Some(tz_name_of(tz)), ..old(self)@ }),
    {
        let name = tz_canonical_name(&tz);
        self.timezone = Some(TzChoice { name, tz });
    }

    /// Atomically replaces the whole configuration. Fails with
    /// `InvalidTimezone`, leaving every field as it was, exactly when the
    /// timezone database does not know `timezone_name`.
    pub fn configure(&mut self, min_level: LogLevel, language: &str, timezone_name: &str) -> (r:
        Result<(), LogError>)
        ensures
            r is Ok <==> is_valid_tz_name(timezone_name@),
            r is Ok ==> final(self)@ == spec_configured(
                old(self)@.translations,
                min_level,
                language@,
                timezone_name@,
            ),
            r is Err ==> *final(self) == *old(self) && r->Err_0 == LogError::InvalidTimezone,
    {
        match resolve_tz(timezone_name) {
            None => Err(LogError::InvalidTimezone),
            Some(tz) => {
                set_global_locale(language);
                self.min_level = min_level;
                self.language = language.to_owned();
                self.timezone = Some(TzChoice { name: timezone_name.to_owned(), tz });
                Ok(())
            },
        }
    }

    /// Binds `value` to (`locale`, `key`) in the translation table,
    /// overwriting an earlier binding of the same pair and keeping every
    /// other entry.
    pub fn add_translation(&mut self, locale: &str, key: &str, value: &str)
        ensures
            final(self)@ == (LoggerView {
                translations: old(self)@.translations.insert((locale@, key@), value@),
                ..old(self)@
            }),
    {
        backend_add(&mut self.translations, locale, key, value);
    }

    /// The message body for `key`: its translation in the active language,
    /// or the fallback diagnostic when the table has none.
    pub fn message_for(&self, key: &str) -> (r: String)
        ensures
            r@ == spec_message(self@, key@),
    {
        match backend_translate(&self.translations, self.language.as_str(), key) {
            Some(found) => found,
            None => {
                let mut r = String::from_str("Translate Failed! | Lang ");
                r.append(self.language.as_str());
                r.append(" | Tz ");
                match &self.timezone {
                    Some(choice) => r.append(choice.name.as_str()),
                    None => r.append("unknown"),
                }
                r.append(" | Value ");
                r.append(key);
                assert(r@ =~= spec_message(self@, key@));
                r
            },
        }
    }

    /// The display tag for `level`: its localized name, or the bare level
    /// key when untranslated.
    pub fn tag_for(&self, level: LogLevel) -> (r: String)
        ensures
            r@ == spec_tag(self@, level),
    {
        match backend_translate(&self.translations, self.language.as_str(), level.key()) {
            Some(found) => found,
            None => String::from_str(level.key()),
        }
    }

    /// The plain pieces of the line for an event stamped `now`: `None`
    /// exactly when `level` is strictly below the minimum, else the
    /// timestamp, tag and message. The boundary is inclusive: an event at
    /// the minimum level itself is rendered.
    pub fn render_parts(&self, level: LogLevel, key: &str, now: DateParts) -> (r: Option<
        (String, String, String),
    >)
        requires
            key@.len() > 0,
        ensures
            r is Some <==> spec_emits(self@.min_level, level),
            r is Some ==> spec_line_parts(self@, level, key@, now) == Some(
                (r->Some_0.0@, r->Some_0.1@, r->Some_0.2@),
            ),
    {
        if level.passes(self.min_level) {
            Some((now.render(), self.tag_for(level), self.message_for(key)))
        } else {
            None
        }
    }

    /// One full, colorized log line for an event stamped `now`, or `None`
    /// exactly when the event is suppressed. The line reads
    /// `<timestamp> [<tag>] <message>`; tag and message each carry the
    /// level's color decoration, which wraps them without altering them as
    /// long as they hold no escape character.
    pub fn render_line(&self, level: LogLevel, key: &str, now: DateParts) -> (r: Option<String>)
        requires
            key@.len() > 0,
        ensures
            r is Some <==> spec_emits(self@.min_level, level),
            r is Some ==> exists|tag_part: Seq<char>, message_part: Seq<char>|
                r->Some_0@ == spec_timestamp(now) + " ["@ + tag_part + "] "@ + message_part,
            r is Some && esc_free(spec_tag(self@, level)) && esc_free(spec_message(self@, key@))
                ==> decorated(
                r->0@,
                spec_timestamp(now),
                spec_tag(self@, level),
                spec_message(self@, key@),
            ),
    {
        match self.render_parts(level, key, now) {
            None => None,
            Some((time, tag, message)) => {
                let tag_rgb = level.tag_color();
                let message_rgb = level.message_color();
                let painted_tag = paint(tag.as_str(), tag_rgb.0, tag_rgb.1, tag_rgb.2);
                let painted_message = paint(
                    message.as_str(),
                    message_rgb.0,
                    message_rgb.1,
                    message_rgb.2,
                );
                let mut line = time;
                line.append(" [");
                line.append(painted_tag.as_str());
                line.append("] ");
                line.append(painted_message.as_str());
                proof {
                    let tag_spec = spec_tag(self@, level);
                    let message_spec = spec_message(self@, key@);
                    assert(line@ =~= spec_timestamp(now) + " ["@ + painted_tag@ + "] "@
                        + painted_message@);
                    if esc_free(tag_spec) && esc_free(message_spec) {
                        let (p1, s1): (Seq<char>, Seq<char>) = choose|p1: Seq<char>, s1: Seq<char>|
                            painted_tag@ == p1 + tag_spec + s1;
                        let (p2, s2): (Seq<char>, Seq<char>) = choose|p2: Seq<char>, s2: Seq<char>|
                            painted_message@ == p2 + message_spec + s2;
                        assert(line@ =~= spec_timestamp(now) + " ["@ + p1 + tag_spec + s1 + "] "@
                            + p2 + message_spec + s2);
                    }
                }
                Some(line)
            },
        }
    }

    /// Renders one line for the event and writes it, with a line
    /// terminator, to standard output. A call strictly below the minimum
    /// level returns at once, before the clock is even read. The line's
    /// text is fixed by [`Logger::render_line`]; this function only reads
    /// the clock, in the configured timezone or the host's local one, and
    /// performs the write, so it promises nothing of its own.
    pub fn log(&self, level: LogLevel, key: &str)
        requires
            key@.len() > 0,
    {
        if !level.passes(self.min_level) {
            return ;
        }
        let now = match &self.timezone {
            Some(choice) => now_parts_in(&choice.tz),
            None => now_local_parts(),
        };
        if let Some(line) = self.render_line(level, key, now) {
            emit_line(line.as_str());
        }
    }

    /// Logs an event at `Error` level.
    pub fn log_error(&self, key: &str)
        requires
            key@.len() > 0,
    {
        self.log(LogLevel::Error, key);
    }

    /// Logs an event at `Warning` level.
    pub fn log_warning(&self, key: &str)
        requires
            key@.len() > 0,
    {
        self.log(LogLevel::Warning, key);
    }

    /// Logs an event at `Info` level.
    pub fn log_info(&self, key: &str)
        requires
            key@.len() > 0,
    {
        self.log(LogLevel::Info, key);
    }

    /// Logs an event at `Debug` level.
    pub fn log_debug(&self, key: &str)
        requires
            key@.len() > 0,
    {
        self.log(LogLevel::Debug, key);
    }
}

/// Filtering is inclusive at the boundary: under any configuration, an
/// event strictly below the minimum level in the severity order renders no
/// line, while an event at the minimum level itself renders one.
pub proof fn lemma_filter_boundary(v: LoggerView, below: LogLevel, key: Seq<char>, now: DateParts)
    requires
        severity(below) < severity(v.min_level),
    ensures
        spec_line_parts(v, below, key, now) is None,
        spec_line_parts(v, v.min_level, key, now) is Some,
{
}

/// Fallback correctness: when the table binds nothing to the active
/// language and the key, the message body is exactly the fixed diagnostic
/// template, naming the configured language, the configured timezone name
/// (or `unknown`), and the original key.
pub proof fn lemma_fallback_exact(v: LoggerView, key: Seq<char>)
    requires
        !v.translations.contains_key((v.language, key)),
    ensures
        spec_message(v, key) == spec_fallback(v.language, v.timezone, key),
{
}

/// Idempotence of configuration: two successful `configure` calls with
/// identical arguments leave identical configurations, whatever each
/// logger's earlier minimum level, language or timezone was — and hence,
/// by the exact rendering contracts, identical subsequent log lines for
/// identical clock readings, as long as both translation tables agree.
pub proof fn lemma_configure_idempotent(
    before1: LoggerView,
    before2: LoggerView,
    min_level: LogLevel,
    language: Seq<char>,
    timezone_name: Seq<char>,
    level: LogLevel,
    key: Seq<char>,
    now: DateParts,
)
    requires
        before1.translations == before2.translations,
    ensures
        spec_configured(before1.translations, min_level, language, timezone_name)
            == spec_configured(before2.translations, min_level, language, timezone_name),
        spec_line_parts(
            spec_configured(before1.translations, min_level, language, timezone_name),
            level,
            key,
            now,
        ) == spec_line_parts(
            spec_configured(before2.translations, min_level, language, timezone_name),
            level,
            key,
            now,
        ),
{
}

} // verus!
