//! Locale identifiers and their canonical names.
//!
//! A locale identifier crosses the OS boundary as its canonical name:
//! the name of the minimal locale, an absolute path to a locale
//! definition, or a locale string such as `en_US.UTF-8`. Checking the
//! syntax of a locale string is left to the OS, which rejects names it
//! cannot resolve.
use vstd::prelude::*;
use vstd::string::StrSliceExecFns;

verus! {

/// A locale identifier.
#[derive(PartialEq, Eq, Clone, Debug)]
pub enum Locale {
    /// The minimal ("POSIX", or "C") locale.
    Posix,
    /// A locale whose definition lies at an absolute path.
    Path(String),
    /// A locale named by a locale string, language_territory.codeset@modifier.
    Named(String),
}

/// The errors of a locale query.
#[derive(PartialEq, Eq, Structural, Clone, Copy, Debug)]
pub enum LocaleError {
    /// The operating system reported no name for the category.
    Unsupported,
}

/// What a [`Locale`] denotes: its kind and its text.
pub enum LocaleView {
    Posix,
    Path(Seq<char>),
    Named(Seq<char>),
}

impl View for Locale {
    type V = LocaleView;

    open spec fn view(&self) -> LocaleView {
        match self {
            Locale::Posix => LocaleView::Posix,
            Locale::Path(p) => LocaleView::Path(p@),
            Locale::Named(s) => LocaleView::Named(s@),
        }
    }
}

/// The canonical name of the minimal locale.
pub open spec fn posix_name() -> Seq<char> {
    "POSIX"@
}

/// The name under which the OS may also report the minimal locale.
pub open spec fn c_name() -> Seq<char> {
    "C"@
}

impl LocaleView {
    /// The canonical name handed to the OS.
    pub open spec fn name(self) -> Seq<char> {
        match self {
            LocaleView::Posix => posix_name(),
            LocaleView::Path(p) => p,
            LocaleView::Named(s) => s,
        }
    }

    /// A well-formed identifier is told apart from the others by its name
    /// alone: a path is absolute, and a locale string is non-empty, is not
    /// a path and is neither of the names of the minimal locale.
    pub open spec fn wf(self) -> bool {
        match self {
            LocaleView::Posix => true,
            LocaleView::Path(p) => p.len() > 0 && p[0] == '/',
            LocaleView::Named(s) => s.len() > 0 && s[0] != '/' && s != posix_name() && s
                != c_name(),
        }
    }
}

/// The identifier that a name reported by the OS denotes.
pub open spec fn parse_name(s: Seq<char>) -> LocaleView {
    if s == posix_name() || s == c_name() {
        LocaleView::Posix
    } else if s.len() > 0 && s[0] == '/' {
        LocaleView::Path(s)
    } else {
        LocaleView::Named(s)
    }
}

/// The outcome of a query whose OS result is `reported` (`None` for no
/// result at all).
pub open spec fn query_outcome(reported: Option<Seq<char>>) -> Result<LocaleView, LocaleError> {
    match reported {
        None => Err(LocaleError::Unsupported),
        Some(s) => if s.len() == 0 {
            Err(LocaleError::Unsupported)
        } else {
            Ok(parse_name(s))
        },
    }
}

/// The view of an optional OS result.
pub open spec fn reported_view(reported: Option<String>) -> Option<Seq<char>> {
    match reported {
        None => None,
        Some(s) => Some(s@),
    }
}

/// The view of a query's result.
pub open spec fn result_view(r: Result<Locale, LocaleError>) -> Result<LocaleView, LocaleError> {
    match r {
        Ok(l) => Ok(l@),
        Err(e) => Err(e),
    }
}

/// Parsing the canonical name of a well-formed identifier gives that
/// identifier back.
pub proof fn lemma_name_round_trip(l: LocaleView)
    requires
        l.wf(),
    ensures
        l.name().len() > 0,
        parse_name(l.name()) == l,
        query_outcome(Some(l.name())) == Ok::<LocaleView, LocaleError>(l),
{
    reveal_strlit("POSIX");
    reveal_strlit("C");
    match l {
        LocaleView::Path(p) => {
            assert(p != posix_name());
            assert(p != c_name());
        },
        _ => {},
    }
}

fn has_text(s: &String, text: &str) -> (r: bool)
    ensures
        r == (s@ == text@),
{
    let t: String = text.to_owned();
    *s == t
}

impl Locale {
    /// Whether this identifier is well formed (see [`LocaleView::wf`]).
    pub fn is_valid(&self) -> (r: bool)
        ensures
            r == self@.wf(),
    {
        proof {
            reveal_strlit("POSIX");
            reveal_strlit("C");
        }
        match self {
            Locale::Posix => true,
            Locale::Path(p) => p.as_str().unicode_len() > 0 && p.as_str().get_char(0) == '/',
            Locale::Named(s) => {
                s.as_str().unicode_len() > 0 && s.as_str().get_char(0) != '/' && !has_text(
                    s,
                    "POSIX",
                ) && !has_text(s, "C")
            },
        }
    }

    /// The canonical name of this identifier, as handed to the OS.
    pub fn to_name(&self) -> (r: String)
        ensures
            r@ == self@.name(),
    {
        match self {
            Locale::Posix => "POSIX".to_owned(),
            Locale::Path(p) => p.clone(),
            Locale::Named(s) => s.clone(),
        }
    }

    /// The identifier that a name reported by the OS denotes.
    pub fn from_name(s: String) -> (r: Locale)
        ensures
            r@ == parse_name(s@),
    {
        if has_text(&s, "POSIX") || has_text(&s, "C") {
            Locale::Posix
        } else if s.as_str().unicode_len() > 0 && s.as_str().get_char(0) == '/' {
            Locale::Path(s)
        } else {
            Locale::Named(s)
        }
    }
}

/// The result of querying a category's locale, given the name that the
/// OS reported for it (`None` where it reported none). No name, or an
/// empty one, is `Unsupported`.
pub fn locale_from_query(reported: Option<String>) -> (r: Result<Locale, LocaleError>)
    ensures
        result_view(r) == query_outcome(reported_view(reported)),
{
    match reported {
        None => Err(LocaleError::Unsupported),
        Some(s) => {
            if s.as_str().unicode_len() == 0 {
                Err(LocaleError::Unsupported)
            } else {
                Ok(Locale::from_name(s))
            }
        },
    }
}

} // verus!
