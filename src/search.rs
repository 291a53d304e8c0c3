//! Search matching: plain case-insensitive text or a case-insensitive pattern.
use vstd::prelude::*;
use crate::config::SearchMode;
use crate::text::{contains_seq, lower_of, lowercase, push_char, str_contains, chars_of, concat_str};
use crate::types::{DeviceInfo, display_name_of, address_text};
use vstd::string::StringExecFns;

verus! {

/// What `regex::Regex::new` reports for a pattern: `None` when it compiles,
/// else the text of its error.
pub uninterp spec fn regex_error(pattern: Seq<char>) -> Option<Seq<char>>;

/// What `regex::Regex::is_match` answers for a pattern that compiles and a text.
pub uninterp spec fn regex_matches(pattern: Seq<char>, text: Seq<char>) -> bool;

/// Relies on `regex::Regex::new`: whether the pattern compiles, and the
/// displayed text of the error when it does not.
#[verifier::external_body]
fn regex_check(pattern: &str) -> (r: Option<String>)
    ensures
        r is None <==> regex_error(pattern@) is None,
        r matches Some(e) ==> regex_error(pattern@) == Some(e@),
{
    match regex::Regex::new(pattern) {
        Ok(_) => None,
        Err(e) => Some(e.to_string()),
    }
}

/// Relies on `regex::Regex::is_match`, on the pattern compiled by `regex::Regex::new`.
#[verifier::external_body]
fn regex_is_match(pattern: &str, text: &str) -> (r: bool)
    requires
        regex_error(pattern@) is None,
    ensures
        r == regex_matches(pattern@, text@),
{
    match regex::Regex::new(pattern) {
        Ok(re) => re.is_match(text),
        Err(_) => false,
    }
}

/// The query is read as a pattern: a regex-mode query, or a smart-mode query
/// that starts with `/`.
pub open spec fn wants_pattern(q: Seq<char>, mode: SearchMode) -> bool {
    q.len() > 0 && (mode == SearchMode::Regex || (mode == SearchMode::Smart && q[0] == '/'))
}

/// The pattern text: in smart mode the leading `/` is dropped.
pub open spec fn pattern_body(q: Seq<char>, mode: SearchMode) -> Seq<char> {
    if mode == SearchMode::Smart {
        q.drop_first()
    } else {
        q
    }
}

/// A pattern is in force: the query asks for one and its body is not empty.
pub open spec fn pattern_active(q: Seq<char>, mode: SearchMode) -> bool {
    wants_pattern(q, mode) && pattern_body(q, mode).len() > 0
}

/// The pattern handed to the regex engine, made case-insensitive.
pub open spec fn full_pattern(q: Seq<char>, mode: SearchMode) -> Seq<char> {
    seq!['(', '?', 'i', ')'] + pattern_body(q, mode)
}

/// Whether a device matches the query: everything matches an empty query; a
/// pattern matches the display name or the address text, and a pattern that
/// does not compile matches nothing; plain text is a case-insensitive
/// substring of the display name or the address text.
pub open spec fn device_matches(d: DeviceInfo, q: Seq<char>, mode: SearchMode) -> bool {
    if q.len() == 0 {
        true
    } else if pattern_active(q, mode) {
        let p = full_pattern(q, mode);
        regex_error(p) is None && (regex_matches(p, display_name_of(d)) || regex_matches(
            p,
            address_text(d.address.value()),
        ))
    } else {
        contains_seq(lower_of(display_name_of(d)), lower_of(q)) || contains_seq(
            lower_of(address_text(d.address.value())),
            lower_of(q),
        )
    }
}

/// Whether a device is in the filtered view.
pub open spec fn device_visible(d: DeviceInfo, hide_unnamed: bool, q: Seq<char>, mode: SearchMode) -> bool {
    !(hide_unnamed && d.name is None) && device_matches(d, q, mode)
}

/// The inline error shown for the query: empty unless a pattern is in force
/// and fails to compile.
pub open spec fn search_error_of(q: Seq<char>, mode: SearchMode) -> Seq<char> {
    if pattern_active(q, mode) {
        match regex_error(full_pattern(q, mode)) {
            Some(e) => seq!['r', 'e', 'g', 'e', 'x', ':', ' '] + e,
            None => Seq::empty(),
        }
    } else {
        Seq::empty()
    }
}

/// A query prepared once for matching many devices.
pub enum Matcher {
    Everything,
    /// The lower-cased query.
    Text(String),
    /// A pattern that compiles.
    Pattern(String),
    /// A pattern that does not compile.
    Broken,
}

/// What a prepared query accepts.
pub open spec fn matcher_accepts(m: Matcher, d: DeviceInfo) -> bool {
    match m {
        Matcher::Everything => true,
        Matcher::Text(q) => contains_seq(lower_of(display_name_of(d)), q@) || contains_seq(
            lower_of(address_text(d.address.value())),
            q@,
        ),
        Matcher::Pattern(p) => regex_matches(p@, display_name_of(d)) || regex_matches(
            p@,
            address_text(d.address.value()),
        ),
        Matcher::Broken => false,
    }
}

fn build_pattern(q: &str, mode: SearchMode) -> (r: Option<String>)
    ensures
        r is Some <==> pattern_active(q@, mode),
        r matches Some(p) ==> p@ == full_pattern(q@, mode),
{
    let cs = chars_of(q);
    if cs.len() == 0 {
        return None;
    }
    let wants = match mode {
        SearchMode::Regex => true,
        SearchMode::Smart => cs[0] == '/',
        SearchMode::Plain => false,
    };
    if !wants {
        return None;
    }
    let start: usize = if mode == SearchMode::Smart { 1 } else { 0 };
    if cs.len() <= start {
        return None;
    }
    let mut p = String::new();
    push_char(&mut p, '(');
    push_char(&mut p, '?');
    push_char(&mut p, 'i');
    push_char(&mut p, ')');
    let mut i: usize = start;
    while i < cs.len()
        invariant
            start <= i <= cs@.len(),
            p@ == seq!['(', '?', 'i', ')'] + cs@.subrange(start as int, i as int),
        decreases cs@.len() - i,
    {
        push_char(&mut p, cs[i]);
        proof {
            assert(cs@.subrange(start as int, i + 1) =~= cs@.subrange(start as int, i as int).push(cs@[i as int]));
        }
        i += 1;
    }
    proof {
        if mode == SearchMode::Smart {
            assert(cs@.subrange(1, cs@.len() as int) =~= q@.drop_first());
        } else {
            assert(cs@.subrange(0, cs@.len() as int) =~= q@);
        }
    }
    assert(p@ =~= full_pattern(q@, mode));
    Some(p)
}

/// The inline error text for a query.
pub fn search_error(q: &str, mode: SearchMode) -> (r: String)
    ensures
        r@ == search_error_of(q@, mode),
{
    match build_pattern(q, mode) {
        Some(p) => match regex_check(p.as_str()) {
            Some(e) => {
                let r = concat_str("regex: ", e.as_str());
                proof {
                    reveal_strlit("regex: ");
                }
                assert(r@ =~= seq!['r', 'e', 'g', 'e', 'x', ':', ' '] + e@);
                r
            },
            None => String::new(),
        },
        None => String::new(),
    }
}

impl Matcher {
    pub open spec fn wf(self) -> bool {
        self matches Matcher::Pattern(p) ==> regex_error(p@) is None
    }

    /// Prepares a query.
    pub fn new(q: &str, mode: SearchMode) -> (r: Matcher)
        ensures
            r.wf(),
            forall|d: DeviceInfo| matcher_accepts(r, d) == #[trigger] device_matches(d, q@, mode),
    {
        let cs = chars_of(q);
        if cs.len() == 0 {
            return Matcher::Everything;
        }
        match build_pattern(q, mode) {
            Some(p) => {
                if regex_check(p.as_str()).is_none() {
                    Matcher::Pattern(p)
                } else {
                    Matcher::Broken
                }
            },
            None => Matcher::Text(lowercase(q)),
        }
    }

    /// Whether the device matches the prepared query.
    pub fn accepts(&self, d: &DeviceInfo) -> (r: bool)
        requires
            self.wf(),
        ensures
            r == matcher_accepts(*self, *d),
    {
        match self {
            Matcher::Everything => true,
            Matcher::Text(q) => {
                let name = lowercase(d.display_name());
                if str_contains(name.as_str(), q.as_str()) {
                    true
                } else {
                    let addr = lowercase(d.address.to_string().as_str());
                    str_contains(addr.as_str(), q.as_str())
                }
            },
            Matcher::Pattern(p) => {
                if regex_is_match(p.as_str(), d.display_name()) {
                    true
                } else {
                    regex_is_match(p.as_str(), d.address.to_string().as_str())
                }
            },
            Matcher::Broken => false,
        }
    }
}

} // verus!
