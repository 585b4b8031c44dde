//! Distinguished-name utilities for working with directory entries.
//!
//! A distinguished name is a comma-separated list of relative distinguished
//! names; each relative distinguished name is a `+`-joined group of
//! `attribute=value` pairs.  A backslash escapes the following character.
//! Parsing is strict — empty components, missing attributes or values, and
//! unterminated escapes are rejected — and the parsed name is kept in a
//! canonical string form with the value characters re-escaped.

use vstd::prelude::*;

use crate::error::Error;
use crate::text::eq_ignore_ascii_case;
use crate::text::lower_chars;

verus! {

/// The whitespace characters trimmed around components.
pub open spec fn is_ws(c: char) -> bool {
    c == ' ' || c == '\t' || c == '\n' || c == '\r'
}

/// The sequence without its leading whitespace.
pub open spec fn trim_front(s: Seq<char>) -> Seq<char>
    decreases s.len(),
{
    if s.len() > 0 && is_ws(s[0]) {
        trim_front(s.drop_first())
    } else {
        s
    }
}

/// The sequence without its trailing whitespace.
pub open spec fn trim_back(s: Seq<char>) -> Seq<char>
    decreases s.len(),
{
    if s.len() > 0 && is_ws(s.last()) {
        trim_back(s.drop_last())
    } else {
        s
    }
}

/// The sequence without leading or trailing whitespace.
pub open spec fn trim_chars(s: Seq<char>) -> Seq<char> {
    trim_back(trim_front(s))
}

/// Whether the character is trimmed whitespace.
fn is_ws_exec(c: char) -> (r: bool)
    ensures
        r == is_ws(c),
{
    c == ' ' || c == '\t' || c == '\n' || c == '\r'
}

/// The string without leading or trailing whitespace.
pub fn trim_str(s: &str) -> (r: String)
    ensures
        r@ == trim_chars(s@),
{
    let n = s.unicode_len();
    let mut start: usize = 0;
    proof {
        assert(s@.skip(0) =~= s@);
    }
    while start < n && is_ws_exec(s.get_char(start))
        invariant
            n == s@.len(),
            start <= n,
            trim_front(s@) == trim_front(s@.skip(start as int)),
        decreases n - start,
    {
        proof {
            assert(s@.skip(start as int)[0] == s@[start as int]);
            assert(s@.skip(start as int).drop_first() =~= s@.skip(start + 1));
        }
        start = start + 1;
    }
    proof {
        if start < n {
            assert(s@.skip(start as int)[0] == s@[start as int]);
        }
        assert(trim_front(s@) == s@.skip(start as int));
    }
    let mut end: usize = n;
    while end > start && is_ws_exec(s.get_char(end - 1))
        invariant
            n == s@.len(),
            start <= end <= n,
            trim_front(s@) == s@.skip(start as int),
            trim_back(s@.skip(start as int)) == trim_back(s@.subrange(start as int, end as int)),
        decreases end,
    {
        proof {
            let cur = s@.subrange(start as int, end as int);
            assert(cur.last() == s@[end - 1]);
            assert(cur.drop_last() =~= s@.subrange(start as int, end - 1));
        }
        end = end - 1;
    }
    proof {
        let cur = s@.subrange(start as int, end as int);
        if end > start {
            assert(cur.last() == s@[end - 1]);
        }
        assert(trim_back(cur) == cur);
        assert(s@.skip(start as int) =~= s@.subrange(start as int, n as int));
    }
    let out = s.substring_char(start, end);
    out.to_owned()
}

/// The string with every backslash removed and the character after each
/// kept literally; `None` when the string ends in a lone backslash.
pub open spec fn unescape_chars(s: Seq<char>) -> Option<Seq<char>>
    decreases s.len(),
{
    if s.len() == 0 {
        Some(Seq::empty())
    } else if s[0] == '\\' {
        if s.len() == 1 {
            None
        } else {
            match unescape_chars(s.skip(2)) {
                Some(rest) => Some(seq![s[1]] + rest),
                None => None,
            }
        }
    } else {
        match unescape_chars(s.drop_first()) {
            Some(rest) => Some(seq![s[0]] + rest),
            None => None,
        }
    }
}

/// Whether a value character needs escaping in the canonical form: the
/// special characters always, a space or `#` at the start, a space at the
/// end.
pub open spec fn needs_esc(c: char, first: bool, last: bool) -> bool {
    c == ',' || c == '+' || c == '"' || c == '\\' || c == '<' || c == '>' || c == ';' || c == '='
        || (first && (c == ' ' || c == '#')) || (last && c == ' ')
}

/// The canonical escaped rendering of a value, from position `i` on.
pub open spec fn esc_from(s: Seq<char>, i: int) -> Seq<char>
    decreases s.len() - i,
{
    if i < 0 || i >= s.len() {
        Seq::empty()
    } else {
        (if needs_esc(s[i], i == 0, i == s.len() - 1) {
            seq!['\\', s[i]]
        } else {
            seq![s[i]]
        }) + esc_from(s, i + 1)
    }
}

/// The canonical escaped rendering of a value.
pub open spec fn escape_chars(s: Seq<char>) -> Seq<char> {
    esc_from(s, 0)
}

/// Whether the character needs escaping at this position.
fn needs_esc_exec(c: char, first: bool, last: bool) -> (r: bool)
    ensures
        r == needs_esc(c, first, last),
{
    c == ',' || c == '+' || c == '"' || c == '\\' || c == '<' || c == '>' || c == ';' || c == '='
        || (first && (c == ' ' || c == '#')) || (last && c == ' ')
}

/// Render a value in its canonical escaped form.
pub fn escape_value(s: &str) -> (r: String)
    ensures
        r@ == escape_chars(s@),
{
    let n = s.unicode_len();
    let mut out = String::new();
    let mut i: usize = 0;
    while i < n
        invariant
            n == s@.len(),
            i <= n,
            out@ + esc_from(s@, i as int) == escape_chars(s@),
        decreases n - i,
    {
        let c = s.get_char(i);
        if needs_esc_exec(c, i == 0, i == n - 1) {
            out.push('\\');
            out.push(c);
        } else {
            out.push(c);
        }
        proof {
            assert(out@ + esc_from(s@, i + 1) =~= escape_chars(s@));
        }
        i = i + 1;
    }
    out
}

/// Remove the escape backslashes from a value.  Fails when the value ends
/// in a lone backslash.
pub fn unescape_value(s: &str) -> (r: Option<String>)
    ensures
        match r {
            Some(v) => unescape_chars(s@) == Some(v@),
            None => unescape_chars(s@) is None,
        },
{
    let n = s.unicode_len();
    let mut out = String::new();
    let mut i: usize = 0;
    proof {
        assert(s@.skip(0) =~= s@);
    }
    while i < n
        invariant
            n == s@.len(),
            i <= n,
            ({
                let full = unescape_chars(s@);
                let rest = unescape_chars(s@.skip(i as int));
                match rest {
                    Some(tail) => full == Some(out@ + tail),
                    None => full is None,
                }
            }),
        decreases n - i,
    {
        let c = s.get_char(i);
        proof {
            assert(s@.skip(i as int)[0] == s@[i as int]);
        }
        if c == '\\' {
            if i + 1 >= n {
                proof {
                    assert(s@.skip(i as int).len() == 1);
                    assert(unescape_chars(s@.skip(i as int)) is None);
                }
                return None;
            }
            let c2 = s.get_char(i + 1);
            out.push(c2);
            proof {
                assert(s@.skip(i as int)[1] == s@[i + 1]);
                assert(s@.skip(i as int).skip(2) =~= s@.skip(i + 2));
                let rest2 = unescape_chars(s@.skip(i + 2));
                match rest2 {
                    Some(tail2) => {
                        assert(unescape_chars(s@.skip(i as int)) == Some(seq![s@[i + 1]] + tail2));
                        assert(out@ + tail2 =~= out@.drop_last() + (seq![s@[i + 1]] + tail2));
                    },
                    None => {},
                }
            }
            i = i + 2;
        } else {
            out.push(c);
            proof {
                assert(s@.skip(i as int).drop_first() =~= s@.skip(i + 1));
                let rest2 = unescape_chars(s@.skip(i + 1));
                match rest2 {
                    Some(tail2) => {
                        assert(unescape_chars(s@.skip(i as int)) == Some(seq![s@[i as int]] + tail2));
                        assert(out@ + tail2 =~= out@.drop_last() + (seq![s@[i as int]] + tail2));
                    },
                    None => {},
                }
            }
            i = i + 1;
        }
    }
    proof {
        assert(s@.skip(n as int).len() == 0);
        assert(unescape_chars(s@) == Some(out@ + Seq::<char>::empty()));
        assert(out@ + Seq::<char>::empty() =~= out@);
    }
    Some(out)
}


/// One step of the escape-aware split: the result of splitting `s` on `d`
/// given the escape state, the current component and the parts already
/// collected.  `None` when the input ends in an escape.
pub open spec fn split_esc_rec(
    s: Seq<char>,
    d: char,
    esc: bool,
    cur: Seq<char>,
    parts: Seq<Seq<char>>,
) -> Option<Seq<Seq<char>>>
    decreases s.len(),
{
    if s.len() == 0 {
        if esc {
            None
        } else {
            Some(parts.push(trim_chars(cur)))
        }
    } else {
        let c = s[0];
        if esc {
            split_esc_rec(s.drop_first(), d, false, cur.push(c), parts)
        } else if c == '\\' {
            split_esc_rec(s.drop_first(), d, true, cur, parts)
        } else if c == d {
            split_esc_rec(s.drop_first(), d, false, Seq::empty(), parts.push(trim_chars(cur)))
        } else {
            split_esc_rec(s.drop_first(), d, false, cur.push(c), parts)
        }
    }
}

/// The escape-aware split of a string on a delimiter: the parts come out
/// trimmed; `None` when the input ends in an escape or any part is empty.
pub open spec fn split_esc(s: Seq<char>, d: char) -> Option<Seq<Seq<char>>> {
    match split_esc_rec(s, d, false, Seq::empty(), Seq::empty()) {
        Some(parts) => if exists|i: int| 0 <= i < parts.len() && #[trigger] parts[i].len() == 0 {
            None
        } else {
            Some(parts)
        },
        None => None,
    }
}

/// The index of the first unescaped `=` at or after position `i`.
pub open spec fn find_eq(s: Seq<char>, i: int, esc: bool) -> Option<int>
    decreases s.len() - i,
{
    if i < 0 || i >= s.len() {
        None
    } else if esc {
        find_eq(s, i + 1, false)
    } else if s[i] == '\\' {
        find_eq(s, i + 1, true)
    } else if s[i] == '=' {
        Some(i)
    } else {
        find_eq(s, i + 1, false)
    }
}

/// The attribute and unescaped value of one `attribute=value` component:
/// the attribute is the trimmed text before the first unescaped `=`, the
/// value is the unescaped text after it (leading whitespace dropped).
/// `None` when there is no `=`, the attribute or value is empty, or the
/// value ends in an escape.
pub open spec fn split_av(comp: Seq<char>) -> Option<(Seq<char>, Seq<char>)> {
    match find_eq(comp, 0, false) {
        Some(idx) => {
            let attribute = trim_chars(comp.take(idx));
            let value_part = trim_front(comp.skip(idx + 1));
            if attribute.len() == 0 {
                None
            } else if value_part.len() == 0 {
                None
            } else {
                match unescape_chars(value_part) {
                    Some(v) => Some((attribute, v)),
                    None => None,
                }
            }
        },
        None => None,
    }
}

/// Parse every `+`-joined component of one relative distinguished name.
pub open spec fn map_av(parts: Seq<Seq<char>>) -> Option<Seq<(Seq<char>, Seq<char>)>>
    decreases parts.len(),
{
    if parts.len() == 0 {
        Some(Seq::empty())
    } else {
        match map_av(parts.drop_last()) {
            Some(front) => match split_av(parts.last()) {
                Some(av) => Some(front.push(av)),
                None => None,
            },
            None => None,
        }
    }
}

/// Parse one comma-separated component into its attribute/value group.
pub open spec fn parse_component_spec(comp: Seq<char>) -> Option<Seq<(Seq<char>, Seq<char>)>> {
    match split_esc(comp, '+') {
        Some(parts) => map_av(parts),
        None => None,
    }
}

/// Parse every comma-separated component of a distinguished name.
pub open spec fn map_component(comps: Seq<Seq<char>>) -> Option<Seq<Seq<(Seq<char>, Seq<char>)>>>
    decreases comps.len(),
{
    if comps.len() == 0 {
        Some(Seq::empty())
    } else {
        match map_component(comps.drop_last()) {
            Some(front) => match parse_component_spec(comps.last()) {
                Some(group) => Some(front.push(group)),
                None => None,
            },
            None => None,
        }
    }
}

/// What a distinguished-name string denotes: the groups of attribute/value
/// pairs, or `None` for malformed input (empty once trimmed, empty
/// components, components without attribute or value, or unterminated
/// escapes).
pub open spec fn dn_parse_spec(input: Seq<char>) -> Option<Seq<Seq<(Seq<char>, Seq<char>)>>> {
    let raw = trim_chars(input);
    if raw.len() == 0 {
        None
    } else {
        match split_esc(raw, ',') {
            Some(comps) => map_component(comps),
            None => None,
        }
    }
}

proof fn lemma_map_av_none(parts: Seq<Seq<char>>, j: int)
    requires
        0 <= j < parts.len(),
        split_av(parts[j]) is None,
    ensures
        map_av(parts) is None,
    decreases parts.len(),
{
    if parts.len() > 0 && j < parts.len() - 1 {
        assert(parts.drop_last()[j] == parts[j]);
        lemma_map_av_none(parts.drop_last(), j);
    }
}

/// Which error one malformed `attribute=value` part produces: no unescaped
/// `=` is an invalid component (carrying the part); an empty attribute or
/// value is reported as missing (carrying the part, or the attribute); a
/// value ending in an escape is an unterminated escape.
pub open spec fn av_err_matches(e: DistinguishedNameError, part: Seq<char>) -> bool {
    match find_eq(part, 0, false) {
        Some(idx) => {
            let attribute = trim_chars(part.take(idx));
            let value_part = trim_front(part.skip(idx + 1));
            if attribute.len() == 0 {
                e matches DistinguishedNameError::MissingAttribute(m) && m@ == part
            } else if value_part.len() == 0 {
                e matches DistinguishedNameError::MissingValue(m) && m@ == attribute
            } else {
                e is UnterminatedEscape
            }
        },
        None => e matches DistinguishedNameError::InvalidComponent(m) && m@ == part,
    }
}

/// Which error one malformed comma-component produces: an unterminated
/// escape or an empty `+`-part fails the split; otherwise the first
/// malformed `attribute=value` part decides.
pub open spec fn component_err_matches(e: DistinguishedNameError, comp: Seq<char>) -> bool {
    if split_esc_rec(comp, '+', false, Seq::empty(), Seq::empty()) is None {
        e is UnterminatedEscape
    } else if split_esc(comp, '+') is None {
        e matches DistinguishedNameError::InvalidComponent(m) && m@ == comp
    } else {
        let parts = split_esc(comp, '+').unwrap();
        exists|k: int|
            0 <= k < parts.len() && (#[trigger] split_av(parts[k])) is None && (forall|j: int|
                0 <= j < k ==> (#[trigger] split_av(parts[j])) is Some) && av_err_matches(
                e,
                parts[k],
            )
    }
}

/// Which error malformed input produces: an empty (trimmed) name, an
/// unterminated escape or an empty component in the comma split, or else
/// the first malformed component decides.
pub open spec fn dn_err_matches(e: DistinguishedNameError, input: Seq<char>) -> bool {
    let raw = trim_chars(input);
    if raw.len() == 0 {
        e is Empty
    } else if split_esc_rec(raw, ',', false, Seq::empty(), Seq::empty()) is None {
        e is UnterminatedEscape
    } else if split_esc(raw, ',') is None {
        e matches DistinguishedNameError::InvalidComponent(m) && m@ == raw
    } else {
        let comps = split_esc(raw, ',').unwrap();
        exists|i: int|
            0 <= i < comps.len() && (#[trigger] parse_component_spec(comps[i])) is None && (
            forall|j: int|
                0 <= j < i ==> (#[trigger] parse_component_spec(comps[j])) is Some)
                && component_err_matches(e, comps[i])
    }
}

proof fn lemma_map_av_some_each(parts: Seq<Seq<char>>)
    requires
        map_av(parts) is Some,
    ensures
        forall|j: int| 0 <= j < parts.len() ==> (#[trigger] split_av(parts[j])) is Some,
    decreases parts.len(),
{
    if parts.len() > 0 {
        lemma_map_av_some_each(parts.drop_last());
        assert forall|j: int| 0 <= j < parts.len() implies (#[trigger] split_av(
            parts[j],
        )) is Some by {
            if j < parts.len() - 1 {
                assert(parts.drop_last()[j] == parts[j]);
            }
        }
    }
}

proof fn lemma_map_component_some_each(comps: Seq<Seq<char>>)
    requires
        map_component(comps) is Some,
    ensures
        forall|j: int|
            0 <= j < comps.len() ==> (#[trigger] parse_component_spec(comps[j])) is Some,
    decreases comps.len(),
{
    if comps.len() > 0 {
        lemma_map_component_some_each(comps.drop_last());
        assert forall|j: int| 0 <= j < comps.len() implies (#[trigger] parse_component_spec(
            comps[j],
        )) is Some by {
            if j < comps.len() - 1 {
                assert(comps.drop_last()[j] == comps[j]);
            }
        }
    }
}

proof fn lemma_map_component_none(comps: Seq<Seq<char>>, j: int)
    requires
        0 <= j < comps.len(),
        parse_component_spec(comps[j]) is None,
    ensures
        map_component(comps) is None,
    decreases comps.len(),
{
    if comps.len() > 0 && j < comps.len() - 1 {
        assert(comps.drop_last()[j] == comps[j]);
        lemma_map_component_none(comps.drop_last(), j);
    }
}

proof fn lemma_split_esc_rec_len(s: Seq<char>, d: char, esc: bool, cur: Seq<char>, parts: Seq<Seq<char>>)
    ensures
        match split_esc_rec(s, d, esc, cur, parts) {
            Some(r) => r.len() > parts.len(),
            None => true,
        },
    decreases s.len(),
{
    if s.len() > 0 {
        let c = s[0];
        if esc {
            lemma_split_esc_rec_len(s.drop_first(), d, false, cur.push(c), parts);
        } else if c == '\\' {
            lemma_split_esc_rec_len(s.drop_first(), d, true, cur, parts);
        } else if c == d {
            lemma_split_esc_rec_len(
                s.drop_first(),
                d,
                false,
                Seq::empty(),
                parts.push(trim_chars(cur)),
            );
        } else {
            lemma_split_esc_rec_len(s.drop_first(), d, false, cur.push(c), parts);
        }
    }
}

/// A successful escape-aware split yields at least one part.
proof fn lemma_split_esc_some_nonempty(s: Seq<char>, d: char)
    ensures
        match split_esc(s, d) {
            Some(parts) => parts.len() > 0,
            None => true,
        },
{
    lemma_split_esc_rec_len(s, d, false, Seq::empty(), Seq::empty());
}

/// Errors that can occur when parsing or manipulating distinguished names.
#[derive(Debug, PartialEq)]
pub enum DistinguishedNameError {
    /// The distinguished name was empty.
    Empty,
    /// A component in the distinguished name was invalid.
    InvalidComponent(String),
    /// A component was missing the attribute name to the left of the `=`.
    MissingAttribute(String),
    /// A component was missing the value to the right of the `=`.
    MissingValue(String),
    /// The distinguished name ended with an escape character.
    UnterminatedEscape,
}

impl DistinguishedNameError {
    /// The human-readable message of each variant.
    pub open spec fn message_spec(self) -> Seq<char> {
        match self {
            DistinguishedNameError::Empty => "distinguished name cannot be empty"@,
            DistinguishedNameError::InvalidComponent(m) => "invalid distinguished name component: "@
                + m@,
            DistinguishedNameError::MissingAttribute(m) =>
                "distinguished name component missing attribute: "@ + m@,
            DistinguishedNameError::MissingValue(m) =>
                "distinguished name component missing value for attribute "@ + m@,
            DistinguishedNameError::UnterminatedEscape =>
                "distinguished name contains an unterminated escape sequence"@,
        }
    }

    /// Returns the human-readable message for this error value.
    pub fn message(&self) -> (r: String)
        ensures
            r@ == self.message_spec(),
    {
        match self {
            DistinguishedNameError::Empty => "distinguished name cannot be empty".to_owned(),
            DistinguishedNameError::InvalidComponent(m) => {
                let mut out = "invalid distinguished name component: ".to_owned();
                out.append(m.as_str());
                out
            },
            DistinguishedNameError::MissingAttribute(m) => {
                let mut out = "distinguished name component missing attribute: ".to_owned();
                out.append(m.as_str());
                out
            },
            DistinguishedNameError::MissingValue(m) => {
                let mut out = "distinguished name component missing value for attribute ".to_owned();
                out.append(m.as_str());
                out
            },
            DistinguishedNameError::UnterminatedEscape => {
                "distinguished name contains an unterminated escape sequence".to_owned()
            },
        }
    }
}

impl Clone for DistinguishedNameError {
    /// An exact copy of the error value.
    fn clone(&self) -> (res: Self)
        ensures
            res == *self,
    {
        match self {
            DistinguishedNameError::Empty => DistinguishedNameError::Empty,
            DistinguishedNameError::InvalidComponent(m) => DistinguishedNameError::InvalidComponent(
                m.clone(),
            ),
            DistinguishedNameError::MissingAttribute(m) => DistinguishedNameError::MissingAttribute(
                m.clone(),
            ),
            DistinguishedNameError::MissingValue(m) => DistinguishedNameError::MissingValue(
                m.clone(),
            ),
            DistinguishedNameError::UnterminatedEscape => DistinguishedNameError::UnterminatedEscape,
        }
    }
}

impl DistinguishedNameError {
    /// This error as a core error value: an invalid request carrying the
    /// message text.
    pub fn into_core_error(self) -> (r: Error)
        ensures
            r matches Error::InvalidRequest(m) && m@ == self.message_spec(),
    {
        Error::InvalidRequest(self.message())
    }
}

impl From<DistinguishedNameError> for Error {
    fn from(err: DistinguishedNameError) -> Self {
        err.into_core_error()
    }
}

impl vstd::std_specs::convert::FromSpecImpl<DistinguishedNameError> for Error {
    open spec fn obeys_from_spec() -> bool {
        false
    }

    open spec fn from_spec(t: DistinguishedNameError) -> Self {
        arbitrary()
    }
}

/// The escape-aware split of a string on a delimiter, with each part
/// trimmed.  Fails on an unterminated escape or an empty part.
fn split_escaped(input: &str, delimiter: char) -> (r: Result<Vec<String>, DistinguishedNameError>)
    ensures
        match r {
            Ok(parts) => split_esc(input@, delimiter) == Some(crate::text::str_views(parts@)),
            Err(e) => {
                &&& split_esc(input@, delimiter) is None
                &&& if split_esc_rec(input@, delimiter, false, Seq::empty(), Seq::empty())
                    is None {
                    e is UnterminatedEscape
                } else {
                    e matches DistinguishedNameError::InvalidComponent(m) && m@ == input@
                }
            },
        },
{
    let n = input.unicode_len();
    let mut parts: Vec<String> = Vec::new();
    let mut current = String::new();
    let mut escape = false;
    let mut i: usize = 0;
    proof {
        assert(input@.skip(0) =~= input@);
        assert(crate::text::str_views(parts@) =~= Seq::<Seq<char>>::empty());
    }
    while i < n
        invariant
            n == input@.len(),
            i <= n,
            split_esc_rec(input@, delimiter, false, Seq::empty(), Seq::empty())
                == split_esc_rec(
                input@.skip(i as int),
                delimiter,
                escape,
                current@,
                crate::text::str_views(parts@),
            ),
        decreases n - i,
    {
        let c = input.get_char(i);
        proof {
            assert(input@.skip(i as int)[0] == input@[i as int]);
            assert(input@.skip(i as int).drop_first() =~= input@.skip(i + 1));
        }
        if escape {
            current.push(c);
            escape = false;
        } else if c == '\\' {
            escape = true;
        } else if c == delimiter {
            let ghost before = crate::text::str_views(parts@);
            let ghost cur_before = current@;
            let part = trim_str(current.as_str());
            parts.push(part);
            current = String::new();
            proof {
                assert(crate::text::str_views(parts@) =~= before.push(trim_chars(cur_before)));
            }
        } else {
            current.push(c);
        }
        i = i + 1;
    }
    proof {
        assert(input@.skip(n as int).len() == 0);
    }
    if escape {
        return Err(DistinguishedNameError::UnterminatedEscape);
    }
    let last = trim_str(current.as_str());
    let ghost before = crate::text::str_views(parts@);
    parts.push(last);
    proof {
        assert(crate::text::str_views(parts@) =~= before.push(parts@.last()@));
        assert(split_esc_rec(input@, delimiter, false, Seq::empty(), Seq::empty()) == Some(
            crate::text::str_views(parts@),
        ));
    }
    let mut j: usize = 0;
    while j < parts.len()
        invariant
            j <= parts@.len(),
            split_esc_rec(input@, delimiter, false, Seq::empty(), Seq::empty()) == Some(
                crate::text::str_views(parts@),
            ),
            forall|k: int| 0 <= k < j ==> #[trigger] parts@[k]@.len() != 0,
        decreases parts@.len() - j,
    {
        if parts[j].as_str().is_empty() {
            proof {
                let views = crate::text::str_views(parts@);
                assert(views[j as int].len() == 0);
            }
            return Err(DistinguishedNameError::InvalidComponent(input.to_owned()));
        }
        j = j + 1;
    }
    proof {
        let views = crate::text::str_views(parts@);
        assert forall|k: int| 0 <= k < views.len() implies #[trigger] views[k].len() != 0 by {
            assert(parts@[k]@.len() != 0);
        }
    }
    Ok(parts)
}

/// Split one component into its attribute and unescaped value.
fn split_attribute_value(component: &str) -> (r: Result<(String, String), DistinguishedNameError>)
    ensures
        match r {
            Ok(av) => split_av(component@) == Some((av.0@, av.1@)),
            Err(e) => split_av(component@) is None && av_err_matches(e, component@),
        },
{
    let n = component.unicode_len();
    let found = find_eq_exec(component);
    let idx = match found {
        Some(idx) => idx,
        None => {
            return Err(DistinguishedNameError::InvalidComponent(component.to_owned()));
        },
    };
    let head = component.substring_char(0, idx);
    let attribute = trim_str(head);
    let tail = component.substring_char(idx + 1, n);
    let value_part = trim_start_str(tail);
    if attribute.as_str().is_empty() {
        return Err(DistinguishedNameError::MissingAttribute(component.to_owned()));
    }
    if value_part.as_str().is_empty() {
        return Err(DistinguishedNameError::MissingValue(attribute));
    }
    match unescape_value(value_part.as_str()) {
        Some(value) => Ok((attribute, value)),
        None => Err(DistinguishedNameError::UnterminatedEscape),
    }
}

/// The index of the first unescaped `=` in the component.
fn find_eq_exec(component: &str) -> (r: Option<usize>)
    ensures
        match r {
            Some(idx) => find_eq(component@, 0, false) == Some(idx as int) && idx
                < component@.len(),
            None => find_eq(component@, 0, false) is None,
        },
{
    let n = component.unicode_len();
    let mut i: usize = 0;
    let mut escape = false;
    while i < n
        invariant
            n == component@.len(),
            i <= n,
            find_eq(component@, 0, false) == find_eq(component@, i as int, escape),
        decreases n - i,
    {
        let c = component.get_char(i);
        if escape {
            escape = false;
        } else if c == '\\' {
            escape = true;
        } else if c == '=' {
            return Some(i);
        }
        i = i + 1;
    }
    None
}

/// The string without its leading whitespace.
fn trim_start_str(s: &str) -> (r: String)
    ensures
        r@ == trim_front(s@),
{
    let n = s.unicode_len();
    let mut start: usize = 0;
    proof {
        assert(s@.skip(0) =~= s@);
    }
    while start < n && is_ws_exec(s.get_char(start))
        invariant
            n == s@.len(),
            start <= n,
            trim_front(s@) == trim_front(s@.skip(start as int)),
        decreases n - start,
    {
        proof {
            assert(s@.skip(start as int)[0] == s@[start as int]);
            assert(s@.skip(start as int).drop_first() =~= s@.skip(start + 1));
        }
        start = start + 1;
    }
    proof {
        if start < n {
            assert(s@.skip(start as int)[0] == s@[start as int]);
        }
        assert(trim_front(s@) == s@.skip(start as int));
        assert(s@.skip(start as int) =~= s@.subrange(start as int, n as int));
    }
    let out = s.substring_char(start, n);
    out.to_owned()
}


/// Relative distinguished name (single attribute/value pair).
#[derive(Debug, PartialEq, Eq)]
pub struct RelativeDistinguishedName {
    /// Attribute portion of the pair (e.g. `cn`).
    pub attribute: String,
    /// Attribute value portion of the pair, unescaped.
    pub value: String,
}

/// The attribute and value of one relative distinguished name.
pub open spec fn rdn_view(r: RelativeDistinguishedName) -> (Seq<char>, Seq<char>) {
    (r.attribute@, r.value@)
}

/// The attribute/value pairs of one group.
pub open spec fn group_views(g: Seq<RelativeDistinguishedName>) -> Seq<(Seq<char>, Seq<char>)> {
    g.map_values(|r: RelativeDistinguishedName| rdn_view(r))
}

/// The groups of attribute/value pairs of a whole name.
pub open spec fn groups_views(gs: Seq<Vec<RelativeDistinguishedName>>) -> Seq<
    Seq<(Seq<char>, Seq<char>)>,
> {
    gs.map_values(|v: Vec<RelativeDistinguishedName>| group_views(v@))
}

impl RelativeDistinguishedName {
    /// Create a new relative distinguished name.
    pub fn new(attribute: String, value: String) -> (r: Self)
        ensures
            r.attribute == attribute,
            r.value == value,
    {
        Self { attribute, value }
    }

    /// Attribute portion of the pair.
    pub fn attribute(&self) -> (r: &str)
        ensures
            r@ == self.attribute@,
    {
        self.attribute.as_str()
    }

    /// Attribute value portion of the pair.
    pub fn value(&self) -> (r: &str)
        ensures
            r@ == self.value@,
    {
        self.value.as_str()
    }

    /// Returns true if this pair's attribute matches the provided attribute
    /// name, ASCII case-insensitively.
    pub fn matches_attribute(&self, attribute: &str) -> (r: bool)
        ensures
            r == (lower_chars(self.attribute@) == lower_chars(attribute@)),
    {
        eq_ignore_ascii_case(self.attribute.as_str(), attribute)
    }
}

impl Clone for RelativeDistinguishedName {
    /// A copy carrying the same attribute and value text.
    fn clone(&self) -> (res: Self)
        ensures
            rdn_view(res) == rdn_view(*self),
    {
        Self { attribute: self.attribute.clone(), value: self.value.clone() }
    }
}

/// The canonical text of one attribute/value pair:
/// `attribute=escaped-value`.
pub open spec fn rdn_text(r: (Seq<char>, Seq<char>)) -> Seq<char> {
    r.0 + "="@ + escape_chars(r.1)
}

/// The canonical text of one group: its pairs joined with `+`.
pub open spec fn group_text(g: Seq<(Seq<char>, Seq<char>)>) -> Seq<char>
    decreases g.len(),
{
    if g.len() == 0 {
        Seq::empty()
    } else if g.len() == 1 {
        rdn_text(g[0])
    } else {
        rdn_text(g[0]) + "+"@ + group_text(g.drop_first())
    }
}

/// The canonical text of a whole name: its groups joined with `,`.
pub open spec fn dn_text(gs: Seq<Seq<(Seq<char>, Seq<char>)>>) -> Seq<char>
    decreases gs.len(),
{
    if gs.len() == 0 {
        Seq::empty()
    } else if gs.len() == 1 {
        group_text(gs[0])
    } else {
        group_text(gs[0]) + ","@ + dn_text(gs.drop_first())
    }
}

proof fn lemma_group_text_push(g: Seq<(Seq<char>, Seq<char>)>, x: (Seq<char>, Seq<char>))
    ensures
        group_text(g.push(x)) == if g.len() == 0 {
            rdn_text(x)
        } else {
            group_text(g) + "+"@ + rdn_text(x)
        },
    decreases g.len(),
{
    let gp = g.push(x);
    if g.len() == 0 {
        assert(gp.len() == 1);
        assert(gp[0] == x);
    } else {
        assert(gp[0] == g[0]);
        assert(gp.drop_first() =~= g.drop_first().push(x));
        lemma_group_text_push(g.drop_first(), x);
        if g.len() == 1 {
            assert(g.drop_first().len() == 0);
            assert(group_text(gp) == rdn_text(g[0]) + "+"@ + rdn_text(x));
            assert(group_text(g) == rdn_text(g[0]));
        } else {
            assert(group_text(gp) == rdn_text(g[0]) + "+"@ + (group_text(g.drop_first()) + "+"@
                + rdn_text(x)));
            assert(rdn_text(g[0]) + "+"@ + (group_text(g.drop_first()) + "+"@ + rdn_text(x))
                =~= (rdn_text(g[0]) + "+"@ + group_text(g.drop_first())) + "+"@ + rdn_text(x));
        }
    }
}

proof fn lemma_dn_text_push(gs: Seq<Seq<(Seq<char>, Seq<char>)>>, x: Seq<(Seq<char>, Seq<char>)>)
    ensures
        dn_text(gs.push(x)) == if gs.len() == 0 {
            group_text(x)
        } else {
            dn_text(gs) + ","@ + group_text(x)
        },
    decreases gs.len(),
{
    let gp = gs.push(x);
    if gs.len() == 0 {
        assert(gp.len() == 1);
        assert(gp[0] == x);
    } else {
        assert(gp[0] == gs[0]);
        assert(gp.drop_first() =~= gs.drop_first().push(x));
        lemma_dn_text_push(gs.drop_first(), x);
        if gs.len() == 1 {
            assert(gs.drop_first().len() == 0);
        } else {
            assert(group_text(gs[0]) + ","@ + (dn_text(gs.drop_first()) + ","@ + group_text(x))
                =~= (group_text(gs[0]) + ","@ + dn_text(gs.drop_first())) + ","@ + group_text(
                x,
            ));
        }
    }
}

/// Render one group in its canonical text.
fn group_to_string(group: &Vec<RelativeDistinguishedName>) -> (r: String)
    ensures
        r@ == group_text(group_views(group@)),
{
    let mut out = String::new();
    let mut j: usize = 0;
    while j < group.len()
        invariant
            j <= group@.len(),
            out@ == group_text(group_views(group@.subrange(0, j as int))),
        decreases group@.len() - j,
    {
        if j > 0 {
            out.push('+');
        }
        out.append(group[j].attribute.as_str());
        out.push('=');
        let escaped = escape_value(group[j].value.as_str());
        out.append(escaped.as_str());
        proof {
            reveal_strlit("+");
            reveal_strlit("=");
            let prefix = group_views(group@.subrange(0, j as int));
            let x = rdn_view(group@[j as int]);
            assert(group_views(group@.subrange(0, j + 1)) =~= prefix.push(x));
            lemma_group_text_push(prefix, x);
            assert(group@[j as int].attribute@ + "="@ + escape_chars(group@[j as int].value@)
                =~= rdn_text(x));
            if j == 0 {
                assert(out@ =~= rdn_text(x));
            } else {
                assert(out@ =~= group_text(prefix) + "+"@ + rdn_text(x));
            }
        }
        j = j + 1;
    }
    proof {
        assert(group@.subrange(0, group@.len() as int) =~= group@);
    }
    out
}

/// Render a parsed name in its canonical text form.
fn rdns_to_string(rdns: &Vec<Vec<RelativeDistinguishedName>>) -> (r: String)
    ensures
        r@ == dn_text(groups_views(rdns@)),
{
    let mut out = String::new();
    let mut i: usize = 0;
    while i < rdns.len()
        invariant
            i <= rdns@.len(),
            out@ == dn_text(groups_views(rdns@.subrange(0, i as int))),
        decreases rdns@.len() - i,
    {
        if i > 0 {
            out.push(',');
        }
        let piece = group_to_string(&rdns[i]);
        out.append(piece.as_str());
        proof {
            reveal_strlit(",");
            let prefix = groups_views(rdns@.subrange(0, i as int));
            let x = group_views(rdns@[i as int]@);
            assert(groups_views(rdns@.subrange(0, i + 1)) =~= prefix.push(x));
            lemma_dn_text_push(prefix, x);
            if i == 0 {
                assert(out@ =~= group_text(x));
            } else {
                assert(out@ =~= dn_text(prefix) + ","@ + group_text(x));
            }
        }
        i = i + 1;
    }
    proof {
        assert(rdns@.subrange(0, rdns@.len() as int) =~= rdns@);
    }
    out
}

/// Strongly-typed distinguished name.
///
/// The structure keeps a canonical string representation while providing
/// access to the individual relative distinguished names.  Parsing is
/// intentionally strict to surface malformed names early.
#[derive(Debug, PartialEq, Eq)]
pub struct DistinguishedName {
    /// The canonical string form (values re-escaped).
    pub raw: String,
    /// The groups of `+`-joined pairs, in order.
    pub rdns: Vec<Vec<RelativeDistinguishedName>>,
}

impl DistinguishedName {
    /// The canonical-form invariant: the raw text renders the parsed
    /// groups, and there is at least one group.
    pub open spec fn wf(self) -> bool {
        &&& self.raw@ == dn_text(groups_views(self.rdns@))
        &&& self.rdns@.len() > 0
    }

    /// Parses a distinguished name from a string.  Fails exactly when
    /// [`dn_parse_spec`] denotes nothing, and the error names the first
    /// cause the scan meets ([`dn_err_matches`]): an empty name, an
    /// unterminated escape, an empty component, or a component without
    /// attribute or value.
    pub fn parse(input: &str) -> (r: Result<DistinguishedName, DistinguishedNameError>)
        ensures
            match r {
                Ok(dn) => {
                    &&& dn_parse_spec(input@) == Some(groups_views(dn.rdns@))
                    &&& dn.wf()
                },
                Err(e) => dn_parse_spec(input@) is None && dn_err_matches(e, input@),
            },
    {
        let trimmed = trim_str(input);
        if trimmed.as_str().is_empty() {
            return Err(DistinguishedNameError::Empty);
        }
        let components = match split_escaped(trimmed.as_str(), ',') {
            Ok(components) => components,
            Err(e) => {
                return Err(e);
            },
        };
        let mut rdns: Vec<Vec<RelativeDistinguishedName>> = Vec::new();
        let mut i: usize = 0;
        let ghost comp_views = crate::text::str_views(components@);
        while i < components.len()
            invariant
                i <= components@.len(),
                comp_views == crate::text::str_views(components@),
                trim_chars(input@).len() != 0,
                split_esc(trim_chars(input@), ',') == Some(comp_views),
                map_component(comp_views.subrange(0, i as int)) == Some(groups_views(rdns@)),
            decreases components@.len() - i,
        {
            let parts = match split_escaped(components[i].as_str(), '+') {
                Ok(parts) => parts,
                Err(e) => {
                    proof {
                        assert(parse_component_spec(comp_views[i as int]) is None);
                        lemma_map_component_none(comp_views, i as int);
                        lemma_map_component_some_each(comp_views.subrange(0, i as int));
                        assert(forall|j: int|
                            0 <= j < i ==> (#[trigger] parse_component_spec(
                                comp_views[j],
                            )) is Some) by {
                            assert(forall|j: int|
                                0 <= j < i ==> comp_views.subrange(0, i as int)[j]
                                    == comp_views[j]);
                        }
                        assert(component_err_matches(e, comp_views[i as int]));
                        assert(dn_err_matches(e, input@));
                    }
                    return Err(e);
                },
            };
            let mut group: Vec<RelativeDistinguishedName> = Vec::new();
            let mut j: usize = 0;
            let ghost part_views = crate::text::str_views(parts@);
            while j < parts.len()
                invariant
                    j <= parts@.len(),
                    part_views == crate::text::str_views(parts@),
                    i < components@.len(),
                    comp_views == crate::text::str_views(components@),
                    trim_chars(input@).len() != 0,
                    split_esc(trim_chars(input@), ',') == Some(comp_views),
                    map_component(comp_views.subrange(0, i as int)) == Some(groups_views(rdns@)),
                    split_esc(comp_views[i as int], '+') == Some(part_views),
                    map_av(part_views.subrange(0, j as int)) == Some(group_views(group@)),
                decreases parts@.len() - j,
            {
                let av = match split_attribute_value(parts[j].as_str()) {
                    Ok(av) => av,
                    Err(e) => {
                        proof {
                            lemma_map_av_none(part_views, j as int);
                            assert(parse_component_spec(comp_views[i as int]) is None);
                            lemma_map_component_none(comp_views, i as int);
                            lemma_map_av_some_each(part_views.subrange(0, j as int));
                            assert(forall|k: int|
                                0 <= k < j ==> (#[trigger] split_av(part_views[k])) is Some) by {
                                assert(forall|k: int|
                                    0 <= k < j ==> part_views.subrange(0, j as int)[k]
                                        == part_views[k]);
                            }
                            assert(av_err_matches(e, part_views[j as int]));
                            assert(component_err_matches(e, comp_views[i as int]));
                            lemma_map_component_some_each(comp_views.subrange(0, i as int));
                            assert(forall|k: int|
                                0 <= k < i ==> (#[trigger] parse_component_spec(
                                    comp_views[k],
                                )) is Some) by {
                                assert(forall|k: int|
                                    0 <= k < i ==> comp_views.subrange(0, i as int)[k]
                                        == comp_views[k]);
                            }
                            assert(dn_err_matches(e, input@));
                        }
                        return Err(e);
                    },
                };
                let (attribute, value) = av;
                group.push(RelativeDistinguishedName::new(attribute, value));
                proof {
                    assert(part_views.subrange(0, j + 1).drop_last() =~= part_views.subrange(
                        0,
                        j as int,
                    ));
                    assert(part_views.subrange(0, j + 1).last() == part_views[j as int]);
                    assert(group_views(group@) =~= group_views(group@.drop_last()).push(
                        rdn_view(group@.last()),
                    ));
                }
                j = j + 1;
            }
            rdns.push(group);
            proof {
                assert(part_views.subrange(0, part_views.len() as int) =~= part_views);
                assert(comp_views.subrange(0, i + 1).drop_last() =~= comp_views.subrange(
                    0,
                    i as int,
                ));
                assert(comp_views.subrange(0, i + 1).last() == comp_views[i as int]);
                assert(groups_views(rdns@) =~= groups_views(rdns@.drop_last()).push(
                    group_views(rdns@.last()@),
                ));
            }
            i = i + 1;
        }
        proof {
            assert(comp_views.subrange(0, comp_views.len() as int) =~= comp_views);
            lemma_split_esc_some_nonempty(trim_chars(input@), ',');
        }
        let raw = rdns_to_string(&rdns);
        Ok(DistinguishedName { raw, rdns })
    }

    /// Borrows the canonical distinguished name string.
    pub fn as_str(&self) -> (r: &str)
        ensures
            r@ == self.raw@,
    {
        self.raw.as_str()
    }

    /// Returns the groups of `+`-joined pairs in order.
    pub fn rdns(&self) -> (r: &Vec<Vec<RelativeDistinguishedName>>)
        ensures
            r == &self.rdns,
    {
        &self.rdns
    }

    /// Returns every attribute/value pair in order, across all groups.
    pub fn components(&self) -> (r: Vec<RelativeDistinguishedName>)
        ensures
            group_views(r@) == flat_rdns(groups_views(self.rdns@)),
    {
        let mut out: Vec<RelativeDistinguishedName> = Vec::new();
        let mut i: usize = 0;
        while i < self.rdns.len()
            invariant
                i <= self.rdns@.len(),
                group_views(out@) == flat_rdns(
                    groups_views(self.rdns@).subrange(0, i as int),
                ),
            decreases self.rdns@.len() - i,
        {
            let mut j: usize = 0;
            while j < self.rdns[i].len()
                invariant
                    i < self.rdns@.len(),
                    j <= self.rdns@[i as int]@.len(),
                    group_views(out@) == flat_rdns(
                        groups_views(self.rdns@).subrange(0, i as int),
                    ) + group_views(self.rdns@[i as int]@.subrange(0, j as int)),
                decreases self.rdns@[i as int]@.len() - j,
            {
                out.push(self.rdns[i][j].clone());
                proof {
                    assert(self.rdns@[i as int]@.subrange(0, j + 1) =~= self.rdns@[
                        i as int
                    ]@.subrange(0, j as int).push(self.rdns@[i as int]@[j as int]));
                    assert(group_views(self.rdns@[i as int]@.subrange(0, j + 1)) =~= group_views(
                        self.rdns@[i as int]@.subrange(0, j as int),
                    ).push(rdn_view(self.rdns@[i as int]@[j as int])));
                    assert(group_views(out@) =~= group_views(out@.drop_last()).push(
                        rdn_view(out@.last()),
                    ));
                    assert((flat_rdns(groups_views(self.rdns@).subrange(0, i as int))
                        + group_views(self.rdns@[i as int]@.subrange(0, j as int))).push(
                        rdn_view(self.rdns@[i as int]@[j as int]),
                    ) =~= flat_rdns(groups_views(self.rdns@).subrange(0, i as int))
                        + group_views(self.rdns@[i as int]@.subrange(0, j + 1)));
                }
                j = j + 1;
            }
            proof {
                let gv = groups_views(self.rdns@);
                assert(self.rdns@[i as int]@.subrange(
                    0,
                    self.rdns@[i as int]@.len() as int,
                ) =~= self.rdns@[i as int]@);
                lemma_flat_rdns_push(gv.subrange(0, i as int), gv[i as int]);
                assert(gv.subrange(0, i + 1).drop_last() =~= gv.subrange(0, i as int));
                assert(gv.subrange(0, i + 1) =~= gv.subrange(0, i as int).push(gv[i as int]));
            }
            i = i + 1;
        }
        proof {
            let gv = groups_views(self.rdns@);
            assert(gv.subrange(0, gv.len() as int) =~= gv);
        }
        out
    }

    /// Looks up the value for the first pair whose attribute matches,
    /// ASCII case-insensitively.
    pub fn get(&self, attribute: &str) -> (r: Option<String>)
        ensures
            match r {
                Some(v) => find_attr(flat_rdns(groups_views(self.rdns@)), attribute@) == Some(
                    v@,
                ),
                None => find_attr(flat_rdns(groups_views(self.rdns@)), attribute@) is None,
            },
    {
        let all = self.components();
        let ghost flat = flat_rdns(groups_views(self.rdns@));
        let mut i: usize = 0;
        proof {
            assert(flat.skip(0) =~= flat);
        }
        while i < all.len()
            invariant
                i <= all@.len(),
                flat == flat_rdns(groups_views(self.rdns@)),
                group_views(all@) == flat,
                find_attr(flat, attribute@) == find_attr(flat.skip(i as int), attribute@),
            decreases all@.len() - i,
        {
            proof {
                assert(flat.skip(i as int)[0] == flat[i as int]);
                assert(flat.skip(i as int).drop_first() =~= flat.skip(i + 1));
                assert(flat[i as int] == rdn_view(all@[i as int]));
            }
            if all[i].matches_attribute(attribute) {
                proof {
                    assert(find_attr(flat.skip(i as int), attribute@) == Some(
                        flat[i as int].1,
                    ));
                    assert(find_attr(flat_rdns(groups_views(self.rdns@)), attribute@) == Some(
                        all@[i as int].value@,
                    ));
                }
                let found = all[i].value.clone();
                proof {
                    assert(found@ == all@[i as int].value@);
                }
                return Some(found);
            }
            i = i + 1;
        }
        proof {
            assert(flat.skip(flat.len() as int).len() == 0);
        }
        None
    }

    /// Returns true if the name contains a pair matching the attribute and
    /// value, both ASCII case-insensitively.
    pub fn contains(&self, attribute: &str, value: &str) -> (r: bool)
        ensures
            r == exists|i: int|
                0 <= i < flat_rdns(groups_views(self.rdns@)).len() && matches_pair(
                    #[trigger] flat_rdns(groups_views(self.rdns@))[i],
                    attribute@,
                    value@,
                ),
    {
        let all = self.components();
        let ghost flat = flat_rdns(groups_views(self.rdns@));
        let mut i: usize = 0;
        while i < all.len()
            invariant
                i <= all@.len(),
                flat == flat_rdns(groups_views(self.rdns@)),
                group_views(all@) == flat,
                forall|j: int| 0 <= j < i ==> !matches_pair(#[trigger] flat[j], attribute@, value@),
            decreases all@.len() - i,
        {
            proof {
                assert(flat[i as int] == rdn_view(all@[i as int]));
            }
            if all[i].matches_attribute(attribute) && eq_ignore_ascii_case(
                all[i].value.as_str(),
                value,
            ) {
                proof {
                    assert(matches_pair(flat_rdns(groups_views(self.rdns@))[i as int], attribute@, value@));
                }
                return true;
            }
            i = i + 1;
        }
        false
    }

    /// Creates a new distinguished name by prefixing the provided pair as
    /// its own group.
    pub fn with_prefix(self, rdn: RelativeDistinguishedName) -> (r: Self)
        ensures
            groups_views(r.rdns@) == seq![seq![rdn_view(rdn)]] + groups_views(self.rdns@),
            r.raw@ == dn_text(groups_views(r.rdns@)),
    {
        let mut rdns = self.rdns;
        let ghost base = rdns@;
        let mut first: Vec<RelativeDistinguishedName> = Vec::new();
        first.push(rdn);
        let ghost first_v = first@;
        rdns.insert(0, first);
        proof {
            assert(rdns@ =~= base.subrange(0, 0).push(rdns@[0]) + base.subrange(
                0,
                base.len() as int,
            ));
        }
        let raw = rdns_to_string(&rdns);
        let r = DistinguishedName { raw, rdns };
        proof {
            let target = seq![seq![rdn_view(rdn)]] + groups_views(self.rdns@);
            assert(r.rdns@[0]@ =~= first_v);
            assert(group_views(first_v) =~= seq![rdn_view(rdn)]);
            assert forall|k: int| 0 <= k < r.rdns@.len() implies groups_views(r.rdns@)[k]
                == target[k] by {
                if k == 0 {
                } else {
                    assert(r.rdns@[k] == base[k - 1]);
                }
            }
            assert(groups_views(r.rdns@) =~= target);
        }
        r
    }

    /// Creates a new distinguished name by appending another distinguished
    /// name, useful when combining an entry-specific pair with a base name.
    pub fn join(self, suffix: &DistinguishedName) -> (r: Self)
        ensures
            groups_views(r.rdns@) == groups_views(self.rdns@) + groups_views(suffix.rdns@),
            r.raw@ == dn_text(groups_views(r.rdns@)),
    {
        let mut rdns = self.rdns;
        let ghost own = groups_views(rdns@);
        let mut i: usize = 0;
        while i < suffix.rdns.len()
            invariant
                i <= suffix.rdns@.len(),
                groups_views(rdns@) == own + groups_views(suffix.rdns@.subrange(0, i as int)),
            decreases suffix.rdns@.len() - i,
        {
            let mut group: Vec<RelativeDistinguishedName> = Vec::new();
            let mut j: usize = 0;
            while j < suffix.rdns[i].len()
                invariant
                    i < suffix.rdns@.len(),
                    j <= suffix.rdns@[i as int]@.len(),
                    group_views(group@) == group_views(
                        suffix.rdns@[i as int]@.subrange(0, j as int),
                    ),
                decreases suffix.rdns@[i as int]@.len() - j,
            {
                group.push(suffix.rdns[i][j].clone());
                proof {
                    assert(suffix.rdns@[i as int]@.subrange(0, j + 1) =~= suffix.rdns@[
                        i as int
                    ]@.subrange(0, j as int).push(suffix.rdns@[i as int]@[j as int]));
                    assert(group_views(suffix.rdns@[i as int]@.subrange(0, j + 1)) =~= group_views(
                        suffix.rdns@[i as int]@.subrange(0, j as int),
                    ).push(rdn_view(suffix.rdns@[i as int]@[j as int])));
                    assert(group_views(group@) =~= group_views(group@.drop_last()).push(
                        rdn_view(group@.last()),
                    ));
                }
                j = j + 1;
            }
            rdns.push(group);
            proof {
                assert(suffix.rdns@[i as int]@.subrange(
                    0,
                    suffix.rdns@[i as int]@.len() as int,
                ) =~= suffix.rdns@[i as int]@);
                assert(suffix.rdns@.subrange(0, i + 1) =~= suffix.rdns@.subrange(0, i as int).push(
                    suffix.rdns@[i as int],
                ));
                assert(groups_views(suffix.rdns@.subrange(0, i + 1)) =~= groups_views(
                    suffix.rdns@.subrange(0, i as int),
                ).push(group_views(suffix.rdns@[i as int]@)));
                assert(groups_views(rdns@) =~= groups_views(rdns@.drop_last()).push(
                    group_views(rdns@.last()@),
                ));
                assert((own + groups_views(suffix.rdns@.subrange(0, i as int))).push(
                    group_views(suffix.rdns@[i as int]@),
                ) =~= own + groups_views(suffix.rdns@.subrange(0, i + 1)));
            }
            i = i + 1;
        }
        proof {
            assert(suffix.rdns@.subrange(0, suffix.rdns@.len() as int) =~= suffix.rdns@);
        }
        let raw = rdns_to_string(&rdns);
        DistinguishedName { raw, rdns }
    }
}

impl Clone for DistinguishedName {
    /// A copy carrying the same canonical text and the same pairs.
    fn clone(&self) -> (res: Self)
        ensures
            res.raw@ == self.raw@,
            groups_views(res.rdns@) == groups_views(self.rdns@),
    {
        let mut rdns: Vec<Vec<RelativeDistinguishedName>> = Vec::new();
        let mut i: usize = 0;
        while i < self.rdns.len()
            invariant
                i <= self.rdns@.len(),
                groups_views(rdns@) == groups_views(self.rdns@.subrange(0, i as int)),
            decreases self.rdns@.len() - i,
        {
            let mut group: Vec<RelativeDistinguishedName> = Vec::new();
            let mut j: usize = 0;
            while j < self.rdns[i].len()
                invariant
                    i < self.rdns@.len(),
                    j <= self.rdns@[i as int]@.len(),
                    group_views(group@) == group_views(
                        self.rdns@[i as int]@.subrange(0, j as int),
                    ),
                decreases self.rdns@[i as int]@.len() - j,
            {
                group.push(self.rdns[i][j].clone());
                proof {
                    assert(self.rdns@[i as int]@.subrange(0, j + 1) =~= self.rdns@[
                        i as int
                    ]@.subrange(0, j as int).push(self.rdns@[i as int]@[j as int]));
                    assert(group_views(self.rdns@[i as int]@.subrange(0, j + 1)) =~= group_views(
                        self.rdns@[i as int]@.subrange(0, j as int),
                    ).push(rdn_view(self.rdns@[i as int]@[j as int])));
                    assert(group_views(group@) =~= group_views(group@.drop_last()).push(
                        rdn_view(group@.last()),
                    ));
                }
                j = j + 1;
            }
            rdns.push(group);
            proof {
                assert(self.rdns@[i as int]@.subrange(
                    0,
                    self.rdns@[i as int]@.len() as int,
                ) =~= self.rdns@[i as int]@);
                assert(self.rdns@.subrange(0, i + 1) =~= self.rdns@.subrange(0, i as int).push(
                    self.rdns@[i as int],
                ));
                assert(groups_views(self.rdns@.subrange(0, i + 1)) =~= groups_views(
                    self.rdns@.subrange(0, i as int),
                ).push(group_views(self.rdns@[i as int]@)));
                assert(groups_views(rdns@) =~= groups_views(rdns@.drop_last()).push(
                    group_views(rdns@.last()@),
                ));
            }
            i = i + 1;
        }
        proof {
            assert(self.rdns@.subrange(0, self.rdns@.len() as int) =~= self.rdns@);
        }
        DistinguishedName { raw: self.raw.clone(), rdns }
    }
}

impl core::str::FromStr for DistinguishedName {
    type Err = DistinguishedNameError;

    fn from_str(s: &str) -> core::result::Result<Self, DistinguishedNameError> {
        Self::parse(s)
    }
}

/// Every attribute/value pair of a name, across all groups, in order.
pub open spec fn flat_rdns(gs: Seq<Seq<(Seq<char>, Seq<char>)>>) -> Seq<(Seq<char>, Seq<char>)>
    decreases gs.len(),
{
    if gs.len() == 0 {
        Seq::empty()
    } else {
        gs[0] + flat_rdns(gs.drop_first())
    }
}

proof fn lemma_flat_rdns_push(gs: Seq<Seq<(Seq<char>, Seq<char>)>>, x: Seq<(Seq<char>, Seq<char>)>)
    ensures
        flat_rdns(gs.push(x)) =~= flat_rdns(gs) + x,
    decreases gs.len(),
{
    let gp = gs.push(x);
    if gs.len() == 0 {
        assert(gp[0] == x);
        assert(gp.drop_first() =~= Seq::<Seq<(Seq<char>, Seq<char>)>>::empty());
        assert(flat_rdns(gp.drop_first()) =~= Seq::<(Seq<char>, Seq<char>)>::empty());
        assert(flat_rdns(gp) =~= x);
        assert(flat_rdns(gs) =~= Seq::<(Seq<char>, Seq<char>)>::empty());
    } else {
        assert(gp[0] == gs[0]);
        assert(gp.drop_first() =~= gs.drop_first().push(x));
        lemma_flat_rdns_push(gs.drop_first(), x);
        assert(gs[0] + (flat_rdns(gs.drop_first()) + x) =~= (gs[0] + flat_rdns(gs.drop_first()))
            + x);
    }
}

/// The value of the first pair whose attribute matches, ASCII
/// case-insensitively.
pub open spec fn find_attr(rs: Seq<(Seq<char>, Seq<char>)>, attribute: Seq<char>) -> Option<
    Seq<char>,
>
    decreases rs.len(),
{
    if rs.len() == 0 {
        None
    } else if lower_chars(rs[0].0) == lower_chars(attribute) {
        Some(rs[0].1)
    } else {
        find_attr(rs.drop_first(), attribute)
    }
}

/// Whether a pair matches the attribute and value, both ASCII
/// case-insensitively.
pub open spec fn matches_pair(r: (Seq<char>, Seq<char>), attribute: Seq<char>, value: Seq<char>) -> bool {
    lower_chars(r.0) == lower_chars(attribute) && lower_chars(r.1) == lower_chars(value)
}

} // verus!
