//! Log filter texts: which ones the filter parser takes without panicking,
//! and the filter parsed from a text, kept with the text it came from.
use vstd::prelude::*;

verus! {

#[verifier::external_type_specification]
#[verifier::external_body]
pub struct ExEnvFilter(tracing_subscriber::EnvFilter);

/// A log filter and the text it was parsed from. Only `env_filter_from_str`
/// makes one, from the text it parses, so `source` is always the text of
/// `filter`.
#[derive(Debug)]
pub struct ParsedFilter {
    filter: tracing_subscriber::EnvFilter,
    source: String,
}

impl ParsedFilter {
    /// The text the filter was parsed from.
    pub closed spec fn source_text(self) -> Seq<char> {
        self.source@
    }

    /// The text the filter was parsed from.
    pub fn source(&self) -> (s: &str)
        ensures
            s@ == self.source_text(),
    {
        self.source.as_str()
    }

    /// The filter itself, to install.
    pub fn into_filter(self) -> tracing_subscriber::EnvFilter {
        self.filter
    }
}

/// What parsing `s` as a `tracing_subscriber::EnvFilter` reports: `None`
/// when `s` is a valid filter, else the debug text of the parse error.
pub uninterp spec fn env_filter_parse_error(s: Seq<char>) -> Option<Seq<char>>;

/// Rust's `char::is_whitespace`: the characters of Unicode's White_Space
/// property.
pub open spec fn is_unicode_whitespace(c: char) -> bool {
    let u = c as u32;
    ||| 0x09 <= u <= 0x0D
    ||| u == 0x20 || u == 0x85 || u == 0xA0 || u == 0x1680
    ||| 0x2000 <= u <= 0x200A
    ||| u == 0x2028 || u == 0x2029 || u == 0x202F || u == 0x205F || u == 0x3000
}

pub open spec fn is_ascii_char(c: char) -> bool {
    (c as u32) < 128
}

/// Where the directive that holds position `j` of `s` starts: just after the
/// last ',' before `j`, or at 0.
pub open spec fn directive_start(s: Seq<char>, j: int) -> int
    decreases j,
{
    if j <= 0 {
        0
    } else if s[j - 1] == ',' {
        j
    } else {
        directive_start(s, j - 1)
    }
}

/// A filter text that tracing-subscriber 0.3 parses without panicking: no
/// directive (a piece between commas) that starts with whitespace holds a
/// non-ASCII character. The parser locates the parts of a directive in the
/// directive with its whitespace trimmed but cuts them out of the untrimmed
/// one; that is safe when nothing is trimmed in front, and when the
/// directive is ASCII, where every cut falls between characters.
pub open spec fn is_parsable_filter_text(s: Seq<char>) -> bool {
    forall|j: int|
        0 <= j < s.len() && !#[trigger] is_ascii_char(s[j]) ==> !is_unicode_whitespace(
            s[directive_start(s, j)],
        )
}

/// A character of a target name in a simple filter: an ASCII letter or
/// digit, or '_'.
pub open spec fn is_name_char(c: char) -> bool {
    ('a' <= c && c <= 'z') || ('A' <= c && c <= 'Z') || ('0' <= c && c <= '9') || c == '_'
}

/// A level as a filter directive names it.
pub open spec fn is_level_word(w: Seq<char>) -> bool {
    ||| w == seq!['t', 'r', 'a', 'c', 'e']
    ||| w == seq!['d', 'e', 'b', 'u', 'g']
    ||| w == seq!['i', 'n', 'f', 'o']
    ||| w == seq!['w', 'a', 'r', 'n']
    ||| w == seq!['e', 'r', 'r', 'o', 'r']
    ||| w == seq!['o', 'f', 'f']
}

/// A simple directive: a level or target name alone, or a target name, '='
/// and a level.
pub open spec fn is_simple_directive(d: Seq<char>) -> bool {
    ||| forall|i: int| 0 <= i < d.len() ==> is_name_char(#[trigger] d[i])
    ||| exists|k: int|
        0 < k < d.len() && #[trigger] d[k] == '=' && (forall|i: int|
            0 <= i < k ==> is_name_char(#[trigger] d[i])) && is_level_word(d.subrange(k + 1, d.len() as int))
}

/// A filter text of simple directives separated by ',', such as
/// "trace,hyper=info,mio=info".
pub open spec fn is_simple_filter_text(s: Seq<char>) -> bool {
    &&& forall|j: int| 0 <= j < s.len() ==> is_name_char(#[trigger] s[j]) || s[j] == ',' || s[j] == '='
    &&& forall|i: int, j: int|
        0 <= i <= j <= s.len() && (i == 0 || s[i - 1] == ',') && (j == s.len() || s[j] == ',') && (
        forall|k: int| i <= k < j ==> s[k] != ',') ==> #[trigger] is_simple_directive(s.subrange(i, j))
}

/// Calls `<tracing_subscriber::EnvFilter as FromStr>::from_str` and keeps the
/// filter with its text, or renders the parse error with `{:#?}`. `requires`
/// leaves out the texts on which tracing-subscriber 0.3 can panic (see
/// `is_parsable_filter_text`). The contract names the outcome, and states
/// what the source shows: the empty text is a valid filter, and so is any
/// text of simple directives (a directive that is no level is taken as a
/// target, and a level after '=' is read by `LevelFilter::from_str`).
#[verifier::external_body]
pub(crate) fn env_filter_from_str(s: &str) -> (r: Result<ParsedFilter, String>)
    requires
        is_parsable_filter_text(s@),
    ensures
        r is Ok <==> env_filter_parse_error(s@) is None,
        r matches Err(e) ==> env_filter_parse_error(s@) == Some(e@),
        r matches Ok(p) ==> p.source_text() == s@,
        s@.len() == 0 ==> r is Ok,
        is_simple_filter_text(s@) ==> r is Ok,
{
    match s.parse::<tracing_subscriber::EnvFilter>() {
        Ok(filter) => Ok(ParsedFilter { filter, source: s.to_string() }),
        Err(e) => Err(format!("{:#?}", e)),
    }
}

/// Whether `c` is whitespace, as `char::is_whitespace` says.
fn unicode_whitespace(c: char) -> (ws: bool)
    ensures
        ws == is_unicode_whitespace(c),
{
    let u = c as u32;
    (0x09 <= u && u <= 0x0D) || u == 0x20 || u == 0x85 || u == 0xA0 || u == 0x1680 || (0x2000 <= u
        && u <= 0x200A) || u == 0x2028 || u == 0x2029 || u == 0x202F || u == 0x205F || u == 0x3000
}

/// Whether tracing-subscriber parses `s` without panicking. Every ASCII
/// text is taken.
pub fn parsable_filter_text(s: &str) -> (ok: bool)
    ensures
        ok == is_parsable_filter_text(s@),
        (forall|j: int| 0 <= j < s@.len() ==> is_ascii_char(#[trigger] s@[j])) ==> ok,
{
    proof {
        if forall|j: int| 0 <= j < s@.len() ==> is_ascii_char(#[trigger] s@[j]) {
            lemma_ascii_filter_text_is_parsable(s@);
        }
    }
    let n = s.unicode_len();
    let mut lead_ws = false;
    let mut i: usize = 0;
    while i < n
        invariant
            n == s@.len(),
            i <= n,
            i > 0 ==> lead_ws == is_unicode_whitespace(s@[directive_start(s@, i - 1)]),
            forall|j: int|
                0 <= j < i && !#[trigger] is_ascii_char(s@[j]) ==> !is_unicode_whitespace(
                    s@[directive_start(s@, j)],
                ),
        decreases n - i,
    {
        let c = s.get_char(i);
        if i == 0 || s.get_char(i - 1) == ',' {
            assert(directive_start(s@, i as int) == i);
            lead_ws = unicode_whitespace(c);
        } else {
            assert(directive_start(s@, i as int) == directive_start(s@, i - 1));
        }
        if (c as u32) >= 128 && lead_ws {
            assert(!is_ascii_char(s@[i as int]));
            return false;
        }
        i = i + 1;
    }
    true
}

/// The directive holding position `j` starts at or before `j`, at the
/// text's start or just after a ','.
pub proof fn lemma_directive_start_bounds(s: Seq<char>, j: int)
    requires
        0 <= j <= s.len(),
    ensures
        0 <= directive_start(s, j) <= j,
        directive_start(s, j) == 0 || s[directive_start(s, j) - 1] == ',',
    decreases j,
{
    if j > 0 && s[j - 1] != ',' {
        lemma_directive_start_bounds(s, j - 1);
    }
}

/// Every ASCII text, module paths with "::" and all, is one the parser takes
/// without panicking: only a non-ASCII character can make it panic.
pub proof fn lemma_ascii_filter_text_is_parsable(s: Seq<char>)
    requires
        forall|j: int| 0 <= j < s.len() ==> is_ascii_char(#[trigger] s[j]),
    ensures
        is_parsable_filter_text(s),
{
}

/// A text none of whose directives starts with whitespace is one the parser
/// takes without panicking, whatever characters it holds.
pub proof fn lemma_unindented_filter_text_is_parsable(s: Seq<char>)
    requires
        forall|i: int|
            0 <= i < s.len() && (i == 0 || s[i - 1] == ',') ==> !#[trigger] is_unicode_whitespace(s[i]),
    ensures
        is_parsable_filter_text(s),
{
    assert forall|j: int| 0 <= j < s.len() && !#[trigger] is_ascii_char(s[j]) implies !is_unicode_whitespace(
        s[directive_start(s, j)],
    ) by {
        lemma_directive_start_bounds(s, j);
        let k = directive_start(s, j);
        assert(0 <= k < s.len() && (k == 0 || s[k - 1] == ','));
    }
}

/// A text of simple directives is one the parser takes without panicking:
/// it is ASCII.
pub proof fn lemma_simple_filter_text_is_parsable(s: Seq<char>)
    requires
        is_simple_filter_text(s),
    ensures
        is_parsable_filter_text(s),
{
    assert forall|j: int| 0 <= j < s.len() implies #[trigger] is_ascii_char(s[j]) by {
        assert(is_name_char(s[j]) || s[j] == ',' || s[j] == '=');
    }
}

} // verus!
