//! The answers of the HTTP handlers.
use crate::http::filter::{
    env_filter_from_str, env_filter_parse_error, is_ascii_char, is_parsable_filter_text,
    is_simple_filter_text, lemma_ascii_filter_text_is_parsable, lemma_simple_filter_text_is_parsable, parsable_filter_text, ParsedFilter,
};
use vstd::prelude::*;

verus! {

/// An HTTP answer: its status code and body.
#[derive(Clone, Debug)]
pub struct HttpReply {
    pub status: u16,
    pub body: String,
}

/// The lower-case hexadecimal digit of `n`, from 0 to 15.
pub open spec fn hex_digit(n: int) -> char {
    if n < 10 {
        (48 + n) as char
    } else {
        (87 + n) as char
    }
}

/// How a JSON string literal writes the character `c`: '"' and '\' behind a
/// '\'; backspace, tab, line feed, form feed and carriage return as `\b`,
/// `\t`, `\n`, `\f` and `\r`; the other control characters as `\u00`
/// and two lower-case hexadecimal digits; every other character as it is.
pub open spec fn json_escaped_char(c: char) -> Seq<char> {
    let u = c as u32;
    if c == '"' || c == '\\' {
        seq!['\\', c]
    } else if u == 0x08 {
        seq!['\\', 'b']
    } else if u == 0x09 {
        seq!['\\', 't']
    } else if u == 0x0A {
        seq!['\\', 'n']
    } else if u == 0x0C {
        seq!['\\', 'f']
    } else if u == 0x0D {
        seq!['\\', 'r']
    } else if u < 0x20 {
        seq!['\\', 'u', '0', '0', hex_digit(u as int / 16), hex_digit(u as int % 16)]
    } else {
        seq![c]
    }
}

/// The characters of `s`, each written as a JSON string literal writes it.
pub open spec fn json_escaped(s: Seq<char>) -> Seq<char>
    decreases s.len(),
{
    if s.len() == 0 {
        Seq::empty()
    } else {
        json_escaped(s.drop_last()) + json_escaped_char(s.last())
    }
}

/// The JSON string literal of `s`, as `serde_json::to_string` writes it:
/// the escaped characters between double quotes.
pub open spec fn json_string_text(s: Seq<char>) -> Seq<char> {
    seq!['"'] + json_escaped(s) + seq!['"']
}

/// A character that a JSON string literal holds as it is: not a control
/// character, not '"' and not '\'.
pub open spec fn json_plain_char(c: char) -> bool {
    &&& c as u32 >= 0x20
    &&& c != '"'
    &&& c != '\\'
}

/// Calls `serde_json::to_string` on a string. Serialising a string cannot
/// fail, so the `Err` case never occurs. The contract states serde_json's
/// escape table (`json_string_text`).
#[verifier::external_body]
fn json_string(s: &str) -> (j: String)
    ensures
        j@ == json_string_text(s@),
{
    serde_json::to_string(s).unwrap_or_default()
}

/// The JSON object `{"response": v}` in compact form, `v` given as JSON text.
pub open spec fn response_object(value_json: Seq<char>) -> Seq<char> {
    "{\"response\":"@ + value_json + "}"@
}

/// The JSON string literal of a text of plain characters: the text between
/// double quotes.
pub open spec fn quoted(s: Seq<char>) -> Seq<char> {
    seq!['"'] + s + seq!['"']
}

/// Every character of `s` stands in a JSON string as it is.
pub open spec fn all_plain(s: Seq<char>) -> bool {
    forall|i: int| 0 <= i < s.len() ==> json_plain_char(#[trigger] s[i])
}

/// A text of plain characters is its own JSON escape, so its JSON string
/// literal is the text between double quotes.
pub proof fn lemma_plain_text_is_quoted(s: Seq<char>)
    requires
        all_plain(s),
    ensures
        json_escaped(s) == s,
        json_string_text(s) == quoted(s),
    decreases s.len(),
{
    if s.len() > 0 {
        let rest = s.drop_last();
        assert(all_plain(rest)) by {
            assert forall|i: int| 0 <= i < rest.len() implies json_plain_char(#[trigger] rest[i]) by {
                assert(rest[i] == s[i]);
            }
        }
        lemma_plain_text_is_quoted(rest);
        assert(json_plain_char(s[s.len() - 1]));
        assert(json_escaped_char(s.last()) == seq![s.last()]);
        assert(rest + seq![s.last()] =~= s);
    }
    assert(json_string_text(s) =~= quoted(s));
}

/// The body `{"response": <value_json>}`.
pub fn response_body(value_json: &str) -> (body: String)
    ensures
        body@ == response_object(value_json@),
{
    let key = json_string("response");
    proof {
        reveal_strlit("response");
        reveal_strlit("{");
        reveal_strlit(":");
        reveal_strlit("{\"response\":");
        assert(all_plain("response"@));
        lemma_plain_text_is_quoted("response"@);
        assert("{"@ + quoted("response"@) + ":"@ =~= "{\"response\":"@);
    }
    let body = String::from_str("{").concat(key.as_str()).concat(":").concat(value_json).concat("}");
    proof {
        assert(body@ =~= ("{"@ + quoted("response"@) + ":"@) + value_json@ + "}"@);
    }
    body
}

/// The body `{"response": "<message>"}`, the message as a JSON string. A
/// message of plain characters stands in it as it is.
pub fn message_body(message: &str) -> (body: String)
    ensures
        body@ == response_object(json_string_text(message@)),
        all_plain(message@) ==> body@ == response_object(quoted(message@)),
{
    let value = json_string(message);
    proof {
        if all_plain(message@) {
            lemma_plain_text_is_quoted(message@);
        }
    }
    response_body(value.as_str())
}

/// The JSON array of the strings `items`, in compact form.
pub open spec fn json_string_array(items: Seq<Seq<char>>) -> Seq<char> {
    "["@ + json_string_list(items) + "]"@
}

/// The JSON strings of `items`, separated by ','.
pub open spec fn json_string_list(items: Seq<Seq<char>>) -> Seq<char>
    decreases items.len(),
{
    if items.len() == 0 {
        Seq::empty()
    } else if items.len() == 1 {
        json_string_text(items[0])
    } else {
        json_string_list(items.drop_last()) + ","@ + json_string_text(items.last())
    }
}

/// The JSON strings of a list are joined by one ',' each: the list of one
/// key is that key's JSON string, and the list of two nonempty lists put
/// end to end is the first's text, ',', and the second's. These two facts fix
/// the text of every nonempty list.
pub proof fn lemma_json_list_joins_with_commas(a: Seq<Seq<char>>, b: Seq<Seq<char>>)
    requires
        a.len() > 0,
        b.len() > 0,
    ensures
        json_string_list(seq![a[0]]) == json_string_text(a[0]),
        json_string_list(a + b) == json_string_list(a) + ","@ + json_string_list(b),
        json_string_array(a + b) == "["@ + json_string_list(a) + ","@ + json_string_list(b) + "]"@,
    decreases b.len(),
{
    if b.len() == 1 {
        assert((a + b).drop_last() =~= a);
        assert((a + b).last() == b[0]);
    } else {
        lemma_json_list_joins_with_commas(a, b.drop_last());
        assert((a + b).drop_last() =~= a + b.drop_last());
        assert((a + b).last() == b.last());
        assert(json_string_list(a + b) =~= json_string_list(a) + ","@ + json_string_list(b));
    }
}

/// The answer to a backup request: accepted, the run goes on in the background.
pub fn backup_accepted_reply() -> (reply: HttpReply)
    ensures
        reply.status == 200,
        reply.body@ == response_object(quoted("Your backup request's been recorded."@)),
{
    proof {
        reveal_strlit("Your backup request's been recorded.");
        assert(all_plain("Your backup request's been recorded."@));
    }
    HttpReply { status: 200, body: message_body("Your backup request's been recorded.") }
}

/// The answer to a listing request: the stored keys, in order, as a JSON array.
pub fn list_reply(keys: &Vec<String>) -> (reply: HttpReply)
    ensures
        reply.status == 200,
        reply.body@ == response_object(json_string_array(keys.deep_view())),
{
    let ghost dv = keys.deep_view();
    let mut list = String::new();
    let mut i: usize = 0;
    assert(dv.take(0) =~= Seq::<Seq<char>>::empty());
    while i < keys.len()
        invariant
            dv == keys.deep_view(),
            i <= keys.len(),
            list@ == json_string_list(dv.take(i as int)),
        decreases keys.len() - i,
    {
        let item = json_string(keys[i].as_str());
        assert(dv[i as int] == keys@[i as int]@);
        assert(dv.take(i + 1).drop_last() =~= dv.take(i as int));
        assert(dv.take(i + 1).last() == dv[i as int]);
        if i == 0 {
            list = item;
            assert(dv.take(1)[0] == dv[0]);
        } else {
            list = list.concat(",").concat(item.as_str());
        }
        i = i + 1;
    }
    assert(dv.take(keys.len() as int) =~= dv);
    let array = String::from_str("[").concat(list.as_str()).concat("]");
    HttpReply { status: 200, body: response_body(array.as_str()) }
}

/// The answer to a filter change, from the outcome of reloading the log
/// filter: 200 with `{"response":"OK"}` when it was reloaded, else 404 with
/// the reload error, given as its debug text.
pub fn filter_reply(reload: Result<(), String>) -> (reply: HttpReply)
    ensures
        reload is Ok ==> reply.status == 200 && reply.body@ == response_object(quoted("OK"@)),
        reload matches Err(e) ==> reply.status == 404 && reply.body@ == "Reloading error: "@
            + e@,
{
    match reload {
        Ok(()) => {
            proof {
                reveal_strlit("OK");
                assert(all_plain("OK"@));
            }
            HttpReply { status: 200, body: message_body("OK") }
        },
        Err(e) => HttpReply {
            status: 404,
            body: String::from_str("Reloading error: ").concat(e.as_str()),
        },
    }
}

/// The log filter that a filter change asks for, kept with the text it was
/// parsed from. A text on which the filter parser would panic (a directive
/// with leading whitespace that holds a non-ASCII character) is refused; a
/// text that is no valid filter is refused with "Parsing filter error: " and
/// the parse error.
pub fn parse_filter(filter: &str) -> (r: Result<ParsedFilter, String>)
    ensures
        !is_parsable_filter_text(filter@) ==> (r matches Err(e) && e@ == unparsable_filter_message()),
        is_parsable_filter_text(filter@) ==> (r is Ok <==> env_filter_parse_error(filter@) is None),
        is_parsable_filter_text(filter@) ==> (r matches Err(e) ==> e@ == "Parsing filter error: "@
            + env_filter_parse_error(filter@)->0),
        r matches Ok(p) ==> p.source_text() == filter@,
        (forall|j: int| 0 <= j < filter@.len() ==> is_ascii_char(#[trigger] filter@[j])) ==> (r is Ok
            <==> env_filter_parse_error(filter@) is None),
        (forall|j: int| 0 <= j < filter@.len() ==> is_ascii_char(#[trigger] filter@[j])) ==> (r matches Err(
            e,
        ) ==> e@ == "Parsing filter error: "@ + env_filter_parse_error(filter@)->0),
        filter@.len() == 0 ==> r is Ok,
        is_simple_filter_text(filter@) ==> r is Ok,
{
    if !parsable_filter_text(filter) {
        return Err(
            String::from_str(
                "Parsing filter error: a directive with leading whitespace holds a non-ASCII character",
            ),
        );
    }
    proof {
        if is_simple_filter_text(filter@) {
            lemma_simple_filter_text_is_parsable(filter@);
        }
        if forall|j: int| 0 <= j < filter@.len() ==> is_ascii_char(#[trigger] filter@[j]) {
            lemma_ascii_filter_text_is_parsable(filter@);
        }
    }
    match env_filter_from_str(filter) {
        Ok(f) => Ok(f),
        Err(e) => Err(String::from_str("Parsing filter error: ").concat(e.as_str())),
    }
}

/// The message a filter text that would make the parser panic is refused
/// with.
pub open spec fn unparsable_filter_message() -> Seq<char> {
    "Parsing filter error: a directive with leading whitespace holds a non-ASCII character"@
}

/// The answer to a request that no handler takes: 404 with an empty body.
pub fn not_found_reply() -> (reply: HttpReply)
    ensures
        reply.status == 404,
        reply.body@ == Seq::<char>::empty(),
{
    HttpReply { status: 404, body: String::new() }
}

} // verus!
