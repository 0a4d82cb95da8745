//! The launch URL of a window: the document to load, and the query
//! parameters that tell the hosted UI what to run and how to look.

use vstd::prelude::*;
use vstd::string::*;
use vstd::utf8::encode_utf8;
use crate::json::{json_of_strings, strings_to_json};
use crate::prefs::{optional_prefs, prefs_json, prefs_to_json, PrefsView, SubwindowPrefs};
use crate::text::{join, joined, texts};

verus! {

/// Whether a byte stands for itself in a percent-encoded text: the ASCII
/// letters and digits, and `-`, `.`, `_`, `~`.
pub open spec fn is_unreserved(byte: u8) -> bool {
    ||| 0x30 <= byte <= 0x39
    ||| 0x41 <= byte <= 0x5a
    ||| 0x61 <= byte <= 0x7a
    ||| byte == 0x2d
    ||| byte == 0x2e
    ||| byte == 0x5f
    ||| byte == 0x7e
}

/// The upper-case hexadecimal digit for a value below sixteen.
pub open spec fn hex_digit(value: u8) -> char {
    if value < 10 {
        ((0x30 + value) as u8) as char
    } else {
        ((0x37 + value) as u8) as char
    }
}

/// The percent-encoding of one byte.
pub open spec fn percent_encoded_byte(byte: u8) -> Seq<char> {
    if is_unreserved(byte) {
        seq![byte as char]
    } else {
        seq!['%', hex_digit(byte / 16), hex_digit(byte % 16)]
    }
}

/// The percent-encoding of a run of bytes.
pub open spec fn percent_encoded_bytes(bytes: Seq<u8>) -> Seq<char>
    decreases bytes.len(),
{
    if bytes.len() == 0 {
        Seq::empty()
    } else {
        percent_encoded_bytes(bytes.drop_last()) + percent_encoded_byte(bytes.last())
    }
}

/// The percent-encoding of a text: that of its UTF-8 bytes.
pub open spec fn percent_encoded(text: Seq<char>) -> Seq<char> {
    percent_encoded_bytes(encode_utf8(text))
}

/// Calls `urlencoding::encode` and takes the result as an owned string.
/// The crate documents that it percent-encodes every byte of the UTF-8 text
/// except ASCII letters, digits, `-`, `_`, `.` and `~`; its source writes the
/// two hexadecimal digits in upper case. The contract states exactly that.
#[verifier::external_body]
pub(crate) fn percent_encode(text: &str) -> (r: String)
    ensures
        r@ == percent_encoded(text@),
{
    urlencoding::encode(text).into_owned()
}

/// The document that every window loads.
pub open spec fn base_document() -> Seq<char> {
    "index.html"@
}

/// The name of the parameter that carries the argument vector.
pub open spec fn argv_parameter_name() -> Seq<char> {
    "executeThisArgvPlease"@
}

/// The name of the parameter that carries the window preferences.
pub open spec fn prefs_parameter_name() -> Seq<char> {
    "subwindow"@
}

/// One query parameter: the name, `=`, and the percent-encoded value.
pub open spec fn query_parameter_text(name: Seq<char>, value: Seq<char>) -> Seq<char> {
    name + "="@ + percent_encoded(value)
}

/// The URL made of the base document and the given query parameters.
pub open spec fn url_text(parameters: Seq<Seq<char>>) -> Seq<char> {
    if parameters.len() == 0 {
        base_document()
    } else {
        base_document() + "?"@ + joined(parameters, "&"@)
    }
}

/// The text of a serialization outcome: what was written, or nothing at
/// all when the serializer failed.
pub open spec fn text_or_empty(outcome: Option<Seq<char>>) -> Seq<char> {
    match outcome {
        Some(text) => text,
        None => Seq::empty(),
    }
}

/// The JSON text that stands for an argument vector in the launch URL.
pub open spec fn argv_json(argv: Seq<Seq<char>>) -> Seq<char> {
    text_or_empty(json_of_strings(argv))
}

/// The query parameters of a launch URL: the argument vector if one was
/// supplied, then the preferences if any were supplied.
pub open spec fn launch_parameters(argv: Option<Seq<Seq<char>>>, prefs: Option<PrefsView>) -> Seq<
    Seq<char>,
> {
    let first = match argv {
        Some(list) => seq![query_parameter_text(argv_parameter_name(), argv_json(list))],
        None => Seq::empty(),
    };
    let second = match prefs {
        Some(p) => seq![query_parameter_text(prefs_parameter_name(), prefs_json(p))],
        None => Seq::empty(),
    };
    first + second
}

/// The launch URL for the given inputs.
pub open spec fn launch_url_text(argv: Option<Seq<Seq<char>>>, prefs: Option<PrefsView>) -> Seq<
    char,
> {
    url_text(launch_parameters(argv, prefs))
}

/// The texts of an optional list of strings.
pub open spec fn optional_texts(argv: Option<Vec<String>>) -> Option<Seq<Seq<char>>> {
    match argv {
        Some(list) => Some(texts(list@)),
        None => None,
    }
}

/// Whether a character can stand in a percent-encoded text: an ASCII letter
/// or digit, one of `-`, `.`, `_`, `~`, or the `%` that starts an escape.
pub open spec fn is_plain(c: char) -> bool {
    let n = c as u32;
    ||| 0x30 <= n <= 0x39
    ||| 0x41 <= n <= 0x5a
    ||| 0x61 <= n <= 0x7a
    ||| n == 0x2d
    ||| n == 0x2e
    ||| n == 0x5f
    ||| n == 0x7e
    ||| n == 0x25
}

/// A percent-encoded text holds plain characters only. In particular it
/// holds none of `&`, `=`, `?` and `#`, which give a URL its structure.
pub proof fn lemma_percent_encoded_is_plain(bytes: Seq<u8>)
    ensures
        forall|i: int|
            0 <= i < percent_encoded_bytes(bytes).len() ==> is_plain(
                #[trigger] percent_encoded_bytes(bytes)[i],
            ),
        !is_plain('&') && !is_plain('=') && !is_plain('?') && !is_plain('#'),
    decreases bytes.len(),
{
    if bytes.len() > 0 {
        lemma_percent_encoded_is_plain(bytes.drop_last());
        let byte = bytes.last();
        let head = percent_encoded_bytes(bytes.drop_last());
        let tail = percent_encoded_byte(byte);
        assert(is_plain('%'));
        assert(is_plain(hex_digit(byte / 16)));
        assert(is_plain(hex_digit(byte % 16)));
        assert forall|i: int| 0 <= i < tail.len() implies is_plain(#[trigger] tail[i]) by {}
        assert forall|i: int| 0 <= i < (head + tail).len() implies is_plain(
            #[trigger] (head + tail)[i],
        ) by {
            if i >= head.len() {
                assert((head + tail)[i] == tail[i - head.len()]);
            }
        }
    }
}

/// After its name and the `=`, a query parameter holds plain characters only.
pub proof fn lemma_query_value_is_plain(name: Seq<char>, value: Seq<char>)
    ensures
        query_parameter_text(name, value).len() == name.len() + 1 + percent_encoded(value).len(),
        forall|i: int|
            name.len() < i < query_parameter_text(name, value).len() ==> is_plain(
                #[trigger] query_parameter_text(name, value)[i],
            ),
{
    reveal_strlit("=");
    lemma_percent_encoded_is_plain(encode_utf8(value));
    let text = query_parameter_text(name, value);
    assert forall|i: int| name.len() < i < text.len() implies is_plain(#[trigger] text[i]) by {
        assert(text[i] == percent_encoded(value)[i - name.len() - 1]);
    }
}

/// A launch URL is the bare base document exactly when neither an argument
/// vector nor preferences were supplied; otherwise a query follows it.
pub proof fn lemma_query_iff_inputs(argv: Option<Seq<Seq<char>>>, prefs: Option<PrefsView>)
    ensures
        launch_parameters(argv, prefs).len() == (if argv is Some {
            1int
        } else {
            0int
        }) + (if prefs is Some {
            1int
        } else {
            0int
        }),
        launch_url_text(argv, prefs) == base_document() <==> argv is None && prefs is None,
        argv is Some || prefs is Some ==> launch_url_text(argv, prefs).len() > base_document().len()
            && launch_url_text(argv, prefs).subrange(0, base_document().len() as int)
            == base_document() && launch_url_text(argv, prefs)[base_document().len() as int]
            == '?',
{
    reveal_strlit("?");
    if argv is Some || prefs is Some {
        let url = launch_url_text(argv, prefs);
        assert(url.subrange(0, base_document().len() as int) =~= base_document());
    }
}

/// Builds one query parameter from a name and the value to encode.
pub fn query_parameter(name: &str, value: &str) -> (r: String)
    ensures
        r@ == query_parameter_text(name@, value@),
{
    let mut out = String::from_str(name);
    out.append("=");
    let encoded = percent_encode(value);
    out.append(encoded.as_str());
    out
}

/// Builds the URL made of the base document and the given query parameters.
pub fn assemble_url(parameters: &Vec<String>) -> (r: String)
    ensures
        r@ == url_text(texts(parameters@)),
{
    let mut out = String::from_str("index.html");
    if parameters.len() > 0 {
        out.append("?");
        let query = join(parameters, "&");
        out.append(query.as_str());
    }
    out
}

/// Takes the text out of a serialization result; a failure gives the empty
/// text, so that serializing never stops a window from being created.
pub fn serialized_or_empty(outcome: Result<String, serde_json::Error>) -> (r: String)
    ensures
        r@ == match outcome {
            Ok(text) => text@,
            Err(_) => Seq::<char>::empty(),
        },
{
    match outcome {
        Ok(text) => text,
        Err(_) => String::new(),
    }
}

/// Resolves the launch URL of a window from the argument vector to replay
/// and the preferences of the window, either of which may be absent.
pub fn launch_url(argv: &Option<Vec<String>>, prefs: &Option<SubwindowPrefs>) -> (r: String)
    ensures
        r@ == launch_url_text(optional_texts(*argv), optional_prefs(*prefs)),
{
    let mut parameters: Vec<String> = Vec::new();
    match argv {
        Some(list) => {
            let json = serialized_or_empty(strings_to_json(list));
            parameters.push(query_parameter("executeThisArgvPlease", json.as_str()));
        },
        None => {},
    }
    match prefs {
        Some(p) => {
            let json = prefs_to_json(p);
            parameters.push(query_parameter("subwindow", json.as_str()));
        },
        None => {},
    }
    assert(texts(parameters@) =~= launch_parameters(optional_texts(*argv), optional_prefs(*prefs)));
    assemble_url(&parameters)
}

} // verus!
