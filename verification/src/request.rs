//! The token-status query.

use vstd::prelude::*;
use vstd::string::*;
use vstd::utf8::encode_utf8;
use crate::config::Config;
use crate::directive::{lemma_split_joined, separator, spec_key, spec_value};
use crate::escape::{
    escape, lemma_escaped_is_inert, lemma_unescape_escape, spec_escape, spec_unescape,
};

verus! {

/// Seconds after which an unanswered status query is given up.
pub const QUERY_TIMEOUT_SECS: u64 = 10;

/// The character that parts the parameters of a query string.
pub open spec fn delimiter() -> char {
    '&'
}

/// One parameter of a query string: its name, `=` and its escaped value.
pub open spec fn spec_parameter(name: Seq<char>, value: Seq<char>) -> Seq<char> {
    name + seq![separator()] + spec_escape(value)
}

/// The query string of a status query: the user as `id`, then `service`,
/// then the credential as `authKey`.
pub open spec fn spec_query(user: Seq<char>, service: Seq<char>, auth_key: Seq<char>) -> Seq<
    char,
> {
    spec_parameter("id"@, user) + seq![delimiter()] + spec_parameter("service"@, service) + seq![
        delimiter(),
    ] + spec_parameter("authKey"@, auth_key)
}

/// The address that the token status of `user` is asked at.
pub open spec fn spec_status_url(
    host: Seq<char>,
    user: Seq<char>,
    service: Seq<char>,
    auth_key: Seq<char>,
) -> Seq<char> {
    "https://"@ + host + "/token/status?"@ + spec_query(user, service, auth_key)
}

/// Builds one parameter of a query string.
pub fn parameter(name: &str, value: &str) -> (text: String)
    ensures
        text@ == spec_parameter(name@, value@),
{
    proof {
        reveal_strlit("=");
        assert("="@ == seq![separator()]);
    }
    let mut text = name.to_owned();
    text.append("=");
    text.append(escape(value).as_str());
    text
}

/// Builds the address of the status query for `user`.
pub fn status_url(config: &Config, user: &str) -> (url: String)
    ensures
        url@ == spec_status_url(config@.host, user@, config@.service, config@.auth_key),
{
    proof {
        reveal_strlit("&");
        assert("&"@ == seq![delimiter()]);
    }
    let mut query = parameter("id", user);
    query.append("&");
    query.append(parameter("service", config.service()).as_str());
    query.append("&");
    query.append(parameter("authKey", config.auth_key()).as_str());
    let mut url = "https://".to_owned();
    url.append(config.host());
    url.append("/token/status?");
    url.append(query.as_str());
    url
}

/// The fields of a query string: what stands between its delimiters.
pub open spec fn spec_fields(query: Seq<char>) -> Seq<Seq<char>>
    decreases query.len(),
{
    if query.len() == 0 {
        seq![Seq::empty()]
    } else {
        let before = spec_fields(query.drop_last());
        if query.last() == delimiter() {
            before.push(Seq::empty())
        } else {
            before.drop_last().push(before.last().push(query.last()))
        }
    }
}

/// The parameters that the receiver of a query string reads from it: for
/// each field its name and the bytes that its value stands for.
pub open spec fn spec_parameters(query: Seq<char>) -> Seq<(Seq<char>, Option<Seq<u8>>)> {
    spec_fields(query).map_values(
        |field: Seq<char>| (spec_key(field), spec_unescape(spec_value(field))),
    )
}

/// A text has no delimiter in it.
pub open spec fn is_one_field(text: Seq<char>) -> bool {
    forall|i: int| 0 <= i < text.len() ==> text[i] != delimiter()
}

/// A query string has at least one field.
pub proof fn lemma_fields_nonempty(query: Seq<char>)
    ensures
        spec_fields(query).len() >= 1,
    decreases query.len(),
{
    if query.len() > 0 {
        lemma_fields_nonempty(query.drop_last());
    }
}

/// Text without a delimiter, put behind a query string, lengthens its last
/// field.
pub proof fn lemma_fields_extend(query: Seq<char>, text: Seq<char>)
    requires
        is_one_field(text),
    ensures
        spec_fields(query).len() >= 1,
        spec_fields(query + text) == spec_fields(query).drop_last().push(
            spec_fields(query).last() + text,
        ),
    decreases text.len(),
{
    lemma_fields_nonempty(query);
    if text.len() == 0 {
        assert(query + text == query);
        assert(spec_fields(query).last() + text == spec_fields(query).last());
        assert(spec_fields(query).drop_last().push(spec_fields(query).last()) == spec_fields(
            query,
        ));
    } else {
        let shorter = text.drop_last();
        assert(is_one_field(shorter)) by {
            assert forall|i: int| 0 <= i < shorter.len() implies shorter[i] != delimiter() by {
                assert(shorter[i] == text[i]);
            }
        }
        lemma_fields_extend(query, shorter);
        assert((query + text).drop_last() == query + shorter);
        assert((query + text).last() == text.last());
        assert(text.last() != delimiter());
        assert((spec_fields(query).last() + shorter).push(text.last()) == spec_fields(
            query,
        ).last() + text) by {
            assert(shorter.push(text.last()) == text);
        }
        let before = spec_fields(query + shorter);
        assert(before.drop_last() == spec_fields(query).drop_last());
    }
}

/// A delimiter and text without one, put behind a query string, add one
/// field to it: that text.
pub proof fn lemma_fields_add(query: Seq<char>, text: Seq<char>)
    requires
        is_one_field(text),
    ensures
        spec_fields(query + seq![delimiter()] + text) == spec_fields(query).push(text),
{
    let opened = query + seq![delimiter()];
    assert(opened.drop_last() == query);
    assert(spec_fields(opened) == spec_fields(query).push(Seq::empty()));
    lemma_fields_extend(opened, text);
    assert(Seq::<char>::empty() + text == text);
    assert(spec_fields(opened).drop_last() == spec_fields(query));
}

/// A parameter whose name holds neither delimiter nor separator is one
/// field, from which the receiver reads that name and the UTF-8 bytes of
/// the value.
pub proof fn lemma_parameter_reads_back(name: Seq<char>, value: Seq<char>)
    requires
        forall|i: int| 0 <= i < name.len() ==> name[i] != separator() && name[i] != delimiter(),
    ensures
        is_one_field(spec_parameter(name, value)),
        spec_key(spec_parameter(name, value)) == name,
        spec_unescape(spec_value(spec_parameter(name, value))) == Some(encode_utf8(value)),
{
    let escaped = spec_escape(value);
    let text = spec_parameter(name, value);
    lemma_escaped_is_inert(encode_utf8(value));
    lemma_unescape_escape(value);
    lemma_split_joined(name, escaped);
    assert forall|i: int| 0 <= i < text.len() implies text[i] != delimiter() by {
        if i < name.len() {
            assert(text[i] == name[i]);
        } else if i == name.len() {
            assert(text[i] == separator());
        } else {
            assert(text[i] == escaped[i - name.len() - 1]);
        }
    }
}

/// Law: the query string carries exactly three parameters, and its receiver
/// reads them as `id` with the user, `service` with the service and
/// `authKey` with the credential, each value byte for byte as it was given,
/// whatever characters it holds.
pub proof fn lemma_query_parameters(user: Seq<char>, service: Seq<char>, auth_key: Seq<char>)
    ensures
        spec_parameters(spec_query(user, service, auth_key)) == seq![
            ("id"@, Some(encode_utf8(user))),
            ("service"@, Some(encode_utf8(service))),
            ("authKey"@, Some(encode_utf8(auth_key))),
        ],
{
    reveal_strlit("id");
    reveal_strlit("service");
    reveal_strlit("authKey");
    let first = spec_parameter("id"@, user);
    let second = spec_parameter("service"@, service);
    let third = spec_parameter("authKey"@, auth_key);
    lemma_parameter_reads_back("id"@, user);
    lemma_parameter_reads_back("service"@, service);
    lemma_parameter_reads_back("authKey"@, auth_key);
    assert(spec_fields(first) == seq![first]) by {
        lemma_fields_extend(Seq::empty(), first);
        assert(Seq::<char>::empty() + first == first);
        assert(spec_fields(Seq::<char>::empty()) == seq![Seq::<char>::empty()]);
    }
    lemma_fields_add(first, second);
    lemma_fields_add(first + seq![delimiter()] + second, third);
    let fields = spec_fields(spec_query(user, service, auth_key));
    assert(fields == seq![first, second, third]);
    assert(spec_parameters(spec_query(user, service, auth_key)) == seq![
        ("id"@, Some(encode_utf8(user))),
        ("service"@, Some(encode_utf8(service))),
        ("authKey"@, Some(encode_utf8(auth_key))),
    ]);
}

} // verus!
