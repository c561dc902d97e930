use vstd::prelude::*;

use crate::messages::WebSocketRequestMessage;
use crate::strutil::eq_ignore_ascii_case_seq;
use crate::strutil::find_colon;
use crate::strutil::is_first_colon;
use crate::strutil::lemma_first_colon_unique;
use crate::strutil::str_eq_ignore_ascii_case;

verus! {

/// What `str::trim` returns on a string with view `s`: the string without its
/// leading and trailing whitespace.
pub uninterp spec fn trimmed_of(s: Seq<char>) -> Seq<char>;

/// What `str::to_lowercase` returns on a string with view `s`: the string
/// case-folded to lower case.
pub uninterp spec fn lower_of(s: Seq<char>) -> Seq<char>;

/// Relies on str::trim: the result depends on the characters alone, and is
/// the input without leading and trailing whitespace.
#[verifier::external_body]
fn trim_str(s: &str) -> (result: String)
    ensures
        result@ == trimmed_of(s@),
{
    s.trim().to_string()
}

/// Relies on str::to_lowercase: the result depends on the characters alone.
#[verifier::external_body]
fn lowercase_str(s: &str) -> (result: String)
    ensures
        result@ == lower_of(s@),
{
    s.to_lowercase()
}

/// The name of the header that carries the server-delivered timestamp.
pub open spec fn spec_timestamp_header_name() -> Seq<char> {
    "X-Signal-Timestamp"@
}

/// A header entry names the timestamp header: it holds a colon, and what
/// stands left of the first colon, once trimmed, equals the timestamp header
/// name up to ASCII case.
pub open spec fn entry_matches(entry: Seq<char>) -> bool {
    exists|i: int|
        is_first_colon(entry, i) && eq_ignore_ascii_case_seq(
            trimmed_of(entry.subrange(0, i)),
            spec_timestamp_header_name(),
        )
}

/// The value of a matching header entry: everything right of the first colon,
/// lower-cased and trimmed. Only the first colon separates, so values that
/// hold a colon stay intact.
pub open spec fn entry_value(entry: Seq<char>) -> Seq<char> {
    let i = choose|i: int| is_first_colon(entry, i);
    trimmed_of(lower_of(entry.subrange(i + 1, entry.len() as int)))
}

/// The value of the first timestamp header among `headers`, if any entry
/// matches.
pub open spec fn spec_find_header(headers: Seq<Seq<char>>) -> Option<Seq<char>>
    decreases headers.len(),
{
    if headers.len() == 0 {
        None
    } else if entry_matches(headers[0]) {
        Some(entry_value(headers[0]))
    } else {
        spec_find_header(headers.drop_first())
    }
}

/// Dropping a prefix without a matching entry leaves the result unchanged.
proof fn lemma_find_header_skip(headers: Seq<Seq<char>>, i: int)
    requires
        0 <= i <= headers.len(),
        forall|j: int| 0 <= j < i ==> !entry_matches(headers[j]),
    ensures
        spec_find_header(headers) == spec_find_header(headers.skip(i)),
    decreases i,
{
    if i == 0 {
        assert(headers.skip(0) =~= headers);
    } else {
        lemma_find_header_skip(headers, i - 1);
        let tail = headers.skip(i - 1);
        assert(tail[0] == headers[i - 1]);
        assert(!entry_matches(tail[0]));
        assert(tail.drop_first() =~= headers.skip(i));
        assert(spec_find_header(tail) == spec_find_header(tail.drop_first()));
    }
}

/// Test one header entry: the name left of the first colon, trimmed, against
/// the timestamp header name, up to ASCII case; on a match, hand back the
/// value right of the first colon, lower-cased and trimmed.
fn try_match_entry(entry: &str) -> (result: Option<String>)
    ensures
        result is Some <==> entry_matches(entry@),
        result matches Some(value) ==> value@ == entry_value(entry@),
{
    match find_colon(entry) {
        Some(i) => {
            let name = entry.substring_char(0, i);
            let trimmed_name = trim_str(name);
            if str_eq_ignore_ascii_case(trimmed_name.as_str(), "X-Signal-Timestamp") {
                proof {
                    assert(entry_matches(entry@));
                    let w = choose|w: int| is_first_colon(entry@, w);
                    lemma_first_colon_unique(entry@, w, i as int);
                }
                let len = entry.unicode_len();
                let raw_value = entry.substring_char(i + 1, len);
                let lowered = lowercase_str(raw_value);
                let value = trim_str(lowered.as_str());
                Some(value)
            } else {
                proof {
                    if entry_matches(entry@) {
                        let w = choose|w: int|
                            is_first_colon(entry@, w) && eq_ignore_ascii_case_seq(
                                trimmed_of(entry@.subrange(0, w)),
                                spec_timestamp_header_name(),
                            );
                        lemma_first_colon_unique(entry@, w, i as int);
                    }
                }
                None
            }
        },
        None => {
            proof {
                if entry_matches(entry@) {
                    let w = choose|w: int|
                        is_first_colon(entry@, w) && eq_ignore_ascii_case_seq(
                            trimmed_of(entry@.subrange(0, w)),
                            spec_timestamp_header_name(),
                        );
                    assert(entry@[w] == ':');
                }
            }
            None
        },
    }
}

/// Scan the request's headers for the server-delivered-timestamp header and
/// hand back the first match's value, lower-cased and trimmed; `None` when no
/// entry matches or the header list is empty.
pub fn find_header(message: &WebSocketRequestMessage) -> (result: Option<String>)
    ensures
        match spec_find_header(message.headers.deep_view()) {
            Some(value) => result matches Some(found) && found@ == value,
            None => result is None,
        },
{
    let ghost entries = message.headers.deep_view();
    let count = message.headers.len();
    let mut i: usize = 0;
    while i < count
        invariant
            i <= count,
            count == entries.len(),
            entries == message.headers.deep_view(),
            forall|j: int| 0 <= j < i ==> !entry_matches(entries[j]),
        decreases count - i,
    {
        proof {
            assert(entries[i as int] == message.headers[i as int]@);
        }
        let found = try_match_entry(message.headers[i].as_str());
        if let Some(value) = found {
            proof {
                lemma_find_header_skip(entries, i as int);
                assert(entries.skip(i as int)[0] == entries[i as int]);
            }
            return Some(value);
        }
        i = i + 1;
    }
    proof {
        lemma_find_header_skip(entries, count as int);
        assert(entries.skip(count as int).len() == 0);
    }
    None
}

} // verus!
