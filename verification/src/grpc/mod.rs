//! Reading the caller of a gRPC request.

use vstd::prelude::*;
use vstd::string::*;

pub mod status;

use crate::text::{concat3, i64_to_string, int_decimal};
use status::{status_unauthenticated, unauthenticated};

verus! {

#[verifier::external_type_specification]
#[verifier::external_body]
#[verifier::reject_recursive_types(T)]
pub struct ExRequest<T>(tonic::Request<T>);

#[verifier::external_type_specification]
#[verifier::external_body]
pub struct ExToStrError(tonic::metadata::errors::ToStrError);

#[verifier::external_type_specification]
#[verifier::external_body]
pub struct ExParseIntError(std::num::ParseIntError);

/// `c` is an ASCII decimal digit.
pub open spec fn is_digit(c: char) -> bool {
    '0' <= c && c <= '9'
}

/// The value of a string of decimal digits.
pub open spec fn digits_value(s: Seq<char>) -> int
    decreases s.len(),
{
    if s.len() == 0 {
        0
    } else {
        digits_value(s.drop_last()) * 10 + (s.last() as int - '0' as int)
    }
}

/// `s` without its leading `+` or `-`, if it has one.
pub open spec fn unsigned_part(s: Seq<char>) -> Seq<char> {
    if s.len() > 0 && (s[0] == '-' || s[0] == '+') {
        s.drop_first()
    } else {
        s
    }
}

/// Every character of `b` is a decimal digit.
pub open spec fn all_digits(b: Seq<char>) -> bool {
    forall|i: int| 0 <= i < b.len() ==> is_digit(#[trigger] b[i])
}

/// The `i64` that `str::parse` reads from `s`: an optional `+` or `-`, then one or more decimal
/// digits, whose value fits in an `i64`.
pub open spec fn parse_i64_spec(s: Seq<char>) -> Option<int> {
    let body = unsigned_part(s);
    if body.len() == 0 || !all_digits(body) {
        None
    } else {
        let v = if s[0] == '-' {
            -digits_value(body)
        } else {
            digits_value(body)
        };
        if i64::MIN <= v <= i64::MAX {
            Some(v)
        } else {
            None
        }
    }
}

/// A value of digits is never negative.
proof fn lemma_digits_value_nonneg(b: Seq<char>)
    requires
        all_digits(b),
    ensures
        digits_value(b) >= 0,
    decreases b.len(),
{
    if b.len() > 0 {
        lemma_digits_value_nonneg(b.drop_last());
        assert(is_digit(b[b.len() - 1]));
    }
}

/// Reading one more digit: ten times the value so far, plus the digit.
proof fn lemma_digits_value_step(b: Seq<char>, k: int)
    requires
        0 <= k < b.len(),
    ensures
        digits_value(b.take(k + 1)) == digits_value(b.take(k)) * 10 + (b[k] as int - '0' as int),
{
    assert(b.take(k + 1).drop_last() =~= b.take(k));
}

/// The value of a string of digits is at least that of any of its prefixes.
proof fn lemma_digits_value_prefix(b: Seq<char>, j: int)
    requires
        0 <= j <= b.len(),
        all_digits(b),
    ensures
        0 <= digits_value(b.take(j)) <= digits_value(b),
    decreases b.len(),
{
    if j == b.len() {
        assert(b.take(j) =~= b);
        lemma_digits_value_nonneg(b);
    } else {
        let c = b.drop_last();
        assert forall|i: int| 0 <= i < c.len() implies is_digit(#[trigger] c[i]) by {
            assert(c[i] == b[i]);
        }
        assert(all_digits(c));
        lemma_digits_value_prefix(c, j);
        assert(c.take(j) =~= b.take(j));
        assert(is_digit(b[b.len() - 1]));
    }
}

/// Reads the `i64` that `s` writes in decimal, as `str::parse::<i64>` does: an optional `+` or
/// `-`, then one or more digits whose value fits in an `i64`; `None` for any other text.
pub fn parse_i64(s: &str) -> (r: Option<i64>)
    ensures
        match r {
            Some(v) => parse_i64_spec(s@) == Some(v as int),
            None => parse_i64_spec(s@) is None,
        },
{
    let n = s.unicode_len();
    if n == 0 {
        return None;
    }
    let first = s.get_char(0);
    let negative = first == '-';
    let start: usize = if first == '-' || first == '+' {
        1
    } else {
        0
    };
    if start == n {
        return None;
    }
    let ghost body = s@.subrange(start as int, n as int);
    proof {
        if start == 1 {
            assert(body =~= s@.drop_first());
        } else {
            assert(body =~= s@);
        }
    }
    let mut acc: u64 = 0;
    let mut i: usize = start;
    assert(body.take(0) =~= Seq::<char>::empty());
    while i < n
        invariant
            n == s@.len(),
            start <= i <= n,
            start <= 1,
            start < n,
            body == s@.subrange(start as int, n as int),
            body == unsigned_part(s@),
            negative == (s@[0] == '-'),
            forall|k: int| 0 <= k < i - start ==> is_digit(#[trigger] body[k]),
            acc as int == digits_value(body.take(i - start)),
            acc <= 0x8000_0000_0000_0000u64,
        decreases n - i,
    {
        let c = s.get_char(i);
        assert(body[i - start] == c);
        if !('0' <= c && c <= '9') {
            assert(!is_digit(body[i - start]));
            assert(!all_digits(body));
            return None;
        }
        let d: u64 = (c as u32 - 48u32) as u64;
        proof {
            lemma_digits_value_step(body, i - start);
        }
        if acc > 922_337_203_685_477_580u64 || (acc == 922_337_203_685_477_580u64 && d > 8) {
            proof {
                if all_digits(body) {
                    lemma_digits_value_prefix(body, i - start + 1);
                }
            }
            return None;
        }
        acc = acc * 10 + d;
        i = i + 1;
    }
    assert(body.take(n - start) =~= body);
    if negative {
        if acc == 0x8000_0000_0000_0000u64 {
            Some(i64::MIN)
        } else {
            Some(-(acc as i64))
        }
    } else if acc > 0x7FFF_FFFF_FFFF_FFFFu64 {
        None
    } else {
        Some(acc as i64)
    }
}

/// `str::parse::<i64>`, called for the error it gives on a text that writes no `i64`: the
/// number the text writes in decimal, or an error when it writes none that fits.
#[verifier::external_body]
fn std_parse_i64(s: &str) -> (r: Result<i64, std::num::ParseIntError>)
    ensures
        match r {
            Ok(v) => parse_i64_spec(s@) == Some(v as int),
            Err(_) => parse_i64_spec(s@) is None,
        },
{
    s.parse::<i64>()
}

/// The text that `str::parse::<i64>` gives as its error for a text that writes no `i64`.
fn parse_failure_text(s: &str) -> (r: String)
    requires
        parse_i64_spec(s@) is None,
{
    match std_parse_i64(s) {
        Err(e) => parse_error_text(&e),
        Ok(_) => String::new(),
    }
}

/// `ParseIntError::to_string` (its `Display`): the text that describes the error. The standard
/// library does not document the text, so it is left unstated.
#[verifier::external_body]
pub(crate) fn parse_error_text(e: &std::num::ParseIntError) -> (r: String) {
    e.to_string()
}

/// The value of the entry `key` of a request's metadata, read as text: `None` when the entry
/// is missing (or `key` is no valid ASCII key), an error when the value holds other than
/// visible ASCII. This stands for `MetadataMap::get` followed by `MetadataValue::to_str`; the
/// value's type is generic over an encoding trait, so it cannot be carried through verified
/// code by itself. The request has no view here, so which entry came back is left unstated.
#[verifier::external_body]
pub(crate) fn metadata_text<T>(request: &tonic::Request<T>, key: &str) -> (r: Option<
    Result<String, tonic::metadata::errors::ToStrError>,
>) {
    match request.metadata().get(key) {
        Some(value) => Some(match value.to_str() {
            Ok(text) => Ok(text.to_string()),
            Err(e) => Err(e),
        }),
        None => None,
    }
}

/// The caller of a request.
#[derive(Clone, Copy, Debug, Eq, PartialEq, Structural)]
pub struct RequestContext {
    pub user_id: i64,
}

impl RequestContext {
    /// The text that displays the context: `RequestContext { user_id: N }`.
    pub fn to_string(&self) -> (r: String)
        ensures
            r@ == "RequestContext { user_id: "@ + int_decimal(self.user_id as int) + " }"@,
    {
        let id = i64_to_string(self.user_id);
        concat3("RequestContext { user_id: ", id.as_str(), " }")
    }
}

/// The context of a request whose `x-user-id` metadata is `header` (missing, or its text): the
/// caller whose identifier the text writes in decimal; unauthenticated when the entry is
/// missing or the text is not a number.
pub fn context_from_user_id(header: Option<&str>) -> (r: Result<RequestContext, tonic::Status>)
    ensures
        match header {
            None => r == Err::<RequestContext, tonic::Status>(
                unauthenticated("Missing `x-user-id` in metadata"@),
            ),
            Some(text) => match parse_i64_spec(text@) {
                Some(v) => r == Ok::<RequestContext, tonic::Status>(RequestContext { user_id: v as i64 }),
                None => exists|m: Seq<char>| r == Err::<RequestContext, tonic::Status>(unauthenticated(m)),
            },
        },
{
    match header {
        None => Err(status_unauthenticated(String::from_str("Missing `x-user-id` in metadata"))),
        Some(text) => match parse_i64(text) {
            Some(user_id) => Ok(RequestContext { user_id }),
            None => Err(status_unauthenticated(parse_failure_text(text))),
        },
    }
}

/// What a request is answered with when its `x-user-id` entry is `entry`: `None` when the
/// entry is missing, `Some(None)` when its value is not visible ASCII, `Some(Some(text))`
/// otherwise. A number that the text writes gives the caller; the rest is unauthenticated,
/// with the message of the case (that of a text that is no number comes from the parser).
pub open spec fn answers_user_id_entry(
    entry: Option<Option<Seq<char>>>,
    r: Result<RequestContext, tonic::Status>,
) -> bool {
    match entry {
        None => r == Err::<RequestContext, tonic::Status>(
            unauthenticated("Missing `x-user-id` in metadata"@),
        ),
        Some(None) => r == Err::<RequestContext, tonic::Status>(
            unauthenticated("Malformed `x-user-id` in metadata"@),
        ),
        Some(Some(text)) => match parse_i64_spec(text) {
            Some(v) => r == Ok::<RequestContext, tonic::Status>(RequestContext { user_id: v as i64 }),
            None => exists|m: Seq<char>| r == Err::<RequestContext, tonic::Status>(unauthenticated(m)),
        },
    }
}

/// The entry that a read of metadata gave, as `answers_user_id_entry` takes it: `None` when it
/// is missing, `Some(None)` when its value is not visible ASCII, else `Some(Some(text))`.
pub open spec fn entry_of(read: Option<Result<String, tonic::metadata::errors::ToStrError>>) -> Option<
    Option<Seq<char>>,
> {
    match read {
        None => None,
        Some(Err(_)) => Some(None),
        Some(Ok(text)) => Some(Some(text@)),
    }
}

/// `read` is what reading the `x-user-id` entry of the request's metadata returned.
pub closed spec fn user_id_entry_read<T>(
    request: &tonic::Request<T>,
    read: Option<Result<String, tonic::metadata::errors::ToStrError>>,
) -> bool {
    call_ensures(metadata_text::<T>, (request, "x-user-id"), read)
}

/// Reads the `x-user-id` entry of the request's metadata.
pub(crate) fn read_user_id_entry<T>(request: &tonic::Request<T>) -> (read: Option<
    Result<String, tonic::metadata::errors::ToStrError>,
>)
    ensures
        user_id_entry_read(request, read),
{
    let read_entry = metadata_text::<T>;
    read_entry(request, "x-user-id")
}

/// The caller of a request, read from its `x-user-id` metadata: unauthenticated when the entry
/// is missing, is not visible ASCII, or is not a number. The answer is the one for the entry
/// that reading the request's metadata gave.
pub fn extract_context<T>(request: &tonic::Request<T>) -> (r: Result<RequestContext, tonic::Status>)
    ensures
        exists|entry: Option<Option<Seq<char>>>| answers_user_id_entry(entry, r),
        exists|read: Option<Result<String, tonic::metadata::errors::ToStrError>>|
            #[trigger] user_id_entry_read(request, read) && answers_user_id_entry(entry_of(read), r),
{
    let read = read_user_id_entry(request);
    let ghost g = read;
    match read {
        None => {
            let r = context_from_user_id(None);
            assert(answers_user_id_entry(entry_of(g), r));
            r
        },
        Some(Ok(text)) => {
            let r = context_from_user_id(Some(text.as_str()));
            assert(answers_user_id_entry(entry_of(g), r));
            r
        },
        Some(Err(_)) => {
            let r = Err(status_unauthenticated(String::from_str("Malformed `x-user-id` in metadata")));
            assert(answers_user_id_entry(entry_of(g), r));
            r
        },
    }
}

/// Request law: `extract_context` answers the `x-user-id` entry that the request's metadata
/// holds: a text that writes an `i64` gives exactly that caller, a missing entry and a value
/// that is not visible ASCII give their own unauthenticated answers, and any other text is
/// unauthenticated.
pub proof fn lemma_extract_context_answers_the_entry<T>(
    request: &tonic::Request<T>,
    r: Result<RequestContext, tonic::Status>,
)
    requires
        call_ensures(extract_context::<T>, (request,), r),
    ensures
        exists|read: Option<Result<String, tonic::metadata::errors::ToStrError>>|
            #[trigger] user_id_entry_read(request, read) && match read {
                Some(Ok(text)) => match parse_i64_spec(text@) {
                    Some(v) => r == Ok::<RequestContext, tonic::Status>(RequestContext { user_id: v as i64 }),
                    None => r is Err && exists|m: Seq<char>|
                        r == Err::<RequestContext, tonic::Status>(unauthenticated(m)),
                },
                Some(Err(_)) => r == Err::<RequestContext, tonic::Status>(
                    unauthenticated("Malformed `x-user-id` in metadata"@),
                ),
                None => r == Err::<RequestContext, tonic::Status>(
                    unauthenticated("Missing `x-user-id` in metadata"@),
                ),
            },
{
    let read = choose|read: Option<Result<String, tonic::metadata::errors::ToStrError>>|
        #[trigger] user_id_entry_read(request, read) && answers_user_id_entry(entry_of(read), r);
    assert(user_id_entry_read(request, read));
}

} // verus!
