use vstd::prelude::*;
use vstd::utf8::{
    decode_utf8, encode_utf8, encode_utf8_decode_utf8, encode_utf8_valid_utf8, valid_utf8,
};
use base64::engine::general_purpose;
use base64::Engine;
use crate::errors::UserError;

verus! {

/// The case-sensitive scheme prefix of a Basic `Authorization` header.
pub const BASIC_PREFIX: &'static str = "Basic ";

/// What base64's standard engine decodes a text to: the bytes, or `None`
/// where the text is not padded standard-alphabet base64.
pub uninterp spec fn base64_standard_decode(s: Seq<char>) -> Option<Seq<u8>>;

/// Relies on base64's `general_purpose::STANDARD.decode` (`Engine::decode`):
/// it returns the decoded bytes or an error, from the text alone.
#[verifier::external_body]
fn decode_base64(s: &str) -> (r: Option<Vec<u8>>)
    ensures
        match r {
            Some(v) => base64_standard_decode(s@) == Some(v@),
            None => base64_standard_decode(s@) is None,
        },
{
    general_purpose::STANDARD.decode(s).ok()
}

/// Relies on `String::from_utf8`: it succeeds exactly on valid UTF-8 and
/// keeps the characters that the bytes encode.
#[verifier::external_body]
fn utf8_string(b: Vec<u8>) -> (r: Option<String>)
    ensures
        r is Some <==> valid_utf8(b@),
        r matches Some(s) ==> s@ == decode_utf8(b@),
{
    String::from_utf8(b).ok()
}

/// A username and password taken from one request. The password is kept
/// out of sight: it is read only through `expose_password`.
pub struct Credentials {
    username: String,
    password: String,
}

impl Credentials {
    /// The username as this value holds it.
    pub closed spec fn username_view(&self) -> Seq<char> {
        self.username@
    }

    /// The password as this value holds it.
    pub closed spec fn password_view(&self) -> Seq<char> {
        self.password@
    }

    pub fn new(username: String, password: String) -> (r: Credentials)
        ensures
            r.username_view() == username@,
            r.password_view() == password@,
    {
        Credentials { username, password }
    }

    pub fn username(&self) -> (r: &str)
        ensures
            r@ == self.username_view(),
    {
        self.username.as_str()
    }

    /// The only way to read the password.
    pub fn expose_password(&self) -> (r: &str)
        ensures
            r@ == self.password_view(),
    {
        self.password.as_str()
    }
}

/// The text after the `Basic ` prefix, if the header starts with it.
pub open spec fn basic_payload(h: Seq<char>) -> Option<Seq<char>> {
    let p = BASIC_PREFIX@;
    if h.len() >= p.len() && h.subrange(0, p.len() as int) == p {
        Some(h.subrange(p.len() as int, h.len() as int))
    } else {
        None
    }
}

/// `i` is the position of the first `:` of `s`.
pub open spec fn is_first_colon(s: Seq<char>, i: int) -> bool {
    &&& 0 <= i < s.len()
    &&& s[i] == ':'
    &&& forall|j: int| 0 <= j < i ==> s[j] != ':'
}

/// `s` split around its first `:`; `None` where it has none.
pub open spec fn split_first_colon(s: Seq<char>) -> Option<(Seq<char>, Seq<char>)> {
    if exists|i: int| is_first_colon(s, i) {
        let i = choose|i: int| is_first_colon(s, i);
        Some((s.subrange(0, i), s.subrange(i + 1, s.len() as int)))
    } else {
        None
    }
}

/// The username and password that a Basic header carries, or `None` where
/// the header is absent, lacks the prefix, is not base64, does not decode to
/// UTF-8 text, or holds no `:`.
pub open spec fn parse_basic(header: Option<Seq<char>>) -> Option<(Seq<char>, Seq<char>)> {
    match header {
        None => None,
        Some(h) => match basic_payload(h) {
            None => None,
            Some(p) => match base64_standard_decode(p) {
                None => None,
                Some(bytes) => if valid_utf8(bytes) {
                    split_first_colon(decode_utf8(bytes))
                } else {
                    None
                },
            },
        },
    }
}

/// The text after the `Basic ` prefix, if `h` starts with it.
pub fn strip_basic_prefix(h: &str) -> (r: Option<&str>)
    ensures
        match r {
            Some(p) => basic_payload(h@) == Some(p@),
            None => basic_payload(h@) is None,
        },
{
    let prefix = BASIC_PREFIX;
    let plen = prefix.unicode_len();
    let hlen = h.unicode_len();
    if hlen < plen {
        return None;
    }
    let mut i: usize = 0;
    while i < plen
        invariant
            plen == prefix@.len(),
            hlen == h@.len(),
            plen <= hlen,
            i <= plen,
            prefix@ == BASIC_PREFIX@,
            forall|j: int| 0 <= j < i ==> h@[j] == prefix@[j],
        decreases plen - i,
    {
        if h.get_char(i) != prefix.get_char(i) {
            assert(h@.subrange(0, plen as int)[i as int] != BASIC_PREFIX@[i as int]);
            return None;
        }
        i = i + 1;
    }
    assert(h@.subrange(0, plen as int) =~= BASIC_PREFIX@);
    Some(h.substring_char(plen, hlen))
}

/// Splits `s` around its first `:`: what precedes it and what follows it.
pub fn split_at_first_colon(s: &str) -> (r: Option<(String, String)>)
    ensures
        match r {
            Some((a, b)) => split_first_colon(s@) == Some((a@, b@)),
            None => split_first_colon(s@) is None,
        },
{
    let n = s.unicode_len();
    let mut i: usize = 0;
    while i < n
        invariant
            n == s@.len(),
            i <= n,
            forall|j: int| 0 <= j < i ==> s@[j] != ':',
        decreases n - i,
    {
        if s.get_char(i) == ':' {
            assert(is_first_colon(s@, i as int));
            proof {
                let k = choose|k: int| is_first_colon(s@, k);
                assert(k == i) by {
                    if k < i {
                        assert(s@[k] != ':');
                    } else if k > i {
                        assert(s@[i as int] != ':');
                    }
                }
            }
            let before = String::from_str(s.substring_char(0, i));
            let after = String::from_str(s.substring_char(i + 1, n));
            return Some((before, after));
        }
        i = i + 1;
    }
    assert(!exists|k: int| is_first_colon(s@, k));
    None
}

/// Reads the credentials of an HTTP Basic `Authorization` header value.
/// Every malformed header gives a `ValidationError`.
pub fn basic_authentication(header: Option<&str>) -> (r: Result<Credentials, UserError>)
    ensures
        r is Ok <==> parse_basic(header.deep_view()) is Some,
        r matches Ok(c) ==> parse_basic(header.deep_view()) == Some(
            (c.username_view(), c.password_view()),
        ),
        r matches Err(e) ==> e is ValidationError,
{
    let h = match header {
        Some(h) => h,
        None => {
            return Err(
                UserError::ValidationError(
                    String::from_str("The 'Authorization' header was missing"),
                ),
            );
        },
    };
    let payload = match strip_basic_prefix(h) {
        Some(p) => p,
        None => {
            return Err(
                UserError::ValidationError(
                    String::from_str("The authorization scheme was not 'Basic'."),
                ),
            );
        },
    };
    let bytes = match decode_base64(payload) {
        Some(b) => b,
        None => {
            return Err(
                UserError::ValidationError(
                    String::from_str("Failed to base64-decode 'Basic' credentials."),
                ),
            );
        },
    };
    let ghost decoded_bytes = bytes@;
    let text = match utf8_string(bytes) {
        Some(t) => t,
        None => {
            return Err(
                UserError::ValidationError(
                    String::from_str("The decoded credential string is not valid UTF8."),
                ),
            );
        },
    };
    assert(text@ == decode_utf8(decoded_bytes));
    match split_at_first_colon(text.as_str()) {
        Some((username, password)) => Ok(Credentials::new(username, password)),
        None => Err(
            UserError::ValidationError(
                String::from_str("A password must be provided in 'Basic' auth."),
            ),
        ),
    }
}

/// A header `Basic ` + base64 of `username:password` yields that username
/// and password, where the username holds no `:`; the password may hold any
/// number of them, since only the first `:` splits.
pub proof fn basic_header_yields_its_credentials(
    encoded: Seq<char>,
    username: Seq<char>,
    password: Seq<char>,
)
    requires
        forall|j: int| 0 <= j < username.len() ==> username[j] != ':',
        base64_standard_decode(encoded) == Some(encode_utf8(username + seq![':'] + password)),
    ensures
        parse_basic(Some(BASIC_PREFIX@ + encoded)) == Some((username, password)),
{
    broadcast use encode_utf8_valid_utf8, encode_utf8_decode_utf8;

    let h = BASIC_PREFIX@ + encoded;
    let plen = BASIC_PREFIX@.len() as int;
    assert(h.subrange(0, plen) =~= BASIC_PREFIX@);
    assert(h.subrange(plen, h.len() as int) =~= encoded);
    let s = username + seq![':'] + password;
    let u = username.len() as int;
    assert(is_first_colon(s, u));
    let k = choose|k: int| is_first_colon(s, k);
    assert(k == u) by {
        if k < u {
            assert(s[k] == username[k]);
        } else if k > u {
            assert(s[u] == ':');
        }
    }
    assert(s.subrange(0, u) =~= username);
    assert(s.subrange(u + 1, s.len() as int) =~= password);
}

/// Headers that are absent, lack the `Basic ` prefix, are not base64, do not
/// decode to UTF-8, or decode to text without a `:` are all refused.
pub proof fn malformed_headers_refused(h: Seq<char>)
    ensures
        parse_basic(None) is None,
        basic_payload(h) is None ==> parse_basic(Some(h)) is None,
        (basic_payload(h) is Some && base64_standard_decode(basic_payload(h)->0) is None)
            ==> parse_basic(Some(h)) is None,
        (basic_payload(h) is Some && base64_standard_decode(basic_payload(h)->0) is Some
            && !valid_utf8(base64_standard_decode(basic_payload(h)->0)->0)) ==> parse_basic(
            Some(h),
        ) is None,
        (basic_payload(h) is Some && base64_standard_decode(basic_payload(h)->0) is Some
            && (forall|i: int|
            0 <= i < decode_utf8(base64_standard_decode(basic_payload(h)->0)->0).len()
                ==> decode_utf8(base64_standard_decode(basic_payload(h)->0)->0)[i] != ':'))
            ==> parse_basic(Some(h)) is None,
{
}

} // verus!
