//! Request building: percent-encoding of the user-entered path segments and
//! assembly of the upstream lookup URL and fixed headers.
//!
//! The two user inputs are unconstrained, so each is percent-encoded before
//! it is embedded in the URL: unreserved ASCII characters pass through, every
//! other character contributes `%XX` for each byte of its UTF-8 encoding.

use vstd::prelude::*;
use vstd::utf8::{
    last_continuation_byte, leading_byte_width_1, leading_byte_width_2, leading_byte_width_3,
    leading_byte_width_4, second_last_continuation_byte, third_last_continuation_byte,
};
use crate::text::push_char;

verus! {

/// Whether a character passes through percent-encoding unchanged: the
/// unreserved set of ASCII letters, digits, `-`, `.`, `_` and `~`.
pub open spec fn spec_is_unreserved(c: char) -> bool {
    let u = c as u32;
    (97 <= u <= 122) || (65 <= u <= 90) || (48 <= u <= 57) || u == 45 || u == 46 || u == 95 || u
        == 126
}

/// The character of one uppercase hexadecimal digit.
pub open spec fn hex_char(d: nat) -> char
    recommends
        d < 16,
{
    if d < 10 {
        ((48 + d) as u8) as char
    } else {
        ((55 + d) as u8) as char
    }
}

/// The three characters of one percent-encoded byte.
pub open spec fn percent_byte(b: u8) -> Seq<char> {
    seq!['%', hex_char((b / 16) as nat), hex_char((b % 16) as nat)]
}

/// The percent-encoding of one character: itself when unreserved, otherwise
/// `%XX` for each byte of its UTF-8 encoding.
pub open spec fn encoded_char(c: char) -> Seq<char> {
    let u = c as u32;
    if spec_is_unreserved(c) {
        seq![c]
    } else if u <= 0x7F {
        percent_byte(leading_byte_width_1(u))
    } else if u <= 0x7FF {
        percent_byte(leading_byte_width_2(u)) + percent_byte(last_continuation_byte(u))
    } else if u <= 0xFFFF {
        percent_byte(leading_byte_width_3(u)) + percent_byte(second_last_continuation_byte(u))
            + percent_byte(last_continuation_byte(u))
    } else {
        percent_byte(leading_byte_width_4(u)) + percent_byte(third_last_continuation_byte(u))
            + percent_byte(second_last_continuation_byte(u)) + percent_byte(
            last_continuation_byte(u),
        )
    }
}

/// The percent-encoding of a character sequence.
pub open spec fn percent_encoded(s: Seq<char>) -> Seq<char>
    decreases s.len(),
{
    if s.len() == 0 {
        Seq::empty()
    } else {
        encoded_char(s[0]) + percent_encoded(s.drop_first())
    }
}

proof fn lemma_percent_encoded_push(s: Seq<char>, c: char)
    ensures
        percent_encoded(s.push(c)) == percent_encoded(s) + encoded_char(c),
    decreases s.len(),
{
    if s.len() == 0 {
        assert(s.push(c).drop_first() =~= Seq::<char>::empty());
        assert(s.push(c)[0] == c);
        assert(percent_encoded(Seq::<char>::empty()) == Seq::<char>::empty());
        assert(percent_encoded(s.push(c)) == encoded_char(c) + percent_encoded(
            Seq::<char>::empty(),
        ));
        assert(percent_encoded(s.push(c)) =~= percent_encoded(s) + encoded_char(c));
    } else {
        lemma_percent_encoded_push(s.drop_first(), c);
        assert(s.push(c).drop_first() =~= s.drop_first().push(c));
        assert(s.push(c)[0] == s[0]);
        assert(percent_encoded(s.push(c)) == encoded_char(s[0]) + percent_encoded(
            s.drop_first().push(c),
        ));
        assert(percent_encoded(s) == encoded_char(s[0]) + percent_encoded(s.drop_first()));
        assert(percent_encoded(s.push(c)) =~= percent_encoded(s) + encoded_char(c));
    }
}

fn hex_to_char(d: u8) -> (c: char)
    requires
        d < 16,
    ensures
        c == hex_char(d as nat),
{
    if d < 10 {
        (48 + d) as char
    } else {
        (55 + d) as char
    }
}

fn push_percent_byte(out: &mut String, b: u8)
    ensures
        final (out)@ == old(out)@ + percent_byte(b),
{
    push_char(out, '%');
    push_char(out, hex_to_char(b / 16));
    push_char(out, hex_to_char(b % 16));
    proof {
        assert(out@ =~= old(out)@ + percent_byte(b));
    }
}

fn encode_char_into(out: &mut String, c: char)
    ensures
        final (out)@ == old(out)@ + encoded_char(c),
{
    let u = c as u32;
    let unreserved = (97 <= u && u <= 122) || (65 <= u && u <= 90) || (48 <= u && u <= 57) || u
        == 45 || u == 46 || u == 95 || u == 126;
    if unreserved {
        push_char(out, c);
        proof {
            assert(out@ =~= old(out)@ + encoded_char(c));
        }
    } else if u <= 0x7F {
        push_percent_byte(out, #[verifier::truncate] ((u & 0x7F) as u8));
        proof {
            assert(out@ =~= old(out)@ + encoded_char(c));
        }
    } else if u <= 0x7FF {
        push_percent_byte(out, 0xC0 | (#[verifier::truncate] (((u >> 6) & 0x1F) as u8)));
        push_percent_byte(out, 0x80 | (#[verifier::truncate] ((u & 0x3F) as u8)));
        proof {
            assert(out@ =~= old(out)@ + encoded_char(c));
        }
    } else if u <= 0xFFFF {
        push_percent_byte(out, 0xE0 | (#[verifier::truncate] (((u >> 12) & 0x0F) as u8)));
        push_percent_byte(out, 0x80 | (#[verifier::truncate] (((u >> 6) & 0x3F) as u8)));
        push_percent_byte(out, 0x80 | (#[verifier::truncate] ((u & 0x3F) as u8)));
        proof {
            assert(out@ =~= old(out)@ + encoded_char(c));
        }
    } else {
        push_percent_byte(out, 0xF0 | (#[verifier::truncate] (((u >> 18) & 0x7) as u8)));
        push_percent_byte(out, 0x80 | (#[verifier::truncate] (((u >> 12) & 0x3F) as u8)));
        push_percent_byte(out, 0x80 | (#[verifier::truncate] (((u >> 6) & 0x3F) as u8)));
        push_percent_byte(out, 0x80 | (#[verifier::truncate] ((u & 0x3F) as u8)));
        proof {
            assert(out@ =~= old(out)@ + encoded_char(c));
        }
    }
}

/// Appends the percent-encoding of a string to the output.
pub fn percent_encode_into(out: &mut String, s: &str)
    ensures
        final (out)@ == old(out)@ + percent_encoded(s@),
{
    let n = s.unicode_len();
    let mut i: usize = 0;
    while i < n
        invariant
            n == s@.len(),
            0 <= i <= n,
            out@ == old(out)@ + percent_encoded(s@.take(i as int)),
        decreases n - i,
    {
        let ghost pre = s@.take(i as int);
        let c = s.get_char(i);
        encode_char_into(out, c);
        i += 1;
        proof {
            lemma_percent_encoded_push(pre, c);
            assert(s@.take(i as int) =~= pre.push(c));
            assert(out@ =~= old(out)@ + percent_encoded(s@.take(i as int)));
        }
    }
    proof {
        assert(s@.take(n as int) =~= s@);
    }
}

/// The whole lookup URL for a query: the fixed proxy-plus-endpoint template
/// with the percent-encoded carrier and tracking number as its final path
/// segments.
pub open spec fn spec_tracking_url(provider: Seq<char>, tracking_number: Seq<char>) -> Seq<char> {
    "https://corsanywhere-two.vercel.app/api/proxy?url=https://gdeposylka.ru/api/v4/tracker/"@
        + percent_encoded(provider) + "/"@ + percent_encoded(tracking_number)
}

/// Builds the lookup URL for one query.
pub fn build_tracking_url(tracking_number: &str, provider: &str) -> (r: String)
    ensures
        r@ == spec_tracking_url(provider@, tracking_number@),
{
    let mut url: String =
        "https://corsanywhere-two.vercel.app/api/proxy?url=https://gdeposylka.ru/api/v4/tracker/".to_owned();
    percent_encode_into(&mut url, provider);
    url.append("/");
    percent_encode_into(&mut url, tracking_number);
    proof {
        assert(url@ =~= spec_tracking_url(provider@, tracking_number@));
    }
    url
}

/// The two fixed request headers: the JSON content-type declaration and the
/// authorization token, which is injected by the caller rather than held in
/// source.
pub fn request_headers(auth_token: String) -> (r: Vec<(String, String)>)
    ensures
        r@.len() == 2,
        r@[0].0@ == "Content-Type"@,
        r@[0].1@ == "application/json"@,
        r@[1].0@ == "X-Authorization-Token"@,
        r@[1].1 == auth_token,
{
    let mut headers: Vec<(String, String)> = Vec::new();
    headers.push(("Content-Type".to_owned(), "application/json".to_owned()));
    headers.push(("X-Authorization-Token".to_owned(), auth_token));
    headers
}

} // verus!
