use vstd::prelude::*;
use vstd::std_specs::iter::IteratorSpec;
use vstd::utf8::{
    char_u32_cast, decode_first_scalar, encode_scalar, encode_utf8, encode_utf8_first_scalar,
    length_of_first_scalar,
};

verus! {

/// Putting equal bytes in front of two sequences neither makes nor breaks a
/// prefix.
proof fn lemma_prefix_behind_common_head(head: Seq<u8>, a: Seq<u8>, b: Seq<u8>)
    ensures
        (head + a).is_prefix_of(head + b) <==> a.is_prefix_of(b),
{
    let n = head.len() as int;
    if a.is_prefix_of(b) {
        assert((head + a) =~= (head + b).subrange(0, n + a.len()));
    }
    if (head + a).is_prefix_of(head + b) {
        assert forall|i: int| 0 <= i < a.len() implies a[i] == b[i] by {
            assert((head + a)[n + i] == (head + b).subrange(0, n + a.len())[n + i]);
        }
        assert(a =~= b.subrange(0, a.len() as int));
    }
}

/// A text begins with a prefix, character for character, just when its
/// UTF-8 encoding begins with the prefix's, byte for byte. So the test on
/// characters that this library makes and the test on bytes that `str`
/// makes never differ.
pub proof fn lemma_prefix_in_utf8(prefix: Seq<char>, text: Seq<char>)
    ensures
        prefix.is_prefix_of(text) <==> encode_utf8(prefix).is_prefix_of(encode_utf8(text)),
    decreases prefix.len(),
{
    if prefix.len() > 0 && text.len() > 0 {
        let p = encode_utf8(prefix);
        let t = encode_utf8(text);
        let head = encode_scalar(prefix[0] as u32);
        let rest = prefix.drop_first();
        let text_rest = text.drop_first();
        // Each encoding is that of its first character, then that of the
        // rest; and the first character can be read back off it.
        encode_utf8_first_scalar(prefix);
        encode_utf8_first_scalar(text);
        assert(p == head + encode_utf8(rest));
        assert(t == encode_scalar(text[0] as u32) + encode_utf8(text_rest));
        lemma_prefix_in_utf8(rest, text_rest);
        if prefix.is_prefix_of(text) {
            assert(prefix[0] == text[0]);
            assert(rest =~= text_rest.subrange(0, rest.len() as int));
        }
        if p.is_prefix_of(t) {
            // The bytes of the first character are shared, so it is the
            // same character on both sides.
            assert(head.len() == length_of_first_scalar(p));
            assert(decode_first_scalar(p) == decode_first_scalar(t));
            char_u32_cast(prefix[0], decode_first_scalar(p));
            char_u32_cast(text[0], decode_first_scalar(t));
            assert(prefix[0] == text[0]);
        }
        if prefix[0] == text[0] {
            lemma_prefix_behind_common_head(head, encode_utf8(rest), encode_utf8(text_rest));
            if rest.is_prefix_of(text_rest) {
                assert forall|i: int| 0 <= i < prefix.len() implies prefix[i] == text[i] by {
                    if i > 0 {
                        assert(rest[i - 1] == text_rest.subrange(0, rest.len() as int)[i - 1]);
                    }
                }
                assert(prefix =~= text.subrange(0, prefix.len() as int));
            }
        }
    } else if prefix.len() > 0 {
        // Nothing begins the empty text but the empty text.
        encode_utf8_first_scalar(prefix);
    }
}

/// Tells whether `text` begins with `prefix`, comparing character by
/// character, which comes to the same as comparing the two encodings byte
/// by byte. No notion of path segments is involved: `"/auth"` is a prefix
/// of `"/authxyz"`.
pub fn starts_with(text: &str, prefix: &str) -> (r: bool)
    ensures
        r == prefix@.is_prefix_of(text@),
        r == encode_utf8(prefix@).is_prefix_of(encode_utf8(text@)),
{
    let mut rest = text.chars();
    let mut want = prefix.chars();
    let ghost mut done: int = 0;
    proof {
        lemma_prefix_in_utf8(prefix@, text@);
    }
    loop
        invariant
            prefix@.is_prefix_of(text@) <==> encode_utf8(prefix@).is_prefix_of(
                encode_utf8(text@),
            ),
            0 <= done <= prefix@.len(),
            done <= text@.len(),
            rest.obeys_prophetic_iter_laws(),
            want.obeys_prophetic_iter_laws(),
            rest.remaining() == text@.skip(done),
            want.remaining() == prefix@.skip(done),
            prefix@.take(done) == text@.take(done),
        decreases prefix@.len() - done,
    {
        let expected = want.next();
        match expected {
            None => {
                return true;
            },
            Some(p) => {
                let found = rest.next();
                match found {
                    None => {
                        return false;
                    },
                    Some(c) => {
                        if c != p {
                            return false;
                        }
                        proof {
                            done = done + 1;
                        }
                    },
                }
            },
        }
    }
}

/// Tells whether the two texts are the same, character for character.
pub fn same_text(a: &str, b: &str) -> (r: bool)
    ensures
        r == (a@ == b@),
{
    let both = starts_with(a, b) && starts_with(b, a);
    proof {
        if a@.is_prefix_of(b@) && b@.is_prefix_of(a@) {
            assert(a@ =~= b@);
        }
    }
    both
}

/// The scheme that an `Authorization` header must open with, the blank
/// included. It is matched as it stands: `bearer` or `BEARER` do not count.
pub open spec fn bearer_scheme() -> Seq<char> {
    "Bearer "@
}

/// What follows the scheme in a header, if the header opens with it.
pub open spec fn spec_bearer_token(header: Seq<char>) -> Option<Seq<char>> {
    if bearer_scheme().is_prefix_of(header) {
        Some(header.skip(bearer_scheme().len() as int))
    } else {
        None
    }
}

/// Takes the token out of a header of the form `Bearer <token>`. The token is
/// everything behind the first blank, and may be empty.
pub fn bearer_token(header: &str) -> (token: Option<&str>)
    ensures
        token.is_some() == bearer_scheme().is_prefix_of(header@),
        token matches Some(t) ==> header@ == bearer_scheme() + t@,
        match token {
            Some(t) => spec_bearer_token(header@) == Some(t@),
            None => spec_bearer_token(header@) is None,
        },
{
    proof {
        reveal_strlit("Bearer ");
    }
    if starts_with(header, "Bearer ") {
        let end = header.unicode_len();
        Some(header.substring_char(7, end))
    } else {
        None
    }
}

} // verus!
