//! Reading the bearer token out of an `Authorization` header value.
use vstd::prelude::*;
use crate::error::Error;

verus! {

/// Unicode `White_Space`, the set that `str::split_whitespace` splits on.
pub open spec fn is_white_space(c: char) -> bool {
    let u = c as u32;
    (9 <= u <= 13) || u == 32 || u == 0x85 || u == 0xa0 || u == 0x1680 || (0x2000 <= u <= 0x200a)
        || u == 0x2028 || u == 0x2029 || u == 0x202f || u == 0x205f || u == 0x3000
}

pub fn white_space(c: char) -> (r: bool)
    ensures
        r == is_white_space(c),
{
    let u = c as u32;
    (9 <= u && u <= 13) || u == 32 || u == 0x85 || u == 0xa0 || u == 0x1680 || (0x2000 <= u && u
        <= 0x200a) || u == 0x2028 || u == 0x2029 || u == 0x202f || u == 0x205f || u == 0x3000
}

pub open spec fn all_white(s: Seq<char>, a: int, b: int) -> bool {
    forall|i: int| a <= i < b ==> is_white_space(#[trigger] s[i])
}

pub open spec fn none_white(s: Seq<char>, a: int, b: int) -> bool {
    forall|i: int| a <= i < b ==> !is_white_space(#[trigger] s[i])
}

pub open spec fn scheme() -> Seq<char> {
    seq!['B', 'e', 'a', 'r', 'e', 'r']
}

/// `s` splits on white space into exactly two words: `Bearer`, which starts
/// at `a`, and the word `s[c..d]`.
pub open spec fn bearer_split(s: Seq<char>, a: int, c: int, d: int) -> bool {
    &&& 0 <= a
    &&& a + 6 < c < d <= s.len()
    &&& all_white(s, 0, a)
    &&& s.subrange(a, a + 6) == scheme()
    &&& all_white(s, a + 6, c)
    &&& none_white(s, c, d)
    &&& all_white(s, d, s.len() as int)
}

/// `t` is the token of the header value `s`, whose words are `Bearer` and `t`.
pub open spec fn bearer_token_of(s: Seq<char>, t: Seq<char>) -> bool {
    exists|a: int, c: int, d: int| #[trigger] bearer_split(s, a, c, d) && t == s.subrange(c, d)
}

pub open spec fn has_bearer_token(s: Seq<char>) -> bool {
    exists|a: int, c: int, d: int| #[trigger] bearer_split(s, a, c, d)
}

/// Skips characters from `i` while their white-space test equals `white`.
fn skip(s: &str, n: usize, i: usize, white: bool) -> (r: usize)
    requires
        n == s@.len(),
        i <= n,
    ensures
        i <= r <= n,
        forall|k: int| i <= k < r ==> is_white_space(#[trigger] s@[k]) == white,
        r < n ==> is_white_space(s@[r as int]) != white,
{
    let mut j = i;
    while j < n
        invariant
            n == s@.len(),
            i <= j <= n,
            forall|k: int| i <= k < j ==> is_white_space(#[trigger] s@[k]) == white,
        decreases n - j,
    {
        if white_space(s.get_char(j)) != white {
            return j;
        }
        j = j + 1;
    }
    j
}

/// The token of an `Authorization` value of the form `Bearer <token>`, with
/// any white space around and between the two words.
pub fn get_bearer_token(auth_header: String) -> (r: Result<String, Error>)
    ensures
        r is Ok <==> has_bearer_token(auth_header@),
        r matches Ok(t) ==> bearer_token_of(auth_header@, t@),
        r matches Err(e) ==> e is Unauthorized,
{
    let s = auth_header.as_str();
    let n = s.unicode_len();
    let a = skip(s, n, 0, true);
    let ghost sv = s@;
    let mut matched = n - a >= 6;
    if matched {
        let w = "Bearer";
        proof {
            reveal_strlit("Bearer");
        }
        let mut k: usize = 0;
        while k < 6
            invariant
                a + 6 <= n,
                n == sv.len(),
                s@ == sv,
                w@ == scheme(),
                0 <= k <= 6,
                matched <==> forall|m: int| 0 <= m < k ==> sv[a + m] == scheme()[m],
            decreases 6 - k,
        {
            if s.get_char(a + k) != w.get_char(k) {
                matched = false;
            }
            k = k + 1;
        }
        if matched {
            assert(sv.subrange(a as int, a + 6) =~= scheme());
        }
    }
    if !matched {
        proof {
            assert forall|a2: int, c2: int, d2: int| !bearer_split(sv, a2, c2, d2) by {
                if bearer_split(sv, a2, c2, d2) {
                    assert(sv.subrange(a2, a2 + 6)[0] == 'B');
                    assert(!is_white_space(sv[a2]));
                    if a2 < a {
                    } else if a2 > a {
                        assert(is_white_space(sv[a as int]));
                    }
                    assert(a2 == a);
                    assert(n - a >= 6);
                    assert forall|m: int| 0 <= m < 6 implies sv[a + m] == scheme()[m] by {
                        assert(sv[a + m] == sv.subrange(a2, a2 + 6)[m]);
                    }
                    assert(matched);
                }
            }
        }
        return Err(Error::Unauthorized(String::from_str("Bearer token was not found inside Authentication header.")));
    }
    let b = a + 6;
    let c = skip(s, n, b, true);
    let d = skip(s, n, c, false);
    let e = skip(s, n, d, true);
    if c == b || d == c || e != n {
        proof {
            assert forall|a2: int, c2: int, d2: int| !bearer_split(sv, a2, c2, d2) by {
                if bearer_split(sv, a2, c2, d2) {
                    assert(sv.subrange(a2, a2 + 6)[0] == 'B');
                    assert(!is_white_space(sv[a2]));
                    if a2 < a {
                    } else if a2 > a {
                        assert(is_white_space(sv[a as int]));
                    }
                    assert(a2 == a);
                    if c2 < c {
                        assert(is_white_space(sv[c2]));
                    } else if c2 > c {
                        assert(is_white_space(sv[c as int]));
                    }
                    if d2 < d {
                        assert(is_white_space(sv[d2]));
                    } else if d2 > d {
                        assert(is_white_space(sv[d as int]));
                    }
                    assert(e == n);
                }
            }
        }
        return Err(Error::Unauthorized(String::from_str("Bearer token was not found inside Authentication header.")));
    }
    let t = String::from_str(s.substring_char(c, d));
    assert(bearer_split(sv, a as int, c as int, d as int));
    Ok(t)
}

} // verus!
