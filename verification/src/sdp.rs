//! The SDP value: an immutable session description with validation and
//! setup-role rewriting.
//!
//! A description is accepted when it is not whitespace only, starts with
//! `v=0`, and carries either `a=sendonly` or `a=recvonly`. Rewriting turns
//! the first `a=setup:actpass` attribute into `a=setup:active` or
//! `a=setup:passive`; a description without the attribute is unchanged.

use vstd::prelude::*;
use vstd::string::*;

verus! {

/// The characters that trimming removes: the Unicode white-space set.
pub open spec fn is_space(c: char) -> bool {
    c == ' ' || c == '\t' || c == '\n' || c == '\r' || c == '\u{b}' || c == '\u{c}'
        || c == '\u{85}' || c == '\u{a0}' || c == '\u{1680}' || c == '\u{2000}'
        || c == '\u{2001}' || c == '\u{2002}' || c == '\u{2003}' || c == '\u{2004}'
        || c == '\u{2005}' || c == '\u{2006}' || c == '\u{2007}' || c == '\u{2008}'
        || c == '\u{2009}' || c == '\u{200a}' || c == '\u{2028}' || c == '\u{2029}'
        || c == '\u{202f}' || c == '\u{205f}' || c == '\u{3000}'
}

/// Every character of `s` is white space; an empty `s` counts too.
pub open spec fn all_space(s: Seq<char>) -> bool {
    forall|i: int| 0 <= i < s.len() ==> is_space(s[i])
}

/// The needle `n` occurs in `h` at position `i`.
pub open spec fn match_at(h: Seq<char>, n: Seq<char>, i: int) -> bool {
    0 <= i && i + n.len() <= h.len() && h.subrange(i, i + n.len() as int) == n
}

/// The needle `n` occurs somewhere in `h`.
pub open spec fn contains_token(h: Seq<char>, n: Seq<char>) -> bool {
    exists|i: int| match_at(h, n, i)
}

/// `h` begins with the prefix `p`.
pub open spec fn starts_with(h: Seq<char>, p: Seq<char>) -> bool {
    match_at(h, p, 0)
}

/// The accepted session descriptions.
pub open spec fn spec_valid_sdp(s: Seq<char>) -> bool {
    &&& !all_space(s)
    &&& starts_with(s, "v=0"@)
    &&& (contains_token(s, "a=sendonly"@) || contains_token(s, "a=recvonly"@))
}

/// `n` occurs in `h` at `i` and nowhere earlier.
pub open spec fn is_first_match(h: Seq<char>, n: Seq<char>, i: int) -> bool {
    match_at(h, n, i) && (forall|j: int| 0 <= j < i ==> !match_at(h, n, j))
}

/// The position of the first occurrence of `n` in `h`.
pub open spec fn first_match_index(h: Seq<char>, n: Seq<char>) -> int {
    choose|i: int| is_first_match(h, n, i)
}

/// `h` with the first occurrence of `n` replaced by `to`; `h` itself when
/// `n` does not occur.
pub open spec fn replace_first(h: Seq<char>, n: Seq<char>, to: Seq<char>) -> Seq<char> {
    if contains_token(h, n) {
        let i = first_match_index(h, n);
        h.subrange(0, i) + to + h.subrange(i + n.len(), h.len() as int)
    } else {
        h
    }
}

/// `s` with the setup role of its first `a=setup:actpass` attribute
/// rewritten to `active`.
pub open spec fn active_rewrite(s: Seq<char>) -> Seq<char> {
    replace_first(s, "a=setup:actpass"@, "a=setup:active"@)
}

/// `s` with the setup role of its first `a=setup:actpass` attribute
/// rewritten to `passive`.
pub open spec fn passive_rewrite(s: Seq<char>) -> Seq<char> {
    replace_first(s, "a=setup:actpass"@, "a=setup:passive"@)
}

/// Two first occurrences are the same occurrence.
proof fn lemma_first_match_unique(h: Seq<char>, n: Seq<char>, i1: int, i2: int)
    requires
        is_first_match(h, n, i1),
        is_first_match(h, n, i2),
    ensures
        i1 == i2,
{
}

/// The needle `pat` occurs in `s` at position `at`.
fn matches_at(s: &str, at: usize, pat: &str) -> (r: bool)
    requires
        at + pat@.len() <= s@.len() <= usize::MAX,
    ensures
        r == match_at(s@, pat@, at as int),
{
    let n = pat.unicode_len();
    let mut j: usize = 0;
    while j < n
        invariant
            n == pat@.len(),
            0 <= j <= n,
            at + n <= s@.len() <= usize::MAX,
            forall|k: int| 0 <= k < j ==> s@[at + k] == pat@[k],
        decreases n - j,
    {
        if s.get_char(at + j) != pat.get_char(j) {
            return false;
        }
        j += 1;
    }
    assert(s@.subrange(at as int, at + n as int) =~= pat@);
    true
}

/// Whether `pat` occurs anywhere in `s`; when it does, the position of its
/// first occurrence.
fn find_token(s: &str, pat: &str) -> (r: Option<usize>)
    requires
        1 <= pat@.len(),
    ensures
        r matches Some(i) ==> is_first_match(s@, pat@, i as int),
        r is None ==> !contains_token(s@, pat@),
{
    let sl = s.unicode_len();
    let pl = pat.unicode_len();
    if pl > sl {
        assert(forall|i: int| !match_at(s@, pat@, i));
        return None;
    }
    let mut i: usize = 0;
    while i <= sl - pl
        invariant
            sl == s@.len(),
            pl == pat@.len(),
            1 <= pl <= sl,
            0 <= i <= sl - pl + 1,
            forall|k: int| 0 <= k < i ==> !match_at(s@, pat@, k),
        decreases sl - pl + 1 - i,
    {
        if matches_at(s, i, pat) {
            return Some(i);
        }
        i += 1;
    }
    assert(forall|k: int| !match_at(s@, pat@, k));
    None
}

/// Whether `pat` occurs anywhere in `s`.
fn contains_str(s: &str, pat: &str) -> (r: bool)
    requires
        1 <= pat@.len(),
    ensures
        r == contains_token(s@, pat@),
{
    let found = find_token(s, pat);
    match found {
        Some(i) => {
            assert(contains_token(s@, pat@));
            true
        },
        None => false,
    }
}

/// Every character of `s` is white space.
fn all_space_str(s: &str) -> (r: bool)
    ensures
        r == all_space(s@),
{
    let n = s.unicode_len();
    let mut i: usize = 0;
    while i < n
        invariant
            n == s@.len(),
            0 <= i <= n,
            forall|k: int| 0 <= k < i ==> is_space(s@[k]),
        decreases n - i,
    {
        let c = s.get_char(i);
        let sp = c == ' ' || c == '\t' || c == '\n' || c == '\r' || c == '\u{b}' || c == '\u{c}'
            || c == '\u{85}' || c == '\u{a0}' || c == '\u{1680}' || c == '\u{2000}'
            || c == '\u{2001}' || c == '\u{2002}' || c == '\u{2003}' || c == '\u{2004}'
            || c == '\u{2005}' || c == '\u{2006}' || c == '\u{2007}' || c == '\u{2008}'
            || c == '\u{2009}' || c == '\u{200a}' || c == '\u{2028}' || c == '\u{2029}'
            || c == '\u{202f}' || c == '\u{205f}' || c == '\u{3000}';
        if !sp {
            return false;
        }
        i += 1;
    }
    true
}

/// `s` with the first occurrence of `pat` replaced by `to`.
fn replace_first_str(s: &String, pat: &str, to: &str) -> (r: String)
    requires
        1 <= pat@.len(),
    ensures
        r@ == replace_first(s@, pat@, to@),
{
    let found = find_token(s.as_str(), pat);
    match found {
        None => s.clone(),
        Some(i) => {
            proof {
                lemma_first_match_unique(s@, pat@, i as int, first_match_index(s@, pat@));
            }
            let sl = s.as_str().unicode_len();
            let pl = pat.unicode_len();
            let prefix = s.as_str().substring_char(0, i);
            let suffix = s.as_str().substring_char(i + pl, sl);
            let mut out = String::from_str(prefix);
            out.append(to);
            out.append(suffix);
            out
        },
    }
}

/// A validated SDP payload.
#[derive(Debug)]
pub struct SessionDescription {
    sdp: String,
}

impl View for SessionDescription {
    type V = Seq<char>;

    closed spec fn view(&self) -> Seq<char> {
        self.sdp@
    }
}

impl Clone for SessionDescription {
    fn clone(&self) -> (r: Self)
        ensures
            r@ == self@,
    {
        SessionDescription { sdp: self.sdp.clone() }
    }
}

impl SessionDescription {
    /// Accepts the input exactly when it is a valid session description,
    /// and keeps it unchanged.
    pub fn parse(s: String) -> (r: Result<SessionDescription, String>)
        ensures
            r is Ok <==> spec_valid_sdp(s@),
            r matches Ok(sd) ==> sd@ == s@,
            r matches Err(m) ==> m@ == "invalid SDP: "@ + s@,
    {
        proof {
            reveal_strlit("v=0");
            reveal_strlit("a=sendonly");
            reveal_strlit("a=recvonly");
        }
        let whitespace_only = all_space_str(s.as_str());
        let starts_v0 = s.as_str().unicode_len() >= 3 && matches_at(s.as_str(), 0, "v=0");
        let has_direction = contains_str(s.as_str(), "a=sendonly")
            || contains_str(s.as_str(), "a=recvonly");
        if !whitespace_only && starts_v0 && has_direction {
            Ok(SessionDescription { sdp: s })
        } else {
            let mut m = String::from_str("invalid SDP: ");
            m.append(s.as_str());
            Err(m)
        }
    }

    /// The description asks to only send media.
    pub fn is_sendonly(&self) -> (r: bool)
        ensures
            r == contains_token(self@, "a=sendonly"@),
    {
        proof {
            reveal_strlit("a=sendonly");
        }
        contains_str(self.sdp.as_str(), "a=sendonly")
    }

    /// The description holds no characters at all.
    pub fn is_empty(&self) -> (r: bool)
        ensures
            r == (self@.len() == 0),
    {
        self.sdp.as_str().is_empty()
    }

    /// Rewrites the first `a=setup:actpass` attribute to `a=setup:active`;
    /// without the attribute the description stays as it is.
    pub fn set_as_active(&mut self)
        ensures
            final(self)@ == active_rewrite(old(self)@),
    {
        proof {
            reveal_strlit("a=setup:actpass");
        }
        self.sdp = replace_first_str(&self.sdp, "a=setup:actpass", "a=setup:active");
    }

    /// Rewrites the first `a=setup:actpass` attribute to `a=setup:passive`;
    /// without the attribute the description stays as it is.
    pub fn set_as_passive(&mut self)
        ensures
            final(self)@ == passive_rewrite(old(self)@),
    {
        proof {
            reveal_strlit("a=setup:actpass");
        }
        self.sdp = replace_first_str(&self.sdp, "a=setup:actpass", "a=setup:passive");
    }

    /// The payload itself, given up.
    pub fn into_string(self) -> (r: String)
        ensures
            r@ == self@,
    {
        self.sdp
    }

    /// The payload itself.
    pub fn as_str(&self) -> (r: &str)
        ensures
            r@ == self@,
    {
        self.sdp.as_str()
    }
}

/// Law: a description that starts with `v=0` and carries `a=sendonly` is
/// valid, so parsing it succeeds and it reads as send-only.
pub proof fn lemma_sendonly_sdp_is_valid(s: Seq<char>)
    requires
        starts_with(s, "v=0"@),
        contains_token(s, "a=sendonly"@),
    ensures
        spec_valid_sdp(s),
{
    reveal_strlit("v=0");
    assert(s.subrange(0, 3) == "v=0"@);
    assert(s.subrange(0, 3)[0] == 'v');
    assert(s[0] == 'v');
    assert(!is_space('v'));
}

/// Law: rewriting the setup role of a description without the
/// `a=setup:actpass` attribute leaves it unchanged, so a second rewrite
/// changes nothing either.
pub proof fn lemma_setup_rewrite_absent(s: Seq<char>, to: Seq<char>)
    requires
        !contains_token(s, "a=setup:actpass"@),
    ensures
        replace_first(s, "a=setup:actpass"@, to) == s,
{
}

} // verus!
