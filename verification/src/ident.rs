//! The identity scheme: every node of a book is addressed by the lowercase
//! hex SHA-1 digest of the slash-normalized string form of its relative path.
//! Normalization, hex encoding and the path decomposition helpers are defined
//! and verified here; only the digest itself comes from outside.

use sha1::Digest;
use vstd::prelude::*;
use vstd::string::*;

verus! {

/// What the outside SHA-1 routine returns for a given character sequence:
/// a fixed function of the characters alone.
pub uninterp spec fn sha1_of(s: Seq<char>) -> Seq<u8>;

/// The lowercase hex digit for `n` in `0..16`.
pub open spec fn hex_digit(n: int) -> char {
    if n == 0 {
        '0'
    } else if n == 1 {
        '1'
    } else if n == 2 {
        '2'
    } else if n == 3 {
        '3'
    } else if n == 4 {
        '4'
    } else if n == 5 {
        '5'
    } else if n == 6 {
        '6'
    } else if n == 7 {
        '7'
    } else if n == 8 {
        '8'
    } else if n == 9 {
        '9'
    } else if n == 10 {
        'a'
    } else if n == 11 {
        'b'
    } else if n == 12 {
        'c'
    } else if n == 13 {
        'd'
    } else if n == 14 {
        'e'
    } else {
        'f'
    }
}

/// The two lowercase hex digits of one byte.
pub open spec fn hex_pair(b: u8) -> Seq<char> {
    seq![hex_digit(b as int / 16), hex_digit(b as int % 16)]
}

/// The lowercase hex form of a byte string.
pub open spec fn hex_of(bytes: Seq<u8>) -> Seq<char>
    decreases bytes.len(),
{
    if bytes.len() == 0 {
        Seq::empty()
    } else {
        hex_of(bytes.drop_last()) + hex_pair(bytes.last())
    }
}

pub proof fn lemma_hex_of_len(bytes: Seq<u8>)
    ensures
        hex_of(bytes).len() == 2 * bytes.len(),
    decreases bytes.len(),
{
    if bytes.len() > 0 {
        lemma_hex_of_len(bytes.drop_last());
    }
}

/// The slash-normalized form of a path: every backslash read as a forward
/// slash, so that an identity is the same whatever the host's separator.
pub open spec fn normal_form(s: Seq<char>) -> Seq<char> {
    Seq::new(s.len(), |i: int| if s[i] == '\\' { '/' } else { s[i] })
}

/// The identity derived from a character sequence: hex of its SHA-1.
pub open spec fn id_of(s: Seq<char>) -> Seq<char> {
    hex_of(sha1_of(s))
}

/// The component of a path after its last slash (the whole path when it has
/// no slash, empty when it ends in one).
pub open spec fn base_name(s: Seq<char>) -> Seq<char>
    decreases s.len(),
{
    if s.len() == 0 {
        Seq::empty()
    } else if s.last() == '/' {
        Seq::empty()
    } else {
        base_name(s.drop_last()).push(s.last())
    }
}

/// The part of a path before its last slash; empty when it has no slash.
pub open spec fn parent_path(s: Seq<char>) -> Seq<char>
    decreases s.len(),
{
    if s.len() == 0 {
        Seq::empty()
    } else if s.last() == '/' {
        s.drop_last()
    } else {
        parent_path(s.drop_last())
    }
}

/// `pat` occurs in `s` starting at position `i`.
pub open spec fn match_at(s: Seq<char>, pat: Seq<char>, i: int) -> bool {
    0 <= i && i + pat.len() <= s.len() && s.subrange(i, i + pat.len()) == pat
}

/// `pat` occurs somewhere in `s`.
pub open spec fn contains_seq(s: Seq<char>, pat: Seq<char>) -> bool {
    exists|i: int| match_at(s, pat, i)
}

/// Law: a node identity is a function of the slash-normalized string form of
/// the path alone — two paths with one normal form have one identity.
pub proof fn lemma_id_depends_only_on_normal_form(p: Seq<char>, q: Seq<char>)
    requires
        normal_form(p) == normal_form(q),
    ensures
        id_of(normal_form(p)) == id_of(normal_form(q)),
{
}

/// Relies on `sha1::Sha1` through the `digest` traits: the 20-byte SHA-1
/// digest of the string's UTF-8 bytes, a fixed function of the characters.
#[verifier::external_body]
fn sha1_digest(s: &str) -> (r: Vec<u8>)
    ensures
        r@ == sha1_of(s@),
        r@.len() == 20,
{
    sha1::Sha1::digest(s.as_bytes()).to_vec()
}

fn hex_digit_str(n: u8) -> (r: &'static str)
    requires
        n < 16,
    ensures
        r@ == seq![hex_digit(n as int)],
{
    let r: &'static str = if n == 0 {
        "0"
    } else if n == 1 {
        "1"
    } else if n == 2 {
        "2"
    } else if n == 3 {
        "3"
    } else if n == 4 {
        "4"
    } else if n == 5 {
        "5"
    } else if n == 6 {
        "6"
    } else if n == 7 {
        "7"
    } else if n == 8 {
        "8"
    } else if n == 9 {
        "9"
    } else if n == 10 {
        "a"
    } else if n == 11 {
        "b"
    } else if n == 12 {
        "c"
    } else if n == 13 {
        "d"
    } else if n == 14 {
        "e"
    } else {
        "f"
    };
    proof {
        reveal_strlit("0");
        reveal_strlit("1");
        reveal_strlit("2");
        reveal_strlit("3");
        reveal_strlit("4");
        reveal_strlit("5");
        reveal_strlit("6");
        reveal_strlit("7");
        reveal_strlit("8");
        reveal_strlit("9");
        reveal_strlit("a");
        reveal_strlit("b");
        reveal_strlit("c");
        reveal_strlit("d");
        reveal_strlit("e");
        reveal_strlit("f");
        assert(r@ =~= seq![hex_digit(n as int)]);
    }
    r
}

/// The lowercase hex form of a byte string, two digits per byte.
pub fn bytes_to_hex(bytes: &Vec<u8>) -> (r: String)
    ensures
        r@ == hex_of(bytes@),
{
    let mut out = String::new();
    let mut i: usize = 0;
    while i < bytes.len()
        invariant
            i <= bytes@.len(),
            out@ == hex_of(bytes@.take(i as int)),
        decreases bytes@.len() - i,
    {
        let b = bytes[i];
        out.append(hex_digit_str(b / 16));
        out.append(hex_digit_str(b % 16));
        proof {
            assert(bytes@.take(i + 1).drop_last() =~= bytes@.take(i as int));
            assert(bytes@.take(i + 1).last() == bytes@[i as int]);
            assert(out@ =~= hex_of(bytes@.take(i + 1)));
        }
        i += 1;
    }
    proof {
        assert(bytes@.take(bytes@.len() as int) =~= bytes@);
    }
    out
}

/// The slash-normalized string form of a path.
pub fn normalize_path(p: &str) -> (r: String)
    ensures
        r@ == normal_form(p@),
{
    let n = p.unicode_len();
    let mut out = String::new();
    let mut i: usize = 0;
    while i < n
        invariant
            i <= n,
            n == p@.len(),
            out@ == normal_form(p@).take(i as int),
        decreases n - i,
    {
        let c = p.get_char(i);
        if c == '\\' {
            out.append("/");
            proof {
                reveal_strlit("/");
                assert(out@ =~= normal_form(p@).take(i + 1));
            }
        } else {
            let piece = p.substring_char(i, i + 1);
            out.append(piece);
            proof {
                assert(out@ =~= normal_form(p@).take(i + 1));
            }
        }
        i += 1;
    }
    proof {
        assert(normal_form(p@).take(p@.len() as int) =~= normal_form(p@));
    }
    out
}

/// The identity of the character sequence exactly as given.
pub fn hash_id(rel_path: &str) -> (r: String)
    ensures
        r@ == id_of(rel_path@),
        r@.len() == 40,
{
    let digest = sha1_digest(rel_path);
    let r = bytes_to_hex(&digest);
    proof {
        lemma_hex_of_len(sha1_of(rel_path@));
    }
    r
}

/// The identity of a node: hex SHA-1 of the slash-normalized relative path.
pub fn node_id(rel_path: &str) -> (r: String)
    ensures
        r@ == id_of(normal_form(rel_path@)),
        r@.len() == 40,
{
    let normal = normalize_path(rel_path);
    hash_id(normal.as_str())
}

fn last_slash(p: &str) -> (r: Option<usize>)
    ensures
        match r {
            Some(i) => i < p@.len() && p@[i as int] == '/' && (forall|j: int|
                i < j < p@.len() ==> p@[j] != '/'),
            None => forall|j: int| 0 <= j < p@.len() ==> p@[j] != '/',
        },
{
    let n = p.unicode_len();
    let mut k: usize = n;
    while k > 0
        invariant
            k <= n,
            n == p@.len(),
            forall|j: int| k <= j < n ==> p@[j] != '/',
        decreases k,
    {
        let c = p.get_char(k - 1);
        if c == '/' {
            return Some(k - 1);
        }
        k -= 1;
    }
    None
}

/// Normalizing is idempotent: one pass leaves nothing more to change.
pub proof fn lemma_normal_form_idempotent(s: Seq<char>)
    ensures
        normal_form(normal_form(s)) == normal_form(s),
{
    assert(normal_form(normal_form(s)) =~= normal_form(s));
}

/// A path without backslashes is already in its normal form.
pub proof fn lemma_normal_form_identity(s: Seq<char>)
    requires
        forall|j: int| 0 <= j < s.len() ==> s[j] != '\\',
    ensures
        normal_form(s) == s,
{
    assert(normal_form(s) =~= s);
}

/// How a path splits at its last slash.
pub proof fn lemma_split_at_slash(s: Seq<char>, i: int)
    requires
        0 <= i < s.len(),
        s[i] == '/',
        forall|j: int| i < j < s.len() ==> s[j] != '/',
    ensures
        parent_path(s) == s.subrange(0, i),
        base_name(s) == s.subrange(i + 1, s.len() as int),
    decreases s.len(),
{
    if i == s.len() - 1 {
        assert(s.drop_last() =~= s.subrange(0, i));
        assert(base_name(s) =~= s.subrange(i + 1, s.len() as int));
    } else {
        assert(s.drop_last()[i] == s[i]);
        lemma_split_at_slash(s.drop_last(), i);
        assert(s.drop_last().subrange(0, i) =~= s.subrange(0, i));
        assert(base_name(s) =~= s.subrange(i + 1, s.len() as int));
    }
}

/// A path without slashes is all name and has the empty parent.
pub proof fn lemma_no_slash(s: Seq<char>)
    requires
        forall|j: int| 0 <= j < s.len() ==> s[j] != '/',
    ensures
        parent_path(s) == Seq::<char>::empty(),
        base_name(s) == s,
    decreases s.len(),
{
    if s.len() > 0 {
        lemma_no_slash(s.drop_last());
        assert(base_name(s) =~= s);
    }
}

/// The part of a path before its last slash; empty when it has none.
pub fn parent_of(p: &str) -> (r: String)
    ensures
        r@ == parent_path(p@),
{
    match last_slash(p) {
        Some(i) => {
            proof {
                lemma_split_at_slash(p@, i as int);
            }
            let s = p.substring_char(0, i);
            s.to_owned()
        },
        None => {
            proof {
                lemma_no_slash(p@);
            }
            String::new()
        },
    }
}

/// The component of a path after its last slash; the path itself when it has
/// none.
pub fn base_name_of(p: &str) -> (r: String)
    ensures
        r@ == base_name(p@),
{
    let n = p.unicode_len();
    match last_slash(p) {
        Some(i) => {
            proof {
                lemma_split_at_slash(p@, i as int);
            }
            let s = p.substring_char(i + 1, n);
            s.to_owned()
        },
        None => {
            proof {
                lemma_no_slash(p@);
            }
            p.to_owned()
        },
    }
}

/// Whether `pat` occurs anywhere in `s`.
pub fn contains_str(s: &str, pat: &str) -> (r: bool)
    ensures
        r == contains_seq(s@, pat@),
{
    let n = s.unicode_len();
    let m = pat.unicode_len();
    if m > n {
        return false;
    }
    let mut i: usize = 0;
    while i <= n - m
        invariant
            m <= n,
            n == s@.len(),
            m == pat@.len(),
            i <= n - m + 1,
            forall|k: int| 0 <= k < i ==> !match_at(s@, pat@, k),
        decreases n + 1 - m - i,
    {
        let mut j: usize = 0;
        let mut ok = true;
        while j < m
            invariant
                i + m <= n,
                n == s@.len(),
                m == pat@.len(),
                j <= m,
                ok ==> forall|t: int| 0 <= t < j ==> s@[i + t] == pat@[t],
                !ok ==> exists|t: int| 0 <= t < m && s@[i + t] != pat@[t],
            decreases m - j,
        {
            if s.get_char(i + j) != pat.get_char(j) {
                ok = false;
            }
            j += 1;
        }
        if ok {
            proof {
                assert(s@.subrange(i as int, i + m) =~= pat@);
                assert(match_at(s@, pat@, i as int));
            }
            return true;
        }
        proof {
            let t = choose|t: int| 0 <= t < m && s@[i + t] != pat@[t];
            assert(s@.subrange(i as int, i + m)[t] == s@[i + t]);
            assert(!match_at(s@, pat@, i as int));
        }
        i += 1;
    }
    proof {
        assert forall|k: int| !match_at(s@, pat@, k) by {
            if 0 <= k && k + pat@.len() <= s@.len() {
                assert(k < i);
            }
        }
    }
    false
}

} // verus!
