use vstd::prelude::*;

verus! {

/// The characters that Unicode classes as white space, as `char::is_whitespace`
/// recognises them.
pub open spec fn is_white(c: char) -> bool {
    let u = c as u32;
    (0x9 <= u && u <= 0xd) || u == 0x20 || u == 0x85 || u == 0xa0 || u == 0x1680 || (0x2000 <= u
        && u <= 0x200a) || u == 0x2028 || u == 0x2029 || u == 0x202f || u == 0x205f || u == 0x3000
}

/// `s` without its trailing white space.
pub open spec fn trimmed_end(s: Seq<char>) -> Seq<char>
    decreases s.len(),
{
    if s.len() > 0 && is_white(s.last()) {
        trimmed_end(s.drop_last())
    } else {
        s
    }
}

/// The first index at or after `i` that does not hold white space.
pub open spec fn skip_white(s: Seq<char>, i: int) -> int
    decreases s.len() - i,
{
    if 0 <= i < s.len() && is_white(s[i]) {
        skip_white(s, i + 1)
    } else {
        i
    }
}

/// The first index at or after `i` that holds white space.
pub open spec fn skip_word(s: Seq<char>, i: int) -> int
    decreases s.len() - i,
{
    if 0 <= i < s.len() && !is_white(s[i]) {
        skip_word(s, i + 1)
    } else {
        i
    }
}

/// The second run of non-white characters in `s`, if there is one.
pub open spec fn second_word(s: Seq<char>) -> Option<Seq<char>> {
    let first_start = skip_white(s, 0);
    let first_end = skip_word(s, first_start);
    let start = skip_white(s, first_end);
    if start < s.len() {
        Some(s.subrange(start, skip_word(s, start)))
    } else {
        None
    }
}

proof fn lemma_skip_bounds(s: Seq<char>, i: int)
    requires
        0 <= i <= s.len(),
    ensures
        i <= skip_white(s, i) <= s.len(),
        i <= skip_word(s, i) <= s.len(),
    decreases s.len() - i,
{
    if i < s.len() {
        lemma_skip_bounds(s, i + 1);
    }
}

/// Whether `c` is white space.
pub fn is_white_char(c: char) -> (r: bool)
    ensures
        r == is_white(c),
{
    let u = c as u32;
    (0x9 <= u && u <= 0xd) || u == 0x20 || u == 0x85 || u == 0xa0 || u == 0x1680 || (0x2000 <= u
        && u <= 0x200a) || u == 0x2028 || u == 0x2029 || u == 0x202f || u == 0x205f || u == 0x3000
}

/// `s` with its trailing white space removed, as a line read from a terminal
/// is cleaned up.
pub fn trim_end(s: &str) -> (r: String)
    ensures
        r@ == trimmed_end(s@),
{
    let n = s.unicode_len();
    let mut i: usize = n;
    assert(s@.subrange(0, n as int) =~= s@);
    while i > 0 && is_white_char(s.get_char(i - 1))
        invariant
            n == s@.len(),
            i <= n,
            trimmed_end(s@) == trimmed_end(s@.subrange(0, i as int)),
        decreases i,
    {
        assert(s@.subrange(0, i as int).drop_last() =~= s@.subrange(0, i - 1));
        i = i - 1;
    }
    let r = s.substring_char(0, i).to_owned();
    r
}

fn skip_white_from(s: &str, n: usize, i: usize) -> (r: usize)
    requires
        n == s@.len(),
        i <= n,
    ensures
        r == skip_white(s@, i as int),
{
    let mut j: usize = i;
    while j < n && is_white_char(s.get_char(j))
        invariant
            n == s@.len(),
            i <= j <= n,
            skip_white(s@, j as int) == skip_white(s@, i as int),
        decreases n - j,
    {
        j = j + 1;
    }
    j
}

fn skip_word_from(s: &str, n: usize, i: usize) -> (r: usize)
    requires
        n == s@.len(),
        i <= n,
    ensures
        r == skip_word(s@, i as int),
{
    let mut j: usize = i;
    while j < n && !is_white_char(s.get_char(j))
        invariant
            n == s@.len(),
            i <= j <= n,
            skip_word(s@, j as int) == skip_word(s@, i as int),
        decreases n - j,
    {
        j = j + 1;
    }
    j
}

/// The second white-space separated word of `s`: in an HTTP request line, the
/// request target.
pub fn second_word_of(s: &str) -> (r: Option<String>)
    ensures
        r matches Some(w) ==> second_word(s@) == Some(w@),
        r is None ==> second_word(s@) is None,
{
    let n = s.unicode_len();
    let a = skip_white_from(s, n, 0);
    proof {
        lemma_skip_bounds(s@, 0);
    }
    let b = skip_word_from(s, n, a);
    proof {
        lemma_skip_bounds(s@, a as int);
    }
    let c = skip_white_from(s, n, b);
    proof {
        lemma_skip_bounds(s@, b as int);
    }
    if c < n {
        let e = skip_word_from(s, n, c);
        proof {
            lemma_skip_bounds(s@, c as int);
        }
        Some(s.substring_char(c, e).to_owned())
    } else {
        None
    }
}

} // verus!
