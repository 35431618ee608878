use vstd::prelude::*;
use vstd::string::*;

verus! {

/// The NUL character, which no environment key or value may hold.
pub const NUL: char = '\0';

/// The separator of path components.
pub const PATH_SEPARATOR: char = '/';

/// `s` holds the character `c` somewhere.
pub open spec fn has_char(s: Seq<char>, c: char) -> bool {
    exists|i: int| 0 <= i < s.len() && s[i] == c
}

/// `i` is the position of the first `c` in `s`.
pub open spec fn is_first_index(s: Seq<char>, c: char, i: int) -> bool {
    &&& 0 <= i < s.len()
    &&& s[i] == c
    &&& forall|j: int| 0 <= j < i ==> s[j] != c
}

/// The part of `s` before its first `c`, and the part after it.
pub open spec fn split_first(s: Seq<char>, c: char) -> (Seq<char>, Seq<char>)
    recommends
        has_char(s, c),
{
    let i = choose|i: int| is_first_index(s, c, i);
    (s.subrange(0, i), s.subrange(i + 1, s.len() as int))
}

/// What `str::to_lowercase` makes of a string.
pub uninterp spec fn lower_of(s: Seq<char>) -> Seq<char>;

/// What `str::trim` makes of a string.
pub uninterp spec fn trim_of(s: Seq<char>) -> Seq<char>;

/// Relies on `str::to_lowercase`: the lowercase form, which depends on the
/// characters alone.
#[verifier::external_body]
pub(crate) fn lowercase(s: &str) -> (r: String)
    ensures
        r@ == lower_of(s@),
{
    s.to_lowercase()
}

/// Relies on `str::trim`: the string without leading and trailing white space,
/// which depends on the characters alone.
#[verifier::external_body]
pub(crate) fn trim(s: &str) -> (r: String)
    ensures
        r@ == trim_of(s@),
{
    s.trim().to_string()
}

/// Position of the first `c` in `s`, if there is one.
pub fn find_char(s: &str, c: char) -> (r: Option<usize>)
    ensures
        r matches Some(i) ==> is_first_index(s@, c, i as int),
        r is None <==> !has_char(s@, c),
{
    let n = s.unicode_len();
    let mut i: usize = 0;
    while i < n
        invariant
            n == s@.len(),
            i <= n,
            forall|j: int| 0 <= j < i ==> s@[j] != c,
        decreases n - i,
    {
        if s.get_char(i) == c {
            return Some(i);
        }
        i = i + 1;
    }
    None
}

/// Whether `s` holds the character `c`.
pub fn contains_char(s: &str, c: char) -> (r: bool)
    ensures
        r == has_char(s@, c),
{
    find_char(s, c).is_some()
}

/// The first index of a character is unique.
pub proof fn lemma_first_index_unique(s: Seq<char>, c: char, i: int, k: int)
    requires
        is_first_index(s, c, i),
        is_first_index(s, c, k),
    ensures
        i == k,
{
    if i < k {
        assert(s[i] != c);
    } else if k < i {
        assert(s[k] != c);
    }
}

/// Splits `s` around its first `c`, or gives `None` where `s` holds no `c`.
pub fn split_once(s: &str, c: char) -> (r: Option<(String, String)>)
    ensures
        r is None <==> !has_char(s@, c),
        r matches Some(p) ==> (p.0@, p.1@) == split_first(s@, c),
{
    match find_char(s, c) {
        None => None,
        Some(i) => {
            let n = s.unicode_len();
            let head = s.substring_char(0, i).to_owned();
            let tail = s.substring_char(i + 1, n).to_owned();
            proof {
                let k = choose|k: int| is_first_index(s@, c, k);
                lemma_first_index_unique(s@, c, i as int, k);
            }
            Some((head, tail))
        },
    }
}

/// `s` without one leading path separator.
pub open spec fn strip_separator_spec(s: Seq<char>) -> Seq<char> {
    if s.len() > 0 && s[0] == PATH_SEPARATOR {
        s.drop_first()
    } else {
        s
    }
}

/// Removes one leading path separator from `s`, if it starts with one.
pub fn strip_separator(s: &str) -> (r: String)
    ensures
        r@ == strip_separator_spec(s@),
{
    let n = s.unicode_len();
    if n > 0 && s.get_char(0) == PATH_SEPARATOR {
        let r = s.substring_char(1, n).to_owned();
        assert(r@ =~= s@.drop_first());
        r
    } else {
        s.to_owned()
    }
}

} // verus!
