use vstd::prelude::*;

use vstd::string::StrSliceExecFns;

verus! {

/// A whitespace character as the header grammar sees it.
pub open spec fn is_space_char(c: char) -> bool {
    c == ' ' || c == '\t' || c == '\n' || c == '\r' || c == '\x0b' || c == '\x0c'
}

/// The maximal run of non-whitespace characters that ends the sequence
/// (empty if the sequence ends in whitespace).
pub open spec fn last_run(s: Seq<char>) -> Seq<char>
    decreases s.len(),
{
    if s.len() == 0 || is_space_char(s.last()) {
        Seq::empty()
    } else {
        last_run(s.drop_last()).push(s.last())
    }
}

/// The last whitespace-delimited word of the sequence, if any.
pub open spec fn spec_last_token(s: Seq<char>) -> Option<Seq<char>>
    decreases s.len(),
{
    if s.len() == 0 {
        None
    } else if is_space_char(s.last()) {
        spec_last_token(s.drop_last())
    } else {
        Some(last_run(s))
    }
}

fn is_space(c: char) -> (r: bool)
    ensures
        r == is_space_char(c),
{
    c == ' ' || c == '\t' || c == '\n' || c == '\r' || c == '\x0b' || c == '\x0c'
}

proof fn lemma_last_run_is_subrange(s: Seq<char>, i: int, j: int)
    requires
        0 <= i <= j <= s.len(),
        forall|k: int| i <= k < j ==> !is_space_char(s[k]),
        i == 0 || is_space_char(s[i - 1]),
    ensures
        last_run(s.take(j)) == s.subrange(i, j),
    decreases j - i,
{
    if j == i {
        assert(s.subrange(i, j) =~= Seq::empty());
    } else {
        assert(s.take(j).last() == s[j - 1]);
        assert(s.take(j).drop_last() =~= s.take(j - 1));
        lemma_last_run_is_subrange(s, i, j - 1);
        assert(s.subrange(i, j - 1).push(s[j - 1]) =~= s.subrange(i, j));
    }
}

/// Only the final whitespace-delimited segment of an authorization header's
/// value is treated as the token; a value that holds no word at all has no
/// token.
pub fn token_from_header(value: &str) -> (r: Option<&str>)
    ensures
        match r {
            Some(t) => spec_last_token(value@) == Some(t@),
            None => spec_last_token(value@) is None,
        },
{
    let len: usize = value.unicode_len();
    let mut j: usize = len;
    proof {
        assert(value@.take(len as int) =~= value@);
    }
    while j > 0 && is_space(value.get_char(j - 1))
        invariant
            j <= value@.len(),
            len == value@.len(),
            spec_last_token(value@) == spec_last_token(value@.take(j as int)),
        decreases j,
    {
        proof {
            assert(value@.take(j as int).last() == value@[j - 1]);
            assert(value@.take(j as int).drop_last() =~= value@.take(j - 1));
        }
        j = j - 1;
    }
    if j == 0 {
        proof {
            assert(value@.take(0) =~= Seq::<char>::empty());
        }
        return None;
    }
    let mut i: usize = j;
    while i > 0 && !is_space(value.get_char(i - 1))
        invariant
            0 <= i <= j <= value@.len(),
            forall|k: int| i <= k < j ==> !is_space_char(value@[k]),
        decreases i,
    {
        i = i - 1;
    }
    proof {
        lemma_last_run_is_subrange(value@, i as int, j as int);
        assert(value@.take(j as int).last() == value@[j - 1]);
    }
    Some(value.substring_char(i, j))
}

} // verus!
