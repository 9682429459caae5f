//! Character-level string editing for the popup text fields.

use vstd::prelude::*;
use vstd::string::StrSliceExecFns;

verus! {

/// Relies on `String::push`: appends the given character to the end of the
/// string.
#[verifier::external_body]
pub fn push_char(s: &mut String, ch: char)
    ensures
        final(s)@ == old(s)@.push(ch),
{
    s.push(ch);
}

/// What removing the last character leaves: an empty sequence stays
/// empty.
pub open spec fn seq_del_char(s: Seq<char>) -> Seq<char> {
    if s.len() == 0 {
        s
    } else {
        s.drop_last()
    }
}

/// What `n` single-character deletions leave of `s`.
pub open spec fn del_chars(s: Seq<char>, n: nat) -> Seq<char>
    decreases n,
{
    if n == 0 {
        s
    } else {
        del_chars(seq_del_char(s), (n - 1) as nat)
    }
}

/// Writing the characters of `cs` into a field and then deleting single
/// characters as many times returns the field to what it held before; in
/// particular, a field filled from empty is empty again.
pub proof fn lemma_writes_then_deletes(s: Seq<char>, cs: Seq<char>)
    ensures
        del_chars(s + cs, cs.len()) == s,
    decreases cs.len(),
{
    if cs.len() == 0 {
        assert(s + cs =~= s);
    } else {
        assert((s + cs).len() > 0);
        assert(seq_del_char(s + cs) =~= s + cs.drop_last());
        lemma_writes_then_deletes(s, cs.drop_last());
    }
}

/// Removes the last character; an empty string stays empty.
pub fn del_last_char(s: &String) -> (r: String)
    ensures
        r@ == seq_del_char(s@),
{
    let n = s.as_str().unicode_len();
    if n == 0 {
        s.clone()
    } else {
        let r = s.as_str().substring_char(0, n - 1).to_owned();
        proof {
            assert(s@.subrange(0, n - 1) =~= s@.drop_last());
        }
        r
    }
}

/// What deleting the trailing word leaves: everything before the last
/// space, or nothing when the string has no space at all.
pub open spec fn spec_del_word(s: Seq<char>) -> Seq<char>
    decreases s.len(),
{
    if s.len() == 0 {
        s
    } else if s.last() == ' ' {
        s.drop_last()
    } else {
        spec_del_word(s.drop_last())
    }
}

proof fn lemma_del_word_at(s: Seq<char>, i: int)
    requires
        0 <= i < s.len(),
        s[i] == ' ',
        forall|j: int| i < j < s.len() ==> s[j] != ' ',
    ensures
        spec_del_word(s) == s.take(i),
    decreases s.len(),
{
    if i == s.len() - 1 {
        assert(s.drop_last() =~= s.take(i));
    } else {
        assert(s.last() != ' ');
        lemma_del_word_at(s.drop_last(), i);
        assert(s.drop_last().take(i) =~= s.take(i));
    }
}

proof fn lemma_del_word_none(s: Seq<char>)
    requires
        forall|j: int| 0 <= j < s.len() ==> s[j] != ' ',
    ensures
        spec_del_word(s) == Seq::<char>::empty(),
    decreases s.len(),
{
    if s.len() > 0 {
        lemma_del_word_none(s.drop_last());
    } else {
        assert(s =~= Seq::<char>::empty());
    }
}

/// Deletes the trailing word: the result is everything before the last
/// space, or the empty string when there is no space.
pub fn del_word(s: String) -> (r: String)
    ensures
        r@ == spec_del_word(s@),
{
    let n = s.as_str().unicode_len();
    let mut i: usize = n;
    let mut cut: usize = 0;
    let mut found = false;
    while i > 0
        invariant_except_break
            !found,
        invariant
            n == s@.len(),
            i <= n,
            !found ==> forall|j: int| i <= j < n ==> s@[j] != ' ',
            found ==> cut < n && s@[cut as int] == ' ' && forall|j: int|
                cut < j < n ==> s@[j] != ' ',
        ensures
            found ==> cut < n && s@[cut as int] == ' ' && forall|j: int|
                cut < j < n ==> s@[j] != ' ',
            !found ==> forall|j: int| 0 <= j < n ==> s@[j] != ' ',
        decreases i,
    {
        if s.as_str().get_char(i - 1) == ' ' {
            found = true;
            cut = i - 1;
            break;
        }
        i = i - 1;
    }
    if found {
        let r = s.as_str().substring_char(0, cut).to_owned();
        proof {
            lemma_del_word_at(s@, cut as int);
            assert(s@.subrange(0, cut as int) =~= s@.take(cut as int));
        }
        r
    } else {
        proof {
            lemma_del_word_none(s@);
        }
        String::new()
    }
}

} // verus!
