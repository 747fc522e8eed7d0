//! Verified helpers on strings: equality and joining with a separator.

use vstd::prelude::*;

verus! {

/// The sequence obtained by placing `sep` between consecutive elements of
/// `parts` and concatenating everything.
pub open spec fn join_with(parts: Seq<Seq<char>>, sep: Seq<char>) -> Seq<char>
    decreases parts.len(),
{
    if parts.len() == 0 {
        Seq::<char>::empty()
    } else if parts.len() == 1 {
        parts[0]
    } else {
        parts[0] + sep + join_with(parts.drop_first(), sep)
    }
}

/// Joining after appending one more part extends the joined sequence by the
/// separator (when anything precedes it) and the new part.
pub proof fn lemma_join_with_push(parts: Seq<Seq<char>>, sep: Seq<char>, last: Seq<char>)
    ensures
        parts.len() == 0 ==> join_with(parts.push(last), sep) == last,
        parts.len() > 0 ==> join_with(parts.push(last), sep) == join_with(parts, sep) + sep
            + last,
    decreases parts.len(),
{
    let pushed = parts.push(last);
    if parts.len() == 0 {
        assert(pushed[0] == last);
    } else if parts.len() == 1 {
        assert(pushed.drop_first() =~= seq![last]);
        assert(join_with(seq![last], sep) == seq![last][0]);
        assert(pushed[0] == parts[0]);
        assert(join_with(pushed, sep) == parts[0] + sep + last);
    } else {
        lemma_join_with_push(parts.drop_first(), sep, last);
        assert(pushed.drop_first() =~= parts.drop_first().push(last));
        assert((parts[0] + sep + join_with(parts.drop_first(), sep)) + sep + last =~= parts[0]
            + sep + (join_with(parts.drop_first(), sep) + sep + last));
    }
}

/// Compares two string slices character by character.
pub fn str_eq(a: &str, b: &str) -> (r: bool)
    ensures
        r == (a@ == b@),
{
    let a_len = a.unicode_len();
    let b_len = b.unicode_len();
    if a_len != b_len {
        return false;
    }
    let mut i: usize = 0;
    while i < a_len
        invariant
            a_len == a@.len(),
            b_len == b@.len(),
            a_len == b_len,
            i <= a_len,
            forall|j: int| 0 <= j < i ==> a@[j] == b@[j],
        decreases a_len - i,
    {
        if a.get_char(i) != b.get_char(i) {
            return false;
        }
        i += 1;
    }
    proof {
        assert(a@ =~= b@);
    }
    true
}

/// Concatenates the strings in `parts`, placing `sep` between consecutive
/// entries.
pub fn join_strs(parts: &Vec<String>, sep: &str) -> (r: String)
    ensures
        r@ == join_with(parts.deep_view(), sep@),
{
    let mut r = String::new();
    let mut i: usize = 0;
    while i < parts.len()
        invariant
            i <= parts@.len(),
            parts.deep_view().len() == parts@.len(),
            r@ == join_with(parts.deep_view().take(i as int), sep@),
        decreases parts@.len() - i,
    {
        proof {
            assert(parts.deep_view().take(i as int).push(parts.deep_view()[i as int])
                =~= parts.deep_view().take(i + 1 as int));
            lemma_join_with_push(
                parts.deep_view().take(i as int),
                sep@,
                parts.deep_view()[i as int],
            );
        }
        if i > 0 {
            r.append(sep);
        } else {
            proof {
                assert(r@ + parts.deep_view()[i as int] =~= parts.deep_view()[i as int]);
            }
        }
        r.append(parts[i].as_str());
        i += 1;
    }
    proof {
        assert(parts.deep_view().take(parts@.len() as int) =~= parts.deep_view());
    }
    r
}

} // verus!
