use vstd::prelude::*;
use vstd::string::StrSliceExecFns;

verus! {

/// The fields of `s` delimited by `sep`: the empty sequence splits into one
/// empty field, and every occurrence of `sep` ends a field, so a sequence with
/// `n` separators splits into `n + 1` fields.
pub open spec fn split_spec(s: Seq<char>, sep: char) -> Seq<Seq<char>>
    decreases s.len(),
{
    if s.len() == 0 {
        seq![Seq::<char>::empty()]
    } else {
        let prefix = split_spec(s.drop_last(), sep);
        if s.last() == sep {
            prefix.push(Seq::<char>::empty())
        } else {
            prefix.update(prefix.len() - 1, prefix.last().push(s.last()))
        }
    }
}

/// How many times `c` occurs in `s`.
pub open spec fn count_char(s: Seq<char>, c: char) -> nat
    decreases s.len(),
{
    if s.len() == 0 {
        0
    } else {
        count_char(s.drop_last(), c) + if s.last() == c {
            1nat
        } else {
            0nat
        }
    }
}

/// The views of a sequence of strings, as contracts speak of them.
pub open spec fn field_views(v: Seq<String>) -> Seq<Seq<char>> {
    v.map_values(|f: String| f@)
}

/// Splitting yields one field more than there are separators.
pub proof fn lemma_split_len(s: Seq<char>, sep: char)
    ensures
        split_spec(s, sep).len() == count_char(s, sep) + 1,
    decreases s.len(),
{
    if s.len() > 0 {
        lemma_split_len(s.drop_last(), sep);
    }
}

/// No field of a split holds the separator: every occurrence of `sep` ends a
/// field instead of entering one.
pub proof fn lemma_split_fields_have_no_sep(s: Seq<char>, sep: char, i: int, j: int)
    requires
        0 <= i < split_spec(s, sep).len(),
        0 <= j < split_spec(s, sep)[i].len(),
    ensures
        split_spec(s, sep)[i][j] != sep,
    decreases s.len(),
{
    if s.len() > 0 {
        let prefix = split_spec(s.drop_last(), sep);
        lemma_split_len(s.drop_last(), sep);
        if s.last() == sep {
            if i < prefix.len() {
                lemma_split_fields_have_no_sep(s.drop_last(), sep, i, j);
            }
        } else {
            if i < prefix.len() - 1 || j < prefix.last().len() {
                lemma_split_fields_have_no_sep(s.drop_last(), sep, i, j);
            }
        }
    }
}

/// The fields joined by single separators.
pub open spec fn join_with(fields: Seq<Seq<char>>, sep: char) -> Seq<char>
    decreases fields.len(),
{
    if fields.len() == 0 {
        Seq::<char>::empty()
    } else if fields.len() == 1 {
        fields[0]
    } else {
        join_with(fields.drop_last(), sep) + seq![sep] + fields.last()
    }
}

/// Joining the fields of a split with its separator gives back the input:
/// together with `lemma_split_fields_have_no_sep` this pins the split exactly.
pub proof fn lemma_split_then_join(s: Seq<char>, sep: char)
    ensures
        join_with(split_spec(s, sep), sep) == s,
    decreases s.len(),
{
    if s.len() == 0 {
        assert(join_with(split_spec(s, sep), sep) =~= s);
    } else {
        lemma_split_then_join(s.drop_last(), sep);
        lemma_split_len(s.drop_last(), sep);
        let prefix = split_spec(s.drop_last(), sep);
        if s.last() == sep {
            assert(prefix.push(Seq::<char>::empty()).drop_last() =~= prefix);
            assert(join_with(split_spec(s, sep), sep) =~= s);
        } else {
            let updated = prefix.update(prefix.len() - 1, prefix.last().push(s.last()));
            if prefix.len() == 1 {
                assert(join_with(updated, sep) =~= s);
            } else {
                assert(updated.drop_last() =~= prefix.drop_last());
                assert(updated.last() == prefix.last().push(s.last()));
                assert(join_with(prefix, sep) == join_with(prefix.drop_last(), sep) + seq![sep]
                    + prefix.last());
                assert(join_with(updated, sep) == join_with(prefix.drop_last(), sep) + seq![sep]
                    + prefix.last().push(s.last()));
                assert(join_with(updated, sep) =~= join_with(prefix, sep).push(s.last()));
                assert(join_with(prefix, sep).push(s.last()) =~= s);
            }
        }
    }
}

/// Splits `s` at every occurrence of `sep`, keeping empty fields.
pub fn split_on(s: &str, sep: char) -> (r: Vec<String>)
    ensures
        field_views(r@) == split_spec(s@, sep),
{
    let n = s.unicode_len();
    let mut r: Vec<String> = Vec::new();
    let mut start: usize = 0;
    let mut i: usize = 0;
    proof {
        assert(s@.take(0) =~= Seq::<char>::empty());
        assert(field_views(r@).push(s@.subrange(0, 0)) =~~= split_spec(s@.take(0), sep));
    }
    while i < n
        invariant
            start <= i <= n,
            n == s@.len(),
            field_views(r@).push(s@.subrange(start as int, i as int)) == split_spec(
                s@.take(i as int),
                sep,
            ),
        decreases n - i,
    {
        let ghost pre = s@.take(i as int);
        let ghost cur = s@.subrange(start as int, i as int);
        proof {
            assert(s@.take(i + 1).drop_last() =~= pre);
            assert(s@.take(i + 1).last() == s@[i as int]);
        }
        let c = s.get_char(i);
        if c == sep {
            let field = s.substring_char(start, i);
            r.push(field.to_owned());
            proof {
                assert(field_views(r@) =~~= split_spec(pre, sep));
                assert(s@.subrange(i + 1, i + 1) =~= Seq::<char>::empty());
                assert(field_views(r@).push(s@.subrange(i + 1, i + 1)) =~~= split_spec(
                    s@.take(i + 1),
                    sep,
                ));
            }
            start = i + 1;
        } else {
            proof {
                let prefix = split_spec(pre, sep);
                assert(prefix.len() > 0) by {
                    lemma_split_len(pre, sep);
                }
                assert(prefix.last() == cur);
                assert(cur.push(s@[i as int]) =~= s@.subrange(start as int, i + 1));
                assert(field_views(r@).push(s@.subrange(start as int, i + 1)) =~~= prefix.update(
                    prefix.len() - 1,
                    prefix.last().push(s@[i as int]),
                ));
            }
        }
        i = i + 1;
    }
    let last = s.substring_char(start, n);
    r.push(last.to_owned());
    proof {
        assert(s@.take(n as int) =~= s@);
        assert(field_views(r@) =~~= split_spec(s@, sep));
    }
    r
}

} // verus!
