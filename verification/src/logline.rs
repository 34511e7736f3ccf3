use vstd::prelude::*;
use crate::split::{field_views, split_on, split_spec};

verus! {

/// One record of the fetched log, as the reporting template lays it out: seven
/// fields delimited by six pipes. Markers are the literal `"working"` or
/// `"immutable"` when set and empty otherwise; the bookmark field holds
/// space-separated names.
pub struct LogLine {
    pub change_id: String,
    pub bookmarks: String,
    pub author: String,
    pub date: String,
    pub description: String,
    pub working: String,
    pub immutable: String,
}

/// The fields of a record, in template order.
pub open spec fn line_fields(l: LogLine) -> Seq<Seq<char>> {
    seq![l.change_id@, l.bookmarks@, l.author@, l.date@, l.description@, l.working@, l.immutable@]
}

/// The non-empty lines of a log text, in order: each is one record.
pub open spec fn log_lines_spec(text: Seq<char>) -> Seq<Seq<char>> {
    split_spec(text, '\n').filter(|l: Seq<char>| l.len() > 0)
}

/// Every record of the text splits into exactly seven pipe-delimited fields.
pub open spec fn log_well_formed(text: Seq<char>) -> bool {
    forall|i: int|
        0 <= i < log_lines_spec(text).len() ==> split_spec(
            #[trigger] log_lines_spec(text)[i],
            '|',
        ).len() == 7
}

proof fn lemma_log_lines_push(s: Seq<Seq<char>>, x: Seq<char>)
    ensures
        x.len() > 0 ==> s.push(x).filter(|l: Seq<char>| l.len() > 0) == s.filter(
            |l: Seq<char>| l.len() > 0,
        ).push(x),
        x.len() == 0 ==> s.push(x).filter(|l: Seq<char>| l.len() > 0) == s.filter(
            |l: Seq<char>| l.len() > 0,
        ),
{
    reveal(Seq::filter);
    assert(s.push(x).drop_last() =~= s);
}

/// An empty log text holds no records: it splits into one empty line, which is
/// dropped.
pub proof fn lemma_empty_log_has_no_lines(text: Seq<char>)
    requires
        text.len() == 0,
    ensures
        log_lines_spec(text).len() == 0,
{
    reveal_with_fuel(Seq::<_>::filter, 3);
    assert(split_spec(text, '\n') =~~= seq![Seq::<char>::empty()]);
    assert(seq![Seq::<char>::empty()].drop_last() =~= Seq::<Seq<char>>::empty());
}

/// Parses one record: succeeds exactly when the line has seven pipe-delimited
/// fields, and then carries each field through unchanged.
pub fn parse_log_line(line: &str) -> (r: Option<LogLine>)
    ensures
        split_spec(line@, '|').len() == 7 ==> (r matches Some(l) && line_fields(l) == split_spec(
            line@,
            '|',
        )),
        split_spec(line@, '|').len() != 7 ==> r is None,
{
    let mut fields = split_on(line, '|');
    proof {
        assert(field_views(fields@).len() == fields@.len());
    }
    if fields.len() != 7 {
        return None;
    }
    let immutable = fields.pop().unwrap();
    let working = fields.pop().unwrap();
    let description = fields.pop().unwrap();
    let date = fields.pop().unwrap();
    let author = fields.pop().unwrap();
    let bookmarks = fields.pop().unwrap();
    let change_id = fields.pop().unwrap();
    let l = LogLine { change_id, bookmarks, author, date, description, working, immutable };
    proof {
        assert(line_fields(l) =~~= split_spec(line@, '|'));
    }
    Some(l)
}

/// Parses a whole log text into its records: succeeds exactly when every
/// non-empty line has seven pipe-delimited fields — in particular, an empty
/// text parses to an empty sequence of records.
pub fn parse_log(text: &str) -> (r: Option<Vec<LogLine>>)
    ensures
        log_well_formed(text@) <==> r is Some,
        r matches Some(v) ==> {
            &&& v@.len() == log_lines_spec(text@).len()
            &&& forall|i: int|
                0 <= i < v@.len() ==> line_fields(#[trigger] v@[i]) == split_spec(
                    log_lines_spec(text@)[i],
                    '|',
                )
        },
        text@.len() == 0 ==> (r matches Some(v) && v@.len() == 0),
{
    let lines = split_on(text, '\n');
    let ghost fv = field_views(lines@);
    let mut out: Vec<LogLine> = Vec::new();
    let mut i: usize = 0;
    proof {
        assert(fv.take(0) =~= Seq::<Seq<char>>::empty());
        reveal_with_fuel(Seq::<_>::filter, 2);
        assert(fv.take(0).filter(|l: Seq<char>| l.len() > 0) =~~= Seq::<Seq<char>>::empty());
    }
    while i < lines.len()
        invariant
            i <= lines@.len(),
            fv == field_views(lines@),
            fv == split_spec(text@, '\n'),
            fv.len() == lines@.len(),
            out@.len() == fv.take(i as int).filter(|l: Seq<char>| l.len() > 0).len(),
            forall|j: int|
                0 <= j < out@.len() ==> line_fields(#[trigger] out@[j]) == split_spec(
                    fv.take(i as int).filter(|l: Seq<char>| l.len() > 0)[j],
                    '|',
                ),
        decreases lines@.len() - i,
    {
        let ghost prev = fv.take(i as int);
        proof {
            assert(fv.take(i + 1) =~~= prev.push(fv[i as int]));
            lemma_log_lines_push(prev, fv[i as int]);
        }
        let line = &lines[i];
        proof {
            assert(line@ == fv[i as int]);
        }
        if !line.as_str().is_empty() {
            match parse_log_line(line.as_str()) {
                Some(l) => {
                    out.push(l);
                },
                None => {
                    proof {
                        broadcast use vstd::seq_lib::group_filter_ensures;

                        let all = fv.filter(|l: Seq<char>| l.len() > 0);
                        assert(all.contains(fv[i as int]));
                        let k = choose|k: int|
                            0 <= k < all.len() && all[k] == fv[i as int];
                        assert(split_spec(log_lines_spec(text@)[k], '|').len() != 7);
                    }
                    return None;
                },
            }
        }
        i = i + 1;
    }
    proof {
        assert(fv.take(lines@.len() as int) =~= fv);
        assert forall|k: int| 0 <= k < log_lines_spec(text@).len() implies split_spec(
            #[trigger] log_lines_spec(text@)[k],
            '|',
        ).len() == 7 by {
            assert(line_fields(out@[k]) == split_spec(log_lines_spec(text@)[k], '|'));
            assert(line_fields(out@[k]).len() == 7);
        }
        if text@.len() == 0 {
            lemma_empty_log_has_no_lines(text@);
        }
    }
    Some(out)
}

} // verus!
