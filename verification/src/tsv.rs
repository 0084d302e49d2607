//! Rendering records as tab-separated rows, splitting rows back into fields,
//! and the proof that the two are inverse for tab-free field values.

use vstd::prelude::*;
use crate::record::{Record, RecordV};
use crate::text::{chars_of, string_from_chars};

verus! {

/// The serialized fields of a record, in column order.
pub open spec fn record_fields(r: RecordV) -> Seq<Seq<char>> {
    seq![
        r.idcoordinates2D,
        r.FragFp,
        r.id,
        r.weblink,
        r.section,
        r.image,
        r.subsection,
        r.name,
        r.substance,
        r.constitute,
        r.ec,
        r.cas,
        r.pubchem_cas,
    ]
}

/// Fields joined with a single tab between neighbours.
pub open spec fn join_tabs(fields: Seq<Seq<char>>) -> Seq<char>
    decreases fields.len(),
{
    if fields.len() == 0 {
        Seq::empty()
    } else if fields.len() == 1 {
        fields[0]
    } else {
        join_tabs(fields.drop_last()) + seq!['\t'] + fields.last()
    }
}

/// One record as one TSV row.
pub open spec fn tsv_line(r: RecordV) -> Seq<char> {
    join_tabs(record_fields(r))
}

/// A row split at every tab; the empty row is one empty field.
pub open spec fn split_tabs(s: Seq<char>) -> Seq<Seq<char>>
    decreases s.len(),
{
    if s.len() == 0 {
        seq![Seq::<char>::empty()]
    } else {
        let rest = split_tabs(s.drop_last());
        if s.last() == '\t' {
            rest.push(Seq::empty())
        } else {
            rest.drop_last().push(rest.last().push(s.last()))
        }
    }
}

proof fn lemma_split_tabs_len(s: Seq<char>)
    ensures
        split_tabs(s).len() >= 1,
    decreases s.len(),
{
    if s.len() > 0 {
        lemma_split_tabs_len(s.drop_last());
    }
}

proof fn lemma_split_no_tab(s: Seq<char>)
    requires
        forall|j: int| 0 <= j < s.len() ==> s[j] != '\t',
    ensures
        split_tabs(s) == seq![s],
    decreases s.len(),
{
    if s.len() == 0 {
        assert(Seq::<char>::empty() =~= s);
    } else {
        lemma_split_no_tab(s.drop_last());
        let rest = split_tabs(s.drop_last());
        assert(rest.drop_last() =~= Seq::<Seq<char>>::empty());
        assert(s.drop_last().push(s.last()) =~= s);
        assert(split_tabs(s) =~= seq![s]);
    }
}

proof fn lemma_split_append(s: Seq<char>, t: Seq<char>)
    requires
        forall|j: int| 0 <= j < t.len() ==> t[j] != '\t',
    ensures
        split_tabs(s + seq!['\t'] + t) == split_tabs(s).push(t),
    decreases t.len(),
{
    lemma_split_tabs_len(s);
    if t.len() == 0 {
        let u = s + seq!['\t'] + t;
        assert(u.last() == '\t');
        assert(u.drop_last() =~= s);
        assert(t =~= Seq::<char>::empty());
    } else {
        let t0 = t.drop_last();
        lemma_split_append(s, t0);
        let u = s + seq!['\t'] + t;
        assert(u.last() == t.last());
        assert(u.drop_last() =~= s + seq!['\t'] + t0);
        let rest = split_tabs(u.drop_last());
        assert(rest == split_tabs(s).push(t0));
        assert(rest.drop_last() =~= split_tabs(s));
        assert(rest.last() == t0);
        assert(t0.push(t.last()) =~= t);
        assert(split_tabs(u) =~= split_tabs(s).push(t));
    }
}

/// Splitting a tab-joined row of tab-free fields gives back the fields.
pub proof fn lemma_split_join(fields: Seq<Seq<char>>)
    requires
        fields.len() >= 1,
        forall|i: int, j: int|
            0 <= i < fields.len() && 0 <= j < fields[i].len() ==> #[trigger] fields[i][j] != '\t',
    ensures
        split_tabs(join_tabs(fields)) == fields,
    decreases fields.len(),
{
    if fields.len() == 1 {
        lemma_split_no_tab(fields[0]);
        assert(seq![fields[0]] =~= fields);
    } else {
        let front = fields.drop_last();
        lemma_split_join(front);
        lemma_split_append(join_tabs(front), fields.last());
        assert(front.push(fields.last()) =~= fields);
    }
}

/// Every record field rendered to a TSV row and re-parsed by splitting on the
/// tab delimiter yields the original field values unchanged, for field values
/// free of embedded tabs and newlines.
pub proof fn lemma_tsv_round_trip(r: RecordV)
    requires
        forall|i: int, j: int|
            0 <= i < record_fields(r).len() && 0 <= j < record_fields(r)[i].len()
                ==> #[trigger] record_fields(r)[i][j] != '\t' && record_fields(r)[i][j] != '\n',
    ensures
        split_tabs(tsv_line(r)) == record_fields(r),
{
    lemma_split_join(record_fields(r));
}

/// Renders one record as one TSV row in column order.
pub fn record_to_tsv(r: &Record) -> (line: String)
    ensures
        line@ == tsv_line(r@),
{
    let mut parts: Vec<Vec<char>> = Vec::new();
    parts.push(chars_of(r.idcoordinates2D.as_str()));
    parts.push(chars_of(r.FragFp.as_str()));
    parts.push(chars_of(r.id.as_str()));
    parts.push(chars_of(r.weblink.as_str()));
    parts.push(chars_of(r.section.as_str()));
    parts.push(chars_of(r.image.as_str()));
    parts.push(chars_of(r.subsection.as_str()));
    parts.push(chars_of(r.name.as_str()));
    parts.push(chars_of(r.substance.as_str()));
    parts.push(chars_of(r.constitute.as_str()));
    parts.push(chars_of(r.ec.as_str()));
    parts.push(chars_of(r.cas.as_str()));
    parts.push(chars_of(r.pubchem_cas.as_str()));
    proof {
        assert(parts.deep_view() =~~= record_fields(r@));
    }
    let joined = join_with_tabs(&parts);
    string_from_chars(&joined)
}

/// Joins character pieces with a single tab between neighbours.
fn join_with_tabs(parts: &Vec<Vec<char>>) -> (out: Vec<char>)
    ensures
        out@ == join_tabs(parts.deep_view()),
{
    let ghost dv = parts.deep_view();
    let mut out: Vec<char> = Vec::new();
    if parts.len() == 0 {
        return out;
    }
    let mut i: usize = 0;
    while i < parts.len()
        invariant
            dv == parts.deep_view(),
            i <= dv.len(),
            dv.len() == parts@.len(),
            out@ == join_tabs(dv.subrange(0, i as int)),
        decreases dv.len() - i,
    {
        if i > 0 {
            out.push('\t');
        }
        let part = &parts[i];
        let mut j: usize = 0;
        let ghost mid = out@;
        while j < part.len()
            invariant
                j <= part@.len(),
                out@ == mid + part@.subrange(0, j as int),
            decreases part@.len() - j,
        {
            proof {
                assert(mid + part@.subrange(0, 0) =~= mid);
            }
            out.push(part[j]);
            j = j + 1;
            proof {
                assert(out@ =~= mid + part@.subrange(0, j as int));
            }
        }
        i = i + 1;
        proof {
            let sub = dv.subrange(0, i as int);
            assert(sub.drop_last() =~= dv.subrange(0, i - 1));
            assert(sub.last() == dv[i - 1]);
            assert(part@.subrange(0, part@.len() as int) =~= part@);
            assert(part@ == dv[i - 1]);
            if i == 1 {
                assert(out@ =~= join_tabs(sub));
            } else {
                assert(mid =~= join_tabs(dv.subrange(0, i - 1)) + seq!['\t']);
                assert(out@ =~= join_tabs(sub));
            }
        }
    }
    proof {
        assert(dv.subrange(0, dv.len() as int) =~= dv);
    }
    out
}

/// Splits one TSV row at every tab, in order.
pub fn split_tsv(line: &str) -> (r: Vec<String>)
    ensures
        r.deep_view() == split_tabs(line@),
{
    let cs = chars_of(line);
    let mut pieces: Vec<String> = Vec::new();
    let mut cur: Vec<char> = Vec::new();
    let mut i: usize = 0;
    proof {
        assert(pieces.deep_view().push(cur@) =~= split_tabs(cs@.subrange(0, 0)));
    }
    while i < cs.len()
        invariant
            cs@ == line@,
            i <= cs@.len(),
            pieces.deep_view().push(cur@) == split_tabs(cs@.subrange(0, i as int)),
        decreases cs@.len() - i,
    {
        let c = cs[i];
        i = i + 1;
        proof {
            assert(cs@.subrange(0, i as int).drop_last() =~= cs@.subrange(0, i - 1));
            assert(cs@.subrange(0, i as int).last() == c);
        }
        if c == '\t' {
            let ghost rest = split_tabs(cs@.subrange(0, i - 1));
            pieces.push(string_from_chars(&cur));
            cur = Vec::new();
            proof {
                assert(pieces.deep_view() =~= rest);
                assert(pieces.deep_view().push(cur@) =~= rest.push(Seq::<char>::empty()));
            }
        } else {
            let ghost rest = split_tabs(cs@.subrange(0, i - 1));
            cur.push(c);
            proof {
                assert(rest.drop_last() =~= pieces.deep_view());
                assert(pieces.deep_view().push(cur@) =~= rest.drop_last().push(
                    rest.last().push(c),
                ));
            }
        }
    }
    proof {
        assert(cs@.subrange(0, cs@.len() as int) =~= cs@);
    }
    pieces.push(string_from_chars(&cur));
    proof {
        assert(pieces.deep_view() =~= split_tabs(line@));
    }
    pieces
}

} // verus!
