//! NMEA sentences from a GPS receiver: splitting a line into its
//! comma-separated fields and picking the coordinate fields out of a
//! `$GPGGA` fix.

use vstd::prelude::*;

verus! {

/// The fields of `s` separated by commas, read from left to right: every
/// comma closes the current field and opens a new one, so a line with `k`
/// commas has `k + 1` fields (an empty line has one empty field).
pub open spec fn split_commas(s: Seq<char>) -> Seq<Seq<char>>
    decreases s.len(),
{
    if s.len() == 0 {
        seq![Seq::<char>::empty()]
    } else {
        let prev = split_commas(s.drop_last());
        if s.last() == ',' {
            prev.push(Seq::<char>::empty())
        } else {
            prev.update(prev.len() - 1, prev.last().push(s.last()))
        }
    }
}

/// The fields joined back together with a comma between each two.
pub open spec fn join_commas(fields: Seq<Seq<char>>) -> Seq<char>
    decreases fields.len(),
{
    if fields.len() == 0 {
        Seq::<char>::empty()
    } else if fields.len() == 1 {
        fields[0]
    } else {
        join_commas(fields.drop_last()) + seq![','] + fields.last()
    }
}

/// The character sequences held by a list of fields.
pub open spec fn fields_view(v: Seq<Vec<char>>) -> Seq<Seq<char>> {
    v.map_values(|f: Vec<char>| f@)
}

/// Splitting a line always gives at least one field.
pub proof fn lemma_split_nonempty(s: Seq<char>)
    ensures
        split_commas(s).len() >= 1,
    decreases s.len(),
{
    if s.len() > 0 {
        lemma_split_nonempty(s.drop_last());
    }
}

/// Joining the fields of a line with commas gives the line back, and no
/// field holds a comma.
pub proof fn lemma_split_join(s: Seq<char>)
    ensures
        join_commas(split_commas(s)) == s,
        forall|i: int, j: int|
            0 <= i < split_commas(s).len() && 0 <= j < split_commas(s)[i].len() ==> split_commas(
                s,
            )[i][j] != ',',
    decreases s.len(),
{
    if s.len() == 0 {
        assert(join_commas(split_commas(s)) =~= s);
    } else {
        let t = s.drop_last();
        let c = s.last();
        let p = split_commas(t);
        lemma_split_join(t);
        lemma_split_nonempty(t);
        let n = p.len();
        if c == ',' {
            let q = p.push(Seq::<char>::empty());
            assert(q.drop_last() =~= p);
            assert(join_commas(q) =~= s);
        } else {
            let q = p.update(n - 1, p.last().push(c));
            if n == 1 {
                assert(join_commas(q) =~= s);
            } else {
                assert(q.drop_last() =~= p.drop_last());
                assert(q.last() == p.last().push(c));
                assert(join_commas(p) == join_commas(p.drop_last()) + seq![','] + p.last());
                assert(s =~= t.push(c));
                assert(join_commas(q) =~= join_commas(p).push(c));
            }
            assert forall|i: int, j: int|
                0 <= i < q.len() && 0 <= j < q[i].len() implies q[i][j] != ',' by {
                if i == n - 1 && j == q[i].len() - 1 {
                } else if i == n - 1 {
                    assert(q[i][j] == p[i][j]);
                }
            }
        }
    }
}

/// Splits a line into its comma-separated fields.
pub fn split_fields(line: &Vec<char>) -> (r: Vec<Vec<char>>)
    ensures
        fields_view(r@) == split_commas(line@),
{
    let mut fields: Vec<Vec<char>> = Vec::new();
    let mut cur: Vec<char> = Vec::new();
    let n = line.len();
    for i in 0..n
        invariant
            n == line@.len(),
            fields_view(fields@).push(cur@) == split_commas(line@.take(i as int)),
    {
        let c = line[i];
        proof {
            assert(line@.take(i + 1).drop_last() =~= line@.take(i as int));
            assert(line@.take(i + 1).last() == c);
        }
        if c == ',' {
            fields.push(cur);
            cur = Vec::new();
            proof {
                assert(fields_view(fields@).push(cur@) =~= split_commas(line@.take(i + 1)));
            }
        } else {
            let ghost prev = fields_view(fields@).push(cur@);
            cur.push(c);
            proof {
                assert(fields_view(fields@).push(cur@) =~= prev.update(
                    prev.len() - 1,
                    prev.last().push(c),
                ));
            }
        }
    }
    proof {
        assert(line@.take(n as int) =~= line@);
    }
    fields.push(cur);
    proof {
        assert(fields_view(fields@) =~= split_commas(line@));
    }
    fields
}

/// The tag that opens a GPS fix sentence.
pub open spec fn gga_tag() -> Seq<char> {
    seq!['$', 'G', 'P', 'G', 'G', 'A']
}

/// A line is complete enough to read: either it is no `$GPGGA` sentence,
/// or it has a latitude field (the third) of at least 9 characters and a
/// longitude field (the fifth) of at least 10.
pub open spec fn gga_complete(line: Seq<char>) -> bool {
    let f = split_commas(line);
    f[0] == gga_tag() ==> f.len() >= 5 && f[2].len() >= 9 && f[4].len() >= 10
}

/// What a line from the receiver says.
#[derive(Debug)]
pub enum GgaSentence {
    /// Any sentence other than a `$GPGGA` fix.
    Other,
    /// A fix, with the digits of its coordinates: two degree digits and
    /// seven minute characters for the latitude, three degree digits and
    /// seven minute characters for the longitude.
    Position {
        lat_deg: Vec<char>,
        lat_min: Vec<char>,
        lon_deg: Vec<char>,
        lon_min: Vec<char>,
    },
}

/// Whether a field is the `$GPGGA` tag.
fn is_gga_tag(field: &Vec<char>) -> (r: bool)
    ensures
        r == (field@ == gga_tag()),
{
    if field.len() != 6 {
        return false;
    }
    let r = field[0] == '$' && field[1] == 'G' && field[2] == 'P' && field[3] == 'G' && field[4]
        == 'G' && field[5] == 'A';
    proof {
        if r {
            assert(field@ =~= gga_tag());
        }
    }
    r
}

/// The characters of `field` from `start` up to `end`.
fn copy_range(field: &Vec<char>, start: usize, end: usize) -> (r: Vec<char>)
    requires
        start <= end <= field.len(),
    ensures
        r@ == field@.subrange(start as int, end as int),
{
    let mut r: Vec<char> = Vec::new();
    let mut i = start;
    while i < end
        invariant
            start <= i <= end <= field.len(),
            r@ == field@.subrange(start as int, i as int),
        decreases end - i,
    {
        r.push(field[i]);
        i = i + 1;
        proof {
            assert(r@ =~= field@.subrange(start as int, i as int));
        }
    }
    r
}

/// Whether `parse_gga` can read this line.
pub fn gga_line_complete(line: &Vec<char>) -> (r: bool)
    ensures
        r == gga_complete(line@),
{
    let f = split_fields(line);
    proof {
        lemma_split_nonempty(line@);
        assert(f@.len() == split_commas(line@).len());
        assert(f@[0]@ == split_commas(line@)[0]);
    }
    if !is_gga_tag(&f[0]) {
        return true;
    }
    if f.len() < 5 {
        return false;
    }
    proof {
        assert(f@[2]@ == split_commas(line@)[2]);
        assert(f@[4]@ == split_commas(line@)[4]);
    }
    f[2].len() >= 9 && f[4].len() >= 10
}

/// Reads a line from the receiver: a `$GPGGA` sentence gives the
/// coordinate characters of its third and fifth fields, any other
/// sentence gives `Other`.
pub fn parse_gga(line: &Vec<char>) -> (r: GgaSentence)
    requires
        gga_complete(line@),
    ensures
        split_commas(line@)[0] != gga_tag() ==> r is Other,
        split_commas(line@)[0] == gga_tag() ==> (r matches GgaSentence::Position {
            lat_deg,
            lat_min,
            lon_deg,
            lon_min,
        } && lat_deg@ == split_commas(line@)[2].subrange(0, 2) && lat_min@ == split_commas(
            line@,
        )[2].subrange(2, 9) && lon_deg@ == split_commas(line@)[4].subrange(0, 3) && lon_min@
            == split_commas(line@)[4].subrange(3, 10)),
{
    let f = split_fields(line);
    proof {
        lemma_split_nonempty(line@);
        assert(f@.len() == split_commas(line@).len());
        assert(f@[0]@ == split_commas(line@)[0]);
    }
    if !is_gga_tag(&f[0]) {
        return GgaSentence::Other;
    }
    proof {
        assert(f@[2]@ == split_commas(line@)[2]);
        assert(f@[4]@ == split_commas(line@)[4]);
    }
    let lat_deg = copy_range(&f[2], 0, 2);
    let lat_min = copy_range(&f[2], 2, 9);
    let lon_deg = copy_range(&f[4], 0, 3);
    let lon_min = copy_range(&f[4], 3, 10);
    GgaSentence::Position { lat_deg, lat_min, lon_deg, lon_min }
}

} // verus!
