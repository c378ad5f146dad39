//! Lines of cells.
use vstd::prelude::*;

verus! {

broadcast use crate::model::group_views;

/// Cells of a line, with tabs between them.
pub open spec fn row(cells: Seq<Seq<char>>) -> Seq<char> {
    crate::text::join(cells, "\t"@)
}

/// Cells of a line, with tabs between them.
fn row_of(cells: Vec<&str>) -> (line: String)
    ensures
        line@ == row(crate::model::views(cells@)),
{
    let mut line = String::new();
    let ghost all = crate::model::views(cells@);
    assert(all.take(0) =~= Seq::empty());
    for i in 0..cells.len()
        invariant
            all == crate::model::views(cells@),
            line@ == row(all.take(i as int)),
    {
        assert(all.take(i + 1).drop_last() =~= all.take(i as int));
        assert(all.take(i + 1).last() == cells@[i as int]@);
        if i > 0 {
            line.append("\t");
        }
        line.append(cells[i]);
        assert(line@ =~= row(all.take(i + 1)));
    }
    assert(all.take(all.len() as int) =~= all);
    line
}

/// A line of two cells.
pub fn row2(a: &str, b: &str) -> (line: String)
    ensures
        line@ == row(seq![a@, b@]),
{
    let cells = vec![a, b];
    assert(crate::model::views(cells@) =~= seq![a@, b@]);
    row_of(cells)
}

/// A line of three cells.
pub fn row3(a: &str, b: &str, c: &str) -> (line: String)
    ensures
        line@ == row(seq![a@, b@, c@]),
{
    let cells = vec![a, b, c];
    assert(crate::model::views(cells@) =~= seq![a@, b@, c@]);
    row_of(cells)
}

/// A line of four cells.
pub fn row4(a: &str, b: &str, c: &str, d: &str) -> (line: String)
    ensures
        line@ == row(seq![a@, b@, c@, d@]),
{
    let cells = vec![a, b, c, d];
    assert(crate::model::views(cells@) =~= seq![a@, b@, c@, d@]);
    row_of(cells)
}

/// A line of five cells.
pub fn row5(a: &str, b: &str, c: &str, d: &str, e: &str) -> (line: String)
    ensures
        line@ == row(seq![a@, b@, c@, d@, e@]),
{
    let cells = vec![a, b, c, d, e];
    assert(crate::model::views(cells@) =~= seq![a@, b@, c@, d@, e@]);
    row_of(cells)
}

/// A line of six cells.
pub fn row6(a: &str, b: &str, c: &str, d: &str, e: &str, f: &str) -> (line: String)
    ensures
        line@ == row(seq![a@, b@, c@, d@, e@, f@]),
{
    let cells = vec![a, b, c, d, e, f];
    assert(crate::model::views(cells@) =~= seq![a@, b@, c@, d@, e@, f@]);
    row_of(cells)
}

/// A line of seven cells.
pub fn row7(a: &str, b: &str, c: &str, d: &str, e: &str, f: &str, g: &str) -> (line: String)
    ensures
        line@ == row(seq![a@, b@, c@, d@, e@, f@, g@]),
{
    let cells = vec![a, b, c, d, e, f, g];
    assert(crate::model::views(cells@) =~= seq![a@, b@, c@, d@, e@, f@, g@]);
    row_of(cells)
}

/// A line of eight cells.
pub fn row8(
    a: &str,
    b: &str,
    c: &str,
    d: &str,
    e: &str,
    f: &str,
    g: &str,
    h: &str,
) -> (line: String)
    ensures
        line@ == row(seq![a@, b@, c@, d@, e@, f@, g@, h@]),
{
    let cells = vec![a, b, c, d, e, f, g, h];
    assert(crate::model::views(cells@) =~= seq![a@, b@, c@, d@, e@, f@, g@, h@]);
    row_of(cells)
}

} // verus!
