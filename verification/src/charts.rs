//! The parts of an answer's chart option that are not numbers: which kind of
//! chart a chart type draws, and the category labels read from the rows.
use vstd::prelude::*;

use crate::dashboard::{field_entry, find_field, value_text, value_text_of, JsonRow};
use crate::models::ChartType;

verus! {

/// The shape of the chart a chart type draws.
#[derive(Debug, Clone, Copy, PartialEq, Eq, Structural)]
pub enum ChartShape {
    /// Categories along the x axis and one value each (bar and line charts).
    Cartesian,
    /// Named slices.
    Pie,
    /// Points given by two values.
    Scatter,
    /// No chart: the option is `{}`.
    Empty,
}

/// The shape of the chart a chart type draws: a table, or no chart, draws
/// nothing.
pub open spec fn shape_of(t: ChartType) -> ChartShape {
    match t {
        ChartType::Bar => ChartShape::Cartesian,
        ChartType::Line => ChartShape::Cartesian,
        ChartType::Pie => ChartShape::Pie,
        ChartType::Scatter => ChartShape::Scatter,
        ChartType::Table => ChartShape::Empty,
        ChartType::NoChart => ChartShape::Empty,
    }
}

/// The shape of the chart a chart type draws.
pub fn chart_shape(t: &ChartType) -> (r: ChartShape)
    ensures
        r == shape_of(*t),
{
    match t {
        ChartType::Bar => ChartShape::Cartesian,
        ChartType::Line => ChartShape::Cartesian,
        ChartType::Pie => ChartShape::Pie,
        ChartType::Scatter => ChartShape::Scatter,
        ChartType::Table => ChartShape::Empty,
        ChartType::NoChart => ChartShape::Empty,
    }
}

/// The series type of a bar or line chart: `line` for a line chart, `bar`
/// otherwise.
pub fn cartesian_series_type(t: &ChartType) -> (r: &'static str)
    ensures
        r@ == (if *t is Line {
            "line"@
        } else {
            "bar"@
        }),
{
    match t {
        ChartType::Line => "line",
        _ => "bar",
    }
}

/// The category labels of a chart: for each row that has the field, in
/// order, its value as text.
pub open spec fn category_labels_of(rows: Seq<JsonRow>, field: Seq<char>) -> Seq<Seq<char>>
    decreases rows.len(),
{
    if rows.len() == 0 {
        Seq::empty()
    } else {
        let rest = category_labels_of(rows.drop_last(), field);
        match field_entry(rows.last().fields@, field) {
            Some(v) => rest.push(value_text(v)),
            None => rest,
        }
    }
}

/// The category labels are exactly the rows that have the field, in order,
/// each as the text of its value there: a row without it is passed over.
pub proof fn lemma_category_labels_of_rows(rows: Seq<JsonRow>, field: Seq<char>)
    ensures
        category_labels_of(rows, field) == rows.filter(
            |r: JsonRow| field_entry(r.fields@, field) is Some,
        ).map_values(|r: JsonRow| value_text(field_entry(r.fields@, field)->0)),
    decreases rows.len(),
{
    reveal(Seq::filter);
    let ok = |r: JsonRow| field_entry(r.fields@, field) is Some;
    let un = |r: JsonRow| value_text(field_entry(r.fields@, field)->0);
    if rows.len() == 0 {
        assert(rows.filter(ok) =~= Seq::<JsonRow>::empty());
        assert(rows.filter(ok).map_values(un) =~= Seq::<Seq<char>>::empty());
    } else {
        let p = rows.drop_last();
        lemma_category_labels_of_rows(p, field);
        let x = rows.last();
        let fp = p.filter(ok);
        if ok(x) {
            assert(rows.filter(ok) == fp.push(x));
            assert(fp.push(x).map_values(un) =~= fp.map_values(un).push(un(x)));
        } else {
            assert(rows.filter(ok) == fp);
        }
    }
}

/// The category labels of a chart.
pub fn category_labels(rows: &Vec<JsonRow>, field: &str) -> (r: Vec<String>)
    ensures
        r.deep_view() == category_labels_of(rows@, field@),
{
    let mut r: Vec<String> = Vec::new();
    let mut i: usize = 0;
    assert(r.deep_view() =~= category_labels_of(rows@.take(0), field@));
    while i < rows.len()
        invariant
            i <= rows@.len(),
            r.deep_view() == category_labels_of(rows@.take(i as int), field@),
        decreases rows@.len() - i,
    {
        assert(rows@.take(i as int + 1).drop_last() =~= rows@.take(i as int));
        assert(rows@.take(i as int + 1).last() == rows@[i as int]);
        match find_field(&rows[i], field) {
            Some(v) => {
                let ghost before = r.deep_view();
                let t = value_text_of(v);
                r.push(t);
                assert(r.deep_view() =~= before.push(value_text(*v)));
            },
            None => {},
        }
        i = i + 1;
    }
    assert(rows@.take(rows@.len() as int) =~= rows@);
    r
}

} // verus!
