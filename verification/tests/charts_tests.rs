use open_eyes::charts::{cartesian_series_type, category_labels, chart_shape, ChartShape};
use open_eyes::dashboard::{JsonRow, JsonScalar};
use open_eyes::models::ChartType;

fn row(fields: Vec<(&str, JsonScalar)>) -> JsonRow {
    JsonRow { fields: fields.into_iter().map(|(k, v)| (k.to_string(), v)).collect() }
}

#[test]
fn chart_shapes_by_type() {
    assert_eq!(chart_shape(&ChartType::Bar), ChartShape::Cartesian);
    assert_eq!(chart_shape(&ChartType::Line), ChartShape::Cartesian);
    assert_eq!(chart_shape(&ChartType::Pie), ChartShape::Pie);
    assert_eq!(chart_shape(&ChartType::Scatter), ChartShape::Scatter);
    assert_eq!(chart_shape(&ChartType::Table), ChartShape::Empty);
    assert_eq!(chart_shape(&ChartType::NoChart), ChartShape::Empty);
    assert_eq!(cartesian_series_type(&ChartType::Line), "line");
    assert_eq!(cartesian_series_type(&ChartType::Bar), "bar");
}

#[test]
fn category_labels_skip_rows_without_the_field() {
    let rows = vec![
        row(vec![("year", JsonScalar::PosInt(2020)), ("n", JsonScalar::PosInt(1))]),
        row(vec![("n", JsonScalar::PosInt(2))]),
        row(vec![("year", JsonScalar::Text("2021".to_string()))]),
        row(vec![("year", JsonScalar::Null)]),
        row(vec![("year", JsonScalar::NegInt(-4))]),
    ];
    assert_eq!(category_labels(&rows, "year"), vec!["2020", "2021", "null", "-4"]);
    assert!(category_labels(&rows, "missing").is_empty());
}
