use title_basics::{FieldMap, MapRow, TitleBasics};

fn map_of(pairs: &[(&str, &str)]) -> FieldMap {
    let mut m = FieldMap::new();
    for &(k, v) in pairs {
        m.insert(k, v);
    }
    m
}

#[test]
fn test_title_basics_from_db_row() {
    let values = map_of(&[("tconst", "abcd")]);
    let test_row = MapRow::new(values);
    let title_basics = TitleBasics::from_db_row(&test_row);

    assert!(title_basics.id() == "abcd");
}

#[test]
fn from_mapping_full_scenario() {
    let m = map_of(&[
        ("id", "tt000001"),
        ("title_type", "documentary"),
        ("primary_title", "The Blue Planet"),
        ("start_year", "1999"),
    ]);
    let tb = TitleBasics::from(&m);
    assert_eq!(tb.id().as_str(), "tt000001");
    assert_eq!(tb.title_type.as_deref(), Some("documentary"));
    assert_eq!(tb.primary_title().as_deref(), Some("The Blue Planet"));
    assert_eq!(*tb.get_start_year(), Some(1999));
}

#[test]
fn from_mapping_only_id() {
    let m = map_of(&[("id", "tt000042")]);
    let tb = TitleBasics::from(&m);
    assert_eq!(tb.id().as_str(), "tt000042");
    assert_eq!(tb.title_type, None);
    assert_eq!(*tb.primary_title(), None);
    assert_eq!(*tb.get_start_year(), None);
}

#[test]
fn from_mapping_unparseable_year_is_absent() {
    let m = map_of(&[("id", "tt000002"), ("start_year", "next year")]);
    let tb = TitleBasics::from(&m);
    assert_eq!(*tb.get_start_year(), None);
}

#[test]
fn from_mapping_later_binding_shadows() {
    let m = map_of(&[("id", "first"), ("id", "second")]);
    let tb = TitleBasics::from(&m);
    assert_eq!(tb.id().as_str(), "second");
}

#[test]
fn set_start_year_then_get_returns_it() {
    let m = map_of(&[("id", "tt000001"), ("start_year", "1999")]);
    let mut tb = TitleBasics::from(&m);
    assert_eq!(*tb.get_start_year(), Some(1999));
    tb.set_start_year(1998);
    assert_eq!(*tb.get_start_year(), Some(1998));

    let m2 = map_of(&[("id", "tt000009")]);
    let mut tb2 = TitleBasics::from(&m2);
    assert_eq!(*tb2.get_start_year(), None);
    tb2.set_start_year(1998);
    assert_eq!(*tb2.get_start_year(), Some(1998));
}

#[test]
fn from_db_row_only_identifier() {
    let row = MapRow::new(map_of(&[("tconst", "abcd")]));
    let tb = TitleBasics::from_db_row(&row);
    assert_eq!(tb.id().as_str(), "abcd");
    assert_eq!(tb.title_type, None);
    assert_eq!(*tb.primary_title(), None);
    assert_eq!(*tb.get_start_year(), None);
}

#[test]
fn from_db_row_non_numeric_year_is_absent() {
    let row = MapRow::new(map_of(&[("tconst", "tt000003"), ("startyear", "MCMXCIX")]));
    let tb = TitleBasics::from_db_row(&row);
    assert_eq!(tb.id().as_str(), "tt000003");
    assert_eq!(*tb.get_start_year(), None);
}

#[test]
fn from_db_row_reads_fixed_columns() {
    let row = MapRow::new(map_of(&[
        ("tconst", "tt000004"),
        ("titletype", "short"),
        ("primarytitle", "A Trip to the Moon"),
        ("startyear", "1902"),
    ]));
    let tb = TitleBasics::from_db_row(&row);
    assert_eq!(tb.id().as_str(), "tt000004");
    assert_eq!(tb.title_type.as_deref(), Some("short"));
    assert_eq!(tb.primary_title().as_deref(), Some("A Trip to the Moon"));
    assert_eq!(*tb.get_start_year(), Some(1902));
}

#[test]
fn from_db_row_ignores_mapping_schema_keys() {
    // the row schema's column names, not the mapping schema's key names
    let row = MapRow::new(map_of(&[
        ("tconst", "tt000005"),
        ("title_type", "documentary"),
        ("primary_title", "ignored"),
        ("start_year", "1999"),
    ]));
    let tb = TitleBasics::from_db_row(&row);
    assert_eq!(tb.title_type, None);
    assert_eq!(*tb.primary_title(), None);
    assert_eq!(*tb.get_start_year(), None);
}
