//! The title record: a value object with a mandatory identifier and three
//! optional descriptive attributes, built either from an in-memory field
//! mapping or from a narrow row-source capability.

use vstd::prelude::*;
use crate::fields::FieldMap;
use crate::parse::{parse_i32, spec_parse_i32};

verus! {

/// The view of an optional owned string as an optional character sequence.
pub open spec fn opt_str_view(o: Option<String>) -> Option<Seq<char>> {
    match o {
        Some(s) => Some(s@),
        None => None,
    }
}

/// One title record. The identifier is always present; every other
/// attribute is independently optional, and absence is a value of its own.
pub struct TitleBasics {
    id: String,
    pub title_type: Option<String>,
    primary_title: Option<String>,
    start_year: Option<i32>,
}

impl TitleBasics {
    /// The identifier.
    pub closed spec fn spec_id(self) -> Seq<char> {
        self.id@
    }

    /// The optional descriptive classification.
    pub closed spec fn spec_title_type(self) -> Option<Seq<char>> {
        opt_str_view(self.title_type)
    }

    /// The optional human-readable label.
    pub closed spec fn spec_primary_title(self) -> Option<Seq<char>> {
        opt_str_view(self.primary_title)
    }

    /// The optional start year.
    pub closed spec fn spec_start_year(self) -> Option<i32> {
        self.start_year
    }
}

/// How a record built from a field mapping relates to that mapping: the
/// identifier is the value of the `id` key, each optional attribute is the
/// value of its key or absent when the key is unbound, and the year is the
/// best-effort parse of the `start_year` value.
pub open spec fn built_from_map(m: FieldMap, t: TitleBasics) -> bool {
    &&& Some(t.spec_id()) == m.spec_get("id"@)
    &&& t.spec_title_type() == m.spec_get("title_type"@)
    &&& t.spec_primary_title() == m.spec_get("primary_title"@)
    &&& t.spec_start_year() == (match m.spec_get("start_year"@) {
        Some(text) => spec_parse_i32(text),
        None => None::<i32>,
    })
}

/// The narrow row-source capability: given a column name, a row can yield an
/// optional string value or an optional integer value. The two spec methods
/// name what the row holds; the two methods return exactly that.
pub trait DbRow {
    /// The optional string value the row holds for `column`.
    spec fn spec_string(&self, column: Seq<char>) -> Option<Seq<char>>;

    /// The optional integer value the row holds for `column`.
    spec fn spec_i32(&self, column: Seq<char>) -> Option<i32>;

    /// Fetch the optional string value of `column`.
    fn opt_string(&self, column: &str) -> (r: Option<String>)
        ensures
            opt_str_view(r) == self.spec_string(column@),
    ;

    /// Fetch the optional integer value of `column`.
    fn opt_i32(&self, column: &str) -> (r: Option<i32>)
        ensures
            r == self.spec_i32(column@),
    ;
}

/// How a record built from a row source relates to that row: each attribute
/// is read from its fixed column name, and the identifier column must hold a
/// value.
pub open spec fn built_from_row<R: DbRow>(r: &R, t: TitleBasics) -> bool {
    &&& Some(t.spec_id()) == r.spec_string("tconst"@)
    &&& t.spec_title_type() == r.spec_string("titletype"@)
    &&& t.spec_primary_title() == r.spec_string("primarytitle"@)
    &&& t.spec_start_year() == r.spec_i32("startyear"@)
}

impl TitleBasics {
    /// Build a record from a field mapping. The mapping must bind the `id`
    /// key; every other attribute is filled from its key when bound and
    /// absent otherwise, with unparseable year text treated as absent.
    pub fn from(fields: &FieldMap) -> (t: TitleBasics)
        requires
            fields.spec_get("id"@).is_some(),
        ensures
            built_from_map(*fields, t),
    {
        let id = fields.get("id").unwrap().clone();
        let title_type = match fields.get("title_type") {
            Some(v) => Some(v.clone()),
            None => None,
        };
        let primary_title = match fields.get("primary_title") {
            Some(v) => Some(v.clone()),
            None => None,
        };
        let start_year = match fields.get("start_year") {
            Some(v) => parse_i32(v.as_str()),
            None => None,
        };
        TitleBasics { id, title_type, primary_title, start_year }
    }

    /// Build a record from a row source. The row must hold a value for the
    /// identifier column; every other attribute is read from its fixed
    /// column and absent when the row holds none.
    pub fn from_db_row<R: DbRow>(r: &R) -> (t: TitleBasics)
        requires
            r.spec_string("tconst"@).is_some(),
        ensures
            built_from_row(r, t),
    {
        TitleBasics {
            id: r.opt_string("tconst").unwrap(),
            title_type: r.opt_string("titletype"),
            primary_title: r.opt_string("primarytitle"),
            start_year: r.opt_i32("startyear"),
        }
    }

    /// Read the identifier.
    pub fn id(&self) -> (r: &String)
        ensures
            r@ == self.spec_id(),
    {
        &self.id
    }

    /// Read the optional human-readable label.
    pub fn primary_title(&self) -> (r: &Option<String>)
        ensures
            opt_str_view(*r) == self.spec_primary_title(),
    {
        &self.primary_title
    }

    /// Read the optional start year.
    pub fn get_start_year(&self) -> (r: &Option<i32>)
        ensures
            *r == self.spec_start_year(),
    {
        &self.start_year
    }

    /// Set the start year to present with the given value, whatever it held
    /// before; no other attribute changes.
    pub fn set_start_year(&mut self, start_year: i32)
        ensures
            final(self).spec_start_year() == Some(start_year),
            final(self).spec_id() == old(self).spec_id(),
            final(self).spec_title_type() == old(self).spec_title_type(),
            final(self).spec_primary_title() == old(self).spec_primary_title(),
    {
        self.start_year = Some(start_year);
    }
}

/// A row source backed by an in-memory field mapping: the string value of a
/// column is the mapping's value for it, and the integer value is the
/// best-effort parse of that text.
pub struct MapRow {
    fields: FieldMap,
}

impl MapRow {
    /// The mapping the row reads from.
    pub closed spec fn spec_fields(self) -> FieldMap {
        self.fields
    }

    /// Wrap a field mapping as a row source.
    pub fn new(fields: FieldMap) -> (r: MapRow)
        ensures
            r.spec_fields() == fields,
    {
        MapRow { fields }
    }
}

impl DbRow for MapRow {
    closed spec fn spec_string(&self, column: Seq<char>) -> Option<Seq<char>> {
        self.fields.spec_get(column)
    }

    closed spec fn spec_i32(&self, column: Seq<char>) -> Option<i32> {
        match self.fields.spec_get(column) {
            Some(text) => spec_parse_i32(text),
            None => None::<i32>,
        }
    }

    fn opt_string(&self, column: &str) -> (r: Option<String>) {
        match self.fields.get(column) {
            Some(v) => Some(v.clone()),
            None => None,
        }
    }

    fn opt_i32(&self, column: &str) -> (r: Option<i32>) {
        match self.fields.get(column) {
            Some(v) => parse_i32(v.as_str()),
            None => None,
        }
    }
}

/// A mapping that binds only the identifier key yields a record with that
/// identifier and every optional attribute absent.
pub proof fn lemma_only_id_key_gives_bare_record(m: FieldMap, t: TitleBasics)
    requires
        m.spec_get("id"@).is_some(),
        forall|k: Seq<char>| k != "id"@ ==> m.spec_get(k) == None::<Seq<char>>,
        built_from_map(m, t),
    ensures
        Some(t.spec_id()) == m.spec_get("id"@),
        t.spec_title_type() == None::<Seq<char>>,
        t.spec_primary_title() == None::<Seq<char>>,
        t.spec_start_year() == None::<i32>,
{
    reveal_strlit("id");
    reveal_strlit("title_type");
    reveal_strlit("primary_title");
    reveal_strlit("start_year");
    assert("title_type"@ != "id"@) by {
        assert("title_type"@.len() != "id"@.len());
    }
    assert("primary_title"@ != "id"@) by {
        assert("primary_title"@.len() != "id"@.len());
    }
    assert("start_year"@ != "id"@) by {
        assert("start_year"@.len() != "id"@.len());
    }
    assert(m.spec_get("title_type"@) == None::<Seq<char>>);
    assert(m.spec_get("primary_title"@) == None::<Seq<char>>);
    assert(m.spec_get("start_year"@) == None::<Seq<char>>);
}

/// A row whose year column holds text that does not name an integer yields
/// a record whose year attribute is absent, never an error.
pub proof fn lemma_non_numeric_year_is_absent(row: MapRow, t: TitleBasics, text: Seq<char>)
    requires
        built_from_row(&row, t),
        row.spec_fields().spec_get("startyear"@) == Some(text),
        spec_parse_i32(text) == None::<i32>,
    ensures
        t.spec_start_year() == None::<i32>,
{
}

} // verus!
