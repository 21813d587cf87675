//! The wire shape of both document kinds: a root object whose
//! `settingList` (alias `importGridList`) array holds grids, each grid an
//! object of `rows`, `name` and `headerRow`, each row an object of
//! `strings` and `isCommentOut`.
//!
//! Extraction is strict, the way a typed deserializer is: a missing or
//! ill-typed field anywhere makes the whole document count as malformed.

use vstd::prelude::*;

use crate::json::{obj_get, obj_lookup, parse_json, json_of, JsonValue};

verus! {

/// One spreadsheet row: its cells and its comment-out flag.
pub struct Row {
    pub strings: Vec<String>,
    pub is_comment_out: i32,
}

#[verifier::ext_equal]
pub struct RowV {
    pub strings: Seq<Seq<char>>,
    pub is_comment_out: int,
}

impl View for Row {
    type V = RowV;

    open spec fn view(&self) -> RowV {
        RowV { strings: self.strings.deep_view(), is_comment_out: self.is_comment_out as int }
    }
}

impl DeepView for Row {
    type V = RowV;

    open spec fn deep_view(&self) -> RowV {
        self.view()
    }
}

/// One named table of rows with a designated header row.
pub struct Grid {
    pub rows: Vec<Row>,
    pub name: String,
    pub header_row: usize,
}

#[verifier::ext_equal]
pub struct GridV {
    pub rows: Seq<RowV>,
    pub name: Seq<char>,
    pub header_row: int,
}

impl View for Grid {
    type V = GridV;

    open spec fn view(&self) -> GridV {
        GridV {
            rows: self.rows.deep_view(),
            name: self.name@,
            header_row: self.header_row as int,
        }
    }
}

impl DeepView for Grid {
    type V = GridV;

    open spec fn deep_view(&self) -> GridV {
        self.view()
    }
}

/// A whole document: its grids in document order.
pub struct RootDoc {
    pub setting_list: Vec<Grid>,
}

#[verifier::ext_equal]
pub struct RootV {
    pub setting_list: Seq<GridV>,
}

impl View for RootDoc {
    type V = RootV;

    open spec fn view(&self) -> RootV {
        RootV { setting_list: self.setting_list.deep_view() }
    }
}

impl DeepView for RootDoc {
    type V = RootV;

    open spec fn deep_view(&self) -> RootV {
        self.view()
    }
}

/// The cells of a `strings` array; `None` unless every element is a string.
pub open spec fn spec_strings_of(items: Seq<JsonValue>) -> Option<Seq<Seq<char>>>
    decreases items.len(),
{
    if items.len() == 0 {
        Some(Seq::empty())
    } else {
        match (items[0], spec_strings_of(items.drop_first())) {
            (JsonValue::Str(s), Some(rest)) => Some(seq![s@] + rest),
            _ => None,
        }
    }
}

/// A row object: `strings` must be an array of strings and `isCommentOut`
/// an integer in `i32` range.
pub open spec fn spec_row_of(v: JsonValue) -> Option<RowV> {
    match v {
        JsonValue::Obj(fields) => {
            match (obj_lookup(fields@, "strings"@), obj_lookup(fields@, "isCommentOut"@)) {
                (Some(JsonValue::Arr(items)), Some(JsonValue::Int(c))) => {
                    if i32::MIN <= c <= i32::MAX {
                        match spec_strings_of(items@) {
                            Some(ss) => Some(RowV { strings: ss, is_comment_out: c as int }),
                            None => None,
                        }
                    } else {
                        None
                    }
                },
                _ => None,
            }
        },
        _ => None,
    }
}

pub open spec fn spec_rows_of(items: Seq<JsonValue>) -> Option<Seq<RowV>>
    decreases items.len(),
{
    if items.len() == 0 {
        Some(Seq::empty())
    } else {
        match (spec_row_of(items[0]), spec_rows_of(items.drop_first())) {
            (Some(r), Some(rest)) => Some(seq![r] + rest),
            _ => None,
        }
    }
}

/// A grid object: `rows` an array of rows, `name` a string, `headerRow`
/// an integer that fits `usize`.
pub open spec fn spec_grid_of(v: JsonValue) -> Option<GridV> {
    match v {
        JsonValue::Obj(fields) => {
            match (
                obj_lookup(fields@, "rows"@),
                obj_lookup(fields@, "name"@),
                obj_lookup(fields@, "headerRow"@),
            ) {
                (Some(JsonValue::Arr(items)), Some(JsonValue::Str(nm)), Some(
                    JsonValue::Int(h),
                )) => {
                    if 0 <= h <= usize::MAX {
                        match spec_rows_of(items@) {
                            Some(rs) => Some(
                                GridV { rows: rs, name: nm@, header_row: h as int },
                            ),
                            None => None,
                        }
                    } else {
                        None
                    }
                },
                _ => None,
            }
        },
        _ => None,
    }
}

pub open spec fn spec_grids_of(items: Seq<JsonValue>) -> Option<Seq<GridV>>
    decreases items.len(),
{
    if items.len() == 0 {
        Some(Seq::empty())
    } else {
        match (spec_grid_of(items[0]), spec_grids_of(items.drop_first())) {
            (Some(g), Some(rest)) => Some(seq![g] + rest),
            _ => None,
        }
    }
}

/// The root object: exactly one of `settingList` and `importGridList`
/// must be present, and hold an array of grids.
pub open spec fn spec_root_of(v: JsonValue) -> Option<RootV> {
    match v {
        JsonValue::Obj(fields) => {
            match (obj_lookup(fields@, "settingList"@), obj_lookup(fields@, "importGridList"@)) {
                (Some(JsonValue::Arr(items)), None) | (None, Some(JsonValue::Arr(items))) => {
                    match spec_grids_of(items@) {
                        Some(gs) => Some(RootV { setting_list: gs }),
                        None => None,
                    }
                },
                _ => None,
            }
        },
        _ => None,
    }
}

/// What a document text denotes: `None` when the text is malformed JSON
/// or does not have the wire shape.
pub open spec fn spec_doc_of(s: Seq<char>) -> Option<RootV> {
    match json_of(s) {
        Some(v) => spec_root_of(v),
        None => None,
    }
}

fn strings_of(items: &Vec<JsonValue>) -> (r: Option<Vec<String>>)
    ensures
        match r {
            Some(ss) => spec_strings_of(items@) == Some(ss.deep_view()),
            None => spec_strings_of(items@) is None,
        },
{
    let mut out: Vec<String> = Vec::new();
    let mut i: usize = 0;
    proof {
        assert(items@.skip(0) =~= items@);
    }
    while i < items.len()
        invariant
            0 <= i <= items.len(),
            out@.len() == i,
            match spec_strings_of(items@.skip(i as int)) {
                Some(rest) => spec_strings_of(items@) == Some(out.deep_view() + rest),
                None => spec_strings_of(items@) is None,
            },
        decreases items.len() - i,
    {
        proof {
            assert(items@.skip(i as int)[0] == items@[i as int]);
            assert(items@.skip(i as int).drop_first() =~= items@.skip(i + 1));
        }
        match &items[i] {
            JsonValue::Str(s) => {
                out.push(s.clone());
                proof {
                    match spec_strings_of(items@.skip(i + 1)) {
                        Some(rest) => {
                            assert(out.deep_view() + rest =~= out.deep_view().drop_last() + (seq![
                                s@,
                            ] + rest));
                        },
                        None => {},
                    }
                }
            },
            _ => {
                return None;
            },
        }
        i += 1;
    }
    proof {
        assert(items@.skip(i as int) =~= Seq::<JsonValue>::empty());
        assert(out.deep_view() + Seq::<Seq<char>>::empty() =~= out.deep_view());
    }
    Some(out)
}

fn row_of(v: &JsonValue) -> (r: Option<Row>)
    ensures
        match r {
            Some(row) => spec_row_of(*v) == Some(row@),
            None => spec_row_of(*v) is None,
        },
{
    match v {
        JsonValue::Obj(fields) => {
            let strings_key = String::from_str("strings");
            let comment_key = String::from_str("isCommentOut");
            match (obj_get(fields, &strings_key), obj_get(fields, &comment_key)) {
                (Some(JsonValue::Arr(items)), Some(JsonValue::Int(c))) => {
                    if i32::MIN as i64 <= *c && *c <= i32::MAX as i64 {
                        match strings_of(items) {
                            Some(ss) => Some(Row { strings: ss, is_comment_out: *c as i32 }),
                            None => None,
                        }
                    } else {
                        None
                    }
                },
                _ => None,
            }
        },
        _ => None,
    }
}

fn rows_of(items: &Vec<JsonValue>) -> (r: Option<Vec<Row>>)
    ensures
        match r {
            Some(rs) => spec_rows_of(items@) == Some(rs.deep_view()),
            None => spec_rows_of(items@) is None,
        },
{
    let mut out: Vec<Row> = Vec::new();
    let mut i: usize = 0;
    proof {
        assert(items@.skip(0) =~= items@);
    }
    while i < items.len()
        invariant
            0 <= i <= items.len(),
            out@.len() == i,
            match spec_rows_of(items@.skip(i as int)) {
                Some(rest) => spec_rows_of(items@) == Some(out.deep_view() + rest),
                None => spec_rows_of(items@) is None,
            },
        decreases items.len() - i,
    {
        proof {
            assert(items@.skip(i as int)[0] == items@[i as int]);
            assert(items@.skip(i as int).drop_first() =~= items@.skip(i + 1));
        }
        match row_of(&items[i]) {
            Some(row) => {
                let ghost rv = row@;
                out.push(row);
                proof {
                    match spec_rows_of(items@.skip(i + 1)) {
                        Some(rest) => {
                            assert(out.deep_view() + rest =~= out.deep_view().drop_last() + (seq![
                                rv,
                            ] + rest));
                        },
                        None => {},
                    }
                }
            },
            None => {
                return None;
            },
        }
        i += 1;
    }
    proof {
        assert(items@.skip(i as int) =~= Seq::<JsonValue>::empty());
        assert(out.deep_view() + Seq::<RowV>::empty() =~= out.deep_view());
    }
    Some(out)
}

fn grid_of(v: &JsonValue) -> (r: Option<Grid>)
    ensures
        match r {
            Some(g) => spec_grid_of(*v) == Some(g@),
            None => spec_grid_of(*v) is None,
        },
{
    match v {
        JsonValue::Obj(fields) => {
            let rows_key = String::from_str("rows");
            let name_key = String::from_str("name");
            let header_key = String::from_str("headerRow");
            match (obj_get(fields, &rows_key), obj_get(fields, &name_key), obj_get(
                fields,
                &header_key,
            )) {
                (Some(JsonValue::Arr(items)), Some(JsonValue::Str(nm)), Some(
                    JsonValue::Int(h),
                )) => {
                    if 0 <= *h && *h as u64 <= usize::MAX as u64 {
                        match rows_of(items) {
                            Some(rs) => Some(
                                Grid { rows: rs, name: nm.clone(), header_row: *h as usize },
                            ),
                            None => None,
                        }
                    } else {
                        None
                    }
                },
                _ => None,
            }
        },
        _ => None,
    }
}

fn grids_of(items: &Vec<JsonValue>) -> (r: Option<Vec<Grid>>)
    ensures
        match r {
            Some(gs) => spec_grids_of(items@) == Some(gs.deep_view()),
            None => spec_grids_of(items@) is None,
        },
{
    let mut out: Vec<Grid> = Vec::new();
    let mut i: usize = 0;
    proof {
        assert(items@.skip(0) =~= items@);
    }
    while i < items.len()
        invariant
            0 <= i <= items.len(),
            out@.len() == i,
            match spec_grids_of(items@.skip(i as int)) {
                Some(rest) => spec_grids_of(items@) == Some(out.deep_view() + rest),
                None => spec_grids_of(items@) is None,
            },
        decreases items.len() - i,
    {
        proof {
            assert(items@.skip(i as int)[0] == items@[i as int]);
            assert(items@.skip(i as int).drop_first() =~= items@.skip(i + 1));
        }
        match grid_of(&items[i]) {
            Some(g) => {
                let ghost gv = g@;
                out.push(g);
                proof {
                    match spec_grids_of(items@.skip(i + 1)) {
                        Some(rest) => {
                            assert(out.deep_view() + rest =~= out.deep_view().drop_last() + (seq![
                                gv,
                            ] + rest));
                        },
                        None => {},
                    }
                }
            },
            None => {
                return None;
            },
        }
        i += 1;
    }
    proof {
        assert(items@.skip(i as int) =~= Seq::<JsonValue>::empty());
        assert(out.deep_view() + Seq::<GridV>::empty() =~= out.deep_view());
    }
    Some(out)
}

fn root_of(v: &JsonValue) -> (r: Option<RootDoc>)
    ensures
        match r {
            Some(d) => spec_root_of(*v) == Some(d@),
            None => spec_root_of(*v) is None,
        },
{
    match v {
        JsonValue::Obj(fields) => {
            let list_key = String::from_str("settingList");
            let alias_key = String::from_str("importGridList");
            match (obj_get(fields, &list_key), obj_get(fields, &alias_key)) {
                (Some(JsonValue::Arr(items)), None) | (None, Some(JsonValue::Arr(items))) => {
                    match grids_of(items) {
                        Some(gs) => Some(RootDoc { setting_list: gs }),
                        None => None,
                    }
                },
                _ => None,
            }
        },
        _ => None,
    }
}

/// Parses a document text into its wire shape, `None` when it is
/// malformed.
pub fn parse_doc(s: &str) -> (r: Option<RootDoc>)
    ensures
        match r {
            Some(d) => spec_doc_of(s@) == Some(d@),
            None => spec_doc_of(s@) is None,
        },
{
    match parse_json(s) {
        Some(v) => root_of(&v),
        None => None,
    }
}

} // verus!
