use vstd::prelude::*;
use crate::offsets::{GraphicOffsets, ParsedGraphicOffsets, D3D8, D3D9, DXGI};

verus! {

/// A TOML value, opaque here; read through `as_integer` and `as_table`.
#[verifier::external_type_specification]
#[verifier::external_body]
pub struct ExTomlValue(toml::Value);

/// A TOML table, opaque here; read through `table_entries`.
#[verifier::external_type_specification]
#[verifier::external_body]
#[verifier::reject_recursive_types(K)]
#[verifier::reject_recursive_types(V)]
pub struct ExTomlMap<K, V>(toml::map::Map<K, V>);

/// Why a text is not a TOML document; carried, never inspected.
#[verifier::external_type_specification]
#[verifier::external_body]
pub struct ExTomlError(toml::de::Error);

/// The entries of a TOML table, by key.
pub uninterp spec fn table_entries(t: toml::map::Map<String, toml::Value>) -> Map<Seq<char>, toml::Value>;

/// The integer a TOML value holds, if it is an integer.
pub uninterp spec fn integer_of(v: toml::Value) -> Option<i64>;

/// The table a TOML value holds, if it is a table.
pub uninterp spec fn subtable_of(v: toml::Value) -> Option<toml::map::Map<String, toml::Value>>;

/// The top-level table of a TOML document, if the text is one.
pub uninterp spec fn document_of(text: Seq<char>) -> Option<toml::map::Map<String, toml::Value>>;

/// Relies on `toml::from_str` to read a document into its top-level table;
/// the outcome depends on the text alone.
#[verifier::external_body]
pub(crate) fn parse_document(text: &str) -> (r: Result<toml::map::Map<String, toml::Value>, toml::de::Error>)
    ensures
        match r {
            Ok(t) => document_of(text@) == Some(t),
            Err(_) => document_of(text@) is None,
        },
{
    toml::from_str(text)
}

/// Relies on `toml::map::Map::get`: the value stored under `key`, if any.
#[verifier::external_body]
pub(crate) fn table_get<'a>(t: &'a toml::map::Map<String, toml::Value>, key: &str) -> (r: Option<&'a toml::Value>)
    ensures
        match r {
            Some(v) => table_entries(*t).contains_key(key@) && *v == table_entries(*t)[key@],
            None => !table_entries(*t).contains_key(key@),
        },
{
    t.get(key)
}

/// Relies on `toml::Value::as_integer`: the integer of an integer value.
pub assume_specification[ toml::Value::as_integer ](v: &toml::Value) -> (r: Option<i64>)
    ensures
        r == integer_of(*v),
;

/// Relies on `toml::Value::as_table`: the table of a table value.
pub assume_specification[ toml::Value::as_table ](v: &toml::Value) -> (r: Option<&toml::map::Map<String, toml::Value>>)
    ensures
        match r {
            Some(t) => subtable_of(*v) == Some(*t),
            None => subtable_of(*v) is None,
        },
;

/// The table stored under `name` in `doc`, if `doc` holds one there.
pub open spec fn table_at(doc: toml::map::Map<String, toml::Value>, name: Seq<char>) -> Option<toml::map::Map<String, toml::Value>> {
    if table_entries(doc).contains_key(name) {
        subtable_of(table_entries(doc)[name])
    } else {
        None
    }
}

/// The `u32` stored under `key` in the table `name` of `doc`, if there is one:
/// an integer value within the range of `u32`.
pub open spec fn entry_u32(doc: toml::map::Map<String, toml::Value>, name: Seq<char>, key: Seq<char>) -> Option<u32> {
    match table_at(doc, name) {
        Some(t) => if table_entries(t).contains_key(key) {
            match integer_of(table_entries(t)[key]) {
                Some(i) => if 0 <= i <= u32::MAX {
                    Some(i as u32)
                } else {
                    None
                },
                None => None,
            }
        } else {
            None
        },
        None => None,
    }
}

/// Why the offset-discovery output could not be read.
#[derive(Debug)]
pub enum ParseError {
    /// The text is not a TOML document.
    Document(toml::de::Error),
    /// The table is missing, or the key in it is missing or not a `u32`.
    Entry(&'static str, &'static str),
}

/// Reads the `u32` under `key` in table `name`.
pub fn read_entry(doc: &toml::map::Map<String, toml::Value>, name: &'static str, key: &'static str) -> (r: Result<u32, ParseError>)
    ensures
        match r {
            Ok(x) => entry_u32(*doc, name@, key@) == Some(x),
            Err(e) => entry_u32(*doc, name@, key@) is None && e == ParseError::Entry(name, key),
        },
{
    let table = match table_get(doc, name) {
        Some(v) => match v.as_table() {
            Some(t) => t,
            None => return Err(ParseError::Entry(name, key)),
        },
        None => return Err(ParseError::Entry(name, key)),
    };
    match table_get(table, key) {
        Some(v) => match v.as_integer() {
            Some(i) => if 0 <= i && i <= 0xffff_ffff {
                Ok(i as u32)
            } else {
                Err(ParseError::Entry(name, key))
            },
            None => Err(ParseError::Entry(name, key)),
        },
        None => Err(ParseError::Entry(name, key)),
    }
}

/// The offsets a document holds, if all nine entries are there.
pub open spec fn document_offsets(doc: toml::map::Map<String, toml::Value>) -> Option<ParsedGraphicOffsets> {
    let d3d8 = entry_u32(doc, "d3d8"@, "present"@);
    let d3d9_present = entry_u32(doc, "d3d9"@, "present"@);
    let d3d9_present_ex = entry_u32(doc, "d3d9"@, "present_ex"@);
    let d3d9_present_swap = entry_u32(doc, "d3d9"@, "present_swap"@);
    let d3d9_clsoff = entry_u32(doc, "d3d9"@, "d3d9_clsoff"@);
    let d3d9ex_clsoff = entry_u32(doc, "d3d9"@, "is_d3d9ex_clsoff"@);
    let dxgi_present = entry_u32(doc, "dxgi"@, "present"@);
    let dxgi_present1 = entry_u32(doc, "dxgi"@, "present1"@);
    let dxgi_resize = entry_u32(doc, "dxgi"@, "resize"@);
    if d3d8 is Some && d3d9_present is Some && d3d9_present_ex is Some && d3d9_present_swap is Some
        && d3d9_clsoff is Some && d3d9ex_clsoff is Some && dxgi_present is Some
        && dxgi_present1 is Some && dxgi_resize is Some {
        Some(ParsedGraphicOffsets {
            d3d8: D3D8 { present: d3d8.unwrap() },
            d3d9: D3D9 {
                present: d3d9_present.unwrap(),
                present_ex: d3d9_present_ex.unwrap(),
                present_swap: d3d9_present_swap.unwrap(),
                d3d9_clsoff: d3d9_clsoff.unwrap(),
                is_d3d9ex_clsoff: d3d9ex_clsoff.unwrap(),
            },
            dxgi: DXGI {
                present: dxgi_present.unwrap(),
                present1: dxgi_present1.unwrap(),
                resize: dxgi_resize.unwrap(),
            },
        })
    } else {
        None
    }
}

/// Whether `(name, key)` is one of the entries the loader reads.
pub open spec fn is_offsets_entry(name: Seq<char>, key: Seq<char>) -> bool {
    ||| name == "d3d8"@ && key == "present"@
    ||| name == "d3d9"@ && (key == "present"@ || key == "present_ex"@ || key == "present_swap"@
        || key == "d3d9_clsoff"@ || key == "is_d3d9ex_clsoff"@)
    ||| name == "dxgi"@ && (key == "present"@ || key == "present1"@ || key == "resize"@)
}

impl ParsedGraphicOffsets {
    /// Reads the three tables `d3d8`, `d3d9` and `dxgi` of a document.
    pub fn from_document(doc: &toml::map::Map<String, toml::Value>) -> (r: Result<ParsedGraphicOffsets, ParseError>)
        ensures
            match r {
                Ok(p) => document_offsets(*doc) == Some(p),
                Err(ParseError::Entry(name, key)) => document_offsets(*doc) is None
                    && entry_u32(*doc, name@, key@) is None && is_offsets_entry(name@, key@),
                Err(ParseError::Document(_)) => false,
            },
    {
        proof {
            reveal_strlit("d3d8");
            reveal_strlit("d3d9");
            reveal_strlit("dxgi");
            reveal_strlit("present");
            reveal_strlit("present_ex");
            reveal_strlit("present_swap");
            reveal_strlit("d3d9_clsoff");
            reveal_strlit("is_d3d9ex_clsoff");
            reveal_strlit("present1");
            reveal_strlit("resize");
        }
        let d3d8 = read_entry(doc, "d3d8", "present")?;
        let present = read_entry(doc, "d3d9", "present")?;
        let present_ex = read_entry(doc, "d3d9", "present_ex")?;
        let present_swap = read_entry(doc, "d3d9", "present_swap")?;
        let d3d9_clsoff = read_entry(doc, "d3d9", "d3d9_clsoff")?;
        let is_d3d9ex_clsoff = read_entry(doc, "d3d9", "is_d3d9ex_clsoff")?;
        let dxgi_present = read_entry(doc, "dxgi", "present")?;
        let present1 = read_entry(doc, "dxgi", "present1")?;
        let resize = read_entry(doc, "dxgi", "resize")?;
        Ok(ParsedGraphicOffsets {
            d3d8: D3D8 { present: d3d8 },
            d3d9: D3D9 { present, present_ex, present_swap, d3d9_clsoff, is_d3d9ex_clsoff },
            dxgi: DXGI { present: dxgi_present, present1, resize },
        })
    }
}

/// Why the offsets could not be loaded.
#[derive(Debug)]
pub enum GraphicOffsetsError {
    /// The offset-discovery program could not be written to disk.
    WriteBinaryToFile(std::io::Error),
    /// The offset-discovery program could not be run.
    ExecuteBinary(std::io::Error),
    /// Its output could not be read.
    ParseOutput(ParseError),
}

/// The offsets in the output of the offset-discovery program.
pub open spec fn output_offsets(text: Seq<char>) -> Option<ParsedGraphicOffsets> {
    match document_of(text) {
        Some(doc) => document_offsets(doc),
        None => None,
    }
}

/// Reads the output of the offset-discovery program into the record the hook
/// expects, with its DirectDraw part zero.
pub fn parse_graphic_offsets(text: &str) -> (r: Result<GraphicOffsets, GraphicOffsetsError>)
    ensures
        match r {
            Ok(g) => output_offsets(text@) matches Some(p) && g.d3d8 == p.d3d8 && g.d3d9 == p.d3d9
                && g.dxgi == p.dxgi && g.ddraw.is_zero(),
            Err(GraphicOffsetsError::ParseOutput(ParseError::Document(_))) => document_of(text@) is None,
            Err(GraphicOffsetsError::ParseOutput(ParseError::Entry(name, key))) => document_of(text@) is Some
                && output_offsets(text@) is None && is_offsets_entry(name@, key@),
            Err(_) => false,
        },
{
    let doc = match parse_document(text) {
        Ok(doc) => doc,
        Err(e) => return Err(GraphicOffsetsError::ParseOutput(ParseError::Document(e))),
    };
    match ParsedGraphicOffsets::from_document(&doc) {
        Ok(p) => Ok(GraphicOffsets::from_parsed(p)),
        Err(e) => Err(GraphicOffsetsError::ParseOutput(e)),
    }
}

} // verus!
