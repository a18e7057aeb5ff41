use vstd::prelude::*;
use vstd::string::StringExecFns;

use crate::text::same_text;

verus! {

/// Kind of geometry a feature is stored as.
#[derive(Clone, Copy, Debug, PartialEq, Eq, Structural)]
pub enum DataType {
    Points,
    Lines,
    Polygons,
}

/// Integer code of a geometry kind, as stored in the tile database.
pub open spec fn type_code(t: DataType) -> u8 {
    match t {
        DataType::Points => 0,
        DataType::Lines => 1,
        DataType::Polygons => 2,
    }
}

/// Canonical, capitalised name of a geometry kind.
pub open spec fn display_name(t: DataType) -> Seq<char> {
    match t {
        DataType::Points => "Points"@,
        DataType::Lines => "Lines"@,
        DataType::Polygons => "Polygons"@,
    }
}

/// Lowercase spelling accepted by the parser.
pub open spec fn lower_name(t: DataType) -> Seq<char> {
    match t {
        DataType::Points => "points"@,
        DataType::Lines => "lines"@,
        DataType::Polygons => "polygons"@,
    }
}

/// The geometry kind named by an already lowercased string, if any.
pub open spec fn parse_lowered(l: Seq<char>) -> Option<DataType> {
    if l == "points"@ {
        Some(DataType::Points)
    } else if l == "lines"@ {
        Some(DataType::Lines)
    } else if l == "polygons"@ {
        Some(DataType::Polygons)
    } else {
        None
    }
}

/// Message of the error returned for a string that names no geometry kind.
pub open spec fn invalid_message(input: Seq<char>) -> Seq<char> {
    "'"@ + input + "' is not a valid DataType"@
}

/// What `str::to_lowercase` returns for a string.
pub uninterp spec fn lower_of(s: Seq<char>) -> Seq<char>;

/// Relies on str::to_lowercase: the lowercase form depends on the characters alone.
#[verifier::external_body]
fn lowercase(s: &str) -> (r: String)
    ensures
        r@ == lower_of(s@),
{
    s.to_lowercase()
}

impl DataType {
    /// Parses a geometry kind from `input`, given its lowercase form `lowered`.
    pub fn from_lowercase(input: &str, lowered: &str) -> (r: Result<DataType, String>)
        ensures
            match r {
                Ok(t) => parse_lowered(lowered@) == Some(t),
                Err(m) => parse_lowered(lowered@) is None && m@ == invalid_message(input@),
            },
    {
        if same_text(lowered, "points") {
            Ok(DataType::Points)
        } else if same_text(lowered, "lines") {
            Ok(DataType::Lines)
        } else if same_text(lowered, "polygons") {
            Ok(DataType::Polygons)
        } else {
            let mut m = String::from_str("'");
            m.append(input);
            m.append("' is not a valid DataType");
            Err(m)
        }
    }

    /// Parses a geometry kind, ignoring case.
    pub fn from_str(input: &str) -> (r: Result<DataType, String>)
        ensures
            match r {
                Ok(t) => parse_lowered(lower_of(input@)) == Some(t),
                Err(m) => parse_lowered(lower_of(input@)) is None && m@ == invalid_message(input@),
            },
    {
        let lowered = lowercase(input);
        DataType::from_lowercase(input, lowered.as_str())
    }

    /// Canonical name of the geometry kind.
    pub fn to_string(&self) -> (r: String)
        ensures
            r@ == display_name(*self),
    {
        match self {
            DataType::Points => String::from_str("Points"),
            DataType::Lines => String::from_str("Lines"),
            DataType::Polygons => String::from_str("Polygons"),
        }
    }

    /// Integer code of the geometry kind.
    pub fn code(self) -> (r: u8)
        ensures
            r == type_code(self),
    {
        match self {
            DataType::Points => 0,
            DataType::Lines => 1,
            DataType::Polygons => 2,
        }
    }
}

impl std::str::FromStr for DataType {
    type Err = String;

    fn from_str(input: &str) -> Result<DataType, String> {
        DataType::from_str(input)
    }
}

impl From<DataType> for u8 {
    fn from(data_type: DataType) -> (r: u8) {
        data_type.code()
    }
}

impl vstd::std_specs::convert::FromSpecImpl<DataType> for u8 {
    open spec fn obeys_from_spec() -> bool {
        true
    }

    open spec fn from_spec(v: DataType) -> u8 {
        type_code(v)
    }
}

/// Every geometry kind parses back from its lowercase spelling, only that
/// spelling names it, and its displayed name is the capitalised form.
pub proof fn lemma_name_round_trip(t: DataType, l: Seq<char>)
    ensures
        parse_lowered(lower_name(t)) == Some(t),
        parse_lowered(l) == Some(t) <==> l == lower_name(t),
        display_name(DataType::Points) == "Points"@,
        display_name(DataType::Lines) == "Lines"@,
        display_name(DataType::Polygons) == "Polygons"@,
{
    reveal_strlit("points");
    reveal_strlit("lines");
    reveal_strlit("polygons");
    assert("points"@.len() == 6);
    assert("lines"@.len() == 5);
    assert("polygons"@.len() == 8);
}

/// The integer codes of the geometry kinds are fixed: points 0, lines 1, polygons 2.
pub proof fn lemma_type_codes()
    ensures
        type_code(DataType::Points) == 0,
        type_code(DataType::Lines) == 1,
        type_code(DataType::Polygons) == 2,
{
}

} // verus!
