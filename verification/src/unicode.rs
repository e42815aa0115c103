//! Unicode character classification.
//!
//! The query grammar classifies characters with Unicode's `Blank`,
//! `ID_Start` and `ID_Continue` properties, and the script router asks
//! which script a character belongs to. All four classifications come
//! from the `icu_properties` crate through the trusted wrappers below.

use vstd::prelude::*;

verus! {

/// Membership in Unicode's `Blank` set as `icu_properties` reports it.
pub uninterp spec fn unicode_blank(c: char) -> bool;

/// Membership in Unicode's `ID_Start` set as `icu_properties` reports it.
pub uninterp spec fn unicode_id_start(c: char) -> bool;

/// Membership in Unicode's `ID_Continue` set as `icu_properties` reports it.
pub uninterp spec fn unicode_id_continue(c: char) -> bool;

/// Whether `c` has the script `script` (a Unicode script code) in the
/// script-with-extensions data of `icu_properties`.
pub uninterp spec fn char_in_script(c: char, script: u16) -> bool;

/// The script code that a loose lookup of `name` yields in the script
/// name table of `icu_properties`, if any.
pub uninterp spec fn script_code_of(name: Seq<char>) -> Option<u16>;

/// The two code points that introduce a mention: `@` and its fullwidth variant.
pub open spec fn is_mention_sigil(c: char) -> bool {
    c == '@' || c == '\u{FF20}'
}

/// The two code points that introduce a scope: `!` and its fullwidth variant.
pub open spec fn is_scope_sigil(c: char) -> bool {
    c == '!' || c == '\u{FF01}'
}

/// The two code points that separate mention segments: `.` and the
/// ideographic full stop.
pub open spec fn is_path_sep(c: char) -> bool {
    c == '.' || c == '\u{3002}'
}

pub open spec fn is_sigil(c: char) -> bool {
    is_mention_sigil(c) || is_scope_sigil(c)
}

/// Blank characters: exactly Unicode's `Blank` set, which contains the
/// ASCII space.
pub open spec fn is_blank(c: char) -> bool {
    c == ' ' || unicode_blank(c)
}

/// Characters that may open an identifier: Unicode's `ID_Start` set.
pub open spec fn is_id_start(c: char) -> bool {
    unicode_id_start(c)
}

/// Characters that may continue an identifier: Unicode's `ID_Continue`
/// set, which contains no sigil, no path separator and no space.
pub open spec fn is_id_continue(c: char) -> bool {
    !is_sigil(c) && !is_path_sep(c) && c != ' ' && unicode_id_continue(c)
}

/// Relies on `icu_properties`' `Blank` code point set. The equation with
/// `is_blank` holds because U+0020 is in the `Blank` set.
#[verifier::external_body]
pub fn char_is_blank(c: char) -> (r: bool)
    ensures
        r == is_blank(c),
        r == (c == ' ' || unicode_blank(c)),
{
    icu_properties::CodePointSetData::new::<icu_properties::props::Blank>().contains(c)
}

/// Relies on `icu_properties`' `ID_Start` code point set.
#[verifier::external_body]
pub fn char_is_id_start(c: char) -> (r: bool)
    ensures
        r == is_id_start(c),
        r == unicode_id_start(c),
{
    icu_properties::CodePointSetData::new::<icu_properties::props::IdStart>().contains(c)
}

/// Relies on `icu_properties`' `ID_Continue` code point set. The equation
/// with `is_id_continue` holds because none of `@`, `!`, `.`, their
/// fullwidth or ideographic variants, or the space are in `ID_Continue`.
#[verifier::external_body]
pub fn char_is_id_continue(c: char) -> (r: bool)
    ensures
        r == is_id_continue(c),
        r == (!is_sigil(c) && !is_path_sep(c) && c != ' ' && unicode_id_continue(c)),
{
    icu_properties::CodePointSetData::new::<icu_properties::props::IdContinue>().contains(c)
}

/// Relies on `ScriptWithExtensionsBorrowed::has_script` of
/// `icu_properties`: the answer depends on the character and the script
/// code alone.
#[verifier::external_body]
pub fn char_has_script(c: char, script: u16) -> (r: bool)
    ensures
        r == char_in_script(c, script),
{
    #[allow(deprecated)]
    let s = icu_properties::props::Script::from_icu4c_value(script);
    icu_properties::script::ScriptWithExtensionsBorrowed::new().has_script(c, s)
}

/// Relies on `PropertyParserBorrowed::get_loose_u16` of `icu_properties`:
/// a loose, case-insensitive lookup of a script name that depends on the
/// name alone.
#[verifier::external_body]
pub fn script_by_name(name: &str) -> (r: Option<u16>)
    ensures
        r == script_code_of(name@),
{
    icu_properties::PropertyParser::<icu_properties::props::Script>::new().get_loose_u16(name)
}

} // verus!
