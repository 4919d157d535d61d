//! Trusted boundary to the ini document library.
//!
//! The configuration file is an ini-style document; parsing and serializing
//! it is the ini library's job. This module declares the outside types that
//! cross that boundary and gives the two document-building calls the library
//! makes a contract over `ini_sections`, the mathematical contents of a
//! document.

use vstd::prelude::*;

verus! {

#[verifier::external_type_specification]
#[verifier::external_body]
pub struct ExIni(ini::Ini);

#[verifier::external_type_specification]
#[verifier::external_body]
pub struct ExIniError(ini::Error);

#[verifier::external_type_specification]
#[verifier::external_body]
pub struct ExIoError(std::io::Error);

/// The named sections of an ini document: each section name is mapped to the
/// key-value pairs that `Ini::get_from` reads from that section. The unnamed
/// general section is not part of this view.
pub uninterp spec fn ini_sections(doc: ini::Ini) -> Map<Seq<char>, Map<Seq<char>, Seq<char>>>;

/// The contents of a document without any named section.
pub open spec fn no_sections() -> Map<Seq<char>, Map<Seq<char>, Seq<char>>> {
    Map::empty()
}

/// `d` with `value` stored under `key` inside the section named `section`,
/// the section first being created empty when absent.
pub open spec fn doc_set(
    d: Map<Seq<char>, Map<Seq<char>, Seq<char>>>,
    section: Seq<char>,
    key: Seq<char>,
    value: Seq<char>,
) -> Map<Seq<char>, Map<Seq<char>, Seq<char>>> {
    let props = if d.contains_key(section) {
        d[section]
    } else {
        Map::empty()
    };
    d.insert(section, props.insert(key, value))
}

/// Relies on ini's `Ini::new`: a freshly created document holds no named
/// section (only the empty unnamed general section).
#[verifier::external_body]
pub fn new_doc() -> (doc: ini::Ini)
    ensures
        ini_sections(doc) == no_sections(),
{
    ini::Ini::new()
}

/// Relies on ini's `Ini::set_to`: stores `value` under `key` in the section
/// named `section`, creating that section when it is absent and replacing
/// any earlier value of the key.
#[verifier::external_body]
pub fn set_in_section(doc: &mut ini::Ini, section: &str, key: &str, value: &str)
    ensures
        ini_sections(*final(doc)) == doc_set(ini_sections(*old(doc)), section@, key@, value@),
{
    doc.set_to(Some(section), key.to_string(), value.to_string());
}

} // verus!
