//! The fixed table of named example patterns, in a stable order.

use vstd::prelude::*;

verus! {

/// The preset table: each entry is a name and its pattern text.
pub open spec fn preset_table() -> Seq<(Seq<char>, Seq<char>)> {
    seq![
        ("Email"@, r"^[\w.-]+@([\w-]+\.)+[\w-]{2,4}$"@),
        ("Phone (US)"@, r"^\+?1?\d{10}$"@),
        ("URL"@, r"^https?://[\w\-\.]+(:\d+)?(/[\w/_\.\-]*)?$"@),
    ]
}

/// The views of a list of name and pattern pairs.
pub open spec fn pairs_view(v: Seq<(String, String)>) -> Seq<(Seq<char>, Seq<char>)> {
    v.map_values(|p: (String, String)| (p.0@, p.1@))
}

fn entry(name: &str, pattern: &str) -> (r: (String, String))
    ensures
        r.0@ == name@,
        r.1@ == pattern@,
{
    (name.to_owned(), pattern.to_owned())
}

/// The preset table, as name and pattern pairs.
pub fn list_presets() -> (r: Vec<(String, String)>)
    ensures
        pairs_view(r@) == preset_table(),
{
    let mut r: Vec<(String, String)> = Vec::new();
    r.push(entry("Email", r"^[\w.-]+@([\w-]+\.)+[\w-]{2,4}$"));
    r.push(entry("Phone (US)", r"^\+?1?\d{10}$"));
    r.push(entry("URL", r"^https?://[\w\-\.]+(:\d+)?(/[\w/_\.\-]*)?$"));
    assert(pairs_view(r@) =~= preset_table());
    r
}

} // verus!
