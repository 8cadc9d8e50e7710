use vstd::prelude::*;

verus! {

/// The name SpaceEngine gives to a volatiles class code.
pub open spec fn volatiles_class_name(v: u32) -> Seq<char> {
    if v == 0 {
        "airless"@
    } else if v == 1 {
        "arid"@
    } else if v == 2 {
        "lacustrine"@
    } else if v == 3 {
        "marine"@
    } else if v == 4 {
        "oceanic"@
    } else if v == 5 {
        "superoceanic"@
    } else if v == 6 {
        "glacial"@
    } else if v == 7 {
        "superglacial"@
    } else if v == 8 {
        "non-arid"@
    } else if v == 9 {
        ""@
    } else {
        "any"@
    }
}

/// The names, character by character: airless, arid, lacustrine, marine,
/// oceanic, superoceanic, glacial, superglacial, non-arid, the empty name for
/// 9, and "any" for every other code.
pub proof fn law_volatiles_class_names(v: u32)
    ensures
        v == 0 ==> volatiles_class_name(v) == seq!['a', 'i', 'r', 'l', 'e', 's', 's'],
        v == 1 ==> volatiles_class_name(v) == seq!['a', 'r', 'i', 'd'],
        v == 2 ==> volatiles_class_name(v) == seq!['l', 'a', 'c', 'u', 's', 't', 'r', 'i', 'n', 'e'],
        v == 3 ==> volatiles_class_name(v) == seq!['m', 'a', 'r', 'i', 'n', 'e'],
        v == 4 ==> volatiles_class_name(v) == seq!['o', 'c', 'e', 'a', 'n', 'i', 'c'],
        v == 5 ==> volatiles_class_name(v) == seq![
            's', 'u', 'p', 'e', 'r', 'o', 'c', 'e', 'a', 'n', 'i', 'c',
        ],
        v == 6 ==> volatiles_class_name(v) == seq!['g', 'l', 'a', 'c', 'i', 'a', 'l'],
        v == 7 ==> volatiles_class_name(v) == seq![
            's', 'u', 'p', 'e', 'r', 'g', 'l', 'a', 'c', 'i', 'a', 'l',
        ],
        v == 8 ==> volatiles_class_name(v) == seq!['n', 'o', 'n', '-', 'a', 'r', 'i', 'd'],
        v == 9 ==> volatiles_class_name(v).len() == 0,
        v >= 10 ==> volatiles_class_name(v) == seq!['a', 'n', 'y'],
{
    reveal_strlit("airless");
    reveal_strlit("arid");
    reveal_strlit("lacustrine");
    reveal_strlit("marine");
    reveal_strlit("oceanic");
    reveal_strlit("superoceanic");
    reveal_strlit("glacial");
    reveal_strlit("superglacial");
    reveal_strlit("non-arid");
    reveal_strlit("");
    reveal_strlit("any");
    assert("airless"@ =~= seq!['a', 'i', 'r', 'l', 'e', 's', 's']);
    assert("arid"@ =~= seq!['a', 'r', 'i', 'd']);
    assert("lacustrine"@ =~= seq!['l', 'a', 'c', 'u', 's', 't', 'r', 'i', 'n', 'e']);
    assert("marine"@ =~= seq!['m', 'a', 'r', 'i', 'n', 'e']);
    assert("oceanic"@ =~= seq!['o', 'c', 'e', 'a', 'n', 'i', 'c']);
    assert("superoceanic"@ =~= seq!['s', 'u', 'p', 'e', 'r', 'o', 'c', 'e', 'a', 'n', 'i', 'c']);
    assert("glacial"@ =~= seq!['g', 'l', 'a', 'c', 'i', 'a', 'l']);
    assert("superglacial"@ =~= seq!['s', 'u', 'p', 'e', 'r', 'g', 'l', 'a', 'c', 'i', 'a', 'l']);
    assert("non-arid"@ =~= seq!['n', 'o', 'n', '-', 'a', 'r', 'i', 'd']);
    assert("any"@ =~= seq!['a', 'n', 'y']);
}

/// Returns the human-readable name of a volatiles class code
/// (classes 6 and 7 are unused by the game, 8 and 9 are implementation
/// details, and every other code reads as "any").
pub fn get_volatiles_class(v: u32) -> (name: &'static str)
    ensures
        name@ == volatiles_class_name(v),
        v == 3 ==> name@ == seq!['m', 'a', 'r', 'i', 'n', 'e'],
        v == 8 ==> name@ == seq!['n', 'o', 'n', '-', 'a', 'r', 'i', 'd'],
        v >= 10 ==> name@ == seq!['a', 'n', 'y'],
{
    proof {
        law_volatiles_class_names(v);
    }
    match v {
        0 => "airless",
        1 => "arid",
        2 => "lacustrine",
        3 => "marine",
        4 => "oceanic",
        5 => "superoceanic",
        6 => "glacial",
        7 => "superglacial",
        8 => "non-arid",
        9 => "",
        _ => "any",
    }
}

} // verus!
