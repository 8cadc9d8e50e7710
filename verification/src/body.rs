use vstd::prelude::*;

verus! {

/// The two raw life values that SpaceEngine gives an Earth-like biosphere.
pub const EARTHLIKE_LIFE_A: u32 = 1703936;

/// The second raw life value of an Earth-like biosphere.
pub const EARTHLIKE_LIFE_B: u32 = 1075445760;

/// Volatiles class of a marine world.
pub const MARINE_CLASS: u32 = 3;

/// Bulk class of a minigiant.
pub const MINIGIANT_BULK_CLASS: u32 = 5;

/// Bit of the object flags that marks the A component of a binary pair.
pub const COMPONENT_A_BIT: u32 = 0x0200_0000;

/// Bit of the object flags that marks the B component of a binary pair.
pub const COMPONENT_B_BIT: u32 = 0x0400_0000;

/// The integer parameters of a selected planet that the rare-find rules read.
#[derive(Clone, Copy, Debug, PartialEq, Eq)]
pub struct PlanetFacts {
    /// Volatiles class (see `get_volatiles_class`).
    pub vol_class: u32,
    /// Bulk class.
    pub bulk_class: u32,
    /// Raw life value.
    pub life: u32,
    /// Raw object flags.
    pub flags: u32,
    /// Volatiles class of the binary companion.
    pub companion_vol_class: u32,
    /// Raw life value of the binary companion.
    pub companion_life: u32,
}

/// The outcome of each comparison on a floating-point measure of the planet
/// (its Earth Similarity Index, mass, radius, pressure and oceans).
#[derive(Clone, Copy, Debug, PartialEq, Eq)]
pub struct Measures {
    /// ESI above the Earth-like threshold.
    pub esi_above_earthlike: bool,
    /// ESI above the minigiant threshold.
    pub esi_above_minigiant: bool,
    /// ESI above the plain high-ESI threshold.
    pub esi_above_high: bool,
    /// One Earth mass and one Earth radius within tolerance.
    pub one_mass_one_radius: bool,
    /// Heavy terrestrial mass with a thin atmosphere.
    pub hyperterrestrial: bool,
    /// Binary giant mass flipped twice, with a thick atmosphere.
    pub ab_flip: bool,
    /// Deep oxygen ocean.
    pub o2_ocean: bool,
}

/// An Earth-like raw life value.
pub open spec fn earthlike_life(life: u32) -> bool {
    life == EARTHLIKE_LIFE_A || life == EARTHLIKE_LIFE_B
}

/// The flags mark the A component of a binary pair.
pub open spec fn flags_component_a(flags: u32) -> bool {
    flags & COMPONENT_A_BIT == COMPONENT_A_BIT
}

/// The flags mark the B component of a binary pair.
pub open spec fn flags_component_b(flags: u32) -> bool {
    flags & COMPONENT_B_BIT == COMPONENT_B_BIT
}

/// A high-ESI Earth-like world.
pub open spec fn is_high_esi_earthlike(f: PlanetFacts, m: Measures) -> bool {
    m.esi_above_earthlike && earthlike_life(f.life) && f.vol_class == MARINE_CLASS
}

/// A high-ESI minigiant.
pub open spec fn is_high_esi_minigiant(f: PlanetFacts, m: Measures) -> bool {
    m.esi_above_minigiant && f.bulk_class == MINIGIANT_BULK_CLASS
}

/// A high-ESI world that is neither of the two above.
pub open spec fn is_high_esi(f: PlanetFacts, m: Measures) -> bool {
    !is_high_esi_earthlike(f, m) && !is_high_esi_minigiant(f, m) && m.esi_above_high
}

/// An A component whose companion is an Earth-like marine world.
pub open spec fn is_binary_earthlikes(f: PlanetFacts) -> bool {
    flags_component_a(f.flags) && earthlike_life(f.companion_life) && f.companion_vol_class
        == MARINE_CLASS
}

/// `s` with `e` appended when `cond` holds.
#[verifier::opaque]
pub open spec fn push_if(s: Seq<&'static str>, cond: bool, e: &'static str) -> Seq<&'static str> {
    if cond {
        s.push(e)
    } else {
        s
    }
}

/// The rare finds of a planet, in the order they are listed.
pub open spec fn findings(f: PlanetFacts, m: Measures) -> Seq<&'static str> {
    let s = push_if(seq![], is_high_esi_earthlike(f, m), "HIGH_ESI_EARTHLIKE");
    let s = push_if(s, is_high_esi_minigiant(f, m), "HIGH_ESI_MINIGIANT");
    let s = push_if(s, is_high_esi(f, m), "HIGH_ESI");
    let s = push_if(s, m.one_mass_one_radius, "1M1R");
    let s = push_if(s, is_binary_earthlikes(f), "BINARY_EARTHLIKES");
    let s = push_if(s, m.hyperterrestrial, "HYPERTERRESTRIAL");
    let s = push_if(s, m.ab_flip, "AB_FLIP");
    push_if(s, m.o2_ocean, "O2_OCEANS")
}

/// The tags written for a planet: "COMMON" alone when nothing was found,
/// else "RARE" followed by every finding.
pub open spec fn body_tags(f: PlanetFacts, m: Measures) -> Seq<&'static str> {
    if findings(f, m).len() == 0 {
        seq!["COMMON"]
    } else {
        seq!["RARE"] + findings(f, m)
    }
}

/// Appends `elem` to `body` when `cond` holds.
pub fn try_add_body(body: &mut Vec<&'static str>, cond: bool, elem: &'static str)
    ensures
        final(body)@ == push_if(old(body)@, cond, elem),
        cond ==> final(body)@.len() == old(body)@.len() + 1 && final(body)@.last() == elem
            && final(body)@.drop_last() == old(body)@,
        !cond ==> final(body)@ == old(body)@,
{
    reveal(push_if);
    if cond {
        body.push(elem);
        assert(body@.drop_last() =~= old(body)@);
    }
}

/// Whether the raw life value is one of the two Earth-like ones.
pub fn has_earthlike_life(life: u32) -> (r: bool)
    ensures
        r == earthlike_life(life),
        r <==> (life == 1703936 || life == 1075445760),
{
    life == EARTHLIKE_LIFE_A || life == EARTHLIKE_LIFE_B
}

/// Whether the object flags mark the A component of a binary pair.
pub fn is_component_a(flags: u32) -> (r: bool)
    ensures
        r == flags_component_a(flags),
        r <==> flags & 0x0200_0000u32 == 0x0200_0000u32,
{
    flags & COMPONENT_A_BIT == COMPONENT_A_BIT
}

/// Whether the object flags mark the B component of a binary pair.
pub fn is_component_b(flags: u32) -> (r: bool)
    ensures
        r == flags_component_b(flags),
        r <==> flags & 0x0400_0000u32 == 0x0400_0000u32,
{
    flags & COMPONENT_B_BIT == COMPONENT_B_BIT
}

/// Appending under a condition commutes with a fixed prefix.
proof fn lemma_push_if_after_prefix(p: Seq<&'static str>, s: Seq<&'static str>, cond: bool, e: &'static str)
    ensures
        push_if(p + s, cond, e) == p + push_if(s, cond, e),
{
    reveal(push_if);
    if cond {
        assert((p + s).push(e) =~= p + s.push(e));
    }
}

/// Appends `elem` to `body` when `cond` holds, where `body` is "RARE"
/// followed by the findings `found` so far; returns the findings after it.
fn add_finding(
    body: &mut Vec<&'static str>,
    Ghost(found): Ghost<Seq<&'static str>>,
    cond: bool,
    elem: &'static str,
) -> (next: Ghost<Seq<&'static str>>)
    requires
        old(body)@ == seq!["RARE"] + found,
    ensures
        next@ == push_if(found, cond, elem),
        final(body)@ == seq!["RARE"] + next@,
{
    try_add_body(body, cond, elem);
    proof {
        lemma_push_if_after_prefix(seq!["RARE"], found, cond, elem);
    }
    Ghost(push_if(found, cond, elem))
}

/// The tags of a planet: "RARE" and its findings, or "COMMON" alone.
pub fn rare_tags(facts: &PlanetFacts, measures: &Measures) -> (body: Vec<&'static str>)
    ensures
        body@ == body_tags(*facts, *measures),
        body@.contains("HIGH_ESI_EARTHLIKE") <==> measures.esi_above_earthlike && (facts.life == 1703936
            || facts.life == 1075445760) && facts.vol_class == 3,
        body@.contains("HIGH_ESI_MINIGIANT") <==> measures.esi_above_minigiant && facts.bulk_class == 5,
        body@.contains("HIGH_ESI") <==> measures.esi_above_high && !(measures.esi_above_earthlike && (facts.life
            == 1703936 || facts.life == 1075445760) && facts.vol_class == 3) && !(measures.esi_above_minigiant
            && facts.bulk_class == 5),
        body@.contains("1M1R") <==> measures.one_mass_one_radius,
        body@.contains("BINARY_EARTHLIKES") <==> facts.flags & 0x0200_0000u32 == 0x0200_0000u32 && (facts.companion_life
            == 1703936 || facts.companion_life == 1075445760) && facts.companion_vol_class == 3,
        body@.contains("HYPERTERRESTRIAL") <==> measures.hyperterrestrial,
        body@.contains("AB_FLIP") <==> measures.ab_flip,
        body@.contains("O2_OCEANS") <==> measures.o2_ocean,
        (body@.len() == 1 && body@[0] == "COMMON") <==> !body@.contains("HIGH_ESI_EARTHLIKE")
            && !body@.contains("HIGH_ESI_MINIGIANT") && !body@.contains("HIGH_ESI")
            && !body@.contains("1M1R") && !body@.contains("BINARY_EARTHLIKES")
            && !body@.contains("HYPERTERRESTRIAL") && !body@.contains("AB_FLIP")
            && !body@.contains("O2_OCEANS"),
        !(body@.len() == 1 && body@[0] == "COMMON") ==> body@.len() >= 2 && body@[0] == "RARE",
{
    proof {
        law_tags_in_raw_terms(*facts, *measures);
    }
    let f = *facts;
    let m = *measures;
    let mut body: Vec<&'static str> = Vec::new();
    body.push("RARE");
    let ghost found: Seq<&'static str> = seq![];
    assert(body@ == seq!["RARE"] + found);
    let high_esi_earthlike = m.esi_above_earthlike && has_earthlike_life(f.life) && f.vol_class
        == MARINE_CLASS;
    let Ghost(found) = add_finding(&mut body, Ghost(found), high_esi_earthlike, "HIGH_ESI_EARTHLIKE");
    let high_esi_minigiant = m.esi_above_minigiant && f.bulk_class == MINIGIANT_BULK_CLASS;
    let Ghost(found) = add_finding(&mut body, Ghost(found), high_esi_minigiant, "HIGH_ESI_MINIGIANT");
    let Ghost(found) = if !high_esi_earthlike && !high_esi_minigiant {
        add_finding(&mut body, Ghost(found), m.esi_above_high, "HIGH_ESI")
    } else {
        proof {
            reveal(push_if);
        }
        Ghost(push_if(found, false, "HIGH_ESI"))
    };
    let Ghost(found) = add_finding(&mut body, Ghost(found), m.one_mass_one_radius, "1M1R");
    let binary = is_component_a(f.flags) && has_earthlike_life(f.companion_life)
        && f.companion_vol_class == MARINE_CLASS;
    let Ghost(found) = add_finding(&mut body, Ghost(found), binary, "BINARY_EARTHLIKES");
    let Ghost(found) = add_finding(&mut body, Ghost(found), m.hyperterrestrial, "HYPERTERRESTRIAL");
    let Ghost(found) = add_finding(&mut body, Ghost(found), m.ab_flip, "AB_FLIP");
    let Ghost(found) = add_finding(&mut body, Ghost(found), m.o2_ocean, "O2_OCEANS");
    assert(found == findings(f, m));
    if body.len() == 1 {
        body.set(0, "COMMON");
        assert(body@ =~= seq!["COMMON"]);
    }
    body
}

/// Membership after a conditional append.
proof fn lemma_push_if_contains(s: Seq<&'static str>, cond: bool, e: &'static str, t: &'static str)
    ensures
        push_if(s, cond, e).contains(t) <==> s.contains(t) || (cond && t == e),
{
    reveal(push_if);
    if cond {
        if s.push(e).contains(t) {
            let i = choose|i: int| 0 <= i < s.push(e).len() && s.push(e)[i] == t;
            if i < s.len() {
                assert(s[i] == t);
            }
        }
        if s.contains(t) {
            let i = choose|i: int| 0 <= i < s.len() && s[i] == t;
            assert(s.push(e)[i] == t);
        }
        if t == e {
            assert(s.push(e)[s.len() as int] == t);
        }
    }
}

/// A conditional append of a new element keeps a sequence free of repeats.
proof fn lemma_push_if_no_duplicates(s: Seq<&'static str>, cond: bool, e: &'static str)
    requires
        s.no_duplicates(),
        !s.contains(e),
    ensures
        push_if(s, cond, e).no_duplicates(),
{
    reveal(push_if);
    if cond {
        assert forall|i: int, j: int|
            0 <= i < s.push(e).len() && 0 <= j < s.push(e).len() && i != j implies s.push(e)[i]
            != s.push(e)[j] by {
            if i == s.len() as int {
                assert(s[j] == s.push(e)[j]);
            } else if j == s.len() as int {
                assert(s[i] == s.push(e)[i]);
            }
        }
    }
}

/// The eight tag names are pairwise distinct.
proof fn lemma_tag_names_distinct()
    ensures
        "HIGH_ESI_EARTHLIKE" != "HIGH_ESI_MINIGIANT",
        "HIGH_ESI_EARTHLIKE" != "HIGH_ESI",
        "HIGH_ESI_EARTHLIKE" != "1M1R",
        "HIGH_ESI_EARTHLIKE" != "BINARY_EARTHLIKES",
        "HIGH_ESI_EARTHLIKE" != "HYPERTERRESTRIAL",
        "HIGH_ESI_EARTHLIKE" != "AB_FLIP",
        "HIGH_ESI_EARTHLIKE" != "O2_OCEANS",
        "HIGH_ESI_MINIGIANT" != "HIGH_ESI",
        "HIGH_ESI_MINIGIANT" != "1M1R",
        "HIGH_ESI_MINIGIANT" != "BINARY_EARTHLIKES",
        "HIGH_ESI_MINIGIANT" != "HYPERTERRESTRIAL",
        "HIGH_ESI_MINIGIANT" != "AB_FLIP",
        "HIGH_ESI_MINIGIANT" != "O2_OCEANS",
        "HIGH_ESI" != "1M1R",
        "HIGH_ESI" != "BINARY_EARTHLIKES",
        "HIGH_ESI" != "HYPERTERRESTRIAL",
        "HIGH_ESI" != "AB_FLIP",
        "HIGH_ESI" != "O2_OCEANS",
        "1M1R" != "BINARY_EARTHLIKES",
        "1M1R" != "HYPERTERRESTRIAL",
        "1M1R" != "AB_FLIP",
        "1M1R" != "O2_OCEANS",
        "BINARY_EARTHLIKES" != "HYPERTERRESTRIAL",
        "BINARY_EARTHLIKES" != "AB_FLIP",
        "BINARY_EARTHLIKES" != "O2_OCEANS",
        "HYPERTERRESTRIAL" != "AB_FLIP",
        "HYPERTERRESTRIAL" != "O2_OCEANS",
        "AB_FLIP" != "O2_OCEANS",
        "RARE" != "COMMON",
{
    reveal_strlit("HIGH_ESI_EARTHLIKE");
    reveal_strlit("HIGH_ESI_MINIGIANT");
    reveal_strlit("HIGH_ESI");
    reveal_strlit("1M1R");
    reveal_strlit("BINARY_EARTHLIKES");
    reveal_strlit("HYPERTERRESTRIAL");
    reveal_strlit("AB_FLIP");
    reveal_strlit("O2_OCEANS");
    reveal_strlit("RARE");
    reveal_strlit("COMMON");
}

/// The name of the rule at position `k` of the listing order.
spec fn tag_name(k: int) -> &'static str {
    if k == 0 {
        "HIGH_ESI_EARTHLIKE"
    } else if k == 1 {
        "HIGH_ESI_MINIGIANT"
    } else if k == 2 {
        "HIGH_ESI"
    } else if k == 3 {
        "1M1R"
    } else if k == 4 {
        "BINARY_EARTHLIKES"
    } else if k == 5 {
        "HYPERTERRESTRIAL"
    } else if k == 6 {
        "AB_FLIP"
    } else {
        "O2_OCEANS"
    }
}

/// Whether the rule at position `k` of the listing order holds.
spec fn tag_rule(f: PlanetFacts, m: Measures, k: int) -> bool {
    if k == 0 {
        is_high_esi_earthlike(f, m)
    } else if k == 1 {
        is_high_esi_minigiant(f, m)
    } else if k == 2 {
        is_high_esi(f, m)
    } else if k == 3 {
        m.one_mass_one_radius
    } else if k == 4 {
        is_binary_earthlikes(f)
    } else if k == 5 {
        m.hyperterrestrial
    } else if k == 6 {
        m.ab_flip
    } else {
        m.o2_ocean
    }
}

/// The findings after the first `k` rules.
spec fn stage(f: PlanetFacts, m: Measures, k: nat) -> Seq<&'static str>
    decreases k,
{
    if k == 0 {
        seq![]
    } else {
        push_if(stage(f, m, (k - 1) as nat), tag_rule(f, m, k - 1), tag_name(k - 1))
    }
}

proof fn lemma_findings_is_stage(f: PlanetFacts, m: Measures)
    ensures
        findings(f, m) == stage(f, m, 8),
{
    reveal_with_fuel(stage, 9);
}

proof fn lemma_stage_contains(f: PlanetFacts, m: Measures, k: nat, t: &'static str)
    ensures
        stage(f, m, k).contains(t) <==> exists|j: int| 0 <= j < k && tag_rule(f, m, j) && #[trigger] tag_name(j) == t,
    decreases k,
{
    if k > 0 {
        lemma_stage_contains(f, m, (k - 1) as nat, t);
        lemma_push_if_contains(stage(f, m, (k - 1) as nat), tag_rule(f, m, k - 1), tag_name(k - 1), t);
        if tag_rule(f, m, k - 1) && tag_name(k - 1) == t {
            assert(tag_name(k - 1) == t);
        }
    }
}

proof fn lemma_stage_no_duplicates(f: PlanetFacts, m: Measures, k: nat)
    requires
        k <= 8,
    ensures
        stage(f, m, k).no_duplicates(),
    decreases k,
{
    if k > 0 {
        lemma_stage_no_duplicates(f, m, (k - 1) as nat);
        lemma_stage_contains(f, m, (k - 1) as nat, tag_name(k - 1));
        lemma_tag_names_distinct();
        assert forall|j: int| 0 <= j < k - 1 implies #[trigger] tag_name(j) != tag_name(k - 1) by {}
        lemma_push_if_no_duplicates(stage(f, m, (k - 1) as nat), tag_rule(f, m, k - 1), tag_name(k - 1));
    }
}

/// A tag is listed among the findings exactly when its rule holds: a
/// high-ESI Earth-like, a high-ESI minigiant, a high-ESI world that is
/// neither, one mass and one radius, Earth-like binaries, a
/// hyperterrestrial, an A|B flip or an oxygen ocean.
pub proof fn law_tag_listed_iff_rule_holds(f: PlanetFacts, m: Measures, t: &'static str)
    ensures
        findings(f, m).contains(t) <==> {
            ||| t == "HIGH_ESI_EARTHLIKE" && is_high_esi_earthlike(f, m)
            ||| t == "HIGH_ESI_MINIGIANT" && is_high_esi_minigiant(f, m)
            ||| t == "HIGH_ESI" && is_high_esi(f, m)
            ||| t == "1M1R" && m.one_mass_one_radius
            ||| t == "BINARY_EARTHLIKES" && is_binary_earthlikes(f)
            ||| t == "HYPERTERRESTRIAL" && m.hyperterrestrial
            ||| t == "AB_FLIP" && m.ab_flip
            ||| t == "O2_OCEANS" && m.o2_ocean
        },
{
    lemma_findings_is_stage(f, m);
    lemma_stage_contains(f, m, 8, t);
    assert(tag_name(0) == "HIGH_ESI_EARTHLIKE");
    assert(tag_name(1) == "HIGH_ESI_MINIGIANT");
    assert(tag_name(2) == "HIGH_ESI");
    assert(tag_name(3) == "1M1R");
    assert(tag_name(4) == "BINARY_EARTHLIKES");
    assert(tag_name(5) == "HYPERTERRESTRIAL");
    assert(tag_name(6) == "AB_FLIP");
    assert(tag_name(7) == "O2_OCEANS");
}

/// No tag is written twice for one planet.
pub proof fn law_no_tag_twice(f: PlanetFacts, m: Measures)
    ensures
        findings(f, m).no_duplicates(),
        body_tags(f, m).no_duplicates(),
{
    lemma_findings_is_stage(f, m);
    lemma_stage_no_duplicates(f, m, 8);
    let s = findings(f, m);
    if s.len() > 0 {
        lemma_tag_names_distinct();
        law_tag_listed_iff_rule_holds(f, m, "RARE");
        reveal_strlit("RARE");
        reveal_strlit("HIGH_ESI_EARTHLIKE");
        reveal_strlit("HIGH_ESI_MINIGIANT");
        reveal_strlit("HIGH_ESI");
        reveal_strlit("1M1R");
        reveal_strlit("BINARY_EARTHLIKES");
        reveal_strlit("HYPERTERRESTRIAL");
        reveal_strlit("AB_FLIP");
        reveal_strlit("O2_OCEANS");
        assert(!s.contains("RARE"));
        let b = seq!["RARE"] + s;
        assert forall|i: int, j: int| 0 <= i < b.len() && 0 <= j < b.len() && i != j implies b[i] != b[j] by {
            if i == 0 {
                assert(s[j - 1] == b[j]);
            } else if j == 0 {
                assert(s[i - 1] == b[i]);
            } else {
                assert(b[i] == s[i - 1] && b[j] == s[j - 1]);
            }
        }
    }
}

/// "COMMON" is written alone exactly when no rule holds; otherwise the tags
/// start with "RARE", followed by at least one finding.
pub proof fn law_common_iff_nothing_rare(f: PlanetFacts, m: Measures)
    ensures
        body_tags(f, m) == seq!["COMMON"] <==> !{
            ||| is_high_esi_earthlike(f, m)
            ||| is_high_esi_minigiant(f, m)
            ||| is_high_esi(f, m)
            ||| m.one_mass_one_radius
            ||| is_binary_earthlikes(f)
            ||| m.hyperterrestrial
            ||| m.ab_flip
            ||| m.o2_ocean
        },
        body_tags(f, m) != seq!["COMMON"] ==> body_tags(f, m)[0] == "RARE" && body_tags(f, m).len() >= 2,
{
    lemma_tag_names_distinct();
    let s = findings(f, m);
    law_tag_listed_iff_rule_holds(f, m, "HIGH_ESI_EARTHLIKE");
    law_tag_listed_iff_rule_holds(f, m, "HIGH_ESI_MINIGIANT");
    law_tag_listed_iff_rule_holds(f, m, "HIGH_ESI");
    law_tag_listed_iff_rule_holds(f, m, "1M1R");
    law_tag_listed_iff_rule_holds(f, m, "BINARY_EARTHLIKES");
    law_tag_listed_iff_rule_holds(f, m, "HYPERTERRESTRIAL");
    law_tag_listed_iff_rule_holds(f, m, "AB_FLIP");
    law_tag_listed_iff_rule_holds(f, m, "O2_OCEANS");
    if s.len() > 0 {
        assert(s.contains(s[0]));
        law_tag_listed_iff_rule_holds(f, m, s[0]);
        assert((seq!["RARE"] + s)[0] == "RARE");
        assert((seq!["RARE"] + s).len() >= 2);
    } else {
        assert(!s.contains("HIGH_ESI_EARTHLIKE"));
    }
}

/// The plain high-ESI tag never stands beside the Earth-like or minigiant
/// high-ESI tags.
pub proof fn law_high_esi_stands_alone(f: PlanetFacts, m: Measures)
    ensures
        findings(f, m).contains("HIGH_ESI") ==> !findings(f, m).contains("HIGH_ESI_EARTHLIKE")
            && !findings(f, m).contains("HIGH_ESI_MINIGIANT"),
{
    lemma_tag_names_distinct();
    law_tag_listed_iff_rule_holds(f, m, "HIGH_ESI");
    law_tag_listed_iff_rule_holds(f, m, "HIGH_ESI_EARTHLIKE");
    law_tag_listed_iff_rule_holds(f, m, "HIGH_ESI_MINIGIANT");
}

/// The vector left by calling `try_add_body` with `conds[i]` and `elems[i]`
/// for each `i` below `n`, in order, on a vector that held `b0`.
pub open spec fn after_calls(
    b0: Seq<&'static str>,
    conds: Seq<bool>,
    elems: Seq<&'static str>,
    n: nat,
) -> Seq<&'static str>
    decreases n,
{
    if n == 0 {
        b0
    } else {
        push_if(after_calls(b0, conds, elems, (n - 1) as nat), conds[n - 1], elems[n - 1])
    }
}

/// The elements `elems[i]`, `i` below `n`, whose condition `conds[i]` holds,
/// in order.
pub open spec fn selected(conds: Seq<bool>, elems: Seq<&'static str>, n: nat) -> Seq<&'static str>
    decreases n,
{
    if n == 0 {
        seq![]
    } else if conds[n - 1] {
        selected(conds, elems, (n - 1) as nat).push(elems[n - 1])
    } else {
        selected(conds, elems, (n - 1) as nat)
    }
}

/// How many of the first `n` conditions hold.
pub open spec fn count_true(conds: Seq<bool>, n: nat) -> nat
    decreases n,
{
    if n == 0 {
        0
    } else if conds[n - 1] {
        count_true(conds, (n - 1) as nat) + 1
    } else {
        count_true(conds, (n - 1) as nat)
    }
}

/// A run of `try_add_body` calls appends exactly the elements whose
/// conditions hold, in call order; the vector grows by the number of
/// conditions that hold, and keeps its length exactly when none holds.
pub proof fn law_run_of_additions(
    b0: Seq<&'static str>,
    conds: Seq<bool>,
    elems: Seq<&'static str>,
    n: nat,
)
    requires
        n <= conds.len(),
        n <= elems.len(),
    ensures
        after_calls(b0, conds, elems, n) == b0 + selected(conds, elems, n),
        selected(conds, elems, n).len() == count_true(conds, n),
        after_calls(b0, conds, elems, n).len() == b0.len() + count_true(conds, n),
        after_calls(b0, conds, elems, n).len() == b0.len() <==> forall|i: int|
            0 <= i < n ==> !#[trigger] conds[i],
    decreases n,
{
    reveal(push_if);
    if n > 0 {
        let m = (n - 1) as nat;
        law_run_of_additions(b0, conds, elems, m);
        if conds[m as int] {
            assert((b0 + selected(conds, elems, m)).push(elems[m as int]) =~= b0 + selected(
                conds,
                elems,
                m,
            ).push(elems[m as int]));
        }
        if after_calls(b0, conds, elems, n).len() == b0.len() {
            assert forall|i: int| 0 <= i < n implies !#[trigger] conds[i] by {
                if i < m {
                    assert(after_calls(b0, conds, elems, m).len() == b0.len());
                }
            }
        }
    }
}

/// Each tag is written exactly when the game's raw values call for it: a
/// high-ESI Earth-like needs an Earth-like life value (1703936 or
/// 1075445760) on a marine world (volatiles class 3); a high-ESI minigiant
/// needs bulk class 5; the plain high-ESI tag needs neither of those; an
/// Earth-like binary needs the A-component bit 0x0200_0000 and a marine
/// companion with Earth-like life. "COMMON" stands alone exactly when no tag
/// is written, and otherwise "RARE" comes first.
pub proof fn law_tags_in_raw_terms(f: PlanetFacts, m: Measures)
    ensures
        body_tags(f, m).contains("HIGH_ESI_EARTHLIKE") <==> m.esi_above_earthlike && (f.life == 1703936
            || f.life == 1075445760) && f.vol_class == 3,
        body_tags(f, m).contains("HIGH_ESI_MINIGIANT") <==> m.esi_above_minigiant && f.bulk_class == 5,
        body_tags(f, m).contains("HIGH_ESI") <==> m.esi_above_high && !(m.esi_above_earthlike && (f.life
            == 1703936 || f.life == 1075445760) && f.vol_class == 3) && !(m.esi_above_minigiant
            && f.bulk_class == 5),
        body_tags(f, m).contains("1M1R") <==> m.one_mass_one_radius,
        body_tags(f, m).contains("BINARY_EARTHLIKES") <==> f.flags & 0x0200_0000u32 == 0x0200_0000u32 && (f.companion_life
            == 1703936 || f.companion_life == 1075445760) && f.companion_vol_class == 3,
        body_tags(f, m).contains("HYPERTERRESTRIAL") <==> m.hyperterrestrial,
        body_tags(f, m).contains("AB_FLIP") <==> m.ab_flip,
        body_tags(f, m).contains("O2_OCEANS") <==> m.o2_ocean,
        (body_tags(f, m).len() == 1 && body_tags(f, m)[0] == "COMMON") <==> !body_tags(f, m).contains("HIGH_ESI_EARTHLIKE")
            && !body_tags(f, m).contains("HIGH_ESI_MINIGIANT") && !body_tags(f, m).contains("HIGH_ESI")
            && !body_tags(f, m).contains("1M1R") && !body_tags(f, m).contains("BINARY_EARTHLIKES")
            && !body_tags(f, m).contains("HYPERTERRESTRIAL") && !body_tags(f, m).contains("AB_FLIP")
            && !body_tags(f, m).contains("O2_OCEANS"),
        !(body_tags(f, m).len() == 1 && body_tags(f, m)[0] == "COMMON") ==> body_tags(f, m).len() >= 2 && body_tags(f, m)[0] == "RARE",
{
    lemma_tag_names_distinct();
    reveal_strlit("RARE");
    reveal_strlit("COMMON");
    reveal_strlit("HIGH_ESI_EARTHLIKE");
    reveal_strlit("HIGH_ESI_MINIGIANT");
    reveal_strlit("HIGH_ESI");
    reveal_strlit("1M1R");
    reveal_strlit("BINARY_EARTHLIKES");
    reveal_strlit("HYPERTERRESTRIAL");
    reveal_strlit("AB_FLIP");
    reveal_strlit("O2_OCEANS");
    law_common_iff_nothing_rare(f, m);
    let s = findings(f, m);
    let b = body_tags(f, m);
    assert forall|t: &'static str| t != "RARE" && t != "COMMON" implies (b.contains(t) <==> s.contains(t)) by {
        if s.len() == 0 {
            assert(b =~= seq!["COMMON"]);
            if b.contains(t) {
                let i = choose|i: int| 0 <= i < b.len() && b[i] == t;
                assert(b[i] == "COMMON");
            }
        } else {
            assert(b =~= seq!["RARE"] + s);
            if b.contains(t) {
                let i = choose|i: int| 0 <= i < b.len() && b[i] == t;
                assert(i > 0);
                assert(s[i - 1] == t);
            }
            if s.contains(t) {
                let i = choose|i: int| 0 <= i < s.len() && s[i] == t;
                assert(b[i + 1] == t);
            }
        }
    }
    law_tag_listed_iff_rule_holds(f, m, "HIGH_ESI_EARTHLIKE");
    law_tag_listed_iff_rule_holds(f, m, "HIGH_ESI_MINIGIANT");
    law_tag_listed_iff_rule_holds(f, m, "HIGH_ESI");
    law_tag_listed_iff_rule_holds(f, m, "1M1R");
    law_tag_listed_iff_rule_holds(f, m, "BINARY_EARTHLIKES");
    law_tag_listed_iff_rule_holds(f, m, "HYPERTERRESTRIAL");
    law_tag_listed_iff_rule_holds(f, m, "AB_FLIP");
    law_tag_listed_iff_rule_holds(f, m, "O2_OCEANS");
    assert(b.len() == 1 && b[0] == "COMMON" <==> b == seq!["COMMON"]) by {
        if b.len() == 1 && b[0] == "COMMON" {
            assert(b =~= seq!["COMMON"]);
        }
    }
}

} // verus!
