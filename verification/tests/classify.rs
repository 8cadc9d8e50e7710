use speng_hunter::body::{
    has_earthlike_life, is_component_a, is_component_b, rare_tags, try_add_body, Measures,
    PlanetFacts,
};
use speng_hunter::label::body_label;
use speng_hunter::volatiles::get_volatiles_class;

fn plain_facts() -> PlanetFacts {
    PlanetFacts {
        vol_class: 0,
        bulk_class: 0,
        life: 0,
        flags: 0,
        companion_vol_class: 0,
        companion_life: 0,
    }
}

fn no_measures() -> Measures {
    Measures {
        esi_above_earthlike: false,
        esi_above_minigiant: false,
        esi_above_high: false,
        one_mass_one_radius: false,
        hyperterrestrial: false,
        ab_flip: false,
        o2_ocean: false,
    }
}

#[test]
fn volatiles_class_names() {
    let expected = [
        "airless",
        "arid",
        "lacustrine",
        "marine",
        "oceanic",
        "superoceanic",
        "glacial",
        "superglacial",
        "non-arid",
        "",
    ];
    for (code, name) in expected.iter().enumerate() {
        assert_eq!(get_volatiles_class(code as u32), *name);
    }
    assert_eq!(get_volatiles_class(10), "any");
    assert_eq!(get_volatiles_class(u32::MAX), "any");
}

#[test]
fn try_add_body_pushes_only_when_true() {
    let mut body = vec!["RARE"];
    try_add_body(&mut body, false, "AB_FLIP");
    assert_eq!(body, vec!["RARE"]);
    try_add_body(&mut body, true, "AB_FLIP");
    assert_eq!(body, vec!["RARE", "AB_FLIP"]);
}

#[test]
fn nothing_found_is_common() {
    assert_eq!(rare_tags(&plain_facts(), &no_measures()), vec!["COMMON"]);
}

#[test]
fn high_esi_earthlike_needs_life_and_marine() {
    let mut m = no_measures();
    m.esi_above_earthlike = true;
    m.esi_above_high = true;
    let mut f = plain_facts();
    f.life = 1703936;
    f.vol_class = 3;
    assert_eq!(rare_tags(&f, &m), vec!["RARE", "HIGH_ESI_EARTHLIKE"]);
    f.life = 1075445760;
    assert_eq!(rare_tags(&f, &m), vec!["RARE", "HIGH_ESI_EARTHLIKE"]);
    f.vol_class = 4;
    assert_eq!(rare_tags(&f, &m), vec!["RARE", "HIGH_ESI"]);
    f.vol_class = 3;
    f.life = 1;
    assert_eq!(rare_tags(&f, &m), vec!["RARE", "HIGH_ESI"]);
}

#[test]
fn high_esi_minigiant_excludes_plain_high_esi() {
    let mut m = no_measures();
    m.esi_above_minigiant = true;
    m.esi_above_high = true;
    let mut f = plain_facts();
    f.bulk_class = 5;
    assert_eq!(rare_tags(&f, &m), vec!["RARE", "HIGH_ESI_MINIGIANT"]);
    f.bulk_class = 4;
    assert_eq!(rare_tags(&f, &m), vec!["RARE", "HIGH_ESI"]);
}

#[test]
fn binary_earthlikes_needs_a_component() {
    let mut f = plain_facts();
    f.companion_life = 1703936;
    f.companion_vol_class = 3;
    assert_eq!(rare_tags(&f, &no_measures()), vec!["COMMON"]);
    f.flags = 0x0200_0000;
    assert_eq!(rare_tags(&f, &no_measures()), vec!["RARE", "BINARY_EARTHLIKES"]);
    f.flags = 0x0400_0000;
    assert_eq!(rare_tags(&f, &no_measures()), vec!["COMMON"]);
}

#[test]
fn small_worlds_are_not_rare() {
    let m = no_measures();
    let mut f = plain_facts();
    for class in [0, 1, 2, 5, 8, 9] {
        f.vol_class = class;
        assert_eq!(rare_tags(&f, &m), vec!["COMMON"]);
    }
}

#[test]
fn every_finding_in_order() {
    let m = Measures {
        esi_above_earthlike: true,
        esi_above_minigiant: true,
        esi_above_high: true,
        one_mass_one_radius: true,
        hyperterrestrial: true,
        ab_flip: true,
        o2_ocean: true,
    };
    let f = PlanetFacts {
        vol_class: 3,
        bulk_class: 5,
        life: 1703936,
        flags: 0x0200_0000,
        companion_vol_class: 3,
        companion_life: 1075445760,
    };
    let tags = rare_tags(&f, &m);
    assert_eq!(
        tags,
        vec![
            "RARE",
            "HIGH_ESI_EARTHLIKE",
            "HIGH_ESI_MINIGIANT",
            "1M1R",
            "BINARY_EARTHLIKES",
            "HYPERTERRESTRIAL",
            "AB_FLIP",
            "O2_OCEANS",
        ]
    );
    assert_eq!(
        body_label(&tags),
        "RARE + HIGH_ESI_EARTHLIKE + HIGH_ESI_MINIGIANT + 1M1R + BINARY_EARTHLIKES + \
         HYPERTERRESTRIAL + AB_FLIP + O2_OCEANS"
    );
}

#[test]
fn single_float_findings() {
    let f = plain_facts();
    let mut m = no_measures();
    m.one_mass_one_radius = true;
    assert_eq!(rare_tags(&f, &m), vec!["RARE", "1M1R"]);
    let mut m = no_measures();
    m.hyperterrestrial = true;
    assert_eq!(rare_tags(&f, &m), vec!["RARE", "HYPERTERRESTRIAL"]);
    let mut m = no_measures();
    m.ab_flip = true;
    m.o2_ocean = true;
    assert_eq!(rare_tags(&f, &m), vec!["RARE", "AB_FLIP", "O2_OCEANS"]);
    let mut m = no_measures();
    m.esi_above_earthlike = true;
    assert_eq!(rare_tags(&f, &m), vec!["COMMON"]);
}

#[test]
fn law_no_tag_twice_on_examples() {
    let m = Measures {
        esi_above_earthlike: true,
        esi_above_minigiant: false,
        esi_above_high: true,
        one_mass_one_radius: true,
        hyperterrestrial: false,
        ab_flip: true,
        o2_ocean: false,
    };
    let mut f = plain_facts();
    f.vol_class = 3;
    f.life = 1703936;
    let tags = rare_tags(&f, &m);
    for i in 0..tags.len() {
        for j in 0..tags.len() {
            if i != j {
                assert_ne!(tags[i], tags[j]);
            }
        }
    }
    assert!(!(tags.contains(&"HIGH_ESI") && tags.contains(&"HIGH_ESI_EARTHLIKE")));
}

#[test]
fn label_joins_tags() {
    assert_eq!(body_label(&vec!["COMMON"]), "COMMON");
    assert_eq!(body_label(&vec!["RARE", "1M1R"]), "RARE + 1M1R");
    assert_eq!(body_label(&vec![]), "");
}

#[test]
fn life_and_component_bits() {
    assert!(has_earthlike_life(1703936));
    assert!(has_earthlike_life(1075445760));
    assert!(!has_earthlike_life(0));
    assert!(is_component_a(0x0200_0000));
    assert!(is_component_a(0xFFFF_FFFF));
    assert!(!is_component_a(0x0400_0000));
    assert!(is_component_b(0x0600_0000));
    assert!(!is_component_b(0x0200_0000));
}

#[test]
fn law_run_of_additions_on_examples() {
    let conds = [true, false, true, false];
    let elems = ["A", "B", "C", "D"];
    let mut body = vec!["RARE"];
    for i in 0..conds.len() {
        try_add_body(&mut body, conds[i], elems[i]);
    }
    assert_eq!(body, vec!["RARE", "A", "C"]);
    let mut body = vec!["RARE"];
    for e in elems {
        try_add_body(&mut body, false, e);
    }
    assert_eq!(body.len(), 1);
}
