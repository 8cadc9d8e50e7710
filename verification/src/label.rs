use vstd::prelude::*;

verus! {

/// The parts joined with `sep` between each two neighbours.
pub open spec fn joined(parts: Seq<Seq<char>>, sep: Seq<char>) -> Seq<char>
    decreases parts.len(),
{
    if parts.len() == 0 {
        seq![]
    } else if parts.len() == 1 {
        parts[0]
    } else {
        joined(parts.drop_last(), sep) + sep + parts.last()
    }
}

/// The text of each tag.
pub open spec fn tag_texts(tags: Seq<&'static str>) -> Seq<Seq<char>> {
    tags.map_values(|t: &'static str| t@)
}

/// The label of no tags is empty, that of one tag is the tag, and one more
/// tag adds " + " and the tag at the end of the label of the others.
pub proof fn law_label_grows_by_separator_and_tag(tags: Seq<&'static str>)
    ensures
        tags.len() == 0 ==> joined(tag_texts(tags), " + "@).len() == 0,
        tags.len() == 1 ==> joined(tag_texts(tags), " + "@) == tags[0]@,
        tags.len() >= 2 ==> joined(tag_texts(tags), " + "@) == joined(
            tag_texts(tags.drop_last()),
            " + "@,
        ) + seq![' ', '+', ' '] + tags.last()@,
{
    reveal_strlit(" + ");
    if tags.len() >= 2 {
        assert(tag_texts(tags).drop_last() =~= tag_texts(tags.drop_last()));
        assert(" + "@ =~= seq![' ', '+', ' ']);
    }
}

/// The label of a planet in the log: its tags joined by " + ".
pub fn body_label(tags: &Vec<&'static str>) -> (label: String)
    ensures
        label@ == joined(tag_texts(tags@), " + "@),
        tags@.len() == 0 ==> label@.len() == 0,
        tags@.len() == 1 ==> label@ == tags@[0]@,
        tags@.len() >= 2 ==> label@ == joined(tag_texts(tags@.drop_last()), " + "@) + seq![
            ' ',
            '+',
            ' ',
        ] + tags@.last()@,
{
    proof {
        law_label_grows_by_separator_and_tag(tags@);
    }
    let mut label = String::new();
    let ghost texts = tag_texts(tags@);
    for i in 0..tags.len()
        invariant
            texts == tag_texts(tags@),
            label@ == joined(texts.take(i as int), " + "@),
    {
        if i != 0 {
            label.append(" + ");
        }
        label.append(tags[i]);
        assert(texts.take(i + 1).drop_last() =~= texts.take(i as int));
    }
    assert(texts.take(tags.len() as int) =~= texts);
    label
}

} // verus!
