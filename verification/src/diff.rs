//! The diff engine: classifies how two flattened documents differ under
//! the ignore rules.

use crate::element::{attribute_value, find_attribute, ElementView, XmlElement};
use crate::matcher::{
    list_ignores_path, list_ignores_property, path_is_ignored_spec, property_is_ignored_spec,
    rules_of,
};
use crate::models::{DiffType, XmlDiff, XmlDiffView};
use crate::render::{render_element, render_spec};
use crate::text::{clone_optional, join3, same_optional};
use vstd::prelude::*;

verus! {

/// An attribute as a diff record shows it.
pub open spec fn entry_text(key: Seq<char>, value: Seq<char>) -> Seq<char> {
    key + "="@ + value
}

/// The record of contents that differ, where neither tag name is ignored.
pub open spec fn content_diff(
    path: Seq<char>,
    e1: ElementView,
    e2: ElementView,
    properties: Seq<Seq<char>>,
) -> Seq<XmlDiffView> {
    if !property_is_ignored_spec(e1.name, properties) && !property_is_ignored_spec(
        e2.name,
        properties,
    ) && e1.content != e2.content {
        seq![
            XmlDiffView {
                path,
                diff_type: DiffType::ContentDifferent,
                expected: e1.content,
                actual: e2.content,
                message: "Content differs"@,
            },
        ]
    } else {
        Seq::empty()
    }
}

/// The record for one attribute of the first element: none where its key is
/// ignored or the second element gives the key the same value.
pub open spec fn attribute_diff(
    path: Seq<char>,
    key: Seq<char>,
    value: Seq<char>,
    others: Seq<(Seq<char>, Seq<char>)>,
    properties: Seq<Seq<char>>,
) -> Seq<XmlDiffView> {
    if property_is_ignored_spec(key, properties) {
        Seq::empty()
    } else {
        match attribute_value(others, key) {
            Some(other) => if value != other {
                seq![
                    XmlDiffView {
                        path,
                        diff_type: DiffType::AttributeDifferent,
                        expected: Some(entry_text(key, value)),
                        actual: Some(entry_text(key, other)),
                        message: "Attribute '"@ + key + "' differs"@,
                    },
                ]
            } else {
                Seq::empty()
            },
            None => seq![
                XmlDiffView {
                    path,
                    diff_type: DiffType::AttributeDifferent,
                    expected: Some(entry_text(key, value)),
                    actual: None,
                    message: "Attribute '"@ + key + "' missing in second XML"@,
                },
            ],
        }
    }
}

/// The records for the attributes of the first element, in their order.
pub open spec fn changed_attributes(
    path: Seq<char>,
    attributes: Seq<(Seq<char>, Seq<char>)>,
    others: Seq<(Seq<char>, Seq<char>)>,
    properties: Seq<Seq<char>>,
) -> Seq<XmlDiffView>
    decreases attributes.len(),
{
    if attributes.len() == 0 {
        Seq::empty()
    } else {
        changed_attributes(path, attributes.drop_last(), others, properties) + attribute_diff(
            path,
            attributes.last().0,
            attributes.last().1,
            others,
            properties,
        )
    }
}

/// The record for one attribute of the second element: one where its key
/// is not ignored and the first element lacks it.
pub open spec fn extra_attribute_diff(
    path: Seq<char>,
    key: Seq<char>,
    value: Seq<char>,
    firsts: Seq<(Seq<char>, Seq<char>)>,
    properties: Seq<Seq<char>>,
) -> Seq<XmlDiffView> {
    if !property_is_ignored_spec(key, properties) && attribute_value(firsts, key) is None {
        seq![
            XmlDiffView {
                path,
                diff_type: DiffType::AttributeDifferent,
                expected: None,
                actual: Some(entry_text(key, value)),
                message: "Extra attribute '"@ + key + "' in second XML"@,
            },
        ]
    } else {
        Seq::empty()
    }
}

/// The records for the attributes that only the second element has, in
/// their order.
pub open spec fn extra_attributes(
    path: Seq<char>,
    firsts: Seq<(Seq<char>, Seq<char>)>,
    attributes: Seq<(Seq<char>, Seq<char>)>,
    properties: Seq<Seq<char>>,
) -> Seq<XmlDiffView>
    decreases attributes.len(),
{
    if attributes.len() == 0 {
        Seq::empty()
    } else {
        extra_attributes(path, firsts, attributes.drop_last(), properties)
            + extra_attribute_diff(
            path,
            attributes.last().0,
            attributes.last().1,
            firsts,
            properties,
        )
    }
}

/// The records of content and attributes: the content first, then the
/// attributes of the first element, then those that only the second has.
pub open spec fn detail_diffs(
    path: Seq<char>,
    e1: ElementView,
    e2: ElementView,
    properties: Seq<Seq<char>>,
) -> Seq<XmlDiffView> {
    content_diff(path, e1, e2, properties) + changed_attributes(
        path,
        e1.attributes,
        e2.attributes,
        properties,
    ) + extra_attributes(path, e1.attributes, e2.attributes, properties)
}

/// The record that two elements differ in a way that no record of content
/// or attributes shows.
pub open spec fn structure_diff(path: Seq<char>, e1: ElementView, e2: ElementView) -> XmlDiffView {
    XmlDiffView {
        path,
        diff_type: DiffType::StructureDifferent,
        expected: Some(render_spec(e1)),
        actual: Some(render_spec(e2)),
        message: "Structure differs"@,
    }
}

/// All the records for two elements held at one path: those of content and
/// attributes, or, where there are none and the tag names differ, the one
/// of structure.
pub open spec fn element_diffs(
    path: Seq<char>,
    e1: ElementView,
    e2: ElementView,
    properties: Seq<Seq<char>>,
) -> Seq<XmlDiffView> {
    let detail = detail_diffs(path, e1, e2, properties);
    if detail.len() == 0 && e1.name != e2.name {
        seq![structure_diff(path, e1, e2)]
    } else {
        detail
    }
}

/// Whether the rules exclude an element from comparison: by its path or by
/// its tag name.
pub open spec fn element_is_ignored(
    path: Seq<char>,
    name: Seq<char>,
    paths: Seq<Seq<char>>,
    properties: Seq<Seq<char>>,
) -> bool {
    path_is_ignored_spec(path, paths) || property_is_ignored_spec(name, properties)
}

/// The records for two elements held at `path` under the rules: none where
/// the rules exclude the element.
pub open spec fn create_element_diffs_spec(
    path: Seq<char>,
    e1: ElementView,
    e2: ElementView,
    paths: Seq<Seq<char>>,
    properties: Seq<Seq<char>>,
) -> Seq<XmlDiffView> {
    if element_is_ignored(path, e1.name, paths, properties) {
        Seq::empty()
    } else {
        element_diffs(path, e1, e2, properties)
    }
}

/// Adds one record to a list.
pub fn push_diff(diffs: &mut Vec<XmlDiff>, diff: XmlDiff)
    ensures
        final(diffs).deep_view() == old(diffs).deep_view().push(diff@),
{
    diffs.push(diff);
    proof {
        assert(final(diffs).deep_view() =~= old(diffs).deep_view().push(diff@));
    }
}

/// Moves the records of `more` to the end of a list.
pub fn append_diffs(diffs: &mut Vec<XmlDiff>, more: Vec<XmlDiff>)
    ensures
        final(diffs).deep_view() == old(diffs).deep_view() + more.deep_view(),
{
    let mut more = more;
    let ghost moved = more.deep_view();
    diffs.append(&mut more);
    proof {
        assert(final(diffs).deep_view() =~= old(diffs).deep_view() + moved);
    }
}

/// The records of content and attributes for two elements held at `path`,
/// or the record of structure where there are none and the tag names
/// differ.
pub fn element_differences(
    path: &str,
    element1: &XmlElement,
    element2: &XmlElement,
    ignore_properties: &Option<Vec<String>>,
) -> (diffs: Vec<XmlDiff>)
    ensures
        diffs.deep_view() == element_diffs(
            path@,
            element1@,
            element2@,
            rules_of(*ignore_properties),
        ),
{
    let ghost properties = rules_of(*ignore_properties);
    let ghost firsts = element1@.attributes;
    let ghost seconds = element2@.attributes;
    let mut diffs: Vec<XmlDiff> = Vec::new();
    proof {
        assert(diffs.deep_view() =~= Seq::empty());
    }
    if !list_ignores_property(element1.name.as_str(), ignore_properties) && !list_ignores_property(
        element2.name.as_str(),
        ignore_properties,
    ) && !same_optional(&element1.content, &element2.content) {
        push_diff(
            &mut diffs,
            XmlDiff {
                path: String::from_str(path),
                diff_type: DiffType::ContentDifferent,
                expected: clone_optional(&element1.content),
                actual: clone_optional(&element2.content),
                message: String::from_str("Content differs"),
            },
        );
    }
    let ghost content = content_diff(path@, element1@, element2@, properties);
    assert(diffs.deep_view() =~= content);
    let mut i: usize = 0;
    proof {
        assert(firsts.take(0) =~= Seq::empty());
        assert(content + Seq::<XmlDiffView>::empty() =~= content);
    }
    while i < element1.attributes.len()
        invariant
            i <= element1.attributes@.len(),
            properties == rules_of(*ignore_properties),
            firsts == element1@.attributes,
            seconds == element2@.attributes,
            firsts.len() == element1.attributes@.len(),
            diffs.deep_view() == content + changed_attributes(
                path@,
                firsts.take(i as int),
                seconds,
                properties,
            ),
        decreases element1.attributes@.len() - i,
    {
        let key = &element1.attributes[i].0;
        let value = &element1.attributes[i].1;
        let ghost before = changed_attributes(path@, firsts.take(i as int), seconds, properties);
        let ghost here = attribute_diff(path@, key@, value@, seconds, properties);
        proof {
            let next = firsts.take(i + 1);
            assert(next.drop_last() =~= firsts.take(i as int));
            assert(next.last() == firsts[i as int]);
            assert(firsts[i as int] == (key@, value@));
            assert(changed_attributes(path@, next, seconds, properties) == before + here);
            assert(content + (before + here) =~= content + before + here);
        }
        if !list_ignores_property(key.as_str(), ignore_properties) {
            match find_attribute(&element2.attributes, key) {
                Some(at) => {
                    let other = &element2.attributes[at].1;
                    assert(seconds[at as int] == (
                        element2.attributes@[at as int].0@,
                        element2.attributes@[at as int].1@,
                    ));
                    if *value != *other {
                        push_diff(
                            &mut diffs,
                            XmlDiff {
                                path: String::from_str(path),
                                diff_type: DiffType::AttributeDifferent,
                                expected: Some(join3(key.as_str(), "=", value.as_str())),
                                actual: Some(join3(key.as_str(), "=", other.as_str())),
                                message: join3("Attribute '", key.as_str(), "' differs"),
                            },
                        );
                        assert(diffs.deep_view() =~= content + before + here);
                    } else {
                        assert(diffs.deep_view() =~= content + before + here);
                    }
                },
                None => {
                    push_diff(
                        &mut diffs,
                        XmlDiff {
                            path: String::from_str(path),
                            diff_type: DiffType::AttributeDifferent,
                            expected: Some(join3(key.as_str(), "=", value.as_str())),
                            actual: None,
                            message: join3("Attribute '", key.as_str(), "' missing in second XML"),
                        },
                    );
                    assert(diffs.deep_view() =~= content + before + here);
                },
            }
        } else {
            assert(diffs.deep_view() =~= content + before + here);
        }
        i = i + 1;
    }
    let ghost changed = changed_attributes(path@, firsts, seconds, properties);
    proof {
        assert(firsts.take(firsts.len() as int) =~= firsts);
        assert(seconds.take(0) =~= Seq::empty());
        assert(content + changed + Seq::<XmlDiffView>::empty() =~= content + changed);
    }
    let mut k: usize = 0;
    while k < element2.attributes.len()
        invariant
            k <= element2.attributes@.len(),
            properties == rules_of(*ignore_properties),
            firsts == element1@.attributes,
            seconds == element2@.attributes,
            seconds.len() == element2.attributes@.len(),
            changed == changed_attributes(path@, firsts, seconds, properties),
            diffs.deep_view() == content + changed + extra_attributes(
                path@,
                firsts,
                seconds.take(k as int),
                properties,
            ),
        decreases element2.attributes@.len() - k,
    {
        let key = &element2.attributes[k].0;
        let value = &element2.attributes[k].1;
        let ghost before = extra_attributes(path@, firsts, seconds.take(k as int), properties);
        let ghost here = extra_attribute_diff(path@, key@, value@, firsts, properties);
        proof {
            let next = seconds.take(k + 1);
            assert(next.drop_last() =~= seconds.take(k as int));
            assert(next.last() == seconds[k as int]);
            assert(seconds[k as int] == (key@, value@));
            assert(extra_attributes(path@, firsts, next, properties) == before + here);
            assert(content + changed + (before + here) =~= content + changed + before + here);
        }
        if !list_ignores_property(key.as_str(), ignore_properties) && find_attribute(
            &element1.attributes,
            key,
        ).is_none() {
            push_diff(
                &mut diffs,
                XmlDiff {
                    path: String::from_str(path),
                    diff_type: DiffType::AttributeDifferent,
                    expected: None,
                    actual: Some(join3(key.as_str(), "=", value.as_str())),
                    message: join3("Extra attribute '", key.as_str(), "' in second XML"),
                },
            );
            assert(diffs.deep_view() =~= content + changed + before + here);
        } else {
            assert(diffs.deep_view() =~= content + changed + before + here);
        }
        k = k + 1;
    }
    proof {
        assert(seconds.take(seconds.len() as int) =~= seconds);
        assert(diffs.deep_view() == detail_diffs(path@, element1@, element2@, properties));
    }
    if diffs.len() == 0 && element1.name != element2.name {
        push_diff(
            &mut diffs,
            XmlDiff {
                path: String::from_str(path),
                diff_type: DiffType::StructureDifferent,
                expected: Some(render_element(element1)),
                actual: Some(render_element(element2)),
                message: String::from_str("Structure differs"),
            },
        );
        proof {
            assert(diffs.deep_view() =~= seq![structure_diff(path@, element1@, element2@)]);
        }
    }
    diffs
}

/// The records for two elements held at `path` under the ignore rules: none
/// where the path or the first element's tag name is ignored.
pub fn create_element_diffs(
    path: &str,
    element1: &XmlElement,
    element2: &XmlElement,
    ignore_paths: &Option<Vec<String>>,
    ignore_properties: &Option<Vec<String>>,
) -> (diffs: Vec<XmlDiff>)
    ensures
        diffs.deep_view() == create_element_diffs_spec(
            path@,
            element1@,
            element2@,
            rules_of(*ignore_paths),
            rules_of(*ignore_properties),
        ),
{
    if list_ignores_path(path, ignore_paths) || list_ignores_property(
        element1.name.as_str(),
        ignore_properties,
    ) {
        let diffs: Vec<XmlDiff> = Vec::new();
        proof {
            assert(diffs.deep_view() =~= Seq::empty());
        }
        return diffs;
    }
    element_differences(path, element1, element2, ignore_properties)
}

} // verus!
