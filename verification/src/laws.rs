//! What holds of every comparison, whatever the documents and the rules.

use crate::compare::{
    compare_spec, element_outcome, extra_pass, first_pass, lemma_matched_count_bound,
    matched_count,
};
use crate::diff::{
    changed_attributes, content_diff, detail_diffs, element_is_ignored, extra_attributes,
};
use crate::element::{
    attribute_keys, element_at, lemma_attribute_value_own, lemma_element_at_own_path,
    well_formed, ElementView,
};
use crate::flatten::{flatten_spec, lemma_flatten_well_formed};
use crate::matcher::{path_is_ignored_spec, path_matches_spec, property_is_ignored_spec};
use crate::models::XmlDiffView;
use crate::service::compare_xmls_spec;
use crate::tokens::xml_tokens;
use vstd::prelude::*;

verus! {

/// The counts of a comparison are in order: no more elements match than
/// there are, the ratio is a fraction between zero and one, and the
/// documents match exactly when no record was made.
pub proof fn law_counts_are_in_order(
    first: Seq<ElementView>,
    second: Seq<ElementView>,
    paths: Seq<Seq<char>>,
    properties: Seq<Seq<char>>,
)
    ensures
        0 <= compare_spec(first, second, paths, properties).matched_elements <= compare_spec(
            first,
            second,
            paths,
            properties,
        ).total_elements,
        compare_spec(first, second, paths, properties).match_ratio.wf(),
        compare_spec(first, second, paths, properties).matched <==> compare_spec(
            first,
            second,
            paths,
            properties,
        ).diffs.len() == 0,
{
    lemma_matched_count_bound(first, second, paths, properties);
}

/// Every rule of `fewer` is a rule of `more`.
pub open spec fn rules_within(fewer: Seq<Seq<char>>, more: Seq<Seq<char>>) -> bool {
    forall|i: int| 0 <= i < fewer.len() ==> more.contains(#[trigger] fewer[i])
}

/// A path that fewer patterns cover is covered by more.
pub proof fn lemma_path_ignored_monotone(
    path: Seq<char>,
    fewer: Seq<Seq<char>>,
    more: Seq<Seq<char>>,
)
    requires
        rules_within(fewer, more),
        path_is_ignored_spec(path, fewer),
    ensures
        path_is_ignored_spec(path, more),
{
    let i = choose|i: int| 0 <= i < fewer.len() && path_matches_spec(path, #[trigger] fewer[i]);
    assert(more.contains(fewer[i]));
    let k = choose|k: int| 0 <= k < more.len() && more[k] == fewer[i];
    assert(path_matches_spec(path, more[k]));
}

/// A name that fewer rules ignore is ignored by more.
pub proof fn lemma_property_ignored_monotone(
    name: Seq<char>,
    fewer: Seq<Seq<char>>,
    more: Seq<Seq<char>>,
)
    requires
        rules_within(fewer, more),
        property_is_ignored_spec(name, fewer),
    ensures
        property_is_ignored_spec(name, more),
{
    let i = choose|i: int| 0 <= i < fewer.len() && fewer[i] == name;
    assert(more.contains(fewer[i]));
}

/// Attributes that raise no record under fewer rules raise none under more.
pub proof fn lemma_changed_attributes_monotone(
    path: Seq<char>,
    attributes: Seq<(Seq<char>, Seq<char>)>,
    others: Seq<(Seq<char>, Seq<char>)>,
    fewer: Seq<Seq<char>>,
    more: Seq<Seq<char>>,
)
    requires
        rules_within(fewer, more),
        changed_attributes(path, attributes, others, fewer).len() == 0,
    ensures
        changed_attributes(path, attributes, others, more).len() == 0,
    decreases attributes.len(),
{
    if attributes.len() > 0 {
        let key = attributes.last().0;
        lemma_changed_attributes_monotone(path, attributes.drop_last(), others, fewer, more);
        if property_is_ignored_spec(key, fewer) {
            lemma_property_ignored_monotone(key, fewer, more);
        }
    }
}

/// Extra attributes that raise no record under fewer rules raise none under
/// more.
pub proof fn lemma_extra_attributes_monotone(
    path: Seq<char>,
    firsts: Seq<(Seq<char>, Seq<char>)>,
    attributes: Seq<(Seq<char>, Seq<char>)>,
    fewer: Seq<Seq<char>>,
    more: Seq<Seq<char>>,
)
    requires
        rules_within(fewer, more),
        extra_attributes(path, firsts, attributes, fewer).len() == 0,
    ensures
        extra_attributes(path, firsts, attributes, more).len() == 0,
    decreases attributes.len(),
{
    if attributes.len() > 0 {
        let key = attributes.last().0;
        lemma_extra_attributes_monotone(path, firsts, attributes.drop_last(), fewer, more);
        if property_is_ignored_spec(key, fewer) {
            lemma_property_ignored_monotone(key, fewer, more);
        }
    }
}

/// An element that matches under fewer rules matches under more.
pub proof fn lemma_element_outcome_monotone(
    element: ElementView,
    second: Seq<ElementView>,
    paths: Seq<Seq<char>>,
    properties: Seq<Seq<char>>,
    more_paths: Seq<Seq<char>>,
    more_properties: Seq<Seq<char>>,
)
    requires
        rules_within(paths, more_paths),
        rules_within(properties, more_properties),
        element_outcome(element, second, paths, properties).len() == 0,
    ensures
        element_outcome(element, second, more_paths, more_properties).len() == 0,
{
    if path_is_ignored_spec(element.path, paths) {
        lemma_path_ignored_monotone(element.path, paths, more_paths);
    } else if property_is_ignored_spec(element.name, properties) {
        lemma_property_ignored_monotone(element.name, properties, more_properties);
    } else if !element_is_ignored(element.path, element.name, more_paths, more_properties) {
        match element_at(second, element.path) {
            Some(other) => {
                let path = element.path;
                let detail = detail_diffs(path, element, other, properties);
                assert(detail.len() == 0);
                assert(element.name == other.name);
                assert(content_diff(path, element, other, properties).len() == 0);
                assert(changed_attributes(
                    path,
                    element.attributes,
                    other.attributes,
                    properties,
                ).len() == 0);
                assert(extra_attributes(
                    path,
                    element.attributes,
                    other.attributes,
                    properties,
                ).len() == 0);
                if property_is_ignored_spec(other.name, properties) {
                    lemma_property_ignored_monotone(other.name, properties, more_properties);
                }
                lemma_changed_attributes_monotone(
                    path,
                    element.attributes,
                    other.attributes,
                    properties,
                    more_properties,
                );
                lemma_extra_attributes_monotone(
                    path,
                    element.attributes,
                    other.attributes,
                    properties,
                    more_properties,
                );
            },
            None => {},
        }
    }
}

/// No fewer elements match under more rules.
pub proof fn lemma_matched_count_monotone(
    first: Seq<ElementView>,
    second: Seq<ElementView>,
    paths: Seq<Seq<char>>,
    properties: Seq<Seq<char>>,
    more_paths: Seq<Seq<char>>,
    more_properties: Seq<Seq<char>>,
)
    requires
        rules_within(paths, more_paths),
        rules_within(properties, more_properties),
    ensures
        matched_count(first, second, paths, properties) <= matched_count(
            first,
            second,
            more_paths,
            more_properties,
        ),
    decreases first.len(),
{
    if first.len() > 0 {
        lemma_matched_count_monotone(
            first.drop_last(),
            second,
            paths,
            properties,
            more_paths,
            more_properties,
        );
        if element_outcome(first.last(), second, paths, properties).len() == 0 {
            lemma_element_outcome_monotone(
                first.last(),
                second,
                paths,
                properties,
                more_paths,
                more_properties,
            );
        }
    }
}

/// Monotonicity over the ignore rules, for documents: with every rule kept
/// and any added, the element count stays, no fewer elements match, and
/// the match ratio does not fall.
pub proof fn law_more_rules_never_lower_the_ratio(
    first: Seq<ElementView>,
    second: Seq<ElementView>,
    paths: Seq<Seq<char>>,
    properties: Seq<Seq<char>>,
    more_paths: Seq<Seq<char>>,
    more_properties: Seq<Seq<char>>,
)
    requires
        rules_within(paths, more_paths),
        rules_within(properties, more_properties),
    ensures
        compare_spec(first, second, paths, properties).total_elements == compare_spec(
            first,
            second,
            more_paths,
            more_properties,
        ).total_elements,
        compare_spec(first, second, paths, properties).matched_elements <= compare_spec(
            first,
            second,
            more_paths,
            more_properties,
        ).matched_elements,
        compare_spec(first, second, paths, properties).match_ratio.le(
            compare_spec(first, second, more_paths, more_properties).match_ratio,
        ),
{
    lemma_matched_count_monotone(first, second, paths, properties, more_paths, more_properties);
    let a = compare_spec(first, second, paths, properties);
    let b = compare_spec(first, second, more_paths, more_properties);
    let total = a.total_elements;
    assert(a.matched_elements * total <= b.matched_elements * total) by (nonlinear_arith)
        requires
            a.matched_elements <= b.matched_elements,
            0 <= total,
    ;
}

/// Monotonicity over the ignore rules, for texts: where two texts compare
/// under some rules, they compare under more rules too, and the match
/// ratio does not fall.
pub proof fn law_more_rules_never_lower_the_ratio_of_texts(
    xml1: Seq<char>,
    xml2: Seq<char>,
    paths: Seq<Seq<char>>,
    properties: Seq<Seq<char>>,
    more_paths: Seq<Seq<char>>,
    more_properties: Seq<Seq<char>>,
)
    requires
        rules_within(paths, more_paths),
        rules_within(properties, more_properties),
    ensures
        compare_xmls_spec(xml1, xml2, paths, properties) is Ok <==> compare_xmls_spec(
            xml1,
            xml2,
            more_paths,
            more_properties,
        ) is Ok,
        compare_xmls_spec(xml1, xml2, paths, properties) is Ok ==> compare_xmls_spec(
            xml1,
            xml2,
            paths,
            properties,
        )->Ok_0.match_ratio.le(
            compare_xmls_spec(xml1, xml2, more_paths, more_properties)->Ok_0.match_ratio,
        ),
{
    match flatten_spec(xml_tokens(xml1)) {
        Ok(first) => match flatten_spec(xml_tokens(xml2)) {
            Ok(second) => {
                law_more_rules_never_lower_the_ratio(
                    first,
                    second,
                    paths,
                    properties,
                    more_paths,
                    more_properties,
                );
            },
            Err(_) => {},
        },
        Err(_) => {},
    }
}

/// An attribute list raises no record against itself.
pub proof fn lemma_changed_attributes_self(
    path: Seq<char>,
    attributes: Seq<(Seq<char>, Seq<char>)>,
    all: Seq<(Seq<char>, Seq<char>)>,
    properties: Seq<Seq<char>>,
)
    requires
        attribute_keys(all).no_duplicates(),
        attributes.is_prefix_of(all),
    ensures
        changed_attributes(path, attributes, all, properties).len() == 0,
        extra_attributes(path, all, attributes, properties).len() == 0,
    decreases attributes.len(),
{
    if attributes.len() > 0 {
        let front = attributes.drop_last();
        assert(front.is_prefix_of(all)) by {
            assert(front =~= all.subrange(0, front.len() as int));
        }
        lemma_changed_attributes_self(path, front, all, properties);
        let i = attributes.len() - 1;
        assert(attributes[i] == all.subrange(0, attributes.len() as int)[i]);
        lemma_attribute_value_own(all, i);
    }
}

/// In a well-formed document no element differs from itself.
pub proof fn lemma_element_outcome_self(
    elements: Seq<ElementView>,
    i: int,
    paths: Seq<Seq<char>>,
    properties: Seq<Seq<char>>,
)
    requires
        well_formed(elements),
        0 <= i < elements.len(),
    ensures
        element_outcome(elements[i], elements, paths, properties).len() == 0,
{
    let element = elements[i];
    lemma_element_at_own_path(elements, i);
    assert(element.attributes.is_prefix_of(element.attributes)) by {
        assert(element.attributes =~= element.attributes.subrange(
            0,
            element.attributes.len() as int,
        ));
    }
    lemma_changed_attributes_self(
        element.path,
        element.attributes,
        element.attributes,
        properties,
    );
}

/// The first pass of a well-formed document over itself: every element of
/// a leading part matches and none raises a record.
pub proof fn lemma_first_pass_self(
    part: Seq<ElementView>,
    elements: Seq<ElementView>,
    paths: Seq<Seq<char>>,
    properties: Seq<Seq<char>>,
)
    requires
        well_formed(elements),
        part.is_prefix_of(elements),
    ensures
        first_pass(part, elements, paths, properties).len() == 0,
        matched_count(part, elements, paths, properties) == part.len(),
        extra_pass(elements, part).len() == 0,
    decreases part.len(),
{
    if part.len() > 0 {
        let front = part.drop_last();
        assert(front.is_prefix_of(elements)) by {
            assert(front =~= elements.subrange(0, front.len() as int));
        }
        lemma_first_pass_self(front, elements, paths, properties);
        let i = part.len() - 1;
        assert(part[i] == elements.subrange(0, part.len() as int)[i]);
        lemma_element_outcome_self(elements, i, paths, properties);
        lemma_element_at_own_path(elements, i);
    }
}

/// A well-formed document compared with itself matches, whatever the
/// rules: no record, every element matched, a ratio of one.
pub proof fn law_a_document_matches_itself(
    elements: Seq<ElementView>,
    paths: Seq<Seq<char>>,
    properties: Seq<Seq<char>>,
)
    requires
        well_formed(elements),
    ensures
        compare_spec(elements, elements, paths, properties).matched,
        compare_spec(elements, elements, paths, properties).diffs == Seq::<XmlDiffView>::empty(),
        compare_spec(elements, elements, paths, properties).match_ratio.is_one(),
        compare_spec(elements, elements, paths, properties).matched_elements == elements.len(),
        compare_spec(elements, elements, paths, properties).total_elements == elements.len(),
{
    assert(elements.is_prefix_of(elements)) by {
        assert(elements =~= elements.subrange(0, elements.len() as int));
    }
    lemma_first_pass_self(elements, elements, paths, properties);
    let diffs = first_pass(elements, elements, paths, properties) + extra_pass(elements, elements);
    assert(diffs =~= Seq::<XmlDiffView>::empty());
}

/// A text compared with itself matches, whatever the rules: where it
/// parses, the result holds no record and has a ratio of one.
pub proof fn law_a_text_matches_itself(
    xml: Seq<char>,
    paths: Seq<Seq<char>>,
    properties: Seq<Seq<char>>,
)
    ensures
        match compare_xmls_spec(xml, xml, paths, properties) {
            Ok(result) => result.matched && result.diffs == Seq::<XmlDiffView>::empty()
                && result.match_ratio.is_one(),
            Err(error) => flatten_spec(xml_tokens(xml)) == Err::<Seq<ElementView>, _>(error),
        },
{
    lemma_flatten_well_formed(xml_tokens(xml));
    match flatten_spec(xml_tokens(xml)) {
        Ok(elements) => {
            law_a_document_matches_itself(elements, paths, properties);
        },
        Err(_) => {},
    }
}

} // verus!
