//! Comparison of two flattened documents: every element of the first
//! against the second, then what only the second holds.

use crate::diff::{
    append_diffs, element_differences, element_diffs, element_is_ignored, push_diff,
};
use crate::element::{element_at, ElementView, FlatDocument};
use crate::matcher::{list_ignores_path, list_ignores_property, rules_of};
use crate::models::{
    ratio_of, ComparisonView, DiffType, MatchRatio, XmlComparisonResponse, XmlDiff, XmlDiffView,
};
use crate::render::{render_element, render_spec};
use vstd::prelude::*;

verus! {

/// The record of an element that the second document lacks.
pub open spec fn missing_diff(element: ElementView) -> XmlDiffView {
    XmlDiffView {
        path: element.path,
        diff_type: DiffType::ElementMissing,
        expected: Some(render_spec(element)),
        actual: None,
        message: "Element missing in second XML"@,
    }
}

/// The record of an element that only the second document holds.
pub open spec fn extra_diff(element: ElementView) -> XmlDiffView {
    XmlDiffView {
        path: element.path,
        diff_type: DiffType::ElementExtra,
        expected: None,
        actual: Some(render_spec(element)),
        message: "Extra element in second XML"@,
    }
}

/// The records for one element of the first document: none where the rules
/// exclude it, the one of a missing element where the second document holds
/// nothing at its path, else those of the two elements.
pub open spec fn element_outcome(
    element: ElementView,
    second: Seq<ElementView>,
    paths: Seq<Seq<char>>,
    properties: Seq<Seq<char>>,
) -> Seq<XmlDiffView> {
    if element_is_ignored(element.path, element.name, paths, properties) {
        Seq::empty()
    } else {
        match element_at(second, element.path) {
            Some(other) => element_diffs(element.path, element, other, properties),
            None => seq![missing_diff(element)],
        }
    }
}

/// The records for the elements of the first document, in its order.
pub open spec fn first_pass(
    first: Seq<ElementView>,
    second: Seq<ElementView>,
    paths: Seq<Seq<char>>,
    properties: Seq<Seq<char>>,
) -> Seq<XmlDiffView>
    decreases first.len(),
{
    if first.len() == 0 {
        Seq::empty()
    } else {
        first_pass(first.drop_last(), second, paths, properties) + element_outcome(
            first.last(),
            second,
            paths,
            properties,
        )
    }
}

/// How many elements of the first document have no record against them.
pub open spec fn matched_count(
    first: Seq<ElementView>,
    second: Seq<ElementView>,
    paths: Seq<Seq<char>>,
    properties: Seq<Seq<char>>,
) -> nat
    decreases first.len(),
{
    if first.len() == 0 {
        0
    } else {
        let before = matched_count(first.drop_last(), second, paths, properties);
        if element_outcome(first.last(), second, paths, properties).len() == 0 {
            before + 1
        } else {
            before
        }
    }
}

/// The records of the elements that only the second document holds, in its
/// order.
pub open spec fn extra_pass(first: Seq<ElementView>, second: Seq<ElementView>) -> Seq<
    XmlDiffView,
>
    decreases second.len(),
{
    if second.len() == 0 {
        Seq::empty()
    } else {
        let before = extra_pass(first, second.drop_last());
        if element_at(first, second.last().path) is None {
            before.push(extra_diff(second.last()))
        } else {
            before
        }
    }
}

/// The larger of two lengths.
pub open spec fn larger(a: int, b: int) -> int {
    if a >= b {
        a
    } else {
        b
    }
}

/// The result of comparing two documents under the rules.
pub open spec fn compare_spec(
    first: Seq<ElementView>,
    second: Seq<ElementView>,
    paths: Seq<Seq<char>>,
    properties: Seq<Seq<char>>,
) -> ComparisonView {
    let diffs = first_pass(first, second, paths, properties) + extra_pass(first, second);
    let total = larger(first.len() as int, second.len() as int);
    let matched = matched_count(first, second, paths, properties) as int;
    ComparisonView {
        matched: diffs.len() == 0,
        match_ratio: ratio_of(matched, total),
        diffs,
        total_elements: total,
        matched_elements: matched,
    }
}

/// No more elements match than the first document holds.
pub proof fn lemma_matched_count_bound(
    first: Seq<ElementView>,
    second: Seq<ElementView>,
    paths: Seq<Seq<char>>,
    properties: Seq<Seq<char>>,
)
    ensures
        matched_count(first, second, paths, properties) <= first.len(),
    decreases first.len(),
{
    if first.len() > 0 {
        lemma_matched_count_bound(first.drop_last(), second, paths, properties);
    }
}

/// Compares two flattened documents under the ignore rules.
pub fn compare_documents(
    first: &FlatDocument,
    second: &FlatDocument,
    ignore_paths: &Option<Vec<String>>,
    ignore_properties: &Option<Vec<String>>,
) -> (result: XmlComparisonResponse)
    ensures
        result@ == compare_spec(
            first@,
            second@,
            rules_of(*ignore_paths),
            rules_of(*ignore_properties),
        ),
{
    let ghost paths = rules_of(*ignore_paths);
    let ghost properties = rules_of(*ignore_properties);
    let mut diffs: Vec<XmlDiff> = Vec::new();
    let mut matched_elements: usize = 0;
    let total_elements: usize = if first.len() >= second.len() {
        first.len()
    } else {
        second.len()
    };
    let mut i: usize = 0;
    proof {
        assert(diffs.deep_view() =~= Seq::empty());
        assert(first@.take(0) =~= Seq::empty());
    }
    while i < first.elements.len()
        invariant
            i <= first.elements@.len(),
            first@.len() == first.elements@.len(),
            paths == rules_of(*ignore_paths),
            properties == rules_of(*ignore_properties),
            matched_elements <= i,
            matched_elements == matched_count(first@.take(i as int), second@, paths, properties),
            diffs.deep_view() == first_pass(first@.take(i as int), second@, paths, properties),
        decreases first.elements@.len() - i,
    {
        let element = &first.elements[i];
        let ghost before = first_pass(first@.take(i as int), second@, paths, properties);
        let ghost here = element_outcome(element@, second@, paths, properties);
        proof {
            let next = first@.take(i + 1);
            assert(next.drop_last() =~= first@.take(i as int));
            assert(next.last() == first@[i as int]);
            assert(first@[i as int] == element@);
            assert(first_pass(next, second@, paths, properties) == before + here);
            assert(before + Seq::<XmlDiffView>::empty() =~= before);
        }
        if list_ignores_path(element.path.as_str(), ignore_paths) || list_ignores_property(
            element.name.as_str(),
            ignore_properties,
        ) {
            matched_elements = matched_elements + 1;
        } else {
            match second.position(&element.path) {
                Some(at) => {
                    assert(second@[at as int] == second.elements@[at as int]@);
                    let found = element_differences(
                        element.path.as_str(),
                        element,
                        &second.elements[at],
                        ignore_properties,
                    );
                    if found.len() == 0 {
                        matched_elements = matched_elements + 1;
                    } else {
                        append_diffs(&mut diffs, found);
                    }
                },
                None => {
                    push_diff(
                        &mut diffs,
                        XmlDiff {
                            path: element.path.clone(),
                            diff_type: DiffType::ElementMissing,
                            expected: Some(render_element(element)),
                            actual: None,
                            message: String::from_str("Element missing in second XML"),
                        },
                    );
                    proof {
                        assert(before.push(missing_diff(element@)) =~= before + here);
                    }
                },
            }
        }
        i = i + 1;
    }
    let ghost firsts = first_pass(first@, second@, paths, properties);
    proof {
        assert(first@.take(first@.len() as int) =~= first@);
        assert(second@.take(0) =~= Seq::empty());
        assert(firsts + Seq::<XmlDiffView>::empty() =~= firsts);
    }
    let mut k: usize = 0;
    while k < second.elements.len()
        invariant
            k <= second.elements@.len(),
            second@.len() == second.elements@.len(),
            diffs.deep_view() == firsts + extra_pass(first@, second@.take(k as int)),
        decreases second.elements@.len() - k,
    {
        let element = &second.elements[k];
        let ghost before = extra_pass(first@, second@.take(k as int));
        proof {
            let next = second@.take(k + 1);
            assert(next.drop_last() =~= second@.take(k as int));
            assert(next.last() == second@[k as int]);
            assert(second@[k as int] == element@);
        }
        if first.position(&element.path).is_none() {
            push_diff(
                &mut diffs,
                XmlDiff {
                    path: element.path.clone(),
                    diff_type: DiffType::ElementExtra,
                    expected: None,
                    actual: Some(render_element(element)),
                    message: String::from_str("Extra element in second XML"),
                },
            );
            proof {
                assert((firsts + before).push(extra_diff(element@)) =~= firsts + before.push(
                    extra_diff(element@),
                ));
            }
        }
        k = k + 1;
    }
    proof {
        assert(second@.take(second@.len() as int) =~= second@);
    }
    let match_ratio = if total_elements > 0 {
        MatchRatio { numerator: matched_elements, denominator: total_elements }
    } else {
        MatchRatio { numerator: 1, denominator: 1 }
    };
    XmlComparisonResponse {
        matched: diffs.len() == 0,
        match_ratio,
        diffs,
        total_elements,
        matched_elements,
    }
}

} // verus!
