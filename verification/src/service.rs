//! The comparison service: two XML texts in, a classified diff set out.

use crate::compare::{compare_documents, compare_spec};
use crate::diff::{create_element_diffs, create_element_diffs_spec};
use crate::element::{well_formed, ElementView, FlatDocument, XmlElement};
use crate::error::{AppError, AppErrorView};
use crate::flatten::{flatten_spec, flatten_tokens, parse_xml};
use crate::matcher::{path_matches, path_matches_spec, rules_of};
use crate::models::{ComparisonView, XmlComparisonRequest, XmlComparisonResponse, XmlDiff};
use crate::tokens::{xml_tokens, TokenView, XmlToken};
use vstd::prelude::*;

verus! {

/// The result of comparing two token streams: the failure of the first
/// stream that fails to flatten, else the comparison of the two documents.
pub open spec fn compare_streams_spec(
    tokens1: Seq<TokenView>,
    tokens2: Seq<TokenView>,
    paths: Seq<Seq<char>>,
    properties: Seq<Seq<char>>,
) -> Result<ComparisonView, AppErrorView> {
    match flatten_spec(tokens1) {
        Err(error) => Err(error),
        Ok(first) => match flatten_spec(tokens2) {
            Err(error) => Err(error),
            Ok(second) => Ok(compare_spec(first, second, paths, properties)),
        },
    }
}

/// The result of comparing two XML texts under the rules.
pub open spec fn compare_xmls_spec(
    xml1: Seq<char>,
    xml2: Seq<char>,
    paths: Seq<Seq<char>>,
    properties: Seq<Seq<char>>,
) -> Result<ComparisonView, AppErrorView> {
    compare_streams_spec(xml_tokens(xml1), xml_tokens(xml2), paths, properties)
}

/// The result of a comparison request.
pub open spec fn compare_request_spec(request: XmlComparisonRequest) -> Result<
    ComparisonView,
    AppErrorView,
> {
    compare_xmls_spec(
        request.xml1@,
        request.xml2@,
        rules_of(request.ignore_paths),
        rules_of(request.ignore_properties),
    )
}

/// Whether an outcome is the expected one: the same result, or the same
/// failure.
pub open spec fn outcome_is(
    outcome: Result<XmlComparisonResponse, AppError>,
    expected: Result<ComparisonView, AppErrorView>,
) -> bool {
    match outcome {
        Ok(response) => expected == Ok::<ComparisonView, AppErrorView>(response@),
        Err(error) => expected == Err::<ComparisonView, AppErrorView>(error@),
    }
}

/// Compares the documents of two token streams that are already at hand.
pub fn compare_token_streams(
    tokens1: &Vec<XmlToken>,
    tokens2: &Vec<XmlToken>,
    ignore_paths: &Option<Vec<String>>,
    ignore_properties: &Option<Vec<String>>,
) -> (outcome: Result<XmlComparisonResponse, AppError>)
    ensures
        outcome_is(
            outcome,
            compare_streams_spec(
                tokens1.deep_view(),
                tokens2.deep_view(),
                rules_of(*ignore_paths),
                rules_of(*ignore_properties),
            ),
        ),
{
    let first = match flatten_tokens(tokens1) {
        Ok(document) => document,
        Err(error) => {
            return Err(error);
        },
    };
    let second = match flatten_tokens(tokens2) {
        Ok(document) => document,
        Err(error) => {
            return Err(error);
        },
    };
    Ok(compare_documents(&first, &second, ignore_paths, ignore_properties))
}

/// The comparison service. It holds no state.
#[derive(Clone, Copy, Debug)]
pub struct XmlComparisonService;

impl XmlComparisonService {
    /// The service.
    pub fn new() -> (service: XmlComparisonService) {
        XmlComparisonService
    }

    /// Compares the two documents of a request under its ignore rules. A
    /// document that fails to parse fails the comparison, the first one
    /// first.
    pub fn compare_xmls(&self, request: &XmlComparisonRequest) -> (outcome: Result<
        XmlComparisonResponse,
        AppError,
    >)
        ensures
            outcome_is(outcome, compare_request_spec(*request)),
    {
        let first = match parse_xml(request.xml1.as_str()) {
            Ok(document) => document,
            Err(error) => {
                return Err(error);
            },
        };
        let second = match parse_xml(request.xml2.as_str()) {
            Ok(document) => document,
            Err(error) => {
                return Err(error);
            },
        };
        Ok(compare_documents(&first, &second, &request.ignore_paths, &request.ignore_properties))
    }

    /// Flattens an XML text into its elements by path.
    pub fn parse_xml(&self, xml_content: &str) -> (outcome: Result<FlatDocument, AppError>)
        ensures
            match outcome {
                Ok(document) => well_formed(document@) && flatten_spec(xml_tokens(xml_content@))
                    == Ok::<Seq<ElementView>, AppErrorView>(document@),
                Err(error) => flatten_spec(xml_tokens(xml_content@)) == Err::<
                    Seq<ElementView>,
                    AppErrorView,
                >(error@),
            },
    {
        parse_xml(xml_content)
    }

    /// The records for two elements held at `path` under the ignore rules.
    pub fn create_element_diffs(
        &self,
        path: &str,
        element1: &XmlElement,
        element2: &XmlElement,
        ignore_paths: &Option<Vec<String>>,
        ignore_properties: &Option<Vec<String>>,
    ) -> (diffs: Vec<XmlDiff>)
        ensures
            diffs.deep_view() == create_element_diffs_spec(
                path@,
                element1@,
                element2@,
                rules_of(*ignore_paths),
                rules_of(*ignore_properties),
            ),
    {
        create_element_diffs(path, element1, element2, ignore_paths, ignore_properties)
    }

    /// Tests one ignore pattern against a structural path.
    pub fn path_matches(&self, actual_path: &str, ignore_pattern: &str) -> (b: bool)
        ensures
            b == path_matches_spec(actual_path@, ignore_pattern@),
    {
        path_matches(actual_path, ignore_pattern)
    }
}

} // verus!
