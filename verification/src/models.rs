//! Requests, results and diff records, with their mathematical views.

use vstd::prelude::*;

verus! {

/// How two documents differ at one place.
#[derive(Debug, Clone, Copy, PartialEq, Eq, Structural)]
pub enum DiffType {
    ElementMissing,
    ElementExtra,
    AttributeDifferent,
    ContentDifferent,
    StructureDifferent,
}

/// One reported difference.
#[derive(Debug)]
pub struct XmlDiff {
    pub path: String,
    pub diff_type: DiffType,
    pub expected: Option<String>,
    pub actual: Option<String>,
    pub message: String,
}

/// The mathematical content of an [`XmlDiff`].
pub struct XmlDiffView {
    pub path: Seq<char>,
    pub diff_type: DiffType,
    pub expected: Option<Seq<char>>,
    pub actual: Option<Seq<char>>,
    pub message: Seq<char>,
}

impl View for XmlDiff {
    type V = XmlDiffView;

    open spec fn view(&self) -> XmlDiffView {
        XmlDiffView {
            path: self.path@,
            diff_type: self.diff_type,
            expected: self.expected.deep_view(),
            actual: self.actual.deep_view(),
            message: self.message@,
        }
    }
}

impl DeepView for XmlDiff {
    type V = XmlDiffView;

    open spec fn deep_view(&self) -> XmlDiffView {
        self@
    }
}

/// A fraction: how many elements matched, out of how many.
#[derive(Debug, Clone, Copy, PartialEq, Eq, Structural)]
pub struct MatchRatio {
    pub numerator: usize,
    pub denominator: usize,
}

/// The mathematical content of a [`MatchRatio`].
pub struct RatioView {
    pub numerator: int,
    pub denominator: int,
}

impl RatioView {
    /// A ratio is a fraction between zero and one.
    pub open spec fn wf(self) -> bool {
        0 < self.denominator && 0 <= self.numerator <= self.denominator
    }

    /// Whether the fraction is one.
    pub open spec fn is_one(self) -> bool {
        self.numerator == self.denominator
    }

    /// `self <= other` as fractions.
    pub open spec fn le(self, other: RatioView) -> bool {
        self.numerator * other.denominator <= other.numerator * self.denominator
    }
}

impl View for MatchRatio {
    type V = RatioView;

    open spec fn view(&self) -> RatioView {
        RatioView { numerator: self.numerator as int, denominator: self.denominator as int }
    }
}

/// The ratio of a comparison with the given counts: the matched elements
/// out of all, and one where there is nothing to compare.
pub open spec fn ratio_of(matched: int, total: int) -> RatioView {
    if total > 0 {
        RatioView { numerator: matched, denominator: total }
    } else {
        RatioView { numerator: 1, denominator: 1 }
    }
}

/// Two documents and the rules under which to compare them.
#[derive(Debug)]
pub struct XmlComparisonRequest {
    pub xml1: String,
    pub xml2: String,
    pub ignore_paths: Option<Vec<String>>,
    pub ignore_properties: Option<Vec<String>>,
}

/// The outcome of one comparison.
#[derive(Debug)]
pub struct XmlComparisonResponse {
    pub matched: bool,
    pub match_ratio: MatchRatio,
    pub diffs: Vec<XmlDiff>,
    pub total_elements: usize,
    pub matched_elements: usize,
}

/// The mathematical content of an [`XmlComparisonResponse`].
pub struct ComparisonView {
    pub matched: bool,
    pub match_ratio: RatioView,
    pub diffs: Seq<XmlDiffView>,
    pub total_elements: int,
    pub matched_elements: int,
}

impl View for XmlComparisonResponse {
    type V = ComparisonView;

    open spec fn view(&self) -> ComparisonView {
        ComparisonView {
            matched: self.matched,
            match_ratio: self.match_ratio@,
            diffs: self.diffs.deep_view(),
            total_elements: self.total_elements as int,
            matched_elements: self.matched_elements as int,
        }
    }
}

impl DeepView for XmlComparisonResponse {
    type V = ComparisonView;

    open spec fn deep_view(&self) -> ComparisonView {
        self@
    }
}

/// What stands in a batch for an item that failed: no match, no diffs, all
/// counts zero.
pub open spec fn placeholder_view() -> ComparisonView {
    ComparisonView {
        matched: false,
        match_ratio: RatioView { numerator: 0, denominator: 1 },
        diffs: Seq::empty(),
        total_elements: 0,
        matched_elements: 0,
    }
}

impl XmlComparisonResponse {
    /// The result that stands for a failed item of a batch.
    pub fn placeholder() -> (r: XmlComparisonResponse)
        ensures
            r@ == placeholder_view(),
    {
        let r = XmlComparisonResponse {
            matched: false,
            match_ratio: MatchRatio { numerator: 0, denominator: 1 },
            diffs: Vec::new(),
            total_elements: 0,
            matched_elements: 0,
        };
        proof {
            assert(r.diffs.deep_view() =~= Seq::empty());
        }
        r
    }
}

/// A user name and password for a document source.
#[derive(Debug)]
pub struct AuthCredentials {
    pub username: String,
    pub password: String,
}

/// Two document addresses and the rules under which to compare what they
/// hold.
#[derive(Debug)]
pub struct UrlComparisonRequest {
    pub url1: String,
    pub url2: String,
    pub ignore_paths: Option<Vec<String>>,
    pub ignore_properties: Option<Vec<String>>,
    pub auth_credentials: Option<AuthCredentials>,
}

/// Many inline comparisons, in the order in which they are to be answered.
#[derive(Debug)]
pub struct BatchXmlComparisonRequest {
    pub comparisons: Vec<XmlComparisonRequest>,
}

/// Many comparisons by address, in the order in which they are to be
/// answered.
#[derive(Debug)]
pub struct BatchUrlComparisonRequest {
    pub comparisons: Vec<UrlComparisonRequest>,
}

/// The results of a batch, one per request and in the requests' order.
#[derive(Debug)]
pub struct BatchComparisonResponse {
    pub results: Vec<XmlComparisonResponse>,
    pub total_comparisons: usize,
    pub successful_comparisons: usize,
    pub failed_comparisons: usize,
}

/// A request to open a session with a document source.
#[derive(Debug)]
pub struct LoginRequest {
    pub url: String,
    pub username: String,
    pub password: String,
}

} // verus!
