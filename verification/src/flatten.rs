//! The flattener: from a token stream to the elements of a document, each
//! under its structural path.

use crate::element::{
    attribute_keys, lemma_with_attribute_distinct, lemma_with_content_well_formed,
    lemma_with_element_well_formed, record_attribute, well_formed, with_attribute, with_content,
    with_element, ElementView, FlatDocument, XmlElement,
};
use crate::error::{AppError, AppErrorView};
use crate::text::{join3, trim, trimmed};
use crate::tokens::{
    closed_stream, is_terminal, next_token, pending_tokens, trimming_reader, xml_tokens,
    TokenView, XmlToken,
};
use vstd::prelude::*;

verus! {

/// The attribute list that the written attributes of a tag give: each
/// well-formed one is recorded in turn, a later value replacing an earlier
/// one of the same key.
pub open spec fn collect_attributes(raw: Seq<Option<(Seq<char>, Seq<char>)>>) -> Seq<
    (Seq<char>, Seq<char>),
>
    decreases raw.len(),
{
    if raw.len() == 0 {
        Seq::empty()
    } else {
        let before = collect_attributes(raw.drop_last());
        match raw.last() {
            Some(pair) => with_attribute(before, pair.0, pair.1),
            None => before,
        }
    }
}

/// What the flattener holds between two tokens: the elements recorded so
/// far and the paths of the elements that are open, outermost first.
pub struct FlattenView {
    pub elements: Seq<ElementView>,
    pub stack: Seq<Seq<char>>,
}

/// The path of the innermost open element, empty at the root.
pub open spec fn current_path(stack: Seq<Seq<char>>) -> Seq<char> {
    if stack.len() > 0 {
        stack.last()
    } else {
        Seq::empty()
    }
}

/// The state before the first token.
pub open spec fn initial_state() -> FlattenView {
    FlattenView { elements: Seq::empty(), stack: Seq::empty() }
}

/// The state after one token that does not end the stream.
pub open spec fn step(state: FlattenView, token: TokenView) -> FlattenView {
    match token {
        TokenView::Start { name, attributes } => {
            let path = current_path(state.stack) + seq!['/'] + name;
            let element = ElementView {
                name,
                attributes: collect_attributes(attributes),
                content: None,
                path,
            };
            FlattenView {
                elements: with_element(state.elements, element),
                stack: state.stack.push(path),
            }
        },
        TokenView::Text(value) => {
            if state.stack.len() > 0 {
                FlattenView {
                    elements: with_content(state.elements, state.stack.last(), trimmed(value)),
                    stack: state.stack,
                }
            } else {
                state
            }
        },
        TokenView::End => {
            if state.stack.len() > 0 {
                FlattenView { elements: state.elements, stack: state.stack.drop_last() }
            } else {
                state
            }
        },
        _ => state,
    }
}

/// The outcome of flattening `tokens` from `state`: the elements held when
/// the end of the text is met or the tokens run out, or the description of
/// the failure that comes first.
pub open spec fn flatten_from(state: FlattenView, tokens: Seq<TokenView>) -> Result<
    Seq<ElementView>,
    AppErrorView,
>
    decreases tokens.len(),
{
    if tokens.len() == 0 {
        Ok(state.elements)
    } else {
        match tokens[0] {
            TokenView::Eof => Ok(state.elements),
            TokenView::Failed(message) => Err(AppErrorView::XmlParseError(message)),
            token => flatten_from(step(state, token), tokens.skip(1)),
        }
    }
}

/// The flattened document of a token stream.
pub open spec fn flatten_spec(tokens: Seq<TokenView>) -> Result<Seq<ElementView>, AppErrorView> {
    flatten_from(initial_state(), tokens)
}

/// The attributes collected from a tag have distinct keys.
pub proof fn lemma_collect_attributes_distinct(raw: Seq<Option<(Seq<char>, Seq<char>)>>)
    ensures
        attribute_keys(collect_attributes(raw)).no_duplicates(),
    decreases raw.len(),
{
    if raw.len() > 0 {
        lemma_collect_attributes_distinct(raw.drop_last());
        match raw.last() {
            Some(pair) => {
                lemma_with_attribute_distinct(collect_attributes(raw.drop_last()), pair.0, pair.1);
            },
            None => {},
        }
    }
}

/// Every token keeps the recorded elements well formed.
pub proof fn lemma_step_well_formed(state: FlattenView, token: TokenView)
    requires
        well_formed(state.elements),
    ensures
        well_formed(step(state, token).elements),
{
    match token {
        TokenView::Start { name, attributes } => {
            let path = current_path(state.stack) + seq!['/'] + name;
            let element = ElementView {
                name,
                attributes: collect_attributes(attributes),
                content: None,
                path,
            };
            lemma_collect_attributes_distinct(attributes);
            lemma_with_element_well_formed(state.elements, element);
        },
        TokenView::Text(value) => {
            if state.stack.len() > 0 {
                lemma_with_content_well_formed(state.elements, state.stack.last(), trimmed(value));
            }
        },
        _ => {},
    }
}

/// Flattening from a well-formed state gives a well-formed document.
pub proof fn lemma_flatten_from_well_formed(state: FlattenView, tokens: Seq<TokenView>)
    requires
        well_formed(state.elements),
    ensures
        match flatten_from(state, tokens) {
            Ok(elements) => well_formed(elements),
            Err(_) => true,
        },
    decreases tokens.len(),
{
    if tokens.len() > 0 {
        match tokens[0] {
            TokenView::Eof => {},
            TokenView::Failed(_) => {},
            token => {
                lemma_step_well_formed(state, token);
                lemma_flatten_from_well_formed(step(state, token), tokens.skip(1));
            },
        }
    }
}

/// Every flattened document is well formed: no two of its elements share a
/// path, and none holds an attribute key twice.
pub proof fn lemma_flatten_well_formed(tokens: Seq<TokenView>)
    ensures
        match flatten_spec(tokens) {
            Ok(elements) => well_formed(elements),
            Err(_) => true,
        },
{
    assert(crate::element::element_paths(Seq::<ElementView>::empty()) =~= Seq::empty());
    lemma_flatten_from_well_formed(initial_state(), tokens);
}

/// Records the well-formed attributes of a tag, in written order.
pub fn gather_attributes(raw: &Vec<Option<(String, String)>>) -> (attributes: Vec<
    (String, String),
>)
    ensures
        attributes.deep_view() == collect_attributes(raw.deep_view()),
{
    let mut attributes: Vec<(String, String)> = Vec::new();
    let mut i: usize = 0;
    proof {
        assert(raw.deep_view().take(0) =~= Seq::empty());
        assert(attributes.deep_view() =~= Seq::empty());
    }
    while i < raw.len()
        invariant
            i <= raw@.len(),
            raw.deep_view().len() == raw@.len(),
            attributes.deep_view() == collect_attributes(raw.deep_view().take(i as int)),
        decreases raw@.len() - i,
    {
        proof {
            let next = raw.deep_view().take(i + 1);
            assert(next.drop_last() =~= raw.deep_view().take(i as int));
            assert(next.last() == raw.deep_view()[i as int]);
            assert(raw.deep_view()[i as int] == raw@[i as int].deep_view());
        }
        match &raw[i] {
            Some(pair) => {
                record_attribute(&mut attributes, pair.0.clone(), pair.1.clone());
            },
            None => {},
        }
        i = i + 1;
    }
    proof {
        assert(raw.deep_view().take(raw@.len() as int) =~= raw.deep_view());
    }
    attributes
}

/// The flattener between two tokens.
#[derive(Debug)]
pub struct Flattener {
    pub document: FlatDocument,
    pub stack: Vec<String>,
}

impl View for Flattener {
    type V = FlattenView;

    open spec fn view(&self) -> FlattenView {
        FlattenView { elements: self.document@, stack: self.stack.deep_view() }
    }
}

impl Flattener {
    /// The flattener before the first token.
    pub fn new() -> (state: Flattener)
        ensures
            state@ == initial_state(),
    {
        let state = Flattener { document: FlatDocument::new(), stack: Vec::new() };
        proof {
            assert(state.stack.deep_view() =~= Seq::empty());
        }
        state
    }

    /// Takes one token in: an opening tag records an element and opens it,
    /// text becomes the content of the innermost open element, a closing tag
    /// closes that element; nothing else changes the state.
    pub fn apply(&mut self, token: &XmlToken)
        ensures
            final(self)@ == step(old(self)@, token@),
    {
        match token {
            XmlToken::Start { name, attributes } => {
                let depth: usize = self.stack.len();
                let path = if depth > 0 {
                    assert(self.stack.deep_view().last() == self.stack@[depth - 1]@);
                    join3(self.stack[depth - 1].as_str(), "/", name.as_str())
                } else {
                    join3("", "/", name.as_str())
                };
                proof {
                    reveal_strlit("/");
                    reveal_strlit("");
                    assert("/"@ =~= seq!['/']);
                    assert(""@ =~= Seq::<char>::empty());
                    assert(path@ =~= current_path(old(self)@.stack) + seq!['/'] + name@);
                }
                let element = XmlElement {
                    name: name.clone(),
                    attributes: gather_attributes(attributes),
                    content: None,
                    path: path.clone(),
                };
                self.document.insert(element);
                self.stack.push(path);
                proof {
                    assert(final(self).stack.deep_view() =~= old(self).stack.deep_view().push(
                        path@,
                    ));
                }
            },
            XmlToken::Text(value) => {
                let depth: usize = self.stack.len();
                if depth > 0 {
                    assert(self.stack.deep_view().last() == self.stack@[depth - 1]@);
                    let content = String::from_str(trim(value.as_str()));
                    let top = self.stack[depth - 1].clone();
                    self.document.set_content(&top, content);
                }
            },
            XmlToken::End => {
                if self.stack.len() > 0 {
                    self.stack.pop();
                    proof {
                        assert(final(self).stack.deep_view() =~= old(
                            self,
                        ).stack.deep_view().drop_last());
                    }
                }
            },
            _ => {},
        }
    }
}

/// Flattens a token stream that is already at hand.
pub fn flatten_tokens(tokens: &Vec<XmlToken>) -> (outcome: Result<FlatDocument, AppError>)
    ensures
        match outcome {
            Ok(document) => well_formed(document@) && flatten_spec(tokens.deep_view()) == Ok::<
                Seq<ElementView>,
                AppErrorView,
            >(document@),
            Err(error) => flatten_spec(tokens.deep_view()) == Err::<
                Seq<ElementView>,
                AppErrorView,
            >(error@),
        },
{
    let mut state = Flattener::new();
    let mut i: usize = 0;
    proof {
        assert(tokens.deep_view().skip(0) =~= tokens.deep_view());
        lemma_flatten_well_formed(tokens.deep_view());
    }
    while i < tokens.len()
        invariant
            i <= tokens@.len(),
            tokens.deep_view().len() == tokens@.len(),
            flatten_from(state@, tokens.deep_view().skip(i as int)) == flatten_spec(
                tokens.deep_view(),
            ),
            flatten_spec(tokens.deep_view()) is Ok ==> well_formed(
                flatten_spec(tokens.deep_view())->Ok_0,
            ),
        decreases tokens@.len() - i,
    {
        proof {
            let rest = tokens.deep_view().skip(i as int);
            assert(rest[0] == tokens@[i as int]@);
            assert(rest.skip(1) =~= tokens.deep_view().skip(i + 1));
        }
        match &tokens[i] {
            XmlToken::Eof => {
                return Ok(state.document);
            },
            XmlToken::Failed(message) => {
                return Err(AppError::XmlParseError(message.clone()));
            },
            token => {
                state.apply(token);
            },
        }
        i = i + 1;
    }
    Ok(state.document)
}

/// Flattens an XML text: tokenizes it and records each element under its
/// path.
pub fn parse_xml(xml_content: &str) -> (outcome: Result<FlatDocument, AppError>)
    ensures
        match outcome {
            Ok(document) => well_formed(document@) && flatten_spec(xml_tokens(xml_content@))
                == Ok::<Seq<ElementView>, AppErrorView>(document@),
            Err(error) => flatten_spec(xml_tokens(xml_content@)) == Err::<
                Seq<ElementView>,
                AppErrorView,
            >(error@),
        },
{
    let mut reader = trimming_reader(xml_content);
    let mut state = Flattener::new();
    proof {
        lemma_flatten_well_formed(xml_tokens(xml_content@));
    }
    loop
        invariant
            closed_stream(pending_tokens(reader)),
            flatten_from(state@, pending_tokens(reader)) == flatten_spec(xml_tokens(xml_content@)),
            flatten_spec(xml_tokens(xml_content@)) is Ok ==> well_formed(
                flatten_spec(xml_tokens(xml_content@))->Ok_0,
            ),
        decreases pending_tokens(reader).len(),
    {
        let ghost pending = pending_tokens(reader);
        let token = next_token(&mut reader);
        match token {
            XmlToken::Eof => {
                return Ok(state.document);
            },
            XmlToken::Failed(message) => {
                return Err(AppError::XmlParseError(message));
            },
            other => {
                state.apply(&other);
                proof {
                    assert(!is_terminal(pending[0]));
                    assert(pending.len() > 1);
                    let rest = pending.skip(1);
                    assert(rest.last() == pending.last());
                    assert forall|j: int| 0 <= j < rest.len() - 1 implies !is_terminal(
                        #[trigger] rest[j],
                    ) by {
                        assert(rest[j] == pending[j + 1]);
                    }
                }
            },
        }
    }
}

} // verus!
