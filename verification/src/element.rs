//! Element records and the flattened document that holds them by path.

use vstd::prelude::*;

verus! {

/// The first index at which `key` stands in `keys`, if it stands there.
pub open spec fn first_index(keys: Seq<Seq<char>>, key: Seq<char>) -> Option<int>
    decreases keys.len(),
{
    if keys.len() == 0 {
        None
    } else {
        match first_index(keys.drop_last(), key) {
            Some(i) => Some(i),
            None => if keys.last() == key {
                Some(keys.len() - 1)
            } else {
                None
            },
        }
    }
}

/// [`first_index`] finds the least index that holds the key, and nothing
/// where no index holds it.
pub proof fn lemma_first_index(keys: Seq<Seq<char>>, key: Seq<char>)
    ensures
        match first_index(keys, key) {
            Some(i) => 0 <= i < keys.len() && keys[i] == key && forall|j: int|
                0 <= j < i ==> keys[j] != key,
            None => forall|j: int| 0 <= j < keys.len() ==> keys[j] != key,
        },
    decreases keys.len(),
{
    if keys.len() > 0 {
        let front = keys.drop_last();
        lemma_first_index(front, key);
        assert(forall|j: int| 0 <= j < front.len() ==> front[j] == keys[j]);
        match first_index(front, key) {
            Some(i) => {
                assert(keys[i] == front[i]);
            },
            None => {
                assert forall|j: int| 0 <= j < keys.len() - 1 implies keys[j] != key by {
                    assert(front[j] != key);
                }
            },
        }
    }
}

/// An index that holds the key, with none before it that does, is the one
/// that [`first_index`] finds.
pub proof fn lemma_first_index_is(keys: Seq<Seq<char>>, key: Seq<char>, i: int)
    requires
        0 <= i < keys.len(),
        keys[i] == key,
        forall|j: int| 0 <= j < i ==> keys[j] != key,
    ensures
        first_index(keys, key) == Some(i),
{
    lemma_first_index(keys, key);
}

/// Where no index holds the key, [`first_index`] finds nothing.
pub proof fn lemma_first_index_none(keys: Seq<Seq<char>>, key: Seq<char>)
    requires
        forall|j: int| 0 <= j < keys.len() ==> keys[j] != key,
    ensures
        first_index(keys, key) is None,
{
    lemma_first_index(keys, key);
}

/// One element of a document.
#[derive(Debug)]
pub struct XmlElement {
    pub name: String,
    /// Attribute keys with their values, no key twice.
    pub attributes: Vec<(String, String)>,
    pub content: Option<String>,
    /// The tag names of the element's ancestors and its own, each after a `/`.
    pub path: String,
}

/// The mathematical content of an [`XmlElement`].
pub struct ElementView {
    pub name: Seq<char>,
    pub attributes: Seq<(Seq<char>, Seq<char>)>,
    pub content: Option<Seq<char>>,
    pub path: Seq<char>,
}

impl View for XmlElement {
    type V = ElementView;

    open spec fn view(&self) -> ElementView {
        ElementView {
            name: self.name@,
            attributes: self.attributes.deep_view(),
            content: self.content.deep_view(),
            path: self.path@,
        }
    }
}

impl DeepView for XmlElement {
    type V = ElementView;

    open spec fn deep_view(&self) -> ElementView {
        self@
    }
}

/// The keys of an attribute list, in its order.
pub open spec fn attribute_keys(attributes: Seq<(Seq<char>, Seq<char>)>) -> Seq<Seq<char>> {
    attributes.map_values(|a: (Seq<char>, Seq<char>)| a.0)
}

/// The value that an attribute list gives to `key`, if it holds the key.
pub open spec fn attribute_value(
    attributes: Seq<(Seq<char>, Seq<char>)>,
    key: Seq<char>,
) -> Option<Seq<char>> {
    match first_index(attribute_keys(attributes), key) {
        Some(i) => Some(attributes[i].1),
        None => None,
    }
}

/// The attribute list after `key` is given `value`: a key that is there
/// keeps its place and takes the new value, a new key goes to the end.
pub open spec fn with_attribute(
    attributes: Seq<(Seq<char>, Seq<char>)>,
    key: Seq<char>,
    value: Seq<char>,
) -> Seq<(Seq<char>, Seq<char>)> {
    match first_index(attribute_keys(attributes), key) {
        Some(i) => attributes.update(i, (key, value)),
        None => attributes.push((key, value)),
    }
}

/// The paths of a document's elements, in its order.
pub open spec fn element_paths(elements: Seq<ElementView>) -> Seq<Seq<char>> {
    elements.map_values(|e: ElementView| e.path)
}

/// The element that a document holds at `path`, if it holds one.
pub open spec fn element_at(elements: Seq<ElementView>, path: Seq<char>) -> Option<ElementView> {
    match first_index(element_paths(elements), path) {
        Some(i) => Some(elements[i]),
        None => None,
    }
}

/// The document after `element` is recorded at its path: a record that is
/// there is overwritten in place, a new path goes to the end.
pub open spec fn with_element(elements: Seq<ElementView>, element: ElementView) -> Seq<
    ElementView,
> {
    match first_index(element_paths(elements), element.path) {
        Some(i) => elements.update(i, element),
        None => elements.push(element),
    }
}

/// A document is well formed when no two elements share a path and no
/// element holds an attribute key twice.
pub open spec fn well_formed(elements: Seq<ElementView>) -> bool {
    &&& element_paths(elements).no_duplicates()
    &&& forall|i: int|
        0 <= i < elements.len() ==> attribute_keys(
            (#[trigger] elements[i]).attributes,
        ).no_duplicates()
}

/// The index of `key` in an attribute list.
pub fn find_attribute(attributes: &Vec<(String, String)>, key: &String) -> (found: Option<usize>)
    ensures
        match found {
            Some(i) => i < attributes@.len() && first_index(
                attribute_keys(attributes.deep_view()),
                key@,
            ) == Some(i as int),
            None => first_index(attribute_keys(attributes.deep_view()), key@) is None,
        },
{
    let ghost keys = attribute_keys(attributes.deep_view());
    let mut i: usize = 0;
    while i < attributes.len()
        invariant
            i <= attributes@.len(),
            keys == attribute_keys(attributes.deep_view()),
            keys.len() == attributes@.len(),
            forall|j: int| 0 <= j < i ==> keys[j] != key@,
        decreases attributes@.len() - i,
    {
        assert(keys[i as int] == attributes@[i as int].0@);
        if attributes[i].0 == *key {
            proof {
                lemma_first_index_is(keys, key@, i as int);
            }
            return Some(i);
        }
        i = i + 1;
    }
    proof {
        lemma_first_index_none(keys, key@);
    }
    None
}

/// Gives `key` the value `value` in an attribute list.
pub fn record_attribute(attributes: &mut Vec<(String, String)>, key: String, value: String)
    ensures
        final(attributes).deep_view() == with_attribute(
            old(attributes).deep_view(),
            key@,
            value@,
        ),
{
    match find_attribute(attributes, &key) {
        Some(i) => {
            attributes.set(i, (key, value));
            proof {
                assert(final(attributes).deep_view() =~= old(attributes).deep_view().update(
                    i as int,
                    (key@, value@),
                ));
            }
        },
        None => {
            attributes.push((key, value));
            proof {
                assert(final(attributes).deep_view() =~= old(attributes).deep_view().push(
                    (key@, value@),
                ));
            }
        },
    }
}

/// The document after the element at `path` is given `content`; a document
/// that holds nothing at `path` stays as it is.
pub open spec fn with_content(elements: Seq<ElementView>, path: Seq<char>, content: Seq<char>) -> Seq<
    ElementView,
> {
    match first_index(element_paths(elements), path) {
        Some(i) => elements.update(i, ElementView { content: Some(content), ..elements[i] }),
        None => elements,
    }
}

/// Giving a key a value keeps the keys of an attribute list distinct.
pub proof fn lemma_with_attribute_distinct(
    attributes: Seq<(Seq<char>, Seq<char>)>,
    key: Seq<char>,
    value: Seq<char>,
)
    requires
        attribute_keys(attributes).no_duplicates(),
    ensures
        attribute_keys(with_attribute(attributes, key, value)).no_duplicates(),
{
    let keys = attribute_keys(attributes);
    lemma_first_index(keys, key);
    match first_index(keys, key) {
        Some(i) => {
            assert(attribute_keys(attributes.update(i, (key, value))) =~= keys);
        },
        None => {
            assert(attribute_keys(attributes.push((key, value))) =~= keys.push(key));
        },
    }
}

/// Recording an element whose attribute keys are distinct keeps a document
/// well formed.
pub proof fn lemma_with_element_well_formed(elements: Seq<ElementView>, element: ElementView)
    requires
        well_formed(elements),
        attribute_keys(element.attributes).no_duplicates(),
    ensures
        well_formed(with_element(elements, element)),
{
    let paths = element_paths(elements);
    lemma_first_index(paths, element.path);
    match first_index(paths, element.path) {
        Some(i) => {
            assert(element_paths(elements.update(i, element)) =~= paths);
        },
        None => {
            assert(element_paths(elements.push(element)) =~= paths.push(element.path));
        },
    }
}

/// Giving an element its content keeps a document well formed.
pub proof fn lemma_with_content_well_formed(
    elements: Seq<ElementView>,
    path: Seq<char>,
    content: Seq<char>,
)
    requires
        well_formed(elements),
    ensures
        well_formed(with_content(elements, path, content)),
{
    let paths = element_paths(elements);
    lemma_first_index(paths, path);
    match first_index(paths, path) {
        Some(i) => {
            let changed = ElementView { content: Some(content), ..elements[i] };
            assert(element_paths(elements.update(i, changed)) =~= paths);
        },
        None => {},
    }
}

/// In a well-formed document each element is the one held at its own path.
pub proof fn lemma_element_at_own_path(elements: Seq<ElementView>, i: int)
    requires
        well_formed(elements),
        0 <= i < elements.len(),
    ensures
        element_at(elements, elements[i].path) == Some(elements[i]),
{
    let paths = element_paths(elements);
    lemma_first_index(paths, elements[i].path);
    assert(paths[i] == elements[i].path);
}

/// In an attribute list with distinct keys each key has the value that
/// stands with it.
pub proof fn lemma_attribute_value_own(attributes: Seq<(Seq<char>, Seq<char>)>, i: int)
    requires
        attribute_keys(attributes).no_duplicates(),
        0 <= i < attributes.len(),
    ensures
        attribute_value(attributes, attributes[i].0) == Some(attributes[i].1),
{
    let keys = attribute_keys(attributes);
    lemma_first_index(keys, attributes[i].0);
    assert(keys[i] == attributes[i].0);
}

/// A document flattened to its elements, each held under its path, in the
/// order in which the paths first occurred.
#[derive(Debug)]
pub struct FlatDocument {
    pub elements: Vec<XmlElement>,
}

impl View for FlatDocument {
    type V = Seq<ElementView>;

    open spec fn view(&self) -> Seq<ElementView> {
        self.elements.deep_view()
    }
}

impl FlatDocument {
    /// The document without elements.
    pub fn new() -> (doc: FlatDocument)
        ensures
            doc@ == Seq::<ElementView>::empty(),
    {
        let doc = FlatDocument { elements: Vec::new() };
        proof {
            assert(doc@ =~= Seq::<ElementView>::empty());
        }
        doc
    }

    /// How many elements the document holds.
    pub fn len(&self) -> (n: usize)
        ensures
            n == self@.len(),
    {
        self.elements.len()
    }

    /// The index of the element held at `path`.
    pub fn position(&self, path: &String) -> (found: Option<usize>)
        ensures
            match found {
                Some(i) => i < self@.len() && first_index(element_paths(self@), path@) == Some(
                    i as int,
                ),
                None => first_index(element_paths(self@), path@) is None,
            },
    {
        let ghost paths = element_paths(self@);
        let mut i: usize = 0;
        while i < self.elements.len()
            invariant
                i <= self.elements@.len(),
                paths == element_paths(self@),
                paths.len() == self.elements@.len(),
                forall|j: int| 0 <= j < i ==> paths[j] != path@,
            decreases self.elements@.len() - i,
        {
            assert(paths[i as int] == self.elements@[i as int].path@);
            if self.elements[i].path == *path {
                proof {
                    lemma_first_index_is(paths, path@, i as int);
                }
                return Some(i);
            }
            i = i + 1;
        }
        proof {
            lemma_first_index_none(paths, path@);
        }
        None
    }

    /// Records `element` at its path, in place of what was held there.
    pub fn insert(&mut self, element: XmlElement)
        ensures
            final(self)@ == with_element(old(self)@, element@),
    {
        match self.position(&element.path) {
            Some(i) => {
                self.elements.set(i, element);
                proof {
                    assert(final(self)@ =~= old(self)@.update(i as int, element@));
                }
            },
            None => {
                self.elements.push(element);
                proof {
                    assert(final(self)@ =~= old(self)@.push(element@));
                }
            },
        }
    }

    /// Gives `content` to the element held at `path`, if one is held there.
    pub fn set_content(&mut self, path: &String, content: String)
        ensures
            final(self)@ == with_content(old(self)@, path@, content@),
    {
        match self.position(path) {
            Some(i) => {
                self.elements[i].content = Some(content);
                proof {
                    assert(final(self)@ =~= old(self)@.update(
                        i as int,
                        ElementView { content: Some(content@), ..old(self)@[i as int] },
                    ));
                }
            },
            None => {},
        }
    }
}

} // verus!
