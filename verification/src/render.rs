//! The one-line rendering of an element that diff records carry.

use crate::element::{ElementView, XmlElement};
use vstd::prelude::*;

verus! {

/// `text` as std's `Debug` writes a string: between double quotes, with
/// the characters that need it escaped.
pub uninterp spec fn quoted(text: Seq<char>) -> Seq<char>;

/// `format!("{:?}", text)`, which is std's `Debug` for `str`. Not proved:
/// that the result depends on the characters of `text` alone, which is what
/// naming it [`quoted`] claims.
#[verifier::external_body]
pub(crate) fn debug_quoted(text: &str) -> (out: String)
    ensures
        out@ == quoted(text@),
{
    format!("{:?}", text)
}

/// The entries of an attribute list, each as `key: value`, with `, `
/// between them.
pub open spec fn join_entries(entries: Seq<(Seq<char>, Seq<char>)>) -> Seq<char>
    decreases entries.len(),
{
    if entries.len() == 0 {
        Seq::empty()
    } else {
        let separator = if entries.len() > 1 {
            ", "@
        } else {
            Seq::empty()
        };
        join_entries(entries.drop_last()) + separator + entries.last().0 + ": "@
            + entries.last().1
    }
}

/// The content of an element as an optional value is written.
pub open spec fn optional_text(content: Option<Seq<char>>) -> Seq<char> {
    match content {
        Some(text) => "Some("@ + text + ")"@,
        None => "None"@,
    }
}

/// The rendering of an element whose texts are already written out: `name`
/// and `path`, the keys and values of `attributes` and the text of
/// `content` are taken as they stand.
pub open spec fn assemble_spec(parts: ElementView) -> Seq<char> {
    "XmlElement { name: "@ + parts.name + ", attributes: {"@ + join_entries(parts.attributes)
        + "}, content: "@ + optional_text(parts.content) + ", path: "@ + parts.path + " }"@
}

/// Each key and value of an attribute list, quoted.
pub open spec fn quoted_entries(attributes: Seq<(Seq<char>, Seq<char>)>) -> Seq<
    (Seq<char>, Seq<char>),
> {
    attributes.map_values(|a: (Seq<char>, Seq<char>)| (quoted(a.0), quoted(a.1)))
}

/// The element with each of its texts quoted.
pub open spec fn quoted_parts(element: ElementView) -> ElementView {
    ElementView {
        name: quoted(element.name),
        attributes: quoted_entries(element.attributes),
        content: match element.content {
            Some(text) => Some(quoted(text)),
            None => None,
        },
        path: quoted(element.path),
    }
}

/// The rendering of an element: its fields by name, each text quoted.
pub open spec fn render_spec(element: ElementView) -> Seq<char> {
    assemble_spec(quoted_parts(element))
}

/// Writes out an element whose texts are already written out.
pub fn assemble(parts: &XmlElement) -> (out: String)
    ensures
        out@ == assemble_spec(parts@),
{
    let mut entries = String::new();
    let mut i: usize = 0;
    let ghost all = parts@.attributes;
    proof {
        assert(all.take(0) =~= Seq::empty());
    }
    while i < parts.attributes.len()
        invariant
            i <= parts.attributes@.len(),
            all == parts@.attributes,
            all.len() == parts.attributes@.len(),
            entries@ == join_entries(all.take(i as int)),
        decreases parts.attributes@.len() - i,
    {
        proof {
            let next = all.take(i + 1);
            assert(next.drop_last() =~= all.take(i as int));
            assert(next.last() == all[i as int]);
            assert(all[i as int] == (parts.attributes@[i as int].0@, parts.attributes@[i as int].1@));
            assert(entries@ + Seq::<char>::empty() =~= entries@);
        }
        if i > 0 {
            entries.append(", ");
        }
        entries.append(parts.attributes[i].0.as_str());
        entries.append(": ");
        entries.append(parts.attributes[i].1.as_str());
        i = i + 1;
    }
    proof {
        assert(all.take(all.len() as int) =~= all);
    }
    let mut out = String::from_str("XmlElement { name: ");
    out.append(parts.name.as_str());
    out.append(", attributes: {");
    out.append(entries.as_str());
    out.append("}, content: ");
    match &parts.content {
        Some(text) => {
            out.append("Some(");
            out.append(text.as_str());
            out.append(")");
            proof {
                assert("}, content: "@ + "Some("@ + text@ + ")"@ =~= "}, content: "@ + ("Some("@
                    + text@ + ")"@));
            }
        },
        None => {
            out.append("None");
        },
    }
    out.append(", path: ");
    out.append(parts.path.as_str());
    out.append(" }");
    proof {
        assert(out@ =~= assemble_spec(parts@));
    }
    out
}

/// The element with each of its texts quoted.
pub fn quote_parts(element: &XmlElement) -> (parts: XmlElement)
    ensures
        parts@ == quoted_parts(element@),
{
    let mut attributes: Vec<(String, String)> = Vec::new();
    let mut i: usize = 0;
    while i < element.attributes.len()
        invariant
            i <= element.attributes@.len(),
            attributes@.len() == i,
            forall|j: int|
                0 <= j < i ==> (#[trigger] attributes@[j]).0@ == quoted(
                    element.attributes@[j].0@,
                ) && attributes@[j].1@ == quoted(element.attributes@[j].1@),
        decreases element.attributes@.len() - i,
    {
        let key = debug_quoted(element.attributes[i].0.as_str());
        let value = debug_quoted(element.attributes[i].1.as_str());
        attributes.push((key, value));
        i = i + 1;
    }
    let content = match &element.content {
        Some(text) => Some(debug_quoted(text.as_str())),
        None => None,
    };
    let parts = XmlElement {
        name: debug_quoted(element.name.as_str()),
        attributes,
        content,
        path: debug_quoted(element.path.as_str()),
    };
    proof {
        assert(parts@.attributes =~= quoted_entries(element@.attributes));
    }
    parts
}

/// Renders an element on one line.
pub fn render_element(element: &XmlElement) -> (out: String)
    ensures
        out@ == render_spec(element@),
{
    let parts = quote_parts(element);
    assemble(&parts)
}

} // verus!
