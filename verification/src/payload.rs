//! Generated XML documents of a given shape, for load and timing runs.

use crate::text::{chars_of, decimal, decimal_spec, same_text_chars};
use vstd::prelude::*;

verus! {

/// The text added to a value that is to differ.
pub open spec fn change_mark(changed: bool) -> Seq<char> {
    if changed {
        "_CHANGED"@
    } else {
        Seq::empty()
    }
}

/// A document nested `depth` levels deep. The element at level `k` is
/// named `level` and `k`, with the attributes `id`, made of `prefix` and
/// `k`, and `value`, the seed of that level; seeds rise by one with each
/// level inwards. The innermost content is `prefix`, `_` and the seed left.
/// With `alter_attr` the `value` of level 1, with `alter_content` the
/// content, is marked as changed.
pub open spec fn nested_xml(
    depth: nat,
    seed: nat,
    prefix: Seq<char>,
    alter_attr: bool,
    alter_content: bool,
) -> Seq<char>
    decreases depth,
{
    if depth == 0 {
        prefix + "_"@ + decimal_spec(seed) + change_mark(alter_content)
    } else {
        "<level"@ + decimal_spec(depth) + " id=\""@ + prefix + "_"@ + decimal_spec(depth)
            + "\" value=\""@ + decimal_spec(seed) + change_mark(alter_attr && depth == 1)
            + "\">"@ + nested_xml((depth - 1) as nat, seed + 1, prefix, alter_attr, alter_content)
            + "</level"@ + decimal_spec(depth) + ">"@
    }
}

/// Writes a nested document, with one attribute value or the content
/// changed if asked.
pub fn generate_xml_recursive(
    depth: u8,
    seed: u32,
    prefix: &str,
    alter_attr: bool,
    alter_content: bool,
) -> (out: String)
    requires
        seed + depth <= u32::MAX,
    ensures
        out@ == nested_xml(depth as nat, seed as nat, prefix@, alter_attr, alter_content),
    decreases depth,
{
    if depth == 0 {
        let mut out = String::from_str(prefix);
        out.append("_");
        out.append(decimal(seed as u64).as_str());
        if alter_content {
            out.append("_CHANGED");
        }
        proof {
            assert(out@ =~= nested_xml(0, seed as nat, prefix@, alter_attr, alter_content));
        }
        return out;
    }
    let level = decimal(depth as u64);
    let inner = generate_xml_recursive(depth - 1, seed + 1, prefix, alter_attr, alter_content);
    let mut out = String::from_str("<level");
    out.append(level.as_str());
    out.append(" id=\"");
    out.append(prefix);
    out.append("_");
    out.append(level.as_str());
    out.append("\" value=\"");
    out.append(decimal(seed as u64).as_str());
    if alter_attr && depth == 1 {
        out.append("_CHANGED");
    }
    out.append("\">");
    out.append(inner.as_str());
    out.append("</level");
    out.append(level.as_str());
    out.append(">");
    proof {
        assert(out@ =~= nested_xml(depth as nat, seed as nat, prefix@, alter_attr, alter_content));
    }
    out
}

/// Writes a nested document.
pub fn generate_xml(depth: u8, seed: u32, prefix: &str) -> (out: String)
    requires
        seed + depth <= u32::MAX,
    ensures
        out@ == nested_xml(depth as nat, seed as nat, prefix@, false, false),
{
    generate_xml_recursive(depth, seed, prefix, false, false)
}

/// Writes a nested document whose innermost `value` is marked as changed.
pub fn generate_xml_with_different_attr(depth: u8, seed: u32, prefix: &str) -> (out: String)
    requires
        seed + depth <= u32::MAX,
    ensures
        out@ == nested_xml(depth as nat, seed as nat, prefix@, true, false),
{
    generate_xml_recursive(depth, seed, prefix, true, false)
}

/// Writes a nested document whose content is marked as changed.
pub fn generate_xml_with_different_content(depth: u8, seed: u32, prefix: &str) -> (out: String)
    requires
        seed + depth <= u32::MAX,
    ensures
        out@ == nested_xml(depth as nat, seed as nat, prefix@, false, true),
{
    generate_xml_recursive(depth, seed, prefix, false, true)
}

/// Whether two texts are the same, character for character.
pub fn simple_xml_compare(xml1: &str, xml2: &str) -> (same: bool)
    ensures
        same == (xml1@ == xml2@),
{
    same_text_chars(xml1, xml2)
}

/// One item of a wide document: the element `item` and `i`, with the
/// attributes `id`, `value` (seven times `i`) and `type`, on a line of its
/// own.
pub open spec fn wide_item(i: nat, prefix: Seq<char>) -> Seq<char> {
    "  <item"@ + decimal_spec(i) + " id=\""@ + prefix + decimal_spec(i) + "\" value=\""@
        + decimal_spec(i * 7) + "\" type=\"test\">"@ + prefix + "_content_"@ + decimal_spec(i)
        + "</item"@ + decimal_spec(i) + ">\n"@
}

/// The first `count` items of a wide document.
pub open spec fn wide_items(count: nat, prefix: Seq<char>) -> Seq<char>
    decreases count,
{
    if count == 0 {
        Seq::empty()
    } else {
        wide_items((count - 1) as nat, prefix) + wide_item((count - 1) as nat, prefix)
    }
}

/// A wide document: a root with `count` items below it.
pub open spec fn wide_xml(count: nat, prefix: Seq<char>) -> Seq<char> {
    "<root id=\""@ + prefix + "\">\n"@ + wide_items(count, prefix) + "</root>"@
}

/// Writes a wide document of `element_count` items.
pub fn generate_large_xml(element_count: usize, prefix: &str) -> (xml: String)
    requires
        element_count * 7 <= usize::MAX,
    ensures
        xml@ == wide_xml(element_count as nat, prefix@),
{
    let mut xml = String::from_str("<root id=\"");
    xml.append(prefix);
    xml.append("\">\n");
    let ghost head = xml@;
    let mut i: usize = 0;
    proof {
        assert(head + wide_items(0, prefix@) =~= head);
    }
    while i < element_count
        invariant
            i <= element_count,
            element_count * 7 <= usize::MAX,
            head == "<root id=\""@ + prefix@ + "\">\n"@,
            xml@ == head + wide_items(i as nat, prefix@),
        decreases element_count - i,
    {
        let number = decimal(i as u64);
        let ghost before = xml@;
        xml.append("  <item");
        xml.append(number.as_str());
        xml.append(" id=\"");
        xml.append(prefix);
        xml.append(number.as_str());
        xml.append("\" value=\"");
        xml.append(decimal((i * 7) as u64).as_str());
        xml.append("\" type=\"test\">");
        xml.append(prefix);
        xml.append("_content_");
        xml.append(number.as_str());
        xml.append("</item");
        xml.append(number.as_str());
        xml.append(">\n");
        proof {
            assert(xml@ =~= before + wide_item(i as nat, prefix@));
            assert(head + wide_items(i as nat, prefix@) + wide_item(i as nat, prefix@) =~= head
                + wide_items((i + 1) as nat, prefix@));
        }
        i = i + 1;
    }
    xml.append("</root>");
    xml
}

/// So many spaces.
pub open spec fn spaces(count: nat) -> Seq<char> {
    Seq::new(count, |i: int| ' ')
}

/// The opening tag of one level of an indented document of `levels`
/// levels: the outermost level has the seed as its `value`, each level
/// inwards one more.
pub open spec fn level_open(levels: nat, level: nat, seed: nat, prefix: Seq<char>) -> Seq<char> {
    "<level"@ + decimal_spec(level) + " id=\""@ + prefix + "_"@ + decimal_spec(level)
        + "\" value=\""@ + decimal_spec((seed + levels - level) as nat) + "\">"@
}

/// How far the closing tag of a level is indented: the outermost by 8, the
/// others as their opening tags.
pub open spec fn closing_indent(levels: nat, level: nat) -> nat {
    if level >= levels {
        8
    } else {
        (12 + 4 * (levels - 1 - level)) as nat
    }
}

/// The levels from `level` inwards of an indented document of `levels`
/// levels: each level but the innermost holds the next on a line of its
/// own, indented by 12 and 4 more with each level, and closes on a further
/// line; the innermost holds `prefix` and `_content`.
pub open spec fn indented_xml(levels: nat, level: nat, seed: nat, prefix: Seq<char>) -> Seq<char>
    decreases level,
{
    if level <= 1 {
        level_open(levels, 1, seed, prefix) + prefix + "_content</level1>"@
    } else {
        level_open(levels, level, seed, prefix) + "\n"@ + spaces(
            (12 + 4 * (levels - level)) as nat,
        ) + indented_xml(levels, (level - 1) as nat, seed, prefix) + "\n"@ + spaces(
            closing_indent(levels, level),
        ) + "</level"@ + decimal_spec(level) + ">"@
    }
}

/// Adds so many spaces to a text.
pub fn push_spaces(out: &mut String, count: usize)
    ensures
        final(out)@ == old(out)@ + spaces(count as nat),
{
    let mut i: usize = 0;
    proof {
        reveal_strlit(" ");
        assert(old(out)@ + spaces(0) =~= old(out)@);
    }
    while i < count
        invariant
            i <= count,
            out@ == old(out)@ + spaces(i as nat),
        decreases count - i,
    {
        out.append(" ");
        proof {
            reveal_strlit(" ");
            assert(out@ =~= old(out)@ + spaces((i + 1) as nat));
        }
        i = i + 1;
    }
}

/// Writes the levels from `level` inwards of an indented document.
pub fn generate_xml_levels(levels: u8, level: u8, seed: u32, prefix: &str) -> (out: String)
    requires
        1 <= level <= levels,
        seed + levels - 1 <= u32::MAX,
    ensures
        out@ == indented_xml(levels as nat, level as nat, seed as nat, prefix@),
    decreases level,
{
    let number = decimal(level as u64);
    let mut out = String::from_str("<level");
    out.append(number.as_str());
    out.append(" id=\"");
    out.append(prefix);
    out.append("_");
    out.append(number.as_str());
    out.append("\" value=\"");
    out.append(decimal((seed + (levels - level) as u32) as u64).as_str());
    out.append("\">");
    proof {
        assert(out@ =~= level_open(levels as nat, level as nat, seed as nat, prefix@));
    }
    if level == 1 {
        out.append(prefix);
        out.append("_content</level1>");
        return out;
    }
    let inner = generate_xml_levels(levels, level - 1, seed, prefix);
    out.append("\n");
    push_spaces(&mut out, 12 + 4 * (levels - level) as usize);
    out.append(inner.as_str());
    out.append("\n");
    let indent: usize = if level == levels {
        8
    } else {
        12 + 4 * (levels - 1 - level) as usize
    };
    push_spaces(&mut out, indent);
    out.append("</level");
    out.append(number.as_str());
    out.append(">");
    out
}

/// Writes an indented document of two levels.
pub fn generate_xml_depth_2(seed: u32, prefix: &str) -> (out: String)
    requires
        seed + 1 <= u32::MAX,
    ensures
        out@ == indented_xml(2, 2, seed as nat, prefix@),
{
    generate_xml_levels(2, 2, seed, prefix)
}

/// Writes an indented document of three levels.
pub fn generate_xml_depth_3(seed: u32, prefix: &str) -> (out: String)
    requires
        seed + 2 <= u32::MAX,
    ensures
        out@ == indented_xml(3, 3, seed as nat, prefix@),
{
    generate_xml_levels(3, 3, seed, prefix)
}

/// Writes an indented document of five levels.
pub fn generate_xml_depth_5(seed: u32, prefix: &str) -> (out: String)
    requires
        seed + 4 <= u32::MAX,
    ensures
        out@ == indented_xml(5, 5, seed as nat, prefix@),
{
    generate_xml_levels(5, 5, seed, prefix)
}

/// The first index at or after `from` at which `c` stands in `s`.
pub open spec fn find_char(s: Seq<char>, c: char, from: int) -> Option<int>
    decreases s.len() - from,
{
    if from < 0 || from >= s.len() {
        None
    } else if s[from] == c {
        Some(from)
    } else {
        find_char(s, c, from + 1)
    }
}

/// The name of the tag that opens first on a line: what stands between
/// the first `<` and the first space after it, or, where no space follows,
/// the first `>` after it.
pub open spec fn extract_tag_name_spec(line: Seq<char>) -> Option<Seq<char>> {
    match find_char(line, '<', 0) {
        None => None,
        Some(start) => match find_char(line, ' ', start + 1) {
            Some(end) => Some(line.subrange(start + 1, end)),
            None => match find_char(line, '>', start + 1) {
                Some(end) => Some(line.subrange(start + 1, end)),
                None => None,
            },
        },
    }
}

/// The first index at or after `from` at which `c` stands.
pub fn position_of(chars: &Vec<char>, c: char, from: usize) -> (found: Option<usize>)
    ensures
        match found {
            Some(i) => from <= i < chars@.len() && find_char(chars@, c, from as int) == Some(
                i as int,
            ),
            None => find_char(chars@, c, from as int) is None,
        },
{
    let mut i: usize = from;
    while i < chars.len()
        invariant
            from <= i,
            find_char(chars@, c, from as int) == find_char(chars@, c, i as int),
        decreases chars@.len() - i,
    {
        if chars[i] == c {
            return Some(i);
        }
        i = i + 1;
    }
    None
}

/// The name of the tag that opens first on a line.
pub fn extract_tag_name(tag_line: &str) -> (name: Option<String>)
    ensures
        name.deep_view() == extract_tag_name_spec(tag_line@),
{
    let chars = chars_of(tag_line);
    let start = match position_of(&chars, '<', 0) {
        Some(start) => start,
        None => {
            return None;
        },
    };
    let end = match position_of(&chars, ' ', start + 1) {
        Some(end) => end,
        None => match position_of(&chars, '>', start + 1) {
            Some(end) => end,
            None => {
                return None;
            },
        },
    };
    Some(String::from_str(tag_line.substring_char(start + 1, end)))
}

} // verus!
