//! Pieces of emitted text: string literals, paths and attributes.

use crate::syntax::{attrs_view, texts_view, Attribute, AttributeView};
use vstd::prelude::*;

verus! {

/// What one character becomes inside a string literal.
pub open spec fn escaped_char(c: char) -> Seq<char> {
    if c == '\\' {
        seq!['\\', '\\']
    } else if c == '"' {
        seq!['\\', '"']
    } else if c == '\n' {
        seq!['\\', 'n']
    } else if c == '\r' {
        seq!['\\', 'r']
    } else if c == '\t' {
        seq!['\\', 't']
    } else {
        seq![c]
    }
}

/// The characters of `s`, each as it stands inside a string literal.
pub open spec fn escaped(s: Seq<char>) -> Seq<char>
    decreases s.len(),
{
    if s.len() == 0 {
        Seq::empty()
    } else {
        escaped(s.drop_last()) + escaped_char(s.last())
    }
}

/// What the character behind a backslash stands for inside a string literal.
pub open spec fn unescaped_char(c: char) -> char {
    if c == 'n' {
        '\n'
    } else if c == 'r' {
        '\r'
    } else if c == 't' {
        '\t'
    } else {
        c
    }
}

/// The characters that the inside of a string literal stands for: a
/// backslash and the character behind it stand for one character, every
/// other character for itself.
pub open spec fn unescaped(text: Seq<char>) -> Seq<char>
    decreases text.len(),
{
    if text.len() == 0 {
        Seq::empty()
    } else if text[0] == '\\' && text.len() >= 2 {
        seq![unescaped_char(text[1])] + unescaped(text.skip(2))
    } else {
        seq![text[0]] + unescaped(text.skip(1))
    }
}

/// Escaping works character by character, from the front as from the back.
proof fn escaped_from_front(c: char, s: Seq<char>)
    ensures
        escaped(seq![c] + s) == escaped_char(c) + escaped(s),
    decreases s.len(),
{
    let all = seq![c] + s;
    if s.len() == 0 {
        assert(all.drop_last() =~= Seq::<char>::empty());
        assert(escaped(all.drop_last()) =~= Seq::<char>::empty());
        assert(escaped(all) =~= escaped_char(c));
        assert(escaped_char(c) + escaped(s) =~= escaped_char(c));
    } else {
        escaped_from_front(c, s.drop_last());
        assert(all.drop_last() =~= seq![c] + s.drop_last());
        assert(all.last() == s.last());
        assert(escaped(all) =~= escaped_char(c) + escaped(s));
    }
}

/// Reading an escaped character back gives the character.
proof fn unescaped_behind_char(c: char, rest: Seq<char>)
    ensures
        unescaped(escaped_char(c) + rest) == seq![c] + unescaped(rest),
{
    let text = escaped_char(c) + rest;
    if c == '\\' || c == '"' || c == '\n' || c == '\r' || c == '\t' {
        assert(text[0] == '\\');
        assert(text.skip(2) =~= rest);
    } else {
        assert(text[0] == c);
        assert(text.skip(1) =~= rest);
    }
}

/// A string literal stands for the string that it was written from: what is
/// emitted between the quotes reads back as the same characters.
pub proof fn escaped_reads_back(s: Seq<char>)
    ensures
        unescaped(escaped(s)) == s,
    decreases s.len(),
{
    if s.len() > 0 {
        let rest = s.drop_first();
        assert(s =~= seq![s[0]] + rest);
        escaped_from_front(s[0], rest);
        unescaped_behind_char(s[0], escaped(rest));
        escaped_reads_back(rest);
    }
}

/// Appends one character to a string.
///
/// Trusted: `String::push` of the standard library, which appends the given
/// character to the end of the string.
#[verifier::external_body]
fn push_char(out: &mut String, c: char)
    ensures
        final(out)@ == old(out)@.push(c),
{
    out.push(c)
}

/// Appends to `out` the characters of `s`, each as it stands inside a string
/// literal.
pub fn push_escaped(out: &mut String, s: &str)
    ensures
        final(out)@ == old(out)@ + escaped(s@),
{
    let ghost before = out@;
    for c in it: s.chars()
        invariant
            it.seq() == s@,
            out@ == before + escaped(s@.take(it.index())),
    {
        proof {
            let next = s@.take(it.index() + 1);
            assert(next.drop_last() == s@.take(it.index()));
            assert(next.last() == c);
        }
        if c == '\\' {
            push_char(out, '\\');
            push_char(out, '\\');
        } else if c == '"' {
            push_char(out, '\\');
            push_char(out, '"');
        } else if c == '\n' {
            push_char(out, '\\');
            push_char(out, 'n');
        } else if c == '\r' {
            push_char(out, '\\');
            push_char(out, 'r');
        } else if c == '\t' {
            push_char(out, '\\');
            push_char(out, 't');
        } else {
            push_char(out, c);
        }
    }
    proof {
        assert(s@.take(s@.len() as int) == s@);
    }
}

/// `s` as a string literal: between double quotes, with what a literal
/// cannot hold as it stands written as an escape.
pub open spec fn string_literal(s: Seq<char>) -> Seq<char> {
    seq!['"'] + escaped(s) + seq!['"']
}

/// Appends `s` to `out` as a string literal.
pub fn push_string_literal(out: &mut String, s: &str)
    ensures
        final(out)@ == old(out)@ + string_literal(s@),
{
    push_char(out, '"');
    push_escaped(out, s);
    push_char(out, '"');
}

/// A text with a blank behind it, or nothing where the text is empty.
pub open spec fn blank_behind(text: Seq<char>) -> Seq<char> {
    if text.len() == 0 {
        text
    } else {
        text + " "@
    }
}

/// A text with a blank before it, or nothing where the text is empty.
pub open spec fn blank_before(text: Seq<char>) -> Seq<char> {
    if text.len() == 0 {
        text
    } else {
        " "@ + text
    }
}

/// Appends a text and a blank behind it, or nothing where the text is empty.
pub fn push_blank_behind(out: &mut String, text: &str)
    ensures
        final(out)@ == old(out)@ + blank_behind(text@),
{
    if !text.is_empty() {
        out.append(text);
        out.append(" ");
    }
}

/// Appends a blank and a text behind it, or nothing where the text is empty.
pub fn push_blank_before(out: &mut String, text: &str)
    ensures
        final(out)@ == old(out)@ + blank_before(text@),
{
    if !text.is_empty() {
        out.append(" ");
        out.append(text);
    }
}

/// The segments of a path, with `::` between them.
pub open spec fn path_text(path: Seq<Seq<char>>) -> Seq<char>
    decreases path.len(),
{
    if path.len() == 0 {
        Seq::empty()
    } else if path.len() == 1 {
        path[0]
    } else {
        path_text(path.drop_last()) + "::"@ + path.last()
    }
}

/// Appends the segments of `path` to `out`, with `::` between them.
pub fn push_path(out: &mut String, path: &Vec<String>)
    ensures
        final(out)@ == old(out)@ + path_text(texts_view(path@)),
{
    let ghost before = out@;
    let ghost segments = texts_view(path@);
    let mut i: usize = 0;
    while i < path.len()
        invariant
            i <= path.len(),
            segments == texts_view(path@),
            out@ == before + path_text(segments.take(i as int)),
        decreases path.len() - i,
    {
        proof {
            let next = segments.take(i + 1);
            assert(next.drop_last() == segments.take(i as int));
            assert(next.last() == path[i as int]@);
        }
        if i > 0 {
            out.append("::");
        }
        out.append(path[i].as_str());
        i += 1;
    }
    proof {
        assert(segments.take(path.len() as int) == segments);
    }
}

/// One attribute as it is written: `#[`, the path, what follows the path,
/// and `]`.
pub open spec fn attribute_text(attr: AttributeView) -> Seq<char> {
    "#["@ + path_text(attr.path) + attr.tokens + "]"@
}

/// Attributes as they are written, each followed by a line break.
pub open spec fn attributes_text(attrs: Seq<AttributeView>) -> Seq<char>
    decreases attrs.len(),
{
    if attrs.len() == 0 {
        Seq::empty()
    } else {
        attributes_text(attrs.drop_last()) + attribute_text(attrs.last()) + "\n"@
    }
}

/// Appends the attributes to `out`, each followed by a line break.
pub fn push_attributes(out: &mut String, attrs: &Vec<Attribute>)
    ensures
        final(out)@ == old(out)@ + attributes_text(attrs_view(attrs@)),
{
    let ghost before = out@;
    let ghost views = attrs_view(attrs@);
    let mut i: usize = 0;
    while i < attrs.len()
        invariant
            i <= attrs.len(),
            views == attrs_view(attrs@),
            out@ == before + attributes_text(views.take(i as int)),
        decreases attrs.len() - i,
    {
        proof {
            let next = views.take(i + 1);
            assert(next.drop_last() == views.take(i as int));
            assert(next.last() == attrs[i as int]@);
        }
        let attr = &attrs[i];
        out.append("#[");
        push_path(out, &attr.path);
        out.append(attr.tokens.as_str());
        out.append("]");
        out.append("\n");
        i += 1;
    }
    proof {
        assert(views.take(attrs.len() as int) == views);
    }
}

} // verus!
