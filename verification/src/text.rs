//! Inline text runs: plain strings, bold and italic wrapping, hyperlinks
//! and inline math.

use crate::Writable;
use vstd::prelude::*;
use vstd::string::StringExecFns;

verus! {

/// One inline formatted run.
///
/// `Bold` and `Italic` wrap a further `TextElement`, so runs may nest to any
/// depth. No escaping is performed anywhere: every string is emitted
/// byte-for-byte.
#[derive(Debug, PartialEq)]
pub enum TextElement {
    /// A plain string, emitted as-is.
    Plain(String),
    /// Bolded text, emitted as `\textbf{...}`.
    Bold(Box<TextElement>),
    /// Italicized text, emitted as `\textit{...}`.
    Italic(Box<TextElement>),
    /// Hyperlink as (description, target), emitted as
    /// `\href{target}{description}`.
    Link(String, String),
    /// An inline mathematical expression, emitted between dollar signs.
    InlineMath(String),
}

/// The exact text a single inline run renders to.
pub open spec fn render_text_element(e: TextElement) -> Seq<char>
    decreases e,
{
    match e {
        TextElement::Plain(s) => s@,
        TextElement::Bold(inner) => "\\textbf{"@ + render_text_element(*inner) + "}"@,
        TextElement::Italic(inner) => "\\textit{"@ + render_text_element(*inner) + "}"@,
        TextElement::Link(descr, target) => "\\href{"@ + target@ + "}{"@ + descr@ + "}"@,
        TextElement::InlineMath(s) => "$"@ + s@ + "$"@,
    }
}

/// The exact text a sequence of inline runs renders to: the runs in order,
/// with no separators.
pub open spec fn render_text_elements(s: Seq<TextElement>) -> Seq<char>
    decreases s,
{
    if s.len() == 0 {
        Seq::empty()
    } else {
        render_text_elements(s.drop_last()) + render_text_element(s.last())
    }
}

fn write_text_element(e: &TextElement, out: &mut String)
    ensures
        final(out)@ == old(out)@ + render_text_element(*e),
    decreases *e,
{
    match e {
        TextElement::Plain(s) => {
            out.append(s.as_str());
        }
        TextElement::Bold(inner) => {
            out.append("\\textbf{");
            write_text_element(&**inner, out);
            out.append("}");
            assert(out@ =~= old(out)@ + render_text_element(*e));
        }
        TextElement::Italic(inner) => {
            out.append("\\textit{");
            write_text_element(&**inner, out);
            out.append("}");
            assert(out@ =~= old(out)@ + render_text_element(*e));
        }
        TextElement::Link(descr, target) => {
            out.append("\\href{");
            out.append(target.as_str());
            out.append("}{");
            out.append(descr.as_str());
            out.append("}");
            assert(out@ =~= old(out)@ + render_text_element(*e));
        }
        TextElement::InlineMath(s) => {
            out.append("$");
            out.append(s.as_str());
            out.append("$");
            assert(out@ =~= old(out)@ + render_text_element(*e));
        }
    }
}

impl TextElement {
    /// Wrap a plain string in an italics tag.
    pub fn italic(elem: &str) -> (r: TextElement)
        ensures
            r matches TextElement::Italic(inner) && *inner matches TextElement::Plain(s)
                && s@ == elem@,
    {
        TextElement::Italic(Box::new(TextElement::Plain(elem.to_owned())))
    }

    /// Wrap a plain string in a bold tag.
    pub fn bold(elem: &str) -> (r: TextElement)
        ensures
            r matches TextElement::Bold(inner) && *inner matches TextElement::Plain(s)
                && s@ == elem@,
    {
        TextElement::Bold(Box::new(TextElement::Plain(elem.to_owned())))
    }
}

impl Clone for TextElement {
    fn clone(&self) -> (r: Self)
        ensures
            r == *self,
        decreases *self,
    {
        match self {
            TextElement::Plain(s) => TextElement::Plain(s.clone()),
            TextElement::Bold(inner) => TextElement::Bold(Box::new((&**inner).clone())),
            TextElement::Italic(inner) => TextElement::Italic(Box::new((&**inner).clone())),
            TextElement::Link(descr, target) => TextElement::Link(descr.clone(), target.clone()),
            TextElement::InlineMath(s) => TextElement::InlineMath(s.clone()),
        }
    }
}

impl Writable for TextElement {
    open spec fn rendered(&self) -> Seq<char> {
        render_text_element(*self)
    }

    fn write_to(&self, writer: &mut String) {
        write_text_element(self, writer);
    }
}

/// An ordered run of `TextElement`s, rendered in sequence with no
/// separators and no trailing line break.
#[derive(Debug, PartialEq)]
pub struct Text {
    /// The list of `TextElement`s which make up the text's contents.
    pub elements: Vec<TextElement>,
}

impl Text {
    /// Create an empty `Text`.
    pub fn new() -> (r: Self)
        ensures
            r.elements@ == Seq::<TextElement>::empty(),
    {
        Text { elements: Vec::new() }
    }

    /// Append a `TextElement` to the run.
    pub fn push(&mut self, elem: TextElement)
        ensures
            final(self).elements@ == old(self).elements@.push(elem),
    {
        self.elements.push(elem);
    }

    /// Iterate over the elements in this run.
    pub fn iter<'a>(&'a self) -> (r: std::slice::Iter<'a, TextElement>)
        ensures
            vstd::std_specs::iter::IteratorSpec::remaining(&r) == self.elements@.as_ref(),
    {
        let s: &[TextElement] = self.elements.as_slice();
        s.iter()
    }

    /// Append a plain string to the run.
    pub fn push_text(&mut self, text: &str)
        ensures
            final(self).elements@.len() == old(self).elements@.len() + 1,
            final(self).elements@.drop_last() == old(self).elements@,
            final(self).elements@.last() matches TextElement::Plain(s) && s@ == text@,
    {
        self.elements.push(TextElement::Plain(text.to_owned()));
        proof {
            assert(self.elements@.drop_last() =~= old(self).elements@);
        }
    }
}

impl Clone for Text {
    fn clone(&self) -> (r: Self)
        ensures
            r.elements@ == self.elements@,
    {
        let elements = self.elements.clone();
        proof {
            assert(elements@ =~= self.elements@);
        }
        Text { elements }
    }
}

/// `t` is a run of exactly one plain element with the characters `s`.
pub open spec fn is_plain_text(t: Text, s: Seq<char>) -> bool {
    t.elements@.len() == 1 && (t.elements@[0] matches TextElement::Plain(p) && p@ == s)
}

/// Build a `Text` holding one plain element with the given characters.
pub(crate) fn text_from_str(s: &str) -> (t: Text)
    ensures
        is_plain_text(t, s@),
{
    let mut t = Text::new();
    t.push_text(s);
    t
}

impl Writable for Text {
    open spec fn rendered(&self) -> Seq<char> {
        render_text_elements(self.elements@)
    }

    fn write_to(&self, writer: &mut String) {
        write_text_elements(&self.elements, writer);
    }
}

fn write_text_elements(elems: &Vec<TextElement>, out: &mut String)
    ensures
        final(out)@ == old(out)@ + render_text_elements(elems@),
{
    let ghost out0 = out@;
    let n: usize = elems.len();
    let mut i: usize = 0;
    while i < n
        invariant
            i <= n,
            n == elems@.len(),
            out@ == out0 + render_text_elements(elems@.take(i as int)),
        decreases n - i,
    {
        write_text_element(&elems[i], out);
        proof {
            assert(elems@.take(i as int + 1).drop_last() =~= elems@.take(i as int));
            assert(elems@.take(i as int + 1).last() == elems@[i as int]);
            assert(out@ =~= out0 + render_text_elements(elems@.take(i as int + 1)));
        }
        i = i + 1;
    }
    proof {
        assert(elems@.take(n as int) =~= elems@);
    }
}


impl From<TextElement> for Text {
    /// Wrap one element in a run of its own.
    fn from(other: TextElement) -> (r: Text) {
        let mut t = Text::new();
        t.push(other);
        t
    }
}

impl vstd::std_specs::convert::FromSpecImpl<TextElement> for Text {
    open spec fn obeys_from_spec() -> bool {
        false
    }

    open spec fn from_spec(v: TextElement) -> Text {
        choose|t: Text| t.elements@ == seq![v]
    }
}

impl<'a> From<&'a str> for Text {
    /// Build a run of one plain element from a string.
    fn from(other: &'a str) -> (r: Text) {
        text_from_str(other)
    }
}

impl<'a> vstd::std_specs::convert::FromSpecImpl<&'a str> for Text {
    open spec fn obeys_from_spec() -> bool {
        false
    }

    open spec fn from_spec(v: &'a str) -> Text {
        choose|t: Text| is_plain_text(t, v@)
    }
}

} // verus!
