//! Sectioning nodes (part, chapter, section, and the deeper levels) and the
//! transparent `Container` grouping node.
//!
//! All sectioning kinds share one rendering shape: the backslashed keyword
//! (starred when the node is unnumbered), an optional bracketed
//! table-of-contents title (numbered form only), the braced name rendered as
//! inline text, a line break, and then each child element followed by a
//! blank line so that adjacent blocks are not run together into one
//! paragraph. The seven kinds below differ only in their keyword; each
//! impl block is the same shape instantiated for one keyword.

use crate::document::{render_elements, write_element, write_elements, Element};
use crate::text::{is_plain_text, render_text_elements, text_from_str, Text};
use crate::Writable;
use vstd::prelude::*;
use vstd::string::StringExecFns;

verus! {

/// The exact text of a sectioning node's children: each child's render
/// followed by one blank line.
pub open spec fn render_section_children(s: Seq<Element>) -> Seq<char>
    decreases s, 0int,
{
    if s.len() == 0 {
        Seq::empty()
    } else {
        render_section_children(s.drop_last()) + crate::document::render_element(s.last())
            + "\n\n"@
    }
}

/// The exact text a sectioning node renders to: the heading line, then the
/// children. The table-of-contents bracket is emitted only in the numbered
/// form; the starred form never carries one.
pub open spec fn render_sectioning(
    keyword: Seq<char>,
    numbered: bool,
    toc_title: Option<Text>,
    name: Text,
    elems: Seq<Element>,
) -> Seq<char>
    decreases elems, 1int,
{
    "\\"@ + keyword + (if numbered {
        Seq::empty()
    } else {
        "*"@
    }) + (if numbered {
        match toc_title {
            Some(t) => "["@ + render_text_elements(t.elements@) + "]"@,
            None => Seq::empty(),
        }
    } else {
        Seq::empty()
    }) + "{"@ + render_text_elements(name.elements@) + "}"@ + "\n"@ + render_section_children(
        elems,
    )
}

#[verifier::loop_isolation(false)]
pub(crate) fn write_section_children(elems: &Vec<Element>, out: &mut String)
    ensures
        final(out)@ == old(out)@ + render_section_children(elems@),
    decreases elems@, 0int,
{
    let ghost out0 = out@;
    let n: usize = elems.len();
    let mut i: usize = 0;
    while i < n
        invariant
            i <= n,
            out@ == out0 + render_section_children(elems@.take(i as int)),
        decreases n - i,
    {
        write_element(&elems[i], out);
        out.append("\n\n");
        proof {
            assert(elems@.take(i as int + 1).drop_last() =~= elems@.take(i as int));
            assert(out@ =~= out0 + render_section_children(elems@.take(i as int + 1)));
        }
        i = i + 1;
    }
    proof {
        assert(elems@.take(n as int) =~= elems@);
    }
}

pub(crate) fn write_sectioning(
    keyword: &str,
    numbered: bool,
    toc_title: &Option<Text>,
    name: &Text,
    elems: &Vec<Element>,
    out: &mut String,
)
    ensures
        final(out)@ == old(out)@ + render_sectioning(keyword@, numbered, *toc_title, *name, elems@),
    decreases elems@, 1int,
{
    out.append("\\");
    out.append(keyword);
    if !numbered {
        out.append("*");
    }
    if numbered {
        match toc_title {
            Some(t) => {
                out.append("[");
                t.write_to(out);
                out.append("]");
            }
            None => {}
        }
    }
    out.append("{");
    name.write_to(out);
    out.append("}");
    out.append("\n");
    write_section_children(elems, out);
    assert(out@ =~= old(out)@ + render_sectioning(keyword@, numbered, *toc_title, *name, elems@));
}

/// An unnumbered sectioning node renders in the starred keyword form, and
/// its table-of-contents title is suppressed: the heading begins with the
/// starred keyword, and the rendering is the same whatever the title field
/// holds.
pub proof fn lemma_unnumbered_sectioning_starred(
    keyword: Seq<char>,
    toc_title: Option<Text>,
    name: Text,
    elems: Seq<Element>,
)
    ensures
        ({
            let r = render_sectioning(keyword, false, toc_title, name, elems);
            let head = "\\"@ + keyword + "*"@;
            r.take(head.len() as int) == head
        }),
        render_sectioning(keyword, false, toc_title, name, elems) == render_sectioning(
            keyword,
            false,
            None,
            name,
            elems,
        ),
{
    let r = render_sectioning(keyword, false, toc_title, name, elems);
    let head = "\\"@ + keyword + "*"@;
    assert(r.take(head.len() as int) =~= head);
    assert(render_sectioning(keyword, false, toc_title, name, elems) =~= render_sectioning(
        keyword,
        false,
        None,
        name,
        elems,
    ));
}

/// The shared capability of all sectioning nodes: their numbering flag,
/// name, keyword and children.
pub trait SectionElement {
    /// Whether the node is numbered (ghost).
    spec fn spec_numbered(&self) -> bool;

    /// The node's name (ghost).
    spec fn spec_name(&self) -> Text;

    /// The node's sectioning keyword (ghost).
    spec fn spec_keyword(&self) -> Seq<char>;

    /// The node's children (ghost).
    spec fn spec_elements(&self) -> Seq<Element>;

    /// Whether the node is numbered.
    fn numbered(&self) -> (r: bool)
        ensures
            r == self.spec_numbered(),
    ;

    /// Whether the node has no children.
    fn is_empty(&self) -> (r: bool)
        ensures
            r == (self.spec_elements().len() == 0),
    ;

    /// The node's name.
    fn get_name(&self) -> (r: &Text)
        ensures
            *r == self.spec_name(),
    ;

    /// The node's sectioning keyword.
    fn get_section_name(&self) -> (r: &str)
        ensures
            r@ == self.spec_keyword(),
    ;
}

/// A transparent grouping node: it renders its children in sequence and
/// adds no formatting of its own.
#[derive(Debug, PartialEq)]
pub struct Container {
    /// The child elements.
    pub elements: Vec<Element>,
}

impl Container {
    /// Create an empty container.
    pub fn new() -> (r: Self)
        ensures
            r.elements@.len() == 0,
    {
        Container { elements: Vec::new() }
    }

    /// Add a child element.
    pub fn push(&mut self, element: Element)
        ensures
            final(self).elements@ == old(self).elements@.push(element),
    {
        self.elements.push(element);
    }

    /// Whether the container has no children.
    pub fn is_empty(&self) -> (r: bool)
        ensures
            r == (self.elements@.len() == 0),
    {
        self.elements.len() == 0
    }
}

impl Writable for Container {
    open spec fn rendered(&self) -> Seq<char> {
        render_elements(self.elements@)
    }

    fn write_to(&self, writer: &mut String) {
        write_elements(&self.elements, writer);
    }
}

/// A part: the outermost sectioning node.
#[derive(Debug, PartialEq)]
pub struct Part {
    /// The name of the node, rendered as inline text.
    pub name: Text,
    /// An optional distinct table-of-contents title; emitted only in the
    /// numbered form.
    pub toc_title: Option<Text>,
    /// The child elements.
    pub elements: Vec<Element>,
    /// Whether the node is numbered; the starred keyword form is used when
    /// it is not.
    pub numbered: bool,
}

impl Part {
    /// Create a numbered, empty node with the given plain-text name.
    pub fn new(name: &str) -> (r: Self)
        ensures
            is_plain_text(r.name, name@),
            r.toc_title is None,
            r.elements@.len() == 0,
            r.numbered,
    {
        Part { name: text_from_str(name), toc_title: None, elements: Vec::new(), numbered: true }
    }

    /// Create a numbered, empty node with the given formatted name.
    pub fn new_formatted(name: Text) -> (r: Self)
        ensures
            r.name == name,
            r.toc_title is None,
            r.elements@.len() == 0,
            r.numbered,
    {
        Part { name, toc_title: None, elements: Vec::new(), numbered: true }
    }

    /// Add a child element.
    pub fn push(&mut self, element: Element)
        ensures
            final(self).elements@ == old(self).elements@.push(element),
            final(self).name == old(self).name,
            final(self).toc_title == old(self).toc_title,
            final(self).numbered == old(self).numbered,
    {
        self.elements.push(element);
    }
}

impl SectionElement for Part {
    open spec fn spec_numbered(&self) -> bool {
        self.numbered
    }

    open spec fn spec_name(&self) -> Text {
        self.name
    }

    open spec fn spec_keyword(&self) -> Seq<char> {
        "part"@
    }

    open spec fn spec_elements(&self) -> Seq<Element> {
        self.elements@
    }

    fn numbered(&self) -> bool {
        self.numbered
    }

    fn is_empty(&self) -> bool {
        self.elements.len() == 0
    }

    fn get_name(&self) -> &Text {
        &self.name
    }

    fn get_section_name(&self) -> &str {
        "part"
    }
}

impl Writable for Part {
    open spec fn rendered(&self) -> Seq<char> {
        render_sectioning("part"@, self.numbered, self.toc_title, self.name, self.elements@)
    }

    fn write_to(&self, writer: &mut String) {
        write_sectioning(
            "part",
            self.numbered,
            &self.toc_title,
            &self.name,
            &self.elements,
            writer,
        );
    }
}

/// A chapter: the sectioning node below a part.
#[derive(Debug, PartialEq)]
pub struct Chapter {
    /// The name of the node, rendered as inline text.
    pub name: Text,
    /// An optional distinct table-of-contents title; emitted only in the
    /// numbered form.
    pub toc_title: Option<Text>,
    /// The child elements.
    pub elements: Vec<Element>,
    /// Whether the node is numbered; the starred keyword form is used when
    /// it is not.
    pub numbered: bool,
}

impl Chapter {
    /// Create a numbered, empty node with the given plain-text name.
    pub fn new(name: &str) -> (r: Self)
        ensures
            is_plain_text(r.name, name@),
            r.toc_title is None,
            r.elements@.len() == 0,
            r.numbered,
    {
        Chapter { name: text_from_str(name), toc_title: None, elements: Vec::new(), numbered: true }
    }

    /// Create a numbered, empty node with the given formatted name.
    pub fn new_formatted(name: Text) -> (r: Self)
        ensures
            r.name == name,
            r.toc_title is None,
            r.elements@.len() == 0,
            r.numbered,
    {
        Chapter { name, toc_title: None, elements: Vec::new(), numbered: true }
    }

    /// Add a child element.
    pub fn push(&mut self, element: Element)
        ensures
            final(self).elements@ == old(self).elements@.push(element),
            final(self).name == old(self).name,
            final(self).toc_title == old(self).toc_title,
            final(self).numbered == old(self).numbered,
    {
        self.elements.push(element);
    }
}

impl SectionElement for Chapter {
    open spec fn spec_numbered(&self) -> bool {
        self.numbered
    }

    open spec fn spec_name(&self) -> Text {
        self.name
    }

    open spec fn spec_keyword(&self) -> Seq<char> {
        "chapter"@
    }

    open spec fn spec_elements(&self) -> Seq<Element> {
        self.elements@
    }

    fn numbered(&self) -> bool {
        self.numbered
    }

    fn is_empty(&self) -> bool {
        self.elements.len() == 0
    }

    fn get_name(&self) -> &Text {
        &self.name
    }

    fn get_section_name(&self) -> &str {
        "chapter"
    }
}

impl Writable for Chapter {
    open spec fn rendered(&self) -> Seq<char> {
        render_sectioning("chapter"@, self.numbered, self.toc_title, self.name, self.elements@)
    }

    fn write_to(&self, writer: &mut String) {
        write_sectioning(
            "chapter",
            self.numbered,
            &self.toc_title,
            &self.name,
            &self.elements,
            writer,
        );
    }
}

/// A section: the sectioning node below a chapter.
#[derive(Debug, PartialEq)]
pub struct Section {
    /// The name of the node, rendered as inline text.
    pub name: Text,
    /// An optional distinct table-of-contents title; emitted only in the
    /// numbered form.
    pub toc_title: Option<Text>,
    /// The child elements.
    pub elements: Vec<Element>,
    /// Whether the node is numbered; the starred keyword form is used when
    /// it is not.
    pub numbered: bool,
}

impl Section {
    /// Create a numbered, empty node with the given plain-text name.
    pub fn new(name: &str) -> (r: Self)
        ensures
            is_plain_text(r.name, name@),
            r.toc_title is None,
            r.elements@.len() == 0,
            r.numbered,
    {
        Section { name: text_from_str(name), toc_title: None, elements: Vec::new(), numbered: true }
    }

    /// Create a numbered, empty node with the given formatted name.
    pub fn new_formatted(name: Text) -> (r: Self)
        ensures
            r.name == name,
            r.toc_title is None,
            r.elements@.len() == 0,
            r.numbered,
    {
        Section { name, toc_title: None, elements: Vec::new(), numbered: true }
    }

    /// Add a child element.
    pub fn push(&mut self, element: Element)
        ensures
            final(self).elements@ == old(self).elements@.push(element),
            final(self).name == old(self).name,
            final(self).toc_title == old(self).toc_title,
            final(self).numbered == old(self).numbered,
    {
        self.elements.push(element);
    }
}

impl SectionElement for Section {
    open spec fn spec_numbered(&self) -> bool {
        self.numbered
    }

    open spec fn spec_name(&self) -> Text {
        self.name
    }

    open spec fn spec_keyword(&self) -> Seq<char> {
        "section"@
    }

    open spec fn spec_elements(&self) -> Seq<Element> {
        self.elements@
    }

    fn numbered(&self) -> bool {
        self.numbered
    }

    fn is_empty(&self) -> bool {
        self.elements.len() == 0
    }

    fn get_name(&self) -> &Text {
        &self.name
    }

    fn get_section_name(&self) -> &str {
        "section"
    }
}

impl Writable for Section {
    open spec fn rendered(&self) -> Seq<char> {
        render_sectioning("section"@, self.numbered, self.toc_title, self.name, self.elements@)
    }

    fn write_to(&self, writer: &mut String) {
        write_sectioning(
            "section",
            self.numbered,
            &self.toc_title,
            &self.name,
            &self.elements,
            writer,
        );
    }
}

/// A subsection: the sectioning node below a section.
#[derive(Debug, PartialEq)]
pub struct Subsection {
    /// The name of the node, rendered as inline text.
    pub name: Text,
    /// An optional distinct table-of-contents title; emitted only in the
    /// numbered form.
    pub toc_title: Option<Text>,
    /// The child elements.
    pub elements: Vec<Element>,
    /// Whether the node is numbered; the starred keyword form is used when
    /// it is not.
    pub numbered: bool,
}

impl Subsection {
    /// Create a numbered, empty node with the given plain-text name.
    pub fn new(name: &str) -> (r: Self)
        ensures
            is_plain_text(r.name, name@),
            r.toc_title is None,
            r.elements@.len() == 0,
            r.numbered,
    {
        Subsection { name: text_from_str(name), toc_title: None, elements: Vec::new(), numbered: true }
    }

    /// Create a numbered, empty node with the given formatted name.
    pub fn new_formatted(name: Text) -> (r: Self)
        ensures
            r.name == name,
            r.toc_title is None,
            r.elements@.len() == 0,
            r.numbered,
    {
        Subsection { name, toc_title: None, elements: Vec::new(), numbered: true }
    }

    /// Add a child element.
    pub fn push(&mut self, element: Element)
        ensures
            final(self).elements@ == old(self).elements@.push(element),
            final(self).name == old(self).name,
            final(self).toc_title == old(self).toc_title,
            final(self).numbered == old(self).numbered,
    {
        self.elements.push(element);
    }
}

impl SectionElement for Subsection {
    open spec fn spec_numbered(&self) -> bool {
        self.numbered
    }

    open spec fn spec_name(&self) -> Text {
        self.name
    }

    open spec fn spec_keyword(&self) -> Seq<char> {
        "subsection"@
    }

    open spec fn spec_elements(&self) -> Seq<Element> {
        self.elements@
    }

    fn numbered(&self) -> bool {
        self.numbered
    }

    fn is_empty(&self) -> bool {
        self.elements.len() == 0
    }

    fn get_name(&self) -> &Text {
        &self.name
    }

    fn get_section_name(&self) -> &str {
        "subsection"
    }
}

impl Writable for Subsection {
    open spec fn rendered(&self) -> Seq<char> {
        render_sectioning("subsection"@, self.numbered, self.toc_title, self.name, self.elements@)
    }

    fn write_to(&self, writer: &mut String) {
        write_sectioning(
            "subsection",
            self.numbered,
            &self.toc_title,
            &self.name,
            &self.elements,
            writer,
        );
    }
}

/// A subsubsection: the sectioning node below a subsection.
#[derive(Debug, PartialEq)]
pub struct Subsubsection {
    /// The name of the node, rendered as inline text.
    pub name: Text,
    /// An optional distinct table-of-contents title; emitted only in the
    /// numbered form.
    pub toc_title: Option<Text>,
    /// The child elements.
    pub elements: Vec<Element>,
    /// Whether the node is numbered; the starred keyword form is used when
    /// it is not.
    pub numbered: bool,
}

impl Subsubsection {
    /// Create a numbered, empty node with the given plain-text name.
    pub fn new(name: &str) -> (r: Self)
        ensures
            is_plain_text(r.name, name@),
            r.toc_title is None,
            r.elements@.len() == 0,
            r.numbered,
    {
        Subsubsection { name: text_from_str(name), toc_title: None, elements: Vec::new(), numbered: true }
    }

    /// Create a numbered, empty node with the given formatted name.
    pub fn new_formatted(name: Text) -> (r: Self)
        ensures
            r.name == name,
            r.toc_title is None,
            r.elements@.len() == 0,
            r.numbered,
    {
        Subsubsection { name, toc_title: None, elements: Vec::new(), numbered: true }
    }

    /// Add a child element.
    pub fn push(&mut self, element: Element)
        ensures
            final(self).elements@ == old(self).elements@.push(element),
            final(self).name == old(self).name,
            final(self).toc_title == old(self).toc_title,
            final(self).numbered == old(self).numbered,
    {
        self.elements.push(element);
    }
}

impl SectionElement for Subsubsection {
    open spec fn spec_numbered(&self) -> bool {
        self.numbered
    }

    open spec fn spec_name(&self) -> Text {
        self.name
    }

    open spec fn spec_keyword(&self) -> Seq<char> {
        "subsubsection"@
    }

    open spec fn spec_elements(&self) -> Seq<Element> {
        self.elements@
    }

    fn numbered(&self) -> bool {
        self.numbered
    }

    fn is_empty(&self) -> bool {
        self.elements.len() == 0
    }

    fn get_name(&self) -> &Text {
        &self.name
    }

    fn get_section_name(&self) -> &str {
        "subsubsection"
    }
}

impl Writable for Subsubsection {
    open spec fn rendered(&self) -> Seq<char> {
        render_sectioning("subsubsection"@, self.numbered, self.toc_title, self.name, self.elements@)
    }

    fn write_to(&self, writer: &mut String) {
        write_sectioning(
            "subsubsection",
            self.numbered,
            &self.toc_title,
            &self.name,
            &self.elements,
            writer,
        );
    }
}

/// A paragraph heading: the sectioning node below a subsubsection.
#[derive(Debug, PartialEq)]
pub struct Paragraph {
    /// The name of the node, rendered as inline text.
    pub name: Text,
    /// An optional distinct table-of-contents title; emitted only in the
    /// numbered form.
    pub toc_title: Option<Text>,
    /// The child elements.
    pub elements: Vec<Element>,
    /// Whether the node is numbered; the starred keyword form is used when
    /// it is not.
    pub numbered: bool,
}

impl Paragraph {
    /// Create a numbered, empty node with the given plain-text name.
    pub fn new(name: &str) -> (r: Self)
        ensures
            is_plain_text(r.name, name@),
            r.toc_title is None,
            r.elements@.len() == 0,
            r.numbered,
    {
        Paragraph { name: text_from_str(name), toc_title: None, elements: Vec::new(), numbered: true }
    }

    /// Create a numbered, empty node with the given formatted name.
    pub fn new_formatted(name: Text) -> (r: Self)
        ensures
            r.name == name,
            r.toc_title is None,
            r.elements@.len() == 0,
            r.numbered,
    {
        Paragraph { name, toc_title: None, elements: Vec::new(), numbered: true }
    }

    /// Add a child element.
    pub fn push(&mut self, element: Element)
        ensures
            final(self).elements@ == old(self).elements@.push(element),
            final(self).name == old(self).name,
            final(self).toc_title == old(self).toc_title,
            final(self).numbered == old(self).numbered,
    {
        self.elements.push(element);
    }
}

impl SectionElement for Paragraph {
    open spec fn spec_numbered(&self) -> bool {
        self.numbered
    }

    open spec fn spec_name(&self) -> Text {
        self.name
    }

    open spec fn spec_keyword(&self) -> Seq<char> {
        "paragraph"@
    }

    open spec fn spec_elements(&self) -> Seq<Element> {
        self.elements@
    }

    fn numbered(&self) -> bool {
        self.numbered
    }

    fn is_empty(&self) -> bool {
        self.elements.len() == 0
    }

    fn get_name(&self) -> &Text {
        &self.name
    }

    fn get_section_name(&self) -> &str {
        "paragraph"
    }
}

impl Writable for Paragraph {
    open spec fn rendered(&self) -> Seq<char> {
        render_sectioning("paragraph"@, self.numbered, self.toc_title, self.name, self.elements@)
    }

    fn write_to(&self, writer: &mut String) {
        write_sectioning(
            "paragraph",
            self.numbered,
            &self.toc_title,
            &self.name,
            &self.elements,
            writer,
        );
    }
}

/// A subparagraph heading: the deepest sectioning node.
#[derive(Debug, PartialEq)]
pub struct Subparagraph {
    /// The name of the node, rendered as inline text.
    pub name: Text,
    /// An optional distinct table-of-contents title; emitted only in the
    /// numbered form.
    pub toc_title: Option<Text>,
    /// The child elements.
    pub elements: Vec<Element>,
    /// Whether the node is numbered; the starred keyword form is used when
    /// it is not.
    pub numbered: bool,
}

impl Subparagraph {
    /// Create a numbered, empty node with the given plain-text name.
    pub fn new(name: &str) -> (r: Self)
        ensures
            is_plain_text(r.name, name@),
            r.toc_title is None,
            r.elements@.len() == 0,
            r.numbered,
    {
        Subparagraph { name: text_from_str(name), toc_title: None, elements: Vec::new(), numbered: true }
    }

    /// Create a numbered, empty node with the given formatted name.
    pub fn new_formatted(name: Text) -> (r: Self)
        ensures
            r.name == name,
            r.toc_title is None,
            r.elements@.len() == 0,
            r.numbered,
    {
        Subparagraph { name, toc_title: None, elements: Vec::new(), numbered: true }
    }

    /// Add a child element.
    pub fn push(&mut self, element: Element)
        ensures
            final(self).elements@ == old(self).elements@.push(element),
            final(self).name == old(self).name,
            final(self).toc_title == old(self).toc_title,
            final(self).numbered == old(self).numbered,
    {
        self.elements.push(element);
    }
}

impl SectionElement for Subparagraph {
    open spec fn spec_numbered(&self) -> bool {
        self.numbered
    }

    open spec fn spec_name(&self) -> Text {
        self.name
    }

    open spec fn spec_keyword(&self) -> Seq<char> {
        "subparagraph"@
    }

    open spec fn spec_elements(&self) -> Seq<Element> {
        self.elements@
    }

    fn numbered(&self) -> bool {
        self.numbered
    }

    fn is_empty(&self) -> bool {
        self.elements.len() == 0
    }

    fn get_name(&self) -> &Text {
        &self.name
    }

    fn get_section_name(&self) -> &str {
        "subparagraph"
    }
}

impl Writable for Subparagraph {
    open spec fn rendered(&self) -> Seq<char> {
        render_sectioning("subparagraph"@, self.numbered, self.toc_title, self.name, self.elements@)
    }

    fn write_to(&self, writer: &mut String) {
        write_sectioning(
            "subparagraph",
            self.numbered,
            &self.toc_title,
            &self.name,
            &self.elements,
            writer,
        );
    }
}


/// Sequences of section children that render pointwise-equal render equal
/// as a whole.
pub proof fn lemma_render_section_children_pointwise(a: Seq<Element>, b: Seq<Element>)
    requires
        a.len() == b.len(),
        forall|i: int|
            0 <= i < a.len() ==> crate::document::render_element(#[trigger] a[i])
                == crate::document::render_element(#[trigger] b[i]),
    ensures
        render_section_children(a) == render_section_children(b),
    decreases a,
{
    if a.len() > 0 {
        assert forall|i: int| 0 <= i < a.drop_last().len() implies crate::document::render_element(
            #[trigger] a.drop_last()[i],
        ) == crate::document::render_element(#[trigger] b.drop_last()[i]) by {
            assert(a.drop_last()[i] == a[i]);
            assert(b.drop_last()[i] == b[i]);
        }
        lemma_render_section_children_pointwise(a.drop_last(), b.drop_last());
        assert(a.last() == a[a.len() - 1]);
        assert(b.last() == b[b.len() - 1]);
        assert(render_section_children(a) =~= render_section_children(b));
    } else {
        assert(render_section_children(a) =~= render_section_children(b));
    }
}

impl Clone for Container {
    /// Clone the container; the clone renders as the original.
    fn clone(&self) -> (r: Self)
        ensures
            r.elements@.len() == self.elements@.len(),
            r.rendered() == self.rendered(),
        decreases *self,
    {
        let r = Container { elements: crate::document::clone_elements(&self.elements) };
        proof {
            crate::document::lemma_render_elements_pointwise(r.elements@, self.elements@);
        }
        r
    }
}

impl Clone for Part {
    /// Clone the node; the clone renders as the original.
    fn clone(&self) -> (r: Self)
        ensures
            r.numbered == self.numbered,
            r.name.elements@ == self.name.elements@,
            r.rendered() == self.rendered(),
        decreases *self,
    {
        let r = Part {
            name: self.name.clone(),
            toc_title: match &self.toc_title {
                Some(t) => Some(t.clone()),
                None => None,
            },
            elements: crate::document::clone_elements(&self.elements),
            numbered: self.numbered,
        };
        proof {
            lemma_render_section_children_pointwise(r.elements@, self.elements@);
            assert(r.rendered() =~= self.rendered());
        }
        r
    }
}

impl Clone for Chapter {
    /// Clone the node; the clone renders as the original.
    fn clone(&self) -> (r: Self)
        ensures
            r.numbered == self.numbered,
            r.name.elements@ == self.name.elements@,
            r.rendered() == self.rendered(),
        decreases *self,
    {
        let r = Chapter {
            name: self.name.clone(),
            toc_title: match &self.toc_title {
                Some(t) => Some(t.clone()),
                None => None,
            },
            elements: crate::document::clone_elements(&self.elements),
            numbered: self.numbered,
        };
        proof {
            lemma_render_section_children_pointwise(r.elements@, self.elements@);
            assert(r.rendered() =~= self.rendered());
        }
        r
    }
}

impl Clone for Section {
    /// Clone the node; the clone renders as the original.
    fn clone(&self) -> (r: Self)
        ensures
            r.numbered == self.numbered,
            r.name.elements@ == self.name.elements@,
            r.rendered() == self.rendered(),
        decreases *self,
    {
        let r = Section {
            name: self.name.clone(),
            toc_title: match &self.toc_title {
                Some(t) => Some(t.clone()),
                None => None,
            },
            elements: crate::document::clone_elements(&self.elements),
            numbered: self.numbered,
        };
        proof {
            lemma_render_section_children_pointwise(r.elements@, self.elements@);
            assert(r.rendered() =~= self.rendered());
        }
        r
    }
}

impl Clone for Subsection {
    /// Clone the node; the clone renders as the original.
    fn clone(&self) -> (r: Self)
        ensures
            r.numbered == self.numbered,
            r.name.elements@ == self.name.elements@,
            r.rendered() == self.rendered(),
        decreases *self,
    {
        let r = Subsection {
            name: self.name.clone(),
            toc_title: match &self.toc_title {
                Some(t) => Some(t.clone()),
                None => None,
            },
            elements: crate::document::clone_elements(&self.elements),
            numbered: self.numbered,
        };
        proof {
            lemma_render_section_children_pointwise(r.elements@, self.elements@);
            assert(r.rendered() =~= self.rendered());
        }
        r
    }
}

impl Clone for Subsubsection {
    /// Clone the node; the clone renders as the original.
    fn clone(&self) -> (r: Self)
        ensures
            r.numbered == self.numbered,
            r.name.elements@ == self.name.elements@,
            r.rendered() == self.rendered(),
        decreases *self,
    {
        let r = Subsubsection {
            name: self.name.clone(),
            toc_title: match &self.toc_title {
                Some(t) => Some(t.clone()),
                None => None,
            },
            elements: crate::document::clone_elements(&self.elements),
            numbered: self.numbered,
        };
        proof {
            lemma_render_section_children_pointwise(r.elements@, self.elements@);
            assert(r.rendered() =~= self.rendered());
        }
        r
    }
}

impl Clone for Paragraph {
    /// Clone the node; the clone renders as the original.
    fn clone(&self) -> (r: Self)
        ensures
            r.numbered == self.numbered,
            r.name.elements@ == self.name.elements@,
            r.rendered() == self.rendered(),
        decreases *self,
    {
        let r = Paragraph {
            name: self.name.clone(),
            toc_title: match &self.toc_title {
                Some(t) => Some(t.clone()),
                None => None,
            },
            elements: crate::document::clone_elements(&self.elements),
            numbered: self.numbered,
        };
        proof {
            lemma_render_section_children_pointwise(r.elements@, self.elements@);
            assert(r.rendered() =~= self.rendered());
        }
        r
    }
}

impl Clone for Subparagraph {
    /// Clone the node; the clone renders as the original.
    fn clone(&self) -> (r: Self)
        ensures
            r.numbered == self.numbered,
            r.name.elements@ == self.name.elements@,
            r.rendered() == self.rendered(),
        decreases *self,
    {
        let r = Subparagraph {
            name: self.name.clone(),
            toc_title: match &self.toc_title {
                Some(t) => Some(t.clone()),
                None => None,
            },
            elements: crate::document::clone_elements(&self.elements),
            numbered: self.numbered,
        };
        proof {
            lemma_render_section_children_pointwise(r.elements@, self.elements@);
            assert(r.rendered() =~= self.rendered());
        }
        r
    }
}

} // verus!
