//! A library for building LaTeX documents programmatically.
//!
//! A document is assembled as a tree of nodes: sectioning nodes, text runs,
//! math blocks, lists, environments and one-line commands. Rendering turns
//! that tree into LaTeX source text; every node's output is specified
//! exactly, character for character, by a spec function, and each `write_to`
//! implementation is verified against it.

mod commands;
mod document;
mod environment;
mod equations;
mod lists;
mod section;
mod text;

pub use commands::{
    lower_of, render_bibitem, render_bibliography, render_bibliographystyle, render_cite,
    render_command, render_framebox, render_label, render_ref, Bibitem, Bibliography,
    Bibliographystyle, Cite, Command, Framebox, Label, Ref,
};
pub use document::{
    class_name, decimal_digit, render_decimal, render_document, render_element, render_elements,
    render_preamble, render_preamble_element, render_preamble_elements, Document, DocumentClass,
    Element, Preamble, PreambleElement,
};
pub use environment::{render_braced_params, render_env_children, render_environment, Environment};
pub use equations::{
    render_align, render_align_equation, render_align_equations, render_equation, Align,
    AlignEquation, Equation,
};
pub use lists::{list_kind_name, render_item, render_list, render_list_items, Item, List, ListKind};
pub use section::{
    render_section_children, render_sectioning, Chapter, Container, Paragraph, Part, Section,
    SectionElement, Subparagraph, Subsection, Subsubsection,
};
pub use text::{is_plain_text, render_text_element, render_text_elements, Text, TextElement};

use vstd::prelude::*;
use vstd::string::StringExecFns;

verus! {

/// The rendering capability: a node writes its LaTeX representation to the
/// end of a caller-supplied output buffer.
///
/// `rendered` gives the exact text the node stands for; `write_to` appends
/// exactly that text and touches nothing else. Rendering only reads the
/// node, so the same tree can be rendered any number of times.
pub trait Writable {
    /// The exact text this node renders to.
    spec fn rendered(&self) -> Seq<char>;

    /// Append this node's rendering to `writer`.
    fn write_to(&self, writer: &mut String)
        ensures
            final(writer)@ == old(writer)@ + self.rendered(),
    ;
}

/// The comma-joined text of a sequence of values: the values in order,
/// with a single comma between adjacent values.
pub open spec fn render_comma_joined(s: Seq<String>) -> Seq<char>
    decreases s,
{
    if s.len() == 0 {
        Seq::empty()
    } else if s.len() == 1 {
        s.last()@
    } else {
        render_comma_joined(s.drop_last()) + ","@ + s.last()@
    }
}

#[verifier::loop_isolation(false)]
pub(crate) fn write_comma_joined(items: &Vec<String>, out: &mut String)
    ensures
        final(out)@ == old(out)@ + render_comma_joined(items@),
{
    let ghost out0 = out@;
    let n: usize = items.len();
    let mut i: usize = 0;
    while i < n
        invariant
            i <= n,
            out@ == out0 + render_comma_joined(items@.take(i as int)),
        decreases n - i,
    {
        if i > 0 {
            out.append(",");
        }
        out.append(items[i].as_str());
        proof {
            assert(items@.take(i as int + 1).drop_last() =~= items@.take(i as int));
            assert(items@.take(i as int + 1).last() == items@[i as int]);
            assert(out@ =~= out0 + render_comma_joined(items@.take(i as int + 1)));
        }
        i = i + 1;
    }
    proof {
        assert(items@.take(n as int) =~= items@);
    }
}

/// A renderer that owns an output buffer and writes nodes to it in turn.
pub struct Latex {
    /// The output buffer that rendered text is appended to.
    pub writer: String,
}

impl Latex {
    /// Create a new renderer around the given output buffer.
    pub fn new(writer: String) -> (r: Self)
        ensures
            r.writer == writer,
    {
        Latex { writer }
    }

    /// Return the underlying buffer, consuming the renderer.
    pub fn into_inner(self) -> (r: String)
        ensures
            r == self.writer,
    {
        self.writer
    }

    /// Append a node's rendering to the buffer.
    pub fn write<T: Writable>(&mut self, element: &T)
        ensures
            final(self).writer@ == old(self).writer@ + element.rendered(),
    {
        element.write_to(&mut self.writer);
    }
}

/// Render a document to a string: exactly the document's rendering, and
/// nothing else.
pub fn print(doc: &Document) -> (r: String)
    ensures
        r@ == document::render_document(*doc),
{
    let mut latex = Latex::new(String::new());
    latex.write(doc);
    latex.into_inner()
}

} // verus!
