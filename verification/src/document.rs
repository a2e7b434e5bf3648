//! The document root: the `Document` and its `Preamble`, the closed
//! `Element` node set, and the recursive rendering of the element tree.

use crate::commands::{render_command, Command};
use crate::environment::{render_environment, write_environment, Environment};
use crate::equations::{render_align, Align};
use crate::lists::{render_list, write_list, List};
use crate::section::{
    render_sectioning, write_sectioning, Chapter, Container, Paragraph, Part, Section,
    Subparagraph, Subsection, Subsubsection,
};
use crate::text::{render_text_elements, Text};
use crate::{render_comma_joined, write_comma_joined, Writable};
use vstd::prelude::*;
use vstd::string::StringExecFns;

verus! {

/// The major elements in a `Document`: one variant per possible node kind,
/// dispatched by exhaustive matching.
#[derive(Debug, PartialEq)]
pub enum Element {
    /// A part: a sectioning element one level above a chapter.
    Part(Part),
    /// A chapter: a sectioning element one level above a section.
    Chapter(Chapter),
    /// A section.
    Section(Section),
    /// A subsection.
    Subsection(Subsection),
    /// A subsubsection.
    Subsubsection(Subsubsection),
    /// A paragraph heading.
    Paragraph(Paragraph),
    /// A subparagraph heading.
    Subparagraph(Subparagraph),
    /// A bare text run.
    Text(Text),
    /// A transparent container of elements, with no formatting of its own.
    Container(Container),
    /// A one-line command.
    Command(Command),
    /// An `align` block of equations.
    Align(Align),
    /// A generic environment and its children.
    Environment(Environment),
    /// An escape hatch: a raw string emitted unchanged on its own line.
    UserDefined(String),
    /// A list.
    List(List),
    /// An `\input{...}` directive for including another file.
    Input(String),
}

/// The exact text an `Element` renders to.
pub open spec fn render_element(e: Element) -> Seq<char>
    decreases e, 2int,
{
    match e {
        Element::Part(s) => render_sectioning("part"@, s.numbered, s.toc_title, s.name, s.elements@),
        Element::Chapter(s) => render_sectioning(
            "chapter"@,
            s.numbered,
            s.toc_title,
            s.name,
            s.elements@,
        ),
        Element::Section(s) => render_sectioning(
            "section"@,
            s.numbered,
            s.toc_title,
            s.name,
            s.elements@,
        ),
        Element::Subsection(s) => render_sectioning(
            "subsection"@,
            s.numbered,
            s.toc_title,
            s.name,
            s.elements@,
        ),
        Element::Subsubsection(s) => render_sectioning(
            "subsubsection"@,
            s.numbered,
            s.toc_title,
            s.name,
            s.elements@,
        ),
        Element::Paragraph(s) => render_sectioning(
            "paragraph"@,
            s.numbered,
            s.toc_title,
            s.name,
            s.elements@,
        ),
        Element::Subparagraph(s) => render_sectioning(
            "subparagraph"@,
            s.numbered,
            s.toc_title,
            s.name,
            s.elements@,
        ),
        Element::Text(t) => render_text_elements(t.elements@),
        Element::Container(c) => render_elements(c.elements@),
        Element::Command(c) => render_command(c),
        Element::Align(a) => render_align(a),
        Element::Environment(env) => render_environment(env),
        Element::UserDefined(s) => s@ + "\n"@,
        Element::List(l) => render_list(l),
        Element::Input(s) => "\\input{"@ + s@ + "}"@ + "\n"@,
    }
}

/// The exact text of a sequence of elements rendered one after the other,
/// with no separators.
pub open spec fn render_elements(s: Seq<Element>) -> Seq<char>
    decreases s, 3int,
{
    if s.len() == 0 {
        Seq::empty()
    } else {
        render_elements(s.drop_last()) + render_element(s.last())
    }
}

pub(crate) fn write_element(e: &Element, out: &mut String)
    ensures
        final(out)@ == old(out)@ + render_element(*e),
    decreases *e, 2int,
{
    match e {
        Element::Part(s) => write_sectioning(
            "part",
            s.numbered,
            &s.toc_title,
            &s.name,
            &s.elements,
            out,
        ),
        Element::Chapter(s) => write_sectioning(
            "chapter",
            s.numbered,
            &s.toc_title,
            &s.name,
            &s.elements,
            out,
        ),
        Element::Section(s) => write_sectioning(
            "section",
            s.numbered,
            &s.toc_title,
            &s.name,
            &s.elements,
            out,
        ),
        Element::Subsection(s) => write_sectioning(
            "subsection",
            s.numbered,
            &s.toc_title,
            &s.name,
            &s.elements,
            out,
        ),
        Element::Subsubsection(s) => write_sectioning(
            "subsubsection",
            s.numbered,
            &s.toc_title,
            &s.name,
            &s.elements,
            out,
        ),
        Element::Paragraph(s) => write_sectioning(
            "paragraph",
            s.numbered,
            &s.toc_title,
            &s.name,
            &s.elements,
            out,
        ),
        Element::Subparagraph(s) => write_sectioning(
            "subparagraph",
            s.numbered,
            &s.toc_title,
            &s.name,
            &s.elements,
            out,
        ),
        Element::Text(t) => t.write_to(out),
        Element::Container(c) => write_elements(&c.elements, out),
        Element::Command(c) => c.write_to(out),
        Element::Align(a) => a.write_to(out),
        Element::Environment(env) => write_environment(env, out),
        Element::UserDefined(s) => {
            out.append(s.as_str());
            out.append("\n");
        }
        Element::List(l) => write_list(l, out),
        Element::Input(s) => {
            out.append("\\input{");
            out.append(s.as_str());
            out.append("}");
            out.append("\n");
        }
    }
}

#[verifier::loop_isolation(false)]
pub(crate) fn write_elements(elems: &Vec<Element>, out: &mut String)
    ensures
        final(out)@ == old(out)@ + render_elements(elems@),
    decreases elems@, 3int,
{
    let ghost out0 = out@;
    let n: usize = elems.len();
    let mut i: usize = 0;
    while i < n
        invariant
            i <= n,
            out@ == out0 + render_elements(elems@.take(i as int)),
        decreases n - i,
    {
        write_element(&elems[i], out);
        proof {
            assert(elems@.take(i as int + 1).drop_last() =~= elems@.take(i as int));
            assert(out@ =~= out0 + render_elements(elems@.take(i as int + 1)));
        }
        i = i + 1;
    }
    proof {
        assert(elems@.take(n as int) =~= elems@);
    }
}

impl Writable for Element {
    open spec fn rendered(&self) -> Seq<char> {
        render_element(*self)
    }

    fn write_to(&self, writer: &mut String) {
        write_element(self, writer);
    }
}

/// The kind of document being generated.
#[derive(Debug, PartialEq)]
pub enum DocumentClass {
    /// The `article` class.
    Article,
    /// The `book` class.
    Book,
    /// The `report` class.
    Report,
    /// A partial document: it comes without wrapping declaration and
    /// begin/end markers and is intended to be included in another
    /// document.
    Part,
    /// Any other class, by name.
    Other(String),
}

/// The class name emitted in the class declaration line.
pub open spec fn class_name(c: DocumentClass) -> Seq<char> {
    match c {
        DocumentClass::Article => "article"@,
        DocumentClass::Book => "book"@,
        DocumentClass::Report => "report"@,
        DocumentClass::Part => Seq::empty(),
        DocumentClass::Other(s) => s@,
    }
}

impl Clone for DocumentClass {
    fn clone(&self) -> (r: Self)
        ensures
            r == *self,
    {
        match self {
            DocumentClass::Article => DocumentClass::Article,
            DocumentClass::Book => DocumentClass::Book,
            DocumentClass::Report => DocumentClass::Report,
            DocumentClass::Part => DocumentClass::Part,
            DocumentClass::Other(s) => DocumentClass::Other(s.clone()),
        }
    }
}

/// An element of the document's preamble.
#[derive(Debug, PartialEq)]
pub enum PreambleElement {
    /// Use a package, with an optional bracket argument.
    UsePackage {
        /// The package name.
        package: String,
        /// The optional bracket argument.
        argument: Option<String>,
    },
    /// A `\newcommand` definition.
    NewCommand {
        /// The name of the new command, without the backslash.
        name: String,
        /// The optional number of arguments.
        args_num: Option<usize>,
        /// The optional default argument.
        default_arg: Option<String>,
        /// The body of the definition.
        definition: String,
    },
    /// An escape hatch for including an arbitrary line in a preamble.
    UserDefined(String),
}

/// The decimal digit character for `d` in `0..=9`.
pub open spec fn decimal_digit(d: nat) -> char {
    if d == 0 {
        '0'
    } else if d == 1 {
        '1'
    } else if d == 2 {
        '2'
    } else if d == 3 {
        '3'
    } else if d == 4 {
        '4'
    } else if d == 5 {
        '5'
    } else if d == 6 {
        '6'
    } else if d == 7 {
        '7'
    } else if d == 8 {
        '8'
    } else {
        '9'
    }
}

/// The decimal representation of `n`, most significant digit first, with
/// no leading zeros (a single zero for `n == 0`).
pub open spec fn render_decimal(n: nat) -> Seq<char>
    decreases n,
{
    if n < 10 {
        seq![decimal_digit(n)]
    } else {
        render_decimal(n / 10) + seq![decimal_digit(n % 10)]
    }
}

fn push_digit(out: &mut String, d: usize)
    requires
        d < 10,
    ensures
        final(out)@ == old(out)@ + seq![decimal_digit(d as nat)],
{
    if d == 0 {
        out.append("0");
        proof {
            reveal_strlit("0");
            assert(out@ =~= old(out)@ + seq![decimal_digit(d as nat)]);
        }
    } else if d == 1 {
        out.append("1");
        proof {
            reveal_strlit("1");
            assert(out@ =~= old(out)@ + seq![decimal_digit(d as nat)]);
        }
    } else if d == 2 {
        out.append("2");
        proof {
            reveal_strlit("2");
            assert(out@ =~= old(out)@ + seq![decimal_digit(d as nat)]);
        }
    } else if d == 3 {
        out.append("3");
        proof {
            reveal_strlit("3");
            assert(out@ =~= old(out)@ + seq![decimal_digit(d as nat)]);
        }
    } else if d == 4 {
        out.append("4");
        proof {
            reveal_strlit("4");
            assert(out@ =~= old(out)@ + seq![decimal_digit(d as nat)]);
        }
    } else if d == 5 {
        out.append("5");
        proof {
            reveal_strlit("5");
            assert(out@ =~= old(out)@ + seq![decimal_digit(d as nat)]);
        }
    } else if d == 6 {
        out.append("6");
        proof {
            reveal_strlit("6");
            assert(out@ =~= old(out)@ + seq![decimal_digit(d as nat)]);
        }
    } else if d == 7 {
        out.append("7");
        proof {
            reveal_strlit("7");
            assert(out@ =~= old(out)@ + seq![decimal_digit(d as nat)]);
        }
    } else if d == 8 {
        out.append("8");
        proof {
            reveal_strlit("8");
            assert(out@ =~= old(out)@ + seq![decimal_digit(d as nat)]);
        }
    } else {
        out.append("9");
        proof {
            reveal_strlit("9");
            assert(out@ =~= old(out)@ + seq![decimal_digit(d as nat)]);
        }
    }
}

fn push_decimal(out: &mut String, n: usize)
    ensures
        final(out)@ == old(out)@ + render_decimal(n as nat),
    decreases n,
{
    if n >= 10 {
        push_decimal(out, n / 10);
    }
    push_digit(out, n % 10);
    assert(out@ =~= old(out)@ + render_decimal(n as nat));
}

/// The exact text one preamble element renders to.
pub open spec fn render_preamble_element(p: PreambleElement) -> Seq<char> {
    match p {
        PreambleElement::UsePackage { package, argument } => match argument {
            None => "\\usepackage{"@ + package@ + "}"@ + "\n"@,
            Some(arg) => "\\usepackage["@ + arg@ + "]{"@ + package@ + "}"@ + "\n"@,
        },
        PreambleElement::NewCommand { name, args_num, default_arg, definition } => "\\newcommand{\\"@
            + name@ + "}"@ + (match args_num {
            Some(num) => "["@ + render_decimal(num as nat) + "]"@,
            None => Seq::empty(),
        }) + (match default_arg {
            Some(arg) => "["@ + arg@ + "]"@,
            None => Seq::empty(),
        }) + "{\n"@ + definition@ + "\n"@ + "}\n"@,
        PreambleElement::UserDefined(s) => s@ + "\n"@,
    }
}

/// The exact text of a sequence of preamble elements, in order.
pub open spec fn render_preamble_elements(s: Seq<PreambleElement>) -> Seq<char>
    decreases s,
{
    if s.len() == 0 {
        Seq::empty()
    } else {
        render_preamble_elements(s.drop_last()) + render_preamble_element(s.last())
    }
}

#[verifier::rlimit(30)]
fn write_preamble_element(p: &PreambleElement, out: &mut String)
    ensures
        final(out)@ == old(out)@ + render_preamble_element(*p),
{
    match p {
        PreambleElement::UsePackage { package, argument } => {
            match argument {
                None => {
                    out.append("\\usepackage{");
                    out.append(package.as_str());
                    out.append("}");
                    out.append("\n");
                }
                Some(arg) => {
                    out.append("\\usepackage[");
                    out.append(arg.as_str());
                    out.append("]{");
                    out.append(package.as_str());
                    out.append("}");
                    out.append("\n");
                }
            }
        }
        PreambleElement::NewCommand { name, args_num, default_arg, definition } => {
            out.append("\\newcommand{\\");
            out.append(name.as_str());
            out.append("}");
            match args_num {
                Some(num) => {
                    out.append("[");
                    push_decimal(out, *num);
                    out.append("]");
                }
                None => {}
            }
            match default_arg {
                Some(arg) => {
                    out.append("[");
                    out.append(arg.as_str());
                    out.append("]");
                }
                None => {}
            }
            out.append("{\n");
            out.append(definition.as_str());
            out.append("\n");
            out.append("}\n");
        }
        PreambleElement::UserDefined(s) => {
            out.append(s.as_str());
            out.append("\n");
        }
    }
    assert(out@ =~= old(out)@ + render_preamble_element(*p));
}

/// A node representing the document's preamble.
#[derive(Debug, PartialEq)]
pub struct Preamble {
    /// The document's author.
    pub author: Option<String>,
    /// An optional title for the document.
    pub title: Option<String>,
    /// The preamble's elements, in order.
    pub contents: Vec<PreambleElement>,
}

/// The exact text a `Preamble` renders to: its elements in order, then —
/// only if it has elements and a title or author is set — exactly one
/// blank line, then the title line and the author line, each only if set.
pub open spec fn render_preamble(p: Preamble) -> Seq<char> {
    render_preamble_elements(p.contents@) + (if p.contents@.len() > 0 && (p.title is Some
        || p.author is Some) {
        "\n"@
    } else {
        Seq::empty()
    }) + (match p.title {
        Some(t) => "\\title{"@ + t@ + "}"@ + "\n"@,
        None => Seq::empty(),
    }) + (match p.author {
        Some(a) => "\\author{"@ + a@ + "}"@ + "\n"@,
        None => Seq::empty(),
    })
}

impl Preamble {
    /// Create an empty preamble with no title and no author.
    pub fn new() -> (r: Self)
        ensures
            r.author is None,
            r.title is None,
            r.contents@.len() == 0,
    {
        Preamble { author: None, title: None, contents: Vec::new() }
    }

    /// Set the document's author.
    pub fn author(&mut self, name: &str)
        ensures
            final(self).author matches Some(a) && a@ == name@,
            final(self).title == old(self).title,
            final(self).contents == old(self).contents,
    {
        self.author = Some(name.to_owned());
    }

    /// Set the document's title.
    pub fn title(&mut self, name: &str)
        ensures
            final(self).title matches Some(t) && t@ == name@,
            final(self).author == old(self).author,
            final(self).contents == old(self).contents,
    {
        self.title = Some(name.to_owned());
    }

    /// Add a package import, without an argument, to the preamble.
    pub fn use_package(&mut self, name: &str)
        ensures
            final(self).contents@.len() == old(self).contents@.len() + 1,
            final(self).contents@.drop_last() == old(self).contents@,
            final(self).contents@.last() matches PreambleElement::UsePackage {
                package,
                argument,
            } && package@ == name@ && argument is None,
            final(self).author == old(self).author,
            final(self).title == old(self).title,
    {
        self.contents.push(
            PreambleElement::UsePackage { package: name.to_owned(), argument: None },
        );
        proof {
            assert(self.contents@.drop_last() =~= old(self).contents@);
        }
    }

    /// Add the most common form of a `\newcommand` definition: a name, a
    /// number of arguments and a body, with no default argument. For the
    /// other forms, use `push`.
    pub fn new_command(&mut self, name: &str, args_num: usize, definition: &str)
        ensures
            final(self).contents@.len() == old(self).contents@.len() + 1,
            final(self).contents@.drop_last() == old(self).contents@,
            final(self).contents@.last() matches PreambleElement::NewCommand {
                name: n,
                args_num: a,
                default_arg: d,
                definition: body,
            } && n@ == name@ && a == Some(args_num) && d is None && body@ == definition@,
            final(self).author == old(self).author,
            final(self).title == old(self).title,
    {
        self.contents.push(
            PreambleElement::NewCommand {
                name: name.to_owned(),
                args_num: Some(args_num),
                default_arg: None,
                definition: definition.to_owned(),
            },
        );
        proof {
            assert(self.contents@.drop_last() =~= old(self).contents@);
        }
    }

    /// Iterate over the elements in this preamble.
    pub fn iter<'a>(&'a self) -> (r: std::slice::Iter<'a, PreambleElement>)
        ensures
            vstd::std_specs::iter::IteratorSpec::remaining(&r) == self.contents@.as_ref(),
    {
        let s: &[PreambleElement] = self.contents.as_slice();
        s.iter()
    }

    /// Is the preamble free of elements?
    pub fn is_empty(&self) -> (r: bool)
        ensures
            r == (self.contents@.len() == 0),
    {
        self.contents.len() == 0
    }

    /// Add a `PreambleElement` to the preamble.
    pub fn push(&mut self, element: PreambleElement)
        ensures
            final(self).contents@ == old(self).contents@.push(element),
            final(self).author == old(self).author,
            final(self).title == old(self).title,
    {
        self.contents.push(element);
    }
}

impl Writable for Preamble {
    open spec fn rendered(&self) -> Seq<char> {
        render_preamble(*self)
    }

    fn write_to(&self, writer: &mut String) {
        let ghost out0 = writer@;
        let n: usize = self.contents.len();
        let mut i: usize = 0;
        while i < n
            invariant
                i <= n,
                n == self.contents@.len(),
                writer@ == out0 + render_preamble_elements(self.contents@.take(i as int)),
            decreases n - i,
        {
            write_preamble_element(&self.contents[i], writer);
            proof {
                assert(self.contents@.take(i as int + 1).drop_last() =~= self.contents@.take(
                    i as int,
                ));
                assert(writer@ =~= out0 + render_preamble_elements(
                    self.contents@.take(i as int + 1),
                ));
            }
            i = i + 1;
        }
        proof {
            assert(self.contents@.take(n as int) =~= self.contents@);
        }
        if self.contents.len() > 0 && (self.title.is_some() || self.author.is_some()) {
            writer.append("\n");
        }
        match &self.title {
            Some(t) => {
                writer.append("\\title{");
                writer.append(t.as_str());
                writer.append("}");
                writer.append("\n");
            }
            None => {}
        }
        match &self.author {
            Some(a) => {
                writer.append("\\author{");
                writer.append(a.as_str());
                writer.append("}");
                writer.append("\n");
            }
            None => {}
        }
        assert(writer@ =~= old(writer)@ + render_preamble(*self));
    }
}

/// The root document node.
#[derive(Debug, PartialEq)]
pub struct Document {
    /// The document class.
    pub class: DocumentClass,
    /// The document's preamble.
    pub preamble: Preamble,
    /// Document class arguments, like `12pt` or `a4paper`; emitted
    /// comma-joined in the class declaration's bracket group.
    pub arguments: Vec<String>,
    /// The elements inside this document, in order.
    pub elements: Vec<Element>,
}

/// The exact text a `Document` renders to.
///
/// A document of class `Part` is a bare fragment: only its elements, in
/// order. Any other document is the class declaration line, the preamble,
/// the document-begin line, the elements in order, and the document-end
/// line, with no blank lines between the wrapper lines.
pub open spec fn render_document(d: Document) -> Seq<char> {
    if d.class is Part {
        render_elements(d.elements@)
    } else {
        "\\documentclass["@ + render_comma_joined(d.arguments@) + "]{"@ + class_name(d.class)
            + "}"@ + "\n"@ + render_preamble(d.preamble) + "\\begin{document}\n"@ + render_elements(
            d.elements@,
        ) + "\\end{document}\n"@
    }
}

impl Document {
    /// Create a new `Document` with the specified class, an empty preamble
    /// and no elements.
    pub fn new(document_class: DocumentClass) -> (r: Self)
        ensures
            r.class == document_class,
            r.preamble.author is None,
            r.preamble.title is None,
            r.preamble.contents@.len() == 0,
            r.arguments@.len() == 0,
            r.elements@.len() == 0,
    {
        Document {
            class: document_class,
            preamble: Preamble::new(),
            arguments: Vec::new(),
            elements: Vec::new(),
        }
    }

    /// Add an element to the document.
    pub fn push(&mut self, element: Element)
        ensures
            final(self).elements@ == old(self).elements@.push(element),
            final(self).class == old(self).class,
            final(self).preamble == old(self).preamble,
            final(self).arguments == old(self).arguments,
    {
        self.elements.push(element);
    }
}

/// For any document whose class is not `Part`, the rendering begins with
/// the class-declaration line — the comma-joined arguments in brackets and
/// the class name in braces — and ends with the document-end marker line.
pub proof fn lemma_full_document_markers(d: Document)
    requires
        !(d.class is Part),
    ensures
        ({
            let decl = "\\documentclass["@ + render_comma_joined(d.arguments@) + "]{"@
                + class_name(d.class) + "}"@ + "\n"@;
            render_document(d).take(decl.len() as int) == decl
        }),
        ({
            let end = "\\end{document}\n"@;
            render_document(d).skip(render_document(d).len() - end.len()) == end
        }),
{
    let decl = "\\documentclass["@ + render_comma_joined(d.arguments@) + "]{"@ + class_name(d.class)
        + "}"@ + "\n"@;
    let end = "\\end{document}\n"@;
    let r = render_document(d);
    assert(r == decl + render_preamble(d.preamble) + "\\begin{document}\n"@ + render_elements(
        d.elements@,
    ) + end);
    assert(r.take(decl.len() as int) =~= decl);
    assert(r.skip(r.len() - end.len()) =~= end);
}

/// A document of class `Part` renders as a bare fragment: exactly its
/// elements' renders concatenated, with no class declaration and no
/// document begin or end markers.
pub proof fn lemma_part_document_fragment(d: Document)
    requires
        d.class is Part,
    ensures
        render_document(d) == render_elements(d.elements@),
{
}

/// Rendering is deterministic and reads the tree only: every rendering of
/// a document is the one sequence `render_document` gives, so any two
/// renderings of the same document are equal. That rendering never
/// mutates the tree is carried by the types: every `write_to` takes the
/// node by shared reference.
pub proof fn lemma_render_deterministic(d: Document, r1: Seq<char>, r2: Seq<char>)
    requires
        r1 == render_document(d),
        r2 == render_document(d),
    ensures
        r1 == r2,
{
}

impl Writable for Document {
    open spec fn rendered(&self) -> Seq<char> {
        render_document(*self)
    }

    fn write_to(&self, writer: &mut String) {
        match &self.class {
            DocumentClass::Part => {
                write_elements(&self.elements, writer);
            }
            _ => {
                writer.append("\\documentclass[");
                write_comma_joined(&self.arguments, writer);
                writer.append("]{");
                match &self.class {
                    DocumentClass::Article => writer.append("article"),
                    DocumentClass::Book => writer.append("book"),
                    DocumentClass::Report => writer.append("report"),
                    DocumentClass::Part => {}
                    DocumentClass::Other(s) => writer.append(s.as_str()),
                }
                writer.append("}");
                writer.append("\n");
                self.preamble.write_to(writer);
                writer.append("\\begin{document}\n");
                write_elements(&self.elements, writer);
                writer.append("\\end{document}\n");
                assert(writer@ =~= old(writer)@ + render_document(*self));
            }
        }
    }
}


/// Sequences of elements that render pointwise-equal render equal as a
/// whole, with no separators.
pub proof fn lemma_render_elements_pointwise(a: Seq<Element>, b: Seq<Element>)
    requires
        a.len() == b.len(),
        forall|i: int|
            0 <= i < a.len() ==> render_element(#[trigger] a[i]) == render_element(#[trigger] b[i]),
    ensures
        render_elements(a) == render_elements(b),
    decreases a,
{
    if a.len() > 0 {
        assert forall|i: int| 0 <= i < a.drop_last().len() implies render_element(
            #[trigger] a.drop_last()[i],
        ) == render_element(#[trigger] b.drop_last()[i]) by {
            assert(a.drop_last()[i] == a[i]);
            assert(b.drop_last()[i] == b[i]);
        }
        lemma_render_elements_pointwise(a.drop_last(), b.drop_last());
        assert(a.last() == a[a.len() - 1]);
        assert(b.last() == b[b.len() - 1]);
        assert(render_elements(a) =~= render_elements(b));
    } else {
        assert(render_elements(a) =~= render_elements(b));
    }
}

/// Clone every element of a vector; each clone renders as its original.
#[verifier::loop_isolation(false)]
pub(crate) fn clone_elements(elems: &Vec<Element>) -> (r: Vec<Element>)
    ensures
        r@.len() == elems@.len(),
        forall|i: int|
            0 <= i < elems@.len() ==> render_element(#[trigger] r@[i]) == render_element(
                #[trigger] elems@[i],
            ),
    decreases elems@,
{
    let mut r: Vec<Element> = Vec::new();
    let n: usize = elems.len();
    let mut i: usize = 0;
    while i < n
        invariant
            i <= n,
            r@.len() == i,
            forall|j: int|
                0 <= j < i ==> render_element(#[trigger] r@[j]) == render_element(
                    #[trigger] elems@[j],
                ),
        decreases n - i,
    {
        r.push(elems[i].clone());
        i = i + 1;
    }
    r
}

impl Clone for Element {
    /// Clone the element; the clone renders as the original.
    fn clone(&self) -> (r: Self)
        ensures
            render_element(r) == render_element(*self),
        decreases *self,
    {
        match self {
            Element::Part(s) => Element::Part(s.clone()),
            Element::Chapter(s) => Element::Chapter(s.clone()),
            Element::Section(s) => Element::Section(s.clone()),
            Element::Subsection(s) => Element::Subsection(s.clone()),
            Element::Subsubsection(s) => Element::Subsubsection(s.clone()),
            Element::Paragraph(s) => Element::Paragraph(s.clone()),
            Element::Subparagraph(s) => Element::Subparagraph(s.clone()),
            Element::Text(t) => Element::Text(t.clone()),
            Element::Container(c) => Element::Container(c.clone()),
            Element::Command(c) => Element::Command(c.clone()),
            Element::Align(a) => Element::Align(a.clone()),
            Element::Environment(env) => Element::Environment(env.clone()),
            Element::UserDefined(s) => Element::UserDefined(s.clone()),
            Element::List(l) => Element::List(l.clone()),
            Element::Input(s) => Element::Input(s.clone()),
        }
    }
}

impl Clone for PreambleElement {
    fn clone(&self) -> (r: Self)
        ensures
            r == *self,
    {
        match self {
            PreambleElement::UsePackage { package, argument } => PreambleElement::UsePackage {
                package: package.clone(),
                argument: match argument {
                    Some(a) => Some(a.clone()),
                    None => None,
                },
            },
            PreambleElement::NewCommand { name, args_num, default_arg, definition } => {
                PreambleElement::NewCommand {
                    name: name.clone(),
                    args_num: *args_num,
                    default_arg: match default_arg {
                        Some(a) => Some(a.clone()),
                        None => None,
                    },
                    definition: definition.clone(),
                }
            }
            PreambleElement::UserDefined(s) => PreambleElement::UserDefined(s.clone()),
        }
    }
}

impl Clone for Preamble {
    fn clone(&self) -> (r: Self)
        ensures
            r.author == self.author,
            r.title == self.title,
            r.contents@ == self.contents@,
    {
        let r = Preamble {
            author: match &self.author {
                Some(a) => Some(a.clone()),
                None => None,
            },
            title: match &self.title {
                Some(t) => Some(t.clone()),
                None => None,
            },
            contents: self.contents.clone(),
        };
        proof {
            assert(r.contents@ =~= self.contents@);
        }
        r
    }
}

impl Clone for Document {
    /// Clone the document; the clone renders as the original, and its
    /// class, arguments and preamble equal the original's.
    fn clone(&self) -> (r: Self)
        ensures
            r.class == self.class,
            r.arguments@ == self.arguments@,
            r.preamble.author == self.preamble.author,
            r.preamble.title == self.preamble.title,
            r.preamble.contents@ == self.preamble.contents@,
            render_document(r) == render_document(*self),
    {
        let r = Document {
            class: self.class.clone(),
            preamble: self.preamble.clone(),
            arguments: self.arguments.clone(),
            elements: clone_elements(&self.elements),
        };
        proof {
            assert(r.arguments@ =~= self.arguments@);
            lemma_render_elements_pointwise(r.elements@, self.elements@);
            assert(render_preamble(r.preamble) =~= render_preamble(self.preamble));
            assert(render_document(r) =~= render_document(*self));
        }
        r
    }
}

impl Document {
    /// Iterate over the elements in this document.
    pub fn iter<'a>(&'a self) -> (r: std::slice::Iter<'a, Element>)
        ensures
            vstd::std_specs::iter::IteratorSpec::remaining(&r) == self.elements@.as_ref(),
    {
        let s: &[Element] = self.elements.as_slice();
        s.iter()
    }

    /// Include one document into another by cloning its nodes: every
    /// element of `doc`, in order, is appended to `self`, and each
    /// appended element renders as the element it was cloned from.
    pub fn push_doc(&mut self, doc: &Document)
        ensures
            final(self).class == old(self).class,
            final(self).preamble == old(self).preamble,
            final(self).arguments == old(self).arguments,
            final(self).elements@.len() == old(self).elements@.len() + doc.elements@.len(),
            final(self).elements@.take(old(self).elements@.len() as int) == old(self).elements@,
            forall|i: int|
                0 <= i < doc.elements@.len() ==> render_element(
                    #[trigger] final(self).elements@[old(self).elements@.len() + i],
                ) == render_element(#[trigger] doc.elements@[i]),
    {
        let n: usize = doc.elements.len();
        let ghost len0 = self.elements@.len();
        let mut i: usize = 0;
        while i < n
            invariant
                i <= n,
                n == doc.elements@.len(),
                self.class == old(self).class,
                self.preamble == old(self).preamble,
                self.arguments == old(self).arguments,
                self.elements@.len() == len0 + i,
                self.elements@.take(len0 as int) == old(self).elements@,
                len0 == old(self).elements@.len(),
                forall|j: int|
                    0 <= j < i ==> render_element(#[trigger] self.elements@[len0 + j])
                        == render_element(#[trigger] doc.elements@[j]),
            decreases n - i,
        {
            let e = doc.elements[i].clone();
            self.elements.push(e);
            proof {
                assert(self.elements@.take(len0 as int) =~= old(self).elements@);
            }
            i = i + 1;
        }
    }
}


impl From<Text> for Element {
    fn from(other: Text) -> (r: Element) {
        Element::Text(other)
    }
}

impl vstd::std_specs::convert::FromSpecImpl<Text> for Element {
    open spec fn obeys_from_spec() -> bool {
        true
    }

    open spec fn from_spec(v: Text) -> Element {
        Element::Text(v)
    }
}

impl From<Section> for Element {
    fn from(other: Section) -> (r: Element) {
        Element::Section(other)
    }
}

impl vstd::std_specs::convert::FromSpecImpl<Section> for Element {
    open spec fn obeys_from_spec() -> bool {
        true
    }

    open spec fn from_spec(v: Section) -> Element {
        Element::Section(v)
    }
}

impl From<Command> for Element {
    fn from(other: Command) -> (r: Element) {
        Element::Command(other)
    }
}

impl vstd::std_specs::convert::FromSpecImpl<Command> for Element {
    open spec fn obeys_from_spec() -> bool {
        true
    }

    open spec fn from_spec(v: Command) -> Element {
        Element::Command(v)
    }
}

impl From<Align> for Element {
    fn from(other: Align) -> (r: Element) {
        Element::Align(other)
    }
}

impl vstd::std_specs::convert::FromSpecImpl<Align> for Element {
    open spec fn obeys_from_spec() -> bool {
        true
    }

    open spec fn from_spec(v: Align) -> Element {
        Element::Align(v)
    }
}

impl From<Environment> for Element {
    fn from(other: Environment) -> (r: Element) {
        Element::Environment(other)
    }
}

impl vstd::std_specs::convert::FromSpecImpl<Environment> for Element {
    open spec fn obeys_from_spec() -> bool {
        true
    }

    open spec fn from_spec(v: Environment) -> Element {
        Element::Environment(v)
    }
}

impl From<List> for Element {
    fn from(other: List) -> (r: Element) {
        Element::List(other)
    }
}

impl vstd::std_specs::convert::FromSpecImpl<List> for Element {
    open spec fn obeys_from_spec() -> bool {
        true
    }

    open spec fn from_spec(v: List) -> Element {
        Element::List(v)
    }
}


impl<'a> From<&'a str> for Element {
    /// Convert a raw string into a plain text element.
    fn from(other: &'a str) -> (r: Element) {
        Element::Text(crate::text::text_from_str(other))
    }
}

impl<'a> vstd::std_specs::convert::FromSpecImpl<&'a str> for Element {
    open spec fn obeys_from_spec() -> bool {
        false
    }

    open spec fn from_spec(v: &'a str) -> Element {
        Element::Text(choose|t: Text| crate::text::is_plain_text(t, v@))
    }
}

} // verus!
