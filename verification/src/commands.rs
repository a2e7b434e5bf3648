//! One-line commands: bare directives such as `\tableofcontents`, and
//! parameterized commands such as `\label`, `\cite` and `\framebox`.
//!
//! Every command renders as a single line: the backslashed keyword, then
//! one formatting unit per field in declared order, then a line break.

use crate::text::{render_text_elements, Text};
use crate::Writable;
use vstd::prelude::*;
use vstd::string::StringExecFns;

verus! {

/// The result of `str::to_lowercase` on the given characters; the result
/// depends on the characters alone.
pub uninterp spec fn lower_of(s: Seq<char>) -> Seq<char>;

/// Relies on str::to_lowercase: returns the Unicode lowercase mapping of
/// the string, a function of the characters alone.
#[verifier::external_body]
fn lowercase(s: &str) -> (r: String)
    ensures
        r@ == lower_of(s@),
{
    s.to_lowercase()
}

/// A `\label{...}` command.
#[derive(Debug, PartialEq)]
pub struct Label {
    /// The label text.
    pub label: String,
}

/// The exact text a `Label` renders to.
pub open spec fn render_label(c: Label) -> Seq<char> {
    "\\label"@ + "{"@ + c.label@ + "}"@ + "\n"@
}

/// A `\ref{...}` command.
#[derive(Debug, PartialEq)]
pub struct Ref {
    /// The referenced label text.
    pub text: String,
}

/// The exact text a `Ref` renders to.
pub open spec fn render_ref(c: Ref) -> Seq<char> {
    "\\ref"@ + "{"@ + c.text@ + "}"@ + "\n"@
}

/// A `\bibitem{...}` command followed by the item's text.
#[derive(Debug, PartialEq)]
pub struct Bibitem {
    /// The text of the bibliography item.
    pub text: Text,
    /// The citation key.
    pub cite: String,
}

/// The exact text a `Bibitem` renders to: the braced citation key, then
/// the item's text bare.
pub open spec fn render_bibitem(c: Bibitem) -> Seq<char> {
    "\\bibitem"@ + "{"@ + c.cite@ + "}"@ + render_text_elements(c.text.elements@) + "\n"@
}

/// A `\bibliographystyle{...}` command.
#[derive(Debug, PartialEq)]
pub struct Bibliographystyle {
    /// The style name.
    pub style: String,
}

/// The exact text a `Bibliographystyle` renders to.
pub open spec fn render_bibliographystyle(c: Bibliographystyle) -> Seq<char> {
    "\\bibliographystyle"@ + "{"@ + c.style@ + "}"@ + "\n"@
}

/// A `\bibliography{...}` command.
#[derive(Debug, PartialEq)]
pub struct Bibliography {
    /// The bibliography file name.
    pub file: String,
}

/// The exact text a `Bibliography` renders to.
pub open spec fn render_bibliography(c: Bibliography) -> Seq<char> {
    "\\bibliography"@ + "{"@ + c.file@ + "}"@ + "\n"@
}

/// A `\cite[...]{...}` command with an optional sub-citation.
#[derive(Debug, PartialEq)]
pub struct Cite {
    /// The citation key.
    pub reference: String,
    /// An optional sub-citation, emitted in brackets when present.
    pub subcit: Option<Text>,
}

/// The exact text a `Cite` renders to: the bracketed sub-citation only if
/// one is present, then the braced citation key.
pub open spec fn render_cite(c: Cite) -> Seq<char> {
    "\\cite"@ + (match c.subcit {
        Some(t) => "["@ + render_text_elements(t.elements@) + "]"@,
        None => Seq::empty(),
    }) + "{"@ + c.reference@ + "}"@ + "\n"@
}

/// A `\framebox[...][...]{...}` command.
#[derive(Debug, PartialEq)]
pub struct Framebox {
    /// The text inside the box.
    pub text: Text,
    /// Optional size of the box, emitted in brackets when present.
    pub size: Option<String>,
    /// Optional position of the contents, emitted in brackets when present.
    pub pos: Option<String>,
}

/// The exact text a `Framebox` renders to: the size bracket, then the
/// position bracket (each only if present), then the mandatory braced text.
pub open spec fn render_framebox(c: Framebox) -> Seq<char> {
    "\\framebox"@ + (match c.size {
        Some(s) => "["@ + s@ + "]"@,
        None => Seq::empty(),
    }) + (match c.pos {
        Some(p) => "["@ + p@ + "]"@,
        None => Seq::empty(),
    }) + "{"@ + render_text_elements(c.text.elements@) + "}"@ + "\n"@
}

/// A one-line command: either a parameterized command or a bare directive.
#[derive(Debug, PartialEq)]
pub enum Command {
    /// A `\label{...}` command.
    Label(Label),
    /// A `\ref{...}` command.
    Ref(Ref),
    /// A `\bibitem{...}` command.
    Bibitem(Bibitem),
    /// A `\bibliographystyle{...}` command.
    Bibliographystyle(Bibliographystyle),
    /// A `\bibliography{...}` command.
    Bibliography(Bibliography),
    /// A `\cite[...]{...}` command.
    Cite(Cite),
    /// A `\framebox[...][...]{...}` command.
    Framebox(Framebox),
    /// The bare `\tableofcontents` directive.
    TableOfContents,
    /// The bare `\maketitle` directive.
    TitlePage,
    /// The bare `\clearpage` directive.
    ClearPage,
    /// The bare `\bigskip` directive.
    BigSkip,
    /// The bare `\newpage` directive.
    NewPage,
    /// The bare `\appendix` directive.
    Appendix,
}

/// The exact text a `Command` renders to.
pub open spec fn render_command(c: Command) -> Seq<char> {
    match c {
        Command::Label(inner) => render_label(inner),
        Command::Ref(inner) => render_ref(inner),
        Command::Bibitem(inner) => render_bibitem(inner),
        Command::Bibliographystyle(inner) => render_bibliographystyle(inner),
        Command::Bibliography(inner) => render_bibliography(inner),
        Command::Cite(inner) => render_cite(inner),
        Command::Framebox(inner) => render_framebox(inner),
        Command::TableOfContents => "\\tableofcontents\n"@,
        Command::TitlePage => "\\maketitle\n"@,
        Command::ClearPage => "\\clearpage\n"@,
        Command::BigSkip => "\\bigskip\n"@,
        Command::NewPage => "\\newpage\n"@,
        Command::Appendix => "\\appendix\n"@,
    }
}

impl Label {
    /// Create a new `\label` command.
    pub fn new(label: String) -> (r: Self)
        ensures
            r.label == label,
    {
        Label { label }
    }

    /// Generate a `Label` from `object_type` and `object_name`: the type,
    /// a colon, and the lowercased name.
    pub fn generate_default_label(object_type: &str, object_name: &str) -> (r: Label)
        ensures
            r.label@ == object_type@ + ":"@ + lower_of(object_name@),
    {
        let mut label = object_type.to_owned();
        label.append(":");
        let lowered = lowercase(object_name);
        label.append(lowered.as_str());
        Label::new(label)
    }

    /// Get the matching `\ref` command for this label.
    pub fn get_ref(&self) -> (r: Ref)
        ensures
            r.text == self.label,
    {
        Ref::new(self.label.clone())
    }
}

impl Ref {
    /// Create a new `\ref` command.
    pub fn new(text: String) -> (r: Self)
        ensures
            r.text == text,
    {
        Ref { text }
    }
}

impl Bibitem {
    /// Create a new `\bibitem` command.
    pub fn new(text: Text, cite: String) -> (r: Self)
        ensures
            r.text == text,
            r.cite == cite,
    {
        Bibitem { text, cite }
    }

    /// Get the matching `\cite` command for this item, with no
    /// sub-citation.
    pub fn get_ref(&self) -> (r: Cite)
        ensures
            r.reference == self.cite,
            r.subcit is None,
    {
        Cite::new(self.cite.clone(), None)
    }
}

impl Bibliographystyle {
    /// Create a new `\bibliographystyle` command.
    pub fn new(style: String) -> (r: Self)
        ensures
            r.style == style,
    {
        Bibliographystyle { style }
    }
}

impl Bibliography {
    /// Create a new `\bibliography` command.
    pub fn new(file: String) -> (r: Self)
        ensures
            r.file == file,
    {
        Bibliography { file }
    }
}

impl Cite {
    /// Create a new `\cite` command.
    pub fn new(reference: String, subcit: Option<Text>) -> (r: Self)
        ensures
            r.reference == reference,
            r.subcit == subcit,
    {
        Cite { reference, subcit }
    }
}

impl Framebox {
    /// Create a new `\framebox` command.
    pub fn new(text: Text, size: Option<String>, pos: Option<String>) -> (r: Self)
        ensures
            r.text == text,
            r.size == size,
            r.pos == pos,
    {
        Framebox { text, size, pos }
    }
}

impl Writable for Label {
    open spec fn rendered(&self) -> Seq<char> {
        render_label(*self)
    }

    fn write_to(&self, writer: &mut String) {
        writer.append("\\label");
        writer.append("{");
        writer.append(self.label.as_str());
        writer.append("}");
        writer.append("\n");
        assert(writer@ =~= old(writer)@ + render_label(*self));
    }
}

impl Writable for Ref {
    open spec fn rendered(&self) -> Seq<char> {
        render_ref(*self)
    }

    fn write_to(&self, writer: &mut String) {
        writer.append("\\ref");
        writer.append("{");
        writer.append(self.text.as_str());
        writer.append("}");
        writer.append("\n");
        assert(writer@ =~= old(writer)@ + render_ref(*self));
    }
}

impl Writable for Bibitem {
    open spec fn rendered(&self) -> Seq<char> {
        render_bibitem(*self)
    }

    fn write_to(&self, writer: &mut String) {
        writer.append("\\bibitem");
        writer.append("{");
        writer.append(self.cite.as_str());
        writer.append("}");
        self.text.write_to(writer);
        writer.append("\n");
        assert(writer@ =~= old(writer)@ + render_bibitem(*self));
    }
}

impl Writable for Bibliographystyle {
    open spec fn rendered(&self) -> Seq<char> {
        render_bibliographystyle(*self)
    }

    fn write_to(&self, writer: &mut String) {
        writer.append("\\bibliographystyle");
        writer.append("{");
        writer.append(self.style.as_str());
        writer.append("}");
        writer.append("\n");
        assert(writer@ =~= old(writer)@ + render_bibliographystyle(*self));
    }
}

impl Writable for Bibliography {
    open spec fn rendered(&self) -> Seq<char> {
        render_bibliography(*self)
    }

    fn write_to(&self, writer: &mut String) {
        writer.append("\\bibliography");
        writer.append("{");
        writer.append(self.file.as_str());
        writer.append("}");
        writer.append("\n");
        assert(writer@ =~= old(writer)@ + render_bibliography(*self));
    }
}

impl Writable for Cite {
    open spec fn rendered(&self) -> Seq<char> {
        render_cite(*self)
    }

    fn write_to(&self, writer: &mut String) {
        writer.append("\\cite");
        match &self.subcit {
            Some(t) => {
                writer.append("[");
                t.write_to(writer);
                writer.append("]");
            }
            None => {}
        }
        writer.append("{");
        writer.append(self.reference.as_str());
        writer.append("}");
        writer.append("\n");
        assert(writer@ =~= old(writer)@ + render_cite(*self));
    }
}

impl Writable for Framebox {
    open spec fn rendered(&self) -> Seq<char> {
        render_framebox(*self)
    }

    fn write_to(&self, writer: &mut String) {
        writer.append("\\framebox");
        match &self.size {
            Some(s) => {
                writer.append("[");
                writer.append(s.as_str());
                writer.append("]");
            }
            None => {}
        }
        match &self.pos {
            Some(p) => {
                writer.append("[");
                writer.append(p.as_str());
                writer.append("]");
            }
            None => {}
        }
        writer.append("{");
        self.text.write_to(writer);
        writer.append("}");
        writer.append("\n");
        assert(writer@ =~= old(writer)@ + render_framebox(*self));
    }
}

impl Writable for Command {
    open spec fn rendered(&self) -> Seq<char> {
        render_command(*self)
    }

    fn write_to(&self, writer: &mut String) {
        match self {
            Command::Label(inner) => inner.write_to(writer),
            Command::Ref(inner) => inner.write_to(writer),
            Command::Bibitem(inner) => inner.write_to(writer),
            Command::Bibliographystyle(inner) => inner.write_to(writer),
            Command::Bibliography(inner) => inner.write_to(writer),
            Command::Cite(inner) => inner.write_to(writer),
            Command::Framebox(inner) => inner.write_to(writer),
            Command::TableOfContents => writer.append("\\tableofcontents\n"),
            Command::TitlePage => writer.append("\\maketitle\n"),
            Command::ClearPage => writer.append("\\clearpage\n"),
            Command::BigSkip => writer.append("\\bigskip\n"),
            Command::NewPage => writer.append("\\newpage\n"),
            Command::Appendix => writer.append("\\appendix\n"),
        }
    }
}

impl Clone for Label {
    fn clone(&self) -> (r: Self)
        ensures
            r == *self,
    {
        Label { label: self.label.clone() }
    }
}

impl Clone for Ref {
    fn clone(&self) -> (r: Self)
        ensures
            r == *self,
    {
        Ref { text: self.text.clone() }
    }
}

impl Clone for Bibitem {
    fn clone(&self) -> (r: Self)
        ensures
            r.text.elements@ == self.text.elements@,
            r.cite == self.cite,
    {
        Bibitem { text: self.text.clone(), cite: self.cite.clone() }
    }
}

impl Clone for Bibliographystyle {
    fn clone(&self) -> (r: Self)
        ensures
            r == *self,
    {
        Bibliographystyle { style: self.style.clone() }
    }
}

impl Clone for Bibliography {
    fn clone(&self) -> (r: Self)
        ensures
            r == *self,
    {
        Bibliography { file: self.file.clone() }
    }
}

impl Clone for Cite {
    fn clone(&self) -> (r: Self)
        ensures
            r.reference == self.reference,
            render_cite(r) == render_cite(*self),
    {
        let r = Cite {
            reference: self.reference.clone(),
            subcit: match &self.subcit {
                Some(t) => Some(t.clone()),
                None => None,
            },
        };
        r
    }
}

impl Clone for Framebox {
    fn clone(&self) -> (r: Self)
        ensures
            r.size == self.size,
            r.pos == self.pos,
            render_framebox(r) == render_framebox(*self),
    {
        let r = Framebox {
            text: self.text.clone(),
            size: match &self.size {
                Some(s) => Some(s.clone()),
                None => None,
            },
            pos: match &self.pos {
                Some(p) => Some(p.clone()),
                None => None,
            },
        };
        r
    }
}

impl Clone for Command {
    fn clone(&self) -> (r: Self)
        ensures
            render_command(r) == render_command(*self),
    {
        match self {
            Command::Label(inner) => Command::Label(inner.clone()),
            Command::Ref(inner) => Command::Ref(inner.clone()),
            Command::Bibitem(inner) => Command::Bibitem(inner.clone()),
            Command::Bibliographystyle(inner) => Command::Bibliographystyle(inner.clone()),
            Command::Bibliography(inner) => Command::Bibliography(inner.clone()),
            Command::Cite(inner) => Command::Cite(inner.clone()),
            Command::Framebox(inner) => Command::Framebox(inner.clone()),
            Command::TableOfContents => Command::TableOfContents,
            Command::TitlePage => Command::TitlePage,
            Command::ClearPage => Command::ClearPage,
            Command::BigSkip => Command::BigSkip,
            Command::NewPage => Command::NewPage,
            Command::Appendix => Command::Appendix,
        }
    }
}


impl From<Ref> for Command {
    fn from(other: Ref) -> (r: Command) {
        Command::Ref(other)
    }
}

impl vstd::std_specs::convert::FromSpecImpl<Ref> for Command {
    open spec fn obeys_from_spec() -> bool {
        true
    }

    open spec fn from_spec(v: Ref) -> Command {
        Command::Ref(v)
    }
}

impl From<Cite> for Command {
    fn from(other: Cite) -> (r: Command) {
        Command::Cite(other)
    }
}

impl vstd::std_specs::convert::FromSpecImpl<Cite> for Command {
    open spec fn obeys_from_spec() -> bool {
        true
    }

    open spec fn from_spec(v: Cite) -> Command {
        Command::Cite(v)
    }
}

impl From<Label> for Command {
    fn from(other: Label) -> (r: Command) {
        Command::Label(other)
    }
}

impl vstd::std_specs::convert::FromSpecImpl<Label> for Command {
    open spec fn obeys_from_spec() -> bool {
        true
    }

    open spec fn from_spec(v: Label) -> Command {
        Command::Label(v)
    }
}

} // verus!
