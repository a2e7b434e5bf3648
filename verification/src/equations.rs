//! Math blocks: single equations and `align` blocks of several equations.

use crate::Writable;
use vstd::prelude::*;
use vstd::string::StringExecFns;

verus! {

/// A single displayed equation, rendered as an `equation` block.
///
/// When `numbered` is false the starred form of the block is used, which
/// suppresses the equation number.
#[derive(Debug, PartialEq)]
pub struct Equation {
    /// Text of the equation, such as `y = mx + c`.
    pub text: String,
    /// Optional label of the equation.
    pub label: Option<String>,
    /// Whether the equation is numbered.
    pub numbered: bool,
}

/// The exact text an `Equation` renders to: the begin line, an optional
/// label line, the equation text on its own line, and the end line. The
/// starred block name is used when the equation is unnumbered.
pub open spec fn render_equation(e: Equation) -> Seq<char> {
    (if e.numbered {
        "\\begin{equation}\n"@
    } else {
        "\\begin{equation*}\n"@
    }) + (match e.label {
        Some(l) => "\\label{"@ + l@ + "}\n"@,
        None => Seq::empty(),
    }) + e.text@ + "\n"@ + (if e.numbered {
        "\\end{equation}\n"@
    } else {
        "\\end{equation*}\n"@
    })
}

impl Equation {
    /// Create a new numbered, unlabelled `Equation`.
    pub fn new(src: &str) -> (r: Self)
        ensures
            r.text@ == src@,
            r.label is None,
            r.numbered,
    {
        Equation { text: src.to_owned(), label: None, numbered: true }
    }

    /// Create an equation which has a label.
    pub fn with_label(label: &str, text: &str) -> (r: Self)
        ensures
            r.text@ == text@,
            r.label matches Some(l) && l@ == label@,
            r.numbered,
    {
        let mut eq = Self::new(text);
        eq.label = Some(label.to_owned());
        eq
    }

    /// Set the equation's label.
    pub fn set_label(&mut self, label: &str)
        ensures
            final(self).text == old(self).text,
            final(self).numbered == old(self).numbered,
            final(self).label matches Some(l) && l@ == label@,
    {
        self.label = Some(label.to_owned());
    }
}

impl Clone for Equation {
    fn clone(&self) -> (r: Self)
        ensures
            r == *self,
    {
        Equation {
            text: self.text.clone(),
            label: match &self.label {
                Some(l) => Some(l.clone()),
                None => None,
            },
            numbered: self.numbered,
        }
    }
}

impl Writable for Equation {
    open spec fn rendered(&self) -> Seq<char> {
        render_equation(*self)
    }

    fn write_to(&self, writer: &mut String) {
        if self.numbered {
            writer.append("\\begin{equation}\n");
        } else {
            writer.append("\\begin{equation*}\n");
        }
        match &self.label {
            Some(l) => {
                writer.append("\\label{");
                writer.append(l.as_str());
                writer.append("}\n");
            }
            None => {}
        }
        writer.append(self.text.as_str());
        writer.append("\n");
        if self.numbered {
            writer.append("\\end{equation}\n");
        } else {
            writer.append("\\end{equation*}\n");
        }
        assert(writer@ =~= old(writer)@ + render_equation(*self));
    }
}

/// One row of an `align` block.
#[derive(Debug, PartialEq)]
pub struct AlignEquation {
    /// Text of the equation, such as `y &= mx + c`.
    pub text: String,
    /// Optional label of the equation.
    pub label: Option<String>,
    /// Whether this row is numbered.
    pub numbered: bool,
}

impl AlignEquation {
    /// Create a new numbered, unlabelled `AlignEquation`.
    pub fn new(src: &str) -> (r: Self)
        ensures
            r.text@ == src@,
            r.label is None,
            r.numbered,
    {
        AlignEquation { text: src.to_owned(), label: None, numbered: true }
    }

    /// Create an equation row which has a label.
    pub fn with_label(label: &str, text: &str) -> (r: Self)
        ensures
            r.text@ == text@,
            r.label matches Some(l) && l@ == label@,
            r.numbered,
    {
        let mut eq = AlignEquation::new(text);
        eq.label = Some(label.to_owned());
        eq
    }

    /// Set the row's label.
    pub fn set_label(&mut self, label: &str)
        ensures
            final(self).text == old(self).text,
            final(self).numbered == old(self).numbered,
            final(self).label matches Some(l) && l@ == label@,
    {
        self.label = Some(label.to_owned());
    }
}

impl Clone for AlignEquation {
    fn clone(&self) -> (r: Self)
        ensures
            r == *self,
    {
        AlignEquation {
            text: self.text.clone(),
            label: match &self.label {
                Some(l) => Some(l.clone()),
                None => None,
            },
            numbered: self.numbered,
        }
    }
}

/// The exact text one row of an `align` block renders to: a no-numbering
/// marker line when the row is unnumbered inside a numbered block, the row
/// text, an optional label, and the row terminator.
pub open spec fn render_align_equation(item: AlignEquation, block_numbered: bool) -> Seq<char> {
    (if !item.numbered && block_numbered {
        "\\nonumber\n"@
    } else {
        Seq::empty()
    }) + item.text@ + " "@ + (match item.label {
        Some(l) => "\\label{"@ + l@ + "} "@,
        None => Seq::empty(),
    }) + "\\\\\n"@
}

/// The exact text of a sequence of `align` rows: the rows in order.
pub open spec fn render_align_equations(s: Seq<AlignEquation>, block_numbered: bool) -> Seq<char>
    decreases s,
{
    if s.len() == 0 {
        Seq::empty()
    } else {
        render_align_equations(s.drop_last(), block_numbered) + render_align_equation(
            s.last(),
            block_numbered,
        )
    }
}

/// A list of equations rendered as one `align` block.
///
/// The block's own `label` field is kept on the value but is not emitted by
/// rendering; whether it clashes with per-row labels is the caller's
/// responsibility.
#[derive(Debug, PartialEq)]
pub struct Align {
    /// Rows of the block.
    pub items: Vec<AlignEquation>,
    /// Label of the whole block; not emitted by rendering.
    pub label: Option<String>,
    /// Whether the block is numbered; the starred block name is used when
    /// it is not.
    pub numbered: bool,
}

/// The exact text an `Align` renders to: the begin line, each row in order,
/// and the end line. The starred block name is used when the block is
/// unnumbered.
pub open spec fn render_align(a: Align) -> Seq<char> {
    (if a.numbered {
        "\\begin{align}\n"@
    } else {
        "\\begin{align*}\n"@
    }) + render_align_equations(a.items@, a.numbered) + (if a.numbered {
        "\\end{align}\n"@
    } else {
        "\\end{align*}\n"@
    })
}

impl Align {
    /// Create an empty block which has a label.
    pub fn with_label(label: &str) -> (r: Self)
        ensures
            r.items@ == Seq::<AlignEquation>::empty(),
            r.label matches Some(l) && l@ == label@,
            r.numbered,
    {
        Align { items: Vec::new(), label: Some(label.to_owned()), numbered: true }
    }

    /// Create an empty, numbered, unlabelled block.
    pub fn new() -> (r: Self)
        ensures
            r.items@ == Seq::<AlignEquation>::empty(),
            r.label is None,
            r.numbered,
    {
        Align { items: Vec::new(), label: None, numbered: true }
    }

    /// Iterate over the equation rows in this block.
    pub fn iter<'a>(&'a self) -> (r: std::slice::Iter<'a, AlignEquation>)
        ensures
            vstd::std_specs::iter::IteratorSpec::remaining(&r) == self.items@.as_ref(),
    {
        let s: &[AlignEquation] = self.items.as_slice();
        s.iter()
    }

    /// Add an equation row to the end of the block.
    pub fn push(&mut self, eq: AlignEquation)
        ensures
            final(self).items@ == old(self).items@.push(eq),
            final(self).label == old(self).label,
            final(self).numbered == old(self).numbered,
    {
        self.items.push(eq);
    }
}

fn write_equation(writer: &mut String, item: &AlignEquation, numbered: bool)
    ensures
        final(writer)@ == old(writer)@ + render_align_equation(*item, numbered),
{
    if !item.numbered && numbered {
        writer.append("\\nonumber\n");
    }
    writer.append(item.text.as_str());
    writer.append(" ");
    match &item.label {
        Some(l) => {
            writer.append("\\label{");
            writer.append(l.as_str());
            writer.append("} ");
        }
        None => {}
    }
    writer.append("\\\\\n");
    assert(writer@ =~= old(writer)@ + render_align_equation(*item, numbered));
}

impl Writable for Align {
    open spec fn rendered(&self) -> Seq<char> {
        render_align(*self)
    }

    fn write_to(&self, writer: &mut String) {
        if self.numbered {
            writer.append("\\begin{align}\n");
        } else {
            writer.append("\\begin{align*}\n");
        }
        let ghost mid0 = writer@;
        let n: usize = self.items.len();
        let mut i: usize = 0;
        while i < n
            invariant
                i <= n,
                n == self.items@.len(),
                writer@ == mid0 + render_align_equations(self.items@.take(i as int), self.numbered),
            decreases n - i,
        {
            write_equation(writer, &self.items[i], self.numbered);
            proof {
                assert(self.items@.take(i as int + 1).drop_last() =~= self.items@.take(i as int));
                assert(writer@ =~= mid0 + render_align_equations(
                    self.items@.take(i as int + 1),
                    self.numbered,
                ));
            }
            i = i + 1;
        }
        proof {
            assert(self.items@.take(n as int) =~= self.items@);
        }
        if self.numbered {
            writer.append("\\end{align}\n");
        } else {
            writer.append("\\end{align*}\n");
        }
        assert(writer@ =~= old(writer)@ + render_align(*self));
    }
}


impl Clone for Align {
    fn clone(&self) -> (r: Self)
        ensures
            r.items@ == self.items@,
            r.label == self.label,
            r.numbered == self.numbered,
    {
        let r = Align {
            items: self.items.clone(),
            label: match &self.label {
                Some(l) => Some(l.clone()),
                None => None,
            },
            numbered: self.numbered,
        };
        proof {
            assert(r.items@ =~= self.items@);
        }
        r
    }
}


impl<'a> From<&'a str> for Align {
    /// Convert a string into a block holding that single equation row.
    fn from(other: &'a str) -> (r: Align) {
        let mut block = Align::new();
        block.push(AlignEquation::new(other));
        block
    }
}

impl<'a> vstd::std_specs::convert::FromSpecImpl<&'a str> for Align {
    open spec fn obeys_from_spec() -> bool {
        false
    }

    open spec fn from_spec(v: &'a str) -> Align {
        choose|a: Align|
            a.items@.len() == 1 && a.items@[0].text@ == v@ && a.items@[0].label is None
                && a.items@[0].numbered && a.label is None && a.numbered
    }
}

} // verus!
