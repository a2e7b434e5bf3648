//! Itemized and enumerated lists.

use crate::document::{render_elements, write_elements, Element};
use crate::section::Container;
use crate::text::{is_plain_text, text_from_str, Text};
use crate::Writable;
use vstd::prelude::*;
use vstd::string::StringExecFns;

verus! {

/// Wrapper around a single list item.
///
/// An item is rendered as `\item ` followed by the item's container
/// contents and a line break. An item wraps a `Container`, so it may hold
/// several elements, not just text.
#[derive(Debug, PartialEq)]
pub struct Item(pub Container);

/// Which kind of list should be used?
#[derive(Debug, PartialEq)]
pub enum ListKind {
    /// A numbered list.
    Enumerate,
    /// An un-numbered list.
    Itemize,
}

/// The environment name of a list kind.
pub open spec fn list_kind_name(k: ListKind) -> Seq<char> {
    match k {
        ListKind::Enumerate => "enumerate"@,
        ListKind::Itemize => "itemize"@,
    }
}

impl ListKind {
    /// Get the `ListKind`'s environment name.
    pub fn environment_name(&self) -> (r: &str)
        ensures
            r@ == list_kind_name(*self),
    {
        match self {
            ListKind::Enumerate => "enumerate",
            ListKind::Itemize => "itemize",
        }
    }
}

impl Clone for ListKind {
    fn clone(&self) -> (r: Self)
        ensures
            r == *self,
    {
        match self {
            ListKind::Enumerate => ListKind::Enumerate,
            ListKind::Itemize => ListKind::Itemize,
        }
    }
}

/// The exact text one list item renders to: the item marker, the item's
/// container contents, and a line break.
pub open spec fn render_item(it: Item) -> Seq<char>
    decreases it, 0int,
{
    "\\item "@ + render_elements(it.0.elements@) + "\n"@
}

/// The exact text of a sequence of list items: the items in order.
pub open spec fn render_list_items(s: Seq<Item>) -> Seq<char>
    decreases s, 1int,
{
    if s.len() == 0 {
        Seq::empty()
    } else {
        render_list_items(s.drop_last()) + render_item(s.last())
    }
}

/// A list, either dot points or numbered.
#[derive(Debug, PartialEq)]
pub struct List {
    /// The kind of list this is.
    pub kind: ListKind,
    /// The items of the list, in order.
    pub items: Vec<Item>,
}

/// The exact text a `List` renders to: the begin line of its kind's
/// environment, each item, and the end line.
pub open spec fn render_list(l: List) -> Seq<char>
    decreases l, 2int,
{
    "\\begin{"@ + list_kind_name(l.kind) + "}"@ + "\n"@ + render_list_items(l.items@) + "\\end{"@
        + list_kind_name(l.kind) + "}"@ + "\n"@
}

#[verifier::loop_isolation(false)]
pub(crate) fn write_list(l: &List, out: &mut String)
    ensures
        final(out)@ == old(out)@ + render_list(*l),
    decreases *l, 2int,
{
    out.append("\\begin{");
    out.append(l.kind.environment_name());
    out.append("}");
    out.append("\n");
    let ghost mid0 = out@;
    let n: usize = l.items.len();
    let mut i: usize = 0;
    while i < n
        invariant
            i <= n,
            out@ == mid0 + render_list_items(l.items@.take(i as int)),
        decreases n - i,
    {
        out.append("\\item ");
        write_elements(&l.items[i].0.elements, out);
        out.append("\n");
        proof {
            assert(l.items@.take(i as int + 1).drop_last() =~= l.items@.take(i as int));
            assert(l.items@.take(i as int + 1).last() == l.items@[i as int]);
            assert(render_item(l.items@[i as int]) == "\\item "@ + render_elements(
                l.items@[i as int].0.elements@,
            ) + "\n"@);
            assert(out@ =~= mid0 + render_list_items(l.items@.take(i as int + 1)));
        }
        i = i + 1;
    }
    proof {
        assert(l.items@.take(n as int) =~= l.items@);
    }
    out.append("\\end{");
    out.append(l.kind.environment_name());
    out.append("}");
    out.append("\n");
    assert(out@ =~= old(out)@ + render_list(*l));
}

impl List {
    /// Create an empty list of the specified kind.
    pub fn new(kind: ListKind) -> (r: List)
        ensures
            r.kind == kind,
            r.items@.len() == 0,
    {
        List { kind, items: Vec::new() }
    }

    /// Iterate over the items in this list.
    pub fn iter<'a>(&'a self) -> (r: std::slice::Iter<'a, Item>)
        ensures
            vstd::std_specs::iter::IteratorSpec::remaining(&r) == self.items@.as_ref(),
    {
        let s: &[Item] = self.items.as_slice();
        s.iter()
    }

    /// Add an item holding the given container to the list.
    pub fn push(&mut self, item: Container)
        ensures
            final(self).items@ == old(self).items@.push(Item(item)),
            final(self).kind == old(self).kind,
    {
        self.items.push(Item(item));
    }

    /// Add an item holding the single given element to the list.
    pub fn push_element(&mut self, item: Element)
        ensures
            final(self).items@.len() == old(self).items@.len() + 1,
            final(self).items@.drop_last() == old(self).items@,
            final(self).items@.last().0.elements@ == seq![item],
            final(self).kind == old(self).kind,
    {
        let mut container = Container::new();
        container.push(item);
        self.items.push(Item(container));
        proof {
            assert(self.items@.drop_last() =~= old(self).items@);
            assert(self.items@.last().0.elements@ =~= seq![item]);
        }
    }

    /// Add an item holding the given string as plain text to the list.
    pub fn push_text(&mut self, item: &str)
        ensures
            final(self).items@.len() == old(self).items@.len() + 1,
            final(self).items@.drop_last() == old(self).items@,
            final(self).items@.last().0.elements@.len() == 1,
            final(self).items@.last().0.elements@[0] matches Element::Text(t) && is_plain_text(
                t,
                item@,
            ),
            final(self).kind == old(self).kind,
    {
        let mut container = Container::new();
        container.push(Element::Text(text_from_str(item)));
        self.items.push(Item(container));
        proof {
            assert(self.items@.drop_last() =~= old(self).items@);
        }
    }
}

impl Writable for List {
    open spec fn rendered(&self) -> Seq<char> {
        render_list(*self)
    }

    fn write_to(&self, writer: &mut String) {
        write_list(self, writer);
    }
}


/// Sequences of items that render pointwise-equal render equal as a whole.
pub proof fn lemma_render_list_items_pointwise(a: Seq<Item>, b: Seq<Item>)
    requires
        a.len() == b.len(),
        forall|i: int|
            0 <= i < a.len() ==> render_item(#[trigger] a[i]) == render_item(#[trigger] b[i]),
    ensures
        render_list_items(a) == render_list_items(b),
    decreases a,
{
    if a.len() > 0 {
        assert forall|i: int| 0 <= i < a.drop_last().len() implies render_item(
            #[trigger] a.drop_last()[i],
        ) == render_item(#[trigger] b.drop_last()[i]) by {
            assert(a.drop_last()[i] == a[i]);
            assert(b.drop_last()[i] == b[i]);
        }
        lemma_render_list_items_pointwise(a.drop_last(), b.drop_last());
        assert(a.last() == a[a.len() - 1]);
        assert(b.last() == b[b.len() - 1]);
        assert(render_list_items(a) =~= render_list_items(b));
    } else {
        assert(render_list_items(a) =~= render_list_items(b));
    }
}

impl Clone for Item {
    /// Clone the item; the clone renders as the original.
    fn clone(&self) -> (r: Self)
        ensures
            render_item(r) == render_item(*self),
        decreases *self,
    {
        let r = Item(self.0.clone());
        proof {
            assert(render_item(r) =~= render_item(*self));
        }
        r
    }
}

#[verifier::loop_isolation(false)]
fn clone_items(items: &Vec<Item>) -> (r: Vec<Item>)
    ensures
        r@.len() == items@.len(),
        forall|i: int|
            0 <= i < items@.len() ==> render_item(#[trigger] r@[i]) == render_item(
                #[trigger] items@[i],
            ),
    decreases items@,
{
    let mut r: Vec<Item> = Vec::new();
    let n: usize = items.len();
    let mut i: usize = 0;
    while i < n
        invariant
            i <= n,
            r@.len() == i,
            forall|j: int|
                0 <= j < i ==> render_item(#[trigger] r@[j]) == render_item(#[trigger] items@[j]),
        decreases n - i,
    {
        r.push(items[i].clone());
        i = i + 1;
    }
    r
}

impl Clone for List {
    /// Clone the list; the clone renders as the original and keeps its
    /// kind.
    fn clone(&self) -> (r: Self)
        ensures
            r.kind == self.kind,
            r.rendered() == self.rendered(),
        decreases *self,
    {
        let r = List { kind: self.kind.clone(), items: clone_items(&self.items) };
        proof {
            lemma_render_list_items_pointwise(r.items@, self.items@);
            assert(r.rendered() =~= self.rendered());
        }
        r
    }
}

} // verus!
