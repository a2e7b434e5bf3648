//! Generic begin/end environments with mandatory and optional parameters.

use crate::document::{render_elements, write_element, Element};
use crate::text::Text;
use crate::{render_comma_joined, write_comma_joined, Writable};
use vstd::prelude::*;
use vstd::string::StringExecFns;

verus! {

/// A generic environment: `\begin{name}`, the mandatory parameters each in
/// their own brace group, one bracket group with the comma-joined optional
/// parameters, the child elements each followed by a line break, and
/// `\end{name}`.
#[derive(Debug, PartialEq)]
pub struct Environment {
    /// The environment name.
    pub name: String,
    /// Mandatory parameters; each is emitted in its own brace group,
    /// immediately after the name.
    pub params: Vec<String>,
    /// Optional parameters; emitted comma-joined inside one bracket group,
    /// after the mandatory parameters.
    pub optional_params: Vec<String>,
    /// The child elements.
    pub elements: Vec<Element>,
    /// Whether the environment is numbered. Kept on the value for
    /// companion math environments; rendering does not read it.
    pub numbered: bool,
}

/// The exact text of the mandatory parameters: each in its own brace
/// group, in declared order.
pub open spec fn render_braced_params(s: Seq<String>) -> Seq<char>
    decreases s,
{
    if s.len() == 0 {
        Seq::empty()
    } else {
        render_braced_params(s.drop_last()) + "{"@ + s.last()@ + "}"@
    }
}

/// The exact text of an environment's children: each child's render
/// followed by a line break.
pub open spec fn render_env_children(s: Seq<Element>) -> Seq<char>
    decreases s, 0int,
{
    if s.len() == 0 {
        Seq::empty()
    } else {
        render_env_children(s.drop_last()) + crate::document::render_element(s.last()) + "\n"@
    }
}

/// The exact text an `Environment` renders to.
pub open spec fn render_environment(env: Environment) -> Seq<char>
    decreases env, 1int,
{
    "\\begin{"@ + env.name@ + "}"@ + render_braced_params(env.params@) + (if env.optional_params@.len()
        > 0 {
        "["@ + render_comma_joined(env.optional_params@) + "]"@
    } else {
        Seq::empty()
    }) + "\n"@ + render_env_children(env.elements@) + "\\end{"@ + env.name@ + "}"@ + "\n"@
}

#[verifier::loop_isolation(false)]
fn write_braced_params(items: &Vec<String>, out: &mut String)
    ensures
        final(out)@ == old(out)@ + render_braced_params(items@),
{
    let ghost out0 = out@;
    let n: usize = items.len();
    let mut i: usize = 0;
    while i < n
        invariant
            i <= n,
            out@ == out0 + render_braced_params(items@.take(i as int)),
        decreases n - i,
    {
        out.append("{");
        out.append(items[i].as_str());
        out.append("}");
        proof {
            assert(items@.take(i as int + 1).drop_last() =~= items@.take(i as int));
            assert(out@ =~= out0 + render_braced_params(items@.take(i as int + 1)));
        }
        i = i + 1;
    }
    proof {
        assert(items@.take(n as int) =~= items@);
    }
}

#[verifier::loop_isolation(false)]
pub(crate) fn write_env_children(elems: &Vec<Element>, out: &mut String)
    ensures
        final(out)@ == old(out)@ + render_env_children(elems@),
    decreases elems@, 0int,
{
    let ghost out0 = out@;
    let n: usize = elems.len();
    let mut i: usize = 0;
    while i < n
        invariant
            i <= n,
            out@ == out0 + render_env_children(elems@.take(i as int)),
        decreases n - i,
    {
        write_element(&elems[i], out);
        out.append("\n");
        proof {
            assert(elems@.take(i as int + 1).drop_last() =~= elems@.take(i as int));
            assert(out@ =~= out0 + render_env_children(elems@.take(i as int + 1)));
        }
        i = i + 1;
    }
    proof {
        assert(elems@.take(n as int) =~= elems@);
    }
}

pub(crate) fn write_environment(env: &Environment, out: &mut String)
    ensures
        final(out)@ == old(out)@ + render_environment(*env),
    decreases *env, 1int,
{
    out.append("\\begin{");
    out.append(env.name.as_str());
    out.append("}");
    write_braced_params(&env.params, out);
    if env.optional_params.len() > 0 {
        out.append("[");
        write_comma_joined(&env.optional_params, out);
        out.append("]");
    }
    out.append("\n");
    write_env_children(&env.elements, out);
    out.append("\\end{");
    out.append(env.name.as_str());
    out.append("}");
    out.append("\n");
    assert(out@ =~= old(out)@ + render_environment(*env));
}

/// The mandatory-parameter brace groups of an environment appear, in
/// declared order, immediately after the braced name, and before any
/// optional-parameter bracket group.
pub proof fn lemma_environment_params_order(env: Environment)
    ensures
        ({
            let begin = "\\begin{"@ + env.name@ + "}"@;
            let braced = render_braced_params(env.params@);
            render_environment(env).take((begin.len() + braced.len()) as int) == begin + braced
        }),
        ({
            let begin = "\\begin{"@ + env.name@ + "}"@;
            let braced = render_braced_params(env.params@);
            let optional = if env.optional_params@.len() > 0 {
                "["@ + render_comma_joined(env.optional_params@) + "]"@
            } else {
                Seq::<char>::empty()
            };
            render_environment(env).take((begin.len() + braced.len() + optional.len()) as int) == begin
                + braced + optional
        }),
{
    let begin = "\\begin{"@ + env.name@ + "}"@;
    let braced = render_braced_params(env.params@);
    let optional = if env.optional_params@.len() > 0 {
        "["@ + render_comma_joined(env.optional_params@) + "]"@
    } else {
        Seq::<char>::empty()
    };
    assert(render_environment(env).take((begin.len() + braced.len()) as int) =~= begin + braced);
    assert(render_environment(env).take((begin.len() + braced.len() + optional.len()) as int) =~= begin
        + braced + optional);
}

impl Environment {
    /// Create an empty environment with the given name and no parameters.
    pub fn new_empty(name: &str) -> (r: Self)
        ensures
            r.name@ == name@,
            r.params@.len() == 0,
            r.optional_params@.len() == 0,
            r.elements@.len() == 0,
            r.numbered,
    {
        Environment {
            name: name.to_owned(),
            params: Vec::new(),
            optional_params: Vec::new(),
            elements: Vec::new(),
            numbered: true,
        }
    }

    /// Create an environment whose children are the given lines, each one
    /// a plain text element, with the given parameters.
    pub fn new(
        name: &str,
        text: Vec<String>,
        params: Option<Vec<String>>,
        optional_params: Option<Vec<String>>,
    ) -> (r: Self)
        ensures
            r.name@ == name@,
            r.params@ == (match params {
                Some(p) => p@,
                None => Seq::<String>::empty(),
            }),
            r.optional_params@ == (match optional_params {
                Some(p) => p@,
                None => Seq::<String>::empty(),
            }),
            r.elements@.len() == text@.len(),
            forall|i: int|
                0 <= i < text@.len() ==> ((#[trigger] r.elements@[i]) matches Element::Text(t)
                    && crate::text::is_plain_text(t, text@[i]@)),
            r.numbered,
    {
        let mut elements: Vec<Element> = Vec::new();
        let n: usize = text.len();
        let mut i: usize = 0;
        while i < n
            invariant
                i <= n,
                n == text@.len(),
                elements@.len() == i,
                forall|j: int|
                    0 <= j < i ==> ((#[trigger] elements@[j]) matches Element::Text(t)
                        && crate::text::is_plain_text(t, text@[j]@)),
            decreases n - i,
        {
            let t = crate::text::text_from_str(text[i].as_str());
            elements.push(Element::Text(t));
            i = i + 1;
        }
        Environment {
            name: name.to_owned(),
            params: match params {
                Some(p) => p,
                None => Vec::new(),
            },
            optional_params: match optional_params {
                Some(p) => p,
                None => Vec::new(),
            },
            elements,
            numbered: true,
        }
    }

    /// Create an empty environment with the given parameters.
    pub fn with_params(
        name: &str,
        params: Option<Vec<String>>,
        optional_params: Option<Vec<String>>,
    ) -> (r: Self)
        ensures
            r.name@ == name@,
            r.params@ == (match params {
                Some(p) => p@,
                None => Seq::<String>::empty(),
            }),
            r.optional_params@ == (match optional_params {
                Some(p) => p@,
                None => Seq::<String>::empty(),
            }),
            r.elements@.len() == 0,
            r.numbered,
    {
        Environment {
            name: name.to_owned(),
            params: match params {
                Some(p) => p,
                None => Vec::new(),
            },
            optional_params: match optional_params {
                Some(p) => p,
                None => Vec::new(),
            },
            elements: Vec::new(),
            numbered: true,
        }
    }

    /// Add a child element.
    pub fn push(&mut self, element: Element)
        ensures
            final(self).elements@ == old(self).elements@.push(element),
            final(self).name == old(self).name,
            final(self).params == old(self).params,
            final(self).optional_params == old(self).optional_params,
            final(self).numbered == old(self).numbered,
    {
        self.elements.push(element);
    }

    /// Add a text run as a child element.
    pub fn push_text(&mut self, element: Text)
        ensures
            final(self).elements@ == old(self).elements@.push(Element::Text(element)),
            final(self).name == old(self).name,
            final(self).params == old(self).params,
            final(self).optional_params == old(self).optional_params,
            final(self).numbered == old(self).numbered,
    {
        self.elements.push(Element::Text(element));
    }
}

impl Writable for Environment {
    open spec fn rendered(&self) -> Seq<char> {
        render_environment(*self)
    }

    fn write_to(&self, writer: &mut String) {
        write_environment(self, writer);
    }
}


/// Sequences of environment children that render pointwise-equal render
/// equal as a whole.
pub proof fn lemma_render_env_children_pointwise(a: Seq<Element>, b: Seq<Element>)
    requires
        a.len() == b.len(),
        forall|i: int|
            0 <= i < a.len() ==> crate::document::render_element(#[trigger] a[i])
                == crate::document::render_element(#[trigger] b[i]),
    ensures
        render_env_children(a) == render_env_children(b),
    decreases a,
{
    if a.len() > 0 {
        assert forall|i: int| 0 <= i < a.drop_last().len() implies crate::document::render_element(
            #[trigger] a.drop_last()[i],
        ) == crate::document::render_element(#[trigger] b.drop_last()[i]) by {
            assert(a.drop_last()[i] == a[i]);
            assert(b.drop_last()[i] == b[i]);
        }
        lemma_render_env_children_pointwise(a.drop_last(), b.drop_last());
        assert(a.last() == a[a.len() - 1]);
        assert(b.last() == b[b.len() - 1]);
        assert(render_env_children(a) =~= render_env_children(b));
    } else {
        assert(render_env_children(a) =~= render_env_children(b));
    }
}

impl Clone for Environment {
    /// Clone the environment; the clone renders as the original, and its
    /// name, parameters and numbering equal the original's.
    fn clone(&self) -> (r: Self)
        ensures
            r.name == self.name,
            r.params@ == self.params@,
            r.optional_params@ == self.optional_params@,
            r.numbered == self.numbered,
            r.rendered() == self.rendered(),
        decreases *self,
    {
        let r = Environment {
            name: self.name.clone(),
            params: self.params.clone(),
            optional_params: self.optional_params.clone(),
            elements: crate::document::clone_elements(&self.elements),
            numbered: self.numbered,
        };
        proof {
            assert(r.params@ =~= self.params@);
            assert(r.optional_params@ =~= self.optional_params@);
            lemma_render_env_children_pointwise(r.elements@, self.elements@);
            assert(r.rendered() =~= self.rendered());
        }
        r
    }
}

} // verus!
