use latex::{Align, AlignEquation, Equation, Latex, Writable};

fn test_element<W: Writable>(elements: &[&W], real: &str) {
    let mut generator = Latex::new(String::new());
    elements.iter().for_each(|&e| generator.write(e));
    assert_eq!(generator.into_inner(), real);
}

#[test]
fn render_empty_align() {
    let should_be = "\\begin{align}\n\\end{align}\n";

    let equations = Align::new();
    test_element(&[&equations], should_be);
}

#[test]
fn render_simple_equation() {
    let should_be = "\\begin{equation}\nx &= y + \\sigma\n\\end{equation}\n";

    let eq = Equation::new(r"x &= y + \sigma");
    test_element(&[&eq], should_be);
}

#[test]
fn render_several_equations() {
    let should_be = r"\begin{align}
E &= m c^2 \label{eq:mass-energy-equivalence} \\
y &= m x + c \\
\end{align}
";

    let mut equations = Align::new();

    equations.push(AlignEquation::with_label(
        "eq:mass-energy-equivalence",
        "E &= m c^2",
    ));
    equations.push(AlignEquation::new("y &= m x + c"));
    test_element(&[&equations], should_be);
}

#[test]
fn equation_with_label() {
    let should_be =
        "\\begin{equation}\n\\label{eq:mass-energy-equivalence}\nE &= m c^2\n\\end{equation}\n";

    let mut eq = Equation::new("E &= m c^2");
    eq.set_label("eq:mass-energy-equivalence");

    test_element(&[&eq], should_be);
}

#[test]
fn equation_with_no_numbering() {
    let should_be = "\\begin{equation*}\nE &= m c^2\n\\end{equation*}\n";

    let mut eq = Equation::new("E &= m c^2");
    eq.numbered = false;

    test_element(&[&eq], should_be);
}

#[test]
fn align_with_labeled_and_unlabeled_rows() {
    let should_be = "\\begin{align}\nE &= m c^2 \\label{eq:mc2} \\\\\ny &= m x + c \\\\\n\\end{align}\n";

    let mut equations = Align::new();
    equations.push(AlignEquation::with_label("eq:mc2", "E &= m c^2"));
    equations.push(AlignEquation::new("y &= m x + c"));

    test_element(&[&equations], should_be);
}

#[test]
fn align_unnumbered_uses_starred_form() {
    let should_be = "\\begin{align*}\nx &= 1 \\\\\n\\end{align*}\n";

    let mut equations = Align::new();
    equations.numbered = false;
    equations.push(AlignEquation::new("x &= 1"));

    test_element(&[&equations], should_be);
}

#[test]
fn align_nonumber_row_in_numbered_block() {
    let should_be = "\\begin{align}\n\\nonumber\nx &= 1 \\\\\n\\end{align}\n";

    let mut row = AlignEquation::new("x &= 1");
    row.numbered = false;
    let mut equations = Align::new();
    equations.push(row);

    test_element(&[&equations], should_be);
}

#[test]
fn align_block_label_is_not_emitted() {
    let should_be = "\\begin{align}\nx &= 1 \\\\\n\\end{align}\n";

    let mut equations = Align::with_label("eq:block");
    equations.push(AlignEquation::new("x &= 1"));

    test_element(&[&equations], should_be);
}

#[test]
fn align_from_bare_string() {
    let should_be = "\\begin{align}\ny &= mx + c \\\\\n\\end{align}\n";

    let equations = Align::from("y &= mx + c");
    test_element(&[&equations], should_be);
}
