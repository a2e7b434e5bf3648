use latex::{Latex, Text, TextElement, Writable};

fn test_element<W: Writable>(elements: &[&W], real: &str) {
    let mut generator = Latex::new(String::new());
    elements.iter().for_each(|&e| generator.write(e));
    assert_eq!(generator.into_inner(), real);
}

#[test]
fn create_simple_text() {
    let should_be = "Hello World";
    let mut text = Text::new();
    text.push_text("Hello World");

    test_element(&[&text], should_be)
}

#[test]
fn textgraph_with_bold_text() {
    let should_be = "Hello \\textbf{World}";
    let mut text = Text::new();
    text.push_text("Hello ");
    text.push(TextElement::Bold(Box::new(TextElement::Plain(
        "World".to_string(),
    ))));

    test_element(&[&text], should_be)
}

#[test]
fn textgraph_with_italic_text() {
    let should_be = "Hello \\textit{World}";

    let mut text = Text::new();
    text.push_text("Hello ");
    text.push(TextElement::Italic(Box::new(TextElement::Plain(
        "World".to_string(),
    ))));

    test_element(&[&text], should_be)
}

#[test]
fn inline_code() {
    let should_be = "Hello $\\lambda$ World!";

    let mut text = Text::new();
    text.push_text("Hello ");
    text.push(TextElement::InlineMath(r"\lambda".to_string()));
    text.push_text(" World!");

    test_element(&[&text], should_be)
}

#[test]
fn link_renders_target_then_description() {
    let should_be = "\\href{https://example.org}{a link}";

    let mut text = Text::new();
    text.push(TextElement::Link(
        "a link".to_string(),
        "https://example.org".to_string(),
    ));

    test_element(&[&text], should_be)
}

#[test]
fn nested_bold_italic() {
    let should_be = "\\textbf{\\textit{deep}}";

    let mut text = Text::new();
    text.push(TextElement::Bold(Box::new(TextElement::Italic(Box::new(
        TextElement::Plain("deep".to_string()),
    )))));

    test_element(&[&text], should_be)
}
