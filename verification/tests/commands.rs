use latex::{Bibitem, Bibliography, Bibliographystyle, Command, Label, Latex, Text, TextElement, Writable};

fn test_element<W: Writable>(elements: &[&W], real: &str) {
    let mut generator = Latex::new(String::new());
    elements.iter().for_each(|&e| generator.write(e));
    assert_eq!(generator.into_inner(), real);
}

#[test]
fn render_bibliography() {
    let should_be = "\\bibliography{some_file.txt}\n";

    let command = Bibliography::new("some_file.txt".to_owned());

    test_element(&[&command], should_be)
}

#[test]
fn render_bibliographystyle() {
    let should_be = "\\bibliographystyle{plain}\n";

    let command = Bibliographystyle::new("plain".to_owned());

    test_element(&[&command], should_be)
}

#[test]
fn render_bibitem() {
    let should_be = "\\bibitem{key1}\\textbf{Some Book}\n";

    let command = Bibitem::new(TextElement::bold("Some Book").into(), "key1".to_string());

    test_element(&[&command], should_be)
}

#[test]
fn render_get_cite() {
    let should_be = "\\cite{key1}\n";
    let command: Command = Bibitem::new(TextElement::bold("Some Book").into(), "key1".to_string())
        .get_ref()
        .into();

    test_element(&[&command], should_be)
}

#[test]
fn render_simple_label() {
    let should_be = "\\label{some label}\n";
    let command: Command = Command::Label(Label::new("some label".into()));

    test_element(&[&command], should_be)
}

#[test]
fn render_gen_label() {
    let should_be = "\\label{subsection:introduction}\n";
    let command: Command = Command::Label(Label::generate_default_label(
        "subsection",
        "Introduction",
    ));

    test_element(&[&command], should_be)
}

#[test]
fn render_get_refer() {
    let should_be = "\\ref{subsection:introduction}\n";
    let command: Command = Label::generate_default_label("subsection", "Introduction")
        .get_ref()
        .into();

    test_element(&[&command], should_be)
}

#[test]
fn render_simple_framebox() {
    let should_be = "\\framebox[30pc][l]{some framebox}\n";
    let command: Command = Command::Framebox(latex::Framebox::new(
        "some framebox".into(),
        Some("30pc".to_owned()),
        Some("l".to_owned()),
    ));

    test_element(&[&command], should_be)
}

#[test]
fn render_framebox() {
    let should_be = "\\framebox[30pc][l]{\\textbf{some bold framebox}}\n";
    let mut text = Text::new();
    text.push(TextElement::bold("some bold framebox"));

    let command: Command = Command::Framebox(latex::Framebox::new(
        text,
        Some("30pc".to_owned()),
        Some("l".to_owned()),
    ));

    test_element(&[&command], should_be)
}

#[test]
fn render_table_contents() {
    let should_be = "\\tableofcontents\n";
    let command: Command = Command::TableOfContents;

    test_element(&[&command], should_be)
}

#[test]
fn render_table_maketitle() {
    let should_be = "\\maketitle\n";
    let command: Command = Command::TitlePage;

    test_element(&[&command], should_be)
}

#[test]
fn render_table_clearpage() {
    let should_be = "\\clearpage\n";
    let command: Command = Command::ClearPage;

    test_element(&[&command], should_be)
}

#[test]
fn render_table_bigskip() {
    let should_be = "\\bigskip\n";
    let command: Command = Command::BigSkip;

    test_element(&[&command], should_be)
}

#[test]
fn render_table_newpage() {
    let should_be = "\\newpage\n";
    let command: Command = Command::NewPage;

    test_element(&[&command], should_be)
}

#[test]
fn render_table_appendix() {
    let should_be = "\\appendix\n";
    let command: Command = Command::Appendix;

    test_element(&[&command], should_be)
}

#[test]
fn render_cite_with_subcit() {
    let should_be = "\\cite[p. 4]{key1}\n";
    let command: Command =
        latex::Cite::new("key1".to_string(), Some(Text::from("p. 4"))).into();

    test_element(&[&command], should_be)
}
