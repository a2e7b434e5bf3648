use latex::{
    print, Command, Document, DocumentClass, Element, Latex, Preamble, PreambleElement, Section,
    Text, Writable,
};

fn render<W: Writable>(element: &W) -> String {
    let mut generator = Latex::new(String::new());
    generator.write(element);
    generator.into_inner()
}

#[test]
fn bare_section_heading() {
    let section = Section::new("Intro");
    assert_eq!(render(&section), "\\section{Intro}\n");
}

#[test]
fn section_children_get_blank_lines() {
    let mut section = Section::new("Intro");
    section.push(Element::Text(Text::from("first paragraph")));
    section.push(Element::Text(Text::from("second paragraph")));
    assert_eq!(
        render(&section),
        "\\section{Intro}\nfirst paragraph\n\nsecond paragraph\n\n"
    );
}

#[test]
fn unnumbered_section_suppresses_toc_title() {
    let mut section = Section::new("Intro");
    section.toc_title = Some(Text::from("Short"));
    section.numbered = false;
    assert_eq!(render(&section), "\\section*{Intro}\n");
}

#[test]
fn numbered_section_with_toc_title() {
    let mut section = Section::new("A Long Introduction");
    section.toc_title = Some(Text::from("Intro"));
    assert_eq!(render(&section), "\\section[Intro]{A Long Introduction}\n");
}

#[test]
fn full_document_markers() {
    let mut doc = Document::new(DocumentClass::Article);
    doc.push(Element::Command(Command::TableOfContents));
    let rendered = print(&doc);
    assert_eq!(
        rendered,
        "\\documentclass[]{article}\n\\begin{document}\n\\tableofcontents\n\\end{document}\n"
    );
    assert!(rendered.starts_with("\\documentclass[]{article}\n"));
    assert!(rendered.ends_with("\\end{document}\n"));
}

#[test]
fn document_class_arguments_are_joined() {
    let mut doc = Document::new(DocumentClass::Book);
    doc.arguments = vec!["12pt".to_string(), "a4paper".to_string()];
    let rendered = print(&doc);
    assert!(rendered.starts_with("\\documentclass[12pt,a4paper]{book}\n"));
}

#[test]
fn other_class_uses_its_name() {
    let doc = Document::new(DocumentClass::Other("scrartcl".to_string()));
    assert!(print(&doc).starts_with("\\documentclass[]{scrartcl}\n"));
}

#[test]
fn part_document_is_bare_fragment() {
    let mut doc = Document::new(DocumentClass::Part);
    let mut section = Section::new("Section 1");
    section.push(Element::Text(Text::from("Some text.")));
    doc.push(Element::Section(section));
    let rendered = print(&doc);
    assert_eq!(rendered, "\\section{Section 1}\nSome text.\n\n");
    assert!(!rendered.contains("\\documentclass"));
    assert!(!rendered.contains("\\begin{document}"));
    assert!(!rendered.contains("\\end{document}"));
}

#[test]
fn rendering_is_deterministic() {
    let mut doc = Document::new(DocumentClass::Report);
    doc.preamble.title("Twice");
    doc.push(Element::Command(Command::TitlePage));
    assert_eq!(print(&doc), print(&doc));
}

#[test]
fn preamble_title_only() {
    let mut preamble = Preamble::new();
    preamble.title("My Fancy Document");
    assert_eq!(render(&preamble), "\\title{My Fancy Document}\n");
}

#[test]
fn preamble_blank_line_before_title() {
    let mut preamble = Preamble::new();
    preamble.use_package("amsmath");
    preamble.title("T");
    preamble.author("A");
    assert_eq!(
        render(&preamble),
        "\\usepackage{amsmath}\n\n\\title{T}\n\\author{A}\n"
    );
}

#[test]
fn preamble_package_with_argument() {
    let mut preamble = Preamble::new();
    preamble.push(PreambleElement::UsePackage {
        package: "geometry".to_string(),
        argument: Some("margin=2cm".to_string()),
    });
    assert_eq!(render(&preamble), "\\usepackage[margin=2cm]{geometry}\n");
}

#[test]
fn preamble_new_command() {
    let mut preamble = Preamble::new();
    preamble.new_command("planck", 12, "h = 6.62607");
    assert_eq!(
        render(&preamble),
        "\\newcommand{\\planck}[12]{\nh = 6.62607\n}\n"
    );
}

#[test]
fn preamble_user_defined_line() {
    let mut preamble = Preamble::new();
    preamble.push(PreambleElement::UserDefined(
        "\\setlength{\\parindent}{0pt}".to_string(),
    ));
    assert_eq!(render(&preamble), "\\setlength{\\parindent}{0pt}\n");
}

#[test]
fn input_and_user_defined_elements() {
    let mut doc = Document::new(DocumentClass::Part);
    doc.push(Element::Input("part.tex".to_string()));
    doc.push(Element::UserDefined("% raw".to_string()));
    assert_eq!(print(&doc), "\\input{part.tex}\n% raw\n");
}

#[test]
fn push_doc_clones_elements() {
    let mut part = Document::new(DocumentClass::Part);
    let mut section = Section::new("Section 1");
    section.push(Element::Text(Text::from("Included text.")));
    part.push(Element::Section(section));

    let mut main = Document::new(DocumentClass::Article);
    main.push_doc(&part);
    let rendered = print(&main);
    assert_eq!(
        rendered,
        "\\documentclass[]{article}\n\\begin{document}\n\\section{Section 1}\nIncluded text.\n\n\\end{document}\n"
    );
}

#[test]
fn clone_renders_identically() {
    let mut doc = Document::new(DocumentClass::Article);
    doc.preamble.title("Template document");
    doc.preamble.author("Henrik");
    doc.push(Element::Command(Command::TitlePage));
    doc.push(Element::Command(Command::ClearPage));
    let copy = doc.clone();
    assert_eq!(print(&doc), print(&copy));
}

#[test]
fn element_from_raw_text() {
    let mut doc = Document::new(DocumentClass::Part);
    doc.push(Element::from("raw words"));
    assert_eq!(print(&doc), "raw words");
}
