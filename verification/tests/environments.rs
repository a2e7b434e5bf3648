use latex::{Environment, Latex, Writable};

fn test_element<W: Writable>(elements: &[&W], real: &str) {
    let mut generator = Latex::new(String::new());
    elements.iter().for_each(|&e| generator.write(e));
    assert_eq!(generator.into_inner(), real);
}

#[test]
fn render_empty_env() {
    let should_be = "\\begin{test}\n\\end{test}\n";
    let env = Environment::new_empty("test");

    test_element(&[&env], should_be)
}

#[test]
fn render_with_optional_params() {
    let should_be = "\\begin{lstlisting}[language=Python]\nimport requests\n\\end{lstlisting}\n";
    let env = Environment::new(
        "lstlisting",
        vec!["import requests".to_owned()],
        None,
        Some(vec!["language=Python".to_owned()]),
    );

    test_element(&[&env], should_be)
}

#[test]
fn render_with_params() {
    let should_be = "\\begin{tabular}{|p{2cm}|p{2cm}|p{8.5cm}|}\nsome\n\\end{tabular}\n";
    let env = Environment::new(
        "tabular",
        vec!["some".to_owned()],
        Some(vec!["|p{2cm}|p{2cm}|p{8.5cm}|".to_owned()]),
        None,
    );

    test_element(&[&env], should_be)
}

#[test]
fn render_params_before_optional_params() {
    let should_be = "\\begin{tabular}{a}{b}[x,y]\nrow\n\\end{tabular}\n";
    let env = Environment::new(
        "tabular",
        vec!["row".to_owned()],
        Some(vec!["a".to_owned(), "b".to_owned()]),
        Some(vec!["x".to_owned(), "y".to_owned()]),
    );

    test_element(&[&env], should_be)
}
