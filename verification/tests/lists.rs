use latex::{Container, Element, Latex, List, ListKind, Text, Writable};

fn test_element<W: Writable>(elements: &[&W], real: &str) {
    let mut generator = Latex::new(String::new());
    elements.iter().for_each(|&e| generator.write(e));
    assert_eq!(generator.into_inner(), real);
}

#[test]
fn push_item_to_list() {
    let mut list = List::new(ListKind::Itemize);

    let mut item = Container::new();
    item.push(Element::Text(Text::from("Hello, world!")));
    assert_eq!(list.items.len(), 0);
    list.push(item);
    assert_eq!(list.items.len(), 1);
}

#[test]
fn render_empty_itemize_list() {
    let should_be = "\\begin{itemize}\n\\end{itemize}\n";
    let list = List::new(ListKind::Itemize);
    test_element(&[&list], should_be)
}

#[test]
fn render_enumerated_list() {
    let should_be = "\\begin{enumerate}\n\\end{enumerate}\n";
    let list = List::new(ListKind::Enumerate);
    test_element(&[&list], should_be)
}

#[test]
fn render_itemize_list_simple() {
    let should_be =
        "\\begin{itemize}\n\\item Apple\n\\item Orange\n\\item Cherry\n\\end{itemize}\n";
    let mut list = List::new(ListKind::Itemize);
    list.push_text("Apple");
    list.push_text("Orange");
    list.push_text("Cherry");

    test_element(&[&list], should_be)
}

#[test]
fn render_enumerated_list_simple() {
    let should_be =
        "\\begin{enumerate}\n\\item Apple\n\\item Orange\n\\item Cherry\n\\end{enumerate}\n";
    let mut list = List::new(ListKind::Enumerate);
    list.push_text("Apple");
    list.push_text("Orange");
    list.push_text("Cherry");

    test_element(&[&list], should_be)
}

#[test]
fn environment_name_per_kind() {
    assert_eq!(ListKind::Itemize.environment_name(), "itemize");
    assert_eq!(ListKind::Enumerate.environment_name(), "enumerate");
}
