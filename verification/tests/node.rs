use dot_graph::{Node, RenderOption, Style};

#[test]
fn new_node_has_empty_label_and_no_attributes() {
    let node = Node::new("A");
    assert_eq!(node.name, "A");
    assert_eq!(node.label, "");
    assert_eq!(node.style, Style::Unset);
    assert_eq!(node.color, None);
    assert_eq!(node.index, 0);
    assert_eq!(node.shape, None);
}

#[test]
fn new_with_label_copies_the_identifier() {
    let node = Node::new_with_label("A");
    assert_eq!(node.name, "A");
    assert_eq!(node.label, "A");
    assert_eq!(node.style, Style::Unset);
    assert_eq!(node.color, None);
    assert_eq!(node.index, 0);
    assert_eq!(node.shape, None);
}

#[test]
fn node_id_is_the_name() {
    assert_eq!(Node::new("n0").node_id(), "n0");
}

#[test]
fn setters_replace_their_field_only() {
    let mut node = Node::new("A");
    node.set_label("first");
    node.set_label("second");
    assert_eq!(node.label, "second");
    assert_eq!(node.name, "A");
    node.set_style(Style::Bold);
    assert_eq!(node.style, Style::Bold);
    assert_eq!(node.label, "second");
    node.set_color(Some("red"));
    assert_eq!(node.color, Some("red"));
    node.set_shape(Some("box"));
    assert_eq!(node.shape, Some(String::from("box")));
    assert_eq!(node.color, Some("red"));
    assert_eq!(node.style, Style::Bold);
    assert_eq!(node.label, "second");
    assert_eq!(node.name, "A");
    assert_eq!(node.index, 0);
}

#[test]
fn setters_clear_with_none() {
    let mut node = Node::new("A");
    node.set_color(Some("red"));
    node.set_shape(Some("box"));
    node.set_color(None);
    node.set_shape(None);
    assert_eq!(node.color, None);
    assert_eq!(node.shape, None);
    assert_eq!(node.to_dot_string(&[]), "A[label=\"\"];");
}

#[test]
fn clone_keeps_every_field() {
    let mut node = Node::new_with_label("A");
    node.set_style(Style::Dotted);
    node.set_color(Some("blue"));
    node.set_shape(Some("circle"));
    node.index = 7;
    let copy = node.clone();
    assert_eq!(copy.name, "A");
    assert_eq!(copy.label, "A");
    assert_eq!(copy.style, Style::Dotted);
    assert_eq!(copy.color, Some("blue"));
    assert_eq!(copy.index, 7);
    assert_eq!(copy.shape, Some(String::from("circle")));
    assert_eq!(copy.to_dot_string(&[]), node.to_dot_string(&[]));
}

#[test]
fn fragment_of_labelled_node() {
    let node = Node::new_with_label("A");
    assert_eq!(node.to_dot_string(&[]), "A[label=\"A\"];");
}

#[test]
fn fragment_writes_an_empty_label() {
    let node = Node::new("A");
    assert_eq!(node.to_dot_string(&[]), "A[label=\"\"];");
}

#[test]
fn fragment_with_every_attribute() {
    let mut node = Node::new("n1");
    node.set_label("Node 1");
    node.set_style(Style::Filled);
    node.set_color(Some("red"));
    node.set_shape(Some("box"));
    assert_eq!(
        node.to_dot_string(&[]),
        "n1[label=\"Node 1\"][style=\"filled\"][color=\"red\"][shape=\"box\"];"
    );
}

#[test]
fn attribute_order_does_not_follow_setter_order() {
    let expected = "n1[label=\"L\"][style=\"dashed\"][color=\"green\"][shape=\"egg\"];";

    let mut forward = Node::new("n1");
    forward.set_label("L");
    forward.set_style(Style::Dashed);
    forward.set_color(Some("green"));
    forward.set_shape(Some("egg"));
    assert_eq!(forward.to_dot_string(&[]), expected);

    let mut backward = Node::new("n1");
    backward.set_shape(Some("egg"));
    backward.set_color(Some("green"));
    backward.set_style(Style::Dashed);
    backward.set_label("L");
    assert_eq!(backward.to_dot_string(&[]), expected);

    let mut mixed = Node::new("n1");
    mixed.set_color(Some("green"));
    mixed.set_label("L");
    mixed.set_shape(Some("egg"));
    mixed.set_style(Style::Dashed);
    assert_eq!(mixed.to_dot_string(&[]), expected);
}

#[test]
fn unset_style_is_not_written() {
    let mut node = Node::new_with_label("A");
    node.set_style(Style::Bold);
    node.set_style(Style::Unset);
    assert_eq!(node.to_dot_string(&[]), "A[label=\"A\"];");
}

#[test]
fn solid_style_is_written() {
    let mut node = Node::new_with_label("A");
    node.set_style(Style::Solid);
    assert_eq!(node.to_dot_string(&[]), "A[label=\"A\"][style=\"solid\"];");
}

#[test]
fn label_is_escaped_in_fragment() {
    let mut node = Node::new("A");
    node.set_label("say \"hi\"");
    assert_eq!(node.to_dot_string(&[]), "A[label=\"say \\\"hi\\\"\"];");
}

#[test]
fn color_is_escaped_and_shape_is_not() {
    let mut node = Node::new("A");
    node.set_color(Some("a\"b"));
    node.set_shape(Some("c\"d"));
    assert_eq!(node.to_dot_string(&[]), "A[label=\"\"][color=\"a\\\"b\"][shape=\"c\"d\"];");
}

#[test]
fn identifier_is_written_as_it_is() {
    let node = Node::new("a \"b\"");
    assert_eq!(node.to_dot_string(&[]), "a \"b\"[label=\"\"];");
}

#[test]
fn suppressing_labels_only() {
    let mut node = Node::new_with_label("A");
    node.set_style(Style::Filled);
    node.set_color(Some("red"));
    node.set_shape(Some("box"));
    assert_eq!(
        node.to_dot_string(&[RenderOption::NoNodeLabels]),
        "A[style=\"filled\"][color=\"red\"][shape=\"box\"];"
    );
}

#[test]
fn suppressing_styles_only() {
    let mut node = Node::new_with_label("A");
    node.set_style(Style::Filled);
    node.set_color(Some("red"));
    node.set_shape(Some("box"));
    assert_eq!(
        node.to_dot_string(&[RenderOption::NoNodeStyles]),
        "A[label=\"A\"][color=\"red\"][shape=\"box\"];"
    );
}

#[test]
fn suppressing_colors_only() {
    let mut node = Node::new_with_label("A");
    node.set_style(Style::Filled);
    node.set_color(Some("red"));
    node.set_shape(Some("box"));
    assert_eq!(
        node.to_dot_string(&[RenderOption::NoNodeColors]),
        "A[label=\"A\"][style=\"filled\"][shape=\"box\"];"
    );
}

#[test]
fn suppressing_everything_leaves_the_shape() {
    let mut node = Node::new_with_label("A");
    node.set_style(Style::Filled);
    node.set_color(Some("red"));
    node.set_shape(Some("box"));
    let options = [
        RenderOption::NoNodeLabels,
        RenderOption::NoNodeStyles,
        RenderOption::NoNodeColors,
    ];
    assert_eq!(node.to_dot_string(&options), "A[shape=\"box\"];");
}

#[test]
fn suppressing_everything_without_a_shape_leaves_the_identifier() {
    let mut node = Node::new_with_label("A");
    node.set_style(Style::Filled);
    node.set_color(Some("red"));
    let options = [
        RenderOption::NoNodeColors,
        RenderOption::NoNodeLabels,
        RenderOption::NoNodeStyles,
    ];
    assert_eq!(node.to_dot_string(&options), "A;");
}

#[test]
fn order_and_repeats_of_options_do_not_matter() {
    let mut node = Node::new_with_label("A");
    node.set_style(Style::Filled);
    node.set_color(Some("red"));
    let one = node.to_dot_string(&[RenderOption::NoNodeLabels, RenderOption::NoNodeColors]);
    let other = node.to_dot_string(&[
        RenderOption::NoNodeColors,
        RenderOption::NoNodeLabels,
        RenderOption::NoNodeColors,
    ]);
    assert_eq!(one, "A[style=\"filled\"];");
    assert_eq!(one, other);
}

#[test]
fn index_does_not_show_in_fragment() {
    let mut node = Node::new_with_label("A");
    node.index = 42;
    assert_eq!(node.to_dot_string(&[]), "A[label=\"A\"];");
}
