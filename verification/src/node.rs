//! A vertex of the graph and its DOT fragment.

use crate::render::{has_option, RenderOption};
use crate::style::Style;
use crate::utils::{quote_string, quoted};
use vstd::prelude::*;

verus! {

/// A named vertex with its display attributes.
pub struct Node {
    /// The DOT identifier, written out as it is.
    pub name: String,
    /// The display text, escaped when written out.
    pub label: String,
    /// The style; `Style::Unset` leaves the attribute out.
    pub style: Style,
    /// A color name; `None` leaves the attribute out.
    pub color: Option<&'static str>,
    /// A slot for indexing by callers; rendering does not read it.
    pub index: usize,
    /// A shape name; `None` leaves the attribute out.
    pub shape: Option<String>,
}

/// A node as a mathematical value: its strings as character sequences.
pub struct NodeView {
    pub name: Seq<char>,
    pub label: Seq<char>,
    pub style: Style,
    pub color: Option<Seq<char>>,
    pub index: usize,
    pub shape: Option<Seq<char>>,
}

impl NodeView {
    /// This node with `label` for its label.
    pub open spec fn with_label(self, label: Seq<char>) -> NodeView {
        NodeView { label: label, ..self }
    }

    /// This node with `style` for its style.
    pub open spec fn with_style(self, style: Style) -> NodeView {
        NodeView { style: style, ..self }
    }

    /// This node with `color` for its color, or without a color.
    pub open spec fn with_color(self, color: Option<Seq<char>>) -> NodeView {
        NodeView { color: color, ..self }
    }

    /// This node with `shape` for its shape, or without a shape.
    pub open spec fn with_shape(self, shape: Option<Seq<char>>) -> NodeView {
        NodeView { shape: shape, ..self }
    }

    /// `[label=..]` with the label as a quoted literal, even where the label is empty;
    /// nothing where labels are suppressed.
    pub open spec fn label_attr(self, options: Set<RenderOption>) -> Seq<char> {
        if options.contains(RenderOption::NoNodeLabels) {
            Seq::empty()
        } else {
            "[label="@ + quoted(self.label) + "]"@
        }
    }

    /// `[style=".."]` with the style's keyword; nothing where no style is set or styles are
    /// suppressed.
    pub open spec fn style_attr(self, options: Set<RenderOption>) -> Seq<char> {
        if options.contains(RenderOption::NoNodeStyles) || self.style == Style::Unset {
            Seq::empty()
        } else {
            "[style=\""@ + self.style.keyword() + "\"]"@
        }
    }

    /// `[color=..]` with the color as a quoted literal; nothing where no color is set or colors
    /// are suppressed.
    pub open spec fn color_attr(self, options: Set<RenderOption>) -> Seq<char> {
        match self.color {
            Some(color) if !options.contains(RenderOption::NoNodeColors) => {
                "[color="@ + quoted(color) + "]"@
            },
            _ => Seq::empty(),
        }
    }

    /// `[shape=".."]` with the shape as it is; nothing where no shape is set. No option
    /// suppresses it.
    pub open spec fn shape_attr(self) -> Seq<char> {
        match self.shape {
            Some(shape) => "[shape=\""@ + shape + "\"]"@,
            None => Seq::empty(),
        }
    }

    /// The node's statement in DOT: the identifier, then the attributes in the fixed order
    /// label, style, color, shape, then a semicolon.
    pub open spec fn dot_fragment(self, options: Set<RenderOption>) -> Seq<char> {
        self.name + self.label_attr(options) + self.style_attr(options) + self.color_attr(options)
            + self.shape_attr() + ";"@
    }
}

impl View for Node {
    type V = NodeView;

    open spec fn view(&self) -> NodeView {
        NodeView {
            name: self.name@,
            label: self.label@,
            style: self.style,
            color: match self.color {
                Some(color) => Some(color@),
                None => None,
            },
            index: self.index,
            shape: match self.shape {
                Some(shape) => Some(shape@),
                None => None,
            },
        }
    }
}

impl Clone for Node {
    /// A node with the same identifier and attributes.
    fn clone(&self) -> (copy: Self)
        ensures
            copy@ == self@,
    {
        Node {
            name: self.name.clone(),
            label: self.label.clone(),
            style: self.style,
            color: self.color,
            index: self.index,
            shape: match &self.shape {
                Some(shape) => Some(shape.clone()),
                None => None,
            },
        }
    }
}

impl Node {
    /// A node with the given identifier, an empty label and no other attribute.
    pub fn new(name: &str) -> (node: Self)
        ensures
            node@ == (NodeView {
                name: name@,
                label: Seq::empty(),
                style: Style::Unset,
                color: None,
                index: 0,
                shape: None,
            }),
    {
        Node {
            name: String::from_str(name),
            label: String::new(),
            style: Style::Unset,
            color: None,
            index: 0,
            shape: None,
        }
    }

    /// A node whose label is its identifier.
    pub fn new_with_label(name_label: &str) -> (node: Self)
        ensures
            node@ == (NodeView {
                name: name_label@,
                label: name_label@,
                style: Style::Unset,
                color: None,
                index: 0,
                shape: None,
            }),
    {
        Node {
            name: String::from_str(name_label),
            label: String::from_str(name_label),
            style: Style::Unset,
            color: None,
            index: 0,
            shape: None,
        }
    }

    /// Replaces the label.
    pub fn set_label(&mut self, label: &str)
        ensures
            final(self)@ == old(self)@.with_label(label@),
    {
        self.label = String::from_str(label);
    }

    /// Replaces the style; `Style::Unset` takes it away.
    pub fn set_style(&mut self, style: Style)
        ensures
            final(self)@ == old(self)@.with_style(style),
    {
        self.style = style;
    }

    /// Sets the shape, or clears it with `None`.
    pub fn set_shape(&mut self, shape: Option<&str>)
        ensures
            final(self)@ == old(self)@.with_shape(
                match shape {
                    Some(s) => Some(s@),
                    None => None,
                },
            ),
    {
        match shape {
            Some(s) => self.shape = Some(String::from_str(s)),
            None => self.shape = None,
        }
    }

    /// Sets the color, or clears it with `None`.
    pub fn set_color(&mut self, color: Option<&'static str>)
        ensures
            final(self)@ == old(self)@.with_color(
                match color {
                    Some(c) => Some(c@),
                    None => None,
                },
            ),
    {
        self.color = color;
    }

    /// The identifier under which the node appears in DOT.
    pub fn node_id(&self) -> (id: &str)
        ensures
            id@ == self@.name,
    {
        self.name.as_str()
    }

    /// The node's statement in DOT under the given options.
    pub fn to_dot_string(&self, options: &[RenderOption]) -> (fragment: String)
        ensures
            fragment@ == self@.dot_fragment(options@.to_set()),
    {
        let ghost opts = options@.to_set();
        let mut text = String::from_str(self.node_id());

        if !has_option(options, RenderOption::NoNodeLabels) {
            let escaped = quote_string(self.label.as_str());
            text.append("[label=");
            text.append(escaped.as_str());
            text.append("]");
        }
        let ghost with_label = text@;
        assert(with_label =~= self@.name + self@.label_attr(opts));

        let style = self.style;
        if !has_option(options, RenderOption::NoNodeStyles) && style != Style::Unset {
            text.append("[style=\"");
            text.append(style.as_slice());
            text.append("\"]");
        }
        let ghost with_style = text@;
        assert(with_style =~= with_label + self@.style_attr(opts));

        if !has_option(options, RenderOption::NoNodeColors) {
            if let Some(c) = self.color {
                let colorstring = quote_string(c);
                text.append("[color=");
                text.append(colorstring.as_str());
                text.append("]");
            }
        }
        let ghost with_color = text@;
        assert(with_color =~= with_style + self@.color_attr(opts));

        if let Some(shape) = &self.shape {
            text.append("[shape=\"");
            text.append(shape.as_str());
            text.append("\"]");
        }
        assert(text@ =~= with_color + self@.shape_attr());

        text.append(";");
        text
    }
}

/// Two setters of different attributes give the same node in either order, so the order of
/// the calls that built a node never shows in its fragment.
pub proof fn lemma_setters_commute(
    node: NodeView,
    label: Seq<char>,
    style: Style,
    color: Option<Seq<char>>,
    shape: Option<Seq<char>>,
)
    ensures
        node.with_label(label).with_style(style) == node.with_style(style).with_label(label),
        node.with_label(label).with_color(color) == node.with_color(color).with_label(label),
        node.with_label(label).with_shape(shape) == node.with_shape(shape).with_label(label),
        node.with_style(style).with_color(color) == node.with_color(color).with_style(style),
        node.with_style(style).with_shape(shape) == node.with_shape(shape).with_style(style),
        node.with_color(color).with_shape(shape) == node.with_shape(shape).with_color(color),
{
}

/// With nothing suppressed, the attributes follow the identifier in the order label, style,
/// color, shape: the label always, the style where one is set, the color and the shape where
/// present.
pub proof fn lemma_attribute_order(node: NodeView, options: Set<RenderOption>)
    requires
        !options.contains(RenderOption::NoNodeLabels),
        !options.contains(RenderOption::NoNodeStyles),
        !options.contains(RenderOption::NoNodeColors),
    ensures
        node.dot_fragment(options) == node.name + ("[label="@ + quoted(node.label) + "]"@) + (
        if node.style != Style::Unset {
            "[style=\""@ + node.style.keyword() + "\"]"@
        } else {
            Seq::empty()
        }) + (match node.color {
            Some(color) => "[color="@ + quoted(color) + "]"@,
            None => Seq::empty(),
        }) + (match node.shape {
            Some(shape) => "[shape=\""@ + shape + "\"]"@,
            None => Seq::empty(),
        }) + ";"@,
{
}

/// With labels, styles and colors all suppressed, only the shape is left between the
/// identifier and the semicolon, whatever else the node has set.
pub proof fn lemma_all_suppressed(node: NodeView, options: Set<RenderOption>)
    requires
        options.contains(RenderOption::NoNodeLabels),
        options.contains(RenderOption::NoNodeStyles),
        options.contains(RenderOption::NoNodeColors),
    ensures
        node.dot_fragment(options) == node.name + node.shape_attr() + ";"@,
        node.shape matches Some(shape) ==> node.dot_fragment(options) == node.name + "[shape=\""@
            + shape + "\"]"@ + ";"@,
{
}

} // verus!
