//! A connection between two nodes and its DOT fragment.

use crate::utils::{quote_string, quoted};
use vstd::prelude::*;

verus! {

/// A connection from one node identifier to another. It holds the identifiers only, never the
/// nodes, and nothing checks that a node of that name exists.
pub struct Edge {
    /// The identifier of the node the edge leaves.
    pub source: String,
    /// The identifier of the node the edge reaches.
    pub target: String,
    /// The display text; `None` leaves the attribute out.
    pub label: Option<String>,
}

/// An edge as a mathematical value: its strings as character sequences.
pub struct EdgeView {
    pub source: Seq<char>,
    pub target: Seq<char>,
    pub label: Option<Seq<char>>,
}

impl EdgeView {
    /// `[label=..]` with the label as a quoted literal; nothing where no label is set.
    pub open spec fn label_attr(self) -> Seq<char> {
        match self.label {
            Some(label) => "[label="@ + quoted(label) + "]"@,
            None => Seq::empty(),
        }
    }

    /// The edge's statement in DOT: source, operator and target with one space between them,
    /// then the label attribute, then a semicolon.
    pub open spec fn dot_fragment(self, edge_symbol: Seq<char>) -> Seq<char> {
        self.source + " "@ + edge_symbol + " "@ + self.target + self.label_attr() + ";"@
    }
}

impl View for Edge {
    type V = EdgeView;

    open spec fn view(&self) -> EdgeView {
        EdgeView {
            source: self.source@,
            target: self.target@,
            label: match self.label {
                Some(label) => Some(label@),
                None => None,
            },
        }
    }
}

impl Clone for Edge {
    /// An edge between the same identifiers with the same label.
    fn clone(&self) -> (copy: Self)
        ensures
            copy@ == self@,
    {
        Edge {
            source: self.source.clone(),
            target: self.target.clone(),
            label: match &self.label {
                Some(label) => Some(label.clone()),
                None => None,
            },
        }
    }
}

impl Edge {
    /// An edge between the two identifiers, without a label.
    pub fn new(source: &str, target: &str) -> (edge: Self)
        ensures
            edge@ == (EdgeView { source: source@, target: target@, label: None }),
    {
        Edge { source: String::from_str(source), target: String::from_str(target), label: None }
    }

    /// Sets the label, or clears it with `None`.
    pub fn set_label(&mut self, label: Option<&str>)
        ensures
            final(self)@ == (EdgeView {
                label: match label {
                    Some(l) => Some(l@),
                    None => None,
                },
                ..old(self)@
            }),
    {
        match label {
            Some(l) => self.label = Some(String::from_str(l)),
            None => self.label = None,
        }
    }

    /// The edge's statement in DOT, with `edge_symbol` between the two identifiers.
    pub fn to_dot_string(&self, edge_symbol: &str) -> (fragment: String)
        ensures
            fragment@ == self@.dot_fragment(edge_symbol@),
    {
        let mut text = String::from_str(self.source.as_str());
        text.append(" ");
        text.append(edge_symbol);
        text.append(" ");
        text.append(self.target.as_str());
        if let Some(label) = &self.label {
            let escaped = quote_string(label.as_str());
            text.append("[label=");
            text.append(escaped.as_str());
            text.append("]");
        }
        text.append(";");
        text
    }
}

} // verus!
