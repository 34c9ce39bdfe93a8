//! The graph container and the assembly of its DOT text.

use crate::edge::{Edge, EdgeView};
use crate::node::{Node, NodeView};
use crate::render::RenderOption;
use vstd::prelude::*;

verus! {

/// Whether the edges of a graph have a direction. The kind decides the keyword that opens
/// the graph and the operator of its edges; it is fixed when the graph is made.
#[derive(Copy, Clone, PartialEq, Eq, Debug, Structural)]
pub enum Kind {
    Digraph,
    Graph,
}

impl Kind {
    /// The characters of the keyword that opens a graph of this kind.
    pub open spec fn spec_keyword(self) -> Seq<char> {
        match self {
            Kind::Digraph => "digraph"@,
            Kind::Graph => "graph"@,
        }
    }

    /// The characters of the operator between the two ends of an edge in a graph of this kind.
    pub open spec fn spec_edgeop(self) -> Seq<char> {
        match self {
            Kind::Digraph => "->"@,
            Kind::Graph => "--"@,
        }
    }

    /// The keyword that opens a graph of this kind.
    pub fn keyword(&self) -> (keyword: &'static str)
        ensures
            keyword@ == self.spec_keyword(),
    {
        match *self {
            Kind::Digraph => "digraph",
            Kind::Graph => "graph",
        }
    }

    /// The operator between the two ends of an edge in a graph of this kind.
    pub fn edgeop(&self) -> (edgeop: &'static str)
        ensures
            edgeop@ == self.spec_edgeop(),
    {
        match *self {
            Kind::Digraph => "->",
            Kind::Graph => "--",
        }
    }
}

/// A named graph: its nodes and its edges, each in the order in which they were added.
pub struct Graph {
    name: String,
    kind: Kind,
    nodes: Vec<Node>,
    edges: Vec<Edge>,
}

/// A graph as a mathematical value.
pub struct GraphView {
    pub name: Seq<char>,
    pub kind: Kind,
    pub nodes: Seq<NodeView>,
    pub edges: Seq<EdgeView>,
}

impl GraphView {
    /// The opening line: keyword, name and brace.
    pub open spec fn header(self) -> Seq<char> {
        self.kind.spec_keyword() + " "@ + self.name + " {\n"@
    }

    /// The indented line of one node.
    pub open spec fn node_line(node: NodeView, options: Set<RenderOption>) -> Seq<char> {
        "    "@ + node.dot_fragment(options) + "\n"@
    }

    /// The indented line of one edge in a graph of this kind.
    pub open spec fn edge_line(self, edge: EdgeView) -> Seq<char> {
        "    "@ + edge.dot_fragment(self.kind.spec_edgeop()) + "\n"@
    }

    /// The lines of all nodes, in the order of `nodes`.
    pub open spec fn node_lines(self, options: Set<RenderOption>) -> Seq<char> {
        self.nodes.map_values(|node: NodeView| Self::node_line(node, options)).flatten()
    }

    /// The lines of all edges, in the order of `edges`.
    pub open spec fn edge_lines(self) -> Seq<char> {
        self.edges.map_values(|edge: EdgeView| self.edge_line(edge)).flatten()
    }

    /// The whole DOT text: header, node lines, edge lines and the closing brace on a line of
    /// its own.
    pub open spec fn dot_text(self, options: Set<RenderOption>) -> Seq<char> {
        self.header() + self.node_lines(options) + self.edge_lines() + "}\n"@
    }
}

impl View for Graph {
    type V = GraphView;

    closed spec fn view(&self) -> GraphView {
        GraphView {
            name: self.name@,
            kind: self.kind,
            nodes: self.nodes@.map_values(|node: Node| node@),
            edges: self.edges@.map_values(|edge: Edge| edge@),
        }
    }
}

/// A brace that ends its line is the brace followed by the newline.
proof fn lemma_line_ends()
    ensures
        " {\n"@ == " {"@ + "\n"@,
        "}\n"@ == "}"@ + "\n"@,
{
    reveal_strlit(" {\n");
    reveal_strlit(" {");
    reveal_strlit("}\n");
    reveal_strlit("}");
    reveal_strlit("\n");
    assert(" {\n"@ =~= " {"@ + "\n"@);
    assert("}\n"@ =~= "}"@ + "\n"@);
}

/// Four pieces joined are the four one after the other.
proof fn lemma_flatten_four(pieces: Seq<Seq<char>>)
    requires
        pieces.len() == 4,
    ensures
        pieces.flatten() == pieces[0] + pieces[1] + pieces[2] + pieces[3],
{
    reveal_with_fuel(Seq::flatten, 5);
    assert(pieces.flatten() =~= pieces[0] + pieces[1] + pieces[2] + pieces[3]);
}

/// The lines of the first `i + 1` items are the lines of the first `i` and the line of the
/// next one.
proof fn lemma_flatten_next<A>(items: Seq<A>, i: int, line: spec_fn(A) -> Seq<char>)
    requires
        0 <= i < items.len(),
    ensures
        items.take(i + 1).map_values(line).flatten() == items.take(i).map_values(line).flatten()
            + line(items[i]),
{
    assert(items.take(i + 1).map_values(line) =~= items.take(i).map_values(line).push(
        line(items[i]),
    ));
    items.take(i).map_values(line).lemma_flatten_push(line(items[i]));
}

/// Appends the pieces of `arg` and a newline to `w`.
fn writeln(w: &mut String, arg: &[&str])
    ensures
        final(w)@ == old(w)@ + arg@.map_values(|s: &str| s@).flatten() + "\n"@,
{
    let ghost pieces = arg@.map_values(|s: &str| s@);
    let mut i: usize = 0;
    assert(pieces.take(0) =~= Seq::empty());
    while i < arg.len()
        invariant
            i <= arg@.len(),
            pieces == arg@.map_values(|s: &str| s@),
            w@ == old(w)@ + pieces.take(i as int).flatten(),
        decreases arg@.len() - i,
    {
        proof {
            pieces.take(i as int).lemma_flatten_push(pieces[i as int]);
            assert(pieces.take(i + 1) =~= pieces.take(i as int).push(pieces[i as int]));
        }
        w.append(arg[i]);
        i += 1;
        assert(w@ =~= old(w)@ + pieces.take(i as int).flatten());
    }
    assert(pieces.take(i as int) =~= pieces);
    w.append("\n");
}

/// Appends one level of indentation to `w`.
fn indent(w: &mut String)
    ensures
        final(w)@ == old(w)@ + "    "@,
{
    w.append("    ");
}

impl Graph {
    /// An empty graph of the given name and kind.
    pub fn new(name: &str, kind: Kind) -> (graph: Graph)
        ensures
            graph@ == (GraphView {
                name: name@,
                kind: kind,
                nodes: Seq::empty(),
                edges: Seq::empty(),
            }),
    {
        let graph = Graph {
            name: String::from_str(name),
            kind: kind,
            nodes: Vec::new(),
            edges: Vec::new(),
        };
        assert(graph@.nodes =~= Seq::empty());
        assert(graph@.edges =~= Seq::empty());
        graph
    }

    /// Adds `node` after the nodes that are there.
    pub fn add_node(&mut self, node: Node)
        ensures
            final(self)@ == (GraphView { nodes: old(self)@.nodes.push(node@), ..old(self)@ }),
    {
        self.nodes.push(node);
        assert(self@.nodes =~= old(self)@.nodes.push(node@));
    }

    /// Adds `edge` after the edges that are there.
    pub fn add_edge(&mut self, edge: Edge)
        ensures
            final(self)@ == (GraphView { edges: old(self)@.edges.push(edge@), ..old(self)@ }),
    {
        self.edges.push(edge);
        assert(self@.edges =~= old(self)@.edges.push(edge@));
    }

    /// The graph's DOT text with every attribute that is set.
    pub fn to_dot_string(&self) -> (text: String)
        ensures
            text@ == self@.dot_text(Set::empty()),
    {
        let mut writer = String::new();
        let options: [RenderOption; 0] = [];
        self.render_opts(&mut writer, &options);
        assert(options@.to_set() =~= Set::empty());
        writer
    }

    /// Renders the graph into `w` in DOT syntax, leaving out what `options` suppress.
    pub fn render_opts(&self, w: &mut String, options: &[RenderOption])
        ensures
            final(w)@ == old(w)@ + self@.dot_text(options@.to_set()),
    {
        let ghost opts = options@.to_set();
        let ghost node_line = |node: NodeView| GraphView::node_line(node, opts);
        let ghost edge_line = |edge: EdgeView| self@.edge_line(edge);

        let header: [&str; 4] = [self.kind.keyword(), " ", self.name.as_str(), " {"];
        writeln(w, &header);
        proof {
            let pieces = seq![self@.kind.spec_keyword(), " "@, self@.name, " {"@];
            assert(header@.map_values(|s: &str| s@) =~= pieces);
            lemma_flatten_four(pieces);
            lemma_line_ends();
            assert(w@ =~= old(w)@ + self@.header());
            assert(self@.nodes.take(0).map_values(node_line) =~= Seq::empty());
        }

        let mut i: usize = 0;
        while i < self.nodes.len()
            invariant
                i <= self.nodes@.len(),
                opts == options@.to_set(),
                node_line == |node: NodeView| GraphView::node_line(node, opts),
                w@ == old(w)@ + self@.header() + self@.nodes.take(i as int).map_values(
                    node_line,
                ).flatten(),
            decreases self.nodes@.len() - i,
        {
            let ghost before = w@;
            indent(w);
            let mut text: Vec<&str> = Vec::new();
            let node_dot_string: String = self.nodes[i].to_dot_string(options);
            text.push(node_dot_string.as_str());
            writeln(w, text.as_slice());
            proof {
                let pieces = seq![node_dot_string@];
                assert(text@.map_values(|s: &str| s@) =~= pieces);
                pieces.lemma_flatten_singleton();
                assert(w@ =~= before + node_line(self@.nodes[i as int]));
                lemma_flatten_next(self@.nodes, i as int, node_line);
            }
            i += 1;
        }
        proof {
            assert(self@.nodes.take(i as int) =~= self@.nodes);
            assert(self@.edges.take(0).map_values(edge_line) =~= Seq::empty());
        }

        let edge_symbol = self.kind.edgeop();
        let mut j: usize = 0;
        while j < self.edges.len()
            invariant
                j <= self.edges@.len(),
                edge_symbol@ == self@.kind.spec_edgeop(),
                edge_line == |edge: EdgeView| self@.edge_line(edge),
                w@ == old(w)@ + self@.header() + self@.node_lines(opts) + self@.edges.take(
                    j as int,
                ).map_values(edge_line).flatten(),
            decreases self.edges@.len() - j,
        {
            let ghost before = w@;
            indent(w);
            let mut text: Vec<&str> = Vec::new();
            let edge_dot_string: String = self.edges[j].to_dot_string(edge_symbol);
            text.push(edge_dot_string.as_str());
            writeln(w, text.as_slice());
            proof {
                let pieces = seq![edge_dot_string@];
                assert(text@.map_values(|s: &str| s@) =~= pieces);
                pieces.lemma_flatten_singleton();
                assert(w@ =~= before + edge_line(self@.edges[j as int]));
                lemma_flatten_next(self@.edges, j as int, edge_line);
            }
            j += 1;
        }
        assert(self@.edges.take(j as int) =~= self@.edges);

        let ghost before = w@;
        let footer: [&str; 1] = ["}"];
        writeln(w, &footer);
        proof {
            let pieces = seq!["}"@];
            assert(footer@.map_values(|s: &str| s@) =~= pieces);
            pieces.lemma_flatten_singleton();
            lemma_line_ends();
            assert(w@ =~= before + "}\n"@);
        }
    }
}

/// Rendering reads the graph and nothing else: two calls of `to_dot_string` on the same graph
/// return the same characters, and so the same bytes.
pub proof fn lemma_to_dot_string_deterministic(graph: &Graph, first: String, second: String)
    requires
        call_ensures(Graph::to_dot_string, (graph,), first),
        call_ensures(Graph::to_dot_string, (graph,), second),
    ensures
        first@ == second@,
        vstd::utf8::encode_utf8(first@) == vstd::utf8::encode_utf8(second@),
{
}

} // verus!
