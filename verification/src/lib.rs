//! Building Graphviz DOT text from an in-memory graph description.
//!
//! A [`Graph`] collects [`Node`]s and [`Edge`]s in the order in which they are added and
//! renders them as DOT text. What the text is, character by character, is stated by the
//! `dot_text` and `dot_fragment` functions of the view types, and the rendering functions
//! are proved to produce exactly that.

pub mod edge;
pub mod graph;
pub mod node;
pub mod render;
pub mod style;
pub mod utils;

pub use edge::Edge;
pub use graph::{Graph, Kind};
pub use node::Node;
pub use render::RenderOption;
pub use style::Style;
