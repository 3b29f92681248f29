//! The tree of an XML document, and how it grows from the events of a
//! reader: the start and the end of an element, an empty element, and text.

use std::collections::HashMap;
use vstd::prelude::*;
use vstd::string::StringExecFns;

verus! {

/// An element: its name, its attributes, and what stands inside it.
#[derive(Debug)]
pub struct Node {
    pub name: String,
    pub attributes: HashMap<String, String>,
    pub children: Vec<Child>,
}

/// What stands inside an element: another element, or text.
#[derive(Debug)]
pub enum Child {
    Node(Node),
    Text(String),
}

/// What a reader found next in a document.
#[derive(Debug)]
pub enum XmlEvent {
    /// The start tag of an element, with its attributes.
    Start(String, HashMap<String, String>),
    /// The end tag of an element.
    End(String),
    /// An element without content.
    Empty(String, HashMap<String, String>),
    Text(String),
    /// The end of the document.
    Eof,
    /// Anything else: a comment, a declaration, an instruction.
    Other,
}

/// Where the reading of a document stands after an event.
#[derive(Debug)]
pub enum Step {
    /// The document goes on.
    More(TreeBuilder),
    /// The document has ended: what stands at its top level.
    Done(Vec<Child>),
}

/// The elements that are open while a document is read, the outermost
/// first. The first one stands for the document itself and has the name
/// `root`.
#[derive(Debug)]
pub struct TreeBuilder {
    open: Vec<Node>,
}

/// The name of the element that stands for the document.
pub const ROOT: &'static str = "root";

/// Whether `node` is an element of the given name and attributes with
/// nothing inside.
pub open spec fn is_leaf(node: Node, name: String, attributes: HashMap<String, String>) -> bool {
    node.name == name && node.attributes == attributes && node.children@.len() == 0
}

/// Whether `after` is `before` with one more child at the end.
pub open spec fn with_child(before: Node, after: Node, child: Child) -> bool {
    after.name == before.name && after.attributes == before.attributes && after.children@
        == before.children@.push(child)
}

/// The message of the error for an end tag that does not fit the element
/// that is open.
pub open spec fn mismatch_message(end: Seq<char>, start: Seq<char>) -> Seq<char> {
    "End tag \""@ + end + "\" does not match start tag \""@ + start + "\""@
}

/// The message of the error for a document that ends inside an element.
pub open spec fn unclosed_message(start: Seq<char>) -> Seq<char> {
    "No end tag found for \""@ + start + "\""@
}

impl View for TreeBuilder {
    type V = Seq<Node>;

    closed spec fn view(&self) -> Seq<Node> {
        self.open@
    }
}

impl TreeBuilder {
    #[verifier::type_invariant]
    spec fn well_formed(self) -> bool {
        self.open@.len() >= 1
    }

    /// The start of a document: nothing is open but the document itself.
    pub fn new() -> (r: TreeBuilder)
        ensures
            r@.len() == 1,
            r@[0].name@ == ROOT@,
            r@[0].children@.len() == 0,
    {
        let root = Node {
            name: String::from_str(ROOT),
            attributes: HashMap::new(),
            children: Vec::new(),
        };
        let mut open: Vec<Node> = Vec::new();
        open.push(root);
        TreeBuilder { open }
    }

    /// Adds a child to the innermost open element.
    fn add(self, child: Child) -> (r: TreeBuilder)
        ensures
            r@.len() == self@.len(),
            r@.drop_last() == self@.drop_last(),
            with_child(self@.last(), r@.last(), child),
    {
        proof {
            use_type_invariant(&self);
        }
        let mut open = self.open;
        let ghost before = open@;
        match open.pop() {
            Some(top) => {
                let Node { name, attributes, children } = top;
                let mut children = children;
                children.push(child);
                open.push(Node { name, attributes, children });
                assert(open@.drop_last() =~= before.drop_last());
                TreeBuilder { open }
            },
            None => TreeBuilder::new(),
        }
    }

    /// Takes in the next event of the document.
    ///
    /// A start tag opens an element. An end tag closes the innermost open
    /// element, which becomes a child of the one around it, and must carry
    /// its name; at the top level, an end tag of the name `root` ends the
    /// document. An empty element and a text become children of the
    /// innermost open element. The end of the document must come at the
    /// top level.
    pub fn feed(self, event: XmlEvent) -> (r: Result<Step, String>)
        ensures
            self@.len() >= 1,
            event matches XmlEvent::Start(name, attributes) ==> (r matches Ok(Step::More(next))
                && next@.len() == self@.len() + 1 && next@.drop_last() == self@ && is_leaf(
                next@.last(),
                name,
                attributes,
            )),
            event matches XmlEvent::Empty(name, attributes) ==> (r matches Ok(Step::More(next))
                && next@.len() == self@.len() && next@.drop_last() == self@.drop_last()
                && exists|leaf: Node|
                is_leaf(leaf, name, attributes) && #[trigger] with_child(
                    self@.last(),
                    next@.last(),
                    Child::Node(leaf),
                )),
            event matches XmlEvent::Text(text) ==> (r matches Ok(Step::More(next)) && next@.len()
                == self@.len() && next@.drop_last() == self@.drop_last() && with_child(
                self@.last(),
                next@.last(),
                Child::Text(text),
            )),
            event matches XmlEvent::End(name) ==> (if name@ != self@.last().name@ {
                r matches Err(message) && message@ == mismatch_message(name@, self@.last().name@)
            } else if self@.len() == 1 {
                r matches Ok(Step::Done(children)) && children == self@[0].children
            } else {
                r matches Ok(Step::More(next)) && next@.len() == self@.len() - 1
                    && next@.drop_last() == self@.take(self@.len() - 2) && with_child(
                    self@[self@.len() - 2],
                    next@.last(),
                    Child::Node(self@.last()),
                )
            }),
            event is Eof ==> (if self@.len() == 1 {
                r matches Ok(Step::Done(children)) && children == self@[0].children
            } else {
                r matches Err(message) && message@ == unclosed_message(self@.last().name@)
            }),
            event is Other ==> (r matches Ok(Step::More(next)) && next@ == self@),
    {
        proof {
            use_type_invariant(&self);
        }
        match event {
            XmlEvent::Start(name, attributes) => {
                let mut open = self.open;
                open.push(Node { name, attributes, children: Vec::new() });
                assert(open@.drop_last() =~= self@);
                Ok(Step::More(TreeBuilder { open }))
            },
            XmlEvent::Empty(name, attributes) => {
                let leaf = Node { name, attributes, children: Vec::new() };
                let next = self.add(Child::Node(leaf));
                assert(is_leaf(leaf, name, attributes) && with_child(
                    self@.last(),
                    next@.last(),
                    Child::Node(leaf),
                ));
                Ok(Step::More(next))
            },
            XmlEvent::Text(text) => Ok(Step::More(self.add(Child::Text(text)))),
            XmlEvent::End(name) => {
                let mut open = self.open;
                let ghost before = open@;
                match open.pop() {
                    Some(top) => {
                        if top.name != name {
                            let message = String::from_str("End tag \"").concat(
                                name.as_str(),
                            ).concat("\" does not match start tag \"").concat(
                                top.name.as_str(),
                            ).concat("\"");
                            Err(message)
                        } else if open.len() == 0 {
                            Ok(Step::Done(top.children))
                        } else {
                            assert(open@ =~= before.take(before.len() - 1));
                            let next = (TreeBuilder { open }).add(Child::Node(top));
                            assert(next@.drop_last() =~= before.take(before.len() - 2));
                            Ok(Step::More(next))
                        }
                    },
                    None => Ok(Step::Done(Vec::new())),
                }
            },
            XmlEvent::Eof => {
                let mut open = self.open;
                match open.pop() {
                    Some(top) => {
                        if open.len() == 0 {
                            Ok(Step::Done(top.children))
                        } else {
                            Err(
                                String::from_str("No end tag found for \"").concat(
                                    top.name.as_str(),
                                ).concat("\""),
                            )
                        }
                    },
                    None => Ok(Step::Done(Vec::new())),
                }
            },
            XmlEvent::Other => Ok(Step::More(self)),
        }
    }
}

} // verus!
