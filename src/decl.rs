//! The declaration tree that the transformer reads and writes.
use vstd::prelude::*;

verus! {

broadcast use vstd::std_specs::vec::group_vec_axioms, vstd::seq::group_seq_axioms;

/// An item inside a foreign block.
pub enum ForeignItem {
    /// A foreign function: its name, the types of its parameters in order, its return
    /// type if it has one, and its source text.
    Function { name: String, params: Vec<String>, ret: Option<String>, text: String },
    /// Any other foreign item, kept as source text.
    Verbatim { text: String },
}

/// A node of a declaration tree.
pub enum Node {
    /// A module with inline content: the text before its brace, and its items.
    Module { header: String, children: Vec<Node> },
    /// A foreign block: the text before its brace, and its items.
    Foreign { header: String, items: Vec<ForeignItem> },
    /// Any other item, kept as source text.
    Verbatim { text: String },
}

/// What a foreign item means, over plain sequences.
pub enum ForeignDecl {
    Function { name: Seq<char>, params: Seq<Seq<char>>, ret: Option<Seq<char>>, text: Seq<char> },
    Verbatim { text: Seq<char> },
}

/// What a node means, over plain sequences.
pub enum Decl {
    Module { header: Seq<char>, children: Seq<Decl> },
    Foreign { header: Seq<char>, items: Seq<ForeignDecl> },
    Verbatim { text: Seq<char> },
}

/// A closure signature found at a call site: the closure's name, the types of the call's
/// parameters after the adapter itself, and the return type.
pub struct ClosureDefinition {
    pub name: String,
    pub args: Vec<String>,
    pub ret: Option<String>,
}

pub struct ClosureSig {
    pub name: Seq<char>,
    pub args: Seq<Seq<char>>,
    pub ret: Option<Seq<char>>,
}

pub open spec fn strings_view(v: Seq<String>) -> Seq<Seq<char>> {
    v.map_values(|s: String| s@)
}

pub open spec fn opt_string_view(o: Option<String>) -> Option<Seq<char>> {
    match o {
        Some(s) => Some(s@),
        None => None,
    }
}

impl ClosureDefinition {
    pub open spec fn view(&self) -> ClosureSig {
        ClosureSig {
            name: self.name@,
            args: strings_view(self.args@),
            ret: opt_string_view(self.ret),
        }
    }
}

pub open spec fn view_foreign_item(i: ForeignItem) -> ForeignDecl {
    match i {
        ForeignItem::Function { name, params, ret, text } => ForeignDecl::Function {
            name: name@,
            params: strings_view(params@),
            ret: opt_string_view(ret),
            text: text@,
        },
        ForeignItem::Verbatim { text } => ForeignDecl::Verbatim { text: text@ },
    }
}

pub open spec fn view_foreign_items(s: Seq<ForeignItem>) -> Seq<ForeignDecl> {
    s.map_values(|i: ForeignItem| view_foreign_item(i))
}

pub open spec fn view_node(n: Node) -> Decl
    decreases n,
{
    match n {
        Node::Module { header, children } => Decl::Module {
            header: header@,
            children: view_nodes(children@),
        },
        Node::Foreign { header, items } => Decl::Foreign {
            header: header@,
            items: view_foreign_items(items@),
        },
        Node::Verbatim { text } => Decl::Verbatim { text: text@ },
    }
}

pub open spec fn view_nodes(s: Seq<Node>) -> Seq<Decl>
    decreases s,
{
    if s.len() == 0 {
        Seq::empty()
    } else {
        view_nodes(s.drop_last()).push(view_node(s.last()))
    }
}

} // verus!
