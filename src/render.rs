//! Serialisation of a declaration tree to source text.
use vstd::prelude::*;
use crate::decl::{Node, ForeignItem, Decl, ForeignDecl, view_node, view_nodes, view_foreign_item, view_foreign_items};

verus! {

broadcast use vstd::std_specs::vec::group_vec_axioms, vstd::seq::group_seq_axioms;

pub open spec fn foreign_text(i: ForeignDecl) -> Seq<char> {
    match i {
        ForeignDecl::Function { text, .. } => text,
        ForeignDecl::Verbatim { text } => text,
    }
}

/// Each item's text followed by a space.
pub open spec fn render_items(s: Seq<ForeignDecl>) -> Seq<char>
    decreases s.len(),
{
    if s.len() == 0 {
        Seq::empty()
    } else {
        render_items(s.drop_last()) + foreign_text(s.last()) + " "@
    }
}

/// The text of a node: a module or a foreign block is its header and its items in braces.
pub open spec fn render_decl(d: Decl) -> Seq<char>
    decreases d,
{
    match d {
        Decl::Module { header, children } => header + " { "@ + render_decls(children) + "}"@,
        Decl::Foreign { header, items } => header + " { "@ + render_items(items) + "}"@,
        Decl::Verbatim { text } => text,
    }
}

/// Each node's text followed by a space.
pub open spec fn render_decls(s: Seq<Decl>) -> Seq<char>
    decreases s,
{
    if s.len() == 0 {
        Seq::empty()
    } else {
        render_decls(s.drop_last()) + render_decl(s.last()) + " "@
    }
}

fn render_foreign_items(items: &Vec<ForeignItem>, out: &mut String)
    ensures
        final(out)@ == old(out)@ + render_items(view_foreign_items(items@)),
{
    let ghost s = view_foreign_items(items@);
    let ghost start = out@;
    let mut i: usize = 0;
    while i < items.len()
        invariant
            s == view_foreign_items(items@),
            i <= items.len(),
            out@ == start + render_items(s.take(i as int)),
        decreases items.len() - i,
    {
        match &items[i] {
            ForeignItem::Function { text, .. } => out.append(text.as_str()),
            ForeignItem::Verbatim { text } => out.append(text.as_str()),
        }
        out.append(" ");
        proof {
            let t = s.take(i as int + 1);
            assert(t.drop_last() =~= s.take(i as int));
            assert(t.last() == view_foreign_item(items@[i as int]));
            assert(out@ =~= start + render_items(t));
        }
        i = i + 1;
    }
    assert(s.take(items.len() as int) =~= s);
}

/// Appends the text of a node to `out`.
pub fn render_node(n: &Node, out: &mut String)
    ensures
        final(out)@ == old(out)@ + render_decl(view_node(*n)),
    decreases n,
{
    match n {
        Node::Module { header, children } => {
            out.append(header.as_str());
            out.append(" { ");
            render_nodes_into(children, out);
            out.append("}");
            assert(final(out)@ =~= old(out)@ + render_decl(view_node(*n)));
        },
        Node::Foreign { header, items } => {
            out.append(header.as_str());
            out.append(" { ");
            render_foreign_items(items, out);
            out.append("}");
            assert(final(out)@ =~= old(out)@ + render_decl(view_node(*n)));
        },
        Node::Verbatim { text } => {
            out.append(text.as_str());
        },
    }
}

/// Appends the text of each node, followed by a space, to `out`.
pub fn render_nodes_into(s: &Vec<Node>, out: &mut String)
    ensures
        final(out)@ == old(out)@ + render_decls(view_nodes(s@)),
    decreases s,
{
    let ghost start = out@;
    let mut i: usize = 0;
    while i < s.len()
        invariant
            i <= s.len(),
            out@ == start + render_decls(view_nodes(s@.take(i as int))),
        decreases s.len() - i,
    {
        render_node(&s[i], out);
        out.append(" ");
        proof {
            let t = s@.take(i as int + 1);
            assert(t.drop_last() =~= s@.take(i as int));
            let v = view_nodes(t);
            assert(v.drop_last() == view_nodes(s@.take(i as int)));
            assert(v.last() == view_node(s@[i as int]));
            assert(out@ =~= start + render_decls(v));
        }
        i = i + 1;
    }
    assert(s@.take(s.len() as int) =~= s@);
}

/// The text of a list of top-level nodes.
pub fn render(s: &Vec<Node>) -> (r: String)
    ensures
        r@ == render_decls(view_nodes(s@)),
{
    let mut out = String::new();
    render_nodes_into(s, &mut out);
    assert(out@ =~= render_decls(view_nodes(s@)));
    out
}

} // verus!
