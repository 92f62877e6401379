//! The transformer: finds closure call sites in foreign blocks, anywhere in a tree of
//! modules, and adds the adapter operations for each next to the block that declares it.
//!
//! Policy: a call site `<Name>_closure_call` stays in its block and the adapter's impl and
//! `Drop` impl follow the block. A release hook `<Name>_release_rust_return_value` with at
//! least one parameter is taken out of its block; for each distinct pair of hook name and
//! first parameter type, in order of first appearance, an exported function of that name
//! that drops its argument is added at the end of the top level. A foreign block left with
//! no items is dropped, and so is a module whose items were all dropped; a module that was
//! empty to begin with is kept. Children of a module are walked before the module itself,
//! so a module is pruned after its children are.
use vstd::prelude::*;
use crate::decl::{Node, ForeignItem, Decl, ForeignDecl, ClosureDefinition, ClosureSig, strings_view, opt_string_view, view_node, view_nodes, view_foreign_item, view_foreign_items};
use crate::names::{closure_name_of, ends_with, release_suffix, closure_name, is_release_hook};
use crate::synth::{Runtime, adapter_impl_text, adapter_drop_text, release_stub_text, adapter_impl, adapter_drop, release_stub};

verus! {

broadcast use vstd::std_specs::vec::group_vec_axioms, vstd::seq::group_seq_axioms;

/// A release hook's name and the type of its first parameter.
pub type ReleasePair = (Seq<char>, Seq<char>);

pub open spec fn is_call_site(i: ForeignDecl) -> bool {
    match i {
        ForeignDecl::Function { name, .. } => closure_name_of(name) is Some,
        ForeignDecl::Verbatim { .. } => false,
    }
}

pub open spec fn is_release_decl(i: ForeignDecl) -> bool {
    match i {
        ForeignDecl::Function { name, params, .. } => !(closure_name_of(name) is Some)
            && ends_with(name, release_suffix()) && params.len() >= 1,
        ForeignDecl::Verbatim { .. } => false,
    }
}

/// The parameters of a call after the adapter itself.
pub open spec fn call_args(params: Seq<Seq<char>>) -> Seq<Seq<char>> {
    if params.len() == 0 {
        params
    } else {
        params.subrange(1, params.len() as int)
    }
}

/// The closure signature that a call site declares.
pub open spec fn definition_of(i: ForeignDecl) -> ClosureSig {
    match i {
        ForeignDecl::Function { name, params, ret, .. } => ClosureSig {
            name: closure_name_of(name)->Some_0,
            args: call_args(params),
            ret: ret,
        },
        ForeignDecl::Verbatim { .. } => ClosureSig { name: Seq::empty(), args: Seq::empty(), ret: None },
    }
}

/// The items of a block that stay in it: all but the release hooks.
pub open spec fn kept_items(items: Seq<ForeignDecl>) -> Seq<ForeignDecl>
    decreases items.len(),
{
    if items.len() == 0 {
        Seq::empty()
    } else if is_release_decl(items.last()) {
        kept_items(items.drop_last())
    } else {
        kept_items(items.drop_last()).push(items.last())
    }
}

/// The closure signatures declared by the call sites of a block, in order.
pub open spec fn call_definitions(items: Seq<ForeignDecl>) -> Seq<ClosureSig>
    decreases items.len(),
{
    if items.len() == 0 {
        Seq::empty()
    } else if is_call_site(items.last()) {
        call_definitions(items.drop_last()).push(definition_of(items.last()))
    } else {
        call_definitions(items.drop_last())
    }
}

/// The release pairs of a block, in order.
pub open spec fn release_pairs(items: Seq<ForeignDecl>) -> Seq<ReleasePair>
    decreases items.len(),
{
    if items.len() == 0 {
        Seq::empty()
    } else if is_release_decl(items.last()) {
        match items.last() {
            ForeignDecl::Function { name, params, .. } => release_pairs(items.drop_last()).push(
                (name, params[0]),
            ),
            ForeignDecl::Verbatim { .. } => release_pairs(items.drop_last()),
        }
    } else {
        release_pairs(items.drop_last())
    }
}

/// The adapter declarations for closure signatures: its impl block and its `Drop` impl, for
/// each in turn.
pub open spec fn adapter_decls(defs: Seq<ClosureSig>, rt: Runtime) -> Seq<Decl>
    decreases defs.len(),
{
    if defs.len() == 0 {
        Seq::empty()
    } else {
        adapter_decls(defs.drop_last(), rt) + seq![
            Decl::Verbatim { text: adapter_impl_text(defs.last(), rt) },
            Decl::Verbatim { text: adapter_drop_text(defs.last()) },
        ]
    }
}

/// What one node becomes: nothing, for a foreign block or a module that the walk leaves
/// empty; else the node itself, with its content transformed, followed by the adapters its
/// call sites declare.
pub open spec fn walk_decl(d: Decl, rt: Runtime) -> Seq<Decl>
    decreases d,
{
    match d {
        Decl::Module { header, children } => if children.len() > 0 && walk_decls(
            children,
            rt,
        ).len() == 0 {
            Seq::empty()
        } else {
            seq![Decl::Module { header: header, children: walk_decls(children, rt) }]
        },
        Decl::Foreign { header, items } => if kept_items(items).len() == 0 {
            Seq::empty()
        } else {
            seq![Decl::Foreign { header: header, items: kept_items(items) }] + adapter_decls(
                call_definitions(items),
                rt,
            )
        },
        Decl::Verbatim { text } => seq![d],
    }
}

pub open spec fn walk_decls(s: Seq<Decl>, rt: Runtime) -> Seq<Decl>
    decreases s,
{
    if s.len() == 0 {
        Seq::empty()
    } else {
        walk_decls(s.drop_last(), rt) + walk_decl(s.last(), rt)
    }
}

/// The release pairs of a node and everything inside it, in document order.
pub open spec fn releases_decl(d: Decl) -> Seq<ReleasePair>
    decreases d,
{
    match d {
        Decl::Module { children, .. } => releases_decls(children),
        Decl::Foreign { items, .. } => release_pairs(items),
        Decl::Verbatim { .. } => Seq::empty(),
    }
}

pub open spec fn releases_decls(s: Seq<Decl>) -> Seq<ReleasePair>
    decreases s,
{
    if s.len() == 0 {
        Seq::empty()
    } else {
        releases_decls(s.drop_last()) + releases_decl(s.last())
    }
}

/// Each element at its first occurrence.
pub open spec fn dedup<A>(s: Seq<A>) -> Seq<A>
    decreases s.len(),
{
    if s.len() == 0 {
        Seq::empty()
    } else if dedup(s.drop_last()).contains(s.last()) {
        dedup(s.drop_last())
    } else {
        dedup(s.drop_last()).push(s.last())
    }
}

/// The exported drop functions for release pairs.
pub open spec fn release_stubs(pairs: Seq<ReleasePair>) -> Seq<Decl> {
    pairs.map_values(|p: ReleasePair| Decl::Verbatim { text: release_stub_text(p.0, p.1) })
}

/// The whole transformation of a list of top-level declarations.
pub open spec fn enhance(s: Seq<Decl>, rt: Runtime) -> Seq<Decl> {
    walk_decls(s, rt) + release_stubs(dedup(releases_decls(s)))
}

pub open spec fn pairs_view(s: Seq<(String, String)>) -> Seq<ReleasePair> {
    s.map_values(|p: (String, String)| (p.0@, p.1@))
}

proof fn lemma_view_nodes_len(s: Seq<Node>)
    ensures
        view_nodes(s).len() == s.len(),
    decreases s.len(),
{
    if s.len() > 0 {
        lemma_view_nodes_len(s.drop_last());
    }
}

proof fn lemma_view_nodes_push(s: Seq<Node>, n: Node)
    ensures
        view_nodes(s.push(n)) == view_nodes(s).push(view_node(n)),
{
    assert(s.push(n).drop_last() =~= s);
}

proof fn lemma_view_nodes_concat(a: Seq<Node>, b: Seq<Node>)
    ensures
        view_nodes(a + b) == view_nodes(a) + view_nodes(b),
    decreases b.len(),
{
    if b.len() == 0 {
        assert(a + b =~= a);
        assert(view_nodes(a) + view_nodes(b) =~= view_nodes(a));
    } else {
        lemma_view_nodes_concat(a, b.drop_last());
        assert((a + b).drop_last() =~= a + b.drop_last());
        assert((a + b).last() == b.last());
        assert(view_nodes(a) + view_nodes(b) =~= (view_nodes(a) + view_nodes(b.drop_last())).push(
            view_node(b.last()),
        ));
    }
}

proof fn lemma_view_nodes_take(s: Seq<Node>, i: int)
    requires
        0 <= i < s.len(),
    ensures
        view_nodes(s.take(i + 1)) == view_nodes(s.take(i)).push(view_node(s[i])),
{
    assert(s.take(i + 1).drop_last() =~= s.take(i));
}

fn copy_strings(v: &Vec<String>) -> (r: Vec<String>)
    ensures
        strings_view(r@) == strings_view(v@),
{
    let mut r: Vec<String> = Vec::new();
    let mut i: usize = 0;
    while i < v.len()
        invariant
            i <= v.len(),
            r@.len() == i,
            forall|j: int| 0 <= j < i ==> r@[j]@ == v@[j]@,
        decreases v.len() - i,
    {
        r.push(v[i].clone());
        i = i + 1;
    }
    assert(strings_view(r@) =~= strings_view(v@));
    r
}

fn copy_opt_string(o: &Option<String>) -> (r: Option<String>)
    ensures
        opt_string_view(r) == opt_string_view(*o),
{
    match o {
        Some(s) => Some(s.clone()),
        None => None,
    }
}

fn copy_foreign_item(i: &ForeignItem) -> (r: ForeignItem)
    ensures
        view_foreign_item(r) == view_foreign_item(*i),
{
    match i {
        ForeignItem::Function { name, params, ret, text } => ForeignItem::Function {
            name: name.clone(),
            params: copy_strings(params),
            ret: copy_opt_string(ret),
            text: text.clone(),
        },
        ForeignItem::Verbatim { text } => ForeignItem::Verbatim { text: text.clone() },
    }
}

fn call_args_of(params: &Vec<String>) -> (r: Vec<String>)
    ensures
        strings_view(r@) == call_args(strings_view(params@)),
{
    let mut r: Vec<String> = Vec::new();
    if params.len() == 0 {
        return r;
    }
    let mut i: usize = 1;
    while i < params.len()
        invariant
            1 <= i <= params.len(),
            r@.len() == i - 1,
            forall|j: int| 0 <= j < i - 1 ==> r@[j]@ == params@[j + 1]@,
        decreases params.len() - i,
    {
        r.push(params[i].clone());
        i = i + 1;
    }
    assert(strings_view(r@) =~= call_args(strings_view(params@)));
    r
}

/// The two declarations of the adapter for one closure signature: its impl block and its
/// `Drop` impl.
pub fn gen_closure_fns(d: &ClosureDefinition, rt: Runtime) -> (r: Vec<Node>)
    ensures
        view_nodes(r@) == seq![
            Decl::Verbatim { text: adapter_impl_text(d@, rt) },
            Decl::Verbatim { text: adapter_drop_text(d@) },
        ],
{
    let mut r: Vec<Node> = Vec::new();
    r.push(Node::Verbatim { text: adapter_impl(d, rt) });
    r.push(Node::Verbatim { text: adapter_drop(d) });
    proof {
        lemma_view_nodes_push(Seq::empty(), r@[0]);
        lemma_view_nodes_push(seq![r@[0]], r@[1]);
        assert(r@ =~= seq![r@[0]].push(r@[1]));
        assert(seq![r@[0]] =~= Seq::<Node>::empty().push(r@[0]));
    }
    r
}

/// The exported function that drops a value of type `ty` for the release hook `name`.
pub fn gen_drop_fns(name: &String, ty: &String) -> (r: Node)
    ensures
        view_node(r) == (Decl::Verbatim { text: release_stub_text(name@, ty@) }),
{
    Node::Verbatim { text: release_stub(name.as_str(), ty.as_str()) }
}

/// Transforms a foreign block: keeps all its items but the release hooks, records the release
/// pairs, and lists the closure signatures of its call sites.
fn walk_foreign(
    items: &Vec<ForeignItem>,
    releases: &mut Vec<(String, String)>,
) -> (r: (Vec<ForeignItem>, Vec<ClosureDefinition>))
    ensures
        view_foreign_items(r.0@) == kept_items(view_foreign_items(items@)),
        r.1@.map_values(|d: ClosureDefinition| d@) == call_definitions(view_foreign_items(items@)),
        pairs_view(final(releases)@) == pairs_view(old(releases)@) + release_pairs(
            view_foreign_items(items@),
        ),
{
    let ghost s = view_foreign_items(items@);
    let mut kept: Vec<ForeignItem> = Vec::new();
    let mut defs: Vec<ClosureDefinition> = Vec::new();
    let mut i: usize = 0;
    while i < items.len()
        invariant
            s == view_foreign_items(items@),
            i <= items.len(),
            view_foreign_items(kept@) == kept_items(s.take(i as int)),
            defs@.map_values(|d: ClosureDefinition| d@) == call_definitions(s.take(i as int)),
            pairs_view(releases@) == pairs_view(old(releases)@) + release_pairs(s.take(i as int)),
        decreases items.len() - i,
    {
        let ghost t = s.take(i as int + 1);
        proof {
            assert(t.drop_last() =~= s.take(i as int));
            assert(t.last() == view_foreign_item(items@[i as int]));
        }
        let ghost kept0 = kept@;
        let ghost defs0 = defs@;
        let ghost rel0 = releases@;
        match &items[i] {
            ForeignItem::Function { name, params, ret, text } => {
                match closure_name(name.as_str()) {
                    Some(cn) => {
                        kept.push(copy_foreign_item(&items[i]));
                        defs.push(
                            ClosureDefinition {
                                name: cn,
                                args: call_args_of(params),
                                ret: copy_opt_string(ret),
                            },
                        );
                        proof {
                            assert(view_foreign_items(kept@) =~= view_foreign_items(kept0).push(
                                t.last(),
                            ));
                            assert(defs@.map_values(|d: ClosureDefinition| d@) =~= defs0.map_values(
                                |d: ClosureDefinition| d@,
                            ).push(definition_of(t.last())));
                        }
                    },
                    None => {
                        if is_release_hook(name.as_str()) && params.len() >= 1 {
                            releases.push((name.clone(), params[0].clone()));
                            proof {
                                assert(pairs_view(releases@) =~= pairs_view(rel0).push(
                                    (name@, params@[0]@),
                                ));
                                assert(strings_view(params@)[0] == params@[0]@);
                            }
                        } else {
                            kept.push(copy_foreign_item(&items[i]));
                            proof {
                                assert(view_foreign_items(kept@) =~= view_foreign_items(
                                    kept0,
                                ).push(t.last()));
                            }
                        }
                    },
                }
            },
            ForeignItem::Verbatim { text } => {
                kept.push(copy_foreign_item(&items[i]));
                proof {
                    assert(view_foreign_items(kept@) =~= view_foreign_items(kept0).push(
                        t.last(),
                    ));
                }
            },
        }
        proof {
            assert(pairs_view(old(releases)@) + release_pairs(t) =~= pairs_view(releases@));
        }
        i = i + 1;
    }
    proof {
        assert(s.take(items.len() as int) =~= s);
    }
    (kept, defs)
}

/// Appends to `r` the adapter declarations for each closure signature in `defs`, in order.
fn append_adapters(r: &mut Vec<Node>, defs: &Vec<ClosureDefinition>, rt: Runtime)
    ensures
        view_nodes(final(r)@) == view_nodes(old(r)@) + adapter_decls(
            defs@.map_values(|d: ClosureDefinition| d@),
            rt,
        ),
{
    let ghost ds = defs@.map_values(|d: ClosureDefinition| d@);
    let ghost first = view_nodes(r@);
    proof {
        assert(ds.take(0) =~= Seq::<ClosureSig>::empty());
        assert(first + adapter_decls(ds.take(0), rt) =~= first);
    }
    let mut j: usize = 0;
    while j < defs.len()
        invariant
            j <= defs.len(),
            ds == defs@.map_values(|d: ClosureDefinition| d@),
            first == view_nodes(old(r)@),
            view_nodes(r@) == first + adapter_decls(ds.take(j as int), rt),
        decreases defs.len() - j,
    {
        let mut more = gen_closure_fns(&defs[j], rt);
        let ghost r0 = r@;
        let ghost m0 = more@;
        r.append(&mut more);
        proof {
            lemma_view_nodes_concat(r0, m0);
            let t = ds.take(j as int + 1);
            assert(t.drop_last() =~= ds.take(j as int));
            assert(t.last() == defs@[j as int]@);
            assert(view_nodes(r@) =~= first + adapter_decls(t, rt));
        }
        j = j + 1;
    }
    proof {
        assert(ds.take(defs.len() as int) =~= ds);
    }
}

/// Transforms one node and everything inside it (see `walk_decl`), and appends the release
/// pairs found in it to `releases`.
pub fn walk_node(n: &Node, rt: Runtime, releases: &mut Vec<(String, String)>) -> (r: Vec<Node>)
    ensures
        view_nodes(r@) == walk_decl(view_node(*n), rt),
        pairs_view(final(releases)@) == pairs_view(old(releases)@) + releases_decl(view_node(*n)),
    decreases n,
{
    let mut r: Vec<Node> = Vec::new();
    match n {
        Node::Module { header, children } => {
            let new_children = walk_nodes(children, rt, releases);
            proof {
                lemma_view_nodes_len(children@);
                lemma_view_nodes_len(new_children@);
            }
            if children.len() > 0 && new_children.len() == 0 {
                proof {
                    lemma_view_nodes_len(r@);
                    assert(view_nodes(r@) =~= Seq::<Decl>::empty());
                }
                return r;
            }
            r.push(Node::Module { header: header.clone(), children: new_children });
            proof {
                lemma_view_nodes_push(Seq::empty(), r@[0]);
                assert(r@ =~= Seq::<Node>::empty().push(r@[0]));
            }
        },
        Node::Foreign { header, items } => {
            let (kept, defs) = walk_foreign(items, releases);
            if kept.len() == 0 {
                proof {
                    lemma_view_nodes_len(r@);
                    assert(view_foreign_items(kept@).len() == 0);
                    assert(view_nodes(r@) =~= Seq::<Decl>::empty());
                }
                return r;
            }
            r.push(Node::Foreign { header: header.clone(), items: kept });
            proof {
                lemma_view_nodes_push(Seq::empty(), r@[0]);
                assert(r@ =~= Seq::<Node>::empty().push(r@[0]));
                assert(view_foreign_items(kept@).len() == kept@.len());
            }
            append_adapters(&mut r, &defs, rt);
        },
        Node::Verbatim { text } => {
            r.push(Node::Verbatim { text: text.clone() });
            proof {
                lemma_view_nodes_push(Seq::empty(), r@[0]);
                assert(r@ =~= Seq::<Node>::empty().push(r@[0]));
            }
        },
    }
    r
}

/// Transforms a list of nodes in order (see `walk_decls`), and appends the release pairs found
/// in them to `releases`.
pub fn walk_nodes(s: &Vec<Node>, rt: Runtime, releases: &mut Vec<(String, String)>) -> (r: Vec<
    Node,
>)
    ensures
        view_nodes(r@) == walk_decls(view_nodes(s@), rt),
        pairs_view(final(releases)@) == pairs_view(old(releases)@) + releases_decls(
            view_nodes(s@),
        ),
    decreases s,
{
    let mut r: Vec<Node> = Vec::new();
    let mut i: usize = 0;
    while i < s.len()
        invariant
            i <= s.len(),
            view_nodes(r@) == walk_decls(view_nodes(s@.take(i as int)), rt),
            pairs_view(releases@) == pairs_view(old(releases)@) + releases_decls(
                view_nodes(s@.take(i as int)),
            ),
        decreases s.len() - i,
    {
        let mut more = walk_node(&s[i], rt, releases);
        let ghost r0 = r@;
        let ghost m0 = more@;
        r.append(&mut more);
        proof {
            lemma_view_nodes_concat(r0, m0);
            lemma_view_nodes_take(s@, i as int);
            let v = view_nodes(s@.take(i as int + 1));
            assert(v.drop_last() =~= view_nodes(s@.take(i as int)));
            assert(v.last() == view_node(s@[i as int]));
        }
        i = i + 1;
    }
    proof {
        assert(s@.take(s.len() as int) =~= s@);
    }
    r
}

fn contains_pair(v: &Vec<(String, String)>, p: &(String, String)) -> (r: bool)
    ensures
        r == pairs_view(v@).contains((p.0@, p.1@)),
{
    let mut i: usize = 0;
    while i < v.len()
        invariant
            i <= v.len(),
            forall|j: int| 0 <= j < i ==> pairs_view(v@)[j] != (p.0@, p.1@),
        decreases v.len() - i,
    {
        if v[i].0 == p.0 && v[i].1 == p.1 {
            assert(pairs_view(v@)[i as int] == (p.0@, p.1@));
            return true;
        }
        i = i + 1;
    }
    false
}

fn dedup_pairs(v: &Vec<(String, String)>) -> (r: Vec<(String, String)>)
    ensures
        pairs_view(r@) == dedup(pairs_view(v@)),
{
    let ghost s = pairs_view(v@);
    let mut r: Vec<(String, String)> = Vec::new();
    let mut i: usize = 0;
    while i < v.len()
        invariant
            s == pairs_view(v@),
            i <= v.len(),
            pairs_view(r@) == dedup(s.take(i as int)),
        decreases v.len() - i,
    {
        let ghost t = s.take(i as int + 1);
        proof {
            assert(t.drop_last() =~= s.take(i as int));
        }
        if !contains_pair(&r, &v[i]) {
            let ghost r0 = r@;
            r.push((v[i].0.clone(), v[i].1.clone()));
            proof {
                assert(pairs_view(r@) =~= pairs_view(r0).push(s[i as int]));
            }
        }
        i = i + 1;
    }
    proof {
        assert(s.take(v.len() as int) =~= s);
    }
    r
}

/// Adds the adapter operations for every closure call site in a list of top-level
/// declarations, drops the release hooks, and appends one exported drop function per
/// distinct release pair (see `enhance`).
pub fn enhance_tree(nodes: &Vec<Node>, rt: Runtime) -> (r: Vec<Node>)
    ensures
        view_nodes(r@) == enhance(view_nodes(nodes@), rt),
{
    let mut releases: Vec<(String, String)> = Vec::new();
    let mut r = walk_nodes(nodes, rt, &mut releases);
    let unique = dedup_pairs(&releases);
    let ghost walked = view_nodes(r@);
    let ghost pairs = pairs_view(unique@);
    proof {
        assert(pairs_view(Seq::<(String, String)>::empty()) + releases_decls(view_nodes(nodes@))
            =~= releases_decls(view_nodes(nodes@)));
    }
    let mut k: usize = 0;
    while k < unique.len()
        invariant
            k <= unique.len(),
            pairs == pairs_view(unique@),
            view_nodes(r@) == walked + release_stubs(pairs.take(k as int)),
        decreases unique.len() - k,
    {
        let ghost r0 = r@;
        r.push(gen_drop_fns(&unique[k].0, &unique[k].1));
        proof {
            lemma_view_nodes_push(r0, r@.last());
            assert(r@ =~= r0.push(r@.last()));
            assert(release_stubs(pairs.take(k as int + 1)) =~= release_stubs(
                pairs.take(k as int),
            ).push(Decl::Verbatim { text: release_stub_text(pairs[k as int].0, pairs[k as int].1) }));
        }
        k = k + 1;
    }
    proof {
        assert(pairs.take(unique.len() as int) =~= pairs);
    }
    r
}

} // verus!
