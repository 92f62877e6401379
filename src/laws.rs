//! Properties of the transformer that hold over all inputs.
use vstd::prelude::*;
use crate::decl::{Decl, ForeignDecl};
use crate::synth::Runtime;
use crate::walk::{
    is_call_site, is_release_decl, kept_items, call_definitions, release_pairs, adapter_decls,
    walk_decl, walk_decls, releases_decl, releases_decls, dedup, release_stubs, enhance,
    definition_of, ReleasePair,
};

verus! {

broadcast use vstd::seq::group_seq_axioms;

/// No foreign block in the node, at any depth, declares a closure call site.
pub open spec fn free_of_calls(d: Decl) -> bool
    decreases d,
{
    match d {
        Decl::Module { children, .. } => all_free_of_calls(children),
        Decl::Foreign { items, .. } => forall|i: int| 0 <= i < items.len() ==> !is_call_site(
            #[trigger] items[i],
        ),
        Decl::Verbatim { .. } => true,
    }
}

pub open spec fn all_free_of_calls(s: Seq<Decl>) -> bool
    decreases s,
{
    if s.len() == 0 {
        true
    } else {
        all_free_of_calls(s.drop_last()) && free_of_calls(s.last())
    }
}

proof fn lemma_walk_concat(a: Seq<Decl>, b: Seq<Decl>, rt: Runtime)
    ensures
        walk_decls(a + b, rt) == walk_decls(a, rt) + walk_decls(b, rt),
        releases_decls(a + b) == releases_decls(a) + releases_decls(b),
    decreases b.len(),
{
    if b.len() == 0 {
        assert(a + b =~= a);
        assert(walk_decls(a, rt) + walk_decls(b, rt) =~= walk_decls(a, rt));
        assert(releases_decls(a) + releases_decls(b) =~= releases_decls(a));
    } else {
        lemma_walk_concat(a, b.drop_last(), rt);
        assert((a + b).drop_last() =~= a + b.drop_last());
        assert((a + b).last() == b.last());
        assert(walk_decls(a, rt) + walk_decls(b, rt) =~= walk_decls(a, rt) + walk_decls(
            b.drop_last(),
            rt,
        ) + walk_decl(b.last(), rt));
        assert(releases_decls(a) + releases_decls(b) =~= releases_decls(a) + releases_decls(
            b.drop_last(),
        ) + releases_decl(b.last()));
    }
}

proof fn lemma_walk_single(d: Decl, rt: Runtime)
    ensures
        walk_decls(seq![d], rt) == walk_decl(d, rt),
        releases_decls(seq![d]) == releases_decl(d),
{
    let e = Seq::<Decl>::empty();
    assert(seq![d].drop_last() =~= e);
    assert(walk_decls(e, rt) == Seq::<Decl>::empty());
    assert(releases_decls(e) == Seq::<ReleasePair>::empty());
    assert(e + walk_decl(d, rt) =~= walk_decl(d, rt));
    assert(Seq::<ReleasePair>::empty() + releases_decl(d) =~= releases_decl(d));
}

/// A list of plain items is left as it is and holds no release pairs.
proof fn lemma_walk_verbatim(s: Seq<Decl>, rt: Runtime)
    requires
        forall|i: int| 0 <= i < s.len() ==> (#[trigger] s[i]) is Verbatim,
    ensures
        walk_decls(s, rt) == s,
        releases_decls(s) == Seq::<ReleasePair>::empty(),
    decreases s.len(),
{
    if s.len() > 0 {
        let p = s.drop_last();
        assert forall|i: int| 0 <= i < p.len() implies (#[trigger] p[i]) is Verbatim by {
            assert(p[i] == s[i]);
        }
        lemma_walk_verbatim(p, rt);
        assert(s[s.len() - 1] is Verbatim);
        let l = s.last();
        assert(walk_decl(l, rt) == seq![l]);
        assert(releases_decl(l) == Seq::<ReleasePair>::empty());
        assert(walk_decls(s, rt) == walk_decls(p, rt) + walk_decl(l, rt));
        assert(p + seq![l] =~= s);
        assert(releases_decls(s) =~= Seq::<ReleasePair>::empty());
    }
}

proof fn lemma_kept_items(items: Seq<ForeignDecl>)
    ensures
        forall|j: int|
            0 <= j < kept_items(items).len() ==> !is_release_decl(#[trigger] kept_items(items)[j])
                && items.contains(kept_items(items)[j]),
    decreases items.len(),
{
    if items.len() > 0 {
        let p = items.drop_last();
        lemma_kept_items(p);
        let k = kept_items(items);
        assert forall|j: int| 0 <= j < k.len() implies !is_release_decl(#[trigger] k[j])
            && items.contains(k[j]) by {
            if j < kept_items(p).len() {
                assert(k[j] == kept_items(p)[j]);
                let w = choose|w: int| 0 <= w < p.len() && p[w] == k[j];
                assert(items[w] == k[j]);
            } else {
                assert(k[j] == items.last());
                assert(items[items.len() - 1] == k[j]);
            }
        }
    }
}

proof fn lemma_no_release_items(items: Seq<ForeignDecl>)
    requires
        forall|j: int| 0 <= j < items.len() ==> !is_release_decl(#[trigger] items[j]),
    ensures
        kept_items(items) == items,
        release_pairs(items) == Seq::<ReleasePair>::empty(),
    decreases items.len(),
{
    if items.len() > 0 {
        let p = items.drop_last();
        assert forall|j: int| 0 <= j < p.len() implies !is_release_decl(#[trigger] p[j]) by {
            assert(p[j] == items[j]);
        }
        lemma_no_release_items(p);
        assert(!is_release_decl(items[items.len() - 1]));
        assert(kept_items(items) =~= items);
    }
}

proof fn lemma_no_call_items(items: Seq<ForeignDecl>)
    requires
        forall|j: int| 0 <= j < items.len() ==> !is_call_site(#[trigger] items[j]),
    ensures
        call_definitions(items) == Seq::<crate::decl::ClosureSig>::empty(),
    decreases items.len(),
{
    if items.len() > 0 {
        let p = items.drop_last();
        assert forall|j: int| 0 <= j < p.len() implies !is_call_site(#[trigger] p[j]) by {
            assert(p[j] == items[j]);
        }
        lemma_no_call_items(p);
        assert(!is_call_site(items[items.len() - 1]));
    }
}

/// Walking the result of a walk changes nothing, and finds no release pairs, when there are
/// no call sites.
proof fn lemma_walk_stable(d: Decl, rt: Runtime)
    requires
        free_of_calls(d),
    ensures
        walk_decls(walk_decl(d, rt), rt) == walk_decl(d, rt),
        releases_decls(walk_decl(d, rt)) == Seq::<ReleasePair>::empty(),
    decreases d,
{
    match d {
        Decl::Module { header, children } => {
            lemma_walk_stable_seq(children, rt);
            let w = walk_decls(children, rt);
            if !(children.len() > 0 && w.len() == 0) {
                let m = Decl::Module { header: header, children: w };
                lemma_walk_single(m, rt);
                assert(walk_decl(m, rt) == seq![m]);
            }
        },
        Decl::Foreign { header, items } => {
            lemma_no_call_items(items);
            assert(adapter_decls(call_definitions(items), rt) =~= Seq::<Decl>::empty());
            let k = kept_items(items);
            if k.len() > 0 {
                lemma_kept_items(items);
                assert forall|j: int| 0 <= j < k.len() implies !is_call_site(#[trigger] k[j]) by {
                    let w = choose|w: int| 0 <= w < items.len() && items[w] == k[j];
                    assert(!is_call_site(items[w]));
                }
                lemma_no_release_items(k);
                lemma_no_call_items(k);
                assert(adapter_decls(call_definitions(k), rt) =~= Seq::<Decl>::empty());
                let f = Decl::Foreign { header: header, items: k };
                assert(walk_decl(d, rt) =~= seq![f]);
                lemma_walk_single(f, rt);
                assert(walk_decl(f, rt) =~= seq![f]);
            } else {
                assert(walk_decl(d, rt) =~= Seq::<Decl>::empty());
            }
        },
        Decl::Verbatim { .. } => {
            lemma_walk_single(d, rt);
        },
    }
}

proof fn lemma_walk_stable_seq(s: Seq<Decl>, rt: Runtime)
    requires
        all_free_of_calls(s),
    ensures
        walk_decls(walk_decls(s, rt), rt) == walk_decls(s, rt),
        releases_decls(walk_decls(s, rt)) == Seq::<ReleasePair>::empty(),
    decreases s,
{
    if s.len() > 0 {
        lemma_walk_stable_seq(s.drop_last(), rt);
        lemma_walk_stable(s.last(), rt);
        lemma_walk_concat(walk_decls(s.drop_last(), rt), walk_decl(s.last(), rt), rt);
        assert(releases_decls(walk_decls(s, rt)) =~= Seq::<ReleasePair>::empty());
    } else {
        assert(walk_decls(walk_decls(s, rt), rt) =~= walk_decls(s, rt));
    }
}

/// Transforming twice gives what transforming once gives, when no foreign block in the
/// input declares a closure call site: the release hooks are gone after the first pass and
/// nothing is added twice.
pub proof fn lemma_enhance_idempotent(s: Seq<Decl>, rt: Runtime)
    requires
        all_free_of_calls(s),
    ensures
        enhance(enhance(s, rt), rt) == enhance(s, rt),
{
    let w = walk_decls(s, rt);
    let stubs = release_stubs(dedup(releases_decls(s)));
    lemma_walk_stable_seq(s, rt);
    assert forall|i: int| 0 <= i < stubs.len() implies (#[trigger] stubs[i]) is Verbatim by {}
    lemma_walk_verbatim(stubs, rt);
    lemma_walk_concat(w, stubs, rt);
    assert(releases_decls(enhance(s, rt)) =~= Seq::<ReleasePair>::empty());
    assert(dedup(Seq::<ReleasePair>::empty()) =~= Seq::<ReleasePair>::empty());
    assert(release_stubs(Seq::<ReleasePair>::empty()) =~= Seq::<Decl>::empty());
    assert(enhance(enhance(s, rt), rt) =~= enhance(s, rt));
}

/// Without call sites the walk adds no declaration: each node gives at most itself, so a
/// list never grows. Only the exported drop functions for release hooks are added after it.
pub proof fn lemma_walk_adds_nothing_without_calls(s: Seq<Decl>, rt: Runtime)
    requires
        all_free_of_calls(s),
    ensures
        walk_decls(s, rt).len() <= s.len(),
        enhance(s, rt) == walk_decls(s, rt) + release_stubs(dedup(releases_decls(s))),
    decreases s.len(),
{
    if s.len() > 0 {
        lemma_walk_adds_nothing_without_calls(s.drop_last(), rt);
        let d = s.last();
        assert(free_of_calls(d));
        match d {
            Decl::Foreign { items, .. } => {
                lemma_no_call_items(items);
                assert(adapter_decls(call_definitions(items), rt) =~= Seq::<Decl>::empty());
            },
            _ => {},
        }
        assert(walk_decl(d, rt).len() <= 1);
    }
}

/// A node with its release hooks taken out, at any depth: a foreign block keeps its other
/// items and is dropped when none is left; a module that had items and has none left is
/// dropped too.
pub open spec fn without_hooks(d: Decl) -> Seq<Decl>
    decreases d,
{
    match d {
        Decl::Module { header, children } => if children.len() > 0 && all_without_hooks(
            children,
        ).len() == 0 {
            Seq::empty()
        } else {
            seq![Decl::Module { header: header, children: all_without_hooks(children) }]
        },
        Decl::Foreign { header, items } => if kept_items(items).len() == 0 {
            Seq::empty()
        } else {
            seq![Decl::Foreign { header: header, items: kept_items(items) }]
        },
        Decl::Verbatim { .. } => seq![d],
    }
}

pub open spec fn all_without_hooks(s: Seq<Decl>) -> Seq<Decl>
    decreases s,
{
    if s.len() == 0 {
        Seq::empty()
    } else {
        all_without_hooks(s.drop_last()) + without_hooks(s.last())
    }
}

proof fn lemma_walk_is_without_hooks(d: Decl, rt: Runtime)
    requires
        free_of_calls(d),
    ensures
        walk_decl(d, rt) == without_hooks(d),
    decreases d,
{
    match d {
        Decl::Module { children, .. } => {
            lemma_walk_is_without_hooks_seq(children, rt);
        },
        Decl::Foreign { items, .. } => {
            lemma_no_call_items(items);
            assert(adapter_decls(call_definitions(items), rt) =~= Seq::<Decl>::empty());
            if kept_items(items).len() > 0 {
                let f = Decl::Foreign { header: d->Foreign_header, items: kept_items(items) };
                assert(seq![f] + Seq::<Decl>::empty() =~= seq![f]);
            }
        },
        Decl::Verbatim { .. } => {},
    }
}

proof fn lemma_walk_is_without_hooks_seq(s: Seq<Decl>, rt: Runtime)
    requires
        all_free_of_calls(s),
    ensures
        walk_decls(s, rt) == all_without_hooks(s),
    decreases s,
{
    if s.len() > 0 {
        lemma_walk_is_without_hooks_seq(s.drop_last(), rt);
        lemma_walk_is_without_hooks(s.last(), rt);
    }
}

/// Without call sites, the transformation is exactly this: the input with its release hooks
/// taken out (blocks and modules left empty by that dropped), followed by one exported drop
/// function per distinct release pair. No adapter is added.
pub proof fn lemma_enhance_without_calls(s: Seq<Decl>, rt: Runtime)
    requires
        all_free_of_calls(s),
    ensures
        enhance(s, rt) == all_without_hooks(s) + release_stubs(dedup(releases_decls(s))),
{
    lemma_walk_is_without_hooks_seq(s, rt);
}

/// Every plain top-level item of the input, such as the definition of an adapter struct,
/// is in the output as it was: the transformation never changes or removes one.
pub proof fn lemma_enhance_keeps_plain_items(s: Seq<Decl>, rt: Runtime)
    ensures
        forall|i: int|
            0 <= i < s.len() && (#[trigger] s[i]) is Verbatim ==> enhance(s, rt).contains(s[i]),
    decreases s.len(),
{
    lemma_walk_keeps_plain_items(s, rt);
    assert forall|i: int| 0 <= i < s.len() && (#[trigger] s[i]) is Verbatim implies enhance(
        s,
        rt,
    ).contains(s[i]) by {
        let w = choose|w: int| 0 <= w < walk_decls(s, rt).len() && walk_decls(s, rt)[w] == s[i];
        assert(enhance(s, rt)[w] == s[i]);
    }
}

proof fn lemma_walk_keeps_plain_items(s: Seq<Decl>, rt: Runtime)
    ensures
        forall|i: int|
            0 <= i < s.len() && (#[trigger] s[i]) is Verbatim ==> walk_decls(s, rt).contains(s[i]),
    decreases s.len(),
{
    if s.len() > 0 {
        let p = s.drop_last();
        lemma_walk_keeps_plain_items(p, rt);
        let w = walk_decls(s, rt);
        assert(w == walk_decls(p, rt) + walk_decl(s.last(), rt));
        assert forall|i: int| 0 <= i < s.len() && (#[trigger] s[i]) is Verbatim implies w.contains(
            s[i],
        ) by {
            if i < p.len() {
                assert(p[i] == s[i]);
                let k = choose|k: int| 0 <= k < walk_decls(p, rt).len() && walk_decls(p, rt)[k] == p[i];
                assert(w[k] == s[i]);
            } else {
                assert(s[i] == s.last());
                assert(walk_decl(s.last(), rt) == seq![s.last()]);
                assert(w[walk_decls(p, rt).len() as int] == s[i]);
            }
        }
    }
}

/// Whether a text is an impl item.
pub open spec fn is_impl_text(t: Seq<char>) -> bool {
    t.len() >= 5 && t.subrange(0, 5) == "impl "@
}

/// A plain item, such as the definition of an adapter struct, comes out of the walk as it
/// went in.
pub proof fn lemma_walk_keeps_verbatim(d: Decl, rt: Runtime)
    requires
        d is Verbatim,
    ensures
        walk_decl(d, rt) == seq![d],
{
}

/// What the walk adds for closure signatures are impl items only, never a struct: the
/// layout of an adapter type is whatever its own definition says, in every run.
pub proof fn lemma_adapter_decls_are_impls(defs: Seq<crate::decl::ClosureSig>, rt: Runtime)
    ensures
        forall|i: int|
            0 <= i < adapter_decls(defs, rt).len() ==> (#[trigger] adapter_decls(defs, rt)[i]) is Verbatim
                && is_impl_text(adapter_decls(defs, rt)[i]->Verbatim_text),
    decreases defs.len(),
{
    reveal_strlit("impl ");
    if defs.len() > 0 {
        lemma_adapter_decls_are_impls(defs.drop_last(), rt);
        let d = defs.last();
        assert("impl "@.subrange(0, 5) =~= "impl "@);
        assert forall|x: Seq<char>, y: Seq<char>| is_impl_text(x) implies #[trigger] is_impl_text(
            x + y,
        ) by {
            assert((x + y).subrange(0, 5) =~= x.subrange(0, 5));
        }
        assert(is_impl_text(crate::synth::adapter_impl_text(d, rt)));
        reveal_strlit("impl Drop for ");
        assert("impl Drop for "@.subrange(0, 5) =~= "impl "@);
        assert(is_impl_text(crate::synth::adapter_drop_text(d)));
        let p = adapter_decls(defs.drop_last(), rt);
        assert forall|i: int|
            0 <= i < adapter_decls(defs, rt).len() implies (#[trigger] adapter_decls(defs, rt)[i]) is Verbatim
                && is_impl_text(adapter_decls(defs, rt)[i]->Verbatim_text) by {
            if i < p.len() {
                assert(adapter_decls(defs, rt)[i] == p[i]);
            }
        }
    }
}

/// The adapter for a call site depends on its signature alone: two call sites of one closure
/// name with equal parameter types and equal return types give the same adapter
/// declarations, whatever their other text, so the adapter is the same in every run.
pub proof fn lemma_adapter_depends_on_signature(a: ForeignDecl, b: ForeignDecl, rt: Runtime)
    requires
        is_call_site(a),
        is_call_site(b),
        a->Function_name == b->Function_name,
        a->Function_params == b->Function_params,
        a->Function_ret == b->Function_ret,
    ensures
        definition_of(a) == definition_of(b),
        adapter_decls(seq![definition_of(a)], rt) == adapter_decls(seq![definition_of(b)], rt),
{
}

} // verus!
