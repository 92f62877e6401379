//! Source text of the adapter operations for one closure signature.
use vstd::prelude::*;
use crate::decl::{ClosureDefinition, ClosureSig, strings_view};
use crate::names::{adapter_type_name, adapter_release_name, adapter_type_name_of, adapter_release_name_of};

verus! {

broadcast use vstd::std_specs::vec::group_vec_axioms, vstd::seq::group_seq_axioms;

/// The runtime the adapter code is written against.
///
/// With `Std`, a panic inside a wrapped closure is caught at the trampoline and the process
/// aborts with a message, and so does a second call of a single-use adapter. With `NoStd`
/// nothing can be caught: a panic is not contained, and a second call of a single-use adapter
/// returns zeroed memory.
#[derive(PartialEq, Eq, Structural, Clone, Copy)]
pub enum Runtime {
    Std,
    NoStd,
}

pub open spec fn digit_text(d: nat) -> Seq<char> {
    if d == 0 { "0"@ }
    else if d == 1 { "1"@ }
    else if d == 2 { "2"@ }
    else if d == 3 { "3"@ }
    else if d == 4 { "4"@ }
    else if d == 5 { "5"@ }
    else if d == 6 { "6"@ }
    else if d == 7 { "7"@ }
    else if d == 8 { "8"@ }
    else { "9"@ }
}

/// Decimal digits of `n`.
pub open spec fn decimal(n: nat) -> Seq<char>
    decreases n,
{
    if n < 10 {
        digit_text(n)
    } else {
        decimal(n / 10) + digit_text(n % 10)
    }
}

/// Name of the `i`-th parameter of a trampoline: `_p<i>`.
pub open spec fn param_name(i: nat) -> Seq<char> {
    "_p"@ + decimal(i)
}

/// `_p0, _p1, ...` for `n` parameters.
pub open spec fn names_list(n: nat) -> Seq<char>
    decreases n,
{
    if n == 0 {
        Seq::empty()
    } else if n == 1 {
        param_name(0)
    } else {
        names_list((n - 1) as nat) + ", "@ + param_name((n - 1) as nat)
    }
}

/// The types joined by `, `.
pub open spec fn types_list(s: Seq<Seq<char>>) -> Seq<char>
    decreases s.len(),
{
    if s.len() == 0 {
        Seq::empty()
    } else if s.len() == 1 {
        s[0]
    } else {
        types_list(s.drop_last()) + ", "@ + s.last()
    }
}

/// `, _p0: A0, _p1: A1, ...` for the types `A0, A1, ...`.
pub open spec fn typed_params(s: Seq<Seq<char>>) -> Seq<char>
    decreases s.len(),
{
    if s.len() == 0 {
        Seq::empty()
    } else {
        typed_params(s.drop_last()) + ", "@ + param_name((s.len() - 1) as nat) + ": "@ + s.last()
    }
}

/// ` -> R` for a return type `R`, nothing for none.
pub open spec fn return_block(ret: Option<Seq<char>>) -> Seq<char> {
    match ret {
        Some(t) => " -> "@ + t,
        None => Seq::empty(),
    }
}

pub open spec fn core_root(rt: Runtime) -> Seq<char> {
    match rt {
        Runtime::Std => "std"@,
        Runtime::NoStd => "core"@,
    }
}

pub open spec fn alloc_root(rt: Runtime) -> Seq<char> {
    match rt {
        Runtime::Std => "std"@,
        Runtime::NoStd => "alloc"@,
    }
}

/// The body of the trampoline: it turns the opaque pointer back into the closure and calls
/// it with the parameters.
pub open spec fn trampoline_body(n: nat, rt: Runtime) -> Seq<char> {
    match rt {
        Runtime::Std => "match ::std::panic::catch_unwind(|| { let f = &mut *(f as *mut F); f("@
            + names_list(n)
            + ") }) { Ok(v) => v, Err(e) => { eprintln!(\"Internal closure panicked, this cannot be passed out the FFI boundary, aborting. Error: {:?}\", e); ::std::process::abort() } }"@,
        Runtime::NoStd => "let f = &mut *(f as *mut F); f("@ + names_list(n) + ")"@,
    }
}

/// What a single-use adapter does when it is called again.
pub open spec fn reuse_body(rt: Runtime) -> Seq<char> {
    match rt {
        Runtime::Std => "eprintln!(\"Function marked as single-use was called more than once, the closure will not be called as that would segfault. Aborting.\"); ::std::process::abort()"@,
        Runtime::NoStd => "unsafe { ::core::mem::zeroed() }"@,
    }
}

/// The trampoline, specialised to the closure type `F`.
pub open spec fn trampoline_text(d: ClosureSig, rt: Runtime) -> Seq<char> {
    "unsafe extern \"C\" fn f_wrapper<F>(f: *mut ::"@ + core_root(rt) + "::ffi::c_void"@
        + typed_params(d.args) + ")"@ + return_block(d.ret) + " where F: FnMut("@
        + types_list(d.args) + ")"@ + return_block(d.ret) + ", { "@
        + trampoline_body(d.args.len(), rt) + " } "@
}

/// The deleters: one that frees the boxed captured state, one that drops a value.
pub open spec fn deleters_text(rt: Runtime) -> Seq<char> {
    "unsafe extern \"C\" fn drop_my_box<T>(t: *mut ::"@ + core_root(rt)
        + "::ffi::c_void) { ::"@ + alloc_root(rt)
        + "::boxed::Box::<T>::from_raw(t as *mut T); } unsafe extern \"C\" fn drop_me<T>(_t: T) {} "@
}

/// A constructor `method` that boxes a closure bound by `bound`.
pub open spec fn constructor_text(
    method: Seq<char>,
    bound: Seq<char>,
    d: ClosureSig,
    rt: Runtime,
) -> Seq<char> {
    "pub fn "@ + method + "<Function>(f: Function) -> Self where Function: "@ + bound + "("@
        + types_list(d.args) + ")"@ + return_block(d.ret) + ", { Self { data: ::"@
        + alloc_root(rt) + "::boxed::Box::into_raw(::"@ + alloc_root(rt)
        + "::boxed::Box::new(f)) as *mut ::"@ + core_root(rt)
        + "::ffi::c_void, function: Some(Self::f_wrapper::<Function>), delete_data: Some(Self::drop_my_box::<Function>), } } "@
}

/// The single-use constructor: a repeatable-mutable adapter that holds the closure in an
/// `Option` and takes it out on the first call.
pub open spec fn once_text(d: ClosureSig, rt: Runtime) -> Seq<char> {
    "pub fn fn_once<Function>(f: Function) -> Self where Function: FnOnce("@
        + types_list(d.args) + ")"@ + return_block(d.ret)
        + ", { let mut f = Some(f); Self::fn_mut(move |"@ + names_list(d.args.len())
        + "| match f.take() { Some(f) => f("@ + names_list(d.args.len()) + "), None => { "@
        + reuse_body(rt) + " } }) } "@
}

/// The no-op constructor, for a signature without a return value: an adapter with no data,
/// no call and no deleter, so that calling it does nothing.
pub open spec fn noop_text(d: ClosureSig) -> Option<Seq<char>> {
    match d.ret {
        Some(_) => None,
        None => Some(
            "pub fn new_noop() -> Self { Self { data: ::core::ptr::null_mut(), function: None, delete_data: None } } "@,
        ),
    }
}

/// The impl block of the adapter type with all its operations.
pub open spec fn adapter_impl_text(d: ClosureSig, rt: Runtime) -> Seq<char> {
    "impl "@ + adapter_type_name(d.name) + " { "@ + trampoline_text(d, rt) + deleters_text(rt)
        + constructor_text("fn_mut"@, "FnMut"@, d, rt)
        + constructor_text("fn_not_mut"@, "Fn"@, d, rt) + once_text(d, rt)
        + match noop_text(d) {
        Some(t) => t,
        None => Seq::empty(),
    } + "}"@
}

/// The finalizer: dropping an adapter calls its release routine.
pub open spec fn adapter_drop_text(d: ClosureSig) -> Seq<char> {
    "impl Drop for "@ + adapter_type_name(d.name)
        + " { fn drop(&mut self) { unsafe { "@ + adapter_release_name(d.name)
        + "(self) } } }"@
}

/// An exported function that takes a returned value and drops it.
pub open spec fn release_stub_text(name: Seq<char>, ty: Seq<char>) -> Seq<char> {
    "#[no_mangle] pub extern \"C\" fn "@ + name + "(_ret: "@ + ty + ") {}"@
}

fn digit_str(d: usize) -> (r: &'static str)
    requires
        d < 10,
    ensures
        r@ == digit_text(d as nat),
{
    if d == 0 { "0" }
    else if d == 1 { "1" }
    else if d == 2 { "2" }
    else if d == 3 { "3" }
    else if d == 4 { "4" }
    else if d == 5 { "5" }
    else if d == 6 { "6" }
    else if d == 7 { "7" }
    else if d == 8 { "8" }
    else { "9" }
}

fn push_decimal(out: &mut String, n: usize)
    ensures
        final(out)@ == old(out)@ + decimal(n as nat),
    decreases n,
{
    if n < 10 {
        out.append(digit_str(n));
    } else {
        push_decimal(out, n / 10);
        out.append(digit_str(n % 10));
        assert(final(out)@ =~= old(out)@ + decimal(n as nat));
    }
}

fn push_param_name(out: &mut String, i: usize)
    ensures
        final(out)@ == old(out)@ + param_name(i as nat),
{
    out.append("_p");
    push_decimal(out, i);
    assert(final(out)@ =~= old(out)@ + param_name(i as nat));
}

/// `_p0, _p1, ...` for `n` parameters.
pub fn names_list_text(n: usize) -> (r: String)
    ensures
        r@ == names_list(n as nat),
{
    let mut out = String::new();
    let mut i: usize = 0;
    while i < n
        invariant
            i <= n,
            out@ == names_list(i as nat),
        decreases n - i,
    {
        if i > 0 {
            out.append(", ");
        }
        push_param_name(&mut out, i);
        proof {
            if i == 0 {
                assert(out@ =~= names_list(1));
            }
        }
        i = i + 1;
    }
    out
}

/// The types joined by `, `.
pub fn types_list_text(types: &Vec<String>) -> (r: String)
    ensures
        r@ == types_list(strings_view(types@)),
{
    let ghost s = strings_view(types@);
    let mut out = String::new();
    let mut i: usize = 0;
    while i < types.len()
        invariant
            s == strings_view(types@),
            i <= types.len(),
            out@ == types_list(s.take(i as int)),
        decreases types.len() - i,
    {
        if i > 0 {
            out.append(", ");
        }
        out.append(types[i].as_str());
        proof {
            let t = s.take(i as int + 1);
            assert(t.drop_last() =~= s.take(i as int));
            if i == 0 {
                assert(out@ =~= types_list(t));
            }
        }
        i = i + 1;
    }
    assert(s.take(types.len() as int) =~= s);
    out
}

/// `, _p0: A0, _p1: A1, ...` for the types `A0, A1, ...`.
pub fn typed_params_text(types: &Vec<String>) -> (r: String)
    ensures
        r@ == typed_params(strings_view(types@)),
{
    let ghost s = strings_view(types@);
    let mut out = String::new();
    let mut i: usize = 0;
    while i < types.len()
        invariant
            s == strings_view(types@),
            i <= types.len(),
            out@ == typed_params(s.take(i as int)),
        decreases types.len() - i,
    {
        out.append(", ");
        push_param_name(&mut out, i);
        out.append(": ");
        out.append(types[i].as_str());
        proof {
            let t = s.take(i as int + 1);
            assert(t.drop_last() =~= s.take(i as int));
        }
        i = i + 1;
    }
    assert(s.take(types.len() as int) =~= s);
    out
}

fn return_block_text(ret: &Option<String>) -> (r: String)
    ensures
        r@ == return_block(crate::decl::opt_string_view(*ret)),
{
    match ret {
        Some(t) => String::from_str(" -> ").concat(t.as_str()),
        None => String::new(),
    }
}

fn core_root_str(rt: Runtime) -> (r: &'static str)
    ensures
        r@ == core_root(rt),
{
    match rt {
        Runtime::Std => "std",
        Runtime::NoStd => "core",
    }
}

fn alloc_root_str(rt: Runtime) -> (r: &'static str)
    ensures
        r@ == alloc_root(rt),
{
    match rt {
        Runtime::Std => "std",
        Runtime::NoStd => "alloc",
    }
}

fn trampoline_body_text(n: usize, rt: Runtime) -> (r: String)
    ensures
        r@ == trampoline_body(n as nat, rt),
{
    let names = names_list_text(n);
    match rt {
        Runtime::Std => String::from_str(
            "match ::std::panic::catch_unwind(|| { let f = &mut *(f as *mut F); f(",
        ).concat(names.as_str()).concat(
            ") }) { Ok(v) => v, Err(e) => { eprintln!(\"Internal closure panicked, this cannot be passed out the FFI boundary, aborting. Error: {:?}\", e); ::std::process::abort() } }",
        ),
        Runtime::NoStd => String::from_str("let f = &mut *(f as *mut F); f(").concat(
            names.as_str(),
        ).concat(")"),
    }
}

fn reuse_body_str(rt: Runtime) -> (r: &'static str)
    ensures
        r@ == reuse_body(rt),
{
    match rt {
        Runtime::Std => "eprintln!(\"Function marked as single-use was called more than once, the closure will not be called as that would segfault. Aborting.\"); ::std::process::abort()",
        Runtime::NoStd => "unsafe { ::core::mem::zeroed() }",
    }
}

fn trampoline_text_of(d: &ClosureDefinition, rt: Runtime) -> (r: String)
    ensures
        r@ == trampoline_text(d@, rt),
{
    let ret = return_block_text(&d.ret);
    let out = String::from_str("unsafe extern \"C\" fn f_wrapper<F>(f: *mut ::")
        .concat(core_root_str(rt))
        .concat("::ffi::c_void")
        .concat(typed_params_text(&d.args).as_str())
        .concat(")")
        .concat(ret.as_str())
        .concat(" where F: FnMut(")
        .concat(types_list_text(&d.args).as_str())
        .concat(")")
        .concat(ret.as_str())
        .concat(", { ")
        .concat(trampoline_body_text(d.args.len(), rt).as_str())
        .concat(" } ");
    out
}

fn deleters_text_of(rt: Runtime) -> (r: String)
    ensures
        r@ == deleters_text(rt),
{
    String::from_str("unsafe extern \"C\" fn drop_my_box<T>(t: *mut ::")
        .concat(core_root_str(rt))
        .concat("::ffi::c_void) { ::")
        .concat(alloc_root_str(rt))
        .concat("::boxed::Box::<T>::from_raw(t as *mut T); } unsafe extern \"C\" fn drop_me<T>(_t: T) {} ")
}

fn constructor_text_of(method: &str, bound: &str, d: &ClosureDefinition, rt: Runtime) -> (r: String)
    ensures
        r@ == constructor_text(method@, bound@, d@, rt),
{
    String::from_str("pub fn ")
        .concat(method)
        .concat("<Function>(f: Function) -> Self where Function: ")
        .concat(bound)
        .concat("(")
        .concat(types_list_text(&d.args).as_str())
        .concat(")")
        .concat(return_block_text(&d.ret).as_str())
        .concat(", { Self { data: ::")
        .concat(alloc_root_str(rt))
        .concat("::boxed::Box::into_raw(::")
        .concat(alloc_root_str(rt))
        .concat("::boxed::Box::new(f)) as *mut ::")
        .concat(core_root_str(rt))
        .concat("::ffi::c_void, function: Some(Self::f_wrapper::<Function>), delete_data: Some(Self::drop_my_box::<Function>), } } ")
}

fn once_text_of(d: &ClosureDefinition, rt: Runtime) -> (r: String)
    ensures
        r@ == once_text(d@, rt),
{
    let names = names_list_text(d.args.len());
    String::from_str("pub fn fn_once<Function>(f: Function) -> Self where Function: FnOnce(")
        .concat(types_list_text(&d.args).as_str())
        .concat(")")
        .concat(return_block_text(&d.ret).as_str())
        .concat(", { let mut f = Some(f); Self::fn_mut(move |")
        .concat(names.as_str())
        .concat("| match f.take() { Some(f) => f(")
        .concat(names.as_str())
        .concat("), None => { ")
        .concat(reuse_body_str(rt))
        .concat(" } }) } ")
}

/// The no-op constructor, which exists only for a signature without a return value.
pub fn noop_constructor(d: &ClosureDefinition) -> (r: Option<String>)
    ensures
        r is Some <==> d.ret is None,
        r is Some ==> r->Some_0@ == noop_text(d@)->Some_0,
{
    match d.ret {
        Some(_) => None,
        None => Some(
            String::from_str(
                "pub fn new_noop() -> Self { Self { data: ::core::ptr::null_mut(), function: None, delete_data: None } } ",
            ),
        ),
    }
}

/// The impl block of the adapter type `<Name>Closure`: the trampoline, the deleters, the
/// repeatable-mutable, repeatable-shared and single-use constructors, and for a signature
/// without a return value the no-op constructor.
pub fn adapter_impl(d: &ClosureDefinition, rt: Runtime) -> (r: String)
    ensures
        r@ == adapter_impl_text(d@, rt),
{
    let noop = match noop_constructor(d) {
        Some(t) => t,
        None => String::new(),
    };
    String::from_str("impl ")
        .concat(adapter_type_name_of(d.name.as_str()).as_str())
        .concat(" { ")
        .concat(trampoline_text_of(d, rt).as_str())
        .concat(deleters_text_of(rt).as_str())
        .concat(constructor_text_of("fn_mut", "FnMut", d, rt).as_str())
        .concat(constructor_text_of("fn_not_mut", "Fn", d, rt).as_str())
        .concat(once_text_of(d, rt).as_str())
        .concat(noop.as_str())
        .concat("}")
}

/// The `Drop` impl of the adapter type, which calls `<Name>_closure_release`.
pub fn adapter_drop(d: &ClosureDefinition) -> (r: String)
    ensures
        r@ == adapter_drop_text(d@),
{
    String::from_str("impl Drop for ")
        .concat(adapter_type_name_of(d.name.as_str()).as_str())
        .concat(" { fn drop(&mut self) { unsafe { ")
        .concat(adapter_release_name_of(d.name.as_str()).as_str())
        .concat("(self) } } }")
}

/// An exported function `name` that takes a value of type `ty` and drops it.
pub fn release_stub(name: &str, ty: &str) -> (r: String)
    ensures
        r@ == release_stub_text(name@, ty@),
{
    String::from_str("#[no_mangle] pub extern \"C\" fn ")
        .concat(name)
        .concat("(_ret: ")
        .concat(ty)
        .concat(") {}")
}

} // verus!
