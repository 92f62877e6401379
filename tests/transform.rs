use c_closures::decl::ClosureDefinition;
use c_closures::names::{closure_name, has_suffix, is_release_hook};
use c_closures::synth::{adapter_drop, adapter_impl, names_list_text, noop_constructor, typed_params_text, types_list_text};
use c_closures::{enhance_tree, render, ForeignItem, Node, Runtime};

fn s(x: &str) -> String {
    x.to_string()
}

fn func(name: &str, params: &[&str], ret: Option<&str>) -> ForeignItem {
    ForeignItem::Function {
        name: s(name),
        params: params.iter().map(|p| s(p)).collect(),
        ret: ret.map(s),
        text: format!("pub fn {}();", name),
    }
}

fn block(items: Vec<ForeignItem>) -> Node {
    Node::Foreign { header: s("extern \"C\""), items }
}

fn texts(nodes: &[Node]) -> Vec<String> {
    nodes
        .iter()
        .map(|n| match n {
            Node::Verbatim { text } => text.clone(),
            Node::Foreign { .. } => s("<foreign>"),
            Node::Module { .. } => s("<module>"),
        })
        .collect()
}

const INT_STUB: &str = "#[no_mangle] pub extern \"C\" fn Int_release_rust_return_value(_ret: i32) {}";

#[test]
fn call_site_gets_adapter_after_its_block() {
    let tree = vec![block(vec![func(
        "IntInt_closure_call",
        &["*mut IntIntClosure", "i32"],
        Some("i32"),
    )])];
    let out = enhance_tree(&tree, Runtime::Std);
    assert_eq!(out.len(), 3);
    match &out[0] {
        Node::Foreign { items, .. } => assert_eq!(items.len(), 1),
        _ => panic!("block expected first"),
    }
    let t = texts(&out);
    assert!(t[1].starts_with("impl IntIntClosure { unsafe extern \"C\" fn f_wrapper<F>(f: *mut ::std::ffi::c_void, _p0: i32) -> i32 where F: FnMut(i32) -> i32, { match ::std::panic::catch_unwind(|| { let f = &mut *(f as *mut F); f(_p0) })"));
    assert!(t[1].contains("pub fn fn_not_mut<Function>(f: Function) -> Self where Function: Fn(i32) -> i32, { Self { data: ::std::boxed::Box::into_raw(::std::boxed::Box::new(f)) as *mut ::std::ffi::c_void, function: Some(Self::f_wrapper::<Function>), delete_data: Some(Self::drop_my_box::<Function>), } } "));
    assert!(t[1].contains("Self::fn_mut(move |_p0| match f.take() { Some(f) => f(_p0), None => { eprintln!("));
    assert!(!t[1].contains("new_noop"));
    assert!(t[1].ends_with("}"));
    assert_eq!(
        t[2],
        "impl Drop for IntIntClosure { fn drop(&mut self) { unsafe { IntInt_closure_release(self) } } }"
    );
}

#[test]
fn void_signature_gets_noop() {
    let tree = vec![block(vec![func("VoidVoid_closure_call", &["*mut VoidVoidClosure"], None)])];
    let out = enhance_tree(&tree, Runtime::Std);
    let t = texts(&out);
    assert_eq!(t.len(), 3);
    assert!(t[1].contains("f_wrapper<F>(f: *mut ::std::ffi::c_void) where F: FnMut(), { "));
    assert!(t[1].ends_with("pub fn new_noop() -> Self { Self { data: ::core::ptr::null_mut(), function: None, delete_data: None } } }"));
}

#[test]
fn noop_only_without_return_value() {
    let with_ret = ClosureDefinition { name: s("IntVoid"), args: vec![], ret: Some(s("i32")) };
    assert!(noop_constructor(&with_ret).is_none());
    let without = ClosureDefinition { name: s("VoidInt"), args: vec![s("i32")], ret: None };
    assert_eq!(
        noop_constructor(&without).unwrap(),
        "pub fn new_noop() -> Self { Self { data: ::core::ptr::null_mut(), function: None, delete_data: None } } "
    );
}

#[test]
fn release_hooks_become_one_stub_each() {
    let tree = vec![
        block(vec![
            func("Int_release_rust_return_value", &["i32"], None),
            func("other", &[], None),
        ]),
        block(vec![func("Int_release_rust_return_value", &["i32"], None)]),
        Node::Verbatim { text: s("struct A;") },
    ];
    let out = enhance_tree(&tree, Runtime::Std);
    let t = texts(&out);
    assert_eq!(t, vec![s("<foreign>"), s("struct A;"), s(INT_STUB)]);
    match &out[0] {
        Node::Foreign { items, .. } => {
            assert_eq!(items.len(), 1);
            match &items[0] {
                ForeignItem::Function { name, .. } => assert_eq!(name, "other"),
                _ => panic!("function expected"),
            }
        }
        _ => panic!("block expected"),
    }
}

#[test]
fn release_hook_without_parameter_is_kept() {
    let tree = vec![block(vec![func("Int_release_rust_return_value", &[], None)])];
    let out = enhance_tree(&tree, Runtime::Std);
    assert_eq!(out.len(), 1);
    assert_eq!(texts(&out), vec![s("<foreign>")]);
}

#[test]
fn modules_are_walked_and_kept() {
    let inner = Node::Module {
        header: s("mod inner"),
        children: vec![block(vec![func("Int_release_rust_return_value", &["i32"], None)])],
    };
    let tree = vec![Node::Module {
        header: s("pub mod ffi"),
        children: vec![
            inner,
            block(vec![func("IntVoid_closure_call", &["*mut IntVoidClosure"], Some("i32"))]),
        ],
    }];
    let out = enhance_tree(&tree, Runtime::Std);
    assert_eq!(out.len(), 2);
    assert_eq!(texts(&out)[1], INT_STUB);
    match &out[0] {
        Node::Module { children, .. } => {
            assert_eq!(children.len(), 3);
            assert_eq!(texts(children)[0], "<foreign>");
            assert!(texts(children)[1].starts_with("impl IntVoidClosure { "));
        }
        _ => panic!("module expected"),
    }
}

#[test]
fn emptied_modules_are_dropped_empty_ones_kept() {
    let tree = vec![
        Node::Module {
            header: s("mod a"),
            children: vec![Node::Module {
                header: s("mod b"),
                children: vec![block(vec![func("Int_release_rust_return_value", &["i32"], None)])],
            }],
        },
        Node::Module { header: s("mod c"), children: vec![] },
    ];
    let out = enhance_tree(&tree, Runtime::Std);
    assert_eq!(render(&out), format!("mod c {{ }} {} ", INT_STUB));
}

#[test]
fn enhance_twice_without_call_sites_is_enhance_once() {
    let tree = vec![
        Node::Module {
            header: s("mod m"),
            children: vec![block(vec![
                func("Str_release_rust_return_value", &["*mut Str"], None),
                func("plain", &["i32"], Some("i32")),
            ])],
        },
        block(vec![func("Int_release_rust_return_value", &["i32"], None)]),
    ];
    let once = enhance_tree(&tree, Runtime::Std);
    let twice = enhance_tree(&once, Runtime::Std);
    assert_eq!(render(&once), render(&twice));
    assert_eq!(twice.len(), 3);
}

#[test]
fn rendering_is_exact() {
    let tree = vec![
        Node::Module {
            header: s("pub mod ffi"),
            children: vec![
                block(vec![
                    func("f", &[], None),
                    ForeignItem::Verbatim { text: s("static X: i32;") },
                ]),
                Node::Verbatim { text: s("struct A;") },
            ],
        },
        Node::Verbatim { text: s("struct B;") },
    ];
    assert_eq!(
        render(&tree),
        "pub mod ffi { extern \"C\" { pub fn f(); static X: i32; } struct A; } struct B; "
    );
}

#[test]
fn no_std_runtime_text() {
    let d = ClosureDefinition { name: s("IntInt"), args: vec![s("i32")], ret: Some(s("i32")) };
    let t = adapter_impl(&d, Runtime::NoStd);
    assert!(t.contains("f_wrapper<F>(f: *mut ::core::ffi::c_void, _p0: i32) -> i32 where F: FnMut(i32) -> i32, { let f = &mut *(f as *mut F); f(_p0) } "));
    assert!(t.contains("None => { unsafe { ::core::mem::zeroed() } }"));
    assert!(t.contains("::alloc::boxed::Box::into_raw(::alloc::boxed::Box::new(f))"));
    assert!(!t.contains("abort"));
    let std_text = adapter_impl(&d, Runtime::Std);
    assert!(std_text.contains("None => { eprintln!(\"Function marked as single-use was called more than once, the closure will not be called as that would segfault. Aborting.\"); ::std::process::abort() } }"));
    assert_eq!(
        adapter_drop(&d),
        "impl Drop for IntIntClosure { fn drop(&mut self) { unsafe { IntInt_closure_release(self) } } }"
    );
}

#[test]
fn parameter_lists() {
    assert_eq!(names_list_text(0), "");
    assert_eq!(names_list_text(1), "_p0");
    assert_eq!(
        names_list_text(12),
        "_p0, _p1, _p2, _p3, _p4, _p5, _p6, _p7, _p8, _p9, _p10, _p11"
    );
    let types = vec![s("i32"), s("*const u8"), s("bool")];
    assert_eq!(types_list_text(&types), "i32, *const u8, bool");
    assert_eq!(typed_params_text(&types), ", _p0: i32, _p1: *const u8, _p2: bool");
    assert_eq!(typed_params_text(&vec![]), "");
}

#[test]
fn two_parameter_call_site() {
    let tree = vec![block(vec![func(
        "IntIntInt_closure_call",
        &["*mut IntIntIntClosure", "i32", "i32"],
        Some("i32"),
    )])];
    let t = texts(&enhance_tree(&tree, Runtime::Std));
    assert!(t[1].contains("f_wrapper<F>(f: *mut ::std::ffi::c_void, _p0: i32, _p1: i32) -> i32 where F: FnMut(i32, i32) -> i32"));
    assert!(t[1].contains("move |_p0, _p1| match f.take() { Some(f) => f(_p0, _p1)"));
}

#[test]
fn naming_convention() {
    assert_eq!(closure_name("IntInt_closure_call"), Some(s("IntInt")));
    assert_eq!(closure_name("_closure_call"), Some(s("")));
    assert_eq!(closure_name("closure_call"), None);
    assert_eq!(closure_name("IntInt_closure_calls"), None);
    assert!(is_release_hook("Int_release_rust_return_value"));
    assert!(!is_release_hook("Int_release_rust_return"));
    assert!(has_suffix("abc", "bc"));
    assert!(has_suffix("abc", ""));
    assert!(!has_suffix("c", "abc"));
}

#[test]
fn empty_tree_stays_empty() {
    let out = enhance_tree(&vec![], Runtime::Std);
    assert!(out.is_empty());
    assert_eq!(render(&out), "");
    let out = enhance_tree(&vec![block(vec![])], Runtime::Std);
    assert!(out.is_empty());
}

#[test]
fn adapter_depends_on_signature_only() {
    let a = ForeignItem::Function {
        name: s("IntInt_closure_call"),
        params: vec![s("*mut IntIntClosure"), s("i32")],
        ret: Some(s("i32")),
        text: s("pub fn IntInt_closure_call(closure: *mut IntIntClosure, x: i32) -> i32;"),
    };
    let b = ForeignItem::Function {
        name: s("IntInt_closure_call"),
        params: vec![s("*mut IntIntClosure"), s("i32")],
        ret: Some(s("i32")),
        text: s("pub fn IntInt_closure_call(c: *mut IntIntClosure, value: i32) -> i32;"),
    };
    let first = enhance_tree(&vec![block(vec![a])], Runtime::Std);
    let second = enhance_tree(&vec![block(vec![b])], Runtime::Std);
    assert_eq!(texts(&first)[1..], texts(&second)[1..]);
}
