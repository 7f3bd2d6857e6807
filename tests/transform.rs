use saga_effects_transform::ast::{Expr, ImportDecl, ImportSpecifier, ModuleItem, Program, Str, YieldExpr};
use saga_effects_transform::names::NameSet;
use saga_effects_transform::transform::{callee_ident, process_transform, retarget_import, TransformVisitor};

const FACADE: &str = "typed-redux-saga/macro";
const RUNTIME: &str = "redux-saga/effects";

fn named(local: &str) -> ImportSpecifier {
    ImportSpecifier::Named { local: local.to_string(), imported: None }
}

fn aliased(imported: &str, local: &str) -> ImportSpecifier {
    ImportSpecifier::Named { local: local.to_string(), imported: Some(imported.to_string()) }
}

fn import(specifiers: Vec<ImportSpecifier>, module: &str) -> ImportDecl {
    ImportDecl {
        specifiers,
        src: Str { value: module.to_string(), raw: Some(format!("\"{}\"", module)) },
    }
}

fn ident(name: &str) -> Expr {
    Expr::Ident(name.to_string())
}

fn call(name: &str, args: Vec<Expr>) -> Expr {
    Expr::Call { callee: Box::new(ident(name)), args }
}

fn yield_of(arg: Expr, delegate: bool) -> Expr {
    Expr::Yield(YieldExpr { arg: Some(Box::new(arg)), delegate })
}

fn generator(name: &str, body: Vec<Expr>) -> Expr {
    Expr::Func { name: Some(name.to_string()), body }
}

fn collect_delegates(e: &Expr, out: &mut Vec<bool>) {
    match e {
        Expr::Call { callee, args } => {
            collect_delegates(callee, out);
            for a in args {
                collect_delegates(a, out);
            }
        }
        Expr::Member { obj, .. } => collect_delegates(obj, out),
        Expr::Paren(inner) => collect_delegates(inner, out),
        Expr::Yield(y) => {
            out.push(y.delegate);
            if let Some(a) = &y.arg {
                collect_delegates(a, out);
            }
        }
        Expr::Func { body, .. } => {
            for s in body {
                collect_delegates(s, out);
            }
        }
        Expr::Ident(_) | Expr::Other(_) => {}
    }
}

/// The delegate flags of all yields of a module, in source order.
fn delegates(p: &Program) -> Vec<bool> {
    let mut out = Vec::new();
    for item in &p.body {
        if let ModuleItem::Stmt(e) = item {
            collect_delegates(e, &mut out);
        }
    }
    out
}

fn imports(p: &Program) -> Vec<ImportDecl> {
    let mut out = Vec::new();
    for item in &p.body {
        if let ModuleItem::Import(d) = item {
            out.push(d.clone());
        }
    }
    out
}

fn retargeted(specifiers: Vec<ImportSpecifier>) -> ImportDecl {
    ImportDecl { specifiers, src: Str { value: RUNTIME.to_string(), raw: None } }
}

#[test]
fn replaces_import() {
    let p = Program { body: vec![ModuleItem::Import(import(vec![named("put")], FACADE))] };
    let r = process_transform(p);
    assert_eq!(imports(&r), vec![retargeted(vec![named("put")])]);
}

#[test]
fn replaces_aliased_import() {
    let p = Program { body: vec![ModuleItem::Import(import(vec![aliased("put", "_put")], FACADE))] };
    let r = process_transform(p);
    assert_eq!(imports(&r), vec![retargeted(vec![aliased("put", "_put")])]);
}

#[test]
fn replaces_yield_delegate() {
    let p = Program {
        body: vec![
            ModuleItem::Import(import(vec![named("put")], FACADE)),
            ModuleItem::Stmt(generator("test", vec![yield_of(call("put", vec![]), true)])),
        ],
    };
    let r = process_transform(p);
    assert_eq!(imports(&r), vec![retargeted(vec![named("put")])]);
    assert_eq!(delegates(&r), vec![false]);
}

#[test]
fn replaces_yield_delegate_with_args() {
    let p = Program {
        body: vec![
            ModuleItem::Import(import(vec![named("put")], FACADE)),
            ModuleItem::Stmt(generator(
                "test",
                vec![yield_of(call("put", vec![Expr::Other("\"test\"".to_string())]), true)],
            )),
        ],
    };
    let r = process_transform(p);
    assert_eq!(delegates(&r), vec![false]);
    match &r.body[1] {
        ModuleItem::Stmt(Expr::Func { body, .. }) => match &body[0] {
            Expr::Yield(YieldExpr { arg: Some(a), .. }) => match &**a {
                Expr::Call { callee, args } => {
                    assert!(matches!(&**callee, Expr::Ident(f) if f == "put"));
                    assert_eq!(args.len(), 1);
                    assert!(matches!(&args[0], Expr::Other(s) if s == "\"test\""));
                }
                _ => panic!("the argument is no longer a call"),
            },
            _ => panic!("the yield is gone"),
        },
        _ => panic!("the generator is gone"),
    }
}

#[test]
fn replaces_aliased_yield_delegate() {
    let p = Program {
        body: vec![
            ModuleItem::Import(import(vec![aliased("put", "_put")], FACADE)),
            ModuleItem::Stmt(generator("test", vec![yield_of(call("_put", vec![]), true)])),
        ],
    };
    let r = process_transform(p);
    assert_eq!(imports(&r), vec![retargeted(vec![aliased("put", "_put")])]);
    assert_eq!(delegates(&r), vec![false]);
}

#[test]
fn replaces_correct_yield_delegate() {
    let p = Program {
        body: vec![
            ModuleItem::Import(import(vec![named("put")], FACADE)),
            ModuleItem::Import(import(vec![named("call")], "typed-redux-saga")),
            ModuleItem::Stmt(generator("a", vec![yield_of(call("put", vec![]), true)])),
            ModuleItem::Stmt(generator("b", vec![yield_of(call("call", vec![]), true)])),
        ],
    };
    let r = process_transform(p);
    assert_eq!(
        imports(&r),
        vec![retargeted(vec![named("put")]), import(vec![named("call")], "typed-redux-saga")]
    );
    assert_eq!(delegates(&r), vec![false, true]);
}

#[test]
fn replaces_multiple_yield_delegates() {
    let p = Program {
        body: vec![
            ModuleItem::Import(import(vec![named("put"), named("call")], FACADE)),
            ModuleItem::Stmt(generator("test1", vec![yield_of(call("put", vec![]), true)])),
            ModuleItem::Stmt(generator("test1", vec![yield_of(call("call", vec![]), true)])),
        ],
    };
    let r = process_transform(p);
    assert_eq!(imports(&r), vec![retargeted(vec![named("put"), named("call")])]);
    assert_eq!(delegates(&r), vec![false, false]);
}

#[test]
fn replaces_nested_yield_delegates() {
    let inner = generator("backgroundTask", vec![yield_of(call("put", vec![]), true)]);
    let p = Program {
        body: vec![
            ModuleItem::Import(import(vec![named("put"), named("call"), named("fork")], FACADE)),
            ModuleItem::Stmt(generator("test1", vec![yield_of(call("fork", vec![inner]), true)])),
        ],
    };
    let r = process_transform(p);
    assert_eq!(imports(&r), vec![retargeted(vec![named("put"), named("call"), named("fork")])]);
    assert_eq!(delegates(&r), vec![false, false]);
}

#[test]
fn leaves_other_yields() {
    let p = Program {
        body: vec![
            ModuleItem::Import(import(vec![named("put")], FACADE)),
            ModuleItem::Stmt(generator(
                "t",
                vec![
                    // yield put();
                    yield_of(call("put", vec![]), false),
                    // yield* local();
                    yield_of(call("local", vec![]), true),
                    // yield* effects.put();
                    yield_of(
                        Expr::Call {
                            callee: Box::new(Expr::Member {
                                obj: Box::new(ident("effects")),
                                prop: "put".to_string(),
                            }),
                            args: vec![],
                        },
                        true,
                    ),
                    // yield* put;
                    yield_of(ident("put"), true),
                    // yield* (put)();
                    yield_of(
                        Expr::Call { callee: Box::new(Expr::Paren(Box::new(ident("put")))), args: vec![] },
                        true,
                    ),
                    // yield*;
                    Expr::Yield(YieldExpr { arg: None, delegate: true }),
                ],
            )),
        ],
    };
    let r = process_transform(p);
    assert_eq!(delegates(&r), vec![false, true, true, true, true, true]);
}

#[test]
fn parenthesised_argument_is_demoted() {
    let p = Program {
        body: vec![
            ModuleItem::Import(import(vec![named("put")], FACADE)),
            ModuleItem::Stmt(yield_of(Expr::Paren(Box::new(Expr::Paren(Box::new(call("put", vec![]))))), true)),
        ],
    };
    let r = process_transform(p);
    assert_eq!(delegates(&r), vec![false]);
}

#[test]
fn aliased_original_name_is_not_demoted() {
    let p = Program {
        body: vec![
            ModuleItem::Import(import(vec![aliased("put", "_put")], FACADE)),
            ModuleItem::Stmt(generator(
                "t",
                vec![yield_of(call("put", vec![]), true), yield_of(call("_put", vec![]), true)],
            )),
        ],
    };
    let r = process_transform(p);
    assert_eq!(delegates(&r), vec![true, false]);
}

#[test]
fn default_and_namespace_clauses_bind_nothing() {
    let p = Program {
        body: vec![
            ModuleItem::Import(import(
                vec![
                    ImportSpecifier::Default { local: "saga".to_string() },
                    ImportSpecifier::Namespace { local: "all".to_string() },
                ],
                FACADE,
            )),
            ModuleItem::Stmt(generator(
                "t",
                vec![yield_of(call("saga", vec![]), true), yield_of(call("all", vec![]), true)],
            )),
        ],
    };
    let r = process_transform(p);
    assert_eq!(
        imports(&r),
        vec![retargeted(vec![
            ImportSpecifier::Default { local: "saga".to_string() },
            ImportSpecifier::Namespace { local: "all".to_string() },
        ])]
    );
    assert_eq!(delegates(&r), vec![true, true]);
}

#[test]
fn side_effect_import_is_retargeted() {
    let p = Program {
        body: vec![
            ModuleItem::Import(import(vec![], FACADE)),
            ModuleItem::Stmt(yield_of(call("put", vec![]), true)),
        ],
    };
    let r = process_transform(p);
    assert_eq!(imports(&r), vec![retargeted(vec![])]);
    assert_eq!(delegates(&r), vec![true]);
}

#[test]
fn other_modules_are_untouched() {
    let other = import(vec![named("put")], "typed-redux-saga/macro/");
    let upper = import(vec![named("take")], "Typed-redux-saga/macro");
    let p = Program {
        body: vec![
            ModuleItem::Import(other.clone()),
            ModuleItem::Import(upper.clone()),
            ModuleItem::Stmt(yield_of(call("put", vec![]), true)),
        ],
    };
    let r = process_transform(p);
    assert_eq!(imports(&r), vec![other, upper]);
    assert_eq!(delegates(&r), vec![true]);
}

#[test]
fn duplicate_facade_imports_are_merged() {
    let p = Program {
        body: vec![
            ModuleItem::Import(import(vec![named("put")], FACADE)),
            ModuleItem::Import(import(vec![named("call")], FACADE)),
            ModuleItem::Stmt(yield_of(call("put", vec![]), true)),
            ModuleItem::Stmt(yield_of(call("call", vec![]), true)),
        ],
    };
    let r = process_transform(p);
    assert_eq!(imports(&r), vec![retargeted(vec![named("put")]), retargeted(vec![named("call")])]);
    assert_eq!(delegates(&r), vec![false, false]);
}

#[test]
fn import_after_use_still_counts() {
    let p = Program {
        body: vec![
            ModuleItem::Stmt(yield_of(call("put", vec![]), true)),
            ModuleItem::Import(import(vec![named("put")], FACADE)),
        ],
    };
    let r = process_transform(p);
    assert_eq!(delegates(&r), vec![false]);
}

#[test]
fn transform_twice_equals_once() {
    let build = || Program {
        body: vec![
            ModuleItem::Import(import(vec![named("put"), aliased("fork", "f")], FACADE)),
            ModuleItem::Import(import(vec![named("call")], "typed-redux-saga")),
            ModuleItem::Stmt(generator(
                "t",
                vec![
                    yield_of(call("f", vec![generator("bg", vec![yield_of(call("put", vec![]), true)])]), true),
                    yield_of(call("call", vec![]), true),
                ],
            )),
        ],
    };
    let once = process_transform(build());
    let twice = process_transform(process_transform(build()));
    assert_eq!(imports(&once), imports(&twice));
    assert_eq!(delegates(&once), delegates(&twice));
    assert_eq!(delegates(&once), vec![false, false, true]);
}

#[test]
fn empty_program_stays_empty() {
    let r = process_transform(Program { body: vec![] });
    assert!(r.body.is_empty());
}

#[test]
fn visitor_collects_only_facade_names() {
    let mut v = TransformVisitor::new();
    assert!(!v.is_effect_name(&"put".to_string()));
    let mut other = import(vec![named("call")], "redux-saga");
    v.visit_mut_import_decl(&mut other);
    assert_eq!(other, import(vec![named("call")], "redux-saga"));
    assert!(!v.is_effect_name(&"call".to_string()));
    let mut d = import(vec![aliased("put", "_put"), named("take")], FACADE);
    v.visit_mut_import_decl(&mut d);
    assert_eq!(d, retargeted(vec![aliased("put", "_put"), named("take")]));
    assert!(v.is_effect_name(&"_put".to_string()));
    assert!(v.is_effect_name(&"take".to_string()));
    assert!(!v.is_effect_name(&"put".to_string()));
}

#[test]
fn visitor_demotes_one_yield_at_a_time() {
    let mut v = TransformVisitor::new();
    v.visit_mut_import_decl(&mut import(vec![named("put"), named("fork")], FACADE));
    let inner = generator("bg", vec![yield_of(call("put", vec![]), true)]);
    let mut y = YieldExpr { arg: Some(Box::new(call("fork", vec![inner]))), delegate: true };
    assert!(v.is_demotable(&y));
    v.demote_yield(&mut y);
    assert!(!y.delegate);
    let mut inner_flags = Vec::new();
    collect_delegates(y.arg.as_ref().unwrap(), &mut inner_flags);
    assert_eq!(inner_flags, vec![true]);
    y.delegate = true;
    v.visit_mut_yield_expr(&mut y);
    let mut all = Vec::new();
    collect_delegates(&Expr::Yield(y), &mut all);
    assert_eq!(all, vec![false, false]);
}

#[test]
fn retarget_import_drops_raw_text() {
    let mut d = import(vec![named("put")], FACADE);
    retarget_import(&mut d);
    assert_eq!(d.src.value, RUNTIME);
    assert_eq!(d.src.raw, None);
    let mut e = import(vec![named("put")], RUNTIME);
    retarget_import(&mut e);
    assert_eq!(e, import(vec![named("put")], RUNTIME));
}

#[test]
fn callee_ident_sees_through_parens() {
    let e = Expr::Paren(Box::new(call("put", vec![ident("x")])));
    assert_eq!(callee_ident(&e), Some("put".to_string()));
    assert_eq!(callee_ident(&ident("put")), None);
    let paren_callee = Expr::Call { callee: Box::new(Expr::Paren(Box::new(ident("put")))), args: vec![] };
    assert_eq!(callee_ident(&paren_callee), None);
}

#[test]
fn name_set_is_exact_and_case_sensitive() {
    let mut s = NameSet::new();
    s.insert("put".to_string());
    s.insert("put".to_string());
    assert!(s.contains(&"put".to_string()));
    assert!(!s.contains(&"Put".to_string()));
    assert!(!s.contains(&"pu".to_string()));
}
