use vstd::prelude::*;
use crate::ast::{ExprModel, ImportModel, ItemModel, ProgramModel, SpecifierModel, YieldModel};
use crate::rules::{
    called_name, demotable, demote, demote_all, demote_yield, import_names, is_facade,
    named_locals, program_names, rewrite_import, transform, transform_item, FACADE_MODULE,
    RUNTIME_MODULE,
};

verus! {

/// Whether one of the named clauses `specs` binds the local name `f`.
pub open spec fn clause_binds(specs: Seq<SpecifierModel>, f: Seq<char>) -> bool {
    exists|j: int|
        0 <= j < specs.len() && (#[trigger] specs[j] matches SpecifierModel::Named { local, .. } && local
            == f)
}

/// Whether some named clause of some façade import of `p` binds the local name `f`.
pub open spec fn facade_binds(p: ProgramModel, f: Seq<char>) -> bool {
    exists|i: int|
        0 <= i < p.body.len() && (#[trigger] p.body[i] matches ItemModel::Import(d) && is_facade(d)
            && clause_binds(d.specifiers, f))
}

/// Whether no yield in `e`, at any depth, is demotable under `names`.
pub open spec fn settled(e: ExprModel, names: Set<Seq<char>>) -> bool
    decreases e,
{
    match e {
        ExprModel::Call { callee, args } => settled(*callee, names) && all_settled(args, names),
        ExprModel::Member { obj, .. } => settled(*obj, names),
        ExprModel::Paren(inner) => settled(*inner, names),
        ExprModel::Yield(y) => !demotable(y, names) && match y.arg {
            Some(a) => settled(*a, names),
            None => true,
        },
        ExprModel::Func { body, .. } => all_settled(body, names),
        _ => true,
    }
}

/// Whether every expression of `s` is settled under `names`.
pub open spec fn all_settled(s: Seq<ExprModel>, names: Set<Seq<char>>) -> bool
    decreases s,
{
    if s.len() == 0 {
        true
    } else {
        all_settled(s.subrange(0, s.len() - 1), names) && settled(s[s.len() - 1], names)
    }
}

/// The name set of a module holds exactly the local names that the named clauses of its
/// façade imports bind.
pub proof fn lemma_program_names(p: ProgramModel, f: Seq<char>)
    ensures
        program_names(p).contains(f) <==> facade_binds(p, f),
{
    if program_names(p).contains(f) {
        let i = choose|i: int|
            0 <= i < p.body.len() && (#[trigger] p.body[i] matches ItemModel::Import(d)
                && import_names(d).contains(f));
        let d = p.body[i]->Import_0;
        assert(clause_binds(d.specifiers, f));
    }
    if facade_binds(p, f) {
        let i = choose|i: int|
            0 <= i < p.body.len() && (#[trigger] p.body[i] matches ItemModel::Import(d) && is_facade(d)
                && clause_binds(d.specifiers, f));
        let d = p.body[i]->Import_0;
        assert(named_locals(d.specifiers).contains(f));
        assert(program_names(p).contains(f));
    }
}

/// A settled sequence of expressions is left as it is by demotion.
pub proof fn lemma_demote_all_settled(s: Seq<ExprModel>, names: Set<Seq<char>>)
    requires
        all_settled(s, names),
    ensures
        demote_all(s, names) == s,
    decreases s,
{
    if s.len() > 0 {
        lemma_demote_all_settled(s.subrange(0, s.len() - 1), names);
        lemma_demote_settled(s[s.len() - 1], names);
        assert(s.subrange(0, s.len() - 1).push(s[s.len() - 1]) =~= s);
    }
}

/// A settled expression is left as it is by demotion.
pub proof fn lemma_demote_settled(e: ExprModel, names: Set<Seq<char>>)
    requires
        settled(e, names),
    ensures
        demote(e, names) == e,
    decreases e,
{
    match e {
        ExprModel::Call { callee, args } => {
            lemma_demote_settled(*callee, names);
            lemma_demote_all_settled(args, names);
            assert(Box::new(demote(*callee, names)) == callee);
        },
        ExprModel::Member { obj, .. } => {
            lemma_demote_settled(*obj, names);
            assert(Box::new(demote(*obj, names)) == obj);
        },
        ExprModel::Paren(inner) => {
            lemma_demote_settled(*inner, names);
            assert(Box::new(demote(*inner, names)) == inner);
        },
        ExprModel::Yield(y) => {
            match y.arg {
                Some(a) => {
                    lemma_demote_settled(*a, names);
                    assert(Box::new(demote(*a, names)) == a);
                },
                None => {},
            }
            assert(demote_yield(y, names) == y);
        },
        ExprModel::Func { body, .. } => lemma_demote_all_settled(body, names),
        _ => {},
    }
}

/// Under an empty name set every sequence of expressions is settled.
pub proof fn lemma_all_settled_empty(s: Seq<ExprModel>)
    ensures
        all_settled(s, Set::empty()),
    decreases s,
{
    if s.len() > 0 {
        lemma_all_settled_empty(s.subrange(0, s.len() - 1));
        lemma_settled_empty(s[s.len() - 1]);
    }
}

/// Under an empty name set every expression is settled.
pub proof fn lemma_settled_empty(e: ExprModel)
    ensures
        settled(e, Set::empty()),
    decreases e,
{
    match e {
        ExprModel::Call { callee, args } => {
            lemma_settled_empty(*callee);
            lemma_all_settled_empty(args);
        },
        ExprModel::Member { obj, .. } => lemma_settled_empty(*obj),
        ExprModel::Paren(inner) => lemma_settled_empty(*inner),
        ExprModel::Yield(y) => {
            match y.arg {
                Some(a) => lemma_settled_empty(*a),
                None => {},
            }
        },
        ExprModel::Func { body, .. } => lemma_all_settled_empty(body),
        _ => {},
    }
}

/// A façade import comes out of the transform retargeted to the runtime module, with
/// its clauses unchanged and no cached source text.
pub proof fn law_specifier_replacement(p: ProgramModel, i: int)
    requires
        0 <= i < p.body.len(),
        p.body[i] matches ItemModel::Import(d) && is_facade(d),
    ensures
        transform(p).body[i] == ItemModel::Import(
            ImportModel { specifiers: p.body[i]->Import_0.specifiers, value: RUNTIME_MODULE@, raw: None },
        ),
{
}

/// An import of any other module comes out of the transform exactly as it went in.
pub proof fn law_non_interference(p: ProgramModel, i: int)
    requires
        0 <= i < p.body.len(),
        p.body[i] matches ItemModel::Import(d) && !is_facade(d),
    ensures
        transform(p).body[i] == p.body[i],
{
}

/// Under a module's name set, a yield loses its delegation exactly when it is a
/// delegating yield of a call to a bare identifier that a façade import's named clause
/// binds; every yield keeps its argument, demoted in turn.
pub proof fn law_selective_demotion(p: ProgramModel, y: YieldModel)
    ensures
        demote_yield(y, program_names(p)).delegate == (y.delegate && !match y.arg {
            Some(a) => match called_name(*a) {
                Some(f) => facade_binds(p, f),
                None => false,
            },
            None => false,
        }),
        demote_yield(y, program_names(p)).arg == match y.arg {
            Some(a) => Some(Box::new(demote(*a, program_names(p)))),
            None => None,
        },
{
    let names = program_names(p);
    match y.arg {
        Some(a) => match called_name(*a) {
            Some(f) => {
                lemma_program_names(p, f);
                assert(demotable(y, names) == (y.delegate && names.contains(f)));
            },
            None => {
                assert(!demotable(y, names));
            },
        },
        None => {
            assert(!demotable(y, names));
        },
    }
}

/// Demoting a yield of a call keeps the callee and the argument list; arguments that
/// hold no demotable yield come out exactly as they went in.
pub proof fn law_argument_preservation(
    callee: ExprModel,
    args: Seq<ExprModel>,
    delegate: bool,
    names: Set<Seq<char>>,
)
    requires
        callee matches ExprModel::Ident(_),
    ensures
        demote_yield(
            YieldModel { arg: Some(Box::new(ExprModel::Call { callee: Box::new(callee), args })), delegate },
            names,
        ).arg == Some(Box::new(ExprModel::Call { callee: Box::new(callee), args: demote_all(args, names) })),
        all_settled(args, names) ==> demote_all(args, names) == args,
{
    let call = ExprModel::Call { callee: Box::new(callee), args };
    assert(demote(callee, names) == callee);
    assert(demote(call, names) == ExprModel::Call { callee: Box::new(callee), args: demote_all(args, names) });
    if all_settled(args, names) {
        lemma_demote_all_settled(args, names);
    }
}

/// Once transformed, a module holds no façade import, so its name set is empty.
pub proof fn lemma_transformed_names_empty(p: ProgramModel)
    ensures
        program_names(transform(p)) == Set::<Seq<char>>::empty(),
{
    reveal_strlit("typed-redux-saga/macro");
    reveal_strlit("redux-saga/effects");
    let q = transform(p);
    assert forall|s: Seq<char>| !program_names(q).contains(s) by {
        if program_names(q).contains(s) {
            let i = choose|i: int|
                0 <= i < q.body.len() && (#[trigger] q.body[i] matches ItemModel::Import(d)
                    && import_names(d).contains(s));
            assert(q.body[i] == transform_item(p.body[i], program_names(p)));
            let d = p.body[i]->Import_0;
            assert(RUNTIME_MODULE@.len() != FACADE_MODULE@.len());
            assert(!is_facade(rewrite_import(d)));
        }
    }
    assert(program_names(q) =~= Set::<Seq<char>>::empty());
}

/// Running the transform twice gives what running it once gives.
pub proof fn law_idempotence(p: ProgramModel)
    ensures
        transform(transform(p)) == transform(p),
{
    reveal_strlit("typed-redux-saga/macro");
    reveal_strlit("redux-saga/effects");
    let q = transform(p);
    lemma_transformed_names_empty(p);
    assert forall|i: int| 0 <= i < q.body.len() implies #[trigger] transform(q).body[i] == q.body[i] by {
        assert(q.body[i] == transform_item(p.body[i], program_names(p)));
        match q.body[i] {
            ItemModel::Import(d) => {
                assert(RUNTIME_MODULE@.len() != FACADE_MODULE@.len());
            },
            ItemModel::Stmt(e) => {
                lemma_settled_empty(e);
                lemma_demote_settled(e, Set::empty());
            },
        }
    }
    assert(transform(q).body =~= q.body);
}

/// An aliased named clause `{ x as y }` of a façade import puts `y` in the name set;
/// a name that no named clause of a façade import binds, such as an unaliased `x`, does
/// not make a yield lose its delegation.
pub proof fn law_alias_fidelity(p: ProgramModel, i: int, j: int, x: Seq<char>, y: YieldModel)
    requires
        0 <= i < p.body.len(),
        p.body[i] matches ItemModel::Import(d) && is_facade(d) && 0 <= j < d.specifiers.len()
            && d.specifiers[j] matches SpecifierModel::Named { imported: Some(_), .. },
        !facade_binds(p, x),
        y.arg matches Some(a) && called_name(*a) == Some(x),
    ensures
        program_names(p).contains(p.body[i]->Import_0.specifiers[j]->Named_local),
        demote_yield(y, program_names(p)).delegate == y.delegate,
{
    let d = p.body[i]->Import_0;
    let local = d.specifiers[j]->Named_local;
    assert(clause_binds(d.specifiers, local));
    assert(facade_binds(p, local));
    lemma_program_names(p, local);
    lemma_program_names(p, x);
}

/// A delegating yield of a call to a collected name, nested in a generator literal that
/// is the argument of another such yield, is demoted along with the outer one.
pub proof fn law_nesting(
    f: Seq<char>,
    g: Seq<char>,
    fn_name: Option<Seq<char>>,
    inner_args: Seq<ExprModel>,
    names: Set<Seq<char>>,
)
    requires
        names.contains(f),
        names.contains(g),
    ensures
        ({
            let inner = YieldModel {
                arg: Some(Box::new(ExprModel::Call { callee: Box::new(ExprModel::Ident(g)), args: inner_args })),
                delegate: true,
            };
            let outer = YieldModel {
                arg: Some(
                    Box::new(
                        ExprModel::Call {
                            callee: Box::new(ExprModel::Ident(f)),
                            args: seq![ExprModel::Func { name: fn_name, body: seq![ExprModel::Yield(inner)] }],
                        },
                    ),
                ),
                delegate: true,
            };
            let inner_out = YieldModel {
                arg: Some(
                    Box::new(
                        ExprModel::Call {
                            callee: Box::new(ExprModel::Ident(g)),
                            args: demote_all(inner_args, names),
                        },
                    ),
                ),
                delegate: false,
            };
            demote_yield(outer, names) == YieldModel {
                arg: Some(
                    Box::new(
                        ExprModel::Call {
                            callee: Box::new(ExprModel::Ident(f)),
                            args: seq![ExprModel::Func { name: fn_name, body: seq![ExprModel::Yield(inner_out)] }],
                        },
                    ),
                ),
                delegate: false,
            }
        }),
{
    let inner = YieldModel {
        arg: Some(Box::new(ExprModel::Call { callee: Box::new(ExprModel::Ident(g)), args: inner_args })),
        delegate: true,
    };
    let body = seq![ExprModel::Yield(inner)];
    let func = ExprModel::Func { name: fn_name, body };
    let args = seq![func];
    let inner_call = ExprModel::Call { callee: Box::new(ExprModel::Ident(g)), args: inner_args };
    let outer_call = ExprModel::Call { callee: Box::new(ExprModel::Ident(f)), args };
    assert(body.subrange(0, 0) =~= Seq::<ExprModel>::empty());
    assert(args.subrange(0, 0) =~= Seq::<ExprModel>::empty());
    assert(demote(ExprModel::Ident(g), names) == ExprModel::Ident(g));
    assert(demote(ExprModel::Ident(f), names) == ExprModel::Ident(f));
    assert(called_name(inner_call) == Some(g));
    assert(called_name(outer_call) == Some(f));
    assert(demote_all(Seq::<ExprModel>::empty(), names) == Seq::<ExprModel>::empty());
    assert(demote(inner_call, names) == ExprModel::Call {
        callee: Box::new(ExprModel::Ident(g)),
        args: demote_all(inner_args, names),
    });
    assert(demotable(inner, names));
    assert(demote(ExprModel::Yield(inner), names) == ExprModel::Yield(demote_yield(inner, names)));
    assert(demote_all(body, names) =~= seq![demote(ExprModel::Yield(inner), names)]);
    assert(demote(func, names) == ExprModel::Func { name: fn_name, body: demote_all(body, names) });
    assert(demote_all(args, names) =~= seq![demote(func, names)]);
    assert(demote(outer_call, names) == ExprModel::Call {
        callee: Box::new(ExprModel::Ident(f)),
        args: demote_all(args, names),
    });
}

} // verus!
