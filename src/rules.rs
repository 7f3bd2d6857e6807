use vstd::prelude::*;
use crate::ast::{ExprModel, ImportModel, ItemModel, ProgramModel, SpecifierModel, YieldModel};

verus! {

/// The module specifier of the typed façade.
pub const FACADE_MODULE: &'static str = "typed-redux-saga/macro";

/// The module specifier of the effect runtime the façade stands for.
pub const RUNTIME_MODULE: &'static str = "redux-saga/effects";

/// The local names bound by the named clauses among `specs`.
pub open spec fn named_locals(specs: Seq<SpecifierModel>) -> Set<Seq<char>> {
    Set::new(
        |s: Seq<char>|
            exists|i: int|
                0 <= i < specs.len() && (#[trigger] specs[i] matches SpecifierModel::Named { local, .. }
                    && local == s),
    )
}

/// Whether an import declaration names the façade module.
pub open spec fn is_facade(d: ImportModel) -> bool {
    d.value == FACADE_MODULE@
}

/// The names an import declaration contributes to the name set.
pub open spec fn import_names(d: ImportModel) -> Set<Seq<char>> {
    if is_facade(d) {
        named_locals(d.specifiers)
    } else {
        Set::empty()
    }
}

/// An import declaration after retargeting.
pub open spec fn rewrite_import(d: ImportModel) -> ImportModel {
    if is_facade(d) {
        ImportModel { specifiers: d.specifiers, value: RUNTIME_MODULE@, raw: None }
    } else {
        d
    }
}

/// An expression with its enclosing parentheses removed.
pub open spec fn strip_parens(e: ExprModel) -> ExprModel
    decreases e,
{
    match e {
        ExprModel::Paren(inner) => strip_parens(*inner),
        _ => e,
    }
}

/// The name of the bare identifier called by `e`, once parentheses are stripped.
pub open spec fn called_name(e: ExprModel) -> Option<Seq<char>> {
    match strip_parens(e) {
        ExprModel::Call { callee, .. } => match *callee {
            ExprModel::Ident(f) => Some(f),
            _ => None,
        },
        _ => None,
    }
}

/// Whether a yield is a delegating yield of a call to one of `names`.
pub open spec fn demotable(y: YieldModel, names: Set<Seq<char>>) -> bool {
    y.delegate && match y.arg {
        Some(a) => match called_name(*a) {
            Some(f) => names.contains(f),
            None => false,
        },
        None => false,
    }
}

/// A sequence of expressions, each with its demotable yields demoted.
pub open spec fn demote_all(s: Seq<ExprModel>, names: Set<Seq<char>>) -> Seq<ExprModel>
    decreases s,
{
    if s.len() == 0 {
        s
    } else {
        demote_all(s.subrange(0, s.len() - 1), names).push(demote(s[s.len() - 1], names))
    }
}

/// An expression with every demotable yield in it, at any depth, turned into a plain yield.
pub open spec fn demote(e: ExprModel, names: Set<Seq<char>>) -> ExprModel
    decreases e,
{
    match e {
        ExprModel::Call { callee, args } => ExprModel::Call {
            callee: Box::new(demote(*callee, names)),
            args: demote_all(args, names),
        },
        ExprModel::Member { obj, prop } => ExprModel::Member { obj: Box::new(demote(*obj, names)), prop },
        ExprModel::Paren(inner) => ExprModel::Paren(Box::new(demote(*inner, names))),
        ExprModel::Yield(y) => ExprModel::Yield(demote_yield(y, names)),
        ExprModel::Func { name, body } => ExprModel::Func { name, body: demote_all(body, names) },
        _ => e,
    }
}

/// A yield expression, demoted if it is demotable, with its argument demoted in turn.
pub open spec fn demote_yield(y: YieldModel, names: Set<Seq<char>>) -> YieldModel
    decreases y,
{
    YieldModel {
        arg: match y.arg {
            Some(a) => Some(Box::new(demote(*a, names))),
            None => None,
        },
        delegate: y.delegate && !demotable(y, names),
    }
}

/// The names that all façade imports of a module bind.
pub open spec fn program_names(p: ProgramModel) -> Set<Seq<char>> {
    Set::new(
        |s: Seq<char>|
            exists|i: int|
                0 <= i < p.body.len() && (#[trigger] p.body[i] matches ItemModel::Import(d)
                    && import_names(d).contains(s)),
    )
}

/// A top-level item after the transform, given the module's name set.
pub open spec fn transform_item(it: ItemModel, names: Set<Seq<char>>) -> ItemModel {
    match it {
        ItemModel::Import(d) => ItemModel::Import(rewrite_import(d)),
        ItemModel::Stmt(e) => ItemModel::Stmt(demote(e, names)),
    }
}

/// A module after the transform.
pub open spec fn transform(p: ProgramModel) -> ProgramModel {
    ProgramModel { body: p.body.map_values(|it: ItemModel| transform_item(it, program_names(p))) }
}

} // verus!
