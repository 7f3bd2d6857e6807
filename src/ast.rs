use vstd::prelude::*;

verus! {

/// The mathematical model of an optional string.
pub open spec fn opt_str_view(o: Option<String>) -> Option<Seq<char>> {
    match o {
        Some(s) => Some(s@),
        None => None,
    }
}

/// One clause of an import declaration, as the transform sees it.
#[derive(Clone, Debug, PartialEq, Eq)]
pub enum ImportSpecifier {
    /// `{ imported as local }`, or `{ local }` when `imported` is `None`.
    Named { local: String, imported: Option<String> },
    /// `import local from "..."`.
    Default { local: String },
    /// `import * as local from "..."`.
    Namespace { local: String },
}

/// Model of an import clause.
pub ghost enum SpecifierModel {
    Named { local: Seq<char>, imported: Option<Seq<char>> },
    Default { local: Seq<char> },
    Namespace { local: Seq<char> },
}

impl View for ImportSpecifier {
    type V = SpecifierModel;

    open spec fn view(&self) -> SpecifierModel {
        match self {
            ImportSpecifier::Named { local, imported } => SpecifierModel::Named {
                local: local@,
                imported: opt_str_view(*imported),
            },
            ImportSpecifier::Default { local } => SpecifierModel::Default { local: local@ },
            ImportSpecifier::Namespace { local } => SpecifierModel::Namespace { local: local@ },
        }
    }
}

/// A string literal: its decoded value and the cached source text, if any.
#[derive(Clone, Debug, PartialEq, Eq)]
pub struct Str {
    pub value: String,
    pub raw: Option<String>,
}

/// An import declaration: its clauses and its module specifier.
#[derive(Clone, Debug, PartialEq, Eq)]
pub struct ImportDecl {
    pub specifiers: Vec<ImportSpecifier>,
    pub src: Str,
}

/// Model of an import declaration.
pub ghost struct ImportModel {
    pub specifiers: Seq<SpecifierModel>,
    pub value: Seq<char>,
    pub raw: Option<Seq<char>>,
}

impl View for ImportDecl {
    type V = ImportModel;

    open spec fn view(&self) -> ImportModel {
        ImportModel {
            specifiers: self.specifiers@.map_values(|s: ImportSpecifier| s@),
            value: self.src.value@,
            raw: opt_str_view(self.src.raw),
        }
    }
}

/// An expression. Only the forms the transform distinguishes are spelled out;
/// any other leaf is kept as its source text.
pub enum Expr {
    Ident(String),
    Call { callee: Box<Expr>, args: Vec<Expr> },
    Member { obj: Box<Expr>, prop: String },
    Paren(Box<Expr>),
    Yield(YieldExpr),
    /// A function literal (possibly a generator) and the statements of its body.
    Func { name: Option<String>, body: Vec<Expr> },
    Other(String),
}

/// `yield arg` (`delegate == false`) or `yield* arg` (`delegate == true`).
pub struct YieldExpr {
    pub arg: Option<Box<Expr>>,
    pub delegate: bool,
}

/// Model of an expression.
pub ghost enum ExprModel {
    Ident(Seq<char>),
    Call { callee: Box<ExprModel>, args: Seq<ExprModel> },
    Member { obj: Box<ExprModel>, prop: Seq<char> },
    Paren(Box<ExprModel>),
    Yield(YieldModel),
    Func { name: Option<Seq<char>>, body: Seq<ExprModel> },
    Other(Seq<char>),
}

/// Model of a yield expression.
pub ghost struct YieldModel {
    pub arg: Option<Box<ExprModel>>,
    pub delegate: bool,
}

/// The models of a sequence of expressions, in order.
pub open spec fn exprs_view(s: Seq<Expr>) -> Seq<ExprModel>
    decreases s,
{
    if s.len() == 0 {
        Seq::empty()
    } else {
        exprs_view(s.subrange(0, s.len() - 1)).push(expr_view(s[s.len() - 1]))
    }
}

/// The model of an expression.
pub open spec fn expr_view(e: Expr) -> ExprModel
    decreases e,
{
    match e {
        Expr::Ident(s) => ExprModel::Ident(s@),
        Expr::Call { callee, args } => ExprModel::Call {
            callee: Box::new(expr_view(*callee)),
            args: exprs_view(args@),
        },
        Expr::Member { obj, prop } => ExprModel::Member { obj: Box::new(expr_view(*obj)), prop: prop@ },
        Expr::Paren(inner) => ExprModel::Paren(Box::new(expr_view(*inner))),
        Expr::Yield(y) => ExprModel::Yield(yield_view(y)),
        Expr::Func { name, body } => ExprModel::Func { name: opt_str_view(name), body: exprs_view(body@) },
        Expr::Other(s) => ExprModel::Other(s@),
    }
}

/// The model of a yield expression.
pub open spec fn yield_view(y: YieldExpr) -> YieldModel
    decreases y,
{
    YieldModel {
        arg: match y.arg {
            Some(a) => Some(Box::new(expr_view(*a))),
            None => None,
        },
        delegate: y.delegate,
    }
}

impl View for Expr {
    type V = ExprModel;

    open spec fn view(&self) -> ExprModel {
        expr_view(*self)
    }
}

impl View for YieldExpr {
    type V = YieldModel;

    open spec fn view(&self) -> YieldModel {
        yield_view(*self)
    }
}

} // verus!

verus! {

/// A top-level item of a module.
pub enum ModuleItem {
    Import(ImportDecl),
    Stmt(Expr),
}

/// Model of a top-level item.
pub ghost enum ItemModel {
    Import(ImportModel),
    Stmt(ExprModel),
}

impl View for ModuleItem {
    type V = ItemModel;

    open spec fn view(&self) -> ItemModel {
        match self {
            ModuleItem::Import(d) => ItemModel::Import(d@),
            ModuleItem::Stmt(e) => ItemModel::Stmt(e@),
        }
    }
}

/// A whole module: its top-level items in source order.
pub struct Program {
    pub body: Vec<ModuleItem>,
}

/// Model of a module.
pub ghost struct ProgramModel {
    pub body: Seq<ItemModel>,
}

impl View for Program {
    type V = ProgramModel;

    open spec fn view(&self) -> ProgramModel {
        ProgramModel { body: self.body@.map_values(|i: ModuleItem| i@) }
    }
}

} // verus!
