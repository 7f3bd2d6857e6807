use vstd::prelude::*;
use vstd::string::StringExecFns;
use crate::ast::{
    expr_view, exprs_view, Expr, ExprModel, ImportDecl, ImportSpecifier, ItemModel, ModuleItem,
    Program, ProgramModel, SpecifierModel, YieldExpr, YieldModel,
};
use crate::names::NameSet;
use crate::rules::{
    called_name, demotable, demote, demote_all, demote_yield, import_names, named_locals,
    program_names, rewrite_import, strip_parens, transform, transform_item, FACADE_MODULE,
    RUNTIME_MODULE,
};

verus! {

/// The state of one walk over a module: the names bound by the façade imports seen so far.
pub struct TransformVisitor {
    local_idents: NameSet,
}

impl View for TransformVisitor {
    type V = Set<Seq<char>>;

    closed spec fn view(&self) -> Set<Seq<char>> {
        self.local_idents@
    }
}

proof fn lemma_named_locals_step(specs: Seq<SpecifierModel>, i: int)
    requires
        0 <= i < specs.len(),
    ensures
        named_locals(specs.take(i + 1)) == named_locals(specs.take(i)).union(
            match specs[i] {
                SpecifierModel::Named { local, .. } => set![local],
                _ => Set::empty(),
            },
        ),
{
    let a = specs.take(i + 1);
    let b = specs.take(i);
    assert(a[i] == specs[i]);
    assert forall|j: int| 0 <= j < i implies a[j] == b[j] by {}
    let rhs = named_locals(b).union(
        match specs[i] {
            SpecifierModel::Named { local, .. } => set![local],
            _ => Set::empty(),
        },
    );
    assert forall|s: Seq<char>| named_locals(a).contains(s) implies rhs.contains(s) by {
        let j = choose|j: int|
            0 <= j < a.len() && (#[trigger] a[j] matches SpecifierModel::Named { local, .. } && local
                == s);
        if j < i {
            assert(b[j] == a[j]);
        }
    }
    assert forall|s: Seq<char>| rhs.contains(s) implies named_locals(a).contains(s) by {
        if named_locals(b).contains(s) {
            let j = choose|j: int|
                0 <= j < b.len() && (#[trigger] b[j] matches SpecifierModel::Named { local, .. }
                    && local == s);
            assert(a[j] == b[j]);
        } else {
            assert(a[i] == specs[i]);
        }
    }
    assert(named_locals(a) =~= rhs);
}

impl TransformVisitor {
    /// A visitor with an empty name set.
    pub fn new() -> (r: TransformVisitor)
        ensures
            r@ == Set::<Seq<char>>::empty(),
    {
        TransformVisitor { local_idents: NameSet::new() }
    }

    /// Whether `name` is one of the names collected so far.
    pub fn is_effect_name(&self, name: &String) -> (r: bool)
        ensures
            r == self@.contains(name@),
    {
        self.local_idents.contains(name)
    }

    /// Records the names bound by `import_decl` when it imports the façade, and leaves
    /// the declaration as it is.
    pub fn collect_import_names(&mut self, import_decl: &ImportDecl)
        ensures
            final(self)@ == old(self)@.union(import_names(import_decl@)),
    {
        let facade = String::from_str(FACADE_MODULE);
        proof {
            reveal_strlit("typed-redux-saga/macro");
        }
        if !(import_decl.src.value == facade) {
            assert(self@.union(import_names(import_decl@)) =~= self@);
            return;
        }
        let ghost specs = import_decl@.specifiers;
        let mut i: usize = 0;
        while i < import_decl.specifiers.len()
            invariant
                i <= import_decl.specifiers@.len(),
                specs == import_decl@.specifiers,
                specs.len() == import_decl.specifiers@.len(),
                self@ == old(self)@.union(named_locals(specs.take(i as int))),
            decreases import_decl.specifiers@.len() - i,
        {
            proof {
                lemma_named_locals_step(specs, i as int);
                assert(specs[i as int] == import_decl.specifiers@[i as int]@);
            }
            match &import_decl.specifiers[i] {
                ImportSpecifier::Named { local, .. } => {
                    self.local_idents.insert(local.clone());
                },
                _ => {},
            }
            assert(self@ =~= old(self)@.union(named_locals(specs.take(i + 1))));
            i = i + 1;
        }
        assert(specs.take(i as int) =~= specs);
    }

    /// Visits an import declaration: when it imports the façade, its named clauses'
    /// local names join the name set and its specifier is retargeted to the runtime
    /// module, with the cached source text dropped. Any other declaration is left as it is.
    pub fn visit_mut_import_decl(&mut self, import_decl: &mut ImportDecl)
        ensures
            final(self)@ == old(self)@.union(import_names(old(import_decl)@)),
            final(import_decl)@ == rewrite_import(old(import_decl)@),
    {
        self.collect_import_names(import_decl);
        retarget_import(import_decl);
    }

    /// Whether `yield_expr` delegates to a call of a collected name.
    pub fn is_demotable(&self, yield_expr: &YieldExpr) -> (r: bool)
        ensures
            r == demotable(yield_expr@, self@),
    {
        if !yield_expr.delegate {
            return false;
        }
        match &yield_expr.arg {
            Some(a) => match callee_ident(a) {
                Some(f) => self.is_effect_name(&f),
                None => false,
            },
            None => false,
        }
    }

    /// Turns `yield_expr` into a plain yield when it delegates to a call of a collected
    /// name; its argument is left as it is.
    pub fn demote_yield(&self, yield_expr: &mut YieldExpr)
        ensures
            final(yield_expr)@ == (YieldModel {
                arg: old(yield_expr)@.arg,
                delegate: old(yield_expr)@.delegate && !demotable(old(yield_expr)@, self@),
            }),
    {
        if self.is_demotable(yield_expr) {
            yield_expr.delegate = false;
        }
    }

    /// Visits a yield expression: demotes it as `demote_yield` does, then does the same
    /// to every yield nested in its argument.
    pub fn visit_mut_yield_expr(&self, yield_expr: &mut YieldExpr)
        ensures
            final(yield_expr)@ == demote_yield(old(yield_expr)@, self@),
    {
        let r = self.demoted_yield(yield_expr);
        *yield_expr = r;
    }

    /// `y` with every demotable yield in it demoted, itself included.
    pub fn demoted_yield(&self, y: &YieldExpr) -> (r: YieldExpr)
        ensures
            r@ == demote_yield(y@, self@),
        decreases y,
    {
        let delegate = y.delegate && !self.is_demotable(y);
        let arg = match &y.arg {
            Some(a) => Some(Box::new(self.demoted_expr(a))),
            None => None,
        };
        YieldExpr { arg, delegate }
    }

    /// `e` with every demotable yield in it demoted.
    pub fn demoted_expr(&self, e: &Expr) -> (r: Expr)
        ensures
            r@ == demote(e@, self@),
        decreases e,
    {
        match e {
            Expr::Ident(s) => Expr::Ident(s.clone()),
            Expr::Call { callee, args } => {
                let c = self.demoted_expr(callee);
                let a = self.demoted_exprs(args);
                Expr::Call { callee: Box::new(c), args: a }
            },
            Expr::Member { obj, prop } => {
                let o = self.demoted_expr(obj);
                Expr::Member { obj: Box::new(o), prop: prop.clone() }
            },
            Expr::Paren(inner) => {
                let i = self.demoted_expr(inner);
                Expr::Paren(Box::new(i))
            },
            Expr::Yield(y) => Expr::Yield(self.demoted_yield(y)),
            Expr::Func { name, body } => {
                let b = self.demoted_exprs(body);
                let n = match name {
                    Some(n) => Some(n.clone()),
                    None => None,
                };
                Expr::Func { name: n, body: b }
            },
            Expr::Other(s) => Expr::Other(s.clone()),
        }
    }

    /// Each of `v`, in order, with every demotable yield in it demoted.
    pub fn demoted_exprs(&self, v: &Vec<Expr>) -> (r: Vec<Expr>)
        ensures
            exprs_view(r@) == demote_all(exprs_view(v@), self@),
        decreases v,
    {
        let mut out: Vec<Expr> = Vec::new();
        let mut i: usize = 0;
        while i < v.len()
            invariant
                i <= v@.len(),
                exprs_view(out@) == demote_all(exprs_view(v@.subrange(0, i as int)), self@),
            decreases v@.len() - i,
        {
            let d = self.demoted_expr(&v[i]);
            proof {
                lemma_exprs_view_push(out@, d);
                lemma_exprs_view_prefix(v@, i as int);
                lemma_demote_all_push(exprs_view(v@.subrange(0, i as int)), expr_view(v@[i as int]), self@);
            }
            out.push(d);
            i = i + 1;
        }
        assert(v@.subrange(0, v@.len() as int) =~= v@);
        out
    }
}

proof fn lemma_exprs_view_push(s: Seq<Expr>, x: Expr)
    ensures
        exprs_view(s.push(x)) == exprs_view(s).push(expr_view(x)),
{
    assert(s.push(x).subrange(0, s.len() as int) =~= s);
}

proof fn lemma_exprs_view_prefix(s: Seq<Expr>, i: int)
    requires
        0 <= i < s.len(),
    ensures
        exprs_view(s.subrange(0, i + 1)) == exprs_view(s.subrange(0, i)).push(expr_view(s[i])),
{
    assert(s.subrange(0, i + 1).subrange(0, i) =~= s.subrange(0, i));
}

/// Demoting a sequence with one more element appends that element, demoted.
pub proof fn lemma_demote_all_push(t: Seq<ExprModel>, y: ExprModel, names: Set<Seq<char>>)
    ensures
        demote_all(t.push(y), names) == demote_all(t, names).push(demote(y, names)),
{
    assert(t.push(y).subrange(0, t.len() as int) =~= t);
}

/// Retargets a façade import to the runtime module and drops its cached source text;
/// any other declaration is left as it is.
pub fn retarget_import(import_decl: &mut ImportDecl)
    ensures
        final(import_decl)@ == rewrite_import(old(import_decl)@),
{
    let facade = String::from_str(FACADE_MODULE);
    proof {
        reveal_strlit("typed-redux-saga/macro");
        reveal_strlit("redux-saga/effects");
    }
    if import_decl.src.value == facade {
        import_decl.src.raw = None;
        import_decl.src.value = String::from_str(RUNTIME_MODULE);
    }
}

/// The bare identifier that `e` calls, once parentheses around it are stripped.
pub fn callee_ident(e: &Expr) -> (r: Option<String>)
    ensures
        r is None <==> called_name(e@) is None,
        r is Some ==> called_name(e@) == Some(r->0@),
    decreases e,
{
    match e {
        Expr::Paren(inner) => {
            assert(strip_parens(e@) == strip_parens((**inner)@));
            callee_ident(&**inner)
        },
        Expr::Call { callee, .. } => {
            assert(strip_parens(e@) == e@);
            match &**callee {
                Expr::Ident(f) => {
                    assert((**callee)@ == ExprModel::Ident(f@));
                    Some(f.clone())
                },
                _ => {
                    assert(!((**callee)@ is Ident));
                    None
                },
            }
        },
        _ => {
            assert(strip_parens(e@) == e@);
            None
        },
    }
}

/// The items of `p` before index `i`, as a module of their own.
pub open spec fn prefix(p: ProgramModel, i: int) -> ProgramModel {
    ProgramModel { body: p.body.take(i) }
}

proof fn lemma_program_names_step(p: ProgramModel, i: int)
    requires
        0 <= i < p.body.len(),
    ensures
        program_names(prefix(p, i + 1)) == program_names(prefix(p, i)).union(
            match p.body[i] {
                ItemModel::Import(d) => import_names(d),
                _ => Set::empty(),
            },
        ),
{
    let a = prefix(p, i + 1);
    let b = prefix(p, i);
    let extra = match p.body[i] {
        ItemModel::Import(d) => import_names(d),
        _ => Set::empty(),
    };
    assert(a.body[i] == p.body[i]);
    assert forall|s: Seq<char>| program_names(a).contains(s) implies program_names(b).union(
        extra,
    ).contains(s) by {
        let j = choose|j: int|
            0 <= j < a.body.len() && (#[trigger] a.body[j] matches ItemModel::Import(d)
                && import_names(d).contains(s));
        if j < i {
            assert(b.body[j] == a.body[j]);
        }
    }
    assert forall|s: Seq<char>| program_names(b).union(extra).contains(s) implies program_names(
        a,
    ).contains(s) by {
        if program_names(b).contains(s) {
            let j = choose|j: int|
                0 <= j < b.body.len() && (#[trigger] b.body[j] matches ItemModel::Import(d)
                    && import_names(d).contains(s));
            assert(a.body[j] == b.body[j]);
        }
    }
    assert(program_names(a) =~= program_names(b).union(extra));
}

/// Collects the name set of a whole module: the local names of the named clauses of
/// all its façade imports.
pub fn collect_program_names(program: &Program) -> (r: TransformVisitor)
    ensures
        r@ == program_names(program@),
{
    let mut visitor = TransformVisitor::new();
    let ghost p = program@;
    let mut i: usize = 0;
    assert(program_names(prefix(p, 0)) =~= Set::<Seq<char>>::empty());
    while i < program.body.len()
        invariant
            p == program@,
            i <= program.body@.len(),
            visitor@ == program_names(prefix(p, i as int)),
        decreases program.body@.len() - i,
    {
        proof {
            lemma_program_names_step(p, i as int);
            assert(p.body[i as int] == program.body@[i as int]@);
        }
        match &program.body[i] {
            ModuleItem::Import(d) => visitor.collect_import_names(d),
            ModuleItem::Stmt(_) => {
                assert(visitor@.union(Set::empty()) =~= visitor@);
            },
        }
        i = i + 1;
    }
    assert(prefix(p, i as int).body =~= p.body);
    visitor
}

/// Transforms a module: every façade import is retargeted to the runtime module, and
/// every delegating yield of a call to a name those imports bind becomes a plain yield.
/// The name set is gathered from all imports first, so the result does not depend on
/// where in the module the imports stand.
pub fn process_transform(program: Program) -> (r: Program)
    ensures
        r@ == transform(program@),
{
    let visitor = collect_program_names(&program);
    let ghost p = program@;
    let ghost names = program_names(p);
    let Program { body } = program;
    let mut rest = body;
    let mut out: Vec<ModuleItem> = Vec::new();
    while rest.len() > 0
        invariant
            visitor@ == names,
            out@.len() + rest@.len() == p.body.len(),
            forall|j: int| 0 <= j < rest@.len() ==> #[trigger] rest@[j]@ == p.body[out@.len() + j],
            forall|j: int|
                0 <= j < out@.len() ==> #[trigger] out@[j]@ == transform_item(p.body[j], names),
        decreases rest@.len(),
    {
        let ghost k = out@.len() as int;
        let ghost before = rest@;
        let item = rest.remove(0);
        assert(item@ == p.body[k]);
        assert forall|j: int| 0 <= j < rest@.len() implies #[trigger] rest@[j]@ == p.body[k + 1 + j] by {
            assert(rest@[j] == before[j + 1]);
        }
        match item {
            ModuleItem::Import(mut d) => {
                retarget_import(&mut d);
                out.push(ModuleItem::Import(d));
            },
            ModuleItem::Stmt(e) => {
                let e2 = visitor.demoted_expr(&e);
                out.push(ModuleItem::Stmt(e2));
            },
        }
    }
    let r = Program { body: out };
    assert(r@.body =~= transform(p).body);
    r
}

} // verus!
