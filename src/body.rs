//! Operation bodies: finding where they build the tracked type, and adding the
//! hidden state field there.
use vstd::prelude::*;

use crate::text::{join, join_strings, same_text, spelled};

verus! {

/// One `field: value` of a struct expression; the value as text.
#[derive(Debug)]
pub struct FieldInit {
    pub name: String,
    pub value: String,
}

/// An expression of an operation body: a struct expression, a call (such as
/// `Some(..)` or `Ok(..)`) whose arguments are expressions again, or any other
/// expression as text.
#[derive(Debug)]
pub enum Expr {
    Struct { path: String, fields: Vec<FieldInit> },
    Call { func: String, args: Vec<Expr> },
    Verbatim(String),
}

pub enum ExprView {
    Struct(Seq<char>, Seq<(Seq<char>, Seq<char>)>),
    Call(Seq<char>, Seq<ExprView>),
    Verbatim(Seq<char>),
}

impl View for Expr {
    type V = ExprView;

    open spec fn view(&self) -> ExprView
        decreases self,
    {
        match self {
            Expr::Struct { path, fields } => ExprView::Struct(
                path@,
                fields@.map_values(|f: FieldInit| (f.name@, f.value@)),
            ),
            Expr::Call { func, args } => ExprView::Call(
                func@,
                Seq::new(
                    args.len() as nat,
                    |i: int|
                        if 0 <= i < args.len() {
                            args[i].view()
                        } else {
                            ExprView::Verbatim(Seq::empty())
                        },
                ),
            ),
            Expr::Verbatim(s) => ExprView::Verbatim(s@),
        }
    }
}

/// One statement of a body: an expression, with or without its semicolon, or
/// any other statement as text.
#[derive(Debug)]
pub enum Stmt {
    Expr { expr: Expr, semi: bool },
    Verbatim(String),
}

pub enum StmtView {
    Expr(ExprView, bool),
    Verbatim(Seq<char>),
}

impl View for Stmt {
    type V = StmtView;

    open spec fn view(&self) -> StmtView {
        match self {
            Stmt::Expr { expr, semi } => StmtView::Expr(expr@, *semi),
            Stmt::Verbatim(s) => StmtView::Verbatim(s@),
        }
    }
}

pub open spec fn stmt_views(v: Seq<Stmt>) -> Seq<StmtView> {
    v.map_values(|s: Stmt| s@)
}

/// The name of the hidden field that carries the state slots.
pub open spec fn state_field() -> Seq<char> {
    "_state"@
}

/// The expression with the hidden field, holding `value`, added to every
/// struct expression that builds the type called `name`, directly or inside the
/// arguments of calls.
pub open spec fn patched(e: ExprView, name: Seq<char>, value: Seq<char>) -> ExprView
    decreases e,
{
    match e {
        ExprView::Struct(p, fs) => if p == name {
            ExprView::Struct(p, fs.push((state_field(), value)))
        } else {
            e
        },
        ExprView::Call(f, args) => ExprView::Call(
            f,
            Seq::new(
                args.len(),
                |i: int|
                    if 0 <= i < args.len() {
                        patched(args[i], name, value)
                    } else {
                        ExprView::Verbatim(Seq::empty())
                    },
            ),
        ),
        ExprView::Verbatim(_) => e,
    }
}

pub open spec fn patched_stmt(s: StmtView, name: Seq<char>, value: Seq<char>) -> StmtView {
    match s {
        StmtView::Expr(e, semi) => StmtView::Expr(patched(e, name, value), semi),
        StmtView::Verbatim(_) => s,
    }
}

pub open spec fn patched_body(b: Seq<StmtView>, name: Seq<char>, value: Seq<char>) -> Seq<StmtView> {
    b.map_values(|s: StmtView| patched_stmt(s, name, value))
}

/// The value of the hidden field for `k` slots: one phantom value, or a
/// tuple of `k` of them.
pub open spec fn state_value(k: nat) -> Seq<char> {
    if k == 1 {
        phantom()
    } else {
        "("@ + join(Seq::new(k, |i: int| phantom()), ", "@) + ")"@
    }
}

pub open spec fn phantom() -> Seq<char> {
    "::core::marker::PhantomData"@
}

pub fn state_value_text(k: usize) -> (r: String)
    ensures
        r@ == state_value(k as nat),
{
    if k == 1 {
        return "::core::marker::PhantomData".to_owned();
    }
    let ghost parts = Seq::new(k as nat, |i: int| phantom());
    let mut acc = String::new();
    let mut i: usize = 0;
    while i < k
        invariant
            parts == Seq::new(k as nat, |i: int| phantom()),
            i <= k,
            acc@ == join(parts.take(i as int), ", "@),
        decreases k - i,
    {
        assert(parts.take(i + 1).drop_last() =~= parts.take(i as int));
        if i > 0 {
            acc.append(", ");
        }
        acc.append("::core::marker::PhantomData");
        i = i + 1;
    }
    assert(parts.take(i as int) =~= parts);
    let mut r = "(".to_owned();
    r.append(acc.as_str());
    r.append(")");
    r
}

fn copy_fields(fs: &Vec<FieldInit>) -> (r: Vec<FieldInit>)
    ensures
        r@.map_values(|f: FieldInit| (f.name@, f.value@)) == fs@.map_values(
            |f: FieldInit| (f.name@, f.value@),
        ),
{
    let mut r: Vec<FieldInit> = Vec::new();
    let mut i: usize = 0;
    while i < fs.len()
        invariant
            i <= fs.len(),
            r@.len() == i,
            forall|j: int|
                0 <= j < i ==> r@[j].name@ == fs@[j].name@ && r@[j].value@ == fs@[j].value@,
        decreases fs.len() - i,
    {
        r.push(FieldInit { name: fs[i].name.clone(), value: fs[i].value.clone() });
        i = i + 1;
    }
    assert(r@.map_values(|f: FieldInit| (f.name@, f.value@)) =~= fs@.map_values(
        |f: FieldInit| (f.name@, f.value@),
    ));
    r
}

/// Adds the hidden field, holding `value`, to every struct expression of `e`
/// that builds the type called `name`, directly or nested in call arguments.
pub fn modify_struct_in_expr(e: &Expr, name: &str, value: &str) -> (r: Expr)
    ensures
        r@ == patched(e@, name@, value@),
    decreases e@,
{
    match e {
        Expr::Struct { path, fields } => {
            let mut fs = copy_fields(fields);
            if same_text(path.as_str(), name) {
                fs.push(FieldInit { name: "_state".to_owned(), value: value.to_owned() });
                let r = Expr::Struct { path: path.clone(), fields: fs };
                proof {
                    assert(r@->Struct_1 =~= e@->Struct_1.push((state_field(), value@)));
                }
                r
            } else {
                Expr::Struct { path: path.clone(), fields: fs }
            }
        },
        Expr::Call { func, args } => {
            let ghost av = e@->Call_1;
            let mut out: Vec<Expr> = Vec::new();
            let mut i: usize = 0;
            while i < args.len()
                invariant
                    av == e@->Call_1,
                    e@ == ExprView::Call(func@, av),
                    av.len() == args.len(),
                    forall|j: int| 0 <= j < args.len() ==> av[j] == args@[j]@,
                    i <= args.len(),
                    out@.len() == i,
                    forall|j: int| 0 <= j < i ==> out@[j]@ == patched(av[j], name@, value@),
                decreases args.len() - i,
            {
                proof {
                    assert(av[i as int] == args[i as int]@);
                    assert(decreases_to!(av => av[i as int]));
                    assert(decreases_to!(e@ => av));
                }
                let a = modify_struct_in_expr(&args[i], name, value);
                out.push(a);
                i = i + 1;
            }
            let r = Expr::Call { func: func.clone(), args: out };
            proof {
                let p = patched(e@, name@, value@);
                assert forall|k: int| 0 <= k < av.len() implies r@->Call_1[k] == p->Call_1[k] by {
                    assert(r@->Call_1[k] == out@[k]@);
                }
                assert(r@->Call_1 =~= p->Call_1);
            }
            r
        },
        Expr::Verbatim(s) => Expr::Verbatim(s.clone()),
    }
}

/// Adds the hidden field to every construction of the type called `name` in
/// the statements of a body; other statements stay as they are.
pub fn patch_body(body: &Vec<Stmt>, name: &str, value: &str) -> (r: Vec<Stmt>)
    ensures
        stmt_views(r@) == patched_body(stmt_views(body@), name@, value@),
{
    let mut out: Vec<Stmt> = Vec::new();
    let mut i: usize = 0;
    while i < body.len()
        invariant
            i <= body.len(),
            out@.len() == i,
            forall|j: int| 0 <= j < i ==> out@[j]@ == patched_stmt(body@[j]@, name@, value@),
        decreases body.len() - i,
    {
        let s = match &body[i] {
            Stmt::Expr { expr, semi } => Stmt::Expr {
                expr: modify_struct_in_expr(expr, name, value),
                semi: *semi,
            },
            Stmt::Verbatim(t) => Stmt::Verbatim(t.clone()),
        };
        out.push(s);
        i = i + 1;
    }
    assert(stmt_views(out@) =~= patched_body(stmt_views(body@), name@, value@));
    out
}

pub open spec fn field_texts(fs: Seq<(Seq<char>, Seq<char>)>) -> Seq<Seq<char>> {
    fs.map_values(|f: (Seq<char>, Seq<char>)| f.0 + ": "@ + f.1)
}

/// The source text of an expression.
pub open spec fn expr_text(e: ExprView) -> Seq<char>
    decreases e,
{
    match e {
        ExprView::Struct(p, fs) => p + " { "@ + join(field_texts(fs), ", "@) + " }"@,
        ExprView::Call(f, args) => f + "("@ + exprs_text(args) + ")"@,
        ExprView::Verbatim(s) => s,
    }
}

/// The text of a list of expressions, separated by `, `.
pub open spec fn exprs_text(s: Seq<ExprView>) -> Seq<char>
    decreases s,
{
    if s.len() == 0 {
        Seq::empty()
    } else if s.len() == 1 {
        expr_text(s[0])
    } else {
        exprs_text(s.drop_last()) + ", "@ + expr_text(s.last())
    }
}

pub open spec fn stmt_text(s: StmtView) -> Seq<char> {
    match s {
        StmtView::Expr(e, semi) => expr_text(e) + if semi {
            ";"@
        } else {
            Seq::empty()
        },
        StmtView::Verbatim(t) => t,
    }
}

/// The source text of a body's statements, separated by spaces.
pub open spec fn body_text(b: Seq<StmtView>) -> Seq<char> {
    join(b.map_values(|s: StmtView| stmt_text(s)), " "@)
}

/// The source text of an expression.
pub fn render_expr(e: &Expr) -> (r: String)
    ensures
        r@ == expr_text(e@),
    decreases e@,
{
    match e {
        Expr::Struct { path, fields } => {
            let mut parts: Vec<String> = Vec::new();
            let mut i: usize = 0;
            while i < fields.len()
                invariant
                    i <= fields.len(),
                    parts@.len() == i,
                    forall|j: int|
                        0 <= j < i ==> parts@[j]@ == fields@[j].name@ + ": "@ + fields@[j].value@,
                decreases fields.len() - i,
            {
                let mut f = fields[i].name.clone();
                f.append(": ");
                f.append(fields[i].value.as_str());
                parts.push(f);
                i = i + 1;
            }
            assert(spelled(parts@) =~= field_texts(e@->Struct_1));
            let inner = join_strings(&parts, ", ");
            let mut r = path.clone();
            r.append(" { ");
            r.append(inner.as_str());
            r.append(" }");
            r
        },
        Expr::Call { func, args } => {
            let ghost av = e@->Call_1;
            let mut acc = String::new();
            let mut i: usize = 0;
            while i < args.len()
                invariant
                    av == e@->Call_1,
                    e@ == ExprView::Call(func@, av),
                    av.len() == args.len(),
                    forall|j: int| 0 <= j < args.len() ==> av[j] == args@[j]@,
                    i <= args.len(),
                    acc@ == exprs_text(av.take(i as int)),
                decreases args.len() - i,
            {
                proof {
                    assert(av[i as int] == args[i as int]@);
                    assert(decreases_to!(av => av[i as int]));
                    assert(decreases_to!(e@ => av));
                    assert(av.take(i + 1).drop_last() =~= av.take(i as int));
                }
                let a = render_expr(&args[i]);
                if i > 0 {
                    acc.append(", ");
                }
                acc.append(a.as_str());
                i = i + 1;
            }
            proof {
                assert(av.take(i as int) =~= av);
            }
            let mut r = func.clone();
            r.append("(");
            r.append(acc.as_str());
            r.append(")");
            r
        },
        Expr::Verbatim(s) => s.clone(),
    }
}

/// The source text of a body's statements, separated by spaces.
pub fn render_body(body: &Vec<Stmt>) -> (r: String)
    ensures
        r@ == body_text(stmt_views(body@)),
{
    let mut parts: Vec<String> = Vec::new();
    let mut i: usize = 0;
    while i < body.len()
        invariant
            i <= body.len(),
            parts@.len() == i,
            forall|j: int| 0 <= j < i ==> parts@[j]@ == stmt_text(body@[j]@),
        decreases body.len() - i,
    {
        let t = match &body[i] {
            Stmt::Expr { expr, semi } => {
                let mut t = render_expr(expr);
                if *semi {
                    t.append(";");
                } else {
                    proof {
                        assert(t@ =~= t@ + Seq::<char>::empty());
                    }
                }
                t
            },
            Stmt::Verbatim(v) => v.clone(),
        };
        parts.push(t);
        i = i + 1;
    }
    assert(spelled(parts@) =~= stmt_views(body@).map_values(|s: StmtView| stmt_text(s)));
    join_strings(&parts, " ")
}

} // verus!
