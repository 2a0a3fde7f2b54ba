//! Type expressions of declarations: their text, and the rewriting that gives
//! each occurrence of the tracked type its state arguments.
use vstd::prelude::*;

use crate::text::{concat, same_text, spelled};

verus! {

/// A type as the host parser hands it over: a named type (the last segment of
/// its path, with the segments before it as text) with its generic
/// arguments, a tuple, a reference (its `&`, lifetime and `mut` as text), an
/// array or slice (its length as text, empty for a slice), or any other type
/// (a lifetime argument, a function pointer, ...) as text.
#[derive(Debug)]
pub enum TypeExpr {
    Named { name: String, args: Vec<TypeExpr>, path: String },
    Tuple(Vec<TypeExpr>),
    Ref { prefix: String, inner: Box<TypeExpr> },
    Array { elem: Box<TypeExpr>, len: String },
    Verbatim(String),
}

pub enum TypeView {
    Named(Seq<char>, Seq<TypeView>, Seq<char>),
    Tuple(Seq<TypeView>),
    Ref(Seq<char>, Box<TypeView>),
    Array(Box<TypeView>, Seq<char>),
    Verbatim(Seq<char>),
}

impl View for TypeExpr {
    type V = TypeView;

    open spec fn view(&self) -> TypeView
        decreases self,
    {
        match self {
            TypeExpr::Named { name, args, path } => TypeView::Named(
                name@,
                Seq::new(
                    args.len() as nat,
                    |i: int|
                        if 0 <= i < args.len() {
                            args[i].view()
                        } else {
                            TypeView::Verbatim(Seq::empty())
                        },
                ),
                path@,
            ),
            TypeExpr::Tuple(elems) => TypeView::Tuple(
                Seq::new(
                    elems.len() as nat,
                    |i: int|
                        if 0 <= i < elems.len() {
                            elems[i].view()
                        } else {
                            TypeView::Verbatim(Seq::empty())
                        },
                ),
            ),
            TypeExpr::Ref { prefix, inner } => TypeView::Ref(prefix@, Box::new((**inner).view())),
            TypeExpr::Array { elem, len } => TypeView::Array(Box::new((**elem).view()), len@),
            TypeExpr::Verbatim(s) => TypeView::Verbatim(s@),
        }
    }
}

/// The types of `args`, each rewritten by `with_state_args`.
pub open spec fn rewritten(args: Seq<TypeView>, name: Seq<char>, extra: Seq<Seq<char>>) -> Seq<TypeView>
    decreases args,
{
    Seq::new(
        args.len(),
        |i: int|
            if 0 <= i < args.len() {
                with_state_args(args[i], name, extra)
            } else {
                TypeView::Verbatim(Seq::empty())
            },
    )
}

/// The type with the text `extra` appended, as further generic arguments, to
/// every occurrence of the type called `name` (by the last segment of its
/// path), at any depth: inside generic
/// arguments, tuples, references and arrays.
pub open spec fn with_state_args(t: TypeView, name: Seq<char>, extra: Seq<Seq<char>>) -> TypeView
    decreases t,
{
    match t {
        TypeView::Named(n, args, p) => TypeView::Named(
            n,
            if n == name {
                rewritten(args, name, extra) + extra.map_values(|s: Seq<char>| TypeView::Verbatim(s))
            } else {
                rewritten(args, name, extra)
            },
            p,
        ),
        TypeView::Tuple(elems) => TypeView::Tuple(rewritten(elems, name, extra)),
        TypeView::Ref(p, inner) => TypeView::Ref(p, Box::new(with_state_args(*inner, name, extra))),
        TypeView::Array(elem, l) => TypeView::Array(Box::new(with_state_args(*elem, name, extra)), l),
        TypeView::Verbatim(s) => TypeView::Verbatim(s),
    }
}

/// Whether the type called `name` occurs in `t`.
pub open spec fn mentions(t: TypeView, name: Seq<char>) -> bool
    decreases t,
{
    match t {
        TypeView::Named(n, args, _) => n == name || exists|i: int|
            0 <= i < args.len() && mentions(#[trigger] args[i], name),
        TypeView::Tuple(elems) => exists|i: int|
            0 <= i < elems.len() && mentions(#[trigger] elems[i], name),
        TypeView::Ref(_, inner) => mentions(*inner, name),
        TypeView::Array(elem, _) => mentions(*elem, name),
        TypeView::Verbatim(_) => false,
    }
}

/// The source text of a type.
pub open spec fn type_text(t: TypeView) -> Seq<char>
    decreases t,
{
    match t {
        TypeView::Named(n, args, p) => if args.len() == 0 {
            p + n
        } else {
            p + n + "<"@ + args_text(args) + ">"@
        },
        TypeView::Tuple(elems) => "("@ + args_text(elems) + if elems.len() == 1 {
            ",)"@
        } else {
            ")"@
        },
        TypeView::Ref(p, inner) => p + type_text(*inner),
        TypeView::Array(elem, l) => "["@ + type_text(*elem) + if l.len() == 0 {
            "]"@
        } else {
            "; "@ + l + "]"@
        },
        TypeView::Verbatim(s) => s,
    }
}

/// The text of a list of types, separated by `, `.
pub open spec fn args_text(s: Seq<TypeView>) -> Seq<char>
    decreases s,
{
    if s.len() == 0 {
        Seq::empty()
    } else if s.len() == 1 {
        type_text(s[0])
    } else {
        args_text(s.drop_last()) + ", "@ + type_text(s.last())
    }
}

proof fn lemma_unmentioned_list(args: Seq<TypeView>, name: Seq<char>, extra: Seq<Seq<char>>)
    requires
        forall|i: int| 0 <= i < args.len() ==> !mentions(#[trigger] args[i], name),
    ensures
        rewritten(args, name, extra) == args,
    decreases args,
{
    assert forall|i: int| 0 <= i < args.len() implies with_state_args(args[i], name, extra) == args[i] by {
        lemma_unmentioned_unchanged(args[i], name, extra);
    }
    assert(rewritten(args, name, extra) =~= args);
}

/// A type that does not mention the tracked type is left as it is: this is
/// how an operation that ends the tracked value's life keeps its result type.
pub proof fn lemma_unmentioned_unchanged(t: TypeView, name: Seq<char>, extra: Seq<Seq<char>>)
    requires
        !mentions(t, name),
    ensures
        with_state_args(t, name, extra) == t,
    decreases t,
{
    match t {
        TypeView::Named(n, args, _) => {
            lemma_unmentioned_list(args, name, extra);
        },
        TypeView::Tuple(elems) => {
            lemma_unmentioned_list(elems, name, extra);
        },
        TypeView::Ref(p, inner) => {
            lemma_unmentioned_unchanged(*inner, name, extra);
        },
        TypeView::Array(elem, l) => {
            lemma_unmentioned_unchanged(*elem, name, extra);
        },
        TypeView::Verbatim(_) => {},
    }
}

fn rewrite_list(args: &Vec<TypeExpr>, av: Ghost<Seq<TypeView>>, name: &str, extra: &Vec<String>) -> (r: Vec<TypeExpr>)
    requires
        av@.len() == args@.len(),
        forall|j: int| 0 <= j < args@.len() ==> av@[j] == args@[j]@,
    ensures
        r@.len() == args@.len(),
        forall|j: int| 0 <= j < args@.len() ==> r@[j]@ == rewritten(av@, name@, spelled(extra@))[j],
    decreases av@,
{
    let mut out: Vec<TypeExpr> = Vec::new();
    let mut i: usize = 0;
    while i < args.len()
        invariant
            av@.len() == args@.len(),
            forall|j: int| 0 <= j < args@.len() ==> av@[j] == args@[j]@,
            i <= args.len(),
            out@.len() == i,
            forall|j: int| 0 <= j < i ==> out@[j]@ == rewritten(av@, name@, spelled(extra@))[j],
        decreases args.len() - i,
    {
        proof {
            assert(av@[i as int] == args[i as int]@);
            assert(decreases_to!(av@ => av@[i as int]));
        }
        let a = rewrite_type(&args[i], name, extra);
        out.push(a);
        i = i + 1;
    }
    out
}

/// Rewrites a type: each occurrence of the type called `name`, however deeply
/// it is nested in generic arguments, tuples, references and arrays, gets the
/// texts of `extra` as further generic arguments.
pub fn rewrite_type(t: &TypeExpr, name: &str, extra: &Vec<String>) -> (r: TypeExpr)
    ensures
        r@ == with_state_args(t@, name@, spelled(extra@)),
    decreases t@,
{
    let ghost ex = spelled(extra@);
    match t {
        TypeExpr::Named { name: n, args, path } => {
            let ghost av = t@->Named_1;
            assert(t@ == TypeView::Named(n@, av, path@));
            assert(decreases_to!(t@ => av));
            let mut out = rewrite_list(args, Ghost(av), name, extra);
            let ghost inner = rewritten(av, name@, ex);
            let matched = same_text(n.as_str(), name);
            if matched {
                let mut j: usize = 0;
                while j < extra.len()
                    invariant
                        inner == rewritten(av, name@, ex),
                        ex == spelled(extra@),
                        av.len() == args.len(),
                        j <= extra.len(),
                        out@.len() == args.len() + j,
                        forall|k: int| 0 <= k < args.len() ==> out@[k]@ == inner[k],
                        forall|k: int|
                            0 <= k < j ==> out@[args.len() + k]@ == TypeView::Verbatim(extra@[k]@),
                    decreases extra.len() - j,
                {
                    out.push(TypeExpr::Verbatim(extra[j].clone()));
                    j = j + 1;
                }
            }
            let r = TypeExpr::Named { name: n.clone(), args: out, path: path.clone() };
            proof {
                let rv = r@->Named_1;
                let e = with_state_args(t@, name@, ex);
                assert(rv.len() == e->Named_1.len());
                assert forall|k: int| 0 <= k < rv.len() implies rv[k] == e->Named_1[k] by {
                    assert(rv[k] == out@[k]@);
                }
                assert(rv =~= e->Named_1);
            }
            r
        },
        TypeExpr::Tuple(elems) => {
            let ghost av = t@->Tuple_0;
            proof {
                reveal_with_fuel(<TypeExpr as View>::view, 2);
            }
            assert(t@ == TypeView::Tuple(av));
            assert(decreases_to!(t@ => av));
            let out = rewrite_list(elems, Ghost(av), name, extra);
            let r = TypeExpr::Tuple(out);
            proof {
                reveal_with_fuel(<TypeExpr as View>::view, 2);
                assert(r@ is Tuple);
                assert(r@->Tuple_0.len() == out.len());
                let rv = r@->Tuple_0;
                let e = with_state_args(t@, name@, ex);
                assert(e == TypeView::Tuple(rewritten(av, name@, ex)));
                assert(rv.len() == av.len());
                assert forall|k: int| 0 <= k < rv.len() implies rv[k] == e->Tuple_0[k] by {
                    assert(rv[k] == out@[k]@);
                }
                assert(rv =~= e->Tuple_0);
            }
            r
        },
        TypeExpr::Ref { prefix, inner } => {
            assert(t@ == TypeView::Ref(prefix@, Box::new((**inner)@)));
            assert(decreases_to!(t@ => t@->Ref_1));
            let i = rewrite_type(&**inner, name, extra);
            TypeExpr::Ref { prefix: prefix.clone(), inner: Box::new(i) }
        },
        TypeExpr::Array { elem, len } => {
            assert(t@ == TypeView::Array(Box::new((**elem)@), len@));
            assert(decreases_to!(t@ => t@->Array_0));
            let e = rewrite_type(&**elem, name, extra);
            TypeExpr::Array { elem: Box::new(e), len: len.clone() }
        },
        TypeExpr::Verbatim(s) => TypeExpr::Verbatim(s.clone()),
    }
}

fn render_list(args: &Vec<TypeExpr>, av: Ghost<Seq<TypeView>>) -> (r: String)
    requires
        av@.len() == args@.len(),
        forall|j: int| 0 <= j < args@.len() ==> av@[j] == args@[j]@,
    ensures
        r@ == args_text(av@),
    decreases av@,
{
    let mut acc = String::new();
    let mut i: usize = 0;
    while i < args.len()
        invariant
            av@.len() == args@.len(),
            forall|j: int| 0 <= j < args@.len() ==> av@[j] == args@[j]@,
            i <= args.len(),
            acc@ == args_text(av@.take(i as int)),
        decreases args.len() - i,
    {
        proof {
            assert(av@[i as int] == args[i as int]@);
            assert(decreases_to!(av@ => av@[i as int]));
            assert(av@.take(i + 1).drop_last() =~= av@.take(i as int));
        }
        let a = render_type(&args[i]);
        if i > 0 {
            acc.append(", ");
        }
        acc.append(a.as_str());
        i = i + 1;
    }
    proof {
        assert(av@.take(i as int) =~= av@);
    }
    acc
}

/// The source text of a type.
pub fn render_type(t: &TypeExpr) -> (r: String)
    ensures
        r@ == type_text(t@),
    decreases t@,
{
    match t {
        TypeExpr::Named { name, args, path } => {
            if args.len() == 0 {
                return concat(path.as_str(), name.as_str());
            }
            let ghost av = t@->Named_1;
            assert(t@ == TypeView::Named(name@, av, path@));
            assert(decreases_to!(t@ => av));
            let inner = render_list(args, Ghost(av));
            let mut r = concat(path.as_str(), name.as_str());
            r.append("<");
            r.append(inner.as_str());
            r.append(">");
            r
        },
        TypeExpr::Tuple(elems) => {
            let ghost av = t@->Tuple_0;
            proof {
                reveal_with_fuel(<TypeExpr as View>::view, 2);
            }
            assert(t@ == TypeView::Tuple(av));
            assert(decreases_to!(t@ => av));
            let inner = render_list(elems, Ghost(av));
            let mut r = "(".to_owned();
            r.append(inner.as_str());
            if elems.len() == 1 {
                r.append(",)");
            } else {
                r.append(")");
            }
            r
        },
        TypeExpr::Ref { prefix, inner } => {
            assert(t@ == TypeView::Ref(prefix@, Box::new((**inner)@)));
            assert(decreases_to!(t@ => t@->Ref_1));
            let mut r = prefix.clone();
            r.append(render_type(&**inner).as_str());
            r
        },
        TypeExpr::Array { elem, len } => {
            assert(t@ == TypeView::Array(Box::new((**elem)@), len@));
            assert(decreases_to!(t@ => t@->Array_0));
            let mut r = "[".to_owned();
            r.append(render_type(&**elem).as_str());
            if len.as_str().unicode_len() == 0 {
                r.append("]");
            } else {
                r.append("; ");
                r.append(len.as_str());
                r.append("]");
            }
            r
        },
        TypeExpr::Verbatim(s) => s.clone(),
    }
}

} // verus!
