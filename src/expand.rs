//! The emission orchestrator: one narrowly scoped implementation per
//! operation, and the whole expansion of a tracked type.
use vstd::prelude::*;

use crate::annotation::{attribute_views, extract_macro_args, lookup, Attribute, AttributeView};
use crate::body::{body_text, patch_body, patched_body, state_value, state_value_text, stmt_views, Stmt, StmtView};
use crate::error::{ErrorView, ExpandError};
use crate::registry::{boundary, build_registry, marker, registry_of, registry_text, render_registry, Registry, RegistryView, NAME_LIMIT};
use crate::slots::{
    binding_views, is_free, output_binding, output_bindings, outputs, resolve,
    resolve_slot_bindings, Binding, BindingView,
};
use crate::text::{concat, contains_string, copy_strings, join, join_strings, render_coded, spelled};
use crate::tokens::is_single_letter;
use crate::types::{rewrite_type, render_type, type_text, with_state_args, TypeExpr, TypeView};

verus! {

/// A type whose operations are restricted by state: its name, its own generic
/// parameters (as declared, and as named in its self type), its own `where`
/// predicates, the states its slots range over, and the default state of each
/// slot. The number of defaults is the slot arity.
#[derive(Debug)]
pub struct TrackedType {
    pub name: String,
    pub params: Vec<String>,
    pub args: Vec<String>,
    pub where_preds: Vec<String>,
    pub states: Vec<String>,
    pub defaults: Vec<String>,
}

pub struct TrackedView {
    pub name: Seq<char>,
    pub params: Seq<Seq<char>>,
    pub args: Seq<Seq<char>>,
    pub where_preds: Seq<Seq<char>>,
    pub states: Seq<Seq<char>>,
    pub defaults: Seq<Seq<char>>,
}

impl View for TrackedType {
    type V = TrackedView;

    open spec fn view(&self) -> TrackedView {
        TrackedView {
            name: self.name@,
            params: spelled(self.params@),
            args: spelled(self.args@),
            where_preds: spelled(self.where_preds@),
            states: spelled(self.states@),
            defaults: spelled(self.defaults@),
        }
    }
}

/// One method of the tracked type, with its annotations: the parts of its
/// signature as text, its declared return type, and its body.
#[derive(Debug)]
pub struct Operation {
    pub name: String,
    pub attrs: Vec<Attribute>,
    pub vis: String,
    pub generics: String,
    pub inputs: String,
    pub output: Option<TypeExpr>,
    pub fn_where: String,
    pub body: Vec<Stmt>,
}

pub struct OperationView {
    pub name: Seq<char>,
    pub attrs: Seq<AttributeView>,
    pub vis: Seq<char>,
    pub generics: Seq<char>,
    pub inputs: Seq<char>,
    pub output: Option<TypeView>,
    pub fn_where: Seq<char>,
    pub body: Seq<StmtView>,
}

impl View for Operation {
    type V = OperationView;

    open spec fn view(&self) -> OperationView {
        OperationView {
            name: self.name@,
            attrs: attribute_views(self.attrs@),
            vis: self.vis@,
            generics: self.generics@,
            inputs: self.inputs@,
            output: match self.output {
                Some(t) => Some(t@),
                None => None,
            },
            fn_where: self.fn_where@,
            body: stmt_views(self.body@),
        }
    }
}

/// The implementation generated for one operation.
#[derive(Debug)]
pub struct OperationImpl {
    pub self_bindings: Vec<Binding>,
    pub placeholders: Vec<String>,
    pub out_bindings: Vec<Binding>,
    pub return_type: TypeExpr,
    pub body: Vec<Stmt>,
    pub attrs: Vec<Attribute>,
    pub text: String,
}

pub struct ImplView {
    pub self_bindings: Seq<BindingView>,
    pub placeholders: Seq<Seq<char>>,
    pub out_bindings: Seq<BindingView>,
    pub return_type: TypeView,
    pub body: Seq<StmtView>,
    pub attrs: Seq<AttributeView>,
}

impl View for OperationImpl {
    type V = ImplView;

    open spec fn view(&self) -> ImplView {
        ImplView {
            self_bindings: binding_views(self.self_bindings@),
            placeholders: spelled(self.placeholders@),
            out_bindings: binding_views(self.out_bindings@),
            return_type: self.return_type@,
            body: stmt_views(self.body@),
            attrs: attribute_views(self.attrs@),
        }
    }
}

/// The first entry, from the front, that pins a state not among `states`.
pub open spec fn first_unknown(entries: Seq<Seq<char>>, states: Seq<Seq<char>>) -> Option<Seq<char>>
    decreases entries.len(),
{
    if entries.len() == 0 {
        None
    } else if !is_free(entries[0]) && !states.contains(entries[0]) {
        Some(entries[0])
    } else {
        first_unknown(entries.drop_first(), states)
    }
}

/// What is wrong, if anything, with a slot list of the operation `op` of `t`:
/// its length differs from the arity, or it pins an undeclared state.
pub open spec fn slot_error(op: Seq<char>, entries: Seq<Seq<char>>, t: TrackedView) -> Option<ErrorView> {
    if entries.len() != t.defaults.len() {
        Some(ErrorView::ArityMismatch(op, t.defaults.len(), entries.len()))
    } else {
        match first_unknown(entries, t.states) {
            Some(m) => Some(ErrorView::UnknownMarker(op, m)),
            None => None,
        }
    }
}

/// The text that stands for a binding in a generated type.
pub open spec fn binding_text(owner: Seq<char>, b: BindingView) -> Seq<char> {
    match b {
        BindingView::Marker(s) => marker(owner, s),
        BindingView::Placeholder(p) => p,
    }
}

pub open spec fn binding_texts(owner: Seq<char>, bs: Seq<BindingView>) -> Seq<Seq<char>> {
    bs.map_values(|b: BindingView| binding_text(owner, b))
}

/// The implementation of `op` on `t`, or the diagnostic that stops it;
/// `Ok(None)` where `op` has no `require` annotation, which leaves the method
/// as it is written.
///
/// The precondition comes from the `require` annotation; the postcondition
/// from `switch_to`, or passes every slot through where there is none. Both
/// are taken off the annotations that the implementation keeps.
pub open spec fn operation_impl(t: TrackedView, op: OperationView) -> Result<Option<ImplView>, ErrorView> {
    let (pre_found, attrs1) = lookup(op.attrs, "require"@);
    let (post_found, attrs2) = lookup(attrs1, "switch_to"@);
    let pre = match pre_found {
        Some(Some(p)) => p,
        _ => Seq::empty(),
    };
    let post = match post_found {
        Some(Some(p)) => Some(p),
        _ => None,
    };
    if pre_found is None {
        Ok(None)
    } else if pre_found == Some(None::<Seq<Seq<char>>>) {
        Err(ErrorView::MalformedAnnotation("require"@, op.name))
    } else if slot_error(op.name, pre, t) is Some {
        Err(slot_error(op.name, pre, t)->Some_0)
    } else if post_found == Some(None::<Seq<Seq<char>>>) {
        Err(ErrorView::MalformedAnnotation("switch_to"@, op.name))
    } else if post is Some && slot_error(op.name, post->Some_0, t) is Some {
        Err(slot_error(op.name, post->Some_0, t)->Some_0)
    } else if !(op.output matches Some(TypeView::Named(_, _, _))) {
        Err(ErrorView::UnsupportedShape(op.name))
    } else {
        let (b, ph) = resolve(pre, t.args);
        let outs = outputs(post, b);
        Ok(
            Some(ImplView {
                self_bindings: b,
                placeholders: ph,
                out_bindings: outs,
                return_type: with_state_args(op.output->Some_0, t.name, binding_texts(t.name, outs)),
                body: patched_body(op.body, t.name, state_value(t.defaults.len())),
                attrs: attrs2,
            }),
        )
    }
}

/// `<a, b, ..>`, or nothing for an empty list.
pub open spec fn angle(parts: Seq<Seq<char>>) -> Seq<char> {
    if parts.len() == 0 {
        Seq::empty()
    } else {
        "<"@ + join(parts, ", "@) + ">"@
    }
}

/// ` where a, b, ..`, or nothing for an empty list.
pub open spec fn where_text(preds: Seq<Seq<char>>) -> Seq<char> {
    if preds.len() == 0 {
        Seq::empty()
    } else {
        " where "@ + join(preds, ", "@)
    }
}

/// The bound that each placeholder gets: the capability boundary of `owner`.
pub open spec fn bounds(owner: Seq<char>, ph: Seq<Seq<char>>) -> Seq<Seq<char>> {
    ph.map_values(|p: Seq<char>| p + ": "@ + boundary(owner))
}

/// The source text of an operation's implementation block.
pub open spec fn impl_text(t: TrackedView, op: OperationView, iv: ImplView) -> Seq<char> {
    "impl"@ + angle(t.params + iv.placeholders) + " "@ + t.name + angle(
        t.args + binding_texts(t.name, iv.self_bindings),
    ) + where_text(t.where_preds + bounds(t.name, iv.placeholders)) + " { "@ + join(
        iv.attrs.map_values(|a: AttributeView| a.text + " "@),
        Seq::empty(),
    ) + op.vis + "fn "@ + op.name + op.generics + "("@ + op.inputs + ") -> "@ + type_text(
        iv.return_type,
    ) + op.fn_where + " { "@ + body_text(iv.body) + " } }"@
}

fn check_slots(op: &String, entries: &Vec<String>, t: &TrackedType) -> (r: Option<ExpandError>)
    ensures
        match r {
            Some(e) => slot_error(op@, spelled(entries@), t@) == Some(e@),
            None => slot_error(op@, spelled(entries@), t@) == None::<ErrorView>,
        },
{
    if entries.len() != t.defaults.len() {
        return Some(
            ExpandError::ArityMismatch {
                operation: op.clone(),
                expected: t.defaults.len(),
                found: entries.len(),
            },
        );
    }
    let ghost es = spelled(entries@);
    let ghost ss = spelled(t.states@);
    let mut i: usize = 0;
    assert(es.subrange(0, es.len() as int) =~= es);
    while i < entries.len()
        invariant
            es == spelled(entries@),
            ss == spelled(t.states@),
            entries@.len() == t.defaults@.len(),
            i <= entries.len(),
            first_unknown(es, ss) == first_unknown(es.subrange(i as int, es.len() as int), ss),
        decreases entries.len() - i,
    {
        let ghost rest = es.subrange(i as int, es.len() as int);
        assert(rest.drop_first() =~= es.subrange(i + 1, es.len() as int));
        assert(rest[0] == entries@[i as int]@);
        if !is_single_letter(entries[i].as_str()) && !contains_string(&t.states, &entries[i]) {
            assert(first_unknown(rest, ss) == Some(rest[0]));
            return Some(ExpandError::UnknownMarker { operation: op.clone(), marker: entries[i].clone() });
        }
        i = i + 1;
    }
    assert(es.subrange(i as int, es.len() as int) =~= Seq::<Seq<char>>::empty());
    None
}

fn binding_strings(owner: &String, bs: &Vec<Binding>) -> (r: Vec<String>)
    ensures
        spelled(r@) == binding_texts(owner@, binding_views(bs@)),
{
    let mut r: Vec<String> = Vec::new();
    let mut i: usize = 0;
    while i < bs.len()
        invariant
            i <= bs.len(),
            r@.len() == i,
            forall|j: int| 0 <= j < i ==> r@[j]@ == binding_text(owner@, bs@[j]@),
        decreases bs.len() - i,
    {
        let s = match &bs[i] {
            Binding::Marker(s) => render_coded(owner.as_str(), s.as_str()),
            Binding::Placeholder(p) => p.clone(),
        };
        r.push(s);
        i = i + 1;
    }
    assert(spelled(r@) =~= binding_texts(owner@, binding_views(bs@)));
    r
}

/// Appends copies of `more` to `v`.
fn extend_strings(v: &mut Vec<String>, more: &Vec<String>)
    ensures
        spelled(final(v)@) == spelled(old(v)@) + spelled(more@),
{
    let ghost start = spelled(v@);
    let mut i: usize = 0;
    while i < more.len()
        invariant
            i <= more.len(),
            spelled(v@) =~= start + spelled(more@).take(i as int),
        decreases more.len() - i,
    {
        let ghost before = spelled(v@);
        v.push(more[i].clone());
        assert(spelled(v@) =~= before.push(more@[i as int]@));
        i = i + 1;
    }
    assert(spelled(more@).take(i as int) =~= spelled(more@));
}

pub(crate) fn angle_text(parts: &Vec<String>) -> (r: String)
    ensures
        r@ == angle(spelled(parts@)),
{
    if parts.len() == 0 {
        String::new()
    } else {
        let mut r = "<".to_owned();
        r.append(join_strings(parts, ", ").as_str());
        r.append(">");
        r
    }
}

pub(crate) fn where_clause_text(preds: &Vec<String>) -> (r: String)
    ensures
        r@ == where_text(spelled(preds@)),
{
    if preds.len() == 0 {
        String::new()
    } else {
        concat(" where ", join_strings(preds, ", ").as_str())
    }
}

fn attrs_text(attrs: &Vec<Attribute>) -> (r: String)
    ensures
        r@ == join(
            attribute_views(attrs@).map_values(|a: AttributeView| a.text + " "@),
            Seq::empty(),
        ),
{
    let mut parts: Vec<String> = Vec::new();
    let mut i: usize = 0;
    while i < attrs.len()
        invariant
            i <= attrs.len(),
            parts@.len() == i,
            forall|j: int| 0 <= j < i ==> parts@[j]@ == attrs@[j].text@ + " "@,
        decreases attrs.len() - i,
    {
        parts.push(concat(attrs[i].text.as_str(), " "));
        i = i + 1;
    }
    assert(spelled(parts@) =~= attribute_views(attrs@).map_values(
        |a: AttributeView| a.text + " "@,
    ));
    proof {
        reveal_strlit("");
        assert(""@ =~= Seq::<char>::empty());
    }
    join_strings(&parts, "")
}

fn render_impl(t: &TrackedType, op: Ghost<OperationView>, parts: (&String, &String, &String, &String, &String), iv: &OperationImpl) -> (r: String)
    requires
        parts.0@ == op@.name,
        parts.1@ == op@.vis,
        parts.2@ == op@.generics,
        parts.3@ == op@.inputs,
        parts.4@ == op@.fn_where,
    ensures
        r@ == impl_text(t@, op@, iv@),
{
    let mut generics = copy_strings(&t.params);
    extend_strings(&mut generics, &iv.placeholders);
    let mut self_args = copy_strings(&t.args);
    extend_strings(&mut self_args, &binding_strings(&t.name, &iv.self_bindings));
    let mut preds = copy_strings(&t.where_preds);
    let bound = concat("Sealer", t.name.as_str());
    let mut bs: Vec<String> = Vec::new();
    let mut i: usize = 0;
    while i < iv.placeholders.len()
        invariant
            bound@ == boundary(t.name@),
            i <= iv.placeholders.len(),
            bs@.len() == i,
            forall|j: int| 0 <= j < i ==> bs@[j]@ == iv.placeholders@[j]@ + ": "@ + boundary(t.name@),
        decreases iv.placeholders.len() - i,
    {
        let mut b = iv.placeholders[i].clone();
        b.append(": ");
        b.append(bound.as_str());
        bs.push(b);
        i = i + 1;
    }
    assert(spelled(bs@) =~= bounds(t.name@, spelled(iv.placeholders@)));
    extend_strings(&mut preds, &bs);
    let mut r = "impl".to_owned();
    r.append(angle_text(&generics).as_str());
    r.append(" ");
    r.append(t.name.as_str());
    r.append(angle_text(&self_args).as_str());
    r.append(where_clause_text(&preds).as_str());
    r.append(" { ");
    r.append(attrs_text(&iv.attrs).as_str());
    r.append(parts.1.as_str());
    r.append("fn ");
    r.append(parts.0.as_str());
    r.append(parts.2.as_str());
    r.append("(");
    r.append(parts.3.as_str());
    r.append(") -> ");
    r.append(render_type(&iv.return_type).as_str());
    r.append(parts.4.as_str());
    r.append(" { ");
    r.append(crate::body::render_body(&iv.body).as_str());
    r.append(" } }");
    r
}

/// The return type of the operation called `op`, with the texts of `outs`
/// added as state arguments to each occurrence of the type called `owner`;
/// an error where the operation declares no return type or one that is not a
/// named type.
pub fn switch_to_inner(output: &Option<TypeExpr>, outs: &Vec<String>, owner: &str, op: &String) -> (r: Result<TypeExpr, ExpandError>)
    ensures
        match r {
            Ok(t) => output matches Some(TypeExpr::Named { .. }) && t@ == with_state_args(
                output->Some_0@,
                owner@,
                spelled(outs@),
            ),
            Err(e) => !(output matches Some(TypeExpr::Named { .. })) && e@ == ErrorView::UnsupportedShape(op@),
        },
{
    match output {
        Some(ty) => match ty {
            TypeExpr::Named { .. } => Ok(rewrite_type(ty, owner, outs)),
            _ => Err(ExpandError::UnsupportedShape { operation: op.clone() }),
        },
        None => Err(ExpandError::UnsupportedShape { operation: op.clone() }),
    }
}

/// Expands one operation of `t`: resolves its self type from the precondition,
/// computes the bindings after it, rewrites its return type, adds the hidden
/// state field where its body builds `t`, and renders the implementation
/// block. A failure concerns this operation alone.
pub fn generate_impl_block_for_method_based_on_require_args(t: &TrackedType, op: Operation) -> (r: Result<Option<OperationImpl>, ExpandError>)
    ensures
        expands_to(t@, op@, r),
{
    let ghost opv = op@;
    let Operation { name, attrs, vis, generics, inputs, output, fn_where, body } = op;
    let mut attrs = attrs;
    let pre_found = match extract_macro_args(&mut attrs, "require", name.as_str()) {
        Ok(x) => x,
        Err(e) => {
            return Err(e);
        },
    };
    let pre = match pre_found {
        Some(p) => p,
        None => {
            return Ok(None);
        },
    };
    match check_slots(&name, &pre, t) {
        Some(e) => {
            return Err(e);
        },
        None => {},
    }
    let post = match extract_macro_args(&mut attrs, "switch_to", name.as_str()) {
        Ok(x) => x,
        Err(e) => {
            return Err(e);
        },
    };
    match &post {
        Some(p) => match check_slots(&name, p, t) {
            Some(e) => {
                return Err(e);
            },
            None => {},
        },
        None => {},
    }
    let (b, ph) = resolve_slot_bindings(&pre, &t.args);
    proof {
        crate::slots::lemma_resolve(spelled(pre@), spelled(t.args@));
        assert(spelled(pre@).len() == pre@.len());
        assert(binding_views(b@).len() == b@.len());
    }
    let outs = output_bindings(&post, &b);
    let out_texts = binding_strings(&t.name, &outs);
    let rt = match switch_to_inner(&output, &out_texts, t.name.as_str(), &name) {
        Ok(rt) => rt,
        Err(e) => {
            return Err(e);
        },
    };
    let value = state_value_text(t.defaults.len());
    let new_body = patch_body(&body, t.name.as_str(), value.as_str());
    let mut iv = OperationImpl {
        self_bindings: b,
        placeholders: ph,
        out_bindings: outs,
        return_type: rt,
        body: new_body,
        attrs,
        text: String::new(),
    };
    let text = render_impl(t, Ghost(opv), (&name, &vis, &generics, &inputs, &fn_where), &iv);
    iv.text = text;
    Ok(Some(iv))
}

/// The expansion of a tracked type: its registry, and for each operation, in
/// order, its implementation or the diagnostic that stopped it.
#[derive(Debug)]
pub struct Expansion {
    pub registry: Registry,
    pub impls: Vec<Result<Option<OperationImpl>, ExpandError>>,
}

/// Whether `r` is what `operation_impl` gives for `op` on `t`, with its text.
pub open spec fn expands_to(t: TrackedView, op: OperationView, r: Result<Option<OperationImpl>, ExpandError>) -> bool {
    match r {
        Ok(Some(iv)) => operation_impl(t, op) == Ok::<Option<ImplView>, ErrorView>(Some(iv@))
            && iv.text@ == impl_text(t, op, iv@),
        Ok(None) => operation_impl(t, op) == Ok::<Option<ImplView>, ErrorView>(None),
        Err(e) => operation_impl(t, op) == Err::<Option<ImplView>, ErrorView>(e@),
    }
}

pub open spec fn operation_views(ops: Seq<Operation>) -> Seq<OperationView> {
    ops.map_values(|op: Operation| op@)
}

/// Whether `r` is the expansion of `t` with the operations `ops`.
pub open spec fn is_expansion_of(r: Expansion, t: TrackedView, ops: Seq<OperationView>) -> bool {
    &&& r.registry@ == registry_of(t.name, t.states)
    &&& r.impls@.len() == ops.len()
    &&& forall|i: int| 0 <= i < ops.len() ==> expands_to(t, ops[i], #[trigger] r.impls@[i])
}

/// Expands each operation of `t`, in order, into its implementation, `None`
/// for a method without `require` (left as written), or the diagnostic that
/// stopped it. A failing operation leaves the others untouched.
pub fn impl_state_inner(t: &TrackedType, ops: Vec<Operation>) -> (r: Vec<Result<Option<OperationImpl>, ExpandError>>)
    ensures
        r@.len() == ops@.len(),
        forall|i: int| 0 <= i < ops@.len() ==> expands_to(t@, ops@[i]@, #[trigger] r@[i]),
{
    let ghost views = operation_views(ops@);
    let mut impls: Vec<Result<Option<OperationImpl>, ExpandError>> = Vec::new();
    let mut ops = ops;
    while ops.len() > 0
        invariant
            views.len() == impls@.len() + ops@.len(),
            forall|j: int| 0 <= j < ops@.len() ==> ops@[j]@ == views[impls@.len() + j],
            forall|j: int| 0 <= j < impls@.len() ==> expands_to(t@, views[j], #[trigger] impls@[j]),
        decreases ops@.len(),
    {
        let op = ops.remove(0);
        let r = generate_impl_block_for_method_based_on_require_args(t, op);
        impls.push(r);
    }
    impls
}

/// Expands a tracked type with its operations: builds the registry of the
/// states it declares, each once, and one implementation per annotated
/// operation.
pub fn states_inner(t: &TrackedType, ops: Vec<Operation>) -> (r: Expansion)
    requires
        t.name@.len() <= NAME_LIMIT,
    ensures
        is_expansion_of(r, t@, operation_views(ops@)),
{
    let registry = build_registry(t.name.as_str(), &t.states);
    let impls = impl_state_inner(t, ops);
    Expansion { registry, impls }
}

/// The text of each implementation that succeeded, each preceded by a line
/// break, in order.
pub open spec fn impls_text(impls: Seq<Result<Option<OperationImpl>, ExpandError>>) -> Seq<char>
    decreases impls.len(),
{
    if impls.len() == 0 {
        Seq::empty()
    } else {
        impls_text(impls.drop_last()) + match impls.last() {
            Ok(Some(iv)) => "\n"@ + iv.text@,
            _ => Seq::empty(),
        }
    }
}

/// The emitted source: the registry's declarations, then the text of each
/// annotated operation's implementation that succeeded, one per line, in order.
pub open spec fn expansion_text(reg: RegistryView, impls: Seq<Result<Option<OperationImpl>, ExpandError>>) -> Seq<char> {
    registry_text(reg) + impls_text(impls)
}

/// The text of the implementations that succeeded, each on a line of its own.
pub fn render_impls(impls: &Vec<Result<Option<OperationImpl>, ExpandError>>) -> (r: String)
    ensures
        r@ == impls_text(impls@),
{
    let mut r = String::new();
    let mut i: usize = 0;
    while i < impls.len()
        invariant
            i <= impls.len(),
            r@ == impls_text(impls@.take(i as int)),
        decreases impls.len() - i,
    {
        assert(impls@.take(i + 1).drop_last() =~= impls@.take(i as int));
        match &impls[i] {
            Ok(Some(iv)) => {
                r.append("\n");
                r.append(iv.text.as_str());
            },
            _ => {
                assert(r@ =~= r@ + Seq::<char>::empty());
            },
        }
        i = i + 1;
    }
    assert(impls@.take(i as int) =~= impls@);
    r
}

/// The emitted source of an expansion.
pub fn render_expansion(e: &Expansion) -> (r: String)
    ensures
        r@ == expansion_text(e.registry@, e.impls@),
{
    let mut r = render_registry(&e.registry);
    r.append(render_impls(&e.impls).as_str());
    r
}

/// Each implementation that is emitted binds exactly as many slots as the
/// tracked type has, in its self type and in its result type.
pub proof fn lemma_binding_vectors_have_arity(t: TrackedView, op: OperationView)
    requires
        operation_impl(t, op) matches Ok(Some(_)),
    ensures
        operation_impl(t, op)->Ok_0->Some_0.self_bindings.len() == t.defaults.len(),
        operation_impl(t, op)->Ok_0->Some_0.out_bindings.len() == t.defaults.len(),
{
    let (pre_found, attrs1) = lookup(op.attrs, "require"@);
    let pre = match pre_found {
        Some(Some(p)) => p,
        _ => Seq::empty(),
    };
    crate::slots::lemma_resolve(pre, t.args);
}

proof fn lemma_texts_agree(
    t: TrackedView,
    ops: Seq<OperationView>,
    a: Seq<Result<Option<OperationImpl>, ExpandError>>,
    b: Seq<Result<Option<OperationImpl>, ExpandError>>,
)
    requires
        a.len() == ops.len(),
        b.len() == ops.len(),
        forall|i: int| 0 <= i < ops.len() ==> expands_to(t, ops[i], #[trigger] a[i]),
        forall|i: int| 0 <= i < ops.len() ==> expands_to(t, ops[i], #[trigger] b[i]),
    ensures
        impls_text(a) == impls_text(b),
    decreases ops.len(),
{
    if ops.len() > 0 {
        let n = ops.len() - 1;
        assert(expands_to(t, ops[n], a[n]));
        assert(expands_to(t, ops[n], b[n]));
        lemma_texts_agree(t, ops.drop_last(), a.drop_last(), b.drop_last());
        match (a.last(), b.last()) {
            (Ok(Some(x)), Ok(Some(y))) => {
                assert(x@ == y@);
            },
            _ => {},
        }
    }
}

/// Expanding the same tracked type with the same operations twice emits the
/// same source text.
pub proof fn lemma_expansion_deterministic(r1: Expansion, r2: Expansion, t: TrackedView, ops: Seq<OperationView>)
    requires
        is_expansion_of(r1, t, ops),
        is_expansion_of(r2, t, ops),
    ensures
        expansion_text(r1.registry@, r1.impls@) == expansion_text(r2.registry@, r2.impls@),
{
    lemma_texts_agree(t, ops, r1.impls@, r2.impls@);
}

proof fn lemma_no_unknown(entries: Seq<Seq<char>>, states: Seq<Seq<char>>)
    requires
        first_unknown(entries, states) is None,
    ensures
        forall|i: int|
            0 <= i < entries.len() && !is_free(entries[i]) ==> states.contains(#[trigger] entries[i]),
    decreases entries.len(),
{
    if entries.len() > 0 {
        lemma_no_unknown(entries.drop_first(), states);
        assert forall|i: int|
            0 <= i < entries.len() && !is_free(entries[i]) implies states.contains(#[trigger] entries[i]) by {
            if i > 0 {
                assert(entries.drop_first()[i - 1] == entries[i]);
            }
        }
    }
}

/// Every marker that an emitted implementation names, in its self type or
/// in its result type, belongs to a state the tracked type declares, so the
/// registry built from those states declares it.
pub proof fn lemma_markers_registered(t: TrackedView, op: OperationView)
    requires
        operation_impl(t, op) matches Ok(Some(_)),
    ensures
        forall|i: int|
            0 <= i < operation_impl(t, op)->Ok_0->Some_0.self_bindings.len() && (#[trigger] operation_impl(
                t,
                op,
            )->Ok_0->Some_0.self_bindings[i]) is Marker ==> t.states.contains(
                operation_impl(t, op)->Ok_0->Some_0.self_bindings[i]->Marker_0,
            ),
        forall|i: int|
            0 <= i < operation_impl(t, op)->Ok_0->Some_0.out_bindings.len() && (#[trigger] operation_impl(
                t,
                op,
            )->Ok_0->Some_0.out_bindings[i]) is Marker ==> t.states.contains(
                operation_impl(t, op)->Ok_0->Some_0.out_bindings[i]->Marker_0,
            ),
{
    let (pre_found, attrs1) = lookup(op.attrs, "require"@);
    let (post_found, attrs2) = lookup(attrs1, "switch_to"@);
    let pre = match pre_found {
        Some(Some(p)) => p,
        _ => Seq::empty(),
    };
    let post = match post_found {
        Some(Some(p)) => Some(p),
        _ => None,
    };
    crate::slots::lemma_resolve(pre, t.args);
    lemma_no_unknown(pre, t.states);
    if post is Some {
        lemma_no_unknown(post->Some_0, t.states);
    }
    let iv = operation_impl(t, op)->Ok_0->Some_0;
    let b = resolve(pre, t.args).0;
    assert forall|i: int| 0 <= i < iv.self_bindings.len() && (#[trigger] iv.self_bindings[i]) is Marker implies t.states.contains(iv.self_bindings[i]->Marker_0) by {
        if is_free(pre[i]) {
            assert(b[i] is Placeholder);
        }
    }
    assert forall|i: int| 0 <= i < iv.out_bindings.len() && (#[trigger] iv.out_bindings[i]) is Marker implies t.states.contains(iv.out_bindings[i]->Marker_0) by {
        assert(iv.out_bindings[i] == output_binding(post, b, i));
        if is_free(pre[i]) {
            assert(b[i] is Placeholder);
        }
    }
}

} // verus!
