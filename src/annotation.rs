//! Annotations on declarations: finding one, taking it off, and reading its
//! arguments.
use vstd::prelude::*;

use crate::error::{ErrorView, ExpandError};
use crate::text::{same_text, spelled};
use crate::tokens::{is_symbol_list, parse_symbol_list, symbols_of, token_views, Token, TokenView};

verus! {

/// One annotation on a declaration: its name, its argument tokens, and the
/// whole annotation as written, for passing it on unchanged.
#[derive(Debug)]
pub struct Attribute {
    pub name: String,
    pub args: Vec<Token>,
    pub text: String,
}

pub struct AttributeView {
    pub name: Seq<char>,
    pub args: Seq<TokenView>,
    pub text: Seq<char>,
}

impl View for Attribute {
    type V = AttributeView;

    open spec fn view(&self) -> AttributeView {
        AttributeView { name: self.name@, args: token_views(self.args@), text: self.text@ }
    }
}

pub open spec fn attribute_views(v: Seq<Attribute>) -> Seq<AttributeView> {
    v.map_values(|a: Attribute| a@)
}

/// Whether position `i` holds the first annotation called `name`.
pub open spec fn is_first_named(attrs: Seq<AttributeView>, name: Seq<char>, i: int) -> bool {
    &&& 0 <= i < attrs.len()
    &&& attrs[i].name == name
    &&& forall|j: int| 0 <= j < i ==> attrs[j].name != name
}

pub open spec fn has_named(attrs: Seq<AttributeView>, name: Seq<char>) -> bool {
    exists|i: int| 0 <= i < attrs.len() && attrs[i].name == name
}

/// The index of the first annotation called `name`, where there is one.
pub open spec fn first_named(attrs: Seq<AttributeView>, name: Seq<char>) -> int {
    choose|i: int| is_first_named(attrs, name, i)
}

/// What extracting the annotation called `name` finds, and the annotations
/// that are left: `None` where there is no such annotation; `Some(None)` where
/// the first one's arguments are not a symbol list; else its symbols.
pub open spec fn lookup(attrs: Seq<AttributeView>, name: Seq<char>) -> (
    Option<Option<Seq<Seq<char>>>>,
    Seq<AttributeView>,
) {
    if has_named(attrs, name) {
        let i = first_named(attrs, name);
        (
            Some(
                if is_symbol_list(attrs[i].args) {
                    Some(symbols_of(attrs[i].args))
                } else {
                    None
                },
            ),
            attrs.remove(i),
        )
    } else {
        (None, attrs)
    }
}

proof fn lemma_first_named_unique(attrs: Seq<AttributeView>, name: Seq<char>, i: int)
    requires
        is_first_named(attrs, name, i),
    ensures
        has_named(attrs, name),
        first_named(attrs, name) == i,
{
    let j = first_named(attrs, name);
    assert(is_first_named(attrs, name, j));
    if j < i {
        assert(attrs[j].name != name);
    }
    if i < j {
        assert(attrs[i].name != name);
    }
}

/// Finds the first annotation called `name`, takes it off the list and reads
/// its arguments as a symbol list. `Ok(None)` where there is no such
/// annotation, which leaves the list as it was. An error names the annotation
/// and the `declaration` it stands on.
pub fn extract_macro_args(attrs: &mut Vec<Attribute>, name: &str, declaration: &str) -> (r: Result<
    Option<Vec<String>>,
    ExpandError,
>)
    ensures
        attribute_views(final(attrs)@) == lookup(attribute_views(old(attrs)@), name@).1,
        match r {
            Ok(None) => lookup(attribute_views(old(attrs)@), name@).0 == None::<Option<Seq<Seq<char>>>>,
            Ok(Some(v)) => lookup(attribute_views(old(attrs)@), name@).0 == Some(Some(spelled(v@))),
            Err(e) => lookup(attribute_views(old(attrs)@), name@).0 == Some(None::<Seq<Seq<char>>>)
                && e@ == ErrorView::MalformedAnnotation(name@, declaration@),
        },
{
    let ghost before = attribute_views(attrs@);
    let mut i: usize = 0;
    while i < attrs.len()
        invariant
            attrs@ == old(attrs)@,
            before == attribute_views(attrs@),
            i <= attrs.len(),
            forall|j: int| 0 <= j < i ==> before[j].name != name@,
        decreases attrs.len() - i,
    {
        if same_text(attrs[i].name.as_str(), name) {
            let a = attrs.remove(i);
            proof {
                assert(attribute_views(attrs@) =~= before.remove(i as int));
                assert(is_first_named(before, name@, i as int));
                lemma_first_named_unique(before, name@, i as int);
                assert(before[i as int].args == a@.args);
            }
            let parsed = parse_symbol_list(&a.args);
            return match parsed {
                Some(v) => Ok(Some(v)),
                None => Err(
                    ExpandError::MalformedAnnotation {
                        annotation: name.to_owned(),
                        declaration: declaration.to_owned(),
                    },
                ),
            };
        }
        i = i + 1;
    }
    proof {
        if has_named(before, name@) {
            let k = choose|k: int| 0 <= k < before.len() && before[k].name == name@;
            assert(before[k].name != name@);
        }
    }
    Ok(None)
}

} // verus!
