//! Merging caller-supplied attributes into a component's own element:
//! the caller's `style` fragments are gathered into one declaration list,
//! placed before or after the component's own declarations, and protected
//! attribute names are withheld from the caller.

use vstd::prelude::*;
use vstd::string::StringExecFns;

use crate::types::same_text;

verus! {

/// The parts of an element attribute that merging reads, with the host's
/// own attribute carried along untouched in `handle`.
#[derive(Debug, Clone, PartialEq)]
pub struct Attr<H> {
    pub name: String,
    /// `Some("style")` for a single CSS property given as its own attribute.
    pub namespace: Option<String>,
    /// The value, when it is text.
    pub text: Option<String>,
    pub handle: H,
}

/// The attribute is a whole `style` attribute.
pub open spec fn is_style<H>(a: Attr<H>) -> bool {
    a.name@ == "style"@
}

/// The text fragments of the `style` attributes of `s`, in order.
pub open spec fn style_texts<H>(s: Seq<Attr<H>>) -> Seq<Seq<char>>
    decreases s.len(),
{
    if s.len() == 0 {
        Seq::empty()
    } else {
        let rest = style_texts(s.drop_last());
        let a = s.last();
        if is_style(a) && a.text is Some {
            rest.push(a.text->Some_0@)
        } else {
            rest
        }
    }
}

/// The fragments joined with single spaces.
pub open spec fn joined(parts: Seq<Seq<char>>) -> Seq<char>
    decreases parts.len(),
{
    if parts.len() == 0 {
        Seq::empty()
    } else if parts.len() == 1 {
        parts[0]
    } else {
        joined(parts.drop_last()) + " "@ + parts.last()
    }
}

/// `name` is one of `names`.
pub open spec fn in_list(names: Seq<&str>, name: Seq<char>) -> bool {
    exists|i: int| 0 <= i < names.len() && (#[trigger] names[i])@ == name
}

/// The attribute sets one of `properties` as its own `style`-namespaced
/// attribute.
pub open spec fn sets_property<H>(a: Attr<H>, properties: Seq<&str>) -> bool {
    a.namespace is Some && a.namespace->Some_0@ == "style"@ && in_list(properties, a.name@)
}

/// Is `name` one of `names`?
fn listed(names: &[&str], name: &str) -> (b: bool)
    ensures
        b == in_list(names@, name@),
{
    let mut i: usize = 0;
    while i < names.len()
        invariant
            i <= names@.len(),
            forall|k: int| 0 <= k < i ==> (#[trigger] names@[k])@ != name@,
        decreases names@.len() - i,
    {
        if same_text(names[i], name) {
            return true;
        }
        i = i + 1;
    }
    false
}

/// The attribute is withheld by a list of `names`: it carries one of
/// them, and when `styled_only`, it is also a `style`-namespaced property.
pub open spec fn withheld<H>(a: Attr<H>, names: Seq<&str>, styled_only: bool) -> bool {
    in_list(names, a.name@) && (!styled_only || (a.namespace is Some && a.namespace->Some_0@
        == "style"@))
}

/// Keep the attributes `names` does not withhold, in order.
fn retain_unlisted<H>(attrs: &mut Vec<Attr<H>>, names: &[&str], styled_only: bool)
    ensures
        final(attrs)@ == old(attrs)@.filter(|a: Attr<H>| !withheld(a, names@, styled_only)),
{
    let ghost pred = |a: Attr<H>| !withheld(a, names@, styled_only);
    let mut taken: Vec<Attr<H>> = Vec::new();
    std::mem::swap(&mut taken, attrs);
    let ghost all = taken@;
    let mut kept: Vec<Attr<H>> = Vec::new();
    for a in it: taken.into_iter()
        invariant
            it.seq() == all,
            pred == (|a: Attr<H>| !withheld(a, names@, styled_only)),
            kept@ == all.take(it.index() as int).filter(pred),
    {
        proof {
            assert(all.take(it.index() + 1 as int) =~= all.take(it.index() as int).push(a));
            all.take(it.index() as int).lemma_filter_push(a, pred);
        }
        let styled = match &a.namespace {
            Some(ns) => same_text(ns.as_str(), "style"),
            None => true,
        };
        let drop = listed(names, a.name.as_str()) && (!styled_only || (a.namespace.is_some() && styled));
        if !drop {
            kept.push(a);
        }
    }
    assert(all.take(all.len() as int) =~= all);
    *attrs = kept;
}

/// Remove every `style` attribute, returning the text fragments joined
/// with single spaces, in order.
pub fn take_text_styles<H>(attrs: &mut Vec<Attr<H>>) -> (s: String)
    ensures
        final(attrs)@ == old(attrs)@.filter(|a: Attr<H>| !is_style(a)),
        s@ == joined(style_texts(old(attrs)@)),
{
    let ghost pred = |a: Attr<H>| !is_style(a);
    let mut taken: Vec<Attr<H>> = Vec::new();
    std::mem::swap(&mut taken, attrs);
    let ghost all = taken@;
    let mut kept: Vec<Attr<H>> = Vec::new();
    let mut styles = String::new();
    let mut first = true;
    for a in it: taken.into_iter()
        invariant
            it.seq() == all,
            pred == (|a: Attr<H>| !is_style(a)),
            kept@ == all.take(it.index() as int).filter(pred),
            styles@ == joined(style_texts(all.take(it.index() as int))),
            first == (style_texts(all.take(it.index() as int)).len() == 0),
    {
        let ghost before = all.take(it.index() as int);
        proof {
            assert(all.take(it.index() + 1 as int) =~= before.push(a));
            assert(before.push(a).drop_last() =~= before);
            before.lemma_filter_push(a, pred);
        }
        if same_text(a.name.as_str(), "style") {
            match a.text {
                Some(t) => {
                    let ghost parts = style_texts(before);
                    if !first {
                        styles.append(" ");
                    }
                    styles.append(t.as_str());
                    first = false;
                    proof {
                        assert(parts.push(t@).drop_last() =~= parts);
                        if parts.len() == 0 {
                            assert(styles@ =~= joined(parts.push(t@)));
                        }
                    }
                },
                None => {},
            }
        } else {
            kept.push(a);
        }
    }
    assert(all.take(all.len() as int) =~= all);
    *attrs = kept;
    styles
}

/// The component's default declarations followed by the caller's, which
/// therefore win. The caller's `style` attributes are consumed.
pub fn merge_style_user_last<H>(attrs: &mut Vec<Attr<H>>, defaults: &str) -> (s: String)
    ensures
        final(attrs)@ == old(attrs)@.filter(|a: Attr<H>| !is_style(a)),
        s@ == defaults@ + " "@ + joined(style_texts(old(attrs)@)),
{
    let user = take_text_styles(attrs);
    let mut s = defaults.to_owned();
    s.append(" ");
    s.append(user.as_str());
    s
}

/// The caller's declarations followed by the component's `fixed` ones,
/// which therefore win. A caller's single-property attributes for one of
/// `invariant_properties` are dropped as well: they would otherwise be
/// applied after the merged style.
pub fn merge_style_invariant_last<H>(
    attrs: &mut Vec<Attr<H>>,
    fixed: &str,
    invariant_properties: &[&str],
) -> (s: String)
    ensures
        ({
            let survivors = old(attrs)@.filter(|a: Attr<H>| !sets_property(a, invariant_properties@));
            &&& final(attrs)@ == survivors.filter(|a: Attr<H>| !is_style(a))
            &&& s@ == joined(style_texts(survivors)) + " "@ + fixed@
        }),
{
    retain_unlisted(attrs, invariant_properties, true);
    assert((|a: Attr<H>| !withheld(a, invariant_properties@, true)) =~= (|a: Attr<H>|
        !sets_property(a, invariant_properties@)));
    let user = take_text_styles(attrs);
    let mut s = user;
    s.append(" ");
    s.append(fixed);
    s
}

/// Withhold the attributes named in `protected` (listeners and state the
/// component owns); every other attribute survives, in order.
pub fn protect_attributes<H>(attrs: &mut Vec<Attr<H>>, protected: &[&str])
    ensures
        final(attrs)@ == old(attrs)@.filter(|a: Attr<H>| !in_list(protected@, a.name@)),
{
    retain_unlisted(attrs, protected, false);
    assert((|a: Attr<H>| !withheld(a, protected@, false)) =~= (|a: Attr<H>| !in_list(protected@, a.name@)));
}

} // verus!
