//! Erasing the generator's own tags from an interface.
use vstd::prelude::*;
use crate::endpoint::tag_name;
use crate::model::{
    Interface, InterfaceItem, InterfaceV, ItemV, Meta, MethodDecl, MethodV, Param, ParamV, Pattern,
    Signature, SignatureV, Tag, TagV, tags_view,
};

verus! {

/// Whether a tag belongs to the generator: `endpoint` or `keep`, in any form.
pub open spec fn is_generator_tag(t: TagV) -> bool {
    tag_name(t) == Some("endpoint"@) || tag_name(t) == Some("keep"@)
}

/// The tags that are not the generator's, in their order.
pub open spec fn kept_tags(tags: Seq<TagV>) -> Seq<TagV>
    decreases tags.len(),
{
    if tags.len() == 0 {
        tags
    } else {
        let r = kept_tags(tags.drop_last());
        if is_generator_tag(tags.last()) {
            r
        } else {
            r.push(tags.last())
        }
    }
}

/// A parameter with all its tags removed.
pub open spec fn stripped_param(p: ParamV) -> ParamV {
    match p {
        ParamV::Receiver { .. } => ParamV::Receiver { tags: Seq::empty() },
        ParamV::Typed { tags: _, pat } => ParamV::Typed { tags: Seq::empty(), pat },
    }
}

/// A signature whose parameters, the receiver included, carry no tag.
pub open spec fn stripped_signature(s: SignatureV) -> SignatureV {
    SignatureV { name: s.name, params: s.params.map_values(|p: ParamV| stripped_param(p)) }
}

pub open spec fn stripped_method(m: MethodV) -> MethodV {
    MethodV { tags: kept_tags(m.tags), sig: stripped_signature(m.sig) }
}

pub open spec fn stripped_item(i: ItemV) -> ItemV {
    match i {
        ItemV::Method(m) => ItemV::Method(stripped_method(m)),
        ItemV::Other(s) => ItemV::Other(s),
    }
}

/// An interface with the generator's tags erased from every method and every
/// tag erased from every parameter; all else is kept.
pub open spec fn stripped_interface(i: InterfaceV) -> InterfaceV {
    InterfaceV { name: i.name, items: i.items.map_values(|it: ItemV| stripped_item(it)) }
}

fn is_generator(t: &Tag) -> (r: bool)
    ensures
        r == is_generator_tag(t@),
{
    let endpoint = "endpoint".to_owned();
    let keep = "keep".to_owned();
    match &t.meta {
        Meta::Word(p) => p.eq(&endpoint) || p.eq(&keep),
        Meta::List(p, _) => p.eq(&endpoint) || p.eq(&keep),
        Meta::NameValue(p) => p.eq(&endpoint) || p.eq(&keep),
        Meta::Unparsed => false,
    }
}

/// Drops the generator's tags from a method's tag list, keeping the order of
/// the others.
pub fn strip_method_tags(tags: Vec<Tag>) -> (r: Vec<Tag>)
    ensures
        tags_view(r@) == kept_tags(tags_view(tags@)),
{
    let ghost orig = tags@;
    let mut rest = tags;
    let mut out: Vec<Tag> = Vec::new();
    let ghost mut k: int = 0;
    while rest.len() > 0
        invariant
            0 <= k <= orig.len(),
            rest@ == orig.skip(k),
            tags_view(out@) == kept_tags(tags_view(orig.take(k))),
        decreases rest.len(),
    {
        let t = rest.remove(0);
        proof {
            let a = tags_view(orig.take(k + 1));
            assert(a.drop_last() =~= tags_view(orig.take(k)));
            assert(a.last() == t@);
            assert(rest@ =~= orig.skip(k + 1));
        }
        if !is_generator(&t) {
            out.push(t);
            assert(tags_view(out@) =~= kept_tags(tags_view(orig.take(k))).push(out@.last()@));
        }
        proof {
            k = k + 1;
        }
    }
    assert(orig.take(k) =~= orig);
    out
}

/// Removes every tag of a parameter, the receiver's included.
pub fn visit_fn_arg(node: &Param) -> (r: Param)
    ensures
        r@ == stripped_param(node@),
{
    let r = match node {
        Param::Receiver { tags: _ } => Param::Receiver { tags: Vec::new() },
        Param::Typed { tags: _, pat } => {
            let pat = match pat {
                Pattern::Ident(n) => Pattern::Ident(n.clone()),
                Pattern::Other => Pattern::Other,
            };
            Param::Typed { tags: Vec::new(), pat }
        },
    };
    assert(tags_view(Seq::<Tag>::empty()) =~= Seq::<TagV>::empty());
    r
}

/// Removes every tag of every parameter of a signature, the receiver
/// included; the name and the parameters' order and patterns are kept.
pub fn strip_signature(sig: &Signature) -> (r: Signature)
    ensures
        r@ == stripped_signature(sig@),
{
    let ghost orig = sig.params@;
    let mut out: Vec<Param> = Vec::new();
    let mut i: usize = 0;
    while i < sig.params.len()
        invariant
            orig == sig.params@,
            i <= orig.len(),
            out@.len() == i,
            forall|j: int| 0 <= j < i ==> (#[trigger] out@[j])@ == stripped_param(orig[j]@),
        decreases orig.len() - i,
    {
        out.push(visit_fn_arg(&sig.params[i]));
        i = i + 1;
    }
    let r = Signature { name: sig.name.clone(), params: out };
    assert(r@.params =~= stripped_signature(sig@).params);
    r
}

fn strip_item(item: InterfaceItem) -> (r: InterfaceItem)
    ensures
        r@ == stripped_item(item@),
{
    match item {
        InterfaceItem::Method(m) => {
            let tags = strip_method_tags(m.tags);
            let sig = strip_signature(&m.sig);
            InterfaceItem::Method(MethodDecl { tags, sig })
        },
        InterfaceItem::Other(s) => InterfaceItem::Other(s),
    }
}

/// Erases the generator's tags from an interface: from each method its
/// `endpoint` and `keep` tags, from each parameter (the receiver included)
/// all its tags. Items, names and order are kept.
pub fn strip_interface(input: Interface) -> (r: Interface)
    ensures
        r@ == stripped_interface(input@),
{
    let ghost orig = input.items@;
    let name = input.name;
    let mut rest = input.items;
    let mut out: Vec<InterfaceItem> = Vec::new();
    let ghost mut k: int = 0;
    while rest.len() > 0
        invariant
            0 <= k <= orig.len(),
            rest@ == orig.skip(k),
            out@.len() == k,
            forall|j: int| 0 <= j < k ==> (#[trigger] out@[j])@ == stripped_item(orig[j]@),
        decreases rest.len(),
    {
        let it = rest.remove(0);
        assert(rest@ =~= orig.skip(k + 1));
        out.push(strip_item(it));
        proof {
            k = k + 1;
        }
    }
    let r = Interface { name, items: out };
    assert(r@.items =~= stripped_interface(input@).items);
    r
}

proof fn lemma_kept_tags_clean(tags: Seq<TagV>)
    ensures
        forall|k: int| 0 <= k < kept_tags(tags).len() ==> !is_generator_tag(
            #[trigger] kept_tags(tags)[k],
        ),
    decreases tags.len(),
{
    if tags.len() > 0 {
        lemma_kept_tags_clean(tags.drop_last());
        let r = kept_tags(tags.drop_last());
        assert forall|k: int| 0 <= k < kept_tags(tags).len() implies !is_generator_tag(
            #[trigger] kept_tags(tags)[k],
        ) by {
            if !is_generator_tag(tags.last()) && k == r.len() {
                assert(kept_tags(tags)[k] == tags.last());
            } else {
                assert(kept_tags(tags)[k] == r[k]);
            }
        }
    }
}

proof fn lemma_kept_tags_of_clean(tags: Seq<TagV>)
    requires
        forall|k: int| 0 <= k < tags.len() ==> !is_generator_tag(#[trigger] tags[k]),
    ensures
        kept_tags(tags) == tags,
    decreases tags.len(),
{
    if tags.len() > 0 {
        assert(!is_generator_tag(tags[tags.len() - 1]));
        lemma_kept_tags_of_clean(tags.drop_last());
        assert(tags.drop_last().push(tags.last()) =~= tags);
    }
}

/// Stripping is idempotent: stripping an already stripped interface gives
/// it back unchanged.
pub proof fn lemma_strip_idempotent(i: InterfaceV)
    ensures
        stripped_interface(stripped_interface(i)) == stripped_interface(i),
{
    let once = stripped_interface(i);
    let twice = stripped_interface(once);
    assert forall|k: int| 0 <= k < once.items.len() implies #[trigger] twice.items[k]
        == once.items[k] by {
        if let ItemV::Method(m) = i.items[k] {
            lemma_kept_tags_clean(m.tags);
            lemma_kept_tags_of_clean(kept_tags(m.tags));
            let s1 = stripped_signature(m.sig);
            assert(stripped_signature(s1).params =~= s1.params);
        }
    }
    assert(twice.items =~= once.items);
}

} // verus!
