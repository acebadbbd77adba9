//! Reading the endpoint template of a method from its tags.
use vstd::prelude::*;
use crate::model::{Meta, MetaV, MethodDecl, MethodV, Tag, TagArg, TagArgV, TagV, tags_view};

verus! {

/// The value of the Rust string literal written as `token` (escapes
/// resolved), or `None` when `token` is not one string literal.
pub uninterp spec fn str_literal_value(token: Seq<char>) -> Option<Seq<char>>;

/// Relies on `proc_macro2::Literal::from_str`, which succeeds only when the
/// whole text is one literal token (it reads no groups), on `syn::Lit::new`,
/// which classifies that token, and on `LitStr::value`, which gives a string
/// literal's value with its escapes resolved. The text must open with `"` or
/// `r`: `Lit::new` panics on other prefixes (a C string such as `c"x"`). It
/// must hold no carriage return, which the lexers of proc-macro2 and of the
/// compiler may keep differently inside a raw string.
#[verifier::external_body]
fn literal_value(token: &str) -> (r: Option<String>)
    requires
        string_token_shape(token@),
    ensures
        match r {
            Some(s) => str_literal_value(token@) == Some(s@),
            None => str_literal_value(token@) is None,
        },
{
    match token.parse::<proc_macro2::Literal>() {
        Ok(lit) => match syn::Lit::new(lit) {
            syn::Lit::Str(s) => Some(s.value()),
            _ => None,
        },
        Err(_) => None,
    }
}

/// The name that a tag is known by, if it has one.
pub open spec fn tag_name(t: TagV) -> Option<Seq<char>> {
    match t.meta {
        MetaV::Word(p) => Some(p),
        MetaV::List(p, _) => Some(p),
        MetaV::NameValue(p) => Some(p),
        MetaV::Unparsed => None,
    }
}

/// Whether a tag is named `endpoint`, in any form.
pub open spec fn is_endpoint_tag(t: TagV) -> bool {
    tag_name(t) == Some("endpoint"@)
}

/// Whether a token can only be read as a string literal or as no literal
/// at all: it opens with a double quote or with the raw-string prefix `r`,
/// and holds no carriage return.
pub open spec fn string_token_shape(tok: Seq<char>) -> bool {
    &&& tok.len() > 0
    &&& tok[0] == '"' || tok[0] == 'r'
    &&& forall|i: int| 0 <= i < tok.len() ==> tok[i] != '\r'
}

/// The value of an argument, when it is a string literal.
pub open spec fn arg_literal(a: TagArgV) -> Option<Seq<char>> {
    match a {
        TagArgV::Str(tok) => if string_token_shape(tok) {
            str_literal_value(tok)
        } else {
            None
        },
        TagArgV::Other => None,
    }
}

/// The value of the first string literal among the arguments.
pub open spec fn first_literal(args: Seq<TagArgV>) -> Option<Seq<char>>
    decreases args.len(),
{
    if args.len() == 0 {
        None
    } else {
        match arg_literal(args[0]) {
            Some(s) => Some(s),
            None => first_literal(args.skip(1)),
        }
    }
}

/// The template that a tag supplies: the first string literal inside an
/// `endpoint(...)` list.
pub open spec fn tag_literal(t: TagV) -> Option<Seq<char>> {
    match t.meta {
        MetaV::List(p, args) => if p == "endpoint"@ {
            first_literal(args)
        } else {
            None
        },
        _ => None,
    }
}

/// Whether a tag is named `endpoint` but supplies no template: a bare
/// `endpoint`, `endpoint = ...`, or a list without a string literal.
pub open spec fn is_bad_endpoint(t: TagV) -> bool {
    is_endpoint_tag(t) && tag_literal(t) is None
}

/// The template of the first tag, in order, that supplies one.
pub open spec fn endpoint_in(tags: Seq<TagV>) -> Option<Seq<char>>
    decreases tags.len(),
{
    if tags.len() == 0 {
        None
    } else {
        match tag_literal(tags[0]) {
            Some(s) => Some(s),
            None => endpoint_in(tags.skip(1)),
        }
    }
}

/// Whether every tag named `endpoint` supplies a template.
pub open spec fn endpoint_tags_ok(tags: Seq<TagV>) -> bool {
    forall|k: int| 0 <= k < tags.len() ==> !is_bad_endpoint(#[trigger] tags[k])
}

/// The endpoint template of a method: its tag's literal, or else its name.
pub open spec fn resolved_endpoint(m: MethodV) -> Seq<char> {
    match endpoint_in(m.tags) {
        Some(s) => s,
        None => m.sig.name,
    }
}

fn has_string_token_shape(tok: &str) -> (r: bool)
    ensures
        r == string_token_shape(tok@),
{
    let n = tok.unicode_len();
    if n == 0 {
        return false;
    }
    let c = tok.get_char(0);
    if c != '"' && c != 'r' {
        return false;
    }
    let mut i: usize = 0;
    while i < n
        invariant
            n == tok@.len(),
            i <= n,
            forall|j: int| 0 <= j < i ==> tok@[j] != '\r',
        decreases n - i,
    {
        if tok.get_char(i) == '\r' {
            return false;
        }
        i = i + 1;
    }
    true
}

fn first_string_literal(args: &Vec<TagArg>) -> (r: Option<String>)
    ensures
        match r {
            Some(s) => first_literal(args@.map_values(|a: TagArg| a@)) == Some(s@),
            None => first_literal(args@.map_values(|a: TagArg| a@)) is None,
        },
{
    let ghost all = args@.map_values(|a: TagArg| a@);
    let mut i: usize = 0;
    assert(all.skip(0) =~= all);
    while i < args.len()
        invariant
            all == args@.map_values(|a: TagArg| a@),
            i <= args.len(),
            first_literal(all) == first_literal(all.skip(i as int)),
        decreases args.len() - i,
    {
        let ghost rest = all.skip(i as int);
        assert(rest[0] == args@[i as int]@);
        assert(rest.skip(1) =~= all.skip(i + 1));
        match &args[i] {
            TagArg::Str(tok) => {
                if has_string_token_shape(tok.as_str()) {
                    let v = literal_value(tok.as_str());
                    if v.is_some() {
                        return v;
                    }
                }
            },
            TagArg::Other => {},
        }
        i = i + 1;
    }
    None
}

/// The template that one tag supplies, as `tag_literal` describes it.
fn tag_template(t: &Tag, keyword: &String) -> (r: Option<String>)
    requires
        keyword@ == "endpoint"@,
    ensures
        match r {
            Some(s) => tag_literal(t@) == Some(s@),
            None => tag_literal(t@) is None,
        },
{
    match &t.meta {
        Meta::List(p, args) => {
            if p.eq(keyword) {
                first_string_literal(args)
            } else {
                None
            }
        },
        _ => None,
    }
}

/// Whether a tag is named `endpoint`, in any form.
fn is_endpoint(t: &Tag, keyword: &String) -> (r: bool)
    requires
        keyword@ == "endpoint"@,
    ensures
        r == is_endpoint_tag(t@),
{
    match &t.meta {
        Meta::Word(p) => p.eq(keyword),
        Meta::List(p, _) => p.eq(keyword),
        Meta::NameValue(p) => p.eq(keyword),
        Meta::Unparsed => false,
    }
}

/// Checks that every tag named `endpoint` supplies a template: the literal
/// that the tag requires is never missing.
pub fn endpoint_tags_valid(tags: &Vec<Tag>) -> (r: bool)
    ensures
        r == endpoint_tags_ok(tags_view(tags@)),
{
    let ghost all = tags_view(tags@);
    let keyword = "endpoint".to_owned();
    let mut i: usize = 0;
    while i < tags.len()
        invariant
            all == tags_view(tags@),
            keyword@ == "endpoint"@,
            i <= tags.len(),
            forall|k: int| 0 <= k < i ==> !is_bad_endpoint(#[trigger] all[k]),
        decreases tags.len() - i,
    {
        assert(all[i as int] == tags@[i as int]@);
        if is_endpoint(&tags[i], &keyword) && tag_template(&tags[i], &keyword).is_none() {
            return false;
        }
        i = i + 1;
    }
    true
}

/// The endpoint template that a method's tags supply, if any: the value of
/// the first string literal inside the first `endpoint(...)` tag. Other tags,
/// such as `keep`, are passed over.
pub fn get_endpoint_attr(trait_item: &MethodDecl) -> (r: Option<String>)
    requires
        endpoint_tags_ok(trait_item@.tags),
    ensures
        match r {
            Some(s) => endpoint_in(trait_item@.tags) == Some(s@),
            None => endpoint_in(trait_item@.tags) is None,
        },
{
    let tags = &trait_item.tags;
    let ghost all = tags_view(tags@);
    let keyword = "endpoint".to_owned();
    let mut i: usize = 0;
    assert(all.skip(0) =~= all);
    while i < tags.len()
        invariant
            all == tags_view(tags@),
            all == trait_item@.tags,
            keyword@ == "endpoint"@,
            i <= tags.len(),
            endpoint_in(all) == endpoint_in(all.skip(i as int)),
        decreases tags.len() - i,
    {
        let ghost rest = all.skip(i as int);
        assert(rest[0] == tags@[i as int]@);
        assert(rest.skip(1) =~= all.skip(i + 1));
        let found = tag_template(&tags[i], &keyword);
        if found.is_some() {
            return found;
        }
        i = i + 1;
    }
    None
}

proof fn lemma_literal_tag_is_endpoint(t: TagV)
    ensures
        tag_literal(t) is Some ==> is_endpoint_tag(t),
{
}

proof fn lemma_no_literal(tags: Seq<TagV>)
    requires
        forall|k: int| 0 <= k < tags.len() ==> tag_literal(#[trigger] tags[k]) is None,
    ensures
        endpoint_in(tags) is None,
    decreases tags.len(),
{
    if tags.len() > 0 {
        assert(tag_literal(tags[0]) is None);
        let rest = tags.skip(1);
        assert forall|k: int| 0 <= k < rest.len() implies tag_literal(#[trigger] rest[k]) is None by {
            assert(rest[k] == tags[k + 1]);
        }
        lemma_no_literal(rest);
    }
}

/// A method with no tag named `endpoint` resolves to its own name.
pub proof fn lemma_untagged_resolves_to_name(m: MethodV)
    requires
        forall|k: int| 0 <= k < m.tags.len() ==> !is_endpoint_tag(#[trigger] m.tags[k]),
    ensures
        endpoint_tags_ok(m.tags),
        endpoint_in(m.tags) is None,
        resolved_endpoint(m) == m.sig.name,
{
    assert forall|k: int| 0 <= k < m.tags.len() implies tag_literal(#[trigger] m.tags[k]) is None by {
        lemma_literal_tag_is_endpoint(m.tags[k]);
    }
    lemma_no_literal(m.tags);
}

/// A method with an `endpoint(...)` tag whose first string literal has the
/// value `lit`, and no tag named `endpoint` before it, resolves to `lit`
/// verbatim, whatever its name and its parameters.
pub proof fn lemma_tagged_resolves_to_literal(m: MethodV, k: int, lit: Seq<char>)
    requires
        0 <= k < m.tags.len(),
        m.tags[k].meta matches MetaV::List(p, args) && p == "endpoint"@ && first_literal(args)
            == Some(lit),
        forall|j: int| 0 <= j < k ==> !is_endpoint_tag(#[trigger] m.tags[j]),
    ensures
        endpoint_in(m.tags) == Some(lit),
        resolved_endpoint(m) == lit,
{
    assert forall|j: int| 0 <= j < k implies tag_literal(#[trigger] m.tags[j]) is None by {
        lemma_literal_tag_is_endpoint(m.tags[j]);
    }
    lemma_first_supplier(m.tags, k, lit);
}

proof fn lemma_first_supplier(tags: Seq<TagV>, k: int, lit: Seq<char>)
    requires
        0 <= k < tags.len(),
        tag_literal(tags[k]) == Some(lit),
        forall|j: int| 0 <= j < k ==> tag_literal(#[trigger] tags[j]) is None,
    ensures
        endpoint_in(tags) == Some(lit),
    decreases tags.len(),
{
    if k > 0 {
        assert(tag_literal(tags[0]) is None);
        let rest = tags.skip(1);
        assert(rest[k - 1] == tags[k]);
        assert forall|j: int| 0 <= j < k - 1 implies tag_literal(#[trigger] rest[j]) is None by {
            assert(rest[j] == tags[j + 1]);
        }
        lemma_first_supplier(rest, k - 1, lit);
    }
}

/// Whether `b` holds the tags of `a` in another order: `p` sends each
/// position of `a` to its position in `b`, and `q` is its inverse.
pub open spec fn is_reordering(a: Seq<TagV>, b: Seq<TagV>, p: Seq<int>, q: Seq<int>) -> bool {
    &&& a.len() == b.len()
    &&& p.len() == a.len()
    &&& q.len() == b.len()
    &&& forall|i: int| 0 <= i < a.len() ==> 0 <= #[trigger] p[i] < b.len() && b[p[i]] == a[i]
        && q[p[i]] == i
    &&& forall|j: int| 0 <= j < b.len() ==> 0 <= #[trigger] q[j] < a.len() && a[q[j]] == b[j]
        && p[q[j]] == j
}

/// Whether at most one tag supplies a template.
pub open spec fn at_most_one_supplier(tags: Seq<TagV>) -> bool {
    forall|i: int, j: int|
        0 <= i < tags.len() && 0 <= j < tags.len() && (#[trigger] tag_literal(tags[i])) is Some
            && (#[trigger] tag_literal(tags[j])) is Some ==> i == j
}

/// Whether some tag supplies a template.
pub open spec fn has_supplier(tags: Seq<TagV>) -> bool {
    exists|k: int| 0 <= k < tags.len() && (#[trigger] tag_literal(tags[k])) is Some
}

proof fn lemma_resolution_of_one(tags: Seq<TagV>)
    requires
        at_most_one_supplier(tags),
    ensures
        endpoint_in(tags) == (if has_supplier(tags) {
            tag_literal(tags[choose|k: int| 0 <= k < tags.len() && (#[trigger] tag_literal(tags[k])) is Some])
        } else {
            None
        }),
{
    if has_supplier(tags) {
        let k = choose|k: int| 0 <= k < tags.len() && (#[trigger] tag_literal(tags[k])) is Some;
        assert forall|j: int| 0 <= j < k implies tag_literal(#[trigger] tags[j]) is None by {
            if tag_literal(tags[j]) is Some {
                assert(tag_literal(tags[k]) is Some);
            }
        }
        lemma_first_supplier(tags, k, tag_literal(tags[k])->Some_0);
    } else {
        assert forall|j: int| 0 <= j < tags.len() implies tag_literal(#[trigger] tags[j]) is None by {
            if tag_literal(tags[j]) is Some {
                assert(has_supplier(tags));
            }
        }
        lemma_no_literal(tags);
    }
}

/// The endpoint is found by the tag's name, not by its position: reordering
/// the tags of a method in which at most one tag supplies a template (for
/// instance, at most one `endpoint(...)` list) changes neither whether its
/// tags are accepted nor the endpoint it resolves to.
pub proof fn lemma_tag_order_irrelevant(m1: MethodV, m2: MethodV, p: Seq<int>, q: Seq<int>)
    requires
        m2.sig == m1.sig,
        is_reordering(m1.tags, m2.tags, p, q),
        at_most_one_supplier(m1.tags),
    ensures
        endpoint_tags_ok(m2.tags) == endpoint_tags_ok(m1.tags),
        endpoint_in(m2.tags) == endpoint_in(m1.tags),
        resolved_endpoint(m2) == resolved_endpoint(m1),
{
    let a = m1.tags;
    let b = m2.tags;
    assert(at_most_one_supplier(b)) by {
        assert forall|i: int, j: int|
            0 <= i < b.len() && 0 <= j < b.len() && (#[trigger] tag_literal(b[i])) is Some
                && (#[trigger] tag_literal(b[j])) is Some implies i == j by {
            assert(a[q[i]] == b[i]);
            assert(a[q[j]] == b[j]);
            assert(tag_literal(a[q[i]]) is Some);
            assert(tag_literal(a[q[j]]) is Some);
            assert(q[i] == q[j]);
            assert(p[q[i]] == i);
        }
    }
    if !endpoint_tags_ok(a) {
        let k = choose|k: int| 0 <= k < a.len() && is_bad_endpoint(#[trigger] a[k]);
        assert(b[p[k]] == a[k]);
    }
    if !endpoint_tags_ok(b) {
        let k = choose|k: int| 0 <= k < b.len() && is_bad_endpoint(#[trigger] b[k]);
        assert(a[q[k]] == b[k]);
    }
    lemma_resolution_of_one(a);
    lemma_resolution_of_one(b);
    if has_supplier(a) {
        let ka = choose|k: int| 0 <= k < a.len() && (#[trigger] tag_literal(a[k])) is Some;
        assert(b[p[ka]] == a[ka]);
        assert(tag_literal(b[p[ka]]) is Some);
        assert(has_supplier(b));
        let kb = choose|k: int| 0 <= k < b.len() && (#[trigger] tag_literal(b[k])) is Some;
        assert(kb == p[ka]);
    } else if has_supplier(b) {
        let kb = choose|k: int| 0 <= k < b.len() && (#[trigger] tag_literal(b[k])) is Some;
        assert(a[q[kb]] == b[kb]);
        assert(tag_literal(a[q[kb]]) is Some);
    }
}

/// A method tagged only with `keep` resolves to its own name, as an untagged
/// one does.
pub proof fn lemma_keep_resolves_to_name(m: MethodV)
    requires
        forall|k: int| 0 <= k < m.tags.len() ==> (#[trigger] m.tags[k]).meta == MetaV::Word("keep"@),
    ensures
        endpoint_in(m.tags) is None,
        resolved_endpoint(m) == m.sig.name,
{
    assert forall|k: int| 0 <= k < m.tags.len() implies !is_endpoint_tag(#[trigger] m.tags[k]) by {
        reveal_strlit("keep");
        reveal_strlit("endpoint");
        assert(m.tags[k].meta == MetaV::Word("keep"@));
        assert("keep"@[0] != "endpoint"@[0]);
    }
    lemma_untagged_resolves_to_name(m);
}

} // verus!
