//! Turning an interface into the description of a REST client.
use vstd::prelude::*;
use crate::endpoint::{endpoint_tags_ok, endpoint_tags_valid, get_endpoint_attr, resolved_endpoint};
use crate::error::{GenError, GenReason};
use crate::model::{
    Interface, InterfaceItem, InterfaceV, ItemV, MethodDecl, MethodV, Param, ParamV, Pattern,
    PatternV, Signature, SignatureV,
};
use crate::strip::{strip_interface, strip_signature, stripped_interface, stripped_signature};
use crate::template::{lemma_render_some_iff, placeholder_count, placeholders, render, strs};

verus! {

/// One client method: the method's name, its signature with every parameter
/// tag erased (it carries no method tag either), its endpoint template, and
/// the names of the parameters that fill the template's placeholders, in
/// order.
pub struct GeneratedMethod {
    pub name: String,
    pub sig: Signature,
    pub endpoint: String,
    pub args: Vec<String>,
}

/// The generated client: the interface with the generator's tags erased, the
/// name of the client type, and one method per interface method, in order.
pub struct GeneratedClient {
    pub interface: Interface,
    pub struct_name: String,
    pub methods: Vec<GeneratedMethod>,
}

pub struct GeneratedMethodV {
    pub name: Seq<char>,
    pub sig: SignatureV,
    pub endpoint: Seq<char>,
    pub args: Seq<Seq<char>>,
}

impl View for GeneratedMethod {
    type V = GeneratedMethodV;

    open spec fn view(&self) -> GeneratedMethodV {
        GeneratedMethodV { name: self.name@, sig: self.sig@, endpoint: self.endpoint@, args: strs(self.args@) }
    }
}

/// The views of a sequence of generated methods.
pub open spec fn methods_view(v: Seq<GeneratedMethod>) -> Seq<GeneratedMethodV> {
    v.map_values(|g: GeneratedMethod| g@)
}

/// The names of the parameters that are bound by a plain identifier, in
/// order; the receiver and other patterns are left out.
pub open spec fn arg_names(params: Seq<ParamV>) -> Seq<Seq<char>>
    decreases params.len(),
{
    if params.len() == 0 {
        Seq::empty()
    } else {
        let r = arg_names(params.drop_last());
        match params.last() {
            ParamV::Typed { tags: _, pat: PatternV::Ident(n) } => r.push(n),
            _ => r,
        }
    }
}

/// What the generator makes of one method.
pub open spec fn method_result(m: MethodV) -> Result<GeneratedMethodV, GenReason> {
    if !endpoint_tags_ok(m.tags) {
        Err(GenReason::MissingEndpointLiteral)
    } else {
        let ep = resolved_endpoint(m);
        let args = arg_names(m.sig.params);
        match placeholders(ep) {
            None => Err(GenReason::MalformedTemplate),
            Some(n) => if n == args.len() {
                Ok(GeneratedMethodV { name: m.sig.name, sig: stripped_signature(m.sig), endpoint: ep, args })
            } else {
                Err(
                    GenReason::ArityMismatch {
                        placeholders: n as usize,
                        params: args.len() as usize,
                    },
                )
            },
        }
    }
}

/// What the generator makes of one interface item.
pub open spec fn item_result(it: ItemV) -> Result<GeneratedMethodV, GenReason> {
    match it {
        ItemV::Method(m) => method_result(m),
        ItemV::Other(_) => Err(GenReason::NotAMethod),
    }
}

/// The client methods for a list of items, or the error of the first item,
/// in order, that cannot be turned into one.
pub open spec fn plan(items: Seq<ItemV>) -> Result<Seq<GeneratedMethodV>, GenError>
    decreases items.len(),
{
    if items.len() == 0 {
        Ok(Seq::empty())
    } else {
        match plan(items.drop_last()) {
            Err(e) => Err(e),
            Ok(ms) => match item_result(items.last()) {
                Err(r) => Err(GenError { index: (items.len() - 1) as usize, reason: r }),
                Ok(g) => Ok(ms.push(g)),
            },
        }
    }
}

/// The name of the client type made for an interface.
pub open spec fn client_name(name: Seq<char>) -> Seq<char> {
    name + "RestClient"@
}

fn arg_idents(params: &Vec<Param>) -> (r: Vec<String>)
    ensures
        strs(r@) == arg_names(params@.map_values(|p: Param| p@)),
{
    let ghost all = params@.map_values(|p: Param| p@);
    let mut out: Vec<String> = Vec::new();
    let mut i: usize = 0;
    while i < params.len()
        invariant
            all == params@.map_values(|p: Param| p@),
            i <= params.len(),
            strs(out@) == arg_names(all.take(i as int)),
        decreases params.len() - i,
    {
        assert(all.take(i + 1).drop_last() =~= all.take(i as int));
        match &params[i] {
            Param::Typed { tags: _, pat: Pattern::Ident(n) } => {
                out.push(n.clone());
                assert(strs(out@) =~= arg_names(all.take(i as int)).push(n@));
            },
            _ => {},
        }
        i = i + 1;
    }
    assert(all.take(i as int) =~= all);
    out
}

/// Builds the client method for one declaration: its signature is the
/// declaration's with every parameter tag erased; its endpoint is the literal
/// of its `endpoint` tag, or else its name. Every tag named `endpoint` must
/// hold a string literal, and the template must have exactly one placeholder
/// per named parameter.
pub fn get_impl_method(trait_item: &MethodDecl) -> (r: Result<GeneratedMethod, GenReason>)
    ensures
        match r {
            Ok(g) => {
                &&& method_result(trait_item@) == Ok::<GeneratedMethodV, GenReason>(g@)
                &&& g.sig@ == stripped_signature(trait_item@.sig)
            },
            Err(e) => method_result(trait_item@) == Err::<GeneratedMethodV, GenReason>(e),
        },
{
    if !endpoint_tags_valid(&trait_item.tags) {
        return Err(GenReason::MissingEndpointLiteral);
    }
    let endpoint = match get_endpoint_attr(trait_item) {
        Some(s) => s,
        None => trait_item.sig.name.clone(),
    };
    let args = arg_idents(&trait_item.sig.params);
    match placeholder_count(endpoint.as_str()) {
        None => Err(GenReason::MalformedTemplate),
        Some(n) => {
            if n == args.len() {
                let sig = strip_signature(&trait_item.sig);
                let g = GeneratedMethod { name: trait_item.sig.name.clone(), sig, endpoint, args };
                Ok(g)
            } else {
                Err(GenReason::ArityMismatch { placeholders: n, params: args.len() })
            }
        },
    }
}

/// Builds the client method for one interface item; an item that is not a
/// method is refused.
pub fn get_impl_item(trait_item: &InterfaceItem) -> (r: Result<GeneratedMethod, GenReason>)
    ensures
        match r {
            Ok(g) => item_result(trait_item@) == Ok::<GeneratedMethodV, GenReason>(g@),
            Err(e) => item_result(trait_item@) == Err::<GeneratedMethodV, GenReason>(e),
        },
{
    match trait_item {
        InterfaceItem::Method(m) => get_impl_method(m),
        InterfaceItem::Other(_) => Err(GenReason::NotAMethod),
    }
}

/// Generates the client for an interface: the stripped interface, the client
/// type's name (the interface's name followed by `RestClient`), and one
/// method per item. Fails with the first item, in order, that is not a method
/// or whose endpoint cannot be built.
pub fn api(input: Interface) -> (r: Result<GeneratedClient, GenError>)
    ensures
        match r {
            Ok(c) => {
                &&& plan(input@.items) == Ok::<Seq<GeneratedMethodV>, GenError>(
                    methods_view(c.methods@),
                )
                &&& c.interface@ == stripped_interface(input@)
                &&& c.struct_name@ == client_name(input@.name)
            },
            Err(e) => plan(input@.items) == Err::<Seq<GeneratedMethodV>, GenError>(e),
        },
{
    let ghost items = input@.items;
    let mut methods: Vec<GeneratedMethod> = Vec::new();
    let mut i: usize = 0;
    assert(methods_view(methods@) =~= Seq::<GeneratedMethodV>::empty());
    assert(items.take(0).len() == 0);
    while i < input.items.len()
        invariant
            items == input@.items,
            i <= input.items.len(),
            plan(items.take(i as int)) == Ok::<Seq<GeneratedMethodV>, GenError>(
                methods_view(methods@),
            ),
        decreases input.items.len() - i,
    {
        proof {
            let t = items.take(i + 1);
            assert(t.drop_last() =~= items.take(i as int));
            assert(t.last() == input.items@[i as int]@);
        }
        match get_impl_item(&input.items[i]) {
            Err(reason) => {
                proof {
                    lemma_plan_prefix_err(items, i + 1);
                }
                return Err(GenError { index: i, reason });
            },
            Ok(g) => {
                let ghost before = methods@;
                let ghost gv = g@;
                methods.push(g);
                assert(methods_view(methods@) =~= methods_view(before).push(gv));
            },
        }
        i = i + 1;
    }
    assert(items.take(i as int) =~= items);
    let struct_name = input.name.clone().concat("RestClient");
    let interface = strip_interface(input);
    Ok(GeneratedClient { interface, struct_name, methods })
}

proof fn lemma_plan_prefix_err(items: Seq<ItemV>, j: int)
    requires
        0 <= j <= items.len(),
        plan(items.take(j)) is Err,
    ensures
        plan(items) == plan(items.take(j)),
    decreases items.len() - j,
{
    if j == items.len() {
        assert(items.take(j) =~= items);
    } else {
        let t = items.take(j + 1);
        assert(t.drop_last() =~= items.take(j));
        lemma_plan_prefix_err(items, j + 1);
    }
}

proof fn lemma_plan_ok_all_items(items: Seq<ItemV>, k: int)
    requires
        plan(items) is Ok,
        0 <= k < items.len(),
    ensures
        item_result(items[k]) is Ok,
    decreases items.len(),
{
    if k < items.len() - 1 {
        assert(items.drop_last()[k] == items[k]);
        lemma_plan_ok_all_items(items.drop_last(), k);
    }
}

/// Generation never skips an item: an interface that holds an item other
/// than a method yields an error, never a client.
pub proof fn lemma_non_method_item_fails(i: InterfaceV, k: int)
    requires
        0 <= k < i.items.len(),
        i.items[k] is Other,
    ensures
        plan(i.items) is Err,
{
    if plan(i.items) is Ok {
        lemma_plan_ok_all_items(i.items, k);
    }
}

/// A generated method's template always renders when called with one value
/// per argument: arity is settled at generation time.
pub proof fn lemma_generated_method_renders(m: MethodV, values: Seq<Seq<char>>)
    requires
        method_result(m) is Ok,
        values.len() == method_result(m)->Ok_0.args.len(),
    ensures
        render(method_result(m)->Ok_0.endpoint, values) is Some,
{
    lemma_render_some_iff(method_result(m)->Ok_0.endpoint, values);
}

} // verus!
