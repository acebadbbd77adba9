//! The interface description that the generator reads, and its mathematical
//! view.
use vstd::prelude::*;

verus! {

/// An argument inside a list tag such as `endpoint("users/{}")`.
pub enum TagArg {
    /// A string literal, as written in the source: quotes and escapes
    /// included.
    Str(String),
    /// Any other argument: a path, a number, a nested list.
    Other,
}

/// The structure of a tag.
pub enum Meta {
    /// A bare name: `keep`.
    Word(String),
    /// A name with a parenthesised argument list: `endpoint("x")`.
    List(String, Vec<TagArg>),
    /// A name with a value: `doc = "..."`.
    NameValue(String),
    /// A tag whose arguments do not have the shape of a name with arguments.
    Unparsed,
}

/// A tag (attribute) attached to a declaration: its source text, kept so that
/// it can be written back unchanged, and its structure.
pub struct Tag {
    pub text: String,
    pub meta: Meta,
}

/// The pattern that binds a parameter.
pub enum Pattern {
    /// A plain identifier.
    Ident(String),
    /// A destructuring or wildcard pattern, which binds no single name.
    Other,
}

/// A parameter of a method.
pub enum Param {
    /// The receiver, `self` in one of its forms.
    Receiver { tags: Vec<Tag> },
    /// A parameter with a pattern and a type.
    Typed { tags: Vec<Tag>, pat: Pattern },
}

/// The signature of a method: its name and its parameters in order.
pub struct Signature {
    pub name: String,
    pub params: Vec<Param>,
}

/// A method declaration with the tags attached to it.
pub struct MethodDecl {
    pub tags: Vec<Tag>,
    pub sig: Signature,
}

/// An item of an interface body.
pub enum InterfaceItem {
    Method(MethodDecl),
    /// Anything that is not a method (a constant, an associated type, a
    /// macro invocation), with its source text.
    Other(String),
}

/// A named interface: its items in source order.
pub struct Interface {
    pub name: String,
    pub items: Vec<InterfaceItem>,
}

pub enum TagArgV {
    Str(Seq<char>),
    Other,
}

pub enum MetaV {
    Word(Seq<char>),
    List(Seq<char>, Seq<TagArgV>),
    NameValue(Seq<char>),
    Unparsed,
}

pub struct TagV {
    pub text: Seq<char>,
    pub meta: MetaV,
}

pub enum PatternV {
    Ident(Seq<char>),
    Other,
}

pub enum ParamV {
    Receiver { tags: Seq<TagV> },
    Typed { tags: Seq<TagV>, pat: PatternV },
}

pub struct SignatureV {
    pub name: Seq<char>,
    pub params: Seq<ParamV>,
}

pub struct MethodV {
    pub tags: Seq<TagV>,
    pub sig: SignatureV,
}

pub enum ItemV {
    Method(MethodV),
    Other(Seq<char>),
}

pub struct InterfaceV {
    pub name: Seq<char>,
    pub items: Seq<ItemV>,
}

impl View for TagArg {
    type V = TagArgV;

    open spec fn view(&self) -> TagArgV {
        match self {
            TagArg::Str(s) => TagArgV::Str(s@),
            TagArg::Other => TagArgV::Other,
        }
    }
}

impl View for Meta {
    type V = MetaV;

    open spec fn view(&self) -> MetaV {
        match self {
            Meta::Word(p) => MetaV::Word(p@),
            Meta::List(p, args) => MetaV::List(p@, args@.map_values(|a: TagArg| a@)),
            Meta::NameValue(p) => MetaV::NameValue(p@),
            Meta::Unparsed => MetaV::Unparsed,
        }
    }
}

impl View for Tag {
    type V = TagV;

    open spec fn view(&self) -> TagV {
        TagV { text: self.text@, meta: self.meta@ }
    }
}

/// The views of a sequence of tags.
pub open spec fn tags_view(v: Seq<Tag>) -> Seq<TagV> {
    v.map_values(|t: Tag| t@)
}

impl View for Pattern {
    type V = PatternV;

    open spec fn view(&self) -> PatternV {
        match self {
            Pattern::Ident(s) => PatternV::Ident(s@),
            Pattern::Other => PatternV::Other,
        }
    }
}

impl View for Param {
    type V = ParamV;

    open spec fn view(&self) -> ParamV {
        match self {
            Param::Receiver { tags } => ParamV::Receiver { tags: tags_view(tags@) },
            Param::Typed { tags, pat } => ParamV::Typed { tags: tags_view(tags@), pat: pat@ },
        }
    }
}

impl View for Signature {
    type V = SignatureV;

    open spec fn view(&self) -> SignatureV {
        SignatureV { name: self.name@, params: self.params@.map_values(|p: Param| p@) }
    }
}

impl View for MethodDecl {
    type V = MethodV;

    open spec fn view(&self) -> MethodV {
        MethodV { tags: tags_view(self.tags@), sig: self.sig@ }
    }
}

impl View for InterfaceItem {
    type V = ItemV;

    open spec fn view(&self) -> ItemV {
        match self {
            InterfaceItem::Method(m) => ItemV::Method(m@),
            InterfaceItem::Other(s) => ItemV::Other(s@),
        }
    }
}

impl View for Interface {
    type V = InterfaceV;

    open spec fn view(&self) -> InterfaceV {
        InterfaceV { name: self.name@, items: self.items@.map_values(|i: InterfaceItem| i@) }
    }
}

} // verus!
