//! The part of a record declaration that builder generation reads: type
//! expressions, attribute tokens, and the declaration itself.

use crate::model::views;
use vstd::prelude::*;
use vstd::string::StringExecFns;

verus! {

/// A type as it is written at a field.
#[derive(Debug, PartialEq, Eq)]
pub enum TypeExpr {
    /// A plain path such as `Option<String>` or `std::vec::Vec<u8>`;
    /// `global` says that it starts with `::`.
    Path { global: bool, segments: Vec<PathSegment> },
    /// Any other form of type (a reference, a tuple, a qualified path, ...),
    /// kept as written.
    Other { text: String },
}

/// One segment of a path: its name and what follows the name.
#[derive(Debug, PartialEq, Eq)]
pub struct PathSegment {
    pub name: String,
    pub arguments: PathArguments,
}

/// What follows the name of a path segment.
#[derive(Debug, PartialEq, Eq)]
pub enum PathArguments {
    /// Nothing, as in `String`.
    Bare,
    /// `<A, B, ...>`, as in `Vec<String>`.
    AngleBracketed { args: Vec<GenericArgument> },
    /// `(A, B) -> C`, as in `Fn(u8) -> u8`, kept as written.
    Parenthesized { text: String },
}

/// One argument between angle brackets.
#[derive(Debug, PartialEq, Eq)]
pub enum GenericArgument {
    /// A type.
    Type { ty: TypeExpr },
    /// A lifetime, a constant, a binding or a constraint, kept as written.
    Other { text: String },
}

/// The mathematical value of a [`TypeExpr`].
pub enum TypeView {
    Path { global: bool, segments: Seq<SegmentView> },
    Other { text: Seq<char> },
}

/// The mathematical value of a [`PathSegment`].
pub struct SegmentView {
    pub name: Seq<char>,
    pub arguments: ArgumentsView,
}

/// The mathematical value of a [`PathArguments`].
pub enum ArgumentsView {
    Bare,
    AngleBracketed { args: Seq<ArgumentView> },
    Parenthesized { text: Seq<char> },
}

/// The mathematical value of a [`GenericArgument`].
pub enum ArgumentView {
    Type { ty: TypeView },
    Other { text: Seq<char> },
}

impl View for TypeExpr {
    type V = TypeView;

    open spec fn view(&self) -> TypeView
        decreases self,
    {
        match self {
            TypeExpr::Path { global, segments } => TypeView::Path {
                global: *global,
                segments: Seq::new(
                    segments.len() as nat,
                    |i: int| if 0 <= i < segments.len() { segments[i]@ } else { arbitrary() },
                ),
            },
            TypeExpr::Other { text } => TypeView::Other { text: text@ },
        }
    }
}

impl View for PathSegment {
    type V = SegmentView;

    open spec fn view(&self) -> SegmentView
        decreases self,
    {
        SegmentView { name: self.name@, arguments: self.arguments@ }
    }
}

impl View for PathArguments {
    type V = ArgumentsView;

    open spec fn view(&self) -> ArgumentsView
        decreases self,
    {
        match self {
            PathArguments::Bare => ArgumentsView::Bare,
            PathArguments::AngleBracketed { args } => ArgumentsView::AngleBracketed {
                args: Seq::new(
                    args.len() as nat,
                    |i: int| if 0 <= i < args.len() { args[i]@ } else { arbitrary() },
                ),
            },
            PathArguments::Parenthesized { text } => ArgumentsView::Parenthesized { text: text@ },
        }
    }
}

impl View for GenericArgument {
    type V = ArgumentView;

    open spec fn view(&self) -> ArgumentView
        decreases self,
    {
        match self {
            GenericArgument::Type { ty } => ArgumentView::Type { ty: ty@ },
            GenericArgument::Other { text } => ArgumentView::Other { text: text@ },
        }
    }
}

impl Clone for TypeExpr {
    fn clone(&self) -> (copy: Self)
        ensures
            copy@ == self@,
        decreases self,
    {
        match self {
            TypeExpr::Path { global, segments } => {
                let mut copied: Vec<PathSegment> = Vec::new();
                let mut i: usize = 0;
                while i < segments.len()
                    invariant
                        self is Path,
                        self->segments == *segments,
                        i <= segments.len(),
                        copied.len() == i,
                        forall|j: int| 0 <= j < i ==> copied[j]@ == segments[j]@,
                    decreases segments.len() - i,
                {
                    copied.push(segments[i].clone());
                    i += 1;
                }
                let copy = TypeExpr::Path { global: *global, segments: copied };
                assert(copy@->segments =~= self@->segments);
                copy
            },
            TypeExpr::Other { text } => TypeExpr::Other { text: text.clone() },
        }
    }
}

impl Clone for PathSegment {
    fn clone(&self) -> (copy: Self)
        ensures
            copy@ == self@,
        decreases self,
    {
        PathSegment { name: self.name.clone(), arguments: self.arguments.clone() }
    }
}

impl Clone for PathArguments {
    fn clone(&self) -> (copy: Self)
        ensures
            copy@ == self@,
        decreases self,
    {
        match self {
            PathArguments::Bare => PathArguments::Bare,
            PathArguments::AngleBracketed { args } => {
                let mut copied: Vec<GenericArgument> = Vec::new();
                let mut i: usize = 0;
                while i < args.len()
                    invariant
                        self is AngleBracketed,
                        self->args == *args,
                        i <= args.len(),
                        copied.len() == i,
                        forall|j: int| 0 <= j < i ==> copied[j]@ == args[j]@,
                    decreases args.len() - i,
                {
                    copied.push(args[i].clone());
                    i += 1;
                }
                let copy = PathArguments::AngleBracketed { args: copied };
                assert(copy@->args =~= self@->args);
                copy
            },
            PathArguments::Parenthesized { text } => PathArguments::Parenthesized {
                text: text.clone(),
            },
        }
    }
}

impl Clone for GenericArgument {
    fn clone(&self) -> (copy: Self)
        ensures
            copy@ == self@,
        decreases self,
    {
        match self {
            GenericArgument::Type { ty } => GenericArgument::Type { ty: ty.clone() },
            GenericArgument::Other { text } => GenericArgument::Other { text: text.clone() },
        }
    }
}

/// A type as it is written: the segments of a path joined by `::`, the
/// arguments between angle brackets joined by `, `.
pub open spec fn type_text(ty: TypeView) -> Seq<char>
    decreases ty,
{
    match ty {
        TypeView::Other { text } => text,
        TypeView::Path { global, segments } => (if global {
            "::"@
        } else {
            Seq::empty()
        }) + segments_text(segments, segments.len()),
    }
}

/// The first `n` segments of a path, joined by `::`.
pub open spec fn segments_text(segments: Seq<SegmentView>, n: nat) -> Seq<char>
    decreases segments, n,
{
    if n == 0 || n > segments.len() {
        Seq::empty()
    } else if n == 1 {
        segment_text(segments[0])
    } else {
        segments_text(segments, (n - 1) as nat) + "::"@ + segment_text(segments[n - 1])
    }
}

/// A segment as it is written: its name and what follows the name.
pub open spec fn segment_text(segment: SegmentView) -> Seq<char>
    decreases segment,
{
    segment.name + match segment.arguments {
        ArgumentsView::Bare => Seq::empty(),
        ArgumentsView::Parenthesized { text } => text,
        ArgumentsView::AngleBracketed { args } => "<"@ + arguments_text(args, args.len()) + ">"@,
    }
}

/// The first `n` arguments between angle brackets, joined by `, `.
pub open spec fn arguments_text(args: Seq<ArgumentView>, n: nat) -> Seq<char>
    decreases args, n,
{
    if n == 0 || n > args.len() {
        Seq::empty()
    } else if n == 1 {
        argument_text(args[0])
    } else {
        arguments_text(args, (n - 1) as nat) + ", "@ + argument_text(args[n - 1])
    }
}

/// An argument as it is written.
pub open spec fn argument_text(argument: ArgumentView) -> Seq<char>
    decreases argument,
{
    match argument {
        ArgumentView::Type { ty } => type_text(ty),
        ArgumentView::Other { text } => text,
    }
}

impl TypeExpr {
    /// The type as it is written.
    pub fn to_text(&self) -> (text: String)
        ensures
            text@ == type_text(self@),
        decreases self,
    {
        match self {
            TypeExpr::Other { text } => text.clone(),
            TypeExpr::Path { global, segments } => {
                let mut text = if *global {
                    String::from_str("::")
                } else {
                    String::new()
                };
                let ghost start = text@;
                let mut i: usize = 0;
                while i < segments.len()
                    invariant
                        self is Path,
                        self->segments == *segments,
                        i <= segments.len(),
                        text@ == start + segments_text(self@->segments, i as nat),
                    decreases segments.len() - i,
                {
                    if i > 0 {
                        text.append("::");
                    }
                    let segment = segments[i].to_text();
                    text.append(segment.as_str());
                    i += 1;
                }
                text
            },
        }
    }
}

impl PathSegment {
    /// The segment as it is written.
    pub fn to_text(&self) -> (text: String)
        ensures
            text@ == segment_text(self@),
        decreases self,
    {
        let mut text = self.name.clone();
        match &self.arguments {
            PathArguments::Bare => {},
            PathArguments::Parenthesized { text: written } => {
                text.append(written.as_str());
            },
            PathArguments::AngleBracketed { args } => {
                let ghost start = text@ + "<"@;
                text.append("<");
                let mut i: usize = 0;
                while i < args.len()
                    invariant
                        self.arguments is AngleBracketed,
                        self.arguments->args == *args,
                        i <= args.len(),
                        text@ == start + arguments_text(self@.arguments->args, i as nat),
                    decreases args.len() - i,
                {
                    if i > 0 {
                        text.append(", ");
                    }
                    let argument = args[i].to_text();
                    text.append(argument.as_str());
                    i += 1;
                }
                text.append(">");
            },
        }
        text
    }
}

impl GenericArgument {
    /// The argument as it is written.
    pub fn to_text(&self) -> (text: String)
        ensures
            text@ == argument_text(self@),
        decreases self,
    {
        match self {
            GenericArgument::Type { ty } => ty.to_text(),
            GenericArgument::Other { text } => text.clone(),
        }
    }
}

/// The brackets around a group of tokens.
#[derive(Debug, PartialEq, Eq, Clone, Copy)]
pub enum Delimiter {
    /// `( ... )`
    Parenthesis,
    /// `{ ... }`
    Brace,
    /// `[ ... ]`
    Bracket,
    /// No brackets are written.
    Invisible,
}

/// One token of an attribute.
#[derive(Debug, PartialEq, Eq)]
pub enum Token {
    /// An identifier, as `each`.
    Ident { name: String },
    /// One character of punctuation, as `=`.
    Punct { ch: char },
    /// A string literal; `value` is what the literal denotes, without its
    /// quotes and with its escapes resolved.
    Str { value: String },
    /// Any other literal, kept as written.
    Other { text: String },
    /// Tokens between brackets.
    Group { delimiter: Delimiter, tokens: Vec<Token> },
}

/// The mathematical value of a [`Token`].
pub enum TokenView {
    Ident { name: Seq<char> },
    Punct { ch: char },
    Str { value: Seq<char> },
    Other { text: Seq<char> },
    Group { delimiter: Delimiter, tokens: Seq<TokenView> },
}

impl View for Token {
    type V = TokenView;

    open spec fn view(&self) -> TokenView
        decreases self,
    {
        match self {
            Token::Ident { name } => TokenView::Ident { name: name@ },
            Token::Punct { ch } => TokenView::Punct { ch: *ch },
            Token::Str { value } => TokenView::Str { value: value@ },
            Token::Other { text } => TokenView::Other { text: text@ },
            Token::Group { delimiter, tokens } => TokenView::Group {
                delimiter: *delimiter,
                tokens: group_views(*tokens),
            },
        }
    }
}

/// The views of the tokens of a group, in order.
pub open spec fn group_views(tokens: Vec<Token>) -> Seq<TokenView>
    decreases tokens,
{
    Seq::new(
        tokens.len() as nat,
        |i: int| if 0 <= i < tokens.len() { tokens[i]@ } else { arbitrary() },
    )
}

/// The view of a group holds the views of its tokens, in order.
pub proof fn lemma_group_view(group: Token)
    requires
        group is Group,
    ensures
        group@ is Group,
        group@->delimiter == group->delimiter,
        group@->tokens == views(group->tokens@),
{
    assert(group_views(group->tokens) =~= views(group->tokens@));
}

/// An attribute on a field: `#[path tokens]`, as `#[builder(each = "arg")]`.
#[derive(Debug, PartialEq, Eq)]
pub struct Attribute {
    /// The names of the segments of the attribute's path.
    pub path: Vec<String>,
    /// The tokens that follow the path.
    pub tokens: Vec<Token>,
}

/// The mathematical value of an [`Attribute`].
pub struct AttributeView {
    pub path: Seq<Seq<char>>,
    pub tokens: Seq<TokenView>,
}

impl View for Attribute {
    type V = AttributeView;

    open spec fn view(&self) -> AttributeView {
        AttributeView { path: views(self.path@), tokens: views(self.tokens@) }
    }
}

/// One named field of a record, as declared.
#[derive(Debug, PartialEq, Eq)]
pub struct FieldDecl {
    pub name: String,
    pub ty: TypeExpr,
    pub attributes: Vec<Attribute>,
}

/// The mathematical value of a [`FieldDecl`].
pub struct FieldDeclView {
    pub name: Seq<char>,
    pub ty: TypeView,
    pub attributes: Seq<AttributeView>,
}

impl View for FieldDecl {
    type V = FieldDeclView;

    open spec fn view(&self) -> FieldDeclView {
        FieldDeclView { name: self.name@, ty: self.ty@, attributes: views(self.attributes@) }
    }
}

/// The shape of a declared type.
#[derive(Debug, PartialEq, Eq)]
pub enum Body {
    /// A record with named fields, in declaration order.
    Named { fields: Vec<FieldDecl> },
    /// A record with unnamed fields, as `struct P(u8, u8);`.
    Tuple,
    /// A record without fields, as `struct U;`.
    Unit,
    /// An enumeration.
    Enum,
    /// A union.
    Union,
}

/// The mathematical value of a [`Body`].
pub enum BodyView {
    Named { fields: Seq<FieldDeclView> },
    Tuple,
    Unit,
    Enum,
    Union,
}

impl View for Body {
    type V = BodyView;

    open spec fn view(&self) -> BodyView {
        match self {
            Body::Named { fields } => BodyView::Named { fields: views(fields@) },
            Body::Tuple => BodyView::Tuple,
            Body::Unit => BodyView::Unit,
            Body::Enum => BodyView::Enum,
            Body::Union => BodyView::Union,
        }
    }
}

/// The declaration of a target type: its name and its shape.
#[derive(Debug, PartialEq, Eq)]
pub struct Declaration {
    pub name: String,
    pub body: Body,
}

/// The mathematical value of a [`Declaration`].
pub struct DeclarationView {
    pub name: Seq<char>,
    pub body: BodyView,
}

impl View for Declaration {
    type V = DeclarationView;

    open spec fn view(&self) -> DeclarationView {
        DeclarationView { name: self.name@, body: self.body@ }
    }
}

} // verus!
