//! The syntax-tree model that the attribute processor works on.
//!
//! The processor never sees source text itself: the embedding that hosts it
//! parses the annotated item and hands over plain values of the types below,
//! and turns the result back into source. A [`Span`] identifies a source
//! location, so that every failure can be pinned to the offending construct;
//! a [`Stmt`] stands for one source statement, opaque to the processor.

use vstd::prelude::*;

verus! {

/// Identifies a range of the annotated source. The embedding assigns the
/// identifiers; the processor only carries them into its diagnostics.
#[derive(Clone, Copy, PartialEq, Eq, Structural, Debug)]
pub struct Span {
    pub id: u64,
}

/// One statement of the annotated function's body. Its content is opaque to
/// the processor, which only moves statements around, never inspects them.
#[derive(Clone, Copy, PartialEq, Eq, Structural, Debug)]
pub struct Stmt {
    pub code: u64,
}

/// A literal standing on the right-hand side of an attribute argument.
/// Only the kinds the processor tells apart are distinguished; every other
/// literal kind is [`AttrLit::Other`].
#[derive(Clone, PartialEq, Eq, Debug)]
pub enum AttrLit {
    Bool { value: bool, span: Span },
    Int { value: u64, span: Span },
    Str { value: String, span: Span },
    Other { span: Span },
}

/// The mathematical value of an [`AttrLit`].
pub enum AttrLitView {
    Bool { value: bool, span: Span },
    Int { value: u64, span: Span },
    Str { value: Seq<char>, span: Span },
    Other { span: Span },
}

impl View for AttrLit {
    type V = AttrLitView;

    open spec fn view(&self) -> AttrLitView {
        match self {
            AttrLit::Bool { value, span } => AttrLitView::Bool { value: *value, span: *span },
            AttrLit::Int { value, span } => AttrLitView::Int { value: *value, span: *span },
            AttrLit::Str { value, span } => AttrLitView::Str { value: value@, span: *span },
            AttrLit::Other { span } => AttrLitView::Other { span: *span },
        }
    }
}

impl DeepView for AttrLit {
    type V = AttrLitView;

    open spec fn deep_view(&self) -> AttrLitView {
        self.view()
    }
}

/// The source location of a literal.
pub open spec fn lit_span(lit: AttrLitView) -> Span {
    match lit {
        AttrLitView::Bool { span, .. } => span,
        AttrLitView::Int { span, .. } => span,
        AttrLitView::Str { span, .. } => span,
        AttrLitView::Other { span } => span,
    }
}

/// One argument of the annotation's argument list.
///
/// The only supported form is `name = literal`; `name` is `None` when the
/// argument's path is not a single identifier. Every other argument form
/// (a bare path, a bare literal, a nested list) is [`AttrArg::Other`].
#[derive(Clone, PartialEq, Eq, Debug)]
pub enum AttrArg {
    NameValue { name: Option<String>, value: AttrLit, span: Span },
    Other { span: Span },
}

/// The mathematical value of an [`AttrArg`].
pub enum AttrArgView {
    NameValue { name: Option<Seq<char>>, value: AttrLitView, span: Span },
    Other { span: Span },
}

impl View for AttrArg {
    type V = AttrArgView;

    open spec fn view(&self) -> AttrArgView {
        match self {
            AttrArg::NameValue { name, value, span } => AttrArgView::NameValue {
                name: match name {
                    Option::Some(n) => Option::Some(n@),
                    Option::None => Option::None,
                },
                value: value@,
                span: *span,
            },
            AttrArg::Other { span } => AttrArgView::Other { span: *span },
        }
    }
}

impl DeepView for AttrArg {
    type V = AttrArgView;

    open spec fn deep_view(&self) -> AttrArgView {
        self.view()
    }
}

/// A failure of the attribute processor, each with the source location the
/// diagnostic is pinned to.
#[derive(Clone, PartialEq, Eq, Debug)]
pub enum MacroError {
    /// The annotated function lacks the asynchronous marker; the span is the
    /// function keyword's.
    MissingAsyncModifier { span: Span },
    /// An attribute argument is not a name-value pair.
    UnsupportedAttributeForm { span: Span },
    /// A name-value argument has no resolvable identifier.
    MissingArgumentName { span: Span },
    /// The argument's key is not `body_send`; the key is carried so the
    /// diagnostic can name it.
    UnknownAttributeKey { key: String, span: Span },
    /// The `body_send` value is not a boolean literal; the span is the
    /// literal's.
    NonBooleanValue { span: Span },
}

/// The mathematical value of a [`MacroError`].
pub enum MacroErrorView {
    MissingAsyncModifier { span: Span },
    UnsupportedAttributeForm { span: Span },
    MissingArgumentName { span: Span },
    UnknownAttributeKey { key: Seq<char>, span: Span },
    NonBooleanValue { span: Span },
}

impl View for MacroError {
    type V = MacroErrorView;

    open spec fn view(&self) -> MacroErrorView {
        match self {
            MacroError::MissingAsyncModifier { span } => MacroErrorView::MissingAsyncModifier {
                span: *span,
            },
            MacroError::UnsupportedAttributeForm { span } => (MacroErrorView::UnsupportedAttributeForm {
                span: *span,
            }),
            MacroError::MissingArgumentName { span } => MacroErrorView::MissingArgumentName {
                span: *span,
            },
            MacroError::UnknownAttributeKey { key, span } => MacroErrorView::UnknownAttributeKey {
                key: key@,
                span: *span,
            },
            MacroError::NonBooleanValue { span } => MacroErrorView::NonBooleanValue { span: *span },
        }
    }
}

impl DeepView for MacroError {
    type V = MacroErrorView;

    open spec fn deep_view(&self) -> MacroErrorView {
        self.view()
    }
}

impl MacroError {
    /// The diagnostic text shown for this failure.
    pub fn message(&self) -> (r: String)
        ensures
            r@ == match self@ {
                MacroErrorView::MissingAsyncModifier { .. } => "should add `async` keyword"@,
                MacroErrorView::UnsupportedAttributeForm { .. } => "unknown attribute"@,
                MacroErrorView::MissingArgumentName { .. } => "should have specified ident"@,
                MacroErrorView::UnknownAttributeKey { .. } => (
                "unknown attribute, expected is `body_send`"@),
                MacroErrorView::NonBooleanValue { .. } => "value should be true or false"@,
            },
    {
        match self {
            MacroError::MissingAsyncModifier { .. } => "should add `async` keyword".to_owned(),
            MacroError::UnsupportedAttributeForm { .. } => "unknown attribute".to_owned(),
            MacroError::MissingArgumentName { .. } => "should have specified ident".to_owned(),
            MacroError::UnknownAttributeKey { .. } => (
            "unknown attribute, expected is `body_send`".to_owned()),
            MacroError::NonBooleanValue { .. } => "value should be true or false".to_owned(),
        }
    }

    /// The source location the diagnostic is pinned to.
    pub fn span(&self) -> (r: Span)
        ensures
            r == error_span(self@),
    {
        match self {
            MacroError::MissingAsyncModifier { span } => *span,
            MacroError::UnsupportedAttributeForm { span } => *span,
            MacroError::MissingArgumentName { span } => *span,
            MacroError::UnknownAttributeKey { span, .. } => *span,
            MacroError::NonBooleanValue { span } => *span,
        }
    }
}

/// The source location a failure is pinned to.
pub open spec fn error_span(e: MacroErrorView) -> Span {
    match e {
        MacroErrorView::MissingAsyncModifier { span } => span,
        MacroErrorView::UnsupportedAttributeForm { span } => span,
        MacroErrorView::MissingArgumentName { span } => span,
        MacroErrorView::UnknownAttributeKey { span, .. } => span,
        MacroErrorView::NonBooleanValue { span } => span,
    }
}

/// A function body. As parsed it is [`FnBody::Source`]: the ordered statements
/// written in the source. After the rewrite it is [`FnBody::AdapterDrive`]:
/// a single synthetic statement that constructs the transferability adapter
/// around a deferred block holding exactly the carried statements and drives
/// that adapter to completion as the body's sole expression.
#[derive(Clone, PartialEq, Eq, Debug)]
pub enum FnBody {
    Source { stmts: Vec<Stmt> },
    AdapterDrive { stmts: Vec<Stmt> },
}

/// The mathematical value of an [`FnBody`].
pub enum FnBodyView {
    Source { stmts: Seq<Stmt> },
    AdapterDrive { stmts: Seq<Stmt> },
}

impl View for FnBody {
    type V = FnBodyView;

    open spec fn view(&self) -> FnBodyView {
        match self {
            FnBody::Source { stmts } => FnBodyView::Source { stmts: stmts@ },
            FnBody::AdapterDrive { stmts } => FnBodyView::AdapterDrive { stmts: stmts@ },
        }
    }
}

/// The statement sequence a body carries: the source statements as written,
/// or, after the rewrite, the statements the synthetic statement wraps.
pub open spec fn body_stmts(b: FnBodyView) -> Seq<Stmt> {
    match b {
        FnBodyView::Source { stmts } => stmts,
        FnBodyView::AdapterDrive { stmts } => stmts,
    }
}

/// How many statements stand directly in the body: each source statement
/// counts, while a rewritten body is the one synthetic statement.
pub open spec fn body_stmt_count(b: FnBodyView) -> nat {
    match b {
        FnBodyView::Source { stmts } => stmts.len(),
        FnBodyView::AdapterDrive { .. } => 1,
    }
}

/// The annotated function: the parts of its signature the processor reads
/// (the asynchronous marker, the function keyword's location) and its body.
/// Everything else in the signature - name, arguments, output type - is
/// opaque to the processor and carried unchanged in `sig_code`.
#[derive(Clone, PartialEq, Eq, Debug)]
pub struct FnDecl {
    pub is_async: bool,
    pub fn_span: Span,
    pub sig_code: u64,
    pub body: FnBody,
}

/// The mathematical value of an [`FnDecl`].
pub struct FnDeclView {
    pub is_async: bool,
    pub fn_span: Span,
    pub sig_code: u64,
    pub body: FnBodyView,
}

impl View for FnDecl {
    type V = FnDeclView;

    open spec fn view(&self) -> FnDeclView {
        FnDeclView {
            is_async: self.is_async,
            fn_span: self.fn_span,
            sig_code: self.sig_code,
            body: self.body@,
        }
    }
}

} // verus!
