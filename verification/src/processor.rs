//! The attribute processor: validates the annotation's arguments against the
//! annotated function and, when `body_send = true` is resolved, rewrites the
//! function body to run inside the transferability adapter.
//!
//! Processing is fail-fast: the configuration takes one argument at a time
//! and the first invalid argument aborts the whole rewrite, so the output is
//! either the fully rewritten function, the untouched function, or a single
//! diagnostic.

use vstd::prelude::*;

use crate::ast::AttrArg;
use crate::ast::AttrArgView;
use crate::ast::AttrLit;
use crate::ast::AttrLitView;
use crate::ast::FnBody;
use crate::ast::FnBodyView;
use crate::ast::FnDecl;
use crate::ast::FnDeclView;
use crate::ast::MacroError;
use crate::ast::MacroErrorView;
use crate::ast::body_stmt_count;
use crate::ast::body_stmts;
use crate::ast::lit_span;

verus! {

/// The code of `c`, with an ASCII capital letter folded to its small form.
/// Letters outside ASCII are left as they are: an attribute key is matched
/// case-insensitively over the ASCII range only.
pub open spec fn lower_code(c: char) -> u32 {
    if 'A' as u32 <= c as u32 && c as u32 <= 'Z' as u32 {
        (c as u32 + 32) as u32
    } else {
        c as u32
    }
}

/// Character-for-character equality up to ASCII case.
pub open spec fn eq_ascii_nocase(a: Seq<char>, b: Seq<char>) -> bool {
    &&& a.len() == b.len()
    &&& forall|i: int| 0 <= i < a.len() ==> lower_code(a[i]) == lower_code(b[i])
}

/// Whether `name` is the one recognized attribute key, matched
/// case-insensitively.
pub open spec fn is_body_send_key(name: Seq<char>) -> bool {
    eq_ascii_nocase(name, "body_send"@)
}

fn lower_code_exec(c: char) -> (r: u32)
    ensures
        r == lower_code(c),
{
    let u = c as u32;
    if 'A' as u32 <= u && u <= 'Z' as u32 {
        u + 32
    } else {
        u
    }
}

/// Compares two strings character for character up to ASCII case.
pub fn eq_ignore_ascii_case_str(a: &str, b: &str) -> (r: bool)
    ensures
        r == eq_ascii_nocase(a@, b@),
{
    let a_len = a.unicode_len();
    let b_len = b.unicode_len();
    if a_len != b_len {
        return false;
    }
    let mut i: usize = 0;
    while i < a_len
        invariant
            i <= a_len,
            a_len == a@.len(),
            b_len == b@.len(),
            a@.len() == b@.len(),
            forall|j: int| 0 <= j < i ==> lower_code(a@[j]) == lower_code(b@[j]),
        decreases a_len - i,
    {
        let ca = a.get_char(i);
        let cb = b.get_char(i);
        if lower_code_exec(ca) != lower_code_exec(cb) {
            return false;
        }
        i = i + 1;
    }
    true
}

/// What processing one argument does to the resolved flag: the new flag on
/// success, or the first diagnostic the argument earns.
///
/// An argument that is not a name-value pair is unsupported; a pair without
/// an identifier has no name to recognize; a recognized `body_send` key
/// demands a boolean literal and overwrites the flag with it; any other key
/// is unknown and the diagnostic names it.
pub open spec fn build_step(send: bool, arg: AttrArgView) -> Result<bool, MacroErrorView> {
    match arg {
        AttrArgView::Other { span } => Err(MacroErrorView::UnsupportedAttributeForm { span }),
        AttrArgView::NameValue { name, value, span } => match name {
            Option::None => Err(MacroErrorView::MissingArgumentName { span }),
            Option::Some(key) => if is_body_send_key(key) {
                match value {
                    AttrLitView::Bool { value: b, .. } => Ok(b),
                    _ => Err(MacroErrorView::NonBooleanValue { span: lit_span(value) }),
                }
            } else {
                Err(MacroErrorView::UnknownAttributeKey { key, span })
            },
        },
    }
}

/// The flag that processing the whole argument list resolves, starting from
/// `send`: arguments are folded in order and the first invalid one aborts
/// with its diagnostic.
pub open spec fn resolve_config(send: bool, args: Seq<AttrArgView>) -> Result<
    bool,
    MacroErrorView,
>
    decreases args.len(),
{
    if args.len() == 0 {
        Ok(send)
    } else {
        match build_step(send, args[0]) {
            Ok(s) => resolve_config(s, args.drop_first()),
            Err(e) => Err(e),
        }
    }
}

/// The rewritten declaration: the signature untouched, the body replaced by
/// the single synthetic statement that drives the adapter around the original
/// statement sequence.
pub open spec fn rewrite_spec(f: FnDeclView) -> FnDeclView {
    FnDeclView {
        is_async: f.is_async,
        fn_span: f.fn_span,
        sig_code: f.sig_code,
        body: FnBodyView::AdapterDrive { stmts: body_stmts(f.body) },
    }
}

/// What the whole annotation does: reject a function without the
/// asynchronous marker at its function keyword, then resolve the flag from
/// the arguments (default false), and rewrite the body only when the flag
/// resolved true.
pub open spec fn process_spec(args: Seq<AttrArgView>, input: FnDeclView) -> Result<
    FnDeclView,
    MacroErrorView,
> {
    if !input.is_async {
        Err(MacroErrorView::MissingAsyncModifier { span: input.fn_span })
    } else {
        match resolve_config(false, args) {
            Err(e) => Err(e),
            Ok(send) => if send {
                Ok(rewrite_spec(input))
            } else {
                Ok(input)
            },
        }
    }
}

/// Extracts the boolean out of a literal; any other literal kind earns a
/// `NonBooleanValue` diagnostic pinned to the literal.
pub fn parse_bool(val: &AttrLit) -> (r: Result<bool, MacroError>)
    ensures
        match r {
            Ok(b) => val@ matches AttrLitView::Bool { value, .. } && b == value,
            Err(e) => !(val@ is Bool) && e@ == (MacroErrorView::NonBooleanValue {
                span: lit_span(val@),
            }),
        },
{
    match val {
        AttrLit::Bool { value, .. } => Ok(*value),
        AttrLit::Int { span, .. } => Err(MacroError::NonBooleanValue { span: *span }),
        AttrLit::Str { span, .. } => Err(MacroError::NonBooleanValue { span: *span }),
        AttrLit::Other { span } => Err(MacroError::NonBooleanValue { span: *span }),
    }
}

/// The resolved configuration of one annotation: the flag that decides
/// whether the body is rewritten. Built fresh for each annotated function,
/// one argument at a time.
pub struct Config {
    pub send: bool,
}

impl Config {
    /// The default configuration: the body is left as written.
    pub fn new() -> (c: Config)
        ensures
            c.send == false,
    {
        Config { send: false }
    }

    /// Folds one argument into the configuration, exactly as [`build_step`]
    /// says: on failure the configuration is left untouched and the
    /// diagnostic is the step's.
    pub fn build(&mut self, arg: &AttrArg) -> (r: Result<(), MacroError>)
        ensures
            match r {
                Ok(_) => build_step(old(self).send, arg@) == Ok::<bool, MacroErrorView>(
                    final(self).send,
                ),
                Err(e) => build_step(old(self).send, arg@) == Err::<bool, MacroErrorView>(e@)
                    && final(self).send == old(self).send,
            },
    {
        match arg {
            AttrArg::NameValue { name, value, span } => match name {
                Option::None => Err(MacroError::MissingArgumentName { span: *span }),
                Option::Some(key) => {
                    if eq_ignore_ascii_case_str(key.as_str(), "body_send") {
                        match parse_bool(value) {
                            Ok(b) => {
                                self.send = b;
                                Ok(())
                            },
                            Err(e) => Err(e),
                        }
                    } else {
                        Err(MacroError::UnknownAttributeKey { key: key.clone(), span: *span })
                    }
                },
            },
            AttrArg::Other { span } => Err(MacroError::UnsupportedAttributeForm { span: *span }),
        }
    }
}

/// Replaces the body with the single synthetic statement that constructs the
/// transferability adapter around a deferred block holding exactly the
/// original statement sequence and drives it to completion; the signature is
/// left untouched.
pub fn send_future(input: &mut FnDecl)
    ensures
        final(input)@ == rewrite_spec(old(input)@),
        final(input).body@ matches FnBodyView::AdapterDrive { stmts } && stmts == body_stmts(
            old(input).body@,
        ),
        body_stmt_count(final(input).body@) == 1,
{
    let mut body = FnBody::Source { stmts: Vec::new() };
    core::mem::swap(&mut body, &mut input.body);
    let stmts = match body {
        FnBody::Source { stmts } => stmts,
        FnBody::AdapterDrive { stmts } => stmts,
    };
    input.body = FnBody::AdapterDrive { stmts };
}

/// The annotation's entry point: validates that `input` is asynchronous,
/// resolves the configuration from `args` fail-fast, and returns the input
/// untouched, the rewritten declaration, or the first diagnostic - exactly
/// what [`process_spec`] says.
pub fn future(args: &Vec<AttrArg>, input: FnDecl) -> (r: Result<FnDecl, MacroError>)
    ensures
        match r {
            Ok(out) => process_spec(args.deep_view(), input@) == Ok::<FnDeclView, MacroErrorView>(
                out@,
            ),
            Err(e) => process_spec(args.deep_view(), input@) == Err::<FnDeclView, MacroErrorView>(
                e@,
            ),
        },
        // A function without the asynchronous marker is rejected at its
        // function keyword, whatever the arguments hold.
        !input.is_async ==> (r matches Err(e) && e@ == (MacroErrorView::MissingAsyncModifier {
            span: input.fn_span,
        })),
        // With no arguments the declaration passes through untouched.
        input.is_async && args@.len() == 0 ==> (r matches Ok(out) && out@ == input@),
        // When the flag resolves true, the output is the rewrite: the same
        // signature around the one synthetic adapter statement.
        input.is_async && resolve_config(false, args.deep_view()) == Ok::<bool, MacroErrorView>(
            true,
        ) ==> (r matches Ok(out) && out@ == rewrite_spec(input@)),
        // When the flag resolves false, the output is the input, statement
        // for statement.
        input.is_async && resolve_config(false, args.deep_view()) == Ok::<bool, MacroErrorView>(
            false,
        ) ==> (r matches Ok(out) && out@ == input@),
{
    if !input.is_async {
        return Err(MacroError::MissingAsyncModifier { span: input.fn_span });
    }
    let mut conf = Config::new();
    let mut i: usize = 0;
    proof {
        assert(args.deep_view().skip(0) =~= args.deep_view());
    }
    while i < args.len()
        invariant
            i <= args.len(),
            input.is_async,
            resolve_config(false, args.deep_view()) == resolve_config(
                conf.send,
                args.deep_view().skip(i as int),
            ),
        decreases args.len() - i,
    {
        let ghost pre = conf.send;
        let ghost dv = args.deep_view();
        let step = conf.build(&args[i]);
        proof {
            assert(dv.skip(i as int)[0] == dv[i as int]);
            assert(dv[i as int] == args@[i as int].deep_view());
            assert(dv.skip(i as int).drop_first() =~= dv.skip(i as int + 1));
        }
        match step {
            Ok(_) => {
                proof {
                    assert(resolve_config(pre, dv.skip(i as int)) == resolve_config(
                        conf.send,
                        dv.skip(i as int + 1),
                    ));
                }
            },
            Err(e) => {
                proof {
                    assert(resolve_config(pre, dv.skip(i as int)) == Err::<
                        bool,
                        MacroErrorView,
                    >(e@));
                }
                return Err(e);
            },
        }
        i = i + 1;
    }
    proof {
        assert(args.deep_view().skip(i as int).len() == 0);
    }
    let mut input = input;
    if conf.send {
        send_future(&mut input);
        Ok(input)
    } else {
        Ok(input)
    }
}

} // verus!
