//! The build-time code generator: a source-to-source transform over one
//! static declaration `[attributes] [visibility] name: Type = Initializer;`.
//! Every top-level text literal of the initializer is rewritten into a
//! nul-terminated byte-string literal; everything else — attributes, member
//! names, order, count, the declaration's visibility, name and type — is
//! forwarded unchanged and in original position.

use crate::plugin::{first_nul_at, NulError};
use vstd::prelude::*;

verus! {

/// One top-level field or argument of the initializer, as the transform sees
/// it: a plain text literal (the rewrite target), a byte-string literal (the
/// rewrite result), or any other expression, carried verbatim.
#[derive(Debug)]
#[verifier::ext_equal]
pub enum Value {
    Text(Vec<u8>),
    Bytes(Vec<u8>),
    Verbatim(String),
}

/// One named field of a struct-literal initializer, with its own attributes.
#[derive(Debug)]
#[verifier::ext_equal]
pub struct FieldInit {
    pub attrs: Vec<String>,
    pub member: String,
    pub value: Value,
}

/// One positional argument of a call-expression initializer, with its own
/// attributes.
#[derive(Debug)]
#[verifier::ext_equal]
pub struct ArgInit {
    pub attrs: Vec<String>,
    pub value: Value,
}

/// The initializer of the declaration. Exactly two shapes are supported: a
/// named-field struct literal and a positional call expression naming a
/// constructor path. Anything else is carried as `Other` and rejected.
#[derive(Debug)]
#[verifier::ext_equal]
pub enum Initializer {
    StructLit { path: String, fields: Vec<FieldInit> },
    Call { path: String, args: Vec<ArgInit> },
    Other { tokens: String },
}

/// A parsed static declaration: attributes, visibility, name, type and
/// initializer, each kept in original position by the transform.
#[derive(Debug)]
#[verifier::ext_equal]
pub struct Parser {
    pub attrs: Vec<String>,
    pub vis: String,
    pub ident: String,
    pub ty: String,
    pub init: Initializer,
}

/// Why the transform failed: the initializer has neither supported shape, or
/// a text literal (at top-level position `field`) embeds a nul byte.
#[derive(Clone, Copy, Debug, PartialEq, Eq, Structural)]
pub enum CodeGenError {
    UnsupportedShape,
    InteriorNul { field: usize, nul: NulError },
}

/// The value is a text literal with an embedded nul byte.
pub open spec fn value_has_nul(v: Value) -> bool {
    match v {
        Value::Text(t) => t@.contains(0u8),
        _ => false,
    }
}

/// `w` is the rewrite of `v`: a text literal becomes the same bytes plus one
/// terminating nul, everything else is forwarded unchanged.
pub open spec fn value_rewritten(v: Value, w: Value) -> bool {
    match v {
        Value::Text(t) => w matches Value::Bytes(b) && b@ == t@.push(0u8),
        _ => w == v,
    }
}

/// No field's value embeds a nul byte.
pub open spec fn fields_ok(fs: Seq<FieldInit>) -> bool {
    forall|i: int| 0 <= i < fs.len() ==> !value_has_nul(#[trigger] fs[i].value)
}

/// `g` is the rewrite of field `f`: attributes and member name unchanged,
/// value rewritten.
pub open spec fn field_rewritten(f: FieldInit, g: FieldInit) -> bool {
    &&& g.attrs == f.attrs
    &&& g.member == f.member
    &&& value_rewritten(f.value, g.value)
}

/// `gs` rewrites `fs` field for field, keeping order and count.
pub open spec fn fields_rewritten(fs: Seq<FieldInit>, gs: Seq<FieldInit>) -> bool {
    &&& gs.len() == fs.len()
    &&& forall|i: int| 0 <= i < fs.len() ==> field_rewritten(#[trigger] fs[i], gs[i])
}

/// Field `k` is the first whose value embeds a nul byte.
pub open spec fn first_bad_field(fs: Seq<FieldInit>, k: int) -> bool {
    &&& 0 <= k < fs.len()
    &&& value_has_nul(fs[k].value)
    &&& forall|j: int| 0 <= j < k ==> !value_has_nul(#[trigger] fs[j].value)
}

/// No argument's value embeds a nul byte.
pub open spec fn args_ok(args: Seq<ArgInit>) -> bool {
    forall|i: int| 0 <= i < args.len() ==> !value_has_nul(#[trigger] args[i].value)
}

/// `b` is the rewrite of argument `a`: attributes unchanged, value rewritten.
pub open spec fn arg_rewritten(a: ArgInit, b: ArgInit) -> bool {
    &&& b.attrs == a.attrs
    &&& value_rewritten(a.value, b.value)
}

/// `bs` rewrites `args` argument for argument, keeping order and count.
pub open spec fn args_rewritten(args: Seq<ArgInit>, bs: Seq<ArgInit>) -> bool {
    &&& bs.len() == args.len()
    &&& forall|i: int| 0 <= i < args.len() ==> arg_rewritten(#[trigger] args[i], bs[i])
}

/// Argument `k` is the first whose value embeds a nul byte.
pub open spec fn first_bad_arg(args: Seq<ArgInit>, k: int) -> bool {
    &&& 0 <= k < args.len()
    &&& value_has_nul(args[k].value)
    &&& forall|j: int| 0 <= j < k ==> !value_has_nul(#[trigger] args[j].value)
}

/// The initializer has a supported shape and no text literal embeds a nul
/// byte: exactly the inputs the transform accepts.
pub open spec fn init_ok(init: Initializer) -> bool {
    match init {
        Initializer::StructLit { fields, .. } => fields_ok(fields@),
        Initializer::Call { args, .. } => args_ok(args@),
        Initializer::Other { .. } => false,
    }
}

/// `b` is the rewrite of initializer `a`: same shape, same constructor path,
/// fields or arguments rewritten in place.
pub open spec fn init_rewritten(a: Initializer, b: Initializer) -> bool {
    match (a, b) {
        (
            Initializer::StructLit { path: p, fields: fs },
            Initializer::StructLit { path: q, fields: gs },
        ) => q == p && fields_rewritten(fs@, gs@),
        (Initializer::Call { path: p, args }, Initializer::Call { path: q, args: bs }) => q == p
            && args_rewritten(args@, bs@),
        _ => false,
    }
}

/// The text literal at top-level position `k` of the initializer embeds its
/// first nul byte at `position`.
pub open spec fn init_nul_at(init: Initializer, k: int, position: int) -> bool {
    match init {
        Initializer::StructLit { fields, .. } => {
            &&& first_bad_field(fields@, k)
            &&& fields@[k].value matches Value::Text(t) && first_nul_at(t@, position)
        },
        Initializer::Call { args, .. } => {
            &&& first_bad_arg(args@, k)
            &&& args@[k].value matches Value::Text(t) && first_nul_at(t@, position)
        },
        Initializer::Other { .. } => false,
    }
}

/// Rewrite one whole declaration. Accepts exactly the two supported
/// initializer shapes; rewrites every top-level text literal into a
/// nul-terminated byte string; fails — rather than truncating or encoding —
/// on an embedded nul byte, naming the offending position; forwards the
/// declaration's attributes, visibility, name, type, the constructor path,
/// and every non-text field unchanged and in order.
pub fn struct_c(decl: Parser) -> (r: Result<Parser, CodeGenError>)
    ensures
        match r {
            Ok(out) => {
                &&& init_ok(decl.init)
                &&& out.attrs == decl.attrs
                &&& out.vis == decl.vis
                &&& out.ident == decl.ident
                &&& out.ty == decl.ty
                &&& init_rewritten(decl.init, out.init)
            },
            Err(CodeGenError::UnsupportedShape) => decl.init is Other,
            Err(CodeGenError::InteriorNul { field, nul }) => init_nul_at(
                decl.init,
                field as int,
                nul.position as int,
            ),
        },
{
    let Parser { attrs, vis, ident, ty, init } = decl;
    let init = match init {
        Initializer::StructLit { path, fields } => {
            match crate::struct_literal::handler(fields) {
                Ok(fields) => Initializer::StructLit { path, fields },
                Err(e) => {
                    return Err(e);
                },
            }
        },
        Initializer::Call { path, args } => {
            match crate::func_struct::handler(args) {
                Ok(args) => Initializer::Call { path, args },
                Err(e) => {
                    return Err(e);
                },
            }
        },
        Initializer::Other { .. } => {
            return Err(CodeGenError::UnsupportedShape);
        },
    };
    Ok(Parser { attrs, vis, ident, ty, init })
}

/// The top-level values of an initializer, in order; the shapes carry them
/// in fields and in arguments respectively.
pub open spec fn init_values(init: Initializer) -> Seq<Value> {
    match init {
        Initializer::StructLit { fields, .. } => fields@.map_values(|f: FieldInit| f.value),
        Initializer::Call { args, .. } => args@.map_values(|a: ArgInit| a.value),
        Initializer::Other { .. } => Seq::empty(),
    }
}

/// Same shape, same constructor path, and the very same sequence of fields
/// or arguments: what a structural no-op leaves behind.
pub open spec fn init_preserved(a: Initializer, b: Initializer) -> bool {
    match (a, b) {
        (
            Initializer::StructLit { path: p, fields: fs },
            Initializer::StructLit { path: q, fields: gs },
        ) => q == p && gs@ == fs@,
        (Initializer::Call { path: p, args }, Initializer::Call { path: q, args: bs }) => q == p
            && bs@ == args@,
        _ => false,
    }
}

/// Structural no-op: rewriting an initializer with zero text-literal fields
/// preserves attribute positions, member names, values, order and count
/// exactly.
pub proof fn lemma_no_text_noop(a: Initializer, b: Initializer)
    requires
        init_rewritten(a, b),
        forall|i: int|
            0 <= i < init_values(a).len() ==> !(#[trigger] init_values(a)[i] is Text),
    ensures
        init_preserved(a, b),
{
    match (a, b) {
        (
            Initializer::StructLit { path: p, fields: fs },
            Initializer::StructLit { path: q, fields: gs },
        ) => {
            assert forall|i: int| 0 <= i < fs@.len() implies #[trigger] gs@[i] == fs@[i] by {
                assert(init_values(a)[i] == fs@[i].value);
                assert(field_rewritten(fs@[i], gs@[i]));
                assert(gs@[i] =~= fs@[i]);
            }
            assert(gs@ =~= fs@);
        },
        (Initializer::Call { path: p, args }, Initializer::Call { path: q, args: bs }) => {
            assert forall|i: int| 0 <= i < args@.len() implies #[trigger] bs@[i] == args@[i] by {
                assert(init_values(a)[i] == args@[i].value);
                assert(arg_rewritten(args@[i], bs@[i]));
                assert(bs@[i] =~= args@[i]);
            }
            assert(bs@ =~= args@);
        },
        _ => {},
    }
}

/// The two values carry the same content: same kind of expression, same
/// bytes or tokens.
pub open spec fn value_like(v: Value, w: Value) -> bool {
    match (v, w) {
        (Value::Text(a), Value::Text(b)) => a@ == b@,
        (Value::Bytes(a), Value::Bytes(b)) => a@ == b@,
        (Value::Verbatim(a), Value::Verbatim(b)) => a@ == b@,
        _ => false,
    }
}

/// The two value sequences carry the same content, position for position.
pub open spec fn values_like(vs: Seq<Value>, ws: Seq<Value>) -> bool {
    &&& ws.len() == vs.len()
    &&& forall|i: int| 0 <= i < vs.len() ==> value_like(#[trigger] vs[i], ws[i])
}

/// Shape independence: a struct literal and a call expression carrying
/// equivalent content are accepted together and rewritten to equivalent
/// content.
pub proof fn lemma_shapes_agree(a: Initializer, b: Initializer, a2: Initializer, b2: Initializer)
    requires
        a is StructLit,
        b is Call,
        values_like(init_values(a), init_values(b)),
        init_rewritten(a, a2),
        init_rewritten(b, b2),
    ensures
        init_ok(a) <==> init_ok(b),
        values_like(init_values(a2), init_values(b2)),
{
    let va = init_values(a);
    let fs = a->StructLit_fields;
    let args = b->Call_args;
    assert(va.len() == fs@.len());
    assert(init_values(b).len() == args@.len());
    assert forall|i: int|
        #![trigger fs@[i].value]
        #![trigger args@[i].value]
        0 <= i < fs@.len() implies (value_has_nul(fs@[i].value) <==> value_has_nul(
        args@[i].value,
    )) by {
        assert(init_values(a)[i] == fs@[i].value);
        assert(init_values(b)[i] == args@[i].value);
        assert(value_like(fs@[i].value, args@[i].value));
    }
    assert(fields_ok(fs@) <==> args_ok(args@));
    let gs = a2->StructLit_fields;
    let bs = b2->Call_args;
    assert forall|i: int| 0 <= i < va.len() implies value_like(
        #[trigger] init_values(a2)[i],
        init_values(b2)[i],
    ) by {
        assert(init_values(a)[i] == fs@[i].value);
        assert(init_values(b)[i] == args@[i].value);
        assert(value_like(fs@[i].value, args@[i].value));
        assert(field_rewritten(fs@[i], gs@[i]));
        assert(arg_rewritten(args@[i], bs@[i]));
        assert(init_values(a2)[i] == gs@[i].value);
        assert(init_values(b2)[i] == bs@[i].value);
    }
}

} // verus!
