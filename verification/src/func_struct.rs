//! Rewrite pass over a call-expression initializer.

use crate::codegen::{
    arg_rewritten, args_ok, args_rewritten, first_bad_arg, value_has_nul, ArgInit, CodeGenError,
    Value,
};
use crate::plugin::first_nul_at;
use vstd::prelude::*;

verus! {

/// Rewrite every text-literal argument into a nul-terminated byte string,
/// keeping each argument's attributes and position; fail on the first
/// argument whose text embeds a nul byte, naming argument and byte position.
pub fn handler(args: Vec<ArgInit>) -> (r: Result<Vec<ArgInit>, CodeGenError>)
    ensures
        match r {
            Ok(bs) => {
                &&& args_ok(args@)
                &&& args_rewritten(args@, bs@)
            },
            Err(CodeGenError::InteriorNul { field, nul }) => {
                &&& first_bad_arg(args@, field as int)
                &&& args@[field as int].value matches Value::Text(t) && first_nul_at(
                    t@,
                    nul.position as int,
                )
            },
            Err(CodeGenError::UnsupportedShape) => false,
        },
{
    let ghost orig = args@;
    let mut rest = args;
    let mut out: Vec<ArgInit> = Vec::new();
    while rest.len() > 0
        invariant
            args@ == orig,
            out@.len() + rest@.len() == orig.len(),
            rest@ == orig.subrange(out@.len() as int, orig.len() as int),
            forall|j: int|
                0 <= j < out@.len() ==> arg_rewritten(#[trigger] orig[j], out@[j])
                    && !value_has_nul(orig[j].value),
        decreases rest.len(),
    {
        let a = rest.remove(0);
        let ghost k = out@.len() as int;
        proof {
            assert(a == orig[k]);
            assert(rest@ =~= orig.subrange(k + 1, orig.len() as int));
        }
        let ArgInit { attrs, value } = a;
        match value {
            Value::Text(t) => {
                match crate::str_to_cstr::convert(&t) {
                    Ok(b) => {
                        out.push(ArgInit { attrs, value: Value::Bytes(b) });
                    },
                    Err(nul) => {
                        proof {
                            assert(t@[nul.position as int] == 0u8);
                            assert(t@.contains(0u8));
                            assert(orig[k].value == Value::Text(t));
                            assert(value_has_nul(orig[k].value));
                            assert(first_bad_arg(orig, k));
                        }
                        return Err(CodeGenError::InteriorNul { field: out.len(), nul });
                    },
                }
            },
            value => {
                out.push(ArgInit { attrs, value });
            },
        }
    }
    proof {
        assert(args_rewritten(orig, out@));
    }
    Ok(out)
}

} // verus!
