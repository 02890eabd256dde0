//! Rewrite pass over a named-field struct-literal initializer.

use crate::codegen::{
    field_rewritten, fields_ok, fields_rewritten, first_bad_field, value_has_nul, CodeGenError,
    FieldInit, Value,
};
use crate::plugin::first_nul_at;
use vstd::prelude::*;

verus! {

/// Rewrite every text-literal field into a nul-terminated byte string,
/// keeping each field's attributes, member name and position; fail on the
/// first field whose text embeds a nul byte, naming field and byte position.
pub fn handler(fields: Vec<FieldInit>) -> (r: Result<Vec<FieldInit>, CodeGenError>)
    ensures
        match r {
            Ok(gs) => {
                &&& fields_ok(fields@)
                &&& fields_rewritten(fields@, gs@)
            },
            Err(CodeGenError::InteriorNul { field, nul }) => {
                &&& first_bad_field(fields@, field as int)
                &&& fields@[field as int].value matches Value::Text(t) && first_nul_at(
                    t@,
                    nul.position as int,
                )
            },
            Err(CodeGenError::UnsupportedShape) => false,
        },
{
    let ghost orig = fields@;
    let mut rest = fields;
    let mut out: Vec<FieldInit> = Vec::new();
    while rest.len() > 0
        invariant
            fields@ == orig,
            out@.len() + rest@.len() == orig.len(),
            rest@ == orig.subrange(out@.len() as int, orig.len() as int),
            forall|j: int|
                0 <= j < out@.len() ==> field_rewritten(#[trigger] orig[j], out@[j])
                    && !value_has_nul(orig[j].value),
        decreases rest.len(),
    {
        let f = rest.remove(0);
        let ghost k = out@.len() as int;
        proof {
            assert(f == orig[k]);
            assert(rest@ =~= orig.subrange(k + 1, orig.len() as int));
        }
        let FieldInit { attrs, member, value } = f;
        match value {
            Value::Text(t) => {
                match crate::str_to_cstr::convert(&t) {
                    Ok(b) => {
                        out.push(FieldInit { attrs, member, value: Value::Bytes(b) });
                    },
                    Err(nul) => {
                        proof {
                            assert(t@[nul.position as int] == 0u8);
                            assert(t@.contains(0u8));
                            assert(orig[k].value == Value::Text(t));
                            assert(value_has_nul(orig[k].value));
                            assert(first_bad_field(orig, k));
                        }
                        return Err(CodeGenError::InteriorNul { field: out.len(), nul });
                    },
                }
            },
            value => {
                out.push(FieldInit { attrs, member, value });
            },
        }
    }
    proof {
        assert(fields_rewritten(orig, out@));
    }
    Ok(out)
}

} // verus!
