//! Mapping the value-type identifiers of the decoded model to the type
//! names of a statically-typed external consumer.

use vstd::prelude::*;

verus! {

/// The external consumer's type name for a value-type identifier: the
/// integer and floating-point identifiers up to 32 bits map to its plain
/// number type, the 64-bit ones to its big-integer type, strings and
/// booleans to its own string and boolean types, and any other identifier
/// stands unchanged.
pub open spec fn ident2ts_spec(ty: Seq<char>) -> Seq<char> {
    if ty == "i32"@ || ty == "s8"@ || ty == "s16"@ || ty == "s32"@ || ty == "u8"@ || ty == "u16"@
        || ty == "u32"@ || ty == "f32"@ || ty == "f64"@ {
        "number"@
    } else if ty == "i64"@ || ty == "s64"@ || ty == "u64"@ {
        "bigint"@
    } else if ty == "String"@ {
        "string"@
    } else if ty == "bool"@ {
        "bool"@
    } else {
        ty
    }
}

/// Maps a value-type identifier to the external consumer's type name.
pub fn ident2ts(ty: String) -> (r: String)
    ensures
        r@ == ident2ts_spec(ty@),
{
    if ty == String::from_str("i32") || ty == String::from_str("s8")
        || ty == String::from_str("s16") || ty == String::from_str("s32")
        || ty == String::from_str("u8") || ty == String::from_str("u16")
        || ty == String::from_str("u32") || ty == String::from_str("f32")
        || ty == String::from_str("f64") {
        String::from_str("number")
    } else if ty == String::from_str("i64") || ty == String::from_str("s64")
        || ty == String::from_str("u64") {
        String::from_str("bigint")
    } else if ty == String::from_str("String") {
        String::from_str("string")
    } else if ty == String::from_str("bool") {
        String::from_str("bool")
    } else {
        ty
    }
}

} // verus!
