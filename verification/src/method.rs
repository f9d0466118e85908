//! HTTP methods: which texts name one.

use vstd::prelude::*;
use vstd::string::*;

verus! {

/// `b` may stand in the name of an HTTP method: a letter, a digit, or one of
/// ``! # $ % & ' * + - . ^ _ ` | ~``.
pub open spec fn is_token_byte(b: u8) -> bool {
    let c = b as char;
    ||| ('0' <= c && c <= '9')
    ||| ('A' <= c && c <= 'Z')
    ||| ('a' <= c && c <= 'z')
    ||| c == '!'
    ||| c == '#'
    ||| c == '$'
    ||| c == '%'
    ||| c == '&'
    ||| c == '\''
    ||| c == '*'
    ||| c == '+'
    ||| c == '-'
    ||| c == '.'
    ||| c == '^'
    ||| c == '_'
    ||| c == '`'
    ||| c == '|'
    ||| c == '~'
}

/// `name` is the name of an HTTP method: not empty, and made of token bytes only.
/// The standard methods are such names, and so is every other token, in either
/// case of its letters.
pub open spec fn is_method(name: Seq<u8>) -> bool {
    name.len() > 0 && forall|i: int| 0 <= i < name.len() ==> is_token_byte(#[trigger] name[i])
}

/// Asks `reqwest::Method::from_bytes` (the `Method` of the `http` crate, which
/// `reqwest` hands on) whether it takes `name`. It takes the standard methods and,
/// as an extension method, every other name that is not empty and holds token
/// bytes only; it refuses the rest. This contract is trusted.
#[verifier::external_body]
fn method_parses(name: &[u8]) -> (parses: bool)
    ensures
        parses == is_method(name@),
{
    reqwest::Method::from_bytes(name).is_ok()
}

/// Whether a request can be made with this method.
pub fn valid_method(method: &str) -> (valid: bool)
    ensures
        valid == is_method(method.spec_bytes()),
{
    method_parses(method.as_bytes())
}

} // verus!
