use vstd::prelude::*;
use crate::text::{seq_eq_ci, str_eq_ci};

verus! {

/// The HTTP methods the forwarder supports.
#[derive(Clone, Copy, Debug, PartialEq, Eq, Structural)]
pub enum Method {
    Get,
    Post,
    Put,
    Delete,
}

/// The supported method a string names, compared without regard to ASCII
/// case; `None` for every other string.
pub open spec fn method_of(m: Seq<char>) -> Option<Method> {
    if seq_eq_ci(m, "GET"@) {
        Some(Method::Get)
    } else if seq_eq_ci(m, "POST"@) {
        Some(Method::Post)
    } else if seq_eq_ci(m, "PUT"@) {
        Some(Method::Put)
    } else if seq_eq_ci(m, "DELETE"@) {
        Some(Method::Delete)
    } else {
        None
    }
}

/// A string names one of the supported methods.
pub open spec fn is_supported_method(m: Seq<char>) -> bool {
    method_of(m) is Some
}

/// Resolves a method string to the supported method it names, ignoring
/// ASCII case.
pub fn parse_method(m: &str) -> (r: Option<Method>)
    ensures
        r == method_of(m@),
{
    if str_eq_ci(m, "GET") {
        Some(Method::Get)
    } else if str_eq_ci(m, "POST") {
        Some(Method::Post)
    } else if str_eq_ci(m, "PUT") {
        Some(Method::Put)
    } else if str_eq_ci(m, "DELETE") {
        Some(Method::Delete)
    } else {
        None
    }
}

} // verus!
