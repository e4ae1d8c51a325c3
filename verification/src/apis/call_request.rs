use vstd::prelude::*;
use vstd::string::*;

verus! {

/// The value of the authorization header for `api_key`.
pub open spec fn bearer_text(api_key: Seq<char>) -> Seq<char> {
    "Bearer "@ + api_key
}

/// Writes the value of the authorization header for `api_key`.
pub fn authorization_value(api_key: &str) -> (value: String)
    ensures
        value@ == bearer_text(api_key@),
{
    let mut value = String::from_str("Bearer ");
    value.append(api_key);
    value
}

/// Picks the completion to use among the choices that the service returned:
/// the first one. `None` where the service returned no choice.
pub fn first_completion(choices: Vec<String>) -> (completion: Option<String>)
    ensures
        choices.len() == 0 ==> completion is None,
        choices.len() > 0 ==> completion == Some(choices[0]),
{
    let mut choices = choices;
    if choices.len() == 0 {
        None
    } else {
        Some(choices.swap_remove(0))
    }
}

} // verus!
