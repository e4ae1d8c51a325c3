use crate::helpers::formatting::{debug_optional_text, join_texts, joined, optional_debug_text};
use crate::models::agents::agent_traits::{FactSheet, FactSheetView};
use vstd::prelude::*;
use vstd::string::*;

verus! {

/// A URL between double quotes.
pub open spec fn quoted_url(url: Seq<char>) -> Seq<char> {
    "\""@ + url + "\""@
}

/// The URLs, each between double quotes, separated by a comma and a space.
pub open spec fn quoted_urls(urls: Seq<Seq<char>>) -> Seq<char> {
    joined(urls.map_values(|url: Seq<char>| quoted_url(url)), ", "@)
}

/// The context of the request for the first version of the backend code:
/// the code template, the project description and the external URLs, if any.
pub open spec fn initial_code_text(
    template: Seq<char>,
    description: Seq<char>,
    urls: Option<Seq<Seq<char>>>,
) -> Seq<char> {
    "CODE_TEMPLATE: "@ + template + " \n PROJECT_DESCRIPTION: "@ + description
        + " \n OPTIONAL_EXTERNAL_URLS: "@ + match urls {
        Some(list) => quoted_urls(list),
        None => Seq::empty(),
    }
}

/// The context of the request for an improved rewrite: the current code and
/// the entire fact sheet.
pub open spec fn improved_code_text(sheet: FactSheetView) -> Seq<char> {
    "CODE_TEMPLATE: "@ + optional_debug_text(sheet.backend_code) + " \n PROJECT_DESCRIPTION: "@
        + sheet.debug_layout()
        + "\n\n            THIS FUNCTION ONLY PRINTS THE FIXED CODE. NOTHING ELSE. NO COMMENTARY."@
}

/// The context of the request for a bug fix: the current code and the
/// diagnostics of the last failed build.
pub open spec fn fixed_code_text(code: Option<Seq<char>>, errors: Option<Seq<char>>) -> Seq<char> {
    "BROKEN_CODE: "@ + optional_debug_text(code) + " \n ERROR_BUGS: "@ + optional_debug_text(
        errors,
    ) + "\n\n            THIS FUNCTION ONLY PRINTS THE FIXED CODE. NOTHING ELSE. NO COMMENTARY."@
}

/// The context of the request for the endpoint schema of `source`.
pub open spec fn rest_api_schema_text(source: Seq<char>) -> Seq<char> {
    "CODE_INPUT: "@ + source
}

/// The address at which a route of the launched server is probed.
pub open spec fn probe_address(route: Seq<char>) -> Seq<char> {
    "http://localhost:8080"@ + route
}

/// The warning for an endpoint that answered with another status than 200.
pub open spec fn endpoint_warning(route: Seq<char>) -> Seq<char> {
    "WARNING: Failed to call endpoint '"@ + route + "'"@
}

/// The warning for a probe that got no response.
pub open spec fn connection_warning(reason: Seq<char>) -> Seq<char> {
    "Error, checking backend '"@ + reason + "'"@
}

/// The warning that goes with giving up on a build that keeps failing.
pub open spec fn too_many_bugs_warning() -> Seq<char> {
    "Backend Unit Testing: Exit, too many bugs - AI becomes too expensive !"@
}

/// Writes the URLs between double quotes, separated by a comma and a space.
pub fn join_quoted_urls(urls: &Vec<String>) -> (text: String)
    ensures
        text@ == quoted_urls(urls.deep_view()),
{
    let ghost wanted = urls.deep_view().map_values(|url: Seq<char>| quoted_url(url));
    let mut parts: Vec<String> = Vec::new();
    let mut i: usize = 0;
    while i < urls.len()
        invariant
            i <= urls.len(),
            wanted == urls.deep_view().map_values(|url: Seq<char>| quoted_url(url)),
            parts.len() == i,
            forall|k: int| 0 <= k < i ==> (#[trigger] parts[k])@ == wanted[k],
        decreases urls.len() - i,
    {
        let mut quoted = String::from_str("\"");
        quoted.append(urls[i].as_str());
        quoted.append("\"");
        parts.push(quoted);
        i = i + 1;
    }
    proof {
        assert(parts.deep_view() =~= wanted);
    }
    join_texts(&parts, ", ")
}

/// Builds the context of the request for the first version of the backend
/// code. A fact sheet without external URLs gives an empty list.
pub fn initial_code_context(template: &str, factsheet: &FactSheet) -> (context: String)
    ensures
        context@ == initial_code_text(
            template@,
            factsheet@.project_description,
            factsheet@.external_urls,
        ),
{
    let mut context = String::from_str("CODE_TEMPLATE: ");
    context.append(template);
    context.append(" \n PROJECT_DESCRIPTION: ");
    context.append(factsheet.project_description.as_str());
    context.append(" \n OPTIONAL_EXTERNAL_URLS: ");
    match &factsheet.external_urls {
        Some(urls) => {
            let list = join_quoted_urls(urls);
            context.append(list.as_str());
        },
        None => {
            assert(context@ + Seq::<char>::empty() =~= context@);
        },
    }
    context
}

/// Builds the context of the request for an improved rewrite of the code.
pub fn improved_code_context(factsheet: &FactSheet) -> (context: String)
    ensures
        context@ == improved_code_text(factsheet@),
{
    let code = debug_optional_text(&factsheet.backend_code);
    let sheet = factsheet.debug_text();
    let mut context = String::from_str("CODE_TEMPLATE: ");
    context.append(code.as_str());
    context.append(" \n PROJECT_DESCRIPTION: ");
    context.append(sheet.as_str());
    context.append(
        "\n\n            THIS FUNCTION ONLY PRINTS THE FIXED CODE. NOTHING ELSE. NO COMMENTARY.",
    );
    context
}

/// Builds the context of the request for a bug fix of the code.
pub fn fixed_code_context(code: &Option<String>, errors: &Option<String>) -> (context: String)
    ensures
        context@ == fixed_code_text(code.deep_view(), errors.deep_view()),
{
    let broken = debug_optional_text(code);
    let bugs = debug_optional_text(errors);
    let mut context = String::from_str("BROKEN_CODE: ");
    context.append(broken.as_str());
    context.append(" \n ERROR_BUGS: ");
    context.append(bugs.as_str());
    context.append(
        "\n\n            THIS FUNCTION ONLY PRINTS THE FIXED CODE. NOTHING ELSE. NO COMMENTARY.",
    );
    context
}

/// Builds the context of the request for the endpoint schema of `source`.
pub fn rest_api_schema_context(source: &str) -> (context: String)
    ensures
        context@ == rest_api_schema_text(source@),
{
    let mut context = String::from_str("CODE_INPUT: ");
    context.append(source);
    context
}

} // verus!
