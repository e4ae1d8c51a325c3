use crate::helpers::formatting::{
    bool_text, debug_list, debug_optional_text, debug_text, debug_text_of, list_debug_text,
    list_text, optional_debug_text, optional_text, write_bool, write_list, write_optional,
};
use crate::models::agent_basic::basic_agent::{BasicAgent, BasicAgentView};
use crate::models::agents::agent_protocol::{AgentEvent, AgentEventView, AgentStep, AgentStepView};
use vstd::prelude::*;
use vstd::string::*;

verus! {

/// `serde_json::Value`: an arbitrary JSON value. The library carries such
/// values through without looking inside them.
#[verifier::external_type_specification]
#[verifier::external_body]
pub struct ExJsonValue(serde_json::Value);

/// The text that `{:?}` formatting gives for a JSON value. The value stands
/// for itself here: the library has no view of what is inside it.
pub uninterp spec fn debug_text_of_json(value: serde_json::Value) -> Seq<char>;

/// Formats a JSON value with `serde_json`'s `Debug` for `Value`, through
/// `format!`. Claims only that the result depends on nothing but the value.
#[verifier::external_body]
fn debug_json(value: &serde_json::Value) -> (text: String)
    ensures
        text@ == debug_text_of_json(*value),
{
    format!("{:?}", value)
}

/// One REST endpoint found in generated code.
#[derive(Debug, PartialEq)]
pub struct RouteObject {
    pub route: String,
    pub is_route_dynamic: String,
    pub method: String,
    pub request_body: serde_json::Value,
    pub response: serde_json::Value,
}

/// A [`RouteObject`] as plain values; the two JSON shapes stay opaque.
pub struct RouteObjectView {
    pub route: Seq<char>,
    pub is_route_dynamic: Seq<char>,
    pub method: Seq<char>,
    pub request_body: serde_json::Value,
    pub response: serde_json::Value,
}

impl DeepView for RouteObject {
    type V = RouteObjectView;

    open spec fn deep_view(&self) -> RouteObjectView {
        RouteObjectView {
            route: self.route@,
            is_route_dynamic: self.is_route_dynamic@,
            method: self.method@,
            request_body: self.request_body,
            response: self.response,
        }
    }
}

impl View for RouteObject {
    type V = RouteObjectView;

    open spec fn view(&self) -> RouteObjectView {
        self.deep_view()
    }
}

impl RouteObjectView {
    /// How the endpoint is written by `{:?}` formatting.
    pub open spec fn debug_layout(self) -> Seq<char> {
        "RouteObject { route: "@ + debug_text_of(self.route) + ", is_route_dynamic: "@
            + debug_text_of(self.is_route_dynamic) + ", method: "@ + debug_text_of(self.method)
            + ", request_body: "@ + debug_text_of_json(self.request_body) + ", response: "@
            + debug_text_of_json(self.response) + " }"@
    }
}

impl RouteObject {
    /// Writes the endpoint as `{:?}` formatting does.
    pub fn debug_text(&self) -> (text: String)
        ensures
            text@ == self@.debug_layout(),
    {
        let mut text = String::from_str("RouteObject { route: ");
        text.append(debug_text(self.route.as_str()).as_str());
        text.append(", is_route_dynamic: ");
        text.append(debug_text(self.is_route_dynamic.as_str()).as_str());
        text.append(", method: ");
        text.append(debug_text(self.method.as_str()).as_str());
        text.append(", request_body: ");
        text.append(debug_json(&self.request_body).as_str());
        text.append(", response: ");
        text.append(debug_json(&self.response).as_str());
        text.append(" }");
        text
    }
}

/// How a list of endpoints is written by `{:?}` formatting.
pub open spec fn routes_debug_text(routes: Seq<RouteObjectView>) -> Seq<char> {
    list_text(routes.map_values(|route: RouteObjectView| route.debug_layout()))
}

/// Writes a list of endpoints as `{:?}` formatting does.
pub fn debug_routes(routes: &Vec<RouteObject>) -> (text: String)
    ensures
        text@ == routes_debug_text(routes.deep_view()),
{
    let ghost wanted = routes.deep_view().map_values(|route: RouteObjectView| route.debug_layout());
    let mut parts: Vec<String> = Vec::new();
    let mut i: usize = 0;
    while i < routes.len()
        invariant
            i <= routes.len(),
            wanted == routes.deep_view().map_values(|route: RouteObjectView| route.debug_layout()),
            parts.len() == i,
            forall|k: int| 0 <= k < i ==> (#[trigger] parts[k])@ == wanted[k],
        decreases routes.len() - i,
    {
        parts.push(routes[i].debug_text());
        i = i + 1;
    }
    proof {
        assert(parts.deep_view() =~= wanted);
    }
    write_list(&parts)
}

/// What the solution architect decided the project needs.
#[derive(Debug, Clone, Copy, PartialEq, Eq, Structural)]
pub struct ProjectScope {
    pub is_crud_required: bool,
    pub is_user_login_and_logout: bool,
    pub is_external_urls_required: bool,
}

impl DeepView for ProjectScope {
    type V = ProjectScope;

    open spec fn deep_view(&self) -> ProjectScope {
        *self
    }
}

impl View for ProjectScope {
    type V = ProjectScope;

    open spec fn view(&self) -> ProjectScope {
        *self
    }
}

impl ProjectScope {
    /// How the scope is written by `{:?}` formatting.
    pub open spec fn debug_layout(self) -> Seq<char> {
        "ProjectScope { is_crud_required: "@ + bool_text(self.is_crud_required)
            + ", is_user_login_and_logout: "@ + bool_text(self.is_user_login_and_logout)
            + ", is_external_urls_required: "@ + bool_text(self.is_external_urls_required)
            + " }"@
    }

    /// Writes the scope as `{:?}` formatting does.
    pub fn debug_text(&self) -> (text: String)
        ensures
            text@ == self.debug_layout(),
    {
        let mut text = String::from_str("ProjectScope { is_crud_required: ");
        text.append(write_bool(self.is_crud_required).as_str());
        text.append(", is_user_login_and_logout: ");
        text.append(write_bool(self.is_user_login_and_logout).as_str());
        text.append(", is_external_urls_required: ");
        text.append(write_bool(self.is_external_urls_required).as_str());
        text.append(" }");
        text
    }
}

/// The single document that is threaded through the whole pipeline. Each
/// agent fills the fields it owns and leaves the others alone.
#[derive(Debug, PartialEq)]
pub struct FactSheet {
    pub project_description: String,
    pub project_scope: Option<ProjectScope>,
    pub external_urls: Option<Vec<String>>,
    pub backend_code: Option<String>,
    pub api_endpoint_schema: Option<Vec<RouteObject>>,
}

/// A [`FactSheet`] as plain values.
pub struct FactSheetView {
    pub project_description: Seq<char>,
    pub project_scope: Option<ProjectScope>,
    pub external_urls: Option<Seq<Seq<char>>>,
    pub backend_code: Option<Seq<char>>,
    pub api_endpoint_schema: Option<Seq<RouteObjectView>>,
}

impl DeepView for FactSheet {
    type V = FactSheetView;

    open spec fn deep_view(&self) -> FactSheetView {
        FactSheetView {
            project_description: self.project_description@,
            project_scope: self.project_scope,
            external_urls: self.external_urls.deep_view(),
            backend_code: self.backend_code.deep_view(),
            api_endpoint_schema: self.api_endpoint_schema.deep_view(),
        }
    }
}

impl View for FactSheet {
    type V = FactSheetView;

    open spec fn view(&self) -> FactSheetView {
        self.deep_view()
    }
}

impl FactSheet {
    /// A fact sheet that holds the project description and nothing else.
    pub fn new(project_description: String) -> (sheet: FactSheet)
        ensures
            sheet@ == FactSheetView::described(project_description@),
    {
        FactSheet {
            project_description,
            project_scope: None,
            external_urls: None,
            backend_code: None,
            api_endpoint_schema: None,
        }
    }

    /// Writes the whole fact sheet as `{:?}` formatting does.
    pub fn debug_text(&self) -> (text: String)
        ensures
            text@ == self@.debug_layout(),
    {
        let scope = match &self.project_scope {
            Some(scope) => write_optional(Some(scope.debug_text())),
            None => write_optional(None),
        };
        let urls = match &self.external_urls {
            Some(urls) => write_optional(Some(debug_list(urls))),
            None => write_optional(None),
        };
        let schema = match &self.api_endpoint_schema {
            Some(routes) => write_optional(Some(debug_routes(routes))),
            None => write_optional(None),
        };
        let mut text = String::from_str("FactSheet { project_description: ");
        text.append(debug_text(self.project_description.as_str()).as_str());
        text.append(", project_scope: ");
        text.append(scope.as_str());
        text.append(", external_urls: ");
        text.append(urls.as_str());
        text.append(", backend_code: ");
        text.append(debug_optional_text(&self.backend_code).as_str());
        text.append(", api_endpoint_schema: ");
        text.append(schema.as_str());
        text.append(" }");
        text
    }
}

impl FactSheetView {
    /// How the whole fact sheet is written by `{:?}` formatting.
    pub open spec fn debug_layout(self) -> Seq<char> {
        "FactSheet { project_description: "@ + debug_text_of(self.project_description)
            + ", project_scope: "@ + optional_text(
            match self.project_scope {
                Some(scope) => Some(scope.debug_layout()),
                None => None,
            },
        ) + ", external_urls: "@ + optional_text(
            match self.external_urls {
                Some(urls) => Some(list_debug_text(urls)),
                None => None,
            },
        ) + ", backend_code: "@ + optional_debug_text(self.backend_code)
            + ", api_endpoint_schema: "@ + optional_text(
            match self.api_endpoint_schema {
                Some(routes) => Some(routes_debug_text(routes)),
                None => None,
            },
        ) + " }"@
    }

    /// The fact sheet at the start of a pipeline: only the description is set.
    pub open spec fn described(project_description: Seq<char>) -> FactSheetView {
        FactSheetView {
            project_description,
            project_scope: None,
            external_urls: None,
            backend_code: None,
            api_endpoint_schema: None,
        }
    }
}

/// What every agent offers to the manager that drives it.
///
/// `execute` advances the agent by one event. The driver calls it first with
/// [`AgentEvent::Start`], performs the action it returns, and calls it again
/// with what came back, until the action is `Done` or `Abort`.
pub trait SpecialFunctions: View + Sized {
    /// The agent's transition: from its state, the fact sheet and an event to
    /// the next state, the next fact sheet and the step handed out.
    spec fn transition(pre: Self::V, sheet: FactSheetView, event: AgentEventView) -> (
        Self::V,
        FactSheetView,
        AgentStepView,
    );

    /// The identity record of the agent, as plain values.
    spec fn identity(pre: Self::V) -> BasicAgentView;

    /// The identity record of the agent: its objective, its position and the
    /// phase it is in.
    fn get_attributes_from_agent(&self) -> (attributes: &BasicAgent)
        ensures
            attributes@ == Self::identity(self@),
    ;

    /// Advances the agent by one event and hands out the next step, as the
    /// agent's transition says.
    fn execute(&mut self, factsheet: &mut FactSheet, event: AgentEvent) -> (step: AgentStep)
        ensures
            (final(self)@, final(factsheet)@, step@) == Self::transition(
                old(self)@,
                old(factsheet)@,
                event@,
            ),
    ;
}

} // verus!
