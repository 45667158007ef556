use vstd::prelude::*;

use crate::paths::{project_dir, spec_project_dir};
use crate::services::_mapping::{
    has_controller_in, has_file_in, has_model_in, has_route_in, lemma_push_finds, FeatureMapping,
    FeatureView, UranMapping,
};
use crate::services::_packages::{
    spec_find_by_id, spec_package_flag, spec_package_id, spec_package_name, Package, Packages,
};
use crate::text::{
    char_to_uppercase, replace_spaces, spec_char_to_uppercase, spec_replace_spaces,
    spec_to_lowercase, to_lowercase,
};

verus! {

/// Answers the requests about projects.
pub struct ProjectController;

/// A request to create a project.
pub struct ProjectRequest {
    pub package_id: u8,
    pub project_name: String,
}

/// A request to add a model, its controller and its route to a project.
pub struct ProjectRouteModelRequest {
    pub model: String,
    pub file: String,
    pub route: String,
    pub junction_table: Option<String>,
}

/// The answer to a created project.
pub struct ProjectResponse {
    pub data: ProjectRequest,
    pub message: String,
}

impl ProjectResponse {
    pub fn new(data: ProjectRequest, message: String) -> (r: Self)
        ensures
            r.data == data,
            r.message == message,
    {
        Self { data, message }
    }
}

/// What the server answers when the project to create exists already.
pub const PROJECT_EXISTS: &'static str = "Já existe um projeto com esse nome";

/// What the server answers when the project to extend does not exist.
pub const PROJECT_MISSING: &'static str = "Não existe um projeto com esse nome";

/// The name under which the project's features are recorded, in its directory.
pub const MAPPING_FILE: &'static str = "uran_mapping.json";

/// A project name as the server stores it: lowercased, with hyphens for spaces.
pub open spec fn spec_normalize_project_name(name: Seq<char>) -> Seq<char> {
    spec_replace_spaces(spec_to_lowercase(name))
}

/// Lowercases a project name and turns its spaces into hyphens.
pub fn normalize_project_name(name: &str) -> (r: String)
    ensures
        r@ == spec_normalize_project_name(name@),
        r@.len() == spec_to_lowercase(name@).len(),
        forall|k: int|
            0 <= k < r@.len() ==> #[trigger] r@[k] == (if spec_to_lowercase(name@)[k] == ' ' {
                '-'
            } else {
                spec_to_lowercase(name@)[k]
            }),
{
    proof {
        lemma_normalize_changes_only_spaces(name@);
    }
    let lower = to_lowercase(name);
    replace_spaces(lower.as_str())
}

/// A model name as the server writes it: its first character uppercased
/// (the NUL character where the name is empty), the rest lowercased.
pub open spec fn spec_capitalize(name: Seq<char>) -> Seq<char> {
    if name.len() == 0 {
        spec_char_to_uppercase('\0') + spec_to_lowercase(Seq::<char>::empty())
    } else {
        spec_char_to_uppercase(name[0]) + spec_to_lowercase(name.drop_first())
    }
}

/// Uppercases the first character of a model name and lowercases the rest.
pub fn capitalize(name: &str) -> (r: String)
    ensures
        r@ == spec_capitalize(name@),
        name@.len() > 0 ==> r@ == spec_char_to_uppercase(name@[0]) + spec_to_lowercase(
            name@.drop_first(),
        ),
        name@.len() == 0 ==> r@ == spec_char_to_uppercase('\0') + spec_to_lowercase(
            Seq::<char>::empty(),
        ),
{
    let n = name.unicode_len();
    if n == 0 {
        let mut r = char_to_uppercase('\0');
        proof {
            reveal_strlit("");
        }
        assert(""@ =~= Seq::<char>::empty());
        let rest = to_lowercase("");
        r.append(rest.as_str());
        r
    } else {
        let mut r = char_to_uppercase(name.get_char(0));
        let tail = name.substring_char(1, n);
        assert(tail@ =~= name@.drop_first());
        let rest = to_lowercase(tail);
        r.append(rest.as_str());
        r
    }
}

/// Why a new model, controller or route cannot be added to a project.
#[derive(Debug, Clone, Copy, PartialEq, Eq, Structural)]
pub enum RouteModelError {
    ModelExists,
    ControllerExists,
    RouteExists,
    FileExists,
}

impl RouteModelError {
    /// What the server answers for the refusal.
    pub fn message(&self) -> (r: &'static str)
        ensures
            r@ == spec_route_model_message(*self),
            *self == RouteModelError::ModelExists ==> r@ == "Já existe um modelo com esse nome."@,
            *self == RouteModelError::ControllerExists ==> r@
                == "Já existe um controller com esse nome."@,
            *self == RouteModelError::RouteExists ==> r@ == "Já existe uma rota com esse nome."@,
            *self == RouteModelError::FileExists ==> r@ == "Já existe um arquivo com esse nome."@,
    {
        match self {
            RouteModelError::ModelExists => "Já existe um modelo com esse nome.",
            RouteModelError::ControllerExists => "Já existe um controller com esse nome.",
            RouteModelError::RouteExists => "Já existe uma rota com esse nome.",
            RouteModelError::FileExists => "Já existe um arquivo com esse nome.",
        }
    }
}

/// What the server answers for each refusal.
pub open spec fn spec_route_model_message(e: RouteModelError) -> Seq<char> {
    match e {
        RouteModelError::ModelExists => "Já existe um modelo com esse nome."@,
        RouteModelError::ControllerExists => "Já existe um controller com esse nome."@,
        RouteModelError::RouteExists => "Já existe uma rota com esse nome."@,
        RouteModelError::FileExists => "Já existe um arquivo com esse nome."@,
    }
}

/// The feature that a request describes: the lowercased route and file, the
/// capitalized model, and its controller.
pub open spec fn spec_requested_feature(model: Seq<char>, file: Seq<char>, route: Seq<char>) -> FeatureView {
    FeatureView {
        route: spec_to_lowercase(route),
        model: spec_capitalize(model),
        controller: spec_capitalize(model) + "Controller"@,
        file: spec_to_lowercase(file),
    }
}

/// The answer to a request for a new model in a project whose features are
/// `fs`: refused when a model named after it with `Model` appended exists, then
/// when its controller, its route or its file exists, in that order; else the
/// feature to record.
pub open spec fn spec_check_route_model(
    fs: Seq<FeatureView>,
    model: Seq<char>,
    file: Seq<char>,
    route: Seq<char>,
) -> Result<FeatureView, RouteModelError> {
    let f = spec_requested_feature(model, file, route);
    if has_model_in(fs, f.model + "Model"@) {
        Err(RouteModelError::ModelExists)
    } else if has_controller_in(fs, f.controller) {
        Err(RouteModelError::ControllerExists)
    } else if has_route_in(fs, f.route) {
        Err(RouteModelError::RouteExists)
    } else if has_file_in(fs, f.file) {
        Err(RouteModelError::FileExists)
    } else {
        Ok(f)
    }
}

/// The feature answered, by its names.
pub open spec fn result_view(r: Result<FeatureMapping, RouteModelError>) -> Result<
    FeatureView,
    RouteModelError,
> {
    match r {
        Ok(f) => Ok(f@),
        Err(e) => Err(e),
    }
}

/// The text of a new project's answer: the package manager that set it up.
pub open spec fn spec_init_message(package: Seq<char>) -> Seq<char> {
    package + " init"@
}

/// A project about to be created: the request with its name normalized, its
/// directory, its package manager and the message of its answer.
pub struct ProjectPlan {
    pub request: ProjectRequest,
    pub path: String,
    pub package: Package,
    pub message: String,
}

impl ProjectRouteModelRequest {
    /// The junction table of the new model; none is the empty name.
    pub fn junction(&self) -> (r: String)
        ensures
            r@ == (match self.junction_table {
                Some(j) => j@,
                None => Seq::<char>::empty(),
            }),
    {
        match &self.junction_table {
            Some(j) => j.clone(),
            None => String::new(),
        }
    }
}

impl ProjectController {
    /// Prepares the creation of a project: the name is lowercased with hyphens
    /// for spaces, the project goes under the build directory, and the
    /// package manager is the one of the request's id (bun for an unknown id).
    pub fn plan_project(body: ProjectRequest) -> (r: ProjectPlan)
        ensures
            r.request.package_id == body.package_id,
            r.request.project_name@ == spec_normalize_project_name(body.project_name@),
            r.path@ == spec_project_dir(r.request.project_name@),
            r.package.id == spec_package_id(spec_find_by_id(body.package_id)),
            r.package.name@ == spec_package_name(spec_find_by_id(body.package_id)),
            r.package.y == spec_package_flag(spec_find_by_id(body.package_id)),
            r.message@ == spec_init_message(r.package.name@),
            r.message@ == r.package.name@ + " init"@,
    {
        let name = normalize_project_name(body.project_name.as_str());
        let path = project_dir(name.as_str());
        let package = Packages::find_by_id(body.package_id).get();
        let mut message = String::from_str(package.get_name());
        message.append(" init");
        ProjectPlan {
            request: ProjectRequest { package_id: body.package_id, project_name: name },
            path,
            package,
            message,
        }
    }

    /// Checks a request for a new model against the project's features, and
    /// gives the feature to record where nothing clashes.
    pub fn check_route_model(mapping: &UranMapping, body: &ProjectRouteModelRequest) -> (r: Result<
        FeatureMapping,
        RouteModelError,
    >)
        ensures
            result_view(r) == spec_check_route_model(
                mapping@,
                body.model@,
                body.file@,
                body.route@,
            ),
    {
        let model_capitalized = capitalize(body.model.as_str());
        let file_lowercase = to_lowercase(body.file.as_str());
        let route_lowercase = to_lowercase(body.route.as_str());
        let mut model = model_capitalized.clone();
        model.append("Model");
        if mapping.has_model(model.as_str()) {
            return Err(RouteModelError::ModelExists);
        }
        let mut controller = model_capitalized.clone();
        controller.append("Controller");
        if mapping.has_controller(controller.as_str()) {
            return Err(RouteModelError::ControllerExists);
        }
        if mapping.has_route(route_lowercase.as_str()) {
            return Err(RouteModelError::RouteExists);
        }
        if mapping.has_file(file_lowercase.as_str()) {
            return Err(RouteModelError::FileExists);
        }
        Ok(
            FeatureMapping {
                route: route_lowercase,
                model: model_capitalized,
                controller,
                file: file_lowercase,
            },
        )
    }
}


/// Once a request has been accepted and its feature recorded, the same
/// request is refused because its controller exists.
pub proof fn lemma_accepted_request_then_refused(
    fs: Seq<FeatureView>,
    model: Seq<char>,
    file: Seq<char>,
    route: Seq<char>,
)
    requires
        spec_check_route_model(fs, model, file, route) is Ok,
    ensures
        spec_check_route_model(
            fs.push(spec_requested_feature(model, file, route)),
            model,
            file,
            route,
        ) == Err::<FeatureView, RouteModelError>(RouteModelError::ControllerExists),
{
    let f = spec_requested_feature(model, file, route);
    lemma_push_finds(fs, f);
    assert(f.model + "Model"@ != f.model) by {
        reveal_strlit("Model");
        assert((f.model + "Model"@).len() == f.model.len() + 5);
    }
    assert(has_controller_in(fs.push(f), f.controller));
}

/// A normalized project name holds no space.
pub proof fn lemma_normalized_name_has_no_space(name: Seq<char>)
    ensures
        !spec_normalize_project_name(name).contains(' '),
{
    let r = spec_normalize_project_name(name);
    if r.contains(' ') {
        let k = choose|k: int| 0 <= k < r.len() && r[k] == ' ';
        assert(r[k] == (if spec_to_lowercase(name)[k] == ' ' { '-' } else { spec_to_lowercase(name)[k] }));
    }
}

/// Turning spaces into hyphens a second time changes nothing.
pub proof fn lemma_replace_spaces_idempotent(s: Seq<char>)
    ensures
        spec_replace_spaces(spec_replace_spaces(s)) == spec_replace_spaces(s),
{
    assert(spec_replace_spaces(spec_replace_spaces(s)) =~= spec_replace_spaces(s));
}


/// Normalizing a project name lowercases it and turns each space into a
/// hyphen, character by character; nothing else changes.
pub proof fn lemma_normalize_changes_only_spaces(name: Seq<char>)
    ensures
        spec_normalize_project_name(name).len() == spec_to_lowercase(name).len(),
        forall|k: int|
            0 <= k < spec_to_lowercase(name).len() ==> #[trigger] spec_normalize_project_name(name)[k]
                == (if spec_to_lowercase(name)[k] == ' ' {
                '-'
            } else {
                spec_to_lowercase(name)[k]
            }),
{
}

/// A name whose lowercase holds no space normalizes to that lowercase: its
/// hyphens, underscores and every other character stay as they are.
pub proof fn lemma_normalize_without_spaces(name: Seq<char>)
    requires
        !spec_to_lowercase(name).contains(' '),
    ensures
        spec_normalize_project_name(name) == spec_to_lowercase(name),
{
    lemma_normalize_changes_only_spaces(name);
    let l = spec_to_lowercase(name);
    assert forall|k: int| 0 <= k < l.len() implies spec_normalize_project_name(name)[k] == l[k] by {
        if l[k] == ' ' {
            assert(l.contains(' '));
        }
    }
    assert(spec_normalize_project_name(name) =~= l);
}

/// A model name is written with its first character uppercased and the rest
/// lowercased (the NUL character stands for the first of an empty name).
pub proof fn lemma_capitalize_parts(name: Seq<char>)
    ensures
        name.len() > 0 ==> spec_capitalize(name) == spec_char_to_uppercase(name[0]) + spec_to_lowercase(
            name.drop_first(),
        ),
        name.len() == 0 ==> spec_capitalize(name) == spec_char_to_uppercase('\0') + spec_to_lowercase(
            Seq::<char>::empty(),
        ),
{
}

/// The answer to a request for a new model, against every recorded feature:
/// with `cap` the capitalized model, the request is accepted exactly when no
/// feature at any position has the model `cap + "Model"`, the controller
/// `cap + "Controller"`, the lowercased route or the lowercased file; the
/// feature accepted holds exactly those names (the model as `cap`); and each
/// refusal names the first kind of clash, in the order model, controller,
/// route, file.
pub proof fn lemma_check_route_model_answers(
    fs: Seq<FeatureView>,
    model: Seq<char>,
    file: Seq<char>,
    route: Seq<char>,
)
    ensures
        ({
            let r = spec_check_route_model(fs, model, file, route);
            let cap = spec_capitalize(model);
            let md = cap + "Model"@;
            let ctrl = cap + "Controller"@;
            let rt = spec_to_lowercase(route);
            let fl = spec_to_lowercase(file);
            let no_model = forall|i: int| 0 <= i < fs.len() ==> (#[trigger] fs[i]).model != md;
            let no_ctrl = forall|i: int| 0 <= i < fs.len() ==> (#[trigger] fs[i]).controller != ctrl;
            let no_route = forall|i: int| 0 <= i < fs.len() ==> (#[trigger] fs[i]).route != rt;
            let no_file = forall|i: int| 0 <= i < fs.len() ==> (#[trigger] fs[i]).file != fl;
            &&& (r is Ok <==> (no_model && no_ctrl && no_route && no_file))
            &&& (r matches Ok(f) ==> f.route == rt && f.model == cap && f.controller == ctrl
                && f.file == fl)
            &&& (r == Err::<FeatureView, RouteModelError>(RouteModelError::ModelExists) <==> exists|
                i: int,
            | 0 <= i < fs.len() && (#[trigger] fs[i]).model == md)
            &&& (r == Err::<FeatureView, RouteModelError>(RouteModelError::ControllerExists) <==> (
            no_model && exists|i: int| 0 <= i < fs.len() && (#[trigger] fs[i]).controller == ctrl))
            &&& (r == Err::<FeatureView, RouteModelError>(RouteModelError::RouteExists) <==> (no_model
                && no_ctrl && exists|i: int| 0 <= i < fs.len() && (#[trigger] fs[i]).route == rt))
            &&& (r == Err::<FeatureView, RouteModelError>(RouteModelError::FileExists) <==> (no_model
                && no_ctrl && no_route && exists|i: int| 0 <= i < fs.len() && (#[trigger] fs[i]).file
                == fl))
        }),
{
}

} // verus!
