use uran::controllers::_packages::{PackagesController, PackagesResponse};
use uran::controllers::_project::{
    capitalize, normalize_project_name, ProjectController, ProjectRequest, ProjectResponse,
    ProjectRouteModelRequest, RouteModelError, MAPPING_FILE, PROJECT_EXISTS, PROJECT_MISSING,
};
use uran::controllers::{ErrorResponse, CONTENT_NOT_FOUND};
use uran::services::_mapping::{FeatureMapping, Mapping, UranMapping};

fn request(model: &str, file: &str, route: &str, junction: Option<&str>) -> ProjectRouteModelRequest {
    ProjectRouteModelRequest {
        model: model.to_string(),
        file: file.to_string(),
        route: route.to_string(),
        junction_table: junction.map(|j| j.to_string()),
    }
}

fn mapping(features: Vec<FeatureMapping>) -> UranMapping {
    UranMapping { mapping: Mapping { features }, path: "uran_mapping.json".to_string() }
}

fn capitalized_with_std(model: &str) -> String {
    model.chars().next().unwrap_or_default().to_uppercase().to_string()
        + &model.chars().skip(1).collect::<String>().to_lowercase()
}

#[test]
fn error_response_keeps_message() {
    assert_eq!(ErrorResponse::new("content not found").error, "content not found");
    assert_eq!(CONTENT_NOT_FOUND, "content not found");
}

#[test]
fn normalize_names() {
    assert_eq!(normalize_project_name("My New Project"), "my-new-project");
    assert_eq!(normalize_project_name("Ação Rápida"), "ação-rápida");
    assert_eq!(normalize_project_name(""), "");
    assert_eq!(normalize_project_name("ÇÃO"), "ção");
    let n = normalize_project_name("A  B");
    assert!(!n.contains(' '));
    assert_eq!(n, "A  B".to_lowercase().replace(" ", "-"));
}

#[test]
fn capitalize_matches_std_chars() {
    for m in ["user", "USER", "uSeR", "", "ßeta", "élan", "x"] {
        assert_eq!(capitalize(m), capitalized_with_std(m), "input {:?}", m);
    }
    assert_eq!(capitalize(""), "\0");
    assert_eq!(capitalize("pOST"), "Post");
    assert_eq!(capitalize("ßETA"), "SSeta");
    assert_eq!(capitalize("ÉLAN"), "Élan");
}

#[test]
fn plan_project_normalizes_and_picks_package() {
    let plan = ProjectController::plan_project(ProjectRequest {
        package_id: 3,
        project_name: "Loja Online".to_string(),
    });
    assert_eq!(plan.request.project_name, "loja-online");
    assert_eq!(plan.request.package_id, 3);
    assert_eq!(plan.path, "../build/loja-online");
    assert_eq!(plan.package.get_name(), "yarn");
    assert_eq!(plan.message, "yarn init");
    let plan = ProjectController::plan_project(ProjectRequest { package_id: 9, project_name: "x".to_string() });
    assert_eq!(plan.package.get_name(), "bun");
    assert_eq!(plan.message, format!("{} init", "bun"));
}

#[test]
fn project_messages() {
    assert_eq!(PROJECT_EXISTS, "Já existe um projeto com esse nome");
    assert_eq!(PROJECT_MISSING, "Não existe um projeto com esse nome");
    assert_eq!(MAPPING_FILE, "uran_mapping.json");
}

#[test]
fn accepted_request_gives_feature() {
    let m = mapping(vec![]);
    let f = ProjectController::check_route_model(&m, &request("pRODUCT", "Products", "PRODUCTS", None)).unwrap();
    assert_eq!(
        f,
        FeatureMapping {
            route: "products".to_string(),
            model: "Product".to_string(),
            controller: "ProductController".to_string(),
            file: "products".to_string(),
        }
    );
}

#[test]
fn refusals_in_order() {
    let existing = FeatureMapping {
        route: "users".to_string(),
        model: "User".to_string(),
        controller: "UserController".to_string(),
        file: "users".to_string(),
    };
    let m = mapping(vec![existing.clone()]);
    assert_eq!(
        ProjectController::check_route_model(&m, &request("user", "x", "y", None)).unwrap_err(),
        RouteModelError::ControllerExists
    );
    assert_eq!(
        ProjectController::check_route_model(&m, &request("post", "x", "Users", None)).unwrap_err(),
        RouteModelError::RouteExists
    );
    assert_eq!(
        ProjectController::check_route_model(&m, &request("post", "USERS", "posts", None)).unwrap_err(),
        RouteModelError::FileExists
    );
    let with_model = mapping(vec![FeatureMapping {
        route: "a".to_string(),
        model: "PostModel".to_string(),
        controller: "PostController".to_string(),
        file: "a".to_string(),
    }]);
    assert_eq!(
        ProjectController::check_route_model(&with_model, &request("post", "a", "a", None)).unwrap_err(),
        RouteModelError::ModelExists
    );
}

#[test]
fn accepted_then_refused() {
    let mut m = mapping(vec![]);
    let req = request("order", "orders", "orders", Some("order_items"));
    let f = ProjectController::check_route_model(&m, &req).unwrap();
    m.add_feature(f);
    assert_eq!(
        ProjectController::check_route_model(&m, &req).unwrap_err(),
        RouteModelError::ControllerExists
    );
}

#[test]
fn refusal_messages() {
    assert_eq!(RouteModelError::ModelExists.message(), "Já existe um modelo com esse nome.");
    assert_eq!(RouteModelError::ControllerExists.message(), "Já existe um controller com esse nome.");
    assert_eq!(RouteModelError::RouteExists.message(), "Já existe uma rota com esse nome.");
    assert_eq!(RouteModelError::FileExists.message(), "Já existe um arquivo com esse nome.");
}

#[test]
fn junction_defaults_to_empty() {
    assert_eq!(request("a", "b", "c", Some("t")).junction(), "t");
    assert_eq!(request("a", "b", "c", None).junction(), "");
}

#[test]
fn responses_keep_their_parts() {
    let r = ProjectResponse::new(
        ProjectRequest { package_id: 1, project_name: "p".to_string() },
        "bun init".to_string(),
    );
    assert_eq!(r.data.project_name, "p");
    assert_eq!(r.message, "bun init");
    let pr = PackagesResponse::new(PackagesController::candidates());
    let names: Vec<&str> = pr.packages.iter().map(|p| p.get_name()).collect();
    assert_eq!(names, vec!["bun", "pnpm", "yarn", "npm"]);
    let ids: Vec<u8> = pr.packages.iter().map(|p| p.id).collect();
    assert_eq!(ids, vec![1, 2, 3, 4]);
}
