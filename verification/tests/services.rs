use uran::services::_mapping::{FeatureMapping, Mapping, UranMapping};
use uran::services::_packages::{
    babelrc, env_template, jsconfig, package_json, package_managers, uran_toml, AllowedConfigTemplate,
    BaseControllerTemplate, BaseModelsTemplate, CorsConfigTemplate, CredentialsMiddlewareTemplate,
    EnvTemplate, IndexConfigTemplate, IndexControllersTemplate, IndexDatabaseTemplate,
    IndexMiddlewareTemplate, IndexModelsTemplate, IndexRoutesTemplate, IndexTemplate, Package,
    Packages, PrismaDatabaseTemplate, Template, TemplateKind, BABELRC_FILE, JSCONFIG_FILE,
    PACKAGE_JSON_FILE, URAN_TOML_FILE,
};
use uran::services::_project::{prepend_line, Config, Data, Lines, Project};

fn feature(route: &str, model: &str, controller: &str, file: &str) -> FeatureMapping {
    FeatureMapping {
        route: route.to_string(),
        model: model.to_string(),
        controller: controller.to_string(),
        file: file.to_string(),
    }
}

fn mapping(features: Vec<FeatureMapping>) -> UranMapping {
    UranMapping { mapping: Mapping { features }, path: "../build/demo/uran_mapping.json".to_string() }
}

fn project(name: &str, route_line: &str) -> Project {
    Project {
        data: Data {
            config: Config {
                project: name.to_string(),
                description: String::new(),
                author: String::new(),
                package: "bun".to_string(),
                language: "js".to_string(),
                framework: "express".to_string(),
                version: "1.0.0".to_string(),
            },
            lines: Lines { route: route_line.to_string() },
        },
    }
}

#[test]
fn mapping_searches_each_field() {
    let m = mapping(vec![feature("users", "User", "UserController", "users")]);
    assert!(m.has_route("users"));
    assert!(!m.has_route("user"));
    assert!(m.has_model("User"));
    assert!(!m.has_model("UserModel"));
    assert!(m.has_controller("UserController"));
    assert!(m.has_file("users"));
    assert!(!m.has_file("posts"));
    let empty = mapping(vec![]);
    assert!(!empty.has_route(""));
}

#[test]
fn added_feature_is_found() {
    let mut m = mapping(vec![feature("users", "User", "UserController", "users")]);
    m.add_feature(feature("posts", "Post", "PostController", "posts"));
    assert_eq!(m.mapping.features.len(), 2);
    assert_eq!(m.mapping.features[1], feature("posts", "Post", "PostController", "posts"));
    assert!(m.has_route("posts") && m.has_route("users"));
    assert!(m.has_model("Post") && m.has_controller("PostController") && m.has_file("posts"));
    assert!(!m.has_route("comments"));
    assert_eq!(m.path, "../build/demo/uran_mapping.json");
}

#[test]
fn find_by_id_maps_ids() {
    assert_eq!(Packages::find_by_id(1), Packages::BUN);
    assert_eq!(Packages::find_by_id(2), Packages::PNPM);
    assert_eq!(Packages::find_by_id(3), Packages::YARN);
    assert_eq!(Packages::find_by_id(4), Packages::NPM);
    assert_eq!(Packages::find_by_id(0), Packages::BUN);
    assert_eq!(Packages::find_by_id(5), Packages::BUN);
    assert_eq!(Packages::find_by_id(255), Packages::BUN);
}

#[test]
fn get_gives_each_package() {
    let expected = [
        (Packages::BUN, 1u8, "bun", true),
        (Packages::PNPM, 2, "pnpm", false),
        (Packages::YARN, 3, "yarn", true),
        (Packages::NPM, 4, "npm", true),
    ];
    for (p, id, name, y) in expected {
        let pkg = p.get();
        assert_eq!(pkg.id, id);
        assert_eq!(pkg.get_name(), name);
        assert_eq!(pkg.y, y);
    }
}

#[test]
fn id_of_package_leads_back() {
    for p in [Packages::BUN, Packages::PNPM, Packages::YARN, Packages::NPM] {
        assert_eq!(Packages::find_by_id(p.get().id), p);
    }
}

#[test]
fn package_new_keeps_fields() {
    let p = Package::new(7, "deno", false);
    assert_eq!(p.id, 7);
    assert_eq!(p.get_name(), "deno");
    assert!(!p.y);
}

#[test]
fn package_managers_in_order() {
    assert_eq!(package_managers(), vec![Packages::BUN, Packages::PNPM, Packages::YARN, Packages::NPM]);
}

#[test]
fn template_filenames() {
    assert_eq!(EnvTemplate { name: "token".to_string() }.filename(), ".env");
    assert_eq!(IndexTemplate.filename(), "index.js");
    assert_eq!(IndexModelsTemplate.filename(), "index.js");
    assert_eq!(BaseModelsTemplate.filename(), "base.js");
    assert_eq!(IndexControllersTemplate.filename(), "index.js");
    assert_eq!(BaseControllerTemplate.filename(), "base.js");
    assert_eq!(AllowedConfigTemplate.filename(), "_allowedOrigins.js");
    assert_eq!(CorsConfigTemplate.filename(), "_corsOptions.js");
    assert_eq!(IndexConfigTemplate.filename(), "index.js");
    assert_eq!(PrismaDatabaseTemplate.filename(), "_prisma.js");
    assert_eq!(IndexDatabaseTemplate.filename(), "index.js");
    assert_eq!(CredentialsMiddlewareTemplate.filename(), "_credentials.js");
    assert_eq!(IndexMiddlewareTemplate.filename(), "index.js");
    assert_eq!(IndexRoutesTemplate.filename(), "index.js");
    assert_eq!(env_template().name, "token");
}

#[test]
fn architecture_of_src() {
    let entries = Packages::BUN.get().create_architecture("../build/demo/src");
    let got: Vec<(TemplateKind, String, String)> =
        entries.into_iter().map(|e| (e.template, e.dir, e.path)).collect();
    let d = |s: &str| format!("../build/demo/src{}", s);
    let expected = vec![
        (TemplateKind::Index, d(""), d("/index.js")),
        (TemplateKind::IndexControllers, d("/controllers"), d("/controllers/index.js")),
        (TemplateKind::IndexModels, d("/models"), d("/models/index.js")),
        (TemplateKind::IndexDatabase, d("/database"), d("/database/index.js")),
        (TemplateKind::IndexMiddleware, d("/middleware"), d("/middleware/index.js")),
        (TemplateKind::IndexConfig, d("/configs"), d("/configs/index.js")),
        (TemplateKind::BaseController, d("/controllers"), d("/controllers/base.js")),
        (TemplateKind::BaseModels, d("/models"), d("/models/base.js")),
        (TemplateKind::PrismaDatabase, d("/database"), d("/database/_prisma.js")),
        (TemplateKind::CredentialsMiddleware, d("/middleware"), d("/middleware/_credentials.js")),
        (TemplateKind::AllowedConfig, d("/configs"), d("/configs/_allowedOrigins.js")),
        (TemplateKind::CorsConfig, d("/configs"), d("/configs/_corsOptions.js")),
        (TemplateKind::IndexRoutes, d("/routes"), d("/routes/index.js")),
    ];
    assert_eq!(got, expected);
}

#[test]
fn architecture_files_are_distinct() {
    for src in ["src", "../build/demo/src/", ""] {
        let entries = Packages::NPM.get().create_architecture(src);
        assert_eq!(entries.len(), 13);
        let mut paths: Vec<String> = entries.into_iter().map(|e| e.path).collect();
        paths.sort();
        paths.dedup();
        assert_eq!(paths.len(), 13, "src {:?}", src);
    }
}

#[test]
fn kind_filenames_match_template_types() {
    let pairs: [(TemplateKind, String); 13] = [
        (TemplateKind::Index, IndexTemplate.filename()),
        (TemplateKind::IndexControllers, IndexControllersTemplate.filename()),
        (TemplateKind::IndexModels, IndexModelsTemplate.filename()),
        (TemplateKind::IndexDatabase, IndexDatabaseTemplate.filename()),
        (TemplateKind::IndexMiddleware, IndexMiddlewareTemplate.filename()),
        (TemplateKind::IndexConfig, IndexConfigTemplate.filename()),
        (TemplateKind::BaseController, BaseControllerTemplate.filename()),
        (TemplateKind::BaseModels, BaseModelsTemplate.filename()),
        (TemplateKind::PrismaDatabase, PrismaDatabaseTemplate.filename()),
        (TemplateKind::CredentialsMiddleware, CredentialsMiddlewareTemplate.filename()),
        (TemplateKind::AllowedConfig, AllowedConfigTemplate.filename()),
        (TemplateKind::CorsConfig, CorsConfigTemplate.filename()),
        (TemplateKind::IndexRoutes, IndexRoutesTemplate.filename()),
    ];
    for (kind, name) in pairs {
        assert_eq!(kind.filename(), name, "kind {:?}", kind);
    }
    assert_eq!(TemplateKind::CorsConfig.filename(), "_corsOptions.js");
}

#[test]
fn init_files_text() {
    let name = "my-app";
    let expected_package = format!(
        r#"{{
  "name": "{}",
  "version": "1.0.0",
  "description": "",
  "main": "src/index.js",
  "scripts": {{
      "dev": "nodemon --exec babel-node ."
  }},
  "keywords": [],
  "author": "",
  "license": "ISC",
  "dependencies": {{
    "@prisma/client": "^5.21.1",
    "bcrypt": "^5.1.1",
    "cookie-parser": "^1.4.7",
    "cors": "^2.8.5",
    "date-fns": "^4.1.0",
    "express": "^4.21.1",
    "jsonwebtoken": "^9.0.2",
    "uuid": "^10.0.0",
    "zod": "^3.23.8"
  }},
  "devDependencies": {{
    "babel-plugin-module-resolver": "^5.0.2",
    "@babel/cli": "^7.18.10",
    "@babel/core": "^7.22.11",
    "@babel/node": "^7.22.10",
    "@babel/plugin-transform-object-rest-spread": "^7.24.7",
    "@babel/preset-env": "^7.22.10",
    "nodemon": "^2.0.15",
    "prisma": "^5.21.1"
  }}
}}"#,
        name
    );
    assert_eq!(package_json(name), expected_package);
    let expected_toml = format!(r#"[config]
project = "{}"
description = ""
author = ""
package = "{}"
language = "js"
framework = "express"
version = "1.0.0"

[lines]
route = "5"

"#, name, "pnpm");
    assert_eq!(uran_toml(name, "pnpm"), expected_toml);
    let expected_babel = format!(r#"{{
"presets": ["@babel/preset-env"],
"plugins": [
    "@babel/plugin-transform-object-rest-spread",
    [ "module-resolver", {{ "alias" : {{ "~": "./src"}} }} ] 
  ]
}}
"#);
    assert_eq!(babelrc(), expected_babel);
    let expected_js = format!(r#"{{
  "compilerOptions": {{
    "baseUrl": ".",
    "paths": {{
      "~/*": [ "./src/*" ],
    }}
  }}
}}
"#);
    assert_eq!(jsconfig(), expected_js);
    assert_eq!(PACKAGE_JSON_FILE, "package.json");
    assert_eq!(URAN_TOML_FILE, "uran.toml");
    assert_eq!(BABELRC_FILE, ".babelrc");
    assert_eq!(JSCONFIG_FILE, "jsconfig.json ");
}

#[test]
fn project_path_is_under_build() {
    assert_eq!(project("demo", "5").get_path(), "../build/demo");
}

#[test]
fn model_files_text_and_paths() {
    let (model_name, file_name, junction_table) = ("User", "users", "user_roles");
    let expected = format!(
        "import {{ BaseModel }} from './index.js';\n\n\
            const {0}Model = () => {{\n\
            const base = BaseModel(\n\t\t{{\n\
                \tmodel: '{1}',\n\
                \tjunctionTable: '{2}'\n\
            \t}})\n\
            return {{\n\
                ...base\n\
            }}\n\
            }}\n\n\
            export default {{ {0}Model }}\n\
            export {{ {0}Model }}\n",
        model_name, model_name.to_lowercase(), junction_table
    );
    let g = project("demo", "5").model_files(model_name, file_name, junction_table);
    assert_eq!(g.code, expected);
    assert_eq!(g.file_path, "../build/demo/src/models/_users.js");
    assert_eq!(g.index_path, "../build/demo/src/models/index.js");
    assert_eq!(g.index_line, format!("\nexport * from './_{}.js'", file_name));
}

#[test]
fn controller_files_text_and_paths() {
    let model_name = "Post";
    let expected = format!(
        "import {{ {0}Model }} from '../models/index.js'\n\
            import {{ BaseController }} from './index.js'\n\
            const {{save, getOne, getAll, update, remove, getTotalObjects}} = {0}Model()\n\n\
            const {0}Controller = () => {{\n\
                const include = {{}}\n\
                const base = BaseController(\n\
                    {{\n\
                        save: save,\n\
                        getOne: getOne,\n\
                        getAll: getAll,\n\
                        update: update,\n\
                        remove: remove,\n\
                        getTotalObjects: getTotalObjects,\n\
                        include: include,\n\
                    }}\n\
                )\n\
                return {{\n\
                    ...base,\n\
                }}\n\
            }}\n\n\
            export default {0}Controller\n\
            export {{ {0}Controller }}\n",
        model_name
    );
    let g = project("demo", "5").controller_files(model_name, "posts");
    assert_eq!(g.code, expected);
    assert_eq!(g.file_path, "../build/demo/src/controllers/_posts.js");
    assert_eq!(g.index_path, "../build/demo/src/controllers/index.js");
    assert_eq!(g.index_line, "\nexport * from './_posts.js'");
}

#[test]
fn route_files_text_and_paths() {
    let model_name = "Post";
    let expected = format!(
        "import {{ {0}Controller }} from '../controllers/index.js'\n\
            import {{ Router }} from 'express'\n\
            const router = Router()\n\n\
            const {{ create, readOne, readAll, updateObj, removeObj }} = {0}Controller()\n\n\
            router.route('/')\n\
                .post(create)\n\
                .get(readAll)\n\n\
            router.route('/:id')\n\
                .get(readOne)\n\
                .put(updateObj)\n\
                .delete(removeObj)\n\n\
            export default router;\n\
            export {{ router as {0}Routes }};\n",
        model_name
    );
    let g = project("demo", "5").route_files(model_name, "posts");
    assert_eq!(g.code, expected);
    assert_eq!(g.file_path, "../build/demo/src/routes/_posts.js");
    assert_eq!(g.index_path, "../build/demo/src/routes/index.js");
    assert_eq!(g.index_line, format!("import {{ {0}Routes }} from './_{1}.js';\n", model_name, "posts"));
}

fn mount_with_std_lines(route_setting: &str, route_content: &str, model_name: &str, route_name: &str) -> String {
    let route_lines: Vec<&str> = route_content.lines().collect();
    let route_line_number: usize = route_setting.parse().unwrap_or(5);
    let new_route_line = format!("routes.use('/{0}', {1}Routes);", route_name.to_lowercase(), model_name);
    let mut updated_content = String::new();
    for (i, line) in route_lines.iter().enumerate() {
        if i == route_line_number {
            updated_content.push_str(line);
            updated_content.push_str("\n");
            updated_content.push_str(&new_route_line);
            updated_content.push_str("\n");
        } else {
            updated_content.push_str(line);
            updated_content.push_str("\n");
        }
    }
    updated_content
}

#[test]
fn mount_route_matches_the_line_rule() {
    let index = "import { Router } from 'express'\nconst routes = Router()\n\n// routes\n\nroutes.get('/')\n\nexport default routes\n";
    for setting in ["5", "0", "1", "7", "100", "abc", "", "+2"] {
        for (model, route) in [("Post", "Posts"), ("User", "users")] {
            let p = project("demo", setting);
            assert_eq!(
                p.mount_route(index, model, route),
                mount_with_std_lines(setting, index, model, route),
                "setting {:?}",
                setting
            );
        }
    }
    let p = project("demo", "5");
    assert_eq!(p.mount_route("a\r\nb", "M", "R"), mount_with_std_lines("5", "a\r\nb", "M", "R"));
    assert_eq!(p.mount_route("", "M", "R"), "");
}

#[test]
fn mount_route_puts_the_line_after_line_n() {
    let p = project("demo", "1");
    assert_eq!(p.mount_route("a\nb\nc", "Post", "POSTS"), "a\nb\nroutes.use('/posts', PostRoutes);\nc\n");
}

#[test]
fn import_goes_first() {
    assert_eq!(prepend_line("import x;\n", "rest\n"), "import x;\nrest\n");
}
