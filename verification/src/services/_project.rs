use vstd::prelude::*;

use crate::paths::{join_path, project_dir, spec_join_path, spec_project_dir, BUILD_DIR};
use crate::text::{
    chars_of, is_plain_line, join_lines_inserting, lemma_lines_after_insert,
    lemma_lines_have_no_newline, join_lines_with, parse_usize, spec_lines, spec_parse_usize,
    spec_to_lowercase, split_lines, string_of, to_lowercase,
};

verus! {

/// The `[config]` table of a project's `uran.toml`.
pub struct Config {
    pub project: String,
    pub description: String,
    pub author: String,
    pub package: String,
    pub language: String,
    pub framework: String,
    pub version: String,
}

/// The `[lines]` table of a project's `uran.toml`: where new routes go.
pub struct Lines {
    pub route: String,
}

/// A project's `uran.toml`.
pub struct Data {
    pub config: Config,
    pub lines: Lines,
}

/// A generated project, as its `uran.toml` describes it.
pub struct Project {
    pub data: Data,
}

/// A new source file of a project, and the line that its directory's index
/// gets for it.
pub struct GeneratedCode {
    pub file_path: String,
    pub code: String,
    pub index_path: String,
    pub index_line: String,
}

/// Piece 0 of a generated model file, between the names it holds.
pub const MODEL_CODE_0: &'static str = "import { BaseModel } from './index.js';\n\nconst ";
/// Piece 1 of a generated model file, between the names it holds.
pub const MODEL_CODE_1: &'static str = "Model = () => {\nconst base = BaseModel(\n\t\t{\n\tmodel: '";
/// Piece 2 of a generated model file, between the names it holds.
pub const MODEL_CODE_2: &'static str = "',\n\tjunctionTable: '";
/// Piece 3 of a generated model file, between the names it holds.
pub const MODEL_CODE_3: &'static str = "'\n\t})\nreturn {\n...base\n}\n}\n\nexport default { ";
/// Piece 4 of a generated model file, between the names it holds.
pub const MODEL_CODE_4: &'static str = "Model }\nexport { ";
/// Piece 5 of a generated model file, between the names it holds.
pub const MODEL_CODE_5: &'static str = "Model }\n";
/// Piece 0 of a generated controller file, between the names it holds.
pub const CONTROLLER_CODE_0: &'static str = "import { ";
/// Piece 1 of a generated controller file, between the names it holds.
pub const CONTROLLER_CODE_1: &'static str = "Model } from '../models/index.js'\nimport { BaseController } from './index.js'\nconst {save, getOne, getAll, update, remove, getTotalObjects} = ";
/// Piece 2 of a generated controller file, between the names it holds.
pub const CONTROLLER_CODE_2: &'static str = "Model()\n\nconst ";
/// Piece 3 of a generated controller file, between the names it holds.
pub const CONTROLLER_CODE_3: &'static str = "Controller = () => {\nconst include = {}\nconst base = BaseController(\n{\nsave: save,\ngetOne: getOne,\ngetAll: getAll,\nupdate: update,\nremove: remove,\ngetTotalObjects: getTotalObjects,\ninclude: include,\n}\n)\nreturn {\n...base,\n}\n}\n\nexport default ";
/// Piece 4 of a generated controller file, between the names it holds.
pub const CONTROLLER_CODE_4: &'static str = "Controller\nexport { ";
/// Piece 5 of a generated controller file, between the names it holds.
pub const CONTROLLER_CODE_5: &'static str = "Controller }\n";
/// Piece 0 of a generated router file, between the names it holds.
pub const ROUTER_CODE_0: &'static str = "import { ";
/// Piece 1 of a generated router file, between the names it holds.
pub const ROUTER_CODE_1: &'static str = "Controller } from '../controllers/index.js'\nimport { Router } from 'express'\nconst router = Router()\n\nconst { create, readOne, readAll, updateObj, removeObj } = ";
/// Piece 2 of a generated router file, between the names it holds.
pub const ROUTER_CODE_2: &'static str = "Controller()\n\nrouter.route('/')\n.post(create)\n.get(readAll)\n\nrouter.route('/:id')\n.get(readOne)\n.put(updateObj)\n.delete(removeObj)\n\nexport default router;\nexport { router as ";
/// Piece 3 of a generated router file, between the names it holds.
pub const ROUTER_CODE_3: &'static str = "Routes };\n";

/// The start of the line that exports a new file from its directory's index.
pub const EXPORT_LINE_HEAD: &'static str = "\nexport * from './_";

/// The end of the line that exports a new file from its directory's index.
pub const EXPORT_LINE_TAIL: &'static str = ".js'";

/// The line that imports a new router into the routes index, up to the model.
pub const IMPORT_LINE_HEAD: &'static str = "import { ";

/// The line that imports a new router, between the model and the file.
pub const IMPORT_LINE_MIDDLE: &'static str = "Routes } from './_";

/// The end of the line that imports a new router.
pub const IMPORT_LINE_TAIL: &'static str = ".js';\n";

/// The line that mounts a new router, up to its route.
pub const ROUTE_USE_HEAD: &'static str = "routes.use('/";

/// The line that mounts a new router, between the route and the model.
pub const ROUTE_USE_MIDDLE: &'static str = "', ";

/// The end of the line that mounts a new router.
pub const ROUTE_USE_TAIL: &'static str = "Routes);";

/// The line after which new routes are mounted when `uran.toml` does not say.
pub const DEFAULT_ROUTE_LINE: usize = 5;

/// The name of the file that a new model, controller or router goes to.
pub open spec fn spec_code_file_name(file: Seq<char>) -> Seq<char> {
    "_"@ + file + ".js"@
}

/// The directory `kind` (models, controllers, routes) of the project's sources.
pub open spec fn spec_code_dir(project: Seq<char>, kind: Seq<char>) -> Seq<char> {
    spec_join_path(spec_join_path(spec_project_dir(project), "src"@), kind)
}

/// The source of a new model.
pub open spec fn spec_model_code(model: Seq<char>, junction: Seq<char>) -> Seq<char> {
    MODEL_CODE_0@ + model + MODEL_CODE_1@ + spec_to_lowercase(model) + MODEL_CODE_2@ + junction
        + MODEL_CODE_3@ + model + MODEL_CODE_4@ + model + MODEL_CODE_5@
}

/// The source of a new controller.
pub open spec fn spec_controller_code(model: Seq<char>) -> Seq<char> {
    CONTROLLER_CODE_0@ + model + CONTROLLER_CODE_1@ + model + CONTROLLER_CODE_2@ + model
        + CONTROLLER_CODE_3@ + model + CONTROLLER_CODE_4@ + model + CONTROLLER_CODE_5@
}

/// The source of a new router.
pub open spec fn spec_router_code(model: Seq<char>) -> Seq<char> {
    ROUTER_CODE_0@ + model + ROUTER_CODE_1@ + model + ROUTER_CODE_2@ + model + ROUTER_CODE_3@
}

/// The line that exports a new file from its directory's index.
pub open spec fn spec_export_line(file: Seq<char>) -> Seq<char> {
    EXPORT_LINE_HEAD@ + file + EXPORT_LINE_TAIL@
}

/// The line that imports a new router into the routes index.
pub open spec fn spec_import_line(model: Seq<char>, file: Seq<char>) -> Seq<char> {
    IMPORT_LINE_HEAD@ + model + IMPORT_LINE_MIDDLE@ + file + IMPORT_LINE_TAIL@
}

/// The line that mounts a new router on its route.
pub open spec fn spec_route_use_line(model: Seq<char>, route: Seq<char>) -> Seq<char> {
    ROUTE_USE_HEAD@ + spec_to_lowercase(route) + ROUTE_USE_MIDDLE@ + model + ROUTE_USE_TAIL@
}

/// The line (counted from 0) after which new routes are mounted: the number
/// `uran.toml` gives, or the default where it gives none.
pub open spec fn spec_route_line_index(setting: Seq<char>) -> usize {
    match spec_parse_usize(setting) {
        Some(n) => n,
        None => DEFAULT_ROUTE_LINE,
    }
}

/// The code of a kind of file (model, controller, router) with the paths it goes to.
pub open spec fn spec_generated(
    g: GeneratedCode,
    project: Seq<char>,
    kind: Seq<char>,
    file: Seq<char>,
    code: Seq<char>,
    index_line: Seq<char>,
) -> bool {
    &&& g.file_path@ == spec_join_path(spec_code_dir(project, kind), spec_code_file_name(file))
    &&& g.code@ == code
    &&& g.index_path@ == spec_join_path(spec_code_dir(project, kind), "index.js"@)
    &&& g.index_line@ == index_line
}

/// `first` followed by `rest`.
fn concat(first: &str, rest: &str) -> (r: String)
    ensures
        r@ == first@ + rest@,
{
    let mut r = String::from_str(first);
    r.append(rest);
    r
}

impl Project {
    /// The project's directory, under the build directory.
    pub fn get_path(&self) -> (r: String)
        ensures
            r@ == spec_project_dir(self.data.config.project@),
            r@ == spec_join_path(BUILD_DIR@, self.data.config.project@),
    {
        project_dir(self.data.config.project.as_str())
    }

    /// The directory `kind` of the project's sources.
    fn code_dir(&self, kind: &str) -> (r: String)
        ensures
            r@ == spec_code_dir(self.data.config.project@, kind@),
    {
        let src = join_path(self.get_path().as_str(), "src");
        join_path(src.as_str(), kind)
    }

    /// Where a new file of the directory `kind` goes, its code, and its index.
    fn code_files(&self, kind: &str, file_name: &str, code: String, index_line: String) -> (r:
        GeneratedCode)
        ensures
            spec_generated(r, self.data.config.project@, kind@, file_name@, code@, index_line@),
    {
        let dir = self.code_dir(kind);
        let name = concat("_", file_name);
        let name = concat(name.as_str(), ".js");
        GeneratedCode {
            file_path: join_path(dir.as_str(), name.as_str()),
            code,
            index_path: join_path(dir.as_str(), "index.js"),
            index_line,
        }
    }

    /// The model `model_name`, stored in `_<file_name>.js` of the models and
    /// exported from their index.
    pub fn model_files(&self, model_name: &str, file_name: &str, junction_table: &str) -> (r:
        GeneratedCode)
        ensures
            spec_generated(
                r,
                self.data.config.project@,
                "models"@,
                file_name@,
                spec_model_code(model_name@, junction_table@),
                spec_export_line(file_name@),
            ),
            r.index_line@ == EXPORT_LINE_HEAD@ + file_name@ + EXPORT_LINE_TAIL@,
            r.code@ == MODEL_CODE_0@ + model_name@ + MODEL_CODE_1@ + spec_to_lowercase(model_name@)
                + MODEL_CODE_2@ + junction_table@ + MODEL_CODE_3@ + model_name@ + MODEL_CODE_4@
                + model_name@ + MODEL_CODE_5@,
    {
        let lower = to_lowercase(model_name);
        let mut code = String::from_str(MODEL_CODE_0);
        code.append(model_name);
        code.append(MODEL_CODE_1);
        code.append(lower.as_str());
        code.append(MODEL_CODE_2);
        code.append(junction_table);
        code.append(MODEL_CODE_3);
        code.append(model_name);
        code.append(MODEL_CODE_4);
        code.append(model_name);
        code.append(MODEL_CODE_5);
        let mut line = String::from_str(EXPORT_LINE_HEAD);
        line.append(file_name);
        line.append(EXPORT_LINE_TAIL);
        self.code_files("models", file_name, code, line)
    }

    /// The controller of `model_name`, stored in `_<file_name>.js` of the
    /// controllers and exported from their index.
    pub fn controller_files(&self, model_name: &str, file_name: &str) -> (r: GeneratedCode)
        ensures
            spec_generated(
                r,
                self.data.config.project@,
                "controllers"@,
                file_name@,
                spec_controller_code(model_name@),
                spec_export_line(file_name@),
            ),
            r.index_line@ == EXPORT_LINE_HEAD@ + file_name@ + EXPORT_LINE_TAIL@,
            r.code@ == CONTROLLER_CODE_0@ + model_name@ + CONTROLLER_CODE_1@ + model_name@
                + CONTROLLER_CODE_2@ + model_name@ + CONTROLLER_CODE_3@ + model_name@
                + CONTROLLER_CODE_4@ + model_name@ + CONTROLLER_CODE_5@,
    {
        let mut code = String::from_str(CONTROLLER_CODE_0);
        code.append(model_name);
        code.append(CONTROLLER_CODE_1);
        code.append(model_name);
        code.append(CONTROLLER_CODE_2);
        code.append(model_name);
        code.append(CONTROLLER_CODE_3);
        code.append(model_name);
        code.append(CONTROLLER_CODE_4);
        code.append(model_name);
        code.append(CONTROLLER_CODE_5);
        let mut line = String::from_str(EXPORT_LINE_HEAD);
        line.append(file_name);
        line.append(EXPORT_LINE_TAIL);
        self.code_files("controllers", file_name, code, line)
    }

    /// The router of `model_name`, stored in `_<file_name>.js` of the routes;
    /// its import line goes at the top of the routes index.
    pub fn route_files(&self, model_name: &str, file_name: &str) -> (r: GeneratedCode)
        ensures
            spec_generated(
                r,
                self.data.config.project@,
                "routes"@,
                file_name@,
                spec_router_code(model_name@),
                spec_import_line(model_name@, file_name@),
            ),
            r.code@ == ROUTER_CODE_0@ + model_name@ + ROUTER_CODE_1@ + model_name@ + ROUTER_CODE_2@
                + model_name@ + ROUTER_CODE_3@,
            r.index_line@ == IMPORT_LINE_HEAD@ + model_name@ + IMPORT_LINE_MIDDLE@ + file_name@
                + IMPORT_LINE_TAIL@,
    {
        let mut code = String::from_str(ROUTER_CODE_0);
        code.append(model_name);
        code.append(ROUTER_CODE_1);
        code.append(model_name);
        code.append(ROUTER_CODE_2);
        code.append(model_name);
        code.append(ROUTER_CODE_3);
        let mut line = String::from_str(IMPORT_LINE_HEAD);
        line.append(model_name);
        line.append(IMPORT_LINE_MIDDLE);
        line.append(file_name);
        line.append(IMPORT_LINE_TAIL);
        self.code_files("routes", file_name, code, line)
    }

    /// The routes index `content` with the router of `model_name` mounted on
    /// `route_name` (lowercased) on a line of its own, right after the line
    /// that `uran.toml` names; every line ends with a newline afterwards.
    pub fn mount_route(&self, content: &str, model_name: &str, route_name: &str) -> (r: String)
        ensures
            r@ == join_lines_inserting(
                spec_lines(content@),
                spec_route_line_index(self.data.lines.route@) as int,
                spec_route_use_line(model_name@, route_name@),
            ),
            spec_parse_usize(self.data.lines.route@) matches Some(n) ==> r@ == join_lines_inserting(
                spec_lines(content@),
                n as int,
                ROUTE_USE_HEAD@ + spec_to_lowercase(route_name@) + ROUTE_USE_MIDDLE@ + model_name@
                    + ROUTE_USE_TAIL@,
            ),
            spec_parse_usize(self.data.lines.route@) is None ==> r@ == join_lines_inserting(
                spec_lines(content@),
                5,
                ROUTE_USE_HEAD@ + spec_to_lowercase(route_name@) + ROUTE_USE_MIDDLE@ + model_name@
                    + ROUTE_USE_TAIL@,
            ),
    {
        let n: usize = match parse_usize(self.data.lines.route.as_str()) {
            Some(n) => n,
            None => DEFAULT_ROUTE_LINE,
        };
        let lower = to_lowercase(route_name);
        let mut line = String::from_str(ROUTE_USE_HEAD);
        line.append(lower.as_str());
        line.append(ROUTE_USE_MIDDLE);
        line.append(model_name);
        line.append(ROUTE_USE_TAIL);
        let lines = split_lines(content);
        let extra = chars_of(line.as_str());
        let out = join_lines_with(&lines, n, &extra);
        string_of(&out)
    }
}

/// `line` put in front of `content`, as the routes index gets its import.
pub fn prepend_line(line: &str, content: &str) -> (r: String)
    ensures
        r@ == line@ + content@,
{
    concat(line, content)
}


/// Mounting a route keeps every line of the routes index, in order, and adds
/// the mount line right after the line that `uran.toml` names; where the index
/// has no such line, its lines stay as they were. (Lines ending in a carriage
/// return would lose it, and a route or model with a newline would break the
/// mount line: those are left out.)
pub proof fn lemma_mount_route_lines(
    content: Seq<char>,
    setting: Seq<char>,
    model: Seq<char>,
    route: Seq<char>,
)
    requires
        forall|i: int|
            0 <= i < spec_lines(content).len() ==> !((#[trigger] spec_lines(content)[i]).len() > 0
                && spec_lines(content)[i].last() == '\r'),
        !spec_route_use_line(model, route).contains('\n'),
    ensures
        ({
            let ls = spec_lines(content);
            let n: int = match spec_parse_usize(setting) {
                Some(k) => k as int,
                None => 5,
            };
            let e = spec_route_use_line(model, route);
            &&& n < ls.len() ==> spec_lines(join_lines_inserting(ls, n, e)) == ls.insert(n + 1, e)
            &&& n >= ls.len() ==> spec_lines(join_lines_inserting(ls, n, e)) == ls
        }),
{
    let ls = spec_lines(content);
    let e = spec_route_use_line(model, route);
    lemma_lines_have_no_newline(content);
    assert forall|i: int| 0 <= i < ls.len() implies is_plain_line(#[trigger] ls[i]) by {}
    reveal_strlit("Routes);");
    assert(e.last() == ';') by {
        let head = ROUTE_USE_HEAD@ + spec_to_lowercase(route) + ROUTE_USE_MIDDLE@ + model;
        assert(e == head + ROUTE_USE_TAIL@);
        assert(ROUTE_USE_TAIL@.len() == 8);
        assert(e[e.len() - 1] == ROUTE_USE_TAIL@[7]);
    }
    lemma_lines_after_insert(ls, spec_route_line_index(setting) as int, e);
}


/// The line after which a route is mounted is the number that `uran.toml`
/// gives, itself, whatever its size; 5 where it gives no number.
pub proof fn lemma_route_line_is_setting(setting: Seq<char>)
    ensures
        spec_parse_usize(setting) matches Some(n) ==> spec_route_line_index(setting) == n,
        spec_parse_usize(setting) is None ==> spec_route_line_index(setting) == 5,
{
}

/// A generated model holds the model name, its lowercase and the junction
/// table verbatim, each in its place between the fixed pieces; the junction
/// table adds exactly its own characters, whatever it is (empty included).
pub proof fn lemma_model_code_holds_its_names(m: Seq<char>, j: Seq<char>, j2: Seq<char>)
    ensures
        spec_model_code(m, j) == MODEL_CODE_0@ + m + MODEL_CODE_1@ + spec_to_lowercase(m)
            + MODEL_CODE_2@ + j + MODEL_CODE_3@ + m + MODEL_CODE_4@ + m + MODEL_CODE_5@,
        spec_model_code(m, j).len() - j.len() == spec_model_code(m, j2).len() - j2.len(),
        ({
            let k = (MODEL_CODE_0@ + m + MODEL_CODE_1@ + spec_to_lowercase(m) + MODEL_CODE_2@).len();
            &&& spec_model_code(m, j).subrange(k as int, (k + j.len()) as int) == j
            &&& spec_model_code(m, j).take(k as int) == spec_model_code(m, j2).take(k as int)
        }),
{
    let pre = MODEL_CODE_0@ + m + MODEL_CODE_1@ + spec_to_lowercase(m) + MODEL_CODE_2@;
    let post = MODEL_CODE_3@ + m + MODEL_CODE_4@ + m + MODEL_CODE_5@;
    assert(spec_model_code(m, j) =~= pre + j + post);
    assert(spec_model_code(m, j2) =~= pre + j2 + post);
    assert((pre + j + post).subrange(pre.len() as int, (pre.len() + j.len()) as int) =~= j);
    assert((pre + j + post).take(pre.len() as int) =~= pre);
    assert((pre + j2 + post).take(pre.len() as int) =~= pre);
}

/// A generated controller holds the model name verbatim in each of its five
/// places, so it grows by five characters for each character of the name.
pub proof fn lemma_controller_code_holds_model(m: Seq<char>, m2: Seq<char>)
    ensures
        spec_controller_code(m) == CONTROLLER_CODE_0@ + m + CONTROLLER_CODE_1@ + m
            + CONTROLLER_CODE_2@ + m + CONTROLLER_CODE_3@ + m + CONTROLLER_CODE_4@ + m
            + CONTROLLER_CODE_5@,
        spec_controller_code(m).len() - 5 * m.len() == spec_controller_code(m2).len() - 5 * m2.len(),
        spec_controller_code(m).subrange(
            CONTROLLER_CODE_0@.len() as int,
            (CONTROLLER_CODE_0@.len() + m.len()) as int,
        ) == m,
{
    assert(spec_controller_code(m).subrange(
        CONTROLLER_CODE_0@.len() as int,
        (CONTROLLER_CODE_0@.len() + m.len()) as int,
    ) =~= m);
}

/// A generated router holds the model name verbatim in each of its three
/// places.
pub proof fn lemma_router_code_holds_model(m: Seq<char>, m2: Seq<char>)
    ensures
        spec_router_code(m) == ROUTER_CODE_0@ + m + ROUTER_CODE_1@ + m + ROUTER_CODE_2@ + m
            + ROUTER_CODE_3@,
        spec_router_code(m).len() - 3 * m.len() == spec_router_code(m2).len() - 3 * m2.len(),
{
}


/// A generated file goes to `_<file>.js` in the directory `kind` of the
/// project's `src/`, under the build directory, and its index is `index.js`
/// in that same directory.
pub proof fn lemma_generated_paths(
    g: GeneratedCode,
    project: Seq<char>,
    kind: Seq<char>,
    file: Seq<char>,
    code: Seq<char>,
    index_line: Seq<char>,
)
    requires
        spec_generated(g, project, kind, file, code, index_line),
    ensures
        ({
            let dir = spec_join_path(spec_join_path(spec_join_path(BUILD_DIR@, project), "src"@), kind);
            &&& g.file_path@ == spec_join_path(dir, "_"@ + file + ".js"@)
            &&& g.index_path@ == spec_join_path(dir, "index.js"@)
            &&& g.code@ == code
            &&& g.index_line@ == index_line
        }),
{
}

} // verus!
