use vstd::prelude::*;

use crate::paths::{is_absolute, join_path, spec_join_path};

verus! {

/// A file of a new project, rendered from a template: the template knows the
/// name the file gets.
pub trait Template {
    /// The name of the file that the template fills.
    spec fn spec_filename(&self) -> Seq<char>;

    /// The name of the file that the template fills.
    fn filename(&self) -> (r: String)
        ensures
            r@ == self.spec_filename(),
    ;
}

/// The `.env` file, with the name of its secret.
#[derive(Clone)]
pub struct EnvTemplate {
    pub name: String,
}

/// The entry point of the project, in `src/`.
#[derive(Clone, Copy)]
pub struct IndexTemplate;

/// The index of the models.
#[derive(Clone, Copy)]
pub struct IndexModelsTemplate;

/// The base model that the models build on.
#[derive(Clone, Copy)]
pub struct BaseModelsTemplate;

/// The index of the controllers.
#[derive(Clone, Copy)]
pub struct IndexControllersTemplate;

/// The base controller that the controllers build on.
#[derive(Clone, Copy)]
pub struct BaseControllerTemplate;

/// The list of allowed origins.
#[derive(Clone, Copy)]
pub struct AllowedConfigTemplate;

/// The CORS options.
#[derive(Clone, Copy)]
pub struct CorsConfigTemplate;

/// The index of the configuration files.
#[derive(Clone, Copy)]
pub struct IndexConfigTemplate;

/// The Prisma database client.
#[derive(Clone, Copy)]
pub struct PrismaDatabaseTemplate;

/// The index of the database files.
#[derive(Clone, Copy)]
pub struct IndexDatabaseTemplate;

/// The credentials middleware.
#[derive(Clone, Copy)]
pub struct CredentialsMiddlewareTemplate;

/// The index of the middleware.
#[derive(Clone, Copy)]
pub struct IndexMiddlewareTemplate;

/// The index of the routes.
#[derive(Clone, Copy)]
pub struct IndexRoutesTemplate;

impl Template for EnvTemplate {
    open spec fn spec_filename(&self) -> Seq<char> {
        ".env"@
    }

    fn filename(&self) -> (r: String) {
        String::from_str(".env")
    }
}

impl Template for IndexTemplate {
    open spec fn spec_filename(&self) -> Seq<char> {
        "index.js"@
    }

    fn filename(&self) -> (r: String) {
        String::from_str("index.js")
    }
}

impl Template for IndexModelsTemplate {
    open spec fn spec_filename(&self) -> Seq<char> {
        "index.js"@
    }

    fn filename(&self) -> (r: String) {
        String::from_str("index.js")
    }
}

impl Template for BaseModelsTemplate {
    open spec fn spec_filename(&self) -> Seq<char> {
        "base.js"@
    }

    fn filename(&self) -> (r: String) {
        String::from_str("base.js")
    }
}

impl Template for IndexControllersTemplate {
    open spec fn spec_filename(&self) -> Seq<char> {
        "index.js"@
    }

    fn filename(&self) -> (r: String) {
        String::from_str("index.js")
    }
}

impl Template for BaseControllerTemplate {
    open spec fn spec_filename(&self) -> Seq<char> {
        "base.js"@
    }

    fn filename(&self) -> (r: String) {
        String::from_str("base.js")
    }
}

impl Template for AllowedConfigTemplate {
    open spec fn spec_filename(&self) -> Seq<char> {
        "_allowedOrigins.js"@
    }

    fn filename(&self) -> (r: String) {
        String::from_str("_allowedOrigins.js")
    }
}

impl Template for CorsConfigTemplate {
    open spec fn spec_filename(&self) -> Seq<char> {
        "_corsOptions.js"@
    }

    fn filename(&self) -> (r: String) {
        String::from_str("_corsOptions.js")
    }
}

impl Template for IndexConfigTemplate {
    open spec fn spec_filename(&self) -> Seq<char> {
        "index.js"@
    }

    fn filename(&self) -> (r: String) {
        String::from_str("index.js")
    }
}

impl Template for PrismaDatabaseTemplate {
    open spec fn spec_filename(&self) -> Seq<char> {
        "_prisma.js"@
    }

    fn filename(&self) -> (r: String) {
        String::from_str("_prisma.js")
    }
}

impl Template for IndexDatabaseTemplate {
    open spec fn spec_filename(&self) -> Seq<char> {
        "index.js"@
    }

    fn filename(&self) -> (r: String) {
        String::from_str("index.js")
    }
}

impl Template for CredentialsMiddlewareTemplate {
    open spec fn spec_filename(&self) -> Seq<char> {
        "_credentials.js"@
    }

    fn filename(&self) -> (r: String) {
        String::from_str("_credentials.js")
    }
}

impl Template for IndexMiddlewareTemplate {
    open spec fn spec_filename(&self) -> Seq<char> {
        "index.js"@
    }

    fn filename(&self) -> (r: String) {
        String::from_str("index.js")
    }
}

impl Template for IndexRoutesTemplate {
    open spec fn spec_filename(&self) -> Seq<char> {
        "index.js"@
    }

    fn filename(&self) -> (r: String) {
        String::from_str("index.js")
    }
}

/// The templates that lay out the `src/` directory of a new project.
#[derive(Debug, Clone, Copy, PartialEq, Eq, Structural)]
pub enum TemplateKind {
    Index,
    IndexControllers,
    IndexModels,
    IndexDatabase,
    IndexMiddleware,
    IndexConfig,
    BaseController,
    BaseModels,
    PrismaDatabase,
    CredentialsMiddleware,
    AllowedConfig,
    CorsConfig,
    IndexRoutes,
}

/// The name of the file that a layout template fills.
pub open spec fn spec_kind_filename(k: TemplateKind) -> Seq<char> {
    match k {
        TemplateKind::Index => "index.js"@,
        TemplateKind::IndexControllers => "index.js"@,
        TemplateKind::IndexModels => "index.js"@,
        TemplateKind::IndexDatabase => "index.js"@,
        TemplateKind::IndexMiddleware => "index.js"@,
        TemplateKind::IndexConfig => "index.js"@,
        TemplateKind::BaseController => "base.js"@,
        TemplateKind::BaseModels => "base.js"@,
        TemplateKind::PrismaDatabase => "_prisma.js"@,
        TemplateKind::CredentialsMiddleware => "_credentials.js"@,
        TemplateKind::AllowedConfig => "_allowedOrigins.js"@,
        TemplateKind::CorsConfig => "_corsOptions.js"@,
        TemplateKind::IndexRoutes => "index.js"@,
    }
}

impl TemplateKind {
    /// The name of the file that the template fills: the one its template
    /// type gives.
    pub fn filename(&self) -> (r: String)
        ensures
            r@ == spec_kind_filename(*self),
    {
        match self {
            TemplateKind::Index => IndexTemplate.filename(),
            TemplateKind::IndexControllers => IndexControllersTemplate.filename(),
            TemplateKind::IndexModels => IndexModelsTemplate.filename(),
            TemplateKind::IndexDatabase => IndexDatabaseTemplate.filename(),
            TemplateKind::IndexMiddleware => IndexMiddlewareTemplate.filename(),
            TemplateKind::IndexConfig => IndexConfigTemplate.filename(),
            TemplateKind::BaseController => BaseControllerTemplate.filename(),
            TemplateKind::BaseModels => BaseModelsTemplate.filename(),
            TemplateKind::PrismaDatabase => PrismaDatabaseTemplate.filename(),
            TemplateKind::CredentialsMiddleware => CredentialsMiddlewareTemplate.filename(),
            TemplateKind::AllowedConfig => AllowedConfigTemplate.filename(),
            TemplateKind::CorsConfig => CorsConfigTemplate.filename(),
            TemplateKind::IndexRoutes => IndexRoutesTemplate.filename(),
        }
    }
}

/// One file of the layout: which template, the directory it goes to, and the
/// file it writes there.
pub struct ArchitectureEntry {
    pub template: TemplateKind,
    pub dir: String,
    pub path: String,
}

/// The entries, as template, directory and file path.
pub open spec fn entries_view(es: Seq<ArchitectureEntry>) -> Seq<(TemplateKind, Seq<char>, Seq<char>)> {
    es.map_values(|e: ArchitectureEntry| (e.template, e.dir@, e.path@))
}

/// A layout entry: the template, its directory, and its file in that directory.
pub open spec fn spec_entry(k: TemplateKind, dir: Seq<char>) -> (TemplateKind, Seq<char>, Seq<char>) {
    (k, dir, spec_join_path(dir, spec_kind_filename(k)))
}

/// The layout of `src/`: each template, the directory it goes to and the file
/// it writes, in the order the files are created.
pub open spec fn spec_architecture(src: Seq<char>) -> Seq<(TemplateKind, Seq<char>, Seq<char>)> {
    let controller = spec_join_path(src, "controllers"@);
    let models = spec_join_path(src, "models"@);
    let database = spec_join_path(src, "database"@);
    let middleware = spec_join_path(src, "middleware"@);
    let configs = spec_join_path(src, "configs"@);
    let routes = spec_join_path(src, "routes"@);
    seq![
        spec_entry(TemplateKind::Index, src),
        spec_entry(TemplateKind::IndexControllers, controller),
        spec_entry(TemplateKind::IndexModels, models),
        spec_entry(TemplateKind::IndexDatabase, database),
        spec_entry(TemplateKind::IndexMiddleware, middleware),
        spec_entry(TemplateKind::IndexConfig, configs),
        spec_entry(TemplateKind::BaseController, controller),
        spec_entry(TemplateKind::BaseModels, models),
        spec_entry(TemplateKind::PrismaDatabase, database),
        spec_entry(TemplateKind::CredentialsMiddleware, middleware),
        spec_entry(TemplateKind::AllowedConfig, configs),
        spec_entry(TemplateKind::CorsConfig, configs),
        spec_entry(TemplateKind::IndexRoutes, routes),
    ]
}

/// What a relative path is put after when joined to `base`: `base` itself,
/// with a `/` added unless it is empty or already ends with one.
pub open spec fn join_prefix(base: Seq<char>) -> Seq<char> {
    if base.len() == 0 || base.last() == '/' {
        base
    } else {
        base + seq!['/']
    }
}

proof fn lemma_join_relative(base: Seq<char>, part: Seq<char>)
    requires
        !is_absolute(part),
    ensures
        spec_join_path(base, part) == join_prefix(base) + part,
{
    assert(spec_join_path(base, part) =~= join_prefix(base) + part);
}

/// A file `f` in the subdirectory `d` of `base`.
proof fn lemma_join_in_subdir(base: Seq<char>, d: Seq<char>, f: Seq<char>)
    requires
        d.len() > 0,
        d[0] != '/',
        d.last() != '/',
        !is_absolute(f),
    ensures
        spec_join_path(spec_join_path(base, d), f) == join_prefix(base) + (d + seq!['/'] + f),
{
    lemma_join_relative(base, d);
    let bd = join_prefix(base) + d;
    assert(bd.len() > 0 && bd.last() == d.last());
    lemma_join_relative(bd, f);
    assert(join_prefix(bd) =~= join_prefix(base) + d + seq!['/']);
    assert(join_prefix(base) + d + seq!['/'] + f =~= join_prefix(base) + (d + seq!['/'] + f));
}

/// The layout writes 13 files, each to a path of its own: no two entries
/// write the same file.
pub proof fn lemma_architecture_paths_distinct(src: Seq<char>)
    ensures
        spec_architecture(src).len() == 13,
        forall|i: int, j: int|
            0 <= i < j < 13 ==> (#[trigger] spec_architecture(src)[i]).2 != (#[trigger] spec_architecture(
                src,
            )[j]).2,
{
    reveal_strlit("index.js");
    reveal_strlit("base.js");
    reveal_strlit("_prisma.js");
    reveal_strlit("_credentials.js");
    reveal_strlit("_allowedOrigins.js");
    reveal_strlit("_corsOptions.js");
    reveal_strlit("controllers");
    reveal_strlit("models");
    reveal_strlit("database");
    reveal_strlit("middleware");
    reveal_strlit("configs");
    reveal_strlit("routes");
    let a = spec_architecture(src);
    let p = join_prefix(src);
    let idx = "index.js"@;
    let base = "base.js"@;
    let s = seq![
        idx,
        "controllers"@ + seq!['/'] + idx,
        "models"@ + seq!['/'] + idx,
        "database"@ + seq!['/'] + idx,
        "middleware"@ + seq!['/'] + idx,
        "configs"@ + seq!['/'] + idx,
        "controllers"@ + seq!['/'] + base,
        "models"@ + seq!['/'] + base,
        "database"@ + seq!['/'] + "_prisma.js"@,
        "middleware"@ + seq!['/'] + "_credentials.js"@,
        "configs"@ + seq!['/'] + "_allowedOrigins.js"@,
        "configs"@ + seq!['/'] + "_corsOptions.js"@,
        "routes"@ + seq!['/'] + idx,
    ];
    let lens = seq![8int, 20, 15, 17, 19, 16, 19, 14, 19, 26, 26, 23, 15];
    let firsts = seq!['i', 'c', 'm', 'd', 'm', 'c', 'c', 'm', 'd', 'm', 'c', 'c', 'r'];
    lemma_join_relative(src, idx);
    lemma_join_in_subdir(src, "controllers"@, idx);
    lemma_join_in_subdir(src, "models"@, idx);
    lemma_join_in_subdir(src, "database"@, idx);
    lemma_join_in_subdir(src, "middleware"@, idx);
    lemma_join_in_subdir(src, "configs"@, idx);
    lemma_join_in_subdir(src, "controllers"@, base);
    lemma_join_in_subdir(src, "models"@, base);
    lemma_join_in_subdir(src, "database"@, "_prisma.js"@);
    lemma_join_in_subdir(src, "middleware"@, "_credentials.js"@);
    lemma_join_in_subdir(src, "configs"@, "_allowedOrigins.js"@);
    lemma_join_in_subdir(src, "configs"@, "_corsOptions.js"@);
    lemma_join_in_subdir(src, "routes"@, idx);
    assert forall|k: int| 0 <= k < 13 implies (#[trigger] a[k]).2 == p + s[k] && s[k].len() == lens[k]
        && s[k][0] == firsts[k] by {}
    assert forall|i: int, j: int| 0 <= i < j < 13 implies (#[trigger] a[i]).2 != (#[trigger] a[j]).2 by {
        assert(lens[i] != lens[j] || firsts[i] != firsts[j]);
        if a[i].2 == a[j].2 {
            assert((p + s[i]).subrange(p.len() as int, (p + s[i]).len() as int) =~= s[i]);
            assert((p + s[j]).subrange(p.len() as int, (p + s[j]).len() as int) =~= s[j]);
            assert(s[i] == s[j]);
        }
    }
}

/// The entry of template `kind` in directory `dir`.
fn layout_entry(kind: TemplateKind, dir: &String) -> (e: ArchitectureEntry)
    ensures
        (e.template, e.dir@, e.path@) == spec_entry(kind, dir@),
{
    let name = kind.filename();
    let path = join_path(dir.as_str(), name.as_str());
    ArchitectureEntry { template: kind, dir: dir.clone(), path }
}

/// A package manager that can set up a project.
#[derive(Clone, Debug)]
pub struct Package {
    pub id: u8,
    pub name: String,
    pub y: bool,
}

impl Package {
    pub fn new(id: u8, name: &str, y: bool) -> (r: Self)
        ensures
            r.id == id,
            r.name@ == name@,
            r.y == y,
    {
        Self { id, name: String::from_str(name), y }
    }

    pub fn get_name(&self) -> (r: &str)
        ensures
            r@ == self.name@,
    {
        self.name.as_str()
    }

    /// The files that lay out the `src/` directory `src` of a new project:
    /// each template, its directory, and the file it writes there.
    pub fn create_architecture(&self, src: &str) -> (r: Vec<ArchitectureEntry>)
        ensures
            entries_view(r@) == spec_architecture(src@),
    {
        let controller = join_path(src, "controllers");
        let models = join_path(src, "models");
        let database = join_path(src, "database");
        let middleware = join_path(src, "middleware");
        let configs = join_path(src, "configs");
        let routes = join_path(src, "routes");
        let src_dir = String::from_str(src);
        let mut r: Vec<ArchitectureEntry> = Vec::new();
        r.push(layout_entry(TemplateKind::Index, &src_dir));
        r.push(layout_entry(TemplateKind::IndexControllers, &controller));
        r.push(layout_entry(TemplateKind::IndexModels, &models));
        r.push(layout_entry(TemplateKind::IndexDatabase, &database));
        r.push(layout_entry(TemplateKind::IndexMiddleware, &middleware));
        r.push(layout_entry(TemplateKind::IndexConfig, &configs));
        r.push(layout_entry(TemplateKind::BaseController, &controller));
        r.push(layout_entry(TemplateKind::BaseModels, &models));
        r.push(layout_entry(TemplateKind::PrismaDatabase, &database));
        r.push(layout_entry(TemplateKind::CredentialsMiddleware, &middleware));
        r.push(layout_entry(TemplateKind::AllowedConfig, &configs));
        r.push(layout_entry(TemplateKind::CorsConfig, &configs));
        r.push(layout_entry(TemplateKind::IndexRoutes, &routes));
        assert(entries_view(r@) =~= spec_architecture(src@));
        r
    }
}

/// The package managers that can set up a project.
#[derive(Debug, Clone, Copy, PartialEq, Eq, Structural)]
pub enum Packages {
    PNPM,
    YARN,
    NPM,
    BUN,
}

/// The package manager with a given id; an unknown id means bun.
pub open spec fn spec_find_by_id(id: u8) -> Packages {
    if id == 1 {
        Packages::BUN
    } else if id == 2 {
        Packages::PNPM
    } else if id == 3 {
        Packages::YARN
    } else if id == 4 {
        Packages::NPM
    } else {
        Packages::BUN
    }
}

/// The id of a package manager.
pub open spec fn spec_package_id(p: Packages) -> u8 {
    match p {
        Packages::BUN => 1,
        Packages::PNPM => 2,
        Packages::YARN => 3,
        Packages::NPM => 4,
    }
}

/// The name of a package manager's program.
pub open spec fn spec_package_name(p: Packages) -> Seq<char> {
    match p {
        Packages::BUN => "bun"@,
        Packages::PNPM => "pnpm"@,
        Packages::YARN => "yarn"@,
        Packages::NPM => "npm"@,
    }
}

/// The flag that goes with a package manager.
pub open spec fn spec_package_flag(p: Packages) -> bool {
    match p {
        Packages::PNPM => false,
        _ => true,
    }
}

impl Packages {
    pub fn find_by_id(id: u8) -> (r: Self)
        ensures
            r == spec_find_by_id(id),
    {
        match id {
            1 => Self::BUN,
            2 => Self::PNPM,
            3 => Self::YARN,
            4 => Self::NPM,
            _ => Self::BUN,
        }
    }

    fn default(&self) -> (r: Package)
        ensures
            r.id == spec_package_id(*self),
            r.name@ == spec_package_name(*self),
            r.y == spec_package_flag(*self),
    {
        match self {
            Self::BUN => Package::new(1, "bun", true),
            Self::PNPM => Package::new(2, "pnpm", false),
            Self::YARN => Package::new(3, "yarn", true),
            Self::NPM => Package::new(4, "npm", true),
        }
    }

    pub fn get(&self) -> (r: Package)
        ensures
            r.id == spec_package_id(*self),
            r.name@ == spec_package_name(*self),
            r.y == spec_package_flag(*self),
    {
        self.default()
    }
}

/// A package manager's id leads back to it.
pub proof fn lemma_find_by_id_of_id(p: Packages)
    ensures
        spec_find_by_id(spec_package_id(p)) == p,
{
}

/// Each id from 1 to 4 names the package manager with that id; every other
/// id names bun.
pub proof fn lemma_find_by_id_ids(id: u8)
    ensures
        1 <= id <= 4 ==> spec_package_id(spec_find_by_id(id)) == id,
        !(1 <= id <= 4) ==> spec_find_by_id(id) == Packages::BUN,
        spec_package_id(Packages::BUN) == 1,
        spec_package_id(Packages::PNPM) == 2,
        spec_package_id(Packages::YARN) == 3,
        spec_package_id(Packages::NPM) == 4,
{
}

/// Each package manager runs the program of its own name, and only pnpm has
/// its flag off.
pub proof fn lemma_package_names(p: Packages)
    ensures
        p == Packages::BUN ==> spec_package_name(p) == "bun"@,
        p == Packages::PNPM ==> spec_package_name(p) == "pnpm"@,
        p == Packages::YARN ==> spec_package_name(p) == "yarn"@,
        p == Packages::NPM ==> spec_package_name(p) == "npm"@,
        spec_package_flag(p) <==> p != Packages::PNPM,
{
}

/// Two package managers with the same id are the same one.
pub proof fn lemma_package_id_injective(p: Packages, q: Packages)
    ensures
        spec_package_id(p) == spec_package_id(q) ==> p == q,
{
}

/// The package managers that the server looks for, in the order it asks them.
pub open spec fn spec_package_managers() -> Seq<Packages> {
    seq![Packages::BUN, Packages::PNPM, Packages::YARN, Packages::NPM]
}

/// The package managers that the server looks for, in the order it asks them.
pub fn package_managers() -> (r: Vec<Packages>)
    ensures
        r@ == spec_package_managers(),
{
    let mut r: Vec<Packages> = Vec::new();
    r.push(Packages::BUN);
    r.push(Packages::PNPM);
    r.push(Packages::YARN);
    r.push(Packages::NPM);
    assert(r@ =~= spec_package_managers());
    r
}

/// The name of the file that describes a new project to its package manager.
pub const PACKAGE_JSON_FILE: &'static str = "package.json";

/// The name of the file that describes a new project to this server.
pub const URAN_TOML_FILE: &'static str = "uran.toml";

/// The name of the Babel configuration file.
pub const BABELRC_FILE: &'static str = ".babelrc";

/// The name of the editor configuration file, as the server writes it.
pub const JSCONFIG_FILE: &'static str = "jsconfig.json ";

/// `package.json` up to the project's name.
pub const PACKAGE_JSON_HEAD: &'static str = "{\n  \"name\": \"";

/// `package.json` after the project's name.
pub const PACKAGE_JSON_TAIL: &'static str = "\",\n  \"version\": \"1.0.0\",\n  \"description\": \"\",\n  \"main\": \"src/index.js\",\n  \"scripts\": {\n      \"dev\": \"nodemon --exec babel-node .\"\n  },\n  \"keywords\": [],\n  \"author\": \"\",\n  \"license\": \"ISC\",\n  \"dependencies\": {\n    \"@prisma/client\": \"^5.21.1\",\n    \"bcrypt\": \"^5.1.1\",\n    \"cookie-parser\": \"^1.4.7\",\n    \"cors\": \"^2.8.5\",\n    \"date-fns\": \"^4.1.0\",\n    \"express\": \"^4.21.1\",\n    \"jsonwebtoken\": \"^9.0.2\",\n    \"uuid\": \"^10.0.0\",\n    \"zod\": \"^3.23.8\"\n  },\n  \"devDependencies\": {\n    \"babel-plugin-module-resolver\": \"^5.0.2\",\n    \"@babel/cli\": \"^7.18.10\",\n    \"@babel/core\": \"^7.22.11\",\n    \"@babel/node\": \"^7.22.10\",\n    \"@babel/plugin-transform-object-rest-spread\": \"^7.24.7\",\n    \"@babel/preset-env\": \"^7.22.10\",\n    \"nodemon\": \"^2.0.15\",\n    \"prisma\": \"^5.21.1\"\n  }\n}";

/// `uran.toml` up to the project's name.
pub const URAN_TOML_HEAD: &'static str = "[config]\nproject = \"";

/// `uran.toml` between the project's name and the package manager's.
pub const URAN_TOML_MIDDLE: &'static str = "\"\ndescription = \"\"\nauthor = \"\"\npackage = \"";

/// `uran.toml` after the package manager's name.
pub const URAN_TOML_TAIL: &'static str = "\"\nlanguage = \"js\"\nframework = \"express\"\nversion = \"1.0.0\"\n\n[lines]\nroute = \"5\"\n\n";

/// The Babel configuration of a new project.
pub const BABELRC: &'static str = "{\n\"presets\": [\"@babel/preset-env\"],\n\"plugins\": [\n    \"@babel/plugin-transform-object-rest-spread\",\n    [ \"module-resolver\", { \"alias\" : { \"~\": \"./src\"} } ] \n  ]\n}\n";

/// The editor configuration of a new project.
pub const JSCONFIG: &'static str = "{\n  \"compilerOptions\": {\n    \"baseUrl\": \".\",\n    \"paths\": {\n      \"~/*\": [ \"./src/*\" ],\n    }\n  }\n}\n";

/// The `package.json` of a new project called `project`.
pub fn package_json(project: &str) -> (r: String)
    ensures
        r@ == PACKAGE_JSON_HEAD@ + project@ + PACKAGE_JSON_TAIL@,
{
    let mut r = String::from_str(PACKAGE_JSON_HEAD);
    r.append(project);
    r.append(PACKAGE_JSON_TAIL);
    r
}

/// The `uran.toml` of a new project called `project`, set up by `package`.
pub fn uran_toml(project: &str, package: &str) -> (r: String)
    ensures
        r@ == URAN_TOML_HEAD@ + project@ + URAN_TOML_MIDDLE@ + package@ + URAN_TOML_TAIL@,
{
    let mut r = String::from_str(URAN_TOML_HEAD);
    r.append(project);
    r.append(URAN_TOML_MIDDLE);
    r.append(package);
    r.append(URAN_TOML_TAIL);
    r
}

/// The Babel configuration of a new project.
pub fn babelrc() -> (r: String)
    ensures
        r@ == BABELRC@,
{
    String::from_str(BABELRC)
}

/// The editor configuration of a new project.
pub fn jsconfig() -> (r: String)
    ensures
        r@ == JSCONFIG@,
{
    String::from_str(JSCONFIG)
}

/// The `.env` template of a new project: its secret is called `token`.
pub fn env_template() -> (r: EnvTemplate)
    ensures
        r.name@ == "token"@,
{
    EnvTemplate { name: String::from_str("token") }
}

} // verus!
