use vstd::prelude::*;

verus! {

/// One feature of a generated project: the route, model, controller and file
/// that were created together.
#[derive(Debug, PartialEq, Clone)]
pub struct FeatureMapping {
    pub route: String,
    pub model: String,
    pub controller: String,
    pub file: String,
}

/// The text of a feature's four names.
pub struct FeatureView {
    pub route: Seq<char>,
    pub model: Seq<char>,
    pub controller: Seq<char>,
    pub file: Seq<char>,
}

impl View for FeatureMapping {
    type V = FeatureView;

    open spec fn view(&self) -> FeatureView {
        FeatureView {
            route: self.route@,
            model: self.model@,
            controller: self.controller@,
            file: self.file@,
        }
    }
}

/// The features recorded in a project's mapping file.
pub struct Mapping {
    pub features: Vec<FeatureMapping>,
}

/// A project's mapping file: its features, and where it is stored.
pub struct UranMapping {
    pub mapping: Mapping,
    pub path: String,
}

/// The features, by their names.
pub open spec fn feature_views(fs: Seq<FeatureMapping>) -> Seq<FeatureView> {
    fs.map_values(|f: FeatureMapping| f@)
}

/// Some feature has this route.
pub open spec fn has_route_in(fs: Seq<FeatureView>, route: Seq<char>) -> bool {
    exists|i: int| 0 <= i < fs.len() && (#[trigger] fs[i]).route == route
}

/// Some feature has this controller.
pub open spec fn has_controller_in(fs: Seq<FeatureView>, controller: Seq<char>) -> bool {
    exists|i: int| 0 <= i < fs.len() && (#[trigger] fs[i]).controller == controller
}

/// Some feature has this model.
pub open spec fn has_model_in(fs: Seq<FeatureView>, model: Seq<char>) -> bool {
    exists|i: int| 0 <= i < fs.len() && (#[trigger] fs[i]).model == model
}

/// Some feature has this file.
pub open spec fn has_file_in(fs: Seq<FeatureView>, file: Seq<char>) -> bool {
    exists|i: int| 0 <= i < fs.len() && (#[trigger] fs[i]).file == file
}

impl View for UranMapping {
    type V = Seq<FeatureView>;

    open spec fn view(&self) -> Seq<FeatureView> {
        feature_views(self.mapping.features@)
    }
}

/// Which of a feature's four names a search looks at.
#[derive(Clone, Copy)]
enum Field {
    Route,
    Controller,
    Model,
    File,
}

spec fn field_of(f: FeatureView, field: Field) -> Seq<char> {
    match field {
        Field::Route => f.route,
        Field::Controller => f.controller,
        Field::Model => f.model,
        Field::File => f.file,
    }
}

impl UranMapping {
    /// Whether some feature has `name` in the given field.
    fn has_in_field(&self, field: Field, name: &str) -> (r: bool)
        ensures
            r == (exists|i: int| 0 <= i < self@.len() && field_of(#[trigger] self@[i], field) == name@),
    {
        let target = name.to_owned();
        let fs = &self.mapping.features;
        let mut i: usize = 0;
        while i < fs.len()
            invariant
                i <= fs.len(),
                fs == &self.mapping.features,
                target@ == name@,
                forall|j: int| 0 <= j < i ==> field_of(#[trigger] self@[j], field) != name@,
            decreases fs.len() - i,
        {
            let f = &fs[i];
            assert(self@[i as int] == f@);
            let found = match field {
                Field::Route => f.route == target,
                Field::Controller => f.controller == target,
                Field::Model => f.model == target,
                Field::File => f.file == target,
            };
            if found {
                return true;
            }
            i += 1;
        }
        false
    }

    /// Whether some feature has this route.
    pub fn has_route(&self, route: &str) -> (r: bool)
        ensures
            r == has_route_in(self@, route@),
            r == exists|i: int|
                0 <= i < self.mapping.features@.len() && (#[trigger] self.mapping.features@[i]).route@
                    == route@,
    {
        let r = self.has_in_field(Field::Route, route);
        assert((exists|i: int|
            0 <= i < self.mapping.features@.len() && (#[trigger] self.mapping.features@[i]).route@
                == route@) == has_route_in(self@, route@)) by {
            if has_route_in(self@, route@) {
                let i = choose|i: int| 0 <= i < self@.len() && (#[trigger] self@[i]).route == route@;
                assert(self@[i] == self.mapping.features@[i]@);
            }
            if exists|i: int|
                0 <= i < self.mapping.features@.len() && (#[trigger] self.mapping.features@[i]).route@
                    == route@ {
                let i = choose|i: int|
                    0 <= i < self.mapping.features@.len() && (#[trigger] self.mapping.features@[i]).route@
                        == route@;
                assert(self@[i] == self.mapping.features@[i]@);
            }
        }
        assert(r == has_route_in(self@, route@)) by {
            if has_route_in(self@, route@) {
                let i = choose|i: int| 0 <= i < self@.len() && (#[trigger] self@[i]).route == route@;
                assert(field_of(self@[i], Field::Route) == route@);
            }
        }
        r
    }

    /// Whether some feature has this controller.
    pub fn has_controller(&self, controller: &str) -> (r: bool)
        ensures
            r == has_controller_in(self@, controller@),
            r == exists|i: int|
                0 <= i < self.mapping.features@.len() && (#[trigger] self.mapping.features@[i]).controller@
                    == controller@,
    {
        let r = self.has_in_field(Field::Controller, controller);
        assert((exists|i: int|
            0 <= i < self.mapping.features@.len() && (#[trigger] self.mapping.features@[i]).controller@
                == controller@) == has_controller_in(self@, controller@)) by {
            if has_controller_in(self@, controller@) {
                let i = choose|i: int| 0 <= i < self@.len() && (#[trigger] self@[i]).controller == controller@;
                assert(self@[i] == self.mapping.features@[i]@);
            }
            if exists|i: int|
                0 <= i < self.mapping.features@.len() && (#[trigger] self.mapping.features@[i]).controller@
                    == controller@ {
                let i = choose|i: int|
                    0 <= i < self.mapping.features@.len() && (#[trigger] self.mapping.features@[i]).controller@
                        == controller@;
                assert(self@[i] == self.mapping.features@[i]@);
            }
        }
        assert(r == has_controller_in(self@, controller@)) by {
            if has_controller_in(self@, controller@) {
                let i = choose|i: int|
                    0 <= i < self@.len() && (#[trigger] self@[i]).controller == controller@;
                assert(field_of(self@[i], Field::Controller) == controller@);
            }
        }
        r
    }

    /// Whether some feature has this model.
    pub fn has_model(&self, model: &str) -> (r: bool)
        ensures
            r == has_model_in(self@, model@),
            r == exists|i: int|
                0 <= i < self.mapping.features@.len() && (#[trigger] self.mapping.features@[i]).model@
                    == model@,
    {
        let r = self.has_in_field(Field::Model, model);
        assert((exists|i: int|
            0 <= i < self.mapping.features@.len() && (#[trigger] self.mapping.features@[i]).model@
                == model@) == has_model_in(self@, model@)) by {
            if has_model_in(self@, model@) {
                let i = choose|i: int| 0 <= i < self@.len() && (#[trigger] self@[i]).model == model@;
                assert(self@[i] == self.mapping.features@[i]@);
            }
            if exists|i: int|
                0 <= i < self.mapping.features@.len() && (#[trigger] self.mapping.features@[i]).model@
                    == model@ {
                let i = choose|i: int|
                    0 <= i < self.mapping.features@.len() && (#[trigger] self.mapping.features@[i]).model@
                        == model@;
                assert(self@[i] == self.mapping.features@[i]@);
            }
        }
        assert(r == has_model_in(self@, model@)) by {
            if has_model_in(self@, model@) {
                let i = choose|i: int| 0 <= i < self@.len() && (#[trigger] self@[i]).model == model@;
                assert(field_of(self@[i], Field::Model) == model@);
            }
        }
        r
    }

    /// Whether some feature has this file.
    pub fn has_file(&self, file: &str) -> (r: bool)
        ensures
            r == has_file_in(self@, file@),
            r == exists|i: int|
                0 <= i < self.mapping.features@.len() && (#[trigger] self.mapping.features@[i]).file@
                    == file@,
    {
        let r = self.has_in_field(Field::File, file);
        assert((exists|i: int|
            0 <= i < self.mapping.features@.len() && (#[trigger] self.mapping.features@[i]).file@
                == file@) == has_file_in(self@, file@)) by {
            if has_file_in(self@, file@) {
                let i = choose|i: int| 0 <= i < self@.len() && (#[trigger] self@[i]).file == file@;
                assert(self@[i] == self.mapping.features@[i]@);
            }
            if exists|i: int|
                0 <= i < self.mapping.features@.len() && (#[trigger] self.mapping.features@[i]).file@
                    == file@ {
                let i = choose|i: int|
                    0 <= i < self.mapping.features@.len() && (#[trigger] self.mapping.features@[i]).file@
                        == file@;
                assert(self@[i] == self.mapping.features@[i]@);
            }
        }
        assert(r == has_file_in(self@, file@)) by {
            if has_file_in(self@, file@) {
                let i = choose|i: int| 0 <= i < self@.len() && (#[trigger] self@[i]).file == file@;
                assert(field_of(self@[i], Field::File) == file@);
            }
        }
        r
    }

    /// Records a new feature after the existing ones. Afterwards each name of
    /// the feature is found, and every other search answers as before.
    pub fn add_feature(&mut self, feature: FeatureMapping)
        ensures
            final(self)@ == old(self)@.push(feature@),
            final(self).path == old(self).path,
            forall|r: Seq<char>|
                has_route_in(final(self)@, r) <==> (has_route_in(old(self)@, r) || r == feature@.route),
            forall|c: Seq<char>|
                has_controller_in(final(self)@, c) <==> (has_controller_in(old(self)@, c) || c
                    == feature@.controller),
            forall|m: Seq<char>|
                has_model_in(final(self)@, m) <==> (has_model_in(old(self)@, m) || m == feature@.model),
            forall|f: Seq<char>|
                has_file_in(final(self)@, f) <==> (has_file_in(old(self)@, f) || f == feature@.file),
    {
        let ghost before = self@;
        let ghost fv = feature@;
        self.mapping.features.push(feature);
        assert(self@ =~= before.push(fv));
        proof {
            lemma_push_finds(before, fv);
        }
    }
}

/// After one more feature, a name is found when it was found before or is
/// the new feature's.
pub proof fn lemma_push_finds(fs: Seq<FeatureView>, f: FeatureView)
    ensures
        forall|r: Seq<char>| has_route_in(fs.push(f), r) <==> (has_route_in(fs, r) || r == f.route),
        forall|c: Seq<char>|
            has_controller_in(fs.push(f), c) <==> (has_controller_in(fs, c) || c == f.controller),
        forall|m: Seq<char>| has_model_in(fs.push(f), m) <==> (has_model_in(fs, m) || m == f.model),
        forall|x: Seq<char>| has_file_in(fs.push(f), x) <==> (has_file_in(fs, x) || x == f.file),
{
    let g = fs.push(f);
    assert(g[fs.len() as int] == f);
    assert forall|r: Seq<char>| has_route_in(g, r) implies (has_route_in(fs, r) || r == f.route) by {
        let i = choose|i: int| 0 <= i < g.len() && (#[trigger] g[i]).route == r;
        if i < fs.len() {
            assert(g[i] == fs[i]);
        }
    }
    assert forall|r: Seq<char>| has_route_in(fs, r) implies has_route_in(g, r) by {
        let i = choose|i: int| 0 <= i < fs.len() && (#[trigger] fs[i]).route == r;
        assert(g[i] == fs[i]);
    }
    assert forall|r: Seq<char>| has_controller_in(g, r) implies (has_controller_in(fs, r) || r
        == f.controller) by {
        let i = choose|i: int| 0 <= i < g.len() && (#[trigger] g[i]).controller == r;
        if i < fs.len() {
            assert(g[i] == fs[i]);
        }
    }
    assert forall|r: Seq<char>| has_controller_in(fs, r) implies has_controller_in(g, r) by {
        let i = choose|i: int| 0 <= i < fs.len() && (#[trigger] fs[i]).controller == r;
        assert(g[i] == fs[i]);
    }
    assert forall|r: Seq<char>| has_model_in(g, r) implies (has_model_in(fs, r) || r == f.model) by {
        let i = choose|i: int| 0 <= i < g.len() && (#[trigger] g[i]).model == r;
        if i < fs.len() {
            assert(g[i] == fs[i]);
        }
    }
    assert forall|r: Seq<char>| has_model_in(fs, r) implies has_model_in(g, r) by {
        let i = choose|i: int| 0 <= i < fs.len() && (#[trigger] fs[i]).model == r;
        assert(g[i] == fs[i]);
    }
    assert forall|r: Seq<char>| has_file_in(g, r) implies (has_file_in(fs, r) || r == f.file) by {
        let i = choose|i: int| 0 <= i < g.len() && (#[trigger] g[i]).file == r;
        if i < fs.len() {
            assert(g[i] == fs[i]);
        }
    }
    assert forall|r: Seq<char>| has_file_in(fs, r) implies has_file_in(g, r) by {
        let i = choose|i: int| 0 <= i < fs.len() && (#[trigger] fs[i]).file == r;
        assert(g[i] == fs[i]);
    }
}

} // verus!
