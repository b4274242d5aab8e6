//! The table of scaling methods: each name maps to a backend, the scale
//! factors it accepts, and whether it handles alpha itself.
use vstd::prelude::*;
use crate::numbers::{Ratio, ratio_le, decimal_text_value, parse_decimal, ratio_less_or_equal};
use crate::backends::{Algorithm, algorithm_named, min_factor, max_factor};

verus! {

/// Which kind of backend a method runs.
#[derive(Clone, Copy, Debug, PartialEq, Eq, Structural)]
pub enum BackendKind {
    /// A fixed-factor algorithm run on the CPU.
    FixedScale(Algorithm),
    /// A shader preset of the method table, relative to the shaders directory.
    ShaderPreset,
    /// A shader preset the caller named by its path.
    CustomPreset,
}

/// A scaling method: its name, backend, preset file, the scale factors it
/// accepts, and whether it handles alpha itself.
#[derive(Debug)]
pub struct ScaleMethod {
    pub name: String,
    pub kind: BackendKind,
    pub file: String,
    pub min_scale: Ratio,
    pub max_scale: Ratio,
    pub alpha: bool,
}

/// A scaling method as values.
pub struct MethodView {
    pub name: Seq<char>,
    pub kind: BackendKind,
    pub file: Seq<char>,
    pub min_scale: Ratio,
    pub max_scale: Ratio,
    pub alpha: bool,
}

impl View for ScaleMethod {
    type V = MethodView;

    open spec fn view(&self) -> MethodView {
        MethodView {
            name: self.name@,
            kind: self.kind,
            file: self.file@,
            min_scale: self.min_scale,
            max_scale: self.max_scale,
            alpha: self.alpha,
        }
    }
}

/// Scale bounds `1 <= min <= max`; a fixed-factor algorithm's bounds are
/// whole numbers within the factors it produces.
pub open spec fn bounds_wf(kind: BackendKind, min: Ratio, max: Ratio) -> bool {
    &&& min.wf()
    &&& max.wf()
    &&& min.num >= min.den
    &&& ratio_le(min, max)
    &&& match kind {
        BackendKind::FixedScale(a) => {
            &&& min.den == 1
            &&& max.den == 1
            &&& min_factor(a) <= min.num
            &&& max.num <= max_factor(a)
        },
        _ => true,
    }
}

impl ScaleMethod {
    pub open spec fn wf(&self) -> bool {
        bounds_wf(self.kind, self.min_scale, self.max_scale)
    }

    /// A copy of the method.
    pub fn duplicate(&self) -> (r: ScaleMethod)
        ensures
            r@ == self@,
    {
        ScaleMethod {
            name: self.name.clone(),
            kind: self.kind,
            file: self.file.clone(),
            min_scale: self.min_scale,
            max_scale: self.max_scale,
            alpha: self.alpha,
        }
    }
}

/// Why a method could not be had.
#[derive(Debug)]
pub enum CatalogError {
    /// The method table is not a JSON object.
    InvalidCatalog,
    /// The entry under this key lacks a field, or its scale bounds are not
    /// valid for its backend.
    InvalidEntry(String),
    /// No method has this name.
    MethodNotFound(String),
}

/// The backend a method table key selects: `rust-` names of the algorithms
/// select them, every other key a shader preset.
pub open spec fn kind_for(key: Seq<char>) -> BackendKind {
    match algorithm_named(key) {
        Some(a) => BackendKind::FixedScale(a),
        None => BackendKind::ShaderPreset,
    }
}

/// A bound as the backend holds it: a whole number for a fixed-factor
/// algorithm, the written value otherwise.
pub open spec fn normal_bound(kind: BackendKind, q: Ratio) -> Ratio {
    match kind {
        BackendKind::FixedScale(_) => Ratio { num: (q.num / q.den) as u64, den: 1 },
        _ => q,
    }
}

/// Whether written bounds are valid for a backend: `1 <= min <= max`, and for
/// a fixed-factor algorithm whole numbers within the factors it produces.
pub open spec fn written_bounds_ok(kind: BackendKind, min: Ratio, max: Ratio) -> bool {
    &&& min.wf()
    &&& max.wf()
    &&& match kind {
        BackendKind::FixedScale(_) => min.num % min.den == 0 && max.num % max.den == 0,
        _ => true,
    }
    &&& bounds_wf(kind, normal_bound(kind, min), normal_bound(kind, max))
}

/// The method an entry of the method table describes, from the entry's key
/// and its `name`, `file`, `minScale`, `maxScale` (as written) and `alpha`
/// fields, or `None` where one is missing or the bounds are not valid.
pub open spec fn entry_method(
    key: Seq<char>,
    name: Option<Seq<char>>,
    file: Option<Seq<char>>,
    min_text: Option<Seq<char>>,
    max_text: Option<Seq<char>>,
    alpha: Option<bool>,
) -> Option<MethodView> {
    match (name, file, min_text, max_text, alpha) {
        (Some(n), Some(f), Some(lo), Some(hi), Some(a)) => match (
            decimal_text_value(lo),
            decimal_text_value(hi),
        ) {
            (Some(min), Some(max)) => if written_bounds_ok(kind_for(key), min, max) {
                Some(
                    MethodView {
                        name: n,
                        kind: kind_for(key),
                        file: f,
                        min_scale: normal_bound(kind_for(key), min),
                        max_scale: normal_bound(kind_for(key), max),
                        alpha: a,
                    },
                )
            } else {
                None
            },
            _ => None,
        },
        _ => None,
    }
}

pub open spec fn text_view(o: Option<String>) -> Option<Seq<char>> {
    match o {
        Some(s) => Some(s@),
        None => None,
    }
}

/// A whole-number copy of a bound that is a whole number.
fn normalize_bound(kind: BackendKind, q: Ratio) -> (r: Ratio)
    requires
        q.wf(),
    ensures
        r == normal_bound(kind, q),
{
    match kind {
        BackendKind::FixedScale(_) => Ratio { num: q.num / q.den, den: 1 },
        _ => q,
    }
}

/// Checks written bounds for a backend.
fn check_bounds(kind: BackendKind, min: Ratio, max: Ratio) -> (r: bool)
    requires
        min.wf(),
        max.wf(),
    ensures
        r == written_bounds_ok(kind, min, max),
{
    let whole = match kind {
        BackendKind::FixedScale(_) => min.num % min.den == 0 && max.num % max.den == 0,
        _ => true,
    };
    if !whole {
        return false;
    }
    let lo = normalize_bound(kind, min);
    let hi = normalize_bound(kind, max);
    if lo.num < lo.den || !ratio_less_or_equal(lo, hi) {
        return false;
    }
    match kind {
        BackendKind::FixedScale(a) => {
            let (first, last) = a.factor_bounds();
            lo.den == 1 && hi.den == 1 && first as u64 <= lo.num && hi.num <= last as u64
        },
        _ => true,
    }
}

/// Builds the method an entry of the method table describes.
pub fn method_from_entry(
    key: &str,
    name: Option<String>,
    file: Option<String>,
    min_text: Option<String>,
    max_text: Option<String>,
    alpha: Option<bool>,
) -> (r: Result<ScaleMethod, CatalogError>)
    ensures
        r.is_ok() <==> entry_method(
            key@,
            text_view(name),
            text_view(file),
            text_view(min_text),
            text_view(max_text),
            alpha,
        ).is_some(),
        r matches Ok(m) ==> Some(m@) == entry_method(
            key@,
            text_view(name),
            text_view(file),
            text_view(min_text),
            text_view(max_text),
            alpha,
        ) && m.wf(),
        r matches Err(e) ==> e matches CatalogError::InvalidEntry(k) && k@ == key@,
{
    let kind = match Algorithm::from_name(key) {
        Some(a) => BackendKind::FixedScale(a),
        None => BackendKind::ShaderPreset,
    };
    match (name, file, min_text, max_text, alpha) {
        (Some(n), Some(f), Some(lo), Some(hi), Some(a)) => {
            match (parse_decimal(lo.as_str()), parse_decimal(hi.as_str())) {
                (Some(min), Some(max)) => {
                    if check_bounds(kind, min, max) {
                        Ok(
                            ScaleMethod {
                                name: n,
                                kind,
                                file: f,
                                min_scale: normalize_bound(kind, min),
                                max_scale: normalize_bound(kind, max),
                                alpha: a,
                            },
                        )
                    } else {
                        Err(CatalogError::InvalidEntry(key.to_string()))
                    }
                },
                _ => Err(CatalogError::InvalidEntry(key.to_string())),
            }
        },
        _ => Err(CatalogError::InvalidEntry(key.to_string())),
    }
}

/// The keys of the object a JSON text holds, in the order `serde_json`
/// walks them, or `None` where the text is not a JSON object.
pub uninterp spec fn json_keys_of(text: Seq<char>) -> Option<Seq<Seq<char>>>;

/// The string at `field` of the member `key` of the object a JSON text
/// holds, or `None` where there is none.
pub uninterp spec fn json_text_field_of(text: Seq<char>, key: Seq<char>, field: Seq<char>) -> Option<Seq<char>>;

/// The number at `field` of the member `key` of the object a JSON text
/// holds, written out in decimal by `serde_json`, or `None` where there is none.
pub uninterp spec fn json_number_field_of(text: Seq<char>, key: Seq<char>, field: Seq<char>) -> Option<Seq<char>>;

/// The boolean at `field` of the member `key` of the object a JSON text
/// holds, or `None` where there is none.
pub uninterp spec fn json_bool_field_of(text: Seq<char>, key: Seq<char>, field: Seq<char>) -> Option<bool>;

/// The characters of each text.
pub open spec fn texts_view(ks: Seq<String>) -> Seq<Seq<char>> {
    ks.map_values(|k: String| k@)
}

pub open spec fn texts_view_opt(o: Option<Vec<String>>) -> Option<Seq<Seq<char>>> {
    match o {
        Some(ks) => Some(texts_view(ks@)),
        None => None,
    }
}

/// Relies on `serde_json::from_str` and `serde_json::Map::keys`: the keys
/// of the object the text holds, a function of the text.
#[verifier::external_body]
fn json_object_keys(text: &str) -> (r: Option<Vec<String>>)
    ensures
        texts_view_opt(r) == json_keys_of(text@),
{
    match serde_json::from_str::<serde_json::Value>(text) {
        Ok(serde_json::Value::Object(m)) => Some(m.keys().cloned().collect()),
        _ => None,
    }
}

/// Relies on `serde_json::from_str`, `serde_json::Value::get` and
/// `serde_json::Value::as_str`: one string field of one member, a function
/// of the text, the key and the field name.
#[verifier::external_body]
fn json_text_field(text: &str, key: &str, field: &str) -> (r: Option<String>)
    ensures
        text_view(r) == json_text_field_of(text@, key@, field@),
{
    let v: serde_json::Value = serde_json::from_str(text).ok()?;
    v.get(key)?.get(field)?.as_str().map(String::from)
}

/// Relies on `serde_json::from_str`, `serde_json::Value::get` and the
/// `Display` of `serde_json::Number`: one number field of one member, written
/// out in decimal, a function of the text, the key and the field name.
#[verifier::external_body]
fn json_number_field(text: &str, key: &str, field: &str) -> (r: Option<String>)
    ensures
        text_view(r) == json_number_field_of(text@, key@, field@),
{
    let v: serde_json::Value = serde_json::from_str(text).ok()?;
    match v.get(key)?.get(field)? {
        serde_json::Value::Number(n) => Some(n.to_string()),
        _ => None,
    }
}

/// Relies on `serde_json::from_str`, `serde_json::Value::get` and
/// `serde_json::Value::as_bool`: one boolean field of one member, a function
/// of the text, the key and the field name.
#[verifier::external_body]
fn json_bool_field(text: &str, key: &str, field: &str) -> (r: Option<bool>)
    ensures
        r == json_bool_field_of(text@, key@, field@),
{
    let v: serde_json::Value = serde_json::from_str(text).ok()?;
    v.get(key)?.get(field)?.as_bool()
}

/// The method the member `key` of a method table's JSON text describes, or
/// `None` where a field is missing or its bounds are not valid.
pub open spec fn json_entry_method(text: Seq<char>, key: Seq<char>) -> Option<MethodView> {
    entry_method(
        key,
        json_text_field_of(text, key, "name"@),
        json_text_field_of(text, key, "file"@),
        json_number_field_of(text, key, "minScale"@),
        json_number_field_of(text, key, "maxScale"@),
        json_bool_field_of(text, key, "alpha"@),
    )
}

/// The method table: each key with the method it names.
#[derive(Debug)]
pub struct MethodCatalog {
    pub keys: Vec<String>,
    pub methods: Vec<ScaleMethod>,
}

/// The first position at which `name` is a key.
pub open spec fn is_first_key(keys: Seq<String>, name: Seq<char>, i: int) -> bool {
    &&& 0 <= i < keys.len()
    &&& keys[i]@ == name
    &&& forall|j: int| 0 <= j < i ==> keys[j]@ != name
}

impl MethodCatalog {
    /// One method for each key, each valid for the backend its key selects.
    pub open spec fn wf(&self) -> bool {
        &&& self.keys.len() == self.methods.len()
        &&& forall|i: int| 0 <= i < self.methods.len() ==> (#[trigger] self.methods@[i]).wf()
        &&& forall|i: int|
            0 <= i < self.methods.len() ==> (#[trigger] self.methods@[i]).kind == kind_for(
                self.keys@[i]@,
            )
    }

    /// Reads the method table from its JSON text: an object whose members
    /// each hold `name`, `file`, `minScale`, `maxScale` and `alpha`. Every
    /// member must describe a valid method; the catalog then holds the
    /// object's keys, each with the method its member describes.
    pub fn from_json(text: &str) -> (r: Result<MethodCatalog, CatalogError>)
        ensures
            json_keys_of(text@).is_none() ==> r matches Err(CatalogError::InvalidCatalog),
            json_keys_of(text@) matches Some(ks) ==> (r.is_ok() <==> forall|i: int|
                0 <= i < ks.len() ==> (#[trigger] json_entry_method(text@, ks[i])).is_some()),
            json_keys_of(text@) matches Some(ks) ==> (r matches Err(e) ==> e matches CatalogError::InvalidEntry(k)
                && exists|i: int| 0 <= i < ks.len() && ks[i] == k@ && json_entry_method(text@, ks[i]).is_none()),
            r matches Ok(c) ==> {
                &&& c.wf()
                &&& json_keys_of(text@) == Some(texts_view(c.keys@))
                &&& forall|i: int|
                    0 <= i < c.methods.len() ==> Some((#[trigger] c.methods@[i])@) == json_entry_method(
                        text@,
                        c.keys@[i]@,
                    )
            },
    {
        let keys = match json_object_keys(text) {
            Some(k) => k,
            None => return Err(CatalogError::InvalidCatalog),
        };
        let ghost ks = texts_view(keys@);
        let mut methods: Vec<ScaleMethod> = Vec::new();
        let mut i: usize = 0;
        while i < keys.len()
            invariant
                i <= keys.len(),
                ks == texts_view(keys@),
                json_keys_of(text@) == Some(ks),
                ks.len() == keys.len(),
                methods.len() == i,
                forall|k: int| 0 <= k < i ==> (#[trigger] methods@[k]).wf(),
                forall|k: int| 0 <= k < i ==> (#[trigger] methods@[k]).kind == kind_for(keys@[k]@),
                forall|k: int|
                    0 <= k < i ==> Some((#[trigger] methods@[k])@) == json_entry_method(text@, keys@[k]@),
            decreases keys.len() - i,
        {
            let key = keys[i].as_str();
            assert(ks[i as int] == key@);
            let name = json_text_field(text, key, "name");
            let file = json_text_field(text, key, "file");
            let min_text = json_number_field(text, key, "minScale");
            let max_text = json_number_field(text, key, "maxScale");
            let alpha = json_bool_field(text, key, "alpha");
            let method = match method_from_entry(key, name, file, min_text, max_text, alpha) {
                Ok(m) => m,
                Err(e) => {
                    proof {
                        assert(json_entry_method(text@, ks[i as int]).is_none());
                        assert(0 <= i < ks.len() && ks[i as int] == key@);
                    }
                    return Err(e);
                },
            };
            methods.push(method);
            i = i + 1;
        }
        proof {
            assert forall|k: int| 0 <= k < ks.len() implies (#[trigger] json_entry_method(text@, ks[k])).is_some() by {
                assert(ks[k] == keys@[k]@);
                assert(Some(methods@[k]@) == json_entry_method(text@, keys@[k]@));
            }
        }
        Ok(MethodCatalog { keys, methods })
    }

    /// The method a name selects: the first whose key is the name, compared
    /// exactly; `MethodNotFound` with the name where there is none.
    pub fn lookup(&self, name: &str) -> (r: Result<&ScaleMethod, CatalogError>)
        requires
            self.wf(),
        ensures
            r.is_ok() <==> exists|i: int| 0 <= i < self.keys.len() && self.keys@[i]@ == name@,
            r matches Ok(m) ==> exists|i: int|
                is_first_key(self.keys@, name@, i) && *m == self.methods@[i],
            r matches Err(e) ==> e matches CatalogError::MethodNotFound(n) && n@ == name@,
    {
        let mut i: usize = 0;
        while i < self.keys.len()
            invariant
                self.wf(),
                i <= self.keys.len(),
                forall|j: int| 0 <= j < i ==> self.keys@[j]@ != name@,
            decreases self.keys.len() - i,
        {
            if crate::text::same_text(self.keys[i].as_str(), name) {
                assert(is_first_key(self.keys@, name@, i as int));
                return Ok(&self.methods[i]);
            }
            i = i + 1;
        }
        Err(CatalogError::MethodNotFound(name.to_string()))
    }
}

/// The method a custom preset path makes: named `custom`, scale bounds 1 and
/// 1, handling alpha itself.
pub open spec fn custom_method(path: Seq<char>) -> MethodView {
    MethodView {
        name: "custom"@,
        kind: BackendKind::CustomPreset,
        file: path,
        min_scale: Ratio { num: 1, den: 1 },
        max_scale: Ratio { num: 1, den: 1 },
        alpha: true,
    }
}

/// The method to scale with: the one a custom preset path makes where one is
/// given, bypassing the table; else the table's method of that name.
pub fn get_scaling_method(catalog: &MethodCatalog, method: &str, custom_preset: Option<&str>) -> (r: Result<ScaleMethod, CatalogError>)
    requires
        catalog.wf(),
    ensures
        r matches Ok(m) ==> m.wf(),
        custom_preset matches Some(p) ==> r matches Ok(m) && m@ == custom_method(p@),
        custom_preset.is_none() ==> (r.is_ok() <==> exists|i: int|
            0 <= i < catalog.keys.len() && catalog.keys@[i]@ == method@),
        custom_preset.is_none() ==> (r matches Ok(m) ==> exists|i: int|
            is_first_key(catalog.keys@, method@, i) && m@ == catalog.methods@[i]@),
        custom_preset.is_none() ==> (r matches Err(e) ==> e matches CatalogError::MethodNotFound(n)
            && n@ == method@),
{
    match custom_preset {
        Some(path) => Ok(
            ScaleMethod {
                name: "custom".to_string(),
                kind: BackendKind::CustomPreset,
                file: path.to_string(),
                min_scale: Ratio { num: 1, den: 1 },
                max_scale: Ratio { num: 1, den: 1 },
                alpha: true,
            },
        ),
        None => match catalog.lookup(method) {
            Ok(m) => Ok(m.duplicate()),
            Err(e) => Err(e),
        },
    }
}

} // verus!
