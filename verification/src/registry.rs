//! The template registry: a mapping from template name to template body,
//! built once at startup and read by every request, together with the
//! per-request render context.
//!
//! Compilation and rendering of the template bodies is done by the
//! `handlebars` crate. The registry built here keeps that crate's default
//! configuration and registers nothing but plain templates, so the output
//! of a render is a function of the registered templates, the template
//! name and the context data alone. A placeholder with no matching
//! context key renders as the empty string, the crate's default policy.

use vstd::prelude::*;
use vstd::string::StrSliceExecFns;
use handlebars::Handlebars;
use crate::strutil::str_has_suffix;

verus! {

#[verifier::external_type_specification]
#[verifier::external_body]
pub struct ExHandlebars<'reg>(Handlebars<'reg>);

/// A registry with the lifetime of the whole process.
pub type Hb = Handlebars<'static>;

/// The templates a `handlebars` registry holds: name to body, as
/// registered through `register_template_string`.
pub uninterp spec fn hb_templates(h: Hb) -> Map<Seq<char>, Seq<char>>;

/// Whether `handlebars` accepts a template body; compilation succeeds or
/// fails on the body alone.
pub uninterp spec fn hb_parses(body: Seq<char>) -> bool;

/// What a default-configured `handlebars` registry with the given
/// templates renders for a name and a context: the output, or `None` for
/// a render error.
pub uninterp spec fn hb_render(
    templates: Map<Seq<char>, Seq<char>>,
    name: Seq<char>,
    ctx: Map<Seq<char>, Seq<char>>,
) -> Option<Seq<char>>;

/// No templates at all.
pub open spec fn no_templates() -> Map<Seq<char>, Seq<char>> {
    Map::empty()
}

/// The map that a sequence of key-value pairs builds up, a later pair
/// overwriting an earlier one with the same key.
pub open spec fn pairs_map(s: Seq<(String, String)>) -> Map<Seq<char>, Seq<char>>
    decreases s.len(),
{
    if s.len() == 0 {
        Map::empty()
    } else {
        pairs_map(s.drop_last()).insert(s.last().0@, s.last().1@)
    }
}

/// A character the template grammar lets stand between the `{{` and the
/// `>` of a partial reference: whitespace, the whitespace-control tilde
/// and the block mark.
pub open spec fn partial_gap_char(c: char) -> bool {
    c == ' ' || c == '\t' || c == '\n' || c == '\r' || c == '~' || c == '#'
}

/// Positions `i` and `j` of `body` hold a partial reference: `{{`, then a
/// run of gap characters, then `>`. Every way the template grammar can
/// spell a reference to another template — `{{> p}}`, `{{#> p}}`, with
/// whitespace-control tildes or extra whitespace — takes this shape.
pub open spec fn partial_ref_at(body: Seq<char>, i: int, j: int) -> bool {
    &&& 0 <= i
    &&& i + 2 <= j
    &&& j < body.len()
    &&& body[i] == '{'
    &&& body[i + 1] == '{'
    &&& body[j] == '>'
    &&& forall|k: int| i + 2 <= k < j ==> partial_gap_char(body[k])
}

/// Whether a template body holds anything that could reference another
/// template. Rendering a template that references others can recurse
/// through the registry without bound, so such bodies are refused at
/// registration; this test errs only on the side of refusing.
pub open spec fn has_partial_ref(body: Seq<char>) -> bool {
    exists|i: int, j: int| partial_ref_at(body, i, j)
}

/// Every registered template is free of partial references, so rendering
/// any of them never re-enters the registry.
pub open spec fn registry_wf(templates: Map<Seq<char>, Seq<char>>) -> bool {
    forall|k: Seq<char>| templates.contains_key(k) ==> !has_partial_ref(#[trigger] templates[k])
}

/// Scan a template body for partial-reference syntax.
pub fn find_partial_ref(body: &str) -> (r: bool)
    ensures
        r == has_partial_ref(body@),
{
    let n = body.unicode_len();
    let mut i: usize = 0;
    while i < n
        invariant
            n == body@.len(),
            forall|i2: int, j2: int| i2 < i ==> !partial_ref_at(body@, i2, j2),
        decreases n - i,
    {
        if i + 1 < n && body.get_char(i) == '{' && body.get_char(i + 1) == '{' {
            let mut j = i + 2;
            while j < n && is_gap(body.get_char(j))
                invariant
                    n == body@.len(),
                    i + 2 <= j <= n,
                    forall|k: int| i + 2 <= k < j ==> partial_gap_char(body@[k]),
                decreases n - j,
            {
                j = j + 1;
            }
            if j < n && body.get_char(j) == '>' {
                proof {
                    assert(partial_ref_at(body@, i as int, j as int));
                }
                return true;
            }
            proof {
                assert forall|j2: int| !partial_ref_at(body@, i as int, j2) by {
                    if i + 2 <= j2 < body@.len() && j2 > j {
                        assert(!partial_gap_char(body@[j as int]));
                    }
                }
            }
        } else {
            proof {
                assert forall|j2: int| !partial_ref_at(body@, i as int, j2) by {}
            }
        }
        i = i + 1;
    }
    false
}

/// Is `c` a character the grammar lets stand inside a partial opening?
fn is_gap(c: char) -> (r: bool)
    ensures
        r == partial_gap_char(c),
{
    c == ' ' || c == '\t' || c == '\n' || c == '\r' || c == '~' || c == '#'
}

/// A per-request mapping from placeholder name to display value.
pub struct RenderContext {
    pairs: Vec<(String, String)>,
}

impl View for RenderContext {
    type V = Map<Seq<char>, Seq<char>>;

    closed spec fn view(&self) -> Map<Seq<char>, Seq<char>> {
        pairs_map(self.pairs@)
    }
}

impl RenderContext {
    /// An empty context.
    pub fn new() -> (r: Self)
        ensures
            r@ == Map::<Seq<char>, Seq<char>>::empty(),
    {
        RenderContext { pairs: Vec::new() }
    }

    /// Bind `key` to `value`, overwriting any earlier binding of `key`.
    pub fn insert(&mut self, key: String, value: String)
        ensures
            final(self)@ == old(self)@.insert(key@, value@),
    {
        self.pairs.push((key, value));
        proof {
            assert(self.pairs@.drop_last() =~= old(self).pairs@);
        }
    }
}

/// Failure to build the registry: the named template body was rejected,
/// either by the template compiler (`Parse`) or because it holds
/// partial-reference syntax, which this store refuses so that rendering
/// can never re-enter the registry (`Partial`).
#[derive(Debug, PartialEq, Eq)]
pub enum LoadError {
    Parse(String),
    Partial(String),
}

/// Failure to render: the name has no registered template, or the
/// registered template could not be rendered.
#[derive(Clone, Copy, Debug, PartialEq, Eq, Structural)]
pub enum RenderError {
    NotFound,
    Failed,
}

/// The outcome of rendering `name` with `ctx` against the given
/// templates: `NotFound` when the name is not registered, otherwise the
/// compiled template's output or `Failed`.
pub open spec fn render_view(
    templates: Map<Seq<char>, Seq<char>>,
    name: Seq<char>,
    ctx: Map<Seq<char>, Seq<char>>,
) -> Result<Seq<char>, RenderError> {
    if !templates.contains_key(name) {
        Result::Err(RenderError::NotFound)
    } else {
        match hb_render(templates, name, ctx) {
            Option::Some(s) => Result::Ok(s),
            Option::None => Result::Err(RenderError::Failed),
        }
    }
}

/// Rendering is a function of the registry contents, the template name
/// and the context alone: two renders of the same name with the same
/// context against the same registry contents have the same outcome.
pub proof fn lemma_render_deterministic(
    templates: Map<Seq<char>, Seq<char>>,
    name: Seq<char>,
    ctx: Map<Seq<char>, Seq<char>>,
    r1: Result<Seq<char>, RenderError>,
    r2: Result<Seq<char>, RenderError>,
)
    requires
        r1 == render_view(templates, name, ctx),
        r2 == render_view(templates, name, ctx),
    ensures
        r1 == r2,
{
}

/// Relies on handlebars::Handlebars::new: a fresh registry holds no
/// templates.
#[verifier::external_body]
fn hb_new() -> (h: Hb)
    ensures
        hb_templates(h) == no_templates(),
{
    Handlebars::new()
}

/// Relies on handlebars::Handlebars::register_template_string: success
/// depends on the template body alone; on success the body is stored
/// under the name, overwriting any previous entry; on a parse error the
/// registry is unchanged.
#[verifier::external_body]
fn hb_register(h: &mut Hb, name: &str, body: &str) -> (ok: bool)
    ensures
        ok == hb_parses(body@),
        ok ==> hb_templates(*final(h)) == hb_templates(*old(h)).insert(name@, body@),
        !ok ==> hb_templates(*final(h)) == hb_templates(*old(h)),
{
    h.register_template_string(name, body).is_ok()
}

/// Relies on handlebars::Handlebars::has_template: whether a template is
/// registered under the name.
#[verifier::external_body]
fn hb_has(h: &Hb, name: &str) -> (r: bool)
    ensures
        r == hb_templates(*h).contains_key(name@),
{
    h.has_template(name)
}

/// Relies on handlebars::Handlebars::render: the output is a function of
/// the registered templates, the name and the data alone for a
/// default-configured registry, and a name with no registered template is
/// always an error. The engine resolves partial references by rendering
/// other registered templates, with no depth limit, so a cycle of
/// references never returns; the call is therefore only made for a
/// template that is free of partial references, which renders without
/// ever re-entering the registry.
#[verifier::external_body]
fn hb_render_call(h: &Hb, name: &str, ctx: &RenderContext) -> (r: Option<String>)
    requires
        hb_templates(*h).contains_key(name@) ==> !has_partial_ref(hb_templates(*h)[name@]),
    ensures
        match hb_render(hb_templates(*h), name@, ctx@) {
            Option::Some(s) => r matches Option::Some(out) && out@ == s,
            Option::None => r is None,
        },
        !hb_templates(*h).contains_key(name@) ==> r is None,
{
    let mut data: std::collections::BTreeMap<String, String> = std::collections::BTreeMap::new();
    for p in ctx.pairs.iter() {
        data.insert(p.0.clone(), p.1.clone());
    }
    h.render(name, &data).ok()
}

/// The registry of compiled templates, shared read-only by every request
/// handler for the life of the process.
pub struct TemplateRegistry {
    hb: Hb,
}

impl View for TemplateRegistry {
    type V = Map<Seq<char>, Seq<char>>;

    closed spec fn view(&self) -> Map<Seq<char>, Seq<char>> {
        hb_templates(self.hb)
    }
}

impl TemplateRegistry {
    /// Every template this registry holds is free of partial references.
    /// Each constructor establishes this and each method preserves it, so
    /// every registry the library hands out satisfies it.
    pub open spec fn wf(&self) -> bool {
        registry_wf(self@)
    }

    /// An empty registry.
    pub fn new() -> (r: Self)
        ensures
            r@ == Map::<Seq<char>, Seq<char>>::empty(),
            r.wf(),
    {
        TemplateRegistry { hb: hb_new() }
    }

    /// Compile `body` and register it under `name`, overwriting any
    /// earlier template of that name. A body that holds partial-reference
    /// syntax or does not compile is refused, and the registry is left as
    /// it was.
    pub fn register(&mut self, name: &str, body: &str) -> (r: Result<(), LoadError>)
        ensures
            match r {
                Result::Ok(()) => !has_partial_ref(body@) && hb_parses(body@) && final(self)@
                    == old(self)@.insert(name@, body@),
                Result::Err(LoadError::Partial(n)) => has_partial_ref(body@) && final(self)@
                    == old(self)@ && n@ == name@,
                Result::Err(LoadError::Parse(n)) => !has_partial_ref(body@) && !hb_parses(body@)
                    && final(self)@ == old(self)@ && n@ == name@,
            },
            old(self).wf() ==> final(self).wf(),
    {
        if find_partial_ref(body) {
            return Err(LoadError::Partial(name.to_owned()));
        }
        if hb_register(&mut self.hb, name, body) {
            Ok(())
        } else {
            Err(LoadError::Parse(name.to_owned()))
        }
    }

    /// Is a template registered under `name`?
    pub fn has_template(&self, name: &str) -> (r: bool)
        ensures
            r == self@.contains_key(name@),
    {
        hb_has(&self.hb, name)
    }

    /// Render the template registered under `name` with context `ctx`.
    /// The registry must be well-formed — as every registry built through
    /// this library is — since the engine is only entered for templates
    /// that cannot make it recurse.
    pub fn render(&self, name: &str, ctx: &RenderContext) -> (r: Result<String, RenderError>)
        requires
            self.wf(),
        ensures
            match r {
                Result::Ok(s) => render_view(self@, name@, ctx@) == Result::<
                    Seq<char>,
                    RenderError,
                >::Ok(s@),
                Result::Err(e) => render_view(self@, name@, ctx@) == Result::<
                    Seq<char>,
                    RenderError,
                >::Err(e),
            },
    {
        if !self.has_template(name) {
            return Err(RenderError::NotFound);
        }
        match hb_render_call(&self.hb, name, ctx) {
            Some(s) => Ok(s),
            None => Err(RenderError::Failed),
        }
    }
}

/// The name a template file is registered under: its file name with the
/// extension taken off. A file whose name does not end in the extension,
/// or is nothing but the extension, names no template.
pub fn template_name_of(file: &str, ext: &str) -> (r: Option<String>)
    ensures
        match r {
            Some(n) => ext@.len() < file@.len() && file@.subrange(
                file@.len() - ext@.len(),
                file@.len() as int,
            ) == ext@ && n@ == file@.subrange(0, file@.len() - ext@.len()),
            None => !(ext@.len() < file@.len() && file@.subrange(
                file@.len() - ext@.len(),
                file@.len() as int,
            ) == ext@),
        },
{
    let flen = file.unicode_len();
    let elen = ext.unicode_len();
    if elen < flen && str_has_suffix(file, ext) {
        let stem = file.substring_char(0, flen - elen);
        Some(stem.to_owned())
    } else {
        None
    }
}

/// Build a registry from named template bodies. All-or-nothing: if any
/// body is refused — for partial-reference syntax or by the template
/// compiler — no registry is produced and the error names a refused
/// template.
pub fn load_templates(files: &Vec<(String, String)>) -> (r: Result<TemplateRegistry, LoadError>)
    ensures
        (r is Ok) <==> (forall|i: int|
            0 <= i < files@.len() ==> (hb_parses(#[trigger] files@[i].1@) && !has_partial_ref(
                files@[i].1@,
            ))),
        r matches Result::Ok(reg) ==> reg@ == pairs_map(files@) && reg.wf(),
        r matches Result::Err(LoadError::Parse(n)) ==> exists|i: int|
            0 <= i < files@.len() && files@[i].0@ == n@ && !hb_parses(files@[i].1@),
        r matches Result::Err(LoadError::Partial(n)) ==> exists|i: int|
            0 <= i < files@.len() && files@[i].0@ == n@ && has_partial_ref(files@[i].1@),
{
    let mut reg = TemplateRegistry::new();
    let mut i: usize = 0;
    while i < files.len()
        invariant
            i <= files@.len(),
            reg@ == pairs_map(files@.subrange(0, i as int)),
            reg.wf(),
            forall|j: int|
                0 <= j < i ==> (hb_parses(#[trigger] files@[j].1@) && !has_partial_ref(
                    files@[j].1@,
                )),
        decreases files@.len() - i,
    {
        match reg.register(files[i].0.as_str(), files[i].1.as_str()) {
            Ok(()) => {},
            Err(e) => {
                return Err(e);
            },
        }
        proof {
            assert(files@.subrange(0, i + 1 as int).drop_last() =~= files@.subrange(0, i as int));
        }
        i = i + 1;
    }
    proof {
        assert(files@.subrange(0, files@.len() as int) =~= files@);
    }
    Ok(reg)
}

} // verus!
