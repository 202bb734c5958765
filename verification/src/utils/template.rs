//! The template-rendering boundary: a thin engine over the `handlebars`
//! crate. A template is rendered against a JSON document given as text. What
//! the renderer produces depends on the template text, the data text, and
//! the templates registered on the engine (a one-shot render resolves
//! partials from the registry), so the engine tracks its registrations as
//! ghost state and the named rendering result is a function of all three.

use handlebars::{Handlebars, Helper, HelperResult, Output, RenderContext, RenderErrorReason};
use vstd::prelude::*;

verus! {

#[verifier::external_type_specification]
#[verifier::external_body]
pub struct ExHandlebars<'a>(handlebars::Handlebars<'a>);

/// An error of the template engine.
#[derive(Debug)]
pub enum TEngineError {
    /// An input could not be read.
    IoError,
    /// A template failed to parse; the string is the parser's message.
    TemplateError(String),
    /// A data document failed to parse as JSON; the string is the parser's
    /// message.
    JsonError(String),
    /// Rendering failed; the string is the renderer's message.
    RenderError(String),
    /// No template of the given name is registered.
    TemplateNotFoundError(String),
}

/// Whether the template text parses under the engine's syntax.
pub uninterp spec fn template_ok(template: Seq<char>) -> bool;

/// What rendering the template against the JSON document `data` produces
/// under this library's engine configuration (no HTML escaping, and a
/// `verbatim` helper that writes its argument as a JSON document) on an
/// engine holding the given template registrations, applied in order (a
/// later registration of a name shadows an earlier one; partials resolve
/// against them): the rendered text, or nothing when the template does not
/// parse, the data is not a JSON document, or rendering fails.
pub uninterp spec fn rendered(
    registrations: Seq<(Seq<char>, Seq<char>)>,
    template: Seq<char>,
    data: Seq<char>,
) -> Option<Seq<char>>;

/// A template engine. Every instance is configured identically, so what it
/// renders depends only on the template and data texts and on the templates
/// registered on it, which `spec_registrations` tracks.
pub struct TEngine {
    handlebars: Handlebars<'static>,
    registrations: Ghost<Seq<(Seq<char>, Seq<char>)>>,
}

/// Relies on `handlebars::Handlebars::new`, `register_escape_fn` and
/// `register_helper`: creates a raw engine with no registered templates that
/// renders text verbatim, without HTML escaping, with a `verbatim` helper
/// that writes its argument back as a JSON document (via
/// `serde_json::to_string`).
#[verifier::external_body]
fn new_engine() -> Handlebars<'static> {
    let verbatim = |h: &Helper, _r: &Handlebars, _c: &handlebars::Context, _rc: &mut RenderContext, out: &mut dyn Output| -> HelperResult {
        let v = h.param(0).ok_or(RenderErrorReason::ParamNotFoundForIndex("verbatim", 0))?;
        out.write(&serde_json::to_string(v.value()).unwrap_or_default())?;
        Ok(())
    };
    let mut handlebars = Handlebars::new();
    handlebars.register_escape_fn(handlebars::no_escape);
    handlebars.register_helper("verbatim", Box::new(verbatim));
    handlebars
}

impl TEngine {
    /// The (name, template) pairs registered on this engine so far, in
    /// registration order.
    pub closed spec fn spec_registrations(&self) -> Seq<(Seq<char>, Seq<char>)> {
        self.registrations@
    }

    /// Creates an engine with no registered templates.
    pub fn new() -> (r: Self)
        ensures
            r.spec_registrations() =~= Seq::<(Seq<char>, Seq<char>)>::empty(),
    {
        TEngine { handlebars: new_engine(), registrations: Ghost(Seq::empty()) }
    }

    /// Relies on `handlebars::Handlebars::register_template_string`:
    /// registers the template under the given name, succeeding exactly when
    /// the template text parses; a failed registration leaves the registry
    /// unchanged.
    #[verifier::external_body]
    pub fn register_template_string(&mut self, name: &str, template: &str) -> (r: Result<
        (),
        TEngineError,
    >)
        ensures
            r is Ok <==> template_ok(template@),
            r is Ok ==> final(self).spec_registrations() == old(self).spec_registrations().push(
                (name@, template@),
            ),
            r is Err ==> final(self).spec_registrations() == old(self).spec_registrations(),
    {
        self.handlebars.register_template_string(name, template).map_err(
            |e| TEngineError::TemplateError(e.to_string()),
        )
    }

    /// Relies on `serde_json::from_str` and
    /// `handlebars::Handlebars::render_template`: renders the template
    /// against the JSON document given as text, resolving partials from the
    /// engine's registered templates.
    #[verifier::external_body]
    pub fn render_template(&self, template: &str, data: &str) -> (r: Result<String, TEngineError>)
        ensures
            match r {
                Result::Ok(text) => rendered(self.spec_registrations(), template@, data@) == Some(
                    text@,
                ),
                Result::Err(_) => rendered(self.spec_registrations(), template@, data@) is None,
            },
    {
        let value: serde_json::Value = serde_json::from_str(data).map_err(
            |e| TEngineError::JsonError(e.to_string()),
        )?;
        self.handlebars.render_template(template, &value).map_err(
            |e| TEngineError::RenderError(e.to_string()),
        )
    }
}

} // verus!
