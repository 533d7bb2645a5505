use vstd::prelude::*;

verus! {

/// tera's template engine, carried opaquely: it holds whatever templates it
/// parsed when the application loaded them from disk.
#[verifier::external_type_specification]
#[verifier::external_body]
pub struct ExTera(tera::Tera);

/// tera's render context: the values a template render can refer to.
#[verifier::external_type_specification]
#[verifier::external_body]
pub struct ExContext(tera::Context);

/// The string bindings a context holds, each key mapped to its text.
pub uninterp spec fn context_data(c: tera::Context) -> Map<Seq<char>, Seq<char>>;

/// Relies on tera::Context::new: a fresh render context, holding no bindings.
#[verifier::external_body]
pub(crate) fn context_new() -> (ctx: tera::Context)
    ensures
        context_data(ctx) =~= Map::empty(),
{
    tera::Context::new()
}

/// Relies on tera::Context::insert: binds the key to the given text in the
/// context, replacing any earlier binding of that key.
#[verifier::external_body]
pub(crate) fn context_insert_str(ctx: &mut tera::Context, key: &str, value: &str)
    ensures
        context_data(*final(ctx)) == context_data(*old(ctx)).insert(key@, value@),
{
    ctx.insert(key, value)
}

/// Relies on tera::Tera::render: renders the named template with the given
/// context. The outcome depends on the templates the engine holds, so nothing
/// is promised of it; on failure the text is the engine's own description of
/// the error.
#[verifier::external_body]
pub(crate) fn render_template(t: &tera::Tera, name: &str, ctx: &tera::Context) -> (r: Result<
    String,
    String,
>) {
    match t.render(name, ctx) {
        Ok(html) => Ok(html),
        Err(e) => Err(format!("{:?}", e)),
    }
}

} // verus!
