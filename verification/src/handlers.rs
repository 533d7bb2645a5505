use vstd::prelude::*;
use vstd::string::StringExecFns;

use crate::html::{products_fragment, products_fragment_string, sale_snippet, sale_snippet_string};
use crate::render::{context_data, context_insert_str, context_new, render_template};
use crate::response::Response;
use crate::store::ProductStore;

verus! {

/// True when the body is the server-error page for a failed render: the
/// fixed marker followed by the renderer's own description of the error.
pub open spec fn is_template_error_body(b: Seq<char>) -> bool {
    exists|e: Seq<char>| b == "Template error: "@ + e
}

/// The root path: a permanent redirect to the inventory listing page.
pub fn index() -> (r: Response)
    ensures
        r.status == 301u16,
        r.headers@.len() == 1,
        r.headers@[0].0@ == "Location"@,
        r.headers@[0].1@ == "/inventario"@,
        r.body@ == Seq::<char>::empty(),
{
    let mut headers: Vec<(String, String)> = Vec::new();
    headers.push((String::from_str("Location"), String::from_str("/inventario")));
    Response { status: 301, headers, body: String::new() }
}

/// The page response decided from the renderer's outcome, for the inventory
/// page and the add-product form page alike: the rendered page as-is on
/// success, a server error naming the template failure otherwise.
pub fn page_response(rendered: Result<String, String>) -> (r: Response)
    ensures
        r.headers@.len() == 0,
        match rendered {
            Ok(html) => r.status == 200u16 && r.body@ == html@,
            Err(e) => r.status == 500u16 && r.body@ == "Template error: "@ + e@,
        },
{
    match rendered {
        Ok(html) => Response { status: 200, headers: Vec::new(), body: html },
        Err(e) => {
            let mut body = String::from_str("Template error: ");
            body.append(e.as_str());
            Response { status: 500, headers: Vec::new(), body }
        },
    }
}

/// The add-product form page: renders the form template with a context that
/// holds exactly one binding, the page title, and answers with the outcome.
/// The engine decides whether the render succeeds; whatever it returns, the
/// response is the one `page_response` owes it.
pub fn new_product(t: &tera::Tera) -> (r: Response)
    ensures
        r.headers@.len() == 0,
        r.status == 200u16 || r.status == 500u16,
        r.status == 500u16 ==> is_template_error_body(r.body@),
{
    let mut ctx = context_new();
    context_insert_str(&mut ctx, "title", "Add Product");
    proof {
        assert(context_data(ctx) == Map::<Seq<char>, Seq<char>>::empty().insert(
            "title"@,
            "Add Product"@,
        ));
    }
    let rendered = render_template(t, "product.html", &ctx);
    let ghost outcome = rendered;
    let r = page_response(rendered);
    proof {
        if r.status == 500u16 {
            let e = match outcome {
                Ok(html) => html@,
                Err(e) => e@,
            };
            assert(r.body@ == "Template error: "@ + e);
        }
    }
    r
}

/// The form submission: appends a record built from the submitted name and
/// price text — the new record lands at the end, nothing else moves — and
/// answers with the refresh signal that tells the client to reload.
pub fn test_add_product(store: &mut ProductStore, name: String, price: String) -> (r: Response)
    ensures
        final(store)@.len() == old(store)@.len() + 1,
        final(store)@ == old(store)@.push(final(store)@.last()),
        final(store)@.last().name == name,
        final(store)@.last().price == price,
        final(store)@.last().stock == 0,
        r.status == 200u16,
        r.headers@.len() == 1,
        r.headers@[0].0@ == "HX-Refresh"@,
        r.headers@[0].1@ == "true"@,
        r.body@ == "Product added"@,
{
    store.add(name, price);
    let mut headers: Vec<(String, String)> = Vec::new();
    headers.push((String::from_str("HX-Refresh"), String::from_str("true")));
    Response { status: 200, headers, body: String::from_str("Product added") }
}

/// The product list as a pre-formatted fragment: one block per stored
/// record, in insertion order.
pub fn get_products(store: &ProductStore) -> (r: Response)
    ensures
        r.status == 200u16,
        r.headers@.len() == 0,
        r.body@ == products_fragment(store@),
{
    let items = store.list();
    let body = products_fragment_string(&items);
    Response { status: 200, headers: Vec::new(), body }
}

/// The stream test endpoint: draws a fresh identifier and announces it.
/// Which number comes back is the generator's choice; the body is the sale
/// snippet for whichever it was.
pub fn test_stream() -> (r: Response)
    ensures
        r.status == 200u16,
        r.headers@.len() == 0,
        exists|n: u8| r.body@ == sale_snippet(n as int),
{
    let num = rand::random::<u8>();
    let body = sale_snippet_string(num);
    Response { status: 200, headers: Vec::new(), body }
}

/// The click test endpoint: a static snippet, a placeholder.
pub fn clicked() -> (r: Response)
    ensures
        r.status == 200u16,
        r.headers@.len() == 0,
        r.body@ == "<p>Clicked</p>"@,
{
    Response { status: 200, headers: Vec::new(), body: String::from_str("<p>Clicked</p>") }
}

/// The post test endpoint: a static snippet, a placeholder.
pub fn testpost() -> (r: Response)
    ensures
        r.status == 200u16,
        r.headers@.len() == 0,
        r.body@ == "<p>Test post</p>"@,
{
    Response { status: 200, headers: Vec::new(), body: String::from_str("<p>Test post</p>") }
}

} // verus!
