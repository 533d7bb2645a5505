use inventario::handlers::{
    clicked, get_products, index, new_product, page_response, test_add_product, test_stream,
    testpost,
};
use inventario::html::products_fragment_string;
use inventario::product::Product;
use inventario::store::ProductStore;

#[test]
fn index_redirects_permanently_to_inventario() {
    let r = index();
    assert_eq!(r.status, 301);
    assert_eq!(r.headers.len(), 1);
    assert_eq!(r.headers[0].0, "Location");
    assert_eq!(r.headers[0].1, "/inventario");
    assert!(r.body.is_empty());
}

#[test]
fn page_response_passes_a_rendered_page_through() {
    let r = page_response(Ok("<html><body>ok</body></html>".to_string()));
    assert_eq!(r.status, 200);
    assert!(r.headers.is_empty());
    assert_eq!(r.body, "<html><body>ok</body></html>");
    assert!(!r.body.is_empty());
}

#[test]
fn page_response_names_the_template_error() {
    let r = page_response(Err("missing block".to_string()));
    assert_eq!(r.status, 500);
    assert_eq!(r.body, "Template error: missing block");
    assert!(r.body.contains("Template error"));
}

#[test]
fn add_product_extends_the_store_and_signals_a_refresh() {
    let mut s = ProductStore::seeded();
    let r = test_add_product(&mut s, "Water".to_string(), "0.9".to_string());
    assert_eq!(r.status, 200);
    assert_eq!(r.headers.len(), 1);
    assert_eq!(r.headers[0].0, "HX-Refresh");
    assert_eq!(r.headers[0].1, "true");
    assert_eq!(r.body, "Product added");
    assert_eq!(s.len(), 4);
    let listed = s.list();
    assert_eq!(listed[3].name, "Water");
    assert_eq!(listed[3].price, "0.9");
    assert_eq!(listed[3].stock, 0);
}

fn expected_block(id: u8, name: &str, price: &str, stock: u8) -> String {
    format!(
        "<li >\n    <div class=\"flex flex-col mx-auto w-96\">\n      <div class=\"flex flex-row space-x-4\">\n      <div class=\"bg-blue-400 h-10 w-10 items-center rounded-full text-center text-white\" id=\"product-{{ product.id }}\"><p>{}</p></div>\n        <div class=\"flex flex-col space-y-2\">\n          <div class=\"flex flex-row space-x-2\">\n            <div class=\"font-bold\">Name:</div>\n            <div>{}</div>\n          </div>\n          <div class=\"flex flex-row space-x-2\">\n            <div class=\"font-bold\">Price:</div>\n            <div>{}</div>\n          </div>\n          <div class=\"flex flex-row space-x-2\">\n            <div class=\"font-bold\">Stock:</div>\n            <div>{}</div>\n          </div>\n        </div>\n      </div>\n    </div>",
        id, name, price, stock
    )
}

#[test]
fn fragment_matches_the_handwritten_markup_exactly() {
    let products = vec![
        Product { id: 7, name: "Burger".to_string(), price: "1".to_string(), stock: 0 },
        Product { id: 250, name: "Sprite".to_string(), price: "0.5".to_string(), stock: 0 },
    ];
    let body = products_fragment_string(&products);
    let expected = format!(
        "<ul>{}{}</ul>",
        expected_block(7, "Burger", "1", 0),
        expected_block(250, "Sprite", "0.5", 0)
    );
    assert_eq!(body, expected);
}

#[test]
fn products_page_lists_five_items_in_insertion_order() {
    let mut s = ProductStore::seeded();
    s.add("Burger".to_string(), "1".to_string());
    s.add("Sprite".to_string(), "0.5".to_string());
    let r = get_products(&s);
    assert_eq!(r.status, 200);
    assert!(r.body.starts_with("<ul>"));
    assert!(r.body.ends_with("</ul>"));
    assert_eq!(r.body.matches("<li >").count(), 5);

    let names = ["Burger", "Sprite", "Fries", "Burger", "Sprite"];
    let prices = ["1", "0.5", "1.5", "1", "0.5"];
    let mut pos = 0;
    for (name, price) in names.iter().zip(prices.iter()) {
        let name_div = format!("Name:</div>\n            <div>{}</div>", name);
        let price_div = format!("Price:</div>\n            <div>{}</div>", price);
        let at_name = r.body[pos..].find(&name_div).expect("name in order");
        let after_name = pos + at_name + name_div.len();
        let at_price = r.body[after_name..].find(&price_div).expect("price after its name");
        pos = after_name + at_price + price_div.len();
    }
}

#[test]
fn stream_announces_a_byte_sized_sale_id() {
    let r = test_stream();
    assert_eq!(r.status, 200);
    assert!(r.body.starts_with("<h1>New Sale ID: "));
    assert!(r.body.ends_with("</h1>"));
    let middle = &r.body["<h1>New Sale ID: ".len()..r.body.len() - "</h1>".len()];
    let n: u32 = middle.parse().expect("a decimal number");
    assert!(n <= 255);
}

#[test]
fn placeholder_endpoints_answer_their_snippets() {
    let c = clicked();
    assert_eq!(c.status, 200);
    assert_eq!(c.body, "<p>Clicked</p>");
    let t = testpost();
    assert_eq!(t.status, 200);
    assert_eq!(t.body, "<p>Test post</p>");
}

#[test]
fn form_page_renders_through_the_engine() {
    let mut engine = tera::Tera::default();
    engine
        .add_raw_template("product.html", "<h1>{{ title }}</h1>")
        .expect("template registers");
    let r = new_product(&engine);
    assert_eq!(r.status, 200);
    assert_eq!(r.body, "<h1>Add Product</h1>");
}

#[test]
fn form_page_reports_a_failed_render() {
    let engine = tera::Tera::default();
    let r = new_product(&engine);
    assert_eq!(r.status, 500);
    assert!(r.body.starts_with("Template error: "));
}
