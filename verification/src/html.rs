use vstd::prelude::*;
use vstd::string::StringExecFns;

use crate::product::Product;
use crate::text::{dec_of, u8_to_string};

verus! {

/// The hand-built markup block for one product: the id badge, then the
/// name, price and stock rows, with the page's styling classes.
pub open spec fn product_block(p: Product) -> Seq<char> {
    "<li >\n    <div class=\"flex flex-col mx-auto w-96\">\n      <div class=\"flex flex-row space-x-4\">\n      <div class=\"bg-blue-400 h-10 w-10 items-center rounded-full text-center text-white\" id=\"product-{ product.id }\"><p>"@
        + dec_of(p.id as int)
        + "</p></div>\n        <div class=\"flex flex-col space-y-2\">\n          <div class=\"flex flex-row space-x-2\">\n            <div class=\"font-bold\">Name:</div>\n            <div>"@
        + p.name@
        + "</div>\n          </div>\n          <div class=\"flex flex-row space-x-2\">\n            <div class=\"font-bold\">Price:</div>\n            <div>"@
        + p.price@
        + "</div>\n          </div>\n          <div class=\"flex flex-row space-x-2\">\n            <div class=\"font-bold\">Stock:</div>\n            <div>"@
        + dec_of(p.stock as int)
        + "</div>\n          </div>\n        </div>\n      </div>\n    </div>"@
}

/// The blocks of all the given products, concatenated in order.
pub open spec fn blocks_of(ps: Seq<Product>) -> Seq<char>
    decreases ps.len(),
{
    if ps.len() == 0 {
        Seq::<char>::empty()
    } else {
        blocks_of(ps.drop_last()) + product_block(ps.last())
    }
}

/// The list fragment served for client-side replacement: one block per
/// product, in insertion order, inside a single unordered list.
pub open spec fn products_fragment(ps: Seq<Product>) -> Seq<char> {
    "<ul>"@ + blocks_of(ps) + "</ul>"@
}

/// The snippet announcing a sale identifier.
pub open spec fn sale_snippet(n: int) -> Seq<char> {
    "<h1>New Sale ID: "@ + dec_of(n) + "</h1>"@
}

/// Builds the markup block for one product.
pub fn product_block_string(p: &Product) -> (r: String)
    ensures
        r@ == product_block(*p),
{
    let mut s = String::new();
    s.append(
        "<li >\n    <div class=\"flex flex-col mx-auto w-96\">\n      <div class=\"flex flex-row space-x-4\">\n      <div class=\"bg-blue-400 h-10 w-10 items-center rounded-full text-center text-white\" id=\"product-{ product.id }\"><p>",
    );
    let id_text = u8_to_string(p.id);
    s.append(id_text.as_str());
    s.append(
        "</p></div>\n        <div class=\"flex flex-col space-y-2\">\n          <div class=\"flex flex-row space-x-2\">\n            <div class=\"font-bold\">Name:</div>\n            <div>",
    );
    s.append(p.name.as_str());
    s.append(
        "</div>\n          </div>\n          <div class=\"flex flex-row space-x-2\">\n            <div class=\"font-bold\">Price:</div>\n            <div>",
    );
    s.append(p.price.as_str());
    s.append(
        "</div>\n          </div>\n          <div class=\"flex flex-row space-x-2\">\n            <div class=\"font-bold\">Stock:</div>\n            <div>",
    );
    let stock_text = u8_to_string(p.stock);
    s.append(stock_text.as_str());
    s.append("</div>\n          </div>\n        </div>\n      </div>\n    </div>");
    proof {
        assert(s@ =~= product_block(*p));
    }
    s
}

/// Builds the whole list fragment for the given products.
pub fn products_fragment_string(ps: &Vec<Product>) -> (r: String)
    ensures
        r@ == products_fragment(ps@),
{
    let mut s = String::new();
    s.append("<ul>");
    proof {
        assert(ps@.take(0) =~= Seq::<Product>::empty());
        assert(s@ =~= "<ul>"@ + blocks_of(ps@.take(0)));
    }
    let mut i: usize = 0;
    while i < ps.len()
        invariant
            i <= ps.len(),
            s@ == "<ul>"@ + blocks_of(ps@.take(i as int)),
        decreases ps.len() - i,
    {
        let block = product_block_string(&ps[i]);
        s.append(block.as_str());
        proof {
            assert(ps@.take(i + 1).drop_last() =~= ps@.take(i as int));
            assert(ps@.take(i + 1).last() == ps@[i as int]);
        }
        i += 1;
    }
    s.append("</ul>");
    proof {
        assert(ps@.take(ps@.len() as int) =~= ps@);
        assert(s@ =~= products_fragment(ps@));
    }
    s
}

/// Builds the sale snippet for the given identifier.
pub fn sale_snippet_string(n: u8) -> (r: String)
    ensures
        r@ == sale_snippet(n as int),
{
    let mut s = String::new();
    s.append("<h1>New Sale ID: ");
    let num_text = u8_to_string(n);
    s.append(num_text.as_str());
    s.append("</h1>");
    proof {
        assert(s@ =~= sale_snippet(n as int));
    }
    s
}

} // verus!
