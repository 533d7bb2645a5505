use vstd::prelude::*;
use vstd::string::StringExecFns;

use crate::product::Product;

verus! {

/// The shared in-memory product store: an ordered collection of records,
/// owned exclusively by the store. The view is the sequence of records in
/// insertion order; no uniqueness of ids or names is enforced. Callers that
/// share one store across tasks serialize access through a single lock and
/// hand each operation the store by reference.
pub struct ProductStore {
    products: Vec<Product>,
}

impl View for ProductStore {
    type V = Seq<Product>;

    closed spec fn view(&self) -> Seq<Product> {
        self.products@
    }
}

impl ProductStore {
    /// An empty store.
    pub fn new() -> (s: ProductStore)
        ensures
            s@ == Seq::<Product>::empty(),
    {
        ProductStore { products: Vec::new() }
    }

    /// The store as the application starts it: the three default products,
    /// in order, each with zero stock.
    pub fn seeded() -> (s: ProductStore)
        ensures
            s@.len() == 3,
            s@[0].name@ == "Burger"@ && s@[0].price@ == "1"@ && s@[0].stock == 0,
            s@[1].name@ == "Sprite"@ && s@[1].price@ == "0.5"@ && s@[1].stock == 0,
            s@[2].name@ == "Fries"@ && s@[2].price@ == "1.5"@ && s@[2].stock == 0,
    {
        let mut s = ProductStore::new();
        s.add(String::from_str("Burger"), String::from_str("1"));
        s.add(String::from_str("Sprite"), String::from_str("0.5"));
        s.add(String::from_str("Fries"), String::from_str("1.5"));
        s
    }

    /// A snapshot of all current records, in insertion order; never fails.
    pub fn list(&self) -> (r: Vec<Product>)
        ensures
            r@ == self@,
    {
        let mut r: Vec<Product> = Vec::new();
        let mut i: usize = 0;
        while i < self.products.len()
            invariant
                i <= self.products.len(),
                r@ == self.products@.take(i as int),
            decreases self.products.len() - i,
        {
            r.push(self.products[i].clone());
            proof {
                assert(self.products@.take(i + 1) =~= self.products@.take(i as int).push(
                    self.products@[i as int],
                ));
            }
            i += 1;
        }
        proof {
            assert(self.products@.take(self.products@.len() as int) =~= self.products@);
        }
        r
    }

    /// How many records the store holds.
    pub fn len(&self) -> (n: usize)
        ensures
            n == self@.len(),
    {
        self.products.len()
    }

    /// Appends a fresh record built from the given name and price text and
    /// returns it; never fails. The records already stored keep their places.
    pub fn add(&mut self, name: String, price: String) -> (p: Product)
        ensures
            final(self)@ == old(self)@.push(p),
            p.name == name,
            p.price == price,
            p.stock == 0,
    {
        let product = Product::new(name, price);
        let out = product.clone();
        self.products.push(product);
        out
    }
}

/// The store contents after a run of appends, applied one after the other in
/// the order the lock granted them.
pub open spec fn after_adds(s: Seq<Product>, added: Seq<Product>) -> Seq<Product>
    decreases added.len(),
{
    if added.len() == 0 {
        s
    } else {
        after_adds(s.push(added[0]), added.drop_first())
    }
}

/// However many adds run, one at a time in any order, none is lost: the store
/// ends with the records it already held, in place, followed by one new
/// record per add, so the count grows by exactly the number of adds.
pub proof fn lemma_adds_lose_nothing(s: Seq<Product>, added: Seq<Product>)
    ensures
        after_adds(s, added) == s + added,
        after_adds(s, added).len() == s.len() + added.len(),
    decreases added.len(),
{
    if added.len() == 0 {
        assert(after_adds(s, added) =~= s + added);
    } else {
        lemma_adds_lose_nothing(s.push(added[0]), added.drop_first());
        assert(s.push(added[0]) + added.drop_first() =~= s + added);
    }
}

/// However many submissions run, one at a time in whatever order the lock
/// grants them, the store ends with the records it already held, in place,
/// followed by exactly one record per submitted form — each carrying that
/// form's name and price and zero stock — and no other record.
pub proof fn lemma_adds_match_forms(
    s: Seq<Product>,
    added: Seq<Product>,
    forms: Seq<(Seq<char>, Seq<char>)>,
)
    requires
        added.len() == forms.len(),
        forall|i: int|
            0 <= i < added.len() ==> (#[trigger] added[i]).name@ == forms[i].0
                && added[i].price@ == forms[i].1 && added[i].stock == 0,
    ensures
        after_adds(s, added).len() == s.len() + forms.len(),
        after_adds(s, added).subrange(0, s.len() as int) == s,
        forall|i: int|
            0 <= i < forms.len() ==> (#[trigger] after_adds(s, added)[s.len() + i]).name@
                == forms[i].0 && after_adds(s, added)[s.len() + i].price@ == forms[i].1
                && after_adds(s, added)[s.len() + i].stock == 0,
{
    lemma_adds_lose_nothing(s, added);
    assert((s + added).subrange(0, s.len() as int) =~= s);
    assert(forall|i: int| 0 <= i < added.len() ==> (s + added)[s.len() + i] == added[i]);
}

} // verus!
