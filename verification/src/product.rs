use vstd::prelude::*;

verus! {

/// One inventory record. The identifier is a small random number, assigned
/// once at creation and never checked for collisions; the price is carried
/// as the decimal text the pages display; the stock starts at zero and no
/// operation changes it.
#[derive(Debug)]
pub struct Product {
    pub id: u8,
    pub name: String,
    pub price: String,
    pub stock: u8,
}

/// Relies on rand::random: draws a value of the type from the thread-local
/// generator. Nothing is promised of the value drawn.
pub assume_specification<T>[ rand::random::<T> ]() -> (r: T)
    where
        rand::distr::StandardUniform: rand::distr::Distribution<T>,
;

impl Clone for Product {
    fn clone(&self) -> (r: Self)
        ensures
            r == *self,
    {
        Product {
            id: self.id,
            name: self.name.clone(),
            price: self.price.clone(),
            stock: self.stock,
        }
    }
}

impl Product {
    /// A fresh record: a randomly drawn identifier, the given name and price
    /// text, and zero stock.
    pub fn new(name: String, price: String) -> (p: Product)
        ensures
            p.name == name,
            p.price == price,
            p.stock == 0,
    {
        Product { id: rand::random::<u8>(), name, price, stock: 0 }
    }
}

} // verus!
