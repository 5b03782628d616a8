//! The product: the record that rules read and rewrite.

use vstd::hash_map::StringHashMap;
use vstd::prelude::*;

use crate::rules::model::ProductView;

verus! {

/// A record with a typeclass, a part and a table of named attributes.
///
/// Typeclass and part are fixed when the product is made; only the attribute
/// table changes afterwards, through `set` and `delete`.
pub struct Product {
    typeclass: String,
    part: String,
    attributes: StringHashMap<String>,
}

impl View for Product {
    type V = ProductView;

    closed spec fn view(&self) -> ProductView {
        ProductView {
            typeclass: self.typeclass@,
            part: self.part@,
            attributes: self.attributes@.map_values(|value: String| value@),
        }
    }
}

impl Product {
    /// A product of the given typeclass and part with an empty attribute table.
    pub fn new(typeclass: &str, part: &str) -> (product: Product)
        ensures
            product@ == ProductView::empty(typeclass@, part@),
    {
        let product = Product {
            typeclass: typeclass.to_string(),
            part: part.to_string(),
            attributes: StringHashMap::new(),
        };
        assert(product@.attributes =~= Map::<Seq<char>, Seq<char>>::empty());
        product
    }

    /// The typeclass that selects the rules for this product.
    pub fn typeclass(&self) -> (typeclass: &str)
        ensures
            typeclass@ == self@.typeclass,
    {
        self.typeclass.as_str()
    }

    /// The part the product belongs to.
    pub fn part(&self) -> (part: &str)
        ensures
            part@ == self@.part,
    {
        self.part.as_str()
    }

    /// Whether the product's part is exactly `part`, character for character.
    pub fn has_part(&self, part: &String) -> (same: bool)
        ensures
            same == (self@.part == part@),
    {
        self.part == *part
    }

    /// Binds `key` to `value`: a new key is added, the value of an old key is
    /// replaced. Nothing else changes.
    pub fn set(&mut self, key: &str, value: &str)
        ensures
            final(self)@ == old(self)@.set(key@, value@),
    {
        self.attributes.insert(key.to_string(), value.to_string());
        assert(self@.attributes =~= old(self)@.attributes.insert(key@, value@));
    }

    /// The value bound to `key`, or `None` when the key is not set; a key set
    /// to the empty string is `Some` of the empty string.
    pub fn get(&self, key: &str) -> (value: Option<&String>)
        ensures
            match value {
                Some(found) => self@.get(key@) == Some(found@),
                None => self@.get(key@) is None,
            },
    {
        self.attributes.get(key)
    }

    /// Removes `key` and its value; a key that is not set is left alone.
    /// Nothing else changes.
    pub fn delete(&mut self, key: &str)
        ensures
            final(self)@ == old(self)@.delete(key@),
    {
        self.attributes.remove(key);
        assert(self@.attributes =~= old(self)@.attributes.remove(key@));
    }
}

} // verus!
