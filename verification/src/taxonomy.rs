//! Taxonomies (categories, tags and series) and their classification into
//! one bucket per kind.

use vstd::prelude::*;

use crate::comment::clone_opt_string;

verus! {

/// The closed set of taxonomy kinds.
#[derive(Clone, Copy, Debug, PartialEq, Eq, Structural)]
pub enum TaxonomyType {
    Category,
    Tag,
    Series,
}

impl Default for TaxonomyType {
    fn default() -> (r: Self)
        ensures
            r == TaxonomyType::Category,
    {
        TaxonomyType::Category
    }
}

/// A taxonomy term.
pub struct Taxonomy {
    pub id: i32,
    pub name: String,
    pub description: Option<String>,
    pub cover: Option<String>,
    pub t_type: TaxonomyType,
}

impl Clone for Taxonomy {
    fn clone(&self) -> (r: Self)
        ensures
            r == *self,
    {
        Taxonomy {
            id: self.id,
            name: self.name.clone(),
            description: clone_opt_string(&self.description),
            cover: clone_opt_string(&self.cover),
            t_type: self.t_type,
        }
    }
}

/// Taxonomy terms grouped by kind.
pub struct ClassifiedTaxonomy {
    pub categories: Vec<Taxonomy>,
    pub tags: Vec<Taxonomy>,
    pub series: Vec<Taxonomy>,
}

impl ClassifiedTaxonomy {
    pub fn new() -> (r: Self)
        ensures
            r.categories@.len() == 0,
            r.tags@.len() == 0,
            r.series@.len() == 0,
    {
        Self { categories: Vec::new(), tags: Vec::new(), series: Vec::new() }
    }
}

/// The terms of one kind, as a predicate.
pub open spec fn kind_pred(t: TaxonomyType) -> spec_fn(Taxonomy) -> bool {
    |x: Taxonomy| x.t_type == t
}

pub trait ClassifyTaxonomy {
    fn classify(self) -> ClassifiedTaxonomy;
}

impl ClassifyTaxonomy for Vec<Taxonomy> {
    /// Splits the terms into one bucket per kind, keeping their order.
    fn classify(self) -> (r: ClassifiedTaxonomy)
        ensures
            r.categories@ == self@.filter(kind_pred(TaxonomyType::Category)),
            r.tags@ == self@.filter(kind_pred(TaxonomyType::Tag)),
            r.series@ == self@.filter(kind_pred(TaxonomyType::Series)),
    {
        let mut classified = ClassifiedTaxonomy::new();
        let mut i: usize = 0;
        proof {
            reveal(Seq::filter);
            assert(self@.take(0).filter(kind_pred(TaxonomyType::Category)) =~= Seq::<
                Taxonomy,
            >::empty());
            assert(self@.take(0).filter(kind_pred(TaxonomyType::Tag)) =~= Seq::<Taxonomy>::empty());
            assert(self@.take(0).filter(kind_pred(TaxonomyType::Series)) =~= Seq::<
                Taxonomy,
            >::empty());
        }
        while i < self.len()
            invariant
                0 <= i <= self@.len(),
                classified.categories@ == self@.take(i as int).filter(
                    kind_pred(TaxonomyType::Category),
                ),
                classified.tags@ == self@.take(i as int).filter(kind_pred(TaxonomyType::Tag)),
                classified.series@ == self@.take(i as int).filter(kind_pred(TaxonomyType::Series)),
            decreases self@.len() - i,
        {
            let model = self[i].clone();
            match model.t_type {
                TaxonomyType::Category => classified.categories.push(model),
                TaxonomyType::Tag => classified.tags.push(model),
                TaxonomyType::Series => classified.series.push(model),
            }
            proof {
                assert(self@.take(i + 1) =~= self@.take(i as int).push(self@[i as int]));
                self@.take(i as int).lemma_filter_push(
                    self@[i as int],
                    kind_pred(TaxonomyType::Category),
                );
                self@.take(i as int).lemma_filter_push(
                    self@[i as int],
                    kind_pred(TaxonomyType::Tag),
                );
                self@.take(i as int).lemma_filter_push(
                    self@[i as int],
                    kind_pred(TaxonomyType::Series),
                );
            }
            i = i + 1;
        }
        proof {
            assert(self@.take(self@.len() as int) =~= self@);
        }
        classified
    }
}

} // verus!
