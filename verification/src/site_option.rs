//! The site configuration key/value record and what of it may be shown
//! publicly. The `"email"` option holds the site-owner address the moderation
//! policy compares against.

use vstd::prelude::*;

use crate::comment::clone_opt_string;

verus! {

/// A site configuration row.
pub struct SiteOption {
    pub id: Option<u32>,
    pub name: Option<String>,
    pub value: Option<String>,
}

impl Clone for SiteOption {
    fn clone(&self) -> (r: Self)
        ensures
            r == *self,
    {
        SiteOption {
            id: self.id,
            name: clone_opt_string(&self.name),
            value: clone_opt_string(&self.value),
        }
    }
}

impl SiteOption {
    /// Whether this option is withheld from public listings: the password,
    /// and any row without a name.
    pub open spec fn spec_is_private(self) -> bool {
        match self.name {
            Some(name) => name@ == "password"@,
            None => true,
        }
    }

    pub fn is_private(&self) -> (r: bool)
        ensures
            r == self.spec_is_private(),
    {
        match &self.name {
            Some(name) => *name == "password".to_owned(),
            None => true,
        }
    }
}

/// The public options, as a predicate.
pub open spec fn public_pred() -> spec_fn(SiteOption) -> bool {
    |o: SiteOption| !o.spec_is_private()
}

/// Keeps only the options that may be shown publicly.
pub fn filter_publics(options: Vec<SiteOption>) -> (r: Vec<SiteOption>)
    ensures
        r@ == options@.filter(public_pred()),
{
    let mut out: Vec<SiteOption> = Vec::new();
    let mut i: usize = 0;
    proof {
        reveal(Seq::filter);
        assert(options@.take(0).filter(public_pred()) =~= Seq::<SiteOption>::empty());
    }
    while i < options.len()
        invariant
            0 <= i <= options@.len(),
            out@ == options@.take(i as int).filter(public_pred()),
        decreases options@.len() - i,
    {
        if !options[i].is_private() {
            out.push(options[i].clone());
        }
        proof {
            assert(options@.take(i + 1) =~= options@.take(i as int).push(options@[i as int]));
            options@.take(i as int).lemma_filter_push(options@[i as int], public_pred());
        }
        i = i + 1;
    }
    proof {
        assert(options@.take(options@.len() as int) =~= options@);
    }
    out
}

} // verus!
