//! A set of texts.

use vstd::prelude::*;
use crate::text::texts;

verus! {

/// A finite set of texts, in which a text is found by comparing it with each
/// member in turn.
pub struct TextSet {
    items: Vec<String>,
}

impl View for TextSet {
    type V = Set<Seq<char>>;

    closed spec fn view(&self) -> Set<Seq<char>> {
        texts(self.items@).to_set()
    }
}

impl TextSet {
    #[verifier::type_invariant]
    spec fn distinct(&self) -> bool {
        texts(self.items@).no_duplicates()
    }

    /// The empty set.
    pub fn new() -> (r: TextSet)
        ensures
            r@ == Set::<Seq<char>>::empty(),
    {
        let r = TextSet { items: Vec::new() };
        r
    }

    /// Whether `text` is a member.
    pub fn contains(&self, text: &String) -> (r: bool)
        ensures
            r == self@.contains(text@),
    {
        let mut i: usize = 0;
        while i < self.items.len()
            invariant
                i <= self.items.len(),
                forall|k: int| 0 <= k < i ==> self.items[k]@ != text@,
            decreases self.items.len() - i,
        {
            if self.items[i] == *text {
                assert(texts(self.items@)[i as int] == text@);
                return true;
            }
            i += 1;
        }
        false
    }

    /// Adds `text`. Says whether it was new to the set.
    pub fn insert(&mut self, text: String) -> (r: bool)
        ensures
            final(self)@ == old(self)@.insert(text@),
            r == !old(self)@.contains(text@),
    {
        if self.contains(&text) {
            false
        } else {
            proof {
                use_type_invariant(&*self);
                let before = texts(self.items@);
                assert(texts(self.items@.push(text)) =~= before.push(text@));
                before.lemma_push_to_set_commute(text@);
            }
            let mut grown: Vec<String> = Vec::new();
            std::mem::swap(&mut grown, &mut self.items);
            grown.push(text);
            self.items = grown;
            true
        }
    }

    /// How many texts the set holds.
    pub fn len(&self) -> (r: usize)
        ensures
            self@.finite(),
            r == self@.len(),
    {
        proof {
            use_type_invariant(self);
            texts(self.items@).unique_seq_to_set();
        }
        self.items.len()
    }
}

} // verus!
