use vstd::prelude::*;

use crate::text::str_eq;
use uuid::Uuid;

verus! {

/// The part of a user account that access decisions read: its id and its
/// traits (roles such as `Admin`).
pub struct User {
    pub id: Uuid,
    pub traits: Vec<String>,
}

impl User {
    /// True when one of the user's traits is `name`.
    pub open spec fn spec_has_trait(&self, name: Seq<char>) -> bool {
        exists|i: int| 0 <= i < self.traits@.len() && #[trigger] self.traits@[i]@ == name
    }

    /// Tests whether one of the user's traits is `name`.
    pub fn has_trait(&self, name: &str) -> (r: bool)
        ensures
            r == self.spec_has_trait(name@),
    {
        let n = self.traits.len();
        let mut i: usize = 0;
        while i < n
            invariant
                n == self.traits@.len(),
                i <= n,
                forall|j: int| 0 <= j < i ==> #[trigger] self.traits@[j]@ != name@,
            decreases n - i,
        {
            if str_eq(self.traits[i].as_str(), name) {
                return true;
            }
            i = i + 1;
        }
        false
    }
}

} // verus!
