use vstd::prelude::*;
use vstd::std_specs::cmp::PartialEqSpec;

verus! {

/// A Discord ID.
#[derive(Clone, Debug, Eq, PartialOrd, Ord)]
pub struct Snowflake(pub String);

impl PartialEq for Snowflake {
    /// Two IDs are equal when their texts are.
    fn eq(&self, other: &Self) -> (res: bool)
        ensures
            res <==> self@ == other@,
    {
        self.0 == other.0
    }
}

impl vstd::std_specs::cmp::PartialEqSpecImpl for Snowflake {
    open spec fn obeys_eq_spec() -> bool {
        true
    }

    open spec fn eq_spec(&self, other: &Self) -> bool {
        self.0@ == other.0@
    }
}

/// Two IDs are equal exactly when their texts are: the same text gives
/// equal IDs, and texts that differ anywhere, even of the same length, give
/// different ones.
pub proof fn lemma_snowflake_eq(a: Snowflake, b: Snowflake)
    ensures
        a.eq_spec(&b) <==> a@ == b@,
        a.eq_spec(&b) ==> a@.len() == b@.len() && forall|i: int| 0 <= i < a@.len() ==> a@[i] == b@[i],
        (exists|i: int| 0 <= i < a@.len() && i < b@.len() && a@[i] != b@[i]) ==> !a.eq_spec(&b),
{
}

impl View for Snowflake {
    type V = Seq<char>;

    open spec fn view(&self) -> Seq<char> {
        self.0@
    }
}

impl Snowflake {
    /// Wraps the textual form of an ID.
    pub fn new(id: String) -> (res: Self)
        ensures
            res@ == id@,
    {
        Self(id)
    }
}

} // verus!
