use vstd::prelude::*;

verus! {

/// One stored entry: a secret, which doubles as the lookup key, and its
/// confirmation.
pub struct Record {
    pub secret: String,
    pub confirmation: String,
}

impl View for Record {
    type V = (Seq<char>, Seq<char>);

    open spec fn view(&self) -> (Seq<char>, Seq<char>) {
        (self.secret@, self.confirmation@)
    }
}

impl Record {
    pub fn new(secret: String, confirmation: String) -> (r: Record)
        ensures
            r@ == (secret@, confirmation@),
    {
        Record { secret, confirmation }
    }

    /// A field-for-field copy.
    pub fn duplicate(&self) -> (r: Record)
        ensures
            r@ == self@,
    {
        Record { secret: self.secret.clone(), confirmation: self.confirmation.clone() }
    }
}

} // verus!
