//! The localization table: violation and error codes mapped to the text
//! shown to a client.

use vstd::prelude::*;

verus! {

/// The text shown for `code`: its entry in `table`, or the code itself where
/// the table has no entry for it.
pub open spec fn message_for(table: Map<Seq<char>, Seq<char>>, code: Seq<char>) -> Seq<char> {
    if table.contains_key(code) {
        table[code]
    } else {
        code
    }
}

/// A finite table from codes to localized messages.
///
/// The entries are pairs of a code and its message, and no code occurs in
/// two of them; the view is the map they describe.
pub struct MessageTable {
    entries: Vec<(String, String)>,
}

impl View for MessageTable {
    type V = Map<Seq<char>, Seq<char>>;

    closed spec fn view(&self) -> Map<Seq<char>, Seq<char>> {
        Map::new(
            |code: Seq<char>| self.position(code) is Some,
            |code: Seq<char>| self.entries[self.position(code).unwrap()].1@,
        )
    }
}

impl MessageTable {
    #[verifier::type_invariant]
    spec fn well_formed(self) -> bool {
        forall|i: int, j: int|
            0 <= i < j < self.entries.len() ==> self.entries[i].0@ != self.entries[j].0@
    }

    /// The index at which `code` is stored, if it is stored.
    spec fn position(&self, code: Seq<char>) -> Option<int> {
        if exists|i: int| 0 <= i < self.entries.len() && self.entries[i].0@ == code {
            Some(choose|i: int| 0 <= i < self.entries.len() && self.entries[i].0@ == code)
        } else {
            None
        }
    }

    /// A table without entries: every code is its own message.
    pub fn new() -> (table: Self)
        ensures
            table@ == Map::<Seq<char>, Seq<char>>::empty(),
    {
        let table = MessageTable { entries: Vec::new() };
        assert(table@ =~= Map::<Seq<char>, Seq<char>>::empty());
        table
    }

    /// The index of `code` among the stored codes.
    fn find(&self, code: &String) -> (found: Option<usize>)
        ensures
            match found {
                Some(i) => i < self.entries.len() && self.position(code@) == Some(i as int),
                None => self.position(code@) is None,
            },
    {
        proof {
            use_type_invariant(self);
        }
        let mut i: usize = 0;
        while i < self.entries.len()
            invariant
                i <= self.entries.len(),
                self.well_formed(),
                forall|k: int| 0 <= k < i ==> self.entries[k].0@ != code@,
            decreases self.entries.len() - i,
        {
            if self.entries[i].0 == *code {
                return Some(i);
            }
            i += 1;
        }
        None
    }

    /// Sets the message of `code`, replacing an earlier one.
    pub fn insert(&mut self, code: String, text: String)
        ensures
            final(self)@ == old(self)@.insert(code@, text@),
    {
        proof {
            use_type_invariant(&*self);
        }
        let found = self.find(&code);
        let mut entries = Vec::new();
        std::mem::swap(&mut entries, &mut self.entries);
        match found {
            Some(i) => {
                entries.set(i, (code, text));
            },
            None => {
                entries.push((code, text));
            },
        }
        self.entries = entries;
        proof {
            let before = *old(self);
            let after = *self;
            assert forall|c: Seq<char>| c != code@ implies after.position(c) == before.position(
                c,
            ) by {
                if before.position(c) is Some {
                    let k = before.position(c).unwrap();
                    assert(after.entries[k].0@ == c);
                }
                if after.position(c) is Some {
                    let k = after.position(c).unwrap();
                    assert(before.entries[k].0@ == c);
                }
            }
            assert(after.position(code@) is Some) by {
                match found {
                    Some(i) => {
                        assert(after.entries[i as int].0@ == code@);
                    },
                    None => {
                        assert(after.entries[after.entries.len() - 1].0@ == code@);
                    },
                }
            }
            assert(after@ =~= before@.insert(code@, text@));
        }
    }

    /// The message for `code`: the stored message, or `code` itself where
    /// none is stored.
    pub fn lookup(&self, code: &str) -> (text: String)
        ensures
            text@ == message_for(self@, code@),
    {
        proof {
            use_type_invariant(self);
        }
        let wanted = code.to_owned();
        match self.find(&wanted) {
            Some(i) => self.entries[i].1.clone(),
            None => wanted,
        }
    }
}

} // verus!
