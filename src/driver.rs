//! Host-side bookkeeping of the commands a plugin sent and that still await
//! a response.
use vstd::prelude::*;
use crate::schema::{request_name, response_name, Command, CommandName, CommandResponse};

verus! {

/// Outstanding commands by id and variant name; ids are unique.
pub struct CommandLedger {
    outstanding: Vec<(usize, CommandName)>,
}

pub open spec fn ids_unique(s: Seq<(usize, CommandName)>) -> bool {
    forall|i: int, j: int| 0 <= i < s.len() && 0 <= j < s.len() && s[i].0 == s[j].0 ==> i == j
}

pub open spec fn has_id(s: Seq<(usize, CommandName)>, id: usize) -> bool {
    exists|i: int| 0 <= i < s.len() && s[i].0 == id
}

impl View for CommandLedger {
    type V = Seq<(usize, CommandName)>;

    closed spec fn view(&self) -> Seq<(usize, CommandName)> {
        self.outstanding@
    }
}

impl CommandLedger {
    pub closed spec fn wf(&self) -> bool {
        ids_unique(self.outstanding@)
    }

    pub fn new() -> (r: CommandLedger)
        ensures
            r.wf(),
            r@ == Seq::<(usize, CommandName)>::empty(),
    {
        CommandLedger { outstanding: Vec::new() }
    }

    fn position(&self, id: usize) -> (r: Option<usize>)
        ensures
            r matches Some(i) ==> i < self@.len() && self@[i as int].0 == id,
            r is None ==> !has_id(self@, id),
    {
        let mut i: usize = 0;
        while i < self.outstanding.len()
            invariant
                i <= self@.len(),
                self@ == self.outstanding@,
                forall|k: int| 0 <= k < i ==> self@[k].0 != id,
            decreases self@.len() - i,
        {
            if self.outstanding[i].0 == id {
                return Some(i);
            }
            i = i + 1;
        }
        None
    }

    /// Records a sent command; refused (`false`, nothing changes) when a
    /// command with the same id is still outstanding.
    pub fn register(&mut self, command: &Command) -> (r: bool)
        requires
            old(self).wf(),
        ensures
            final(self).wf(),
            r == !has_id(old(self)@, command.id),
            r ==> final(self)@ == old(self)@.push((command.id, request_name(command.kind))),
            !r ==> final(self)@ == old(self)@,
    {
        match self.position(command.id) {
            Some(_) => false,
            None => {
                self.outstanding.push((command.id, command.kind.name()));
                true
            },
        }
    }

    /// Accepts a response that answers an outstanding command (same id, same
    /// variant name), which is then no longer outstanding; `false` marks the
    /// response as unmatched and changes nothing.
    pub fn accept(&mut self, response: &CommandResponse) -> (r: bool)
        requires
            old(self).wf(),
        ensures
            final(self).wf(),
            r == old(self)@.contains((response.command_id, response_name(response.kind))),
            r ==> final(self)@ == old(self)@.remove(
                old(self)@.index_of((response.command_id, response_name(response.kind))),
            ),
            !r ==> final(self)@ == old(self)@,
    {
        let ghost entry = (response.command_id, response_name(response.kind));
        match self.position(response.command_id) {
            Some(i) => {
                let name = response.kind.name();
                if self.outstanding[i].1 == name {
                    proof {
                        assert(self@[i as int] == entry);
                        assert(self@.contains(entry));
                        let k = self@.index_of(entry);
                        assert(self@[k] == entry);
                    }
                    self.outstanding.remove(i);
                    proof {
                        assert(forall|a: int, b: int| 0 <= a < self@.len() && 0 <= b < self@.len()
                            ==> #[trigger] self@[a] == old(self)@[if a < i { a } else { a + 1 }]
                            && #[trigger] self@[b] == old(self)@[if b < i { b } else { b + 1 }]);
                    }
                    true
                } else {
                    proof {
                        assert forall|k: int| 0 <= k < self@.len() implies self@[k] != entry by {
                            if self@[k] == entry {
                                assert(k == i as int);
                            }
                        }
                    }
                    false
                }
            },
            None => {
                proof {
                    assert forall|k: int| 0 <= k < self@.len() implies self@[k] != entry by {}
                }
                false
            },
        }
    }
}

} // verus!
