use vstd::prelude::*;
use vstd::string::{StrSliceExecFns, StringExecFns};

verus! {

/// An output announced by the compositor whose description is still coming
/// in, keyed by the protocol's numeric id.
pub struct PendingOutput {
    pub id: u32,
    pub name: Option<String>,
    pub description: Option<String>,
}

/// A fully described output: its stable name and its descriptive identity.
pub struct ConnectedOutput {
    pub name: String,
    pub identity: String,
}

/// A field of an output description.
pub enum OutputField {
    Name,
    Description,
}

/// What an output-description completion signal did.
pub enum FinalizeOutcome {
    /// The output joined the connected set.
    Added,
    /// The output was already complete; nothing changed.
    Duplicate,
    /// Name or description never arrived; the pending entry was dropped.
    MissingField,
    /// No output has this id; nothing changed.
    Unknown,
}

/// Builds connected outputs out of field-by-field protocol notifications.
pub struct OutputAssembler {
    pub pending: Vec<PendingOutput>,
    pub connected: Vec<(u32, ConnectedOutput)>,
}

/// The first pending entry at or after `from` with id `id`.
pub open spec fn pending_index(s: Seq<PendingOutput>, id: u32, from: nat) -> Option<int>
    decreases s.len() - from,
{
    if from >= s.len() {
        None
    } else if s[from as int].id == id {
        Some(from as int)
    } else {
        pending_index(s, id, from + 1)
    }
}

/// The first connected entry at or after `from` with id `id`.
pub open spec fn connected_index(s: Seq<(u32, ConnectedOutput)>, id: u32, from: nat) -> Option<int>
    decreases s.len() - from,
{
    if from >= s.len() {
        None
    } else if s[from as int].0 == id {
        Some(from as int)
    } else {
        connected_index(s, id, from + 1)
    }
}

/// The description with the redundant " (name)" ending removed, when it has
/// one.
pub open spec fn strip_name_suffix(description: Seq<char>, name: Seq<char>) -> Seq<char> {
    let suffix = " ("@ + name + ")"@;
    if suffix.len() <= description.len() && description.subrange(
        description.len() - suffix.len(),
        description.len() as int,
    ) == suffix {
        description.subrange(0, description.len() - suffix.len())
    } else {
        description
    }
}

pub open spec fn with_field(p: PendingOutput, field: OutputField, value: String) -> PendingOutput {
    match field {
        OutputField::Name => PendingOutput { name: Some(value), ..p },
        OutputField::Description => PendingOutput { description: Some(value), ..p },
    }
}

fn strip_suffix(description: &String, name: &String) -> (r: String)
    ensures
        r@ == strip_name_suffix(description@, name@),
{
    let mut suffix = String::from_str(" (");
    suffix.append(name.as_str());
    suffix.append(")");
    let n = description.as_str().unicode_len();
    let m = suffix.as_str().unicode_len();
    if m > n {
        return description.clone();
    }
    let start = n - m;
    let mut k: usize = 0;
    while k < m
        invariant
            suffix@ == " ("@ + name@ + ")"@,
            m == suffix@.len(),
            n == description@.len(),
            start == n - m,
            k <= m,
            forall|j: int| 0 <= j < k ==> description@[start + j] == suffix@[j],
        decreases m - k,
    {
        if description.as_str().get_char(start + k) != suffix.as_str().get_char(k) {
            assert(description@.subrange(start as int, n as int)[k as int] != suffix@[k as int]);
            return description.clone();
        }
        k = k + 1;
    }
    assert(description@.subrange(start as int, n as int) =~= suffix@);
    description.as_str().substring_char(0, start).to_owned()
}

/// What the completion signal for `id` does to the assembler, with the
/// outcome `r` it reports.
pub open spec fn finalize_effect(
    pre: OutputAssembler,
    id: u32,
    r: FinalizeOutcome,
    post: OutputAssembler,
) -> bool {
    match pending_index(pre.pending@, id, 0) {
        Some(i) => {
            let p = pre.pending@[i];
            &&& post.pending@ == pre.pending@.remove(i)
            &&& if p.name is Some && p.description is Some {
                &&& r is Added
                &&& post.connected@.len() == pre.connected@.len() + 1
                &&& post.connected@.drop_last() == pre.connected@
                &&& post.connected@.last().0 == id
                &&& post.connected@.last().1.name@ == p.name->0@
                &&& post.connected@.last().1.identity@ == strip_name_suffix(
                    p.description->0@,
                    p.name->0@,
                )
            } else {
                r is MissingField && post.connected == pre.connected
            }
        },
        None => {
            &&& post.pending == pre.pending
            &&& post.connected == pre.connected
            &&& if connected_index(pre.connected@, id, 0) is Some {
                r is Duplicate
            } else {
                r is Unknown
            }
        },
    }
}

/// What removing `id` does to the assembler, with whether it removed one.
pub open spec fn remove_effect(pre: OutputAssembler, id: u32, r: bool, post: OutputAssembler) -> bool {
    &&& post.pending == pre.pending
    &&& r == connected_index(pre.connected@, id, 0) is Some
    &&& match connected_index(pre.connected@, id, 0) {
        Some(i) => post.connected@ == pre.connected@.remove(i),
        None => post.connected == pre.connected,
    }
}

impl OutputAssembler {
    pub fn new() -> (r: OutputAssembler)
        ensures
            r.pending@.len() == 0,
            r.connected@.len() == 0,
    {
        OutputAssembler { pending: Vec::new(), connected: Vec::new() }
    }

    fn find_pending(&self, id: u32) -> (r: Option<usize>)
        ensures
            r matches Some(i) ==> pending_index(self.pending@, id, 0) == Some(i as int) && i
                < self.pending@.len(),
            r is None ==> pending_index(self.pending@, id, 0) is None,
    {
        let mut i: usize = 0;
        while i < self.pending.len()
            invariant
                i <= self.pending@.len(),
                pending_index(self.pending@, id, 0) == pending_index(self.pending@, id, i as nat),
            decreases self.pending@.len() - i,
        {
            if self.pending[i].id == id {
                return Some(i);
            }
            i = i + 1;
        }
        None
    }

    fn find_connected(&self, id: u32) -> (r: Option<usize>)
        ensures
            r matches Some(i) ==> connected_index(self.connected@, id, 0) == Some(i as int) && i
                < self.connected@.len(),
            r is None ==> connected_index(self.connected@, id, 0) is None,
    {
        let mut i: usize = 0;
        while i < self.connected.len()
            invariant
                i <= self.connected@.len(),
                connected_index(self.connected@, id, 0) == connected_index(
                    self.connected@,
                    id,
                    i as nat,
                ),
            decreases self.connected@.len() - i,
        {
            if self.connected[i].0 == id {
                return Some(i);
            }
            i = i + 1;
        }
        None
    }

    /// Registers a newly announced output. An id that is already known, as
    /// pending or as connected, is left as it is.
    pub fn add_pending(&mut self, id: u32)
        ensures
            final(self).connected == old(self).connected,
            if pending_index(old(self).pending@, id, 0) is None && connected_index(
                old(self).connected@,
                id,
                0,
            ) is None {
                final(self).pending@ == old(self).pending@.push(
                    PendingOutput { id, name: None, description: None },
                )
            } else {
                final(self).pending == old(self).pending
            },
    {
        if self.find_pending(id).is_none() && self.find_connected(id).is_none() {
            self.pending.push(PendingOutput { id, name: None, description: None });
        }
    }

    /// Records one field of a pending output. Returns false, changing
    /// nothing, when no output with that id is pending.
    pub fn record_field(&mut self, id: u32, field: OutputField, value: String) -> (r: bool)
        ensures
            final(self).connected == old(self).connected,
            r == pending_index(old(self).pending@, id, 0) is Some,
            match pending_index(old(self).pending@, id, 0) {
                Some(i) => final(self).pending@ == old(self).pending@.update(
                    i,
                    with_field(old(self).pending@[i], field, value),
                ),
                None => final(self).pending == old(self).pending,
            },
    {
        match self.find_pending(id) {
            Some(i) => {
                let entry = self.pending.remove(i);
                let updated = match field {
                    OutputField::Name => PendingOutput { name: Some(value), ..entry },
                    OutputField::Description => PendingOutput { description: Some(value), ..entry },
                };
                self.pending.insert(i, updated);
                true
            },
            None => false,
        }
    }

    /// Handles the completion signal of an output's description. A pending
    /// output with both fields becomes connected, its description stripped
    /// of a redundant " (name)" ending; one missing a field is dropped. The
    /// signal for an output already connected, or for an unknown id, changes
    /// nothing. The connected set changes only on `Added`.
    pub fn finalize(&mut self, id: u32) -> (r: FinalizeOutcome)
        ensures
            finalize_effect(*old(self), id, r, *final(self)),
    {
        match self.find_pending(id) {
            Some(i) => {
                let entry = self.pending.remove(i);
                match (entry.name, entry.description) {
                    (Some(name), Some(description)) => {
                        let identity = strip_suffix(&description, &name);
                        let ghost before = self.connected@;
                        self.connected.push((id, ConnectedOutput { name, identity }));
                        assert(self.connected@.drop_last() =~= before);
                        FinalizeOutcome::Added
                    },
                    _ => FinalizeOutcome::MissingField,
                }
            },
            None => {
                if self.find_connected(id).is_some() {
                    FinalizeOutcome::Duplicate
                } else {
                    FinalizeOutcome::Unknown
                }
            },
        }
    }

    /// Removes a connected output. Returns whether one was removed; an id
    /// that is unknown or still pending changes nothing.
    pub fn remove(&mut self, id: u32) -> (r: bool)
        ensures
            remove_effect(*old(self), id, r, *final(self)),
    {
        match self.find_connected(id) {
            Some(i) => {
                self.connected.remove(i);
                true
            },
            None => false,
        }
    }
}

} // verus!
