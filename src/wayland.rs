use vstd::prelude::*;
use vstd::string::StringExecFns;

use crate::config::{
    commands_of, first_matching_profile, lookup_profile, matched_names, strings_view, Config,
    Profile,
};
use crate::assembler::{
    finalize_effect, remove_effect, ConnectedOutput, FinalizeOutcome, OutputAssembler,
};
use crate::name_map::NameMap;
use crate::output::OutputInfo;

verus! {

/// The daemon's long-lived state. It is changed only from the event loop.
///
/// `pending_commands` is the outbox of the external executor: each activation
/// appends the command lines it hands over, as one batch, and the event loop
/// takes the batches out and runs them.
pub struct WaylandState {
    pub config: Config,
    pub outputs: Vec<OutputInfo>,
    pub active_profile_id: Option<String>,
    pub name_map: NameMap,
    pub pending_update: bool,
    pub pending_commands: Vec<Vec<String>>,
}

/// A notification of the compositor's global registry, decoded.
pub enum RegistryEvent {
    /// A global object was announced, with the interface it implements.
    Global { interface: String },
    /// A global object went away.
    GlobalRemove,
}

pub open spec fn active_id(s: WaylandState) -> Option<Seq<char>> {
    match s.active_profile_id {
        Some(id) => Some(id@),
        None => None,
    }
}

/// The command batches waiting for the executor, oldest first.
pub open spec fn batches(s: WaylandState) -> Seq<Seq<Seq<char>>> {
    s.pending_commands@.map_values(|b: Vec<String>| strings_view(b@))
}

/// The effect of activating profile `p` under `id`. Unless forced, activating
/// the profile that is already active does nothing; otherwise the profile's
/// commands, resolved through the state's name map, go to the executor as one
/// batch and `id` becomes the active profile.
pub open spec fn activated(
    pre: WaylandState,
    id: Seq<char>,
    p: Profile,
    force: bool,
    post: WaylandState,
) -> bool {
    &&& post.config == pre.config
    &&& post.outputs == pre.outputs
    &&& post.pending_update == pre.pending_update
    &&& if !force && active_id(pre) == Some(id) {
        &&& post.active_profile_id == pre.active_profile_id
        &&& post.pending_commands == pre.pending_commands
    } else {
        &&& active_id(post) == Some(id)
        &&& batches(post) == batches(pre).push(commands_of(p, post.name_map@))
    }
}

/// The effect of re-evaluating the profiles against the current outputs: the
/// matching profile, if any, is activated with the names its settings
/// resolved to; when none matches, the active profile is cleared.
pub open spec fn evaluated(pre: WaylandState, force: bool, post: WaylandState) -> bool {
    match first_matching_profile(pre.config.profiles@, pre.outputs@, 0) {
        Some(i) => {
            &&& post.name_map@ == matched_names(pre.config.profiles@[i].1, pre.outputs@)
            &&& activated(pre, pre.config.profiles@[i].0, pre.config.profiles@[i].1, force, post)
        },
        None => {
            &&& post.active_profile_id is None
            &&& post.config == pre.config
            &&& post.outputs == pre.outputs
            &&& post.name_map == pre.name_map
            &&& post.pending_update == pre.pending_update
            &&& post.pending_commands == pre.pending_commands
        },
    }
}

/// Whether a registry notification calls for the outputs to be enumerated
/// again: an output was announced, or some global went away.
pub open spec fn needs_refresh(event: RegistryEvent) -> bool {
    match event {
        RegistryEvent::Global { interface } => interface@ == "wl_output"@,
        RegistryEvent::GlobalRemove => true,
    }
}

/// A connected output as the matcher sees it. The protocol describes an
/// output by its name and one description string, with no separate make,
/// model or serial, so the description stands in the field that patterns
/// match as a whole: a pattern selects the output by its name or by its
/// description.
pub open spec fn assembled_output(c: ConnectedOutput) -> OutputInfo {
    OutputInfo { name: c.name, make: None, model: None, serial: Some(c.identity) }
}

/// The matcher's output list for the assembler's connected outputs, in the
/// order they were completed.
pub open spec fn assembled_outputs(a: OutputAssembler) -> Seq<OutputInfo> {
    a.connected@.map_values(|e: (u32, ConnectedOutput)| assembled_output(e.1))
}

fn collect_assembled(a: &OutputAssembler) -> (r: Vec<OutputInfo>)
    ensures
        r@ == assembled_outputs(*a),
{
    let mut outputs: Vec<OutputInfo> = Vec::new();
    let mut i: usize = 0;
    while i < a.connected.len()
        invariant
            i <= a.connected@.len(),
            outputs@ == assembled_outputs(*a).subrange(0, i as int),
        decreases a.connected@.len() - i,
    {
        let c = &a.connected[i].1;
        let ghost before = outputs@;
        outputs.push(
            OutputInfo {
                name: c.name.clone(),
                make: None,
                model: None,
                serial: Some(c.identity.clone()),
            },
        );
        assert(outputs@ =~= assembled_outputs(*a).subrange(0, i + 1));
        i = i + 1;
    }
    assert(outputs@ =~= assembled_outputs(*a));
    outputs
}

impl WaylandState {
    pub fn new(config: Config) -> (r: WaylandState)
        ensures
            r.config == config,
            r.outputs@.len() == 0,
            r.active_profile_id is None,
            r.name_map@ == Map::<Seq<char>, Seq<char>>::empty(),
            !r.pending_update,
            r.pending_commands@.len() == 0,
    {
        WaylandState {
            config,
            outputs: Vec::new(),
            active_profile_id: None,
            name_map: NameMap::new(),
            pending_update: false,
            pending_commands: Vec::new(),
        }
    }

    fn is_active(&self, id: &str) -> (r: bool)
        ensures
            r == (active_id(*self) == Some(id@)),
    {
        match &self.active_profile_id {
            Some(active) => *active == id.to_owned(),
            None => false,
        }
    }

    fn commit_activation(&mut self, id: String, commands: Vec<String>)
        ensures
            final(self).config == old(self).config,
            final(self).outputs == old(self).outputs,
            final(self).pending_update == old(self).pending_update,
            final(self).name_map == old(self).name_map,
            active_id(*final(self)) == Some(id@),
            batches(*final(self)) == batches(*old(self)).push(strings_view(commands@)),
    {
        let ghost before = self.pending_commands@;
        self.pending_commands.push(commands);
        assert(batches(*self) =~= before.map_values(|b: Vec<String>| strings_view(b@)).push(
            strings_view(commands@),
        ));
        self.active_profile_id = Some(id);
    }

    /// Activates `profile` under `profile_id`; see `activated`.
    pub fn activate(&mut self, profile_id: &str, profile: &Profile, force: bool)
        ensures
            activated(*old(self), profile_id@, *profile, force, *final(self)),
            final(self).name_map == old(self).name_map,
    {
        if !force && self.is_active(profile_id) {
            return ;
        }
        let commands = profile.generate_commands(&self.name_map);
        self.commit_activation(profile_id.to_owned(), commands);
    }

    /// Activates the profile at position `i` of the configuration.
    fn activate_entry(&mut self, i: usize, force: bool)
        requires
            i < old(self).config.profiles@.len(),
        ensures
            activated(
                *old(self),
                old(self).config.profiles@[i as int].0,
                old(self).config.profiles@[i as int].1,
                force,
                *final(self),
            ),
            final(self).name_map == old(self).name_map,
    {
        let (id, commands) = {
            let (id, profile) = self.config.profiles.entry(i);
            if !force && self.is_active(id) {
                return ;
            }
            (id.to_owned(), profile.generate_commands(&self.name_map))
        };
        self.commit_activation(id, commands);
    }

    /// Matches the current outputs against the profiles and activates the
    /// match, or clears the active profile when nothing matches; `reload`
    /// forces the activation even when the match is already active.
    pub fn evaluate_profiles(&mut self, reload: bool)
        ensures
            evaluated(*old(self), reload, *final(self)),
    {
        match self.config.matching_index(self.outputs.as_slice()) {
            Some((i, names)) => {
                self.name_map = names;
                self.activate_entry(i, reload);
            },
            None => {
                self.active_profile_id = None;
            },
        }
    }

    /// Takes in a fresh enumeration of the connected outputs and re-evaluates
    /// the profiles. A failed enumeration leaves the state as it was.
    pub fn refresh_outputs(&mut self, fetched: Result<Vec<OutputInfo>, String>)
        ensures
            match fetched {
                Ok(outputs) => evaluated(
                    (WaylandState { outputs: outputs, ..*old(self) }),
                    false,
                    *final(self),
                ),
                Err(_) => *final(self) == *old(self),
            },
    {
        match fetched {
            Ok(outputs) => {
                self.outputs = outputs;
                self.evaluate_profiles(false);
            },
            Err(_) => {},
        }
    }

    /// Handles the completion signal of output `id`'s description. When the
    /// output joins the connected set, the new set becomes the state's
    /// outputs and the profiles are re-evaluated; otherwise the state does
    /// not change.
    pub fn complete_output(&mut self, assembler: &mut OutputAssembler, id: u32) -> (r:
        FinalizeOutcome)
        ensures
            finalize_effect(*old(assembler), id, r, *final(assembler)),
            if r is Added {
                &&& final(self).outputs@ == assembled_outputs(*final(assembler))
                &&& evaluated(
                    (WaylandState { outputs: final(self).outputs, ..*old(self) }),
                    false,
                    *final(self),
                )
            } else {
                *final(self) == *old(self)
            },
    {
        let r = assembler.finalize(id);
        match r {
            FinalizeOutcome::Added => {
                self.outputs = collect_assembled(assembler);
                self.evaluate_profiles(false);
            },
            _ => {},
        }
        r
    }

    /// Removes connected output `id`. When one was removed, the remaining
    /// set becomes the state's outputs and the profiles are re-evaluated; an
    /// unknown or still pending id changes nothing.
    pub fn remove_output(&mut self, assembler: &mut OutputAssembler, id: u32) -> (r: bool)
        ensures
            remove_effect(*old(assembler), id, r, *final(assembler)),
            if r {
                &&& final(self).outputs@ == assembled_outputs(*final(assembler))
                &&& evaluated(
                    (WaylandState { outputs: final(self).outputs, ..*old(self) }),
                    false,
                    *final(self),
                )
            } else {
                *final(self) == *old(self)
            },
    {
        let r = assembler.remove(id);
        if r {
            self.outputs = collect_assembled(assembler);
            self.evaluate_profiles(false);
        }
        r
    }

    /// Activates the profile named `profile_id`, even when it is already
    /// active. An unknown name is an error and changes nothing.
    pub fn apply_profile_by_name(&mut self, profile_id: &str) -> (r: Result<String, String>)
        ensures
            match lookup_profile(old(self).config.profiles@, profile_id@) {
                Some(p) => {
                    &&& r matches Ok(msg) && msg@ == "Profile '"@ + profile_id@
                        + "' applied successfully."@
                    &&& activated(*old(self), profile_id@, p, true, *final(self))
                    &&& final(self).name_map == old(self).name_map
                },
                None => {
                    &&& r matches Err(msg) && msg@ == "Profile '"@ + profile_id@ + "' not found."@
                    &&& *final(self) == *old(self)
                },
            },
    {
        match self.config.profiles.index_of(profile_id) {
            Some(i) => {
                self.activate_entry(i, true);
                let mut msg = String::from_str("Profile '");
                msg.append(profile_id);
                msg.append("' applied successfully.");
                Ok(msg)
            },
            None => {
                let mut msg = String::from_str("Profile '");
                msg.append(profile_id);
                msg.append("' not found.");
                Err(msg)
            },
        }
    }

    /// Notes a registry notification: an output announced, or any global
    /// removed, schedules a refresh of the outputs.
    pub fn handle_registry_event(&mut self, event: RegistryEvent)
        ensures
            final(self).pending_update == (old(self).pending_update || needs_refresh(event)),
            final(self).config == old(self).config,
            final(self).outputs == old(self).outputs,
            final(self).active_profile_id == old(self).active_profile_id,
            final(self).name_map == old(self).name_map,
            final(self).pending_commands == old(self).pending_commands,
    {
        match event {
            RegistryEvent::Global { interface } => {
                if interface == String::from_str("wl_output") {
                    self.pending_update = true;
                }
            },
            RegistryEvent::GlobalRemove => {
                self.pending_update = true;
            },
        }
    }

    /// Whether a refresh was scheduled; clears the request.
    pub fn take_pending_update(&mut self) -> (r: bool)
        ensures
            r == old(self).pending_update,
            *final(self) == (WaylandState { pending_update: false, ..*old(self) }),
    {
        let r = self.pending_update;
        self.pending_update = false;
        r
    }

    /// Hands the waiting command batches to the executor, oldest first.
    pub fn take_pending_commands(&mut self) -> (r: Vec<Vec<String>>)
        ensures
            r == old(self).pending_commands,
            final(self).pending_commands@.len() == 0,
            *final(self) == (WaylandState {
                pending_commands: final(self).pending_commands,
                ..*old(self)
            }),
    {
        let mut taken: Vec<Vec<String>> = Vec::new();
        std::mem::swap(&mut taken, &mut self.pending_commands);
        taken
    }
}

/// The commands of a batch worth handing to a shell: the non-empty ones, in
/// order.
pub open spec fn runnable(commands: Seq<Seq<char>>) -> Seq<Seq<char>>
    decreases commands.len(),
{
    if commands.len() == 0 {
        commands
    } else if commands.last().len() > 0 {
        runnable(commands.drop_last()).push(commands.last())
    } else {
        runnable(commands.drop_last())
    }
}

/// The commands of `batch` to run, skipping empty ones.
pub fn runnable_commands(batch: &Vec<String>) -> (r: Vec<String>)
    ensures
        strings_view(r@) == runnable(strings_view(batch@)),
{
    let mut kept: Vec<String> = Vec::new();
    let mut i: usize = 0;
    while i < batch.len()
        invariant
            i <= batch@.len(),
            strings_view(kept@) == runnable(strings_view(batch@.subrange(0, i as int))),
        decreases batch@.len() - i,
    {
        let ghost before = kept@;
        let ghost prefix = strings_view(batch@.subrange(0, i + 1));
        assert(prefix.drop_last() =~= strings_view(batch@.subrange(0, i as int)));
        assert(prefix.last() == batch@[i as int]@);
        if !batch[i].as_str().is_empty() {
            kept.push(batch[i].clone());
            assert(strings_view(kept@) =~= strings_view(before).push(batch@[i as int]@));
        }
        i = i + 1;
    }
    assert(batch@.subrange(0, i as int) =~= batch@);
    kept
}

/// Activating the same profile twice in succession, without forcing, hands
/// its commands to the executor exactly once when it was not active before:
/// the second activation changes nothing.
pub proof fn lemma_activate_twice_runs_once(
    s0: WaylandState,
    s1: WaylandState,
    s2: WaylandState,
    id: Seq<char>,
    p: Profile,
)
    requires
        active_id(s0) != Some(id),
        activated(s0, id, p, false, s1),
        activated(s1, id, p, false, s2),
    ensures
        batches(s2).len() == batches(s0).len() + 1,
        batches(s2) == batches(s0).push(commands_of(p, s1.name_map@)),
        s2.pending_commands == s1.pending_commands,
        active_id(s2) == Some(id),
{
}

} // verus!
