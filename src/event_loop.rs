use vstd::prelude::*;
use vstd::string::StringExecFns;

use crate::config::{lookup_profile, Config, Profile};
use crate::ipc::Command;
use crate::json::{json_of_object, object_to_pretty_json};
use crate::output::{display_of, OutputInfo};
use crate::wayland::{active_id, activated, evaluated, WaylandState};

verus! {

/// What the event loop does with a control request.
pub enum CommandStep {
    /// Send this reply to the client.
    Reply(Result<String, String>),
    /// Read the configuration file again and hand the outcome to
    /// `finish_reload`, whose result is the reply.
    ReloadConfig,
}

/// The active profile as the status report names it.
pub open spec fn status_label(s: WaylandState) -> Seq<char> {
    match active_id(s) {
        Some(id) => id,
        None => "None"@,
    }
}

/// The connected outputs as the status report lists them.
pub open spec fn status_lines(s: WaylandState) -> Seq<Seq<char>> {
    s.outputs@.map_values(|o: OutputInfo| display_of(o))
}

/// The status report of a state.
pub open spec fn status_document(s: WaylandState) -> Seq<char> {
    json_of_object("active_profile"@, status_label(s), "connected_outputs"@, status_lines(s))
}

fn status_report(state: &WaylandState) -> (r: String)
    ensures
        r@ == status_document(*state),
{
    let label = match &state.active_profile_id {
        Some(id) => id.clone(),
        None => String::from_str("None"),
    };
    let mut lines: Vec<String> = Vec::new();
    let mut i: usize = 0;
    while i < state.outputs.len()
        invariant
            i <= state.outputs@.len(),
            lines.deep_view() == status_lines(*state).subrange(0, i as int),
        decreases state.outputs@.len() - i,
    {
        let ghost before = lines.deep_view();
        lines.push(state.outputs[i].to_string());
        assert(lines.deep_view() =~= before.push(display_of(state.outputs@[i as int])));
        assert(status_lines(*state).subrange(0, i + 1) =~= status_lines(*state).subrange(
            0,
            i as int,
        ).push(display_of(state.outputs@[i as int])));
        i = i + 1;
    }
    assert(status_lines(*state).subrange(0, i as int) =~= status_lines(*state));
    match object_to_pretty_json("active_profile", label.as_str(), "connected_outputs", &lines) {
        Ok(text) => text,
        Err(_) => {
            proof {
                assert(false);
            }
            String::new()
        },
    }
}

/// Handles one control request. Status reports the active profile and the
/// connected outputs; Switch activates the named profile even when it is
/// already active, and fails on an unknown name without changing anything;
/// Reload asks the event loop for the configuration file's current contents.
pub fn handle_command(command: Command, state: &mut WaylandState) -> (r: CommandStep)
    ensures
        match command {
            Command::Reload => r is ReloadConfig && *final(state) == *old(state),
            Command::Status => {
                &&& *final(state) == *old(state)
                &&& r matches CommandStep::Reply(Ok(text)) && text@ == status_document(*old(state))
            },
            Command::Switch(name) => match lookup_profile(old(state).config.profiles@, name@) {
                Some(p) => {
                    &&& r matches CommandStep::Reply(Ok(msg)) && msg@
                        == "Profile switched successfully to "@ + name@
                    &&& activated(*old(state), name@, p, true, *final(state))
                    &&& final(state).name_map == old(state).name_map
                },
                None => {
                    &&& r matches CommandStep::Reply(Err(msg)) && msg@ == "Profile '"@ + name@
                        + "' not found."@
                    &&& *final(state) == *old(state)
                },
            },
        },
{
    match command {
        Command::Reload => CommandStep::ReloadConfig,
        Command::Status => CommandStep::Reply(Ok(status_report(state))),
        Command::Switch(name) => match state.apply_profile_by_name(name.as_str()) {
            Ok(_) => {
                let mut msg = String::from_str("Profile switched successfully to ");
                msg.append(name.as_str());
                CommandStep::Reply(Ok(msg))
            },
            Err(e) => CommandStep::Reply(Err(e)),
        },
    }
}

/// Completes a Reload request with the configuration read from disk: the new
/// configuration replaces the old one and the profiles are re-evaluated,
/// activating the match even when it was already active. A failed read
/// changes nothing and is the reply.
pub fn finish_reload(state: &mut WaylandState, loaded: Result<Config, String>) -> (r: Result<
    String,
    String,
>)
    ensures
        match loaded {
            Ok(c) => {
                &&& r matches Ok(msg) && msg@ == "Configuration reloaded successfully."@
                &&& evaluated((WaylandState { config: c, ..*old(state) }), true, *final(state))
            },
            Err(e) => r == Err::<String, String>(e) && *final(state) == *old(state),
        },
{
    match state.config.reload_config(loaded) {
        Ok(()) => {
            state.evaluate_profiles(true);
            Ok(String::from_str("Configuration reloaded successfully."))
        },
        Err(e) => Err(e),
    }
}

/// Right after an activation, a status report names the activated profile
/// and lists exactly the outputs that were connected before it.
pub proof fn lemma_status_after_activation(
    pre: WaylandState,
    id: Seq<char>,
    p: Profile,
    force: bool,
    post: WaylandState,
)
    requires
        activated(pre, id, p, force, post),
    ensures
        status_label(post) == id,
        status_lines(post) == status_lines(pre),
        status_document(post) == json_of_object(
            "active_profile"@,
            id,
            "connected_outputs"@,
            post.outputs@.map_values(|o: OutputInfo| display_of(o)),
        ),
{
}

} // verus!
