use vstd::prelude::*;
use vstd::string::StringExecFns;

use crate::name_map::{map_of_pairs, NameMap};
use crate::output::{output_matches, OutputInfo};
use crate::pattern::{glob_valid, GlobPattern};

verus! {

/// One output slot of a profile. `output` is a glob pattern; the other fields
/// are display parameters handed unchanged to the display-configuration tool.
#[derive(Debug, Clone)]
pub struct OutputSetting {
    pub output: String,
    pub on: bool,
    pub mode: Option<String>,
    pub preferred: bool,
    pub pos: Option<String>,
    pub left_of: Option<String>,
    pub right_of: Option<String>,
    pub above: Option<String>,
    pub below: Option<String>,
    pub transform: Option<String>,
    /// The scale factor, as the decimal text the tool is given ("1", "1.5").
    pub scale: Option<String>,
    pub adaptive_sync: bool,
}

/// A named target configuration: one setting per output it expects, and the
/// shell commands to run once it is applied.
#[derive(Debug, Clone)]
pub struct Profile {
    pub exec_commands: Vec<String>,
    pub settings: Vec<OutputSetting>,
}

pub open spec fn strings_view(v: Seq<String>) -> Seq<Seq<char>> {
    v.map_values(|s: String| s@)
}

/// The concrete name a setting's pattern resolved to, or the pattern itself
/// when it was not resolved.
pub open spec fn resolved_name(names: Map<Seq<char>, Seq<char>>, pattern: Seq<char>) -> Seq<char> {
    if names.contains_key(pattern) {
        names[pattern]
    } else {
        pattern
    }
}

/// The inside of a single-quoted shell word that reads back as `v`: every
/// `'` is written as `'\''` (close the quote, an escaped quote, reopen).
pub open spec fn quote_body(v: Seq<char>) -> Seq<char>
    decreases v.len(),
{
    if v.len() == 0 {
        Seq::empty()
    } else if v.last() == '\'' {
        quote_body(v.drop_last()) + "'\\''"@
    } else {
        quote_body(v.drop_last()).push(v.last())
    }
}

/// `v` as one single-quoted shell word.
pub open spec fn shell_quote(v: Seq<char>) -> Seq<char> {
    "'"@ + quote_body(v) + "'"@
}

/// `line` followed by `flag` and the shell-quoted value, when the value is
/// present.
pub open spec fn with_quoted(line: Seq<char>, flag: Seq<char>, value: Option<String>) -> Seq<char> {
    match value {
        Some(v) => line + flag + shell_quote(v@),
        None => line,
    }
}

/// `line` followed by the tool's arguments for one setting.
pub open spec fn with_setting_args(
    line: Seq<char>,
    s: OutputSetting,
    names: Map<Seq<char>, Seq<char>>,
) -> Seq<char> {
    let l = line + " --output "@ + shell_quote(resolved_name(names, s.output@));
    let l = if s.on {
        l + " --on"@
    } else {
        l + " --off"@
    };
    let l = with_quoted(l, " --mode "@, s.mode);
    let l = if s.preferred {
        l + " --preferred"@
    } else {
        l
    };
    let l = with_quoted(l, " --pos "@, s.pos);
    let l = with_quoted(l, " --left-of "@, s.left_of);
    let l = with_quoted(l, " --right-of "@, s.right_of);
    let l = with_quoted(l, " --above "@, s.above);
    let l = with_quoted(l, " --below "@, s.below);
    let l = with_quoted(l, " --transform "@, s.transform);
    let l = with_quoted(l, " --scale "@, s.scale);
    if s.adaptive_sync {
        l + " --adaptive-sync enabled"@
    } else {
        l + " --adaptive-sync disabled"@
    }
}

/// The display-configuration command line for a list of settings.
pub open spec fn randr_line(settings: Seq<OutputSetting>, names: Map<Seq<char>, Seq<char>>) -> Seq<
    char,
>
    decreases settings.len(),
{
    if settings.len() == 0 {
        "wlr-randr"@
    } else {
        with_setting_args(randr_line(settings.drop_last(), names), settings.last(), names)
    }
}

/// The commands that activating `p` runs: the display-configuration line
/// (only when the profile has settings) followed by the profile's own
/// commands.
pub open spec fn commands_of(p: Profile, names: Map<Seq<char>, Seq<char>>) -> Seq<Seq<char>> {
    if p.settings@.len() == 0 {
        strings_view(p.exec_commands@)
    } else {
        seq![randr_line(p.settings@, names)] + strings_view(p.exec_commands@)
    }
}

fn push_shell_quoted(line: &mut String, v: &str)
    ensures
        final(line)@ == old(line)@ + shell_quote(v@),
{
    let ghost start = line@;
    line.append("'");
    let n = v.unicode_len();
    let mut i: usize = 0;
    while i < n
        invariant
            n == v@.len(),
            i <= n,
            line@ == start + "'"@ + quote_body(v@.subrange(0, i as int)),
        decreases n - i,
    {
        let ghost before = line@;
        assert(v@.subrange(0, i + 1).drop_last() =~= v@.subrange(0, i as int));
        assert(v@.subrange(0, i + 1).last() == v@[i as int]);
        if v.get_char(i) == '\'' {
            line.append("'\\''");
            assert(line@ =~= start + "'"@ + quote_body(v@.subrange(0, i + 1)));
        } else {
            let c = v.substring_char(i, i + 1);
            line.append(c);
            assert(c@ =~= seq![v@[i as int]]);
            assert(line@ =~= start + "'"@ + quote_body(v@.subrange(0, i + 1)));
        }
        i = i + 1;
    }
    line.append("'");
    assert(v@.subrange(0, n as int) =~= v@);
    assert(line@ =~= start + shell_quote(v@));
}

fn push_quoted(line: &mut String, flag: &str, value: &Option<String>)
    ensures
        final(line)@ == with_quoted(old(line)@, flag@, *value),
{
    match value {
        Some(v) => {
            line.append(flag);
            push_shell_quoted(line, v.as_str());
        },
        None => {},
    }
}

fn push_setting_args(line: &mut String, s: &OutputSetting, names: &NameMap)
    ensures
        final(line)@ == with_setting_args(old(line)@, *s, names@),
{
    line.append(" --output ");
    match names.get(s.output.as_str()) {
        Some(name) => push_shell_quoted(line, name.as_str()),
        None => push_shell_quoted(line, s.output.as_str()),
    }
    if s.on {
        line.append(" --on");
    } else {
        line.append(" --off");
    }
    push_quoted(line, " --mode ", &s.mode);
    if s.preferred {
        line.append(" --preferred");
    }
    push_quoted(line, " --pos ", &s.pos);
    push_quoted(line, " --left-of ", &s.left_of);
    push_quoted(line, " --right-of ", &s.right_of);
    push_quoted(line, " --above ", &s.above);
    push_quoted(line, " --below ", &s.below);
    push_quoted(line, " --transform ", &s.transform);
    push_quoted(line, " --scale ", &s.scale);
    if s.adaptive_sync {
        line.append(" --adaptive-sync enabled");
    } else {
        line.append(" --adaptive-sync disabled");
    }
}

impl Profile {
    /// The commands that activate this profile, with each setting's output
    /// pattern replaced by the concrete name `output_name_map` gives it.
    pub fn generate_commands(&self, output_name_map: &NameMap) -> (r: Vec<String>)
        ensures
            strings_view(r@) == commands_of(*self, output_name_map@),
    {
        let mut commands: Vec<String> = Vec::new();
        if self.settings.len() > 0 {
            let mut line = String::from_str("wlr-randr");
            let mut i: usize = 0;
            while i < self.settings.len()
                invariant
                    i <= self.settings@.len(),
                    line@ == randr_line(self.settings@.subrange(0, i as int), output_name_map@),
                decreases self.settings@.len() - i,
            {
                push_setting_args(&mut line, &self.settings[i], output_name_map);
                assert(self.settings@.subrange(0, i + 1).drop_last() =~= self.settings@.subrange(
                    0,
                    i as int,
                ));
                i = i + 1;
            }
            assert(self.settings@.subrange(0, i as int) =~= self.settings@);
            commands.push(line);
        }
        let ghost head = strings_view(commands@);
        let mut k: usize = 0;
        while k < self.exec_commands.len()
            invariant
                k <= self.exec_commands@.len(),
                strings_view(commands@) == head + strings_view(self.exec_commands@.subrange(0, k as int)),
            decreases self.exec_commands@.len() - k,
        {
            let ghost before = commands@;
            commands.push(self.exec_commands[k].clone());
            assert(strings_view(commands@) =~= strings_view(before).push(
                self.exec_commands@[k as int]@,
            ));
            assert(strings_view(self.exec_commands@.subrange(0, k + 1)) =~= strings_view(
                self.exec_commands@.subrange(0, k as int),
            ).push(self.exec_commands@[k as int]@));
            assert(strings_view(commands@) =~= head + strings_view(
                self.exec_commands@.subrange(0, k + 1),
            ));
            k = k + 1;
        }
        assert(self.exec_commands@.subrange(0, k as int) =~= self.exec_commands@);
        assert(strings_view(commands@) =~= commands_of(*self, output_name_map@));
        commands
    }
}

/// The first output at or after index `from` that is not in `taken` and that
/// `pattern` selects.
pub open spec fn first_free_match(
    pattern: Seq<char>,
    outputs: Seq<OutputInfo>,
    taken: Seq<int>,
    from: nat,
) -> Option<int>
    decreases outputs.len() - from,
{
    if from >= outputs.len() {
        None
    } else if !taken.contains(from as int) && output_matches(outputs[from as int], pattern) {
        Some(from as int)
    } else {
        first_free_match(pattern, outputs, taken, from + 1)
    }
}

/// Greedy assignment of patterns to outputs: each pattern, in order, takes
/// the first output that no earlier pattern took and that it selects. No
/// other assignment is tried when a pattern finds no output.
pub open spec fn greedy_slots(patterns: Seq<Seq<char>>, outputs: Seq<OutputInfo>) -> Option<
    Seq<int>,
>
    decreases patterns.len(),
{
    if patterns.len() == 0 {
        Some(Seq::empty())
    } else {
        match greedy_slots(patterns.drop_last(), outputs) {
            None => None,
            Some(taken) => match first_free_match(patterns.last(), outputs, taken, 0) {
                None => None,
                Some(j) => Some(taken.push(j)),
            },
        }
    }
}

pub open spec fn setting_patterns(p: Profile) -> Seq<Seq<char>> {
    p.settings@.map_values(|s: OutputSetting| s.output@)
}

/// The outputs a profile's settings take, in setting order, when the profile
/// matches: it has exactly one setting per output, every pattern is valid,
/// and the greedy assignment succeeds.
pub open spec fn profile_slots(p: Profile, outputs: Seq<OutputInfo>) -> Option<Seq<int>> {
    let patterns = setting_patterns(p);
    if patterns.len() != outputs.len() {
        None
    } else if exists|k: int| 0 <= k < patterns.len() && !glob_valid(#[trigger] patterns[k]) {
        None
    } else {
        greedy_slots(patterns, outputs)
    }
}

/// The pattern to concrete-name map of a match.
pub open spec fn slot_names(
    patterns: Seq<Seq<char>>,
    outputs: Seq<OutputInfo>,
    slots: Seq<int>,
) -> Map<Seq<char>, Seq<char>> {
    map_of_pairs(Seq::new(patterns.len(), |k: int| (patterns[k], outputs[slots[k]].name@)))
}

pub open spec fn matched_names(p: Profile, outputs: Seq<OutputInfo>) -> Map<Seq<char>, Seq<char>> {
    slot_names(setting_patterns(p), outputs, profile_slots(p, outputs)->0)
}

/// The index of the first profile, at or after `from`, that matches `outputs`.
pub open spec fn first_matching_profile(
    entries: Seq<(Seq<char>, Profile)>,
    outputs: Seq<OutputInfo>,
    from: nat,
) -> Option<int>
    decreases entries.len() - from,
{
    if from >= entries.len() {
        None
    } else if profile_slots(entries[from as int].1, outputs) is Some {
        Some(from as int)
    } else {
        first_matching_profile(entries, outputs, from + 1)
    }
}

proof fn lemma_greedy_fails_onward(
    patterns: Seq<Seq<char>>,
    outputs: Seq<OutputInfo>,
    k: int,
    m: int,
)
    requires
        0 <= k <= m <= patterns.len(),
        greedy_slots(patterns.subrange(0, k), outputs) is None,
    ensures
        greedy_slots(patterns.subrange(0, m), outputs) is None,
    decreases m - k,
{
    if m > k {
        lemma_greedy_fails_onward(patterns, outputs, k, m - 1);
        assert(patterns.subrange(0, m).drop_last() =~= patterns.subrange(0, m - 1));
    }
}

/// Tries one profile against the outputs: the greedy assignment of its
/// settings, and the names the assignment gives each pattern.
fn match_profile(profile: &Profile, outputs: &[OutputInfo]) -> (r: Option<NameMap>)
    ensures
        r is Some <==> profile_slots(*profile, outputs@) is Some,
        r matches Some(m) ==> m@ == matched_names(*profile, outputs@),
{
    let n = outputs.len();
    if profile.settings.len() != n {
        return None;
    }
    let ghost patterns = setting_patterns(*profile);
    let mut used: Vec<bool> = vec![false; n];
    let mut names = NameMap::new();
    let ghost mut taken: Seq<int> = Seq::empty();
    assert(patterns.subrange(0, 0) =~= Seq::<Seq<char>>::empty());
    assert(Seq::new(0, |t: int| (patterns[t], outputs@[taken[t]].name@)) =~= Seq::<
        (Seq<char>, Seq<char>),
    >::empty());
    let mut k: usize = 0;
    while k < n
        invariant
            n == outputs@.len(),
            n == profile.settings@.len(),
            patterns == setting_patterns(*profile),
            k <= n,
            used@.len() == n,
            taken.len() == k,
            forall|t: int| 0 <= t < k ==> 0 <= #[trigger] taken[t] < n,
            forall|j: int| 0 <= j < n ==> (used@[j] <==> taken.contains(j)),
            forall|t: int| 0 <= t < k ==> glob_valid(#[trigger] patterns[t]),
            greedy_slots(patterns.subrange(0, k as int), outputs@) == Some(taken),
            names@ == map_of_pairs(
                Seq::new(k as nat, |t: int| (patterns[t], outputs@[taken[t]].name@)),
            ),
        decreases n - k,
    {
        let setting = &profile.settings[k];
        assert(patterns[k as int] == setting.output@);
        let pattern = match GlobPattern::new(setting.output.as_str()) {
            Ok(p) => p,
            Err(_) => {
                assert(!glob_valid(patterns[k as int]));
                return None;
            },
        };
        let ghost pat = patterns[k as int];
        let mut j: usize = 0;
        let mut found: Option<usize> = None;
        while j < n
            invariant_except_break
                found is None,
            invariant
                n == outputs@.len(),
                used@.len() == n,
                j <= n,
                pat == pattern@,
                forall|i: int| 0 <= i < n ==> (used@[i] <==> taken.contains(i)),
                first_free_match(pat, outputs@, taken, 0) == first_free_match(
                    pat,
                    outputs@,
                    taken,
                    j as nat,
                ),
            ensures
                found matches Some(f) ==> first_free_match(pat, outputs@, taken, 0) == Some(
                    f as int,
                ) && f < n,
                found is None ==> first_free_match(pat, outputs@, taken, 0) is None,
            decreases n - j,
        {
            if !used[j] && outputs[j].matches_pattern(&pattern) {
                found = Some(j);
                break;
            }
            j = j + 1;
        }
        assert(patterns.subrange(0, k + 1).drop_last() =~= patterns.subrange(0, k as int));
        assert(patterns.subrange(0, k + 1).last() == pat);
        match found {
            None => {
                proof {
                    lemma_greedy_fails_onward(patterns, outputs@, k + 1, n as int);
                    assert(patterns.subrange(0, n as int) =~= patterns);
                }
                return None;
            },
            Some(f) => {
                let ghost before = Seq::new(
                    k as nat,
                    |t: int| (patterns[t], outputs@[taken[t]].name@),
                );
                used.set(f, true);
                names.insert(setting.output.clone(), outputs[f].name.clone());
                proof {
                    let old_taken = taken;
                    taken = taken.push(f as int);
                    assert forall|x: int| 0 <= x < n implies (used@[x] <==> taken.contains(x)) by {
                        if x == f {
                            assert(taken[old_taken.len() as int] == x);
                        } else {
                            if old_taken.contains(x) {
                                let w = choose|w: int| 0 <= w < old_taken.len() && old_taken[w] == x;
                                assert(taken[w] == x);
                            }
                            if taken.contains(x) {
                                let w = choose|w: int| 0 <= w < taken.len() && taken[w] == x;
                                assert(old_taken[w] == x);
                            }
                        }
                    }
                    let after = Seq::new(
                        (k + 1) as nat,
                        |t: int| (patterns[t], outputs@[taken[t]].name@),
                    );
                    assert(after.drop_last() =~= before);
                }
            },
        }
        k = k + 1;
    }
    assert(patterns.subrange(0, n as int) =~= patterns);
    Some(names)
}

/// The configured profiles, in the order they are tried; ids are unique.
/// Held as a vector of pairs: for std's hash maps keyed by `String`, Verus
/// proves nothing of lookups or lengths, and the order of trial must be fixed.
pub struct ProfileTable {
    entries: Vec<(String, Profile)>,
}

pub open spec fn entry_view(e: (String, Profile)) -> (Seq<char>, Profile) {
    (e.0@, e.1)
}

/// The position of the first entry, at or after `from`, stored under `id`.
pub open spec fn id_index(entries: Seq<(Seq<char>, Profile)>, id: Seq<char>, from: nat) -> Option<
    int,
>
    decreases entries.len() - from,
{
    if from >= entries.len() {
        None
    } else if entries[from as int].0 == id {
        Some(from as int)
    } else {
        id_index(entries, id, from + 1)
    }
}

/// The profile stored under `id`.
pub open spec fn lookup_profile(entries: Seq<(Seq<char>, Profile)>, id: Seq<char>) -> Option<
    Profile,
> {
    match id_index(entries, id, 0) {
        Some(i) => Some(entries[i].1),
        None => None,
    }
}

/// What inserting `p` under `id` does: the entry with that id gets the new
/// profile in place, or the pair goes to the end.
pub open spec fn table_insert(entries: Seq<(Seq<char>, Profile)>, id: Seq<char>, p: Profile) -> Seq<
    (Seq<char>, Profile),
> {
    match id_index(entries, id, 0) {
        Some(i) => entries.update(i, (id, p)),
        None => entries.push((id, p)),
    }
}

pub open spec fn ids_unique(entries: Seq<(Seq<char>, Profile)>) -> bool {
    forall|i: int, j: int|
        0 <= i < j < entries.len() ==> (#[trigger] entries[i]).0 != (#[trigger] entries[j]).0
}

proof fn lemma_id_index(entries: Seq<(Seq<char>, Profile)>, id: Seq<char>, from: nat)
    ensures
        match id_index(entries, id, from) {
            Some(i) => from <= i < entries.len() && entries[i].0 == id,
            None => forall|j: int| from <= j < entries.len() ==> (#[trigger] entries[j]).0 != id,
        },
    decreases entries.len() - from,
{
    if from < entries.len() && entries[from as int].0 != id {
        lemma_id_index(entries, id, from + 1);
    }
}

impl View for ProfileTable {
    type V = Seq<(Seq<char>, Profile)>;

    closed spec fn view(&self) -> Seq<(Seq<char>, Profile)> {
        self.entries@.map_values(|e: (String, Profile)| entry_view(e))
    }
}

impl ProfileTable {
    #[verifier::type_invariant]
    closed spec fn inv(&self) -> bool {
        ids_unique(self@)
    }

    pub fn new() -> (r: ProfileTable)
        ensures
            r@ == Seq::<(Seq<char>, Profile)>::empty(),
            ids_unique(r@),
    {
        let r = ProfileTable { entries: Vec::new() };
        assert(r@ =~= Seq::<(Seq<char>, Profile)>::empty());
        r
    }

    pub fn len(&self) -> (r: usize)
        ensures
            r == self@.len(),
            ids_unique(self@),
    {
        proof {
            use_type_invariant(self);
        }
        self.entries.len()
    }

    /// The id and profile at position `i` of the order profiles are tried in.
    pub fn entry(&self, i: usize) -> (r: (&str, &Profile))
        requires
            i < self@.len(),
        ensures
            r.0@ == self@[i as int].0,
            *r.1 == self@[i as int].1,
            ids_unique(self@),
    {
        proof {
            use_type_invariant(self);
        }
        let e = &self.entries[i];
        (e.0.as_str(), &e.1)
    }

    /// The position of the profile stored under `id`.
    pub fn index_of(&self, id: &str) -> (r: Option<usize>)
        ensures
            match r {
                Some(i) => {
                    &&& id_index(self@, id@, 0) == Some(i as int)
                    &&& i < self@.len()
                    &&& self@[i as int].0 == id@
                },
                None => id_index(self@, id@, 0) is None,
            },
            ids_unique(self@),
    {
        proof {
            use_type_invariant(self);
        }
        let wanted = id.to_owned();
        let mut i: usize = 0;
        while i < self.entries.len()
            invariant
                i <= self@.len(),
                self@.len() == self.entries@.len(),
                wanted@ == id@,
                ids_unique(self@),
                id_index(self@, id@, 0) == id_index(self@, id@, i as nat),
            decreases self.entries@.len() - i,
        {
            if self.entries[i].0 == wanted {
                return Some(i);
            }
            i = i + 1;
        }
        None
    }

    pub fn get(&self, id: &str) -> (r: Option<&Profile>)
        ensures
            match r {
                Some(p) => lookup_profile(self@, id@) == Some(*p),
                None => lookup_profile(self@, id@) is None,
            },
    {
        match self.index_of(id) {
            Some(i) => Some(&self.entries[i].1),
            None => None,
        }
    }

    pub fn contains_key(&self, id: &str) -> (r: bool)
        ensures
            r == lookup_profile(self@, id@) is Some,
    {
        self.get(id).is_some()
    }

    /// Stores `profile` under `id`, replacing the profile that had that id.
    pub fn insert(&mut self, id: String, profile: Profile)
        ensures
            final(self)@ == table_insert(old(self)@, id@, profile),
            ids_unique(final(self)@),
    {
        proof {
            use_type_invariant(&*self);
        }
        let ghost old_view = self@;
        let found = self.index_of(id.as_str());
        let mut entries: Vec<(String, Profile)> = Vec::new();
        std::mem::swap(&mut entries, &mut self.entries);
        let ghost key = id@;
        match found {
            Some(i) => {
                entries.set(i, (id, profile));
                proof {
                    let new_view = entries@.map_values(|e: (String, Profile)| entry_view(e));
                    assert(new_view =~= old_view.update(i as int, (key, profile)));
                    assert(ids_unique(new_view)) by {
                        assert forall|a: int, b: int| 0 <= a < b < new_view.len() implies (
                        #[trigger] new_view[a]).0 != (#[trigger] new_view[b]).0 by {
                            assert(old_view[a].0 != old_view[b].0);
                        }
                    }
                }
            },
            None => {
                entries.push((id, profile));
                proof {
                    lemma_id_index(old_view, key, 0);
                    let new_view = entries@.map_values(|e: (String, Profile)| entry_view(e));
                    assert(new_view =~= old_view.push((key, profile)));
                    assert(ids_unique(new_view)) by {
                        assert forall|a: int, b: int| 0 <= a < b < new_view.len() implies (
                        #[trigger] new_view[a]).0 != (#[trigger] new_view[b]).0 by {
                            if b < old_view.len() {
                                assert(old_view[a].0 != old_view[b].0);
                            } else {
                                assert(old_view[a].0 != key);
                            }
                        }
                    }
                }
            },
        }
        self.entries = entries;
    }
}

/// The loaded configuration: the profiles, and the file they were read from.
pub struct Config {
    pub profiles: ProfileTable,
    pub config_path: String,
}

impl Config {
    /// Replaces the whole configuration by a freshly read one; a failed read
    /// leaves it as it was and passes the error on.
    pub fn reload_config(&mut self, reloaded: Result<Config, String>) -> (r: Result<(), String>)
        ensures
            match reloaded {
                Ok(c) => r is Ok && *final(self) == c,
                Err(e) => r == Err::<(), String>(e) && *final(self) == *old(self),
            },
    {
        match reloaded {
            Ok(c) => {
                *self = c;
                Ok(())
            },
            Err(e) => Err(e),
        }
    }

    /// The position in the table of the profile to activate for
    /// `connected_outputs`, with the names its settings resolved to.
    pub fn matching_index(&self, connected_outputs: &[OutputInfo]) -> (r: Option<(usize, NameMap)>)
        ensures
            match r {
                Some((i, names)) => {
                    &&& first_matching_profile(self.profiles@, connected_outputs@, 0) == Some(
                        i as int,
                    )
                    &&& i < self.profiles@.len()
                    &&& names@ == matched_names(self.profiles@[i as int].1, connected_outputs@)
                },
                None => first_matching_profile(self.profiles@, connected_outputs@, 0) is None,
            },
    {
        let n = self.profiles.len();
        let mut i: usize = 0;
        while i < n
            invariant
                n == self.profiles@.len(),
                i <= n,
                first_matching_profile(self.profiles@, connected_outputs@, 0)
                    == first_matching_profile(self.profiles@, connected_outputs@, i as nat),
            decreases n - i,
        {
            let (_, profile) = self.profiles.entry(i);
            match match_profile(profile, connected_outputs) {
                Some(names) => {
                    return Some((i, names));
                },
                None => {},
            }
            i = i + 1;
        }
        None
    }

    /// The profile to activate for `connected_outputs`: the first profile, in
    /// table order, whose settings all find an output, with the concrete
    /// output name each setting's pattern resolved to. A profile is returned
    /// only when it has exactly one setting per connected output.
    pub fn find_matching_profile(&self, connected_outputs: &[OutputInfo]) -> (r: Option<
        (&str, &Profile, NameMap),
    >)
        ensures
            r is Some <==> first_matching_profile(self.profiles@, connected_outputs@, 0) is Some,
            r matches Some((id, profile, names)) ==> {
                let i = first_matching_profile(self.profiles@, connected_outputs@, 0)->0;
                &&& 0 <= i < self.profiles@.len()
                &&& id@ == self.profiles@[i].0
                &&& *profile == self.profiles@[i].1
                &&& names@ == matched_names(*profile, connected_outputs@)
            },
            r matches Some((_, profile, _)) ==> profile.settings@.len() == connected_outputs@.len(),
    {
        match self.matching_index(connected_outputs) {
            Some((i, names)) => {
                let (id, profile) = self.profiles.entry(i);
                proof {
                    lemma_match_has_one_setting_per_output(self.profiles@, connected_outputs@, 0);
                }
                Some((id, profile, names))
            },
            None => None,
        }
    }
}

/// A profile the matcher selects has exactly one setting per connected output.
pub proof fn lemma_match_has_one_setting_per_output(
    entries: Seq<(Seq<char>, Profile)>,
    outputs: Seq<OutputInfo>,
    from: nat,
)
    ensures
        first_matching_profile(entries, outputs, from) matches Some(i) ==> {
            &&& from <= i < entries.len()
            &&& profile_slots(entries[i].1, outputs) is Some
            &&& entries[i].1.settings@.len() == outputs.len()
        },
    decreases entries.len() - from,
{
    if from < entries.len() && profile_slots(entries[from as int].1, outputs) is None {
        lemma_match_has_one_setting_per_output(entries, outputs, from + 1);
    }
}

/// With no output connected, every profile without settings is a match, so
/// when the table holds two of them the matcher selects a profile, without
/// settings, and no later than either of the two; when those two are the
/// only profiles without settings, it selects exactly one of them.
pub proof fn lemma_empty_profiles_match_empty_outputs(
    entries: Seq<(Seq<char>, Profile)>,
    outputs: Seq<OutputInfo>,
    a: int,
    b: int,
)
    requires
        outputs.len() == 0,
        0 <= a < entries.len(),
        0 <= b < entries.len(),
        a != b,
        entries[a].1.settings@.len() == 0,
        entries[b].1.settings@.len() == 0,
    ensures
        first_matching_profile(entries, outputs, 0) matches Some(i) && i <= a && i <= b
            && entries[i].1.settings@.len() == 0,
        (forall|k: int|
            0 <= k < entries.len() && k != a && k != b ==> (#[trigger] entries[k]).1.settings@.len()
                > 0) ==> (first_matching_profile(entries, outputs, 0) == Some(a)
            || first_matching_profile(entries, outputs, 0) == Some(b)),
{
    let first = if a < b {
        a
    } else {
        b
    };
    lemma_empty_profile_found(entries, outputs, first, 0);
    lemma_match_has_one_setting_per_output(entries, outputs, 0);
}

proof fn lemma_empty_profile_found(
    entries: Seq<(Seq<char>, Profile)>,
    outputs: Seq<OutputInfo>,
    a: int,
    from: nat,
)
    requires
        outputs.len() == 0,
        from <= a < entries.len(),
        entries[a].1.settings@.len() == 0,
    ensures
        first_matching_profile(entries, outputs, from) matches Some(i) && from <= i <= a,
    decreases a - from,
{
    if from == a {
        let patterns = setting_patterns(entries[a].1);
        assert(patterns.len() == 0);
        assert(profile_slots(entries[a].1, outputs) == Some(Seq::<int>::empty()));
    } else if profile_slots(entries[from as int].1, outputs) is None {
        lemma_empty_profile_found(entries, outputs, a, from + 1);
    }
}

} // verus!
