//! The command that answers an event: a program, its environment and its arguments.
use vstd::prelude::*;
use vstd::string::*;

verus! {

/// One environment assignment, name first, as plain text.
pub type EnvEntry = (Seq<char>, Seq<char>);

/// What a [`CommandSpec`] holds, as plain text.
#[verifier::ext_equal]
pub struct CommandView {
    pub program: Seq<char>,
    pub envs: Seq<EnvEntry>,
    pub args: Seq<Seq<char>>,
}

impl CommandView {
    /// The same command with `more` assignments after the ones it has.
    pub open spec fn with_envs(self, more: Seq<EnvEntry>) -> CommandView {
        CommandView { program: self.program, envs: self.envs + more, args: self.args }
    }
}

/// A command that runs `program`, with no assignments and no arguments yet.
pub open spec fn fresh_command(program: Seq<char>) -> CommandView {
    CommandView { program, envs: seq![], args: seq![] }
}

/// The assignment of `value` to the variable named `prefix` followed by `suffix`.
pub open spec fn entry(prefix: Seq<char>, suffix: Seq<char>, value: Seq<char>) -> EnvEntry {
    (prefix + suffix, value)
}

/// Adding assignments twice adds them in one go.
pub proof fn lemma_with_envs_twice(c: CommandView, a: Seq<EnvEntry>, b: Seq<EnvEntry>)
    ensures
        c.with_envs(a).with_envs(b) == c.with_envs(a + b),
{
    assert((c.envs + a) + b =~= c.envs + (a + b));
}

/// Adding no assignments changes nothing.
pub proof fn lemma_with_no_envs(c: CommandView)
    ensures
        c.with_envs(seq![]) == c,
{
    assert(c.envs + seq![] =~= c.envs);
}

/// Whether `name` begins with `prefix`.
pub open spec fn starts_with(name: Seq<char>, prefix: Seq<char>) -> bool {
    prefix.len() <= name.len() && name.subrange(0, prefix.len() as int) == prefix
}

/// Whether every name that `envs` assigns begins with `prefix`.
pub open spec fn all_under(prefix: Seq<char>, envs: Seq<EnvEntry>) -> bool {
    forall|i: int| 0 <= i < envs.len() ==> starts_with(#[trigger] envs[i].0, prefix)
}

/// The name of an assignment made under a prefix begins with it.
pub proof fn lemma_entry_under(prefix: Seq<char>, suffix: Seq<char>, value: Seq<char>)
    ensures
        all_under(prefix, seq![entry(prefix, suffix, value)]),
{
    assert((prefix + suffix).subrange(0, prefix.len() as int) =~= prefix);
    assert(seq![entry(prefix, suffix, value)][0].0 == prefix + suffix);
}

/// Two lists of assignments under a prefix make one.
pub proof fn lemma_under_concat(prefix: Seq<char>, a: Seq<EnvEntry>, b: Seq<EnvEntry>)
    requires
        all_under(prefix, a),
        all_under(prefix, b),
    ensures
        all_under(prefix, a + b),
{
    assert forall|i: int| 0 <= i < (a + b).len() implies starts_with(#[trigger] (a + b)[i].0, prefix) by {
        if i < a.len() {
            assert((a + b)[i] == a[i]);
        } else {
            assert((a + b)[i] == b[i - a.len()]);
        }
    }
}

/// Assignments under a longer prefix are under the shorter one.
pub proof fn lemma_under_longer(prefix: Seq<char>, more: Seq<char>, envs: Seq<EnvEntry>)
    requires
        all_under(prefix + more, envs),
    ensures
        all_under(prefix, envs),
{
    assert forall|i: int| 0 <= i < envs.len() implies starts_with(#[trigger] envs[i].0, prefix) by {
        let name = envs[i].0;
        assert(starts_with(name, prefix + more));
        assert(name.subrange(0, prefix.len() as int) =~= (prefix + more).subrange(0, prefix.len() as int));
        assert((prefix + more).subrange(0, prefix.len() as int) =~= prefix);
    }
}

/// The value that a list of assignments leaves in the variable `name`: the
/// value of the last assignment to it, if there is one.
pub open spec fn last_value(envs: Seq<EnvEntry>, name: Seq<char>) -> Option<Seq<char>>
    decreases envs.len(),
{
    if envs.len() == 0 {
        None
    } else if envs.last().0 == name {
        Some(envs.last().1)
    } else {
        last_value(envs.drop_last(), name)
    }
}

/// After two lists of assignments, a variable holds what the second left in
/// it, or else what the first left in it.
pub proof fn lemma_last_value_concat(a: Seq<EnvEntry>, b: Seq<EnvEntry>, name: Seq<char>)
    ensures
        last_value(a + b, name) == (match last_value(b, name) {
            Some(v) => Some(v),
            None => last_value(a, name),
        }),
    decreases b.len(),
{
    if b.len() == 0 {
        assert(a + b =~= a);
    } else {
        assert((a + b).drop_last() =~= a + b.drop_last());
        assert((a + b).last() == b.last());
        lemma_last_value_concat(a, b.drop_last(), name);
    }
}

/// One assignment sets its own variable and no other.
pub proof fn lemma_last_value_single(name: Seq<char>, value: Seq<char>, other: Seq<char>)
    ensures
        last_value(seq![(name, value)], other) == (if name == other { Some(value) } else { None }),
{
    let one = seq![(name, value)];
    assert(one.drop_last() =~= Seq::<EnvEntry>::empty());
    assert(one.last() == (name, value));
    assert(last_value(one.drop_last(), other) is None);
}

/// A name that begins with a prefix agrees with it character by character.
pub proof fn lemma_starts_with_char(name: Seq<char>, prefix: Seq<char>, i: int)
    requires
        starts_with(name, prefix),
        0 <= i < prefix.len(),
    ensures
        name[i] == prefix[i],
{
    assert(name.subrange(0, prefix.len() as int)[i] == name[i]);
}

/// Assignments under a prefix leave nothing in a variable whose name does
/// not begin with it.
pub proof fn lemma_no_value_outside(prefix: Seq<char>, envs: Seq<EnvEntry>, name: Seq<char>)
    requires
        all_under(prefix, envs),
        !starts_with(name, prefix),
    ensures
        last_value(envs, name) is None,
    decreases envs.len(),
{
    if envs.len() > 0 {
        assert(starts_with(envs[envs.len() - 1].0, prefix));
        assert forall|i: int| 0 <= i < envs.drop_last().len() implies starts_with(#[trigger] envs.drop_last()[i].0, prefix) by {
            assert(envs.drop_last()[i] == envs[i]);
        }
        lemma_no_value_outside(prefix, envs.drop_last(), name);
    }
}

/// Assignments under a prefix leave nothing in a variable whose name differs
/// from the prefix at position `i`.
pub proof fn lemma_no_value_apart(prefix: Seq<char>, envs: Seq<EnvEntry>, name: Seq<char>, i: int)
    requires
        all_under(prefix, envs),
        0 <= i < prefix.len(),
        i < name.len(),
        name[i] != prefix[i],
    ensures
        last_value(envs, name) is None,
{
    if starts_with(name, prefix) {
        lemma_starts_with_char(name, prefix, i);
    }
    lemma_no_value_outside(prefix, envs, name);
}

/// Assignments under a prefix longer than a name leave nothing in it.
pub proof fn lemma_no_value_shorter(prefix: Seq<char>, envs: Seq<EnvEntry>, name: Seq<char>)
    requires
        all_under(prefix, envs),
        name.len() < prefix.len(),
    ensures
        last_value(envs, name) is None,
{
    lemma_no_value_outside(prefix, envs, name);
}

/// What a variable holds after a later part of the assignments, given what
/// it held before it.
pub open spec fn or_else(later: Option<Seq<char>>, earlier: Option<Seq<char>>) -> Option<Seq<char>> {
    match later {
        Some(v) => Some(v),
        None => earlier,
    }
}

/// An assignment to `prefix` followed by `key` leaves nothing in a name that
/// differs from `key` at position `i` after the prefix.
pub proof fn lemma_single_apart(prefix: Seq<char>, key: Seq<char>, value: Seq<char>, name: Seq<char>, i: int)
    requires
        0 <= i < key.len(),
        prefix.len() + i < name.len(),
        name[prefix.len() + i] != key[i],
    ensures
        last_value(seq![entry(prefix, key, value)], name) is None,
{
    lemma_last_value_single(prefix + key, value, name);
    assert((prefix + key)[prefix.len() + i] == key[i]);
}

/// An assignment to `prefix` followed by `key` leaves nothing in a name of
/// another length.
pub proof fn lemma_single_apart_len(prefix: Seq<char>, key: Seq<char>, value: Seq<char>, name: Seq<char>)
    requires
        name.len() != prefix.len() + key.len(),
    ensures
        last_value(seq![entry(prefix, key, value)], name) is None,
{
    lemma_last_value_single(prefix + key, value, name);
}

/// The text view of a list of assignments.
pub open spec fn envs_view(envs: Seq<(String, String)>) -> Seq<EnvEntry> {
    envs.map_values(|e: (String, String)| (e.0@, e.1@))
}

/// A program to run, with the environment assignments to make, in order
/// (a later assignment to the same name wins), and its arguments.
pub struct CommandSpec {
    pub program: String,
    pub envs: Vec<(String, String)>,
    pub args: Vec<String>,
}

impl View for CommandSpec {
    type V = CommandView;

    open spec fn view(&self) -> CommandView {
        CommandView {
            program: self.program@,
            envs: envs_view(self.envs@),
            args: self.args@.map_values(|a: String| a@),
        }
    }
}

impl CommandSpec {
    /// A command that runs `program` with no assignments and no arguments.
    pub fn new(program: &str) -> (r: CommandSpec)
        ensures
            r@ == fresh_command(program@),
    {
        let r = CommandSpec { program: String::from_str(program), envs: Vec::new(), args: Vec::new() };
        assert(r@.envs =~= seq![]);
        assert(r@.args =~= seq![]);
        r
    }

    /// Adds the assignment of `value` to `name`.
    pub fn env(&mut self, name: String, value: String)
        ensures
            final(self)@ == old(self)@.with_envs(seq![(name@, value@)]),
    {
        let ghost before = self.envs@;
        self.envs.push((name, value));
        assert(envs_view(self.envs@) =~= envs_view(before) + seq![(name@, value@)]);
    }

    /// Adds an argument.
    pub fn arg(&mut self, a: String)
        ensures
            final(self)@ == (CommandView {
                program: old(self)@.program,
                envs: old(self)@.envs,
                args: old(self)@.args.push(a@),
            }),
    {
        let ghost before = self.args@;
        self.args.push(a);
        assert(self.args@.map_values(|a: String| a@) =~= before.map_values(|a: String| a@).push(a@));
    }

    /// Adds the assignment of `value` to the variable `name`.
    pub fn set_var(&mut self, name: &str, value: String)
        ensures
            final(self)@ == old(self)@.with_envs(seq![(name@, value@)]),
    {
        self.env(String::from_str(name), value);
    }

    /// Adds the assignment of `value` to the variable named `prefix` followed by `suffix`.
    pub fn put(&mut self, prefix: &str, suffix: &str, value: String)
        ensures
            final(self)@ == old(self)@.with_envs(seq![entry(prefix@, suffix@, value@)]),
    {
        let name = String::from_str(prefix).concat(suffix);
        self.env(name, value);
    }
}

} // verus!
