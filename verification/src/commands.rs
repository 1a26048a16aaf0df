//! Command framework: the table of slash commands, what is sent to Discord to
//! register them, and which command an incoming interaction is routed to.

use vstd::prelude::*;
use std::collections::HashMap;
use vstd::string::StringExecFns;

verus! {

broadcast use vstd::std_specs::hash::group_hash_axioms;

/// The Rust type that a command argument is declared with.
#[derive(Clone, Copy, Debug, PartialEq, Eq, Structural)]
pub enum ArgType {
    U64,
    U32,
    U16,
    U8,
    U128,
    I64,
    I32,
    I16,
    I8,
    I128,
    Usize,
    Isize,
    F32,
    F64,
    Bool,
    /// A Discord user.
    User,
    /// A member of a Discord guild.
    Member,
    /// A role of a Discord guild.
    Role,
    String,
    /// Any other type.
    Other,
}

/// The kind of an application-command option, as Discord knows it.
#[derive(Clone, Copy, Debug, PartialEq, Eq, Structural)]
pub enum OptionType {
    SubCommand,
    SubCommandGroup,
    String,
    Integer,
    Boolean,
    User,
    Channel,
    Role,
    Mentionable,
    Number,
    Unknown,
}

/// The option kind that an argument of type `t` is registered with: every
/// integer type is an integer, the two float types are numbers, `bool` is a
/// boolean, users and members are users, roles are roles, and anything else
/// is entered as a string.
pub open spec fn option_type_of(t: ArgType) -> OptionType {
    match t {
        ArgType::U64 | ArgType::U32 | ArgType::U16 | ArgType::U8 | ArgType::U128
        | ArgType::I64 | ArgType::I32 | ArgType::I16 | ArgType::I8 | ArgType::I128
        | ArgType::Usize | ArgType::Isize => OptionType::Integer,
        ArgType::F32 | ArgType::F64 => OptionType::Number,
        ArgType::Bool => OptionType::Boolean,
        ArgType::User | ArgType::Member => OptionType::User,
        ArgType::Role => OptionType::Role,
        ArgType::String | ArgType::Other => OptionType::String,
    }
}

/// Maps the declared type of an argument to the option kind Discord is told.
pub fn typeid_to_optiontype(typeid: ArgType) -> (r: OptionType)
    ensures
        r == option_type_of(typeid),
{
    match typeid {
        ArgType::U64 | ArgType::U32 | ArgType::U16 | ArgType::U8 | ArgType::U128
        | ArgType::I64 | ArgType::I32 | ArgType::I16 | ArgType::I8 | ArgType::I128
        | ArgType::Usize | ArgType::Isize => OptionType::Integer,
        ArgType::F32 | ArgType::F64 => OptionType::Number,
        ArgType::Bool => OptionType::Boolean,
        ArgType::User | ArgType::Member => OptionType::User,
        ArgType::Role => OptionType::Role,
        ArgType::String | ArgType::Other => OptionType::String,
    }
}


/// One argument of a command.
#[derive(Clone, Debug)]
pub struct Arg {
    pub name: String,
    pub description: String,
    pub type_: ArgType,
    pub required: bool,
}

/// A slash command: its name, description, arguments, and the handler that
/// runs it (of whatever type the caller uses for handlers).
#[derive(Clone, Debug)]
pub struct Command<H> {
    pub name: String,
    pub description: String,
    pub args: Vec<Arg>,
    pub handler: H,
}

/// One option of a command as it is registered with Discord.
#[derive(Clone, Debug)]
pub struct OptionSpec {
    pub name: String,
    pub description: String,
    pub required: bool,
    pub kind: OptionType,
}

/// A command as it is registered with Discord.
#[derive(Clone, Debug)]
pub struct CommandSpec {
    pub name: String,
    pub description: String,
    pub options: Vec<OptionSpec>,
}

/// The registered form of one argument.
pub open spec fn option_spec_of(arg: Arg, spec: OptionSpec) -> bool {
    &&& spec.name@ == arg.name@
    &&& spec.description@ == arg.description@
    &&& spec.required == arg.required
    &&& spec.kind == option_type_of(arg.type_)
}

/// The registered form of one command: its name, its description, and one
/// option per argument, in the same order.
pub open spec fn command_spec_of<H>(cmd: Command<H>, spec: CommandSpec) -> bool {
    &&& spec.name@ == cmd.name@
    &&& spec.description@ == cmd.description@
    &&& spec.options@.len() == cmd.args@.len()
    &&& forall|j: int| 0 <= j < cmd.args@.len()
        ==> #[trigger] option_spec_of(cmd.args@[j], spec.options@[j])
}

/// Every argument is registered under its own name and description, with
/// its own required flag, whether it is required or not; and a command under
/// its own name and description, with its arguments as options in order.
pub proof fn registration_keeps_names<H>(cmd: Command<H>, spec: CommandSpec)
    requires
        command_spec_of(cmd, spec),
    ensures
        spec.name@ == cmd.name@,
        spec.description@ == cmd.description@,
        spec.options@.len() == cmd.args@.len(),
        forall|j: int|
            #![trigger spec.options@[j]]
            0 <= j < cmd.args@.len() ==> {
                &&& spec.options@[j].name@ == cmd.args@[j].name@
                &&& spec.options@[j].description@ == cmd.args@[j].description@
                &&& spec.options@[j].required == cmd.args@[j].required
                &&& spec.options@[j].kind == option_type_of(cmd.args@[j].type_)
            },
{
    assert forall|j: int| #![trigger spec.options@[j]] 0 <= j < cmd.args@.len() implies {
        &&& spec.options@[j].name@ == cmd.args@[j].name@
        &&& spec.options@[j].description@ == cmd.args@[j].description@
        &&& spec.options@[j].required == cmd.args@[j].required
        &&& spec.options@[j].kind == option_type_of(cmd.args@[j].type_)
    } by {
        assert(option_spec_of(cmd.args@[j], spec.options@[j]));
    }
}

/// Integer types are entered as integers, float types as numbers, `bool`
/// as a boolean, users and members as users, roles as roles, and nothing
/// else as any of these.
pub proof fn option_kinds_by_type(t: ArgType)
    ensures
        (option_type_of(t) == OptionType::Integer) <==> (t == ArgType::U64 || t == ArgType::U32
            || t == ArgType::U16 || t == ArgType::U8 || t == ArgType::U128 || t == ArgType::I64
            || t == ArgType::I32 || t == ArgType::I16 || t == ArgType::I8 || t == ArgType::I128
            || t == ArgType::Usize || t == ArgType::Isize),
        (option_type_of(t) == OptionType::Number) <==> (t == ArgType::F32 || t == ArgType::F64),
        (option_type_of(t) == OptionType::Boolean) <==> (t == ArgType::Bool),
        (option_type_of(t) == OptionType::User) <==> (t == ArgType::User || t == ArgType::Member),
        (option_type_of(t) == OptionType::Role) <==> (t == ArgType::Role),
        (option_type_of(t) == OptionType::String) <==> (t == ArgType::String || t == ArgType::Other),
{
}

impl Arg {
    /// How this argument is registered as an option of its command.
    pub fn option_spec(&self) -> (r: OptionSpec)
        ensures
            option_spec_of(*self, r),
    {
        OptionSpec {
            name: self.name.clone(),
            description: self.description.clone(),
            required: self.required,
            kind: typeid_to_optiontype(self.type_),
        }
    }
}

impl<H> Command<H> {
    /// How this command is registered with Discord.
    pub fn command_spec(&self) -> (r: CommandSpec)
        ensures
            command_spec_of(*self, r),
    {
        let mut options: Vec<OptionSpec> = Vec::new();
        let n = self.args.len();
        for j in 0..n
            invariant
                n == self.args@.len(),
                options@.len() == j,
                forall|k: int| 0 <= k < j ==> #[trigger] option_spec_of(self.args@[k], options@[k]),
        {
            let o = self.args[j].option_spec();
            options.push(o);
        }
        CommandSpec { name: self.name.clone(), description: self.description.clone(), options }
    }
}

/// Whether `cmd` is named `name`, described by `description`, and takes the
/// one argument `arg` of type `t`, required or not as `required` says.
pub open spec fn command_is<H>(
    cmd: Command<H>,
    name: Seq<char>,
    description: Seq<char>,
    arg: Seq<char>,
    arg_description: Seq<char>,
    t: ArgType,
    required: bool,
) -> bool {
    &&& cmd.name@ == name
    &&& cmd.description@ == description
    &&& cmd.args@.len() == 1
    &&& cmd.args@[0].name@ == arg
    &&& cmd.args@[0].description@ == arg_description
    &&& cmd.args@[0].type_ == t
    &&& cmd.args@[0].required == required
}

fn single_arg_command<H>(
    name: &str,
    description: &str,
    arg: &str,
    arg_description: &str,
    t: ArgType,
    required: bool,
    handler: H,
) -> (r: Command<H>)
    ensures
        command_is(r, name@, description@, arg@, arg_description@, t, required),
        r.handler == handler,
{
    let a = Arg {
        name: String::from_str(arg),
        description: String::from_str(arg_description),
        type_: t,
        required,
    };
    let mut args: Vec<Arg> = Vec::new();
    args.push(a);
    Command {
        name: String::from_str(name),
        description: String::from_str(description),
        args,
        handler,
    }
}

/// The commands of the bot, in the order they are registered: `/profile`,
/// `/register` and `/user`, each run by the handler given for it.
pub fn bot_commands<H>(profile: H, register: H, user: H) -> (r: Vec<Command<H>>)
    ensures
        r@.len() == 3,
        command_is(
            r@[0],
            "profile"@,
            "shows profile of generals.io user"@,
            "username"@,
            "generals.io username"@,
            ArgType::String,
            true,
        ),
        r@[0].handler == profile,
        command_is(
            r@[1],
            "register"@,
            "registers generals.io username to discord user"@,
            "username"@,
            "generals.io username"@,
            ArgType::String,
            true,
        ),
        r@[1].handler == register,
        command_is(
            r@[2],
            "user"@,
            "shows generals.io profile for discord user"@,
            "mention"@,
            "the discord user"@,
            ArgType::Member,
            false,
        ),
        r@[2].handler == user,
{
    let mut v: Vec<Command<H>> = Vec::new();
    v.push(
        single_arg_command(
            "profile",
            "shows profile of generals.io user",
            "username",
            "generals.io username",
            ArgType::String,
            true,
            profile,
        ),
    );
    v.push(
        single_arg_command(
            "register",
            "registers generals.io username to discord user",
            "username",
            "generals.io username",
            ArgType::String,
            true,
            register,
        ),
    );
    v.push(
        single_arg_command(
            "user",
            "shows generals.io profile for discord user",
            "mention",
            "the discord user",
            ArgType::Member,
            false,
            user,
        ),
    );
    v
}

/// The index that an interaction whose command id was never registered is
/// looked up at in the command table.
pub const UNREGISTERED_INDEX: usize = 10000;

/// The id-to-index table after the ids that Discord returned, one per
/// command in table order, were recorded one after another into `m`: each
/// id is mapped to its position, a later position overriding an earlier one.
pub open spec fn record_ids(m: Map<u64, usize>, ids: Seq<u64>) -> Map<u64, usize>
    decreases ids.len(),
{
    if ids.len() == 0 {
        m
    } else {
        record_ids(m, ids.drop_last()).insert(ids.last(), (ids.len() - 1) as usize)
    }
}

/// After the ids returned for the registrations are recorded, an
/// interaction for the id of the `i`-th registration is routed to the
/// `i`-th command, provided no later registration returned the same id.
pub proof fn recorded_id_routes_to_its_command(m: Map<u64, usize>, ids: Seq<u64>, i: int)
    requires
        0 <= i < ids.len(),
        ids.len() <= usize::MAX,
        forall|j: int| i < j < ids.len() ==> ids[j] != ids[i],
    ensures
        route_index(record_ids(m, ids), ids[i]) == i,
    decreases ids.len(),
{
    if i < ids.len() - 1 {
        recorded_id_routes_to_its_command(m, ids.drop_last(), i);
        assert(ids.drop_last()[i] == ids[i]);
        assert(ids[ids.len() - 1] != ids[i]);
    }
}

/// Recording ids leaves the routing of every other id as it was.
pub proof fn unrecorded_id_routes_as_before(m: Map<u64, usize>, ids: Seq<u64>, id: u64)
    requires
        !ids.contains(id),
    ensures
        route_index(record_ids(m, ids), id) == route_index(m, id),
    decreases ids.len(),
{
    if ids.len() > 0 {
        assert(!ids.drop_last().contains(id)) by {
            if ids.drop_last().contains(id) {
                let k = choose|k: int| 0 <= k < ids.drop_last().len() && ids.drop_last()[k] == id;
                assert(ids[k] == id);
            }
        }
        assert(ids.last() != id) by {
            assert(ids[ids.len() - 1] == ids.last());
        }
        unrecorded_id_routes_as_before(m, ids.drop_last(), id);
    }
}

/// The index in the command table that an interaction for command `id` is
/// routed to.
pub open spec fn route_index(m: Map<u64, usize>, id: u64) -> int {
    if m.contains_key(id) {
        m[id] as int
    } else {
        UNREGISTERED_INDEX as int
    }
}

/// The table of commands of the bot, the ids Discord assigned to them, and
/// the optional hook that is told of a handler's failure.
pub struct Commands<H, E> {
    commands: Vec<Command<H>>,
    commands_map: HashMap<u64, usize>,
    on_error: Option<E>,
}

impl<H, E> Commands<H, E> {
    /// The commands, in the order they were given.
    pub closed spec fn command_list(&self) -> Seq<Command<H>> {
        self.commands@
    }

    /// The id Discord assigned to a command, mapped to its index.
    pub closed spec fn id_map(&self) -> Map<u64, usize> {
        self.commands_map@
    }

    /// The hook that is told of a handler's failure, if one is set.
    pub closed spec fn error_hook(&self) -> Option<E> {
        self.on_error
    }

    /// A table of the given commands, with no ids recorded and no error hook.
    pub fn new(commands: Vec<Command<H>>) -> (r: Self)
        ensures
            r.command_list() == commands@,
            r.id_map() == Map::<u64, usize>::empty(),
            r.error_hook() is None,
    {
        Commands { commands: commands, commands_map: HashMap::new(), on_error: None }
    }

    /// Sets the hook that is told when a handler fails.
    pub fn on_error(&mut self, f: E)
        ensures
            final(self).error_hook() == Some(f),
            final(self).command_list() == old(self).command_list(),
            final(self).id_map() == old(self).id_map(),
    {
        self.on_error = Some(f);
    }

    /// What is sent to Discord to register the commands, one entry per
    /// command, in table order.
    pub fn registrations(&self) -> (r: Vec<CommandSpec>)
        ensures
            r@.len() == self.command_list().len(),
            forall|i: int| 0 <= i < r@.len()
                ==> #[trigger] command_spec_of(self.command_list()[i], r@[i]),
    {
        let mut out: Vec<CommandSpec> = Vec::new();
        let n = self.commands.len();
        for i in 0..n
            invariant
                n == self.commands@.len(),
                out@.len() == i,
                forall|k: int| 0 <= k < i ==> #[trigger] command_spec_of(self.commands@[k], out@[k]),
        {
            let c = self.commands[i].command_spec();
            out.push(c);
        }
        out
    }

    /// Records the ids that Discord returned for the registered commands:
    /// `ids[i]` is the id of the `i`-th registration.
    pub fn record_registered(&mut self, ids: &Vec<u64>)
        ensures
            final(self).id_map() == record_ids(old(self).id_map(), ids@),
            final(self).command_list() == old(self).command_list(),
            final(self).error_hook() == old(self).error_hook(),
    {
        let n = ids.len();
        for i in 0..n
            invariant
                n == ids@.len(),
                self.commands_map@ == record_ids(old(self).commands_map@, ids@.take(i as int)),
                self.commands@ == old(self).commands@,
                self.on_error == old(self).on_error,
        {
            assert(ids@.take(i + 1).drop_last() =~= ids@.take(i as int));
            self.commands_map.insert(ids[i], i);
        }
        assert(ids@.take(n as int) =~= ids@);
    }

    /// The command that an interaction for command `id` runs, if any.
    pub fn route(&self, id: u64) -> (r: Option<&Command<H>>)
        ensures
            ({
                let idx = route_index(self.id_map(), id);
                if 0 <= idx < self.command_list().len() {
                    r == Some(&self.command_list()[idx])
                } else {
                    r is None
                }
            }),
    {
        let idx = match self.commands_map.get(&id) {
            Some(i) => *i,
            None => UNREGISTERED_INDEX,
        };
        if idx < self.commands.len() {
            Some(&self.commands[idx])
        } else {
            None
        }
    }

    /// The hook to run after a handler finished: the error hook when the
    /// handler failed and one is set, nothing otherwise.
    pub fn after_handler(&self, handler_failed: bool) -> (r: Option<&E>)
        ensures
            handler_failed ==> r == match self.error_hook() {
                Some(f) => Some(&f),
                None => None,
            },
            !handler_failed ==> r is None,
    {
        if handler_failed {
            match &self.on_error {
                Some(f) => Some(f),
                None => None,
            }
        } else {
            None
        }
    }
}

} // verus!
