use gio_bot::commands::{
    bot_commands, typeid_to_optiontype, Arg, ArgType, Command, Commands, OptionType,
};

fn arg(name: &str, type_: ArgType, required: bool) -> Arg {
    Arg {
        name: name.to_string(),
        description: format!("{} description", name),
        type_,
        required,
    }
}

fn command(name: &str, args: Vec<Arg>) -> Command<&'static str> {
    Command {
        name: name.to_string(),
        description: format!("{} command", name),
        args,
        handler: "handler",
    }
}

fn table() -> Commands<&'static str, u8> {
    let mut profile = command("profile", vec![arg("username", ArgType::String, true)]);
    profile.handler = "profile";
    let mut register = command("register", vec![arg("username", ArgType::String, true)]);
    register.handler = "register";
    let mut user = command("user", vec![arg("mention", ArgType::Member, false)]);
    user.handler = "user";
    Commands::new(vec![profile, register, user])
}

#[test]
fn option_type_of_each_kind_of_argument() {
    for t in [
        ArgType::U64, ArgType::U32, ArgType::U16, ArgType::U8, ArgType::U128, ArgType::I64,
        ArgType::I32, ArgType::I16, ArgType::I8, ArgType::I128, ArgType::Usize, ArgType::Isize,
    ] {
        assert_eq!(typeid_to_optiontype(t), OptionType::Integer);
    }
    assert_eq!(typeid_to_optiontype(ArgType::F32), OptionType::Number);
    assert_eq!(typeid_to_optiontype(ArgType::F64), OptionType::Number);
    assert_eq!(typeid_to_optiontype(ArgType::Bool), OptionType::Boolean);
    assert_eq!(typeid_to_optiontype(ArgType::User), OptionType::User);
    assert_eq!(typeid_to_optiontype(ArgType::Member), OptionType::User);
    assert_eq!(typeid_to_optiontype(ArgType::Role), OptionType::Role);
    assert_eq!(typeid_to_optiontype(ArgType::String), OptionType::String);
    assert_eq!(typeid_to_optiontype(ArgType::Other), OptionType::String);
}

#[test]
fn registrations_follow_the_table() {
    let t = table();
    let regs = t.registrations();
    assert_eq!(regs.len(), 3);
    assert_eq!(regs[0].name, "profile");
    assert_eq!(regs[0].description, "profile command");
    assert_eq!(regs[0].options.len(), 1);
    assert_eq!(regs[0].options[0].name, "username");
    assert_eq!(regs[0].options[0].description, "username description");
    assert!(regs[0].options[0].required);
    assert_eq!(regs[0].options[0].kind, OptionType::String);
    assert_eq!(regs[2].name, "user");
    assert!(!regs[2].options[0].required);
    assert_eq!(regs[2].options[0].kind, OptionType::User);
}

#[test]
fn recorded_ids_route_to_their_commands() {
    let mut t = table();
    t.record_registered(&vec![111, 222, 333]);
    assert_eq!(t.route(111).unwrap().handler, "profile");
    assert_eq!(t.route(222).unwrap().handler, "register");
    assert_eq!(t.route(333).unwrap().handler, "user");
}

#[test]
fn unknown_id_routes_nowhere() {
    let mut t = table();
    assert!(t.route(111).is_none());
    t.record_registered(&vec![111, 222, 333]);
    assert!(t.route(999).is_none());
}

#[test]
fn later_registration_of_the_same_id_wins() {
    let mut t = table();
    t.record_registered(&vec![5, 5, 6]);
    assert_eq!(t.route(5).unwrap().handler, "register");
    assert_eq!(t.route(6).unwrap().handler, "user");
}

#[test]
fn id_of_a_missing_index_routes_nowhere() {
    let mut t = table();
    t.record_registered(&vec![1, 2, 3, 4]);
    assert!(t.route(4).is_none());
    assert_eq!(t.route(3).unwrap().handler, "user");
}

#[test]
fn error_hook_runs_only_after_a_failure() {
    let mut t = table();
    assert!(t.after_handler(true).is_none());
    t.on_error(7);
    assert_eq!(t.after_handler(true), Some(&7));
    assert!(t.after_handler(false).is_none());
}

#[test]
fn the_bot_has_three_commands() {
    let cmds = bot_commands(1u8, 2u8, 3u8);
    assert_eq!(cmds.len(), 3);
    assert_eq!(cmds[0].name, "profile");
    assert_eq!(cmds[0].description, "shows profile of generals.io user");
    assert_eq!(cmds[0].args[0].name, "username");
    assert_eq!(cmds[0].args[0].description, "generals.io username");
    assert_eq!(cmds[0].args[0].type_, ArgType::String);
    assert!(cmds[0].args[0].required);
    assert_eq!(cmds[0].handler, 1);
    assert_eq!(cmds[1].name, "register");
    assert_eq!(cmds[1].description, "registers generals.io username to discord user");
    assert_eq!(cmds[1].handler, 2);
    assert_eq!(cmds[2].name, "user");
    assert_eq!(cmds[2].description, "shows generals.io profile for discord user");
    assert_eq!(cmds[2].args[0].name, "mention");
    assert_eq!(cmds[2].args[0].description, "the discord user");
    assert_eq!(cmds[2].args[0].type_, ArgType::Member);
    assert!(!cmds[2].args[0].required);
    assert_eq!(cmds[2].handler, 3);
    let table: Commands<u8, u8> = Commands::new(cmds);
    let regs = table.registrations();
    assert_eq!(regs[2].options[0].kind, OptionType::User);
    assert_eq!(regs[1].options[0].kind, OptionType::String);
}
