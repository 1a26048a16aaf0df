//! Reading the options that a user gave to a slash command.

use vstd::prelude::*;
use vstd::string::StringExecFns;
use crate::text::parse_u64_spec;

verus! {

/// The value given for an option: none, a string, or something else.
#[derive(Clone, Debug)]
pub enum OptionValue {
    Missing,
    Text(String),
    Other,
}

/// One option of an interaction: its name and the value given for it.
#[derive(Clone, Debug)]
pub struct CommandOption {
    pub name: String,
    pub value: OptionValue,
}

/// Declares `std::num::ParseIntError`, the error of reading a number.
#[verifier::external_type_specification]
#[verifier::external_body]
pub struct ExParseIntError(std::num::ParseIntError);

/// Whether `o` is named `key` and has a value.
pub open spec fn given(o: CommandOption, key: Seq<char>) -> bool {
    o.name@ == key && !(o.value is Missing)
}

/// The string values given for the options named `key`, joined in order.
pub open spec fn joined_text(opts: Seq<CommandOption>, key: Seq<char>) -> Seq<char>
    decreases opts.len(),
{
    if opts.len() == 0 {
        Seq::empty()
    } else {
        let rest = joined_text(opts.drop_last(), key);
        match opts.last().value {
            OptionValue::Text(t) => if opts.last().name@ == key {
                rest + t@
            } else {
                rest
            },
            _ => rest,
        }
    }
}

/// With no options the joined text is empty; one more option adds its
/// string value when it is named `key` and carries a string, and nothing
/// otherwise.
pub proof fn joined_text_grows_by_matching_option(
    opts: Seq<CommandOption>,
    key: Seq<char>,
    o: CommandOption,
)
    ensures
        joined_text(Seq::<CommandOption>::empty(), key) == Seq::<char>::empty(),
        joined_text(opts.push(o), key) == match o.value {
            OptionValue::Text(t) => if o.name@ == key {
                joined_text(opts, key) + t@
            } else {
                joined_text(opts, key)
            },
            _ => joined_text(opts, key),
        },
{
    assert(opts.push(o).drop_last() =~= opts);
}

/// No option named `key` has a value that is not a string.
pub open spec fn given_values_are_text(opts: Seq<CommandOption>, key: Seq<char>) -> bool {
    forall|i: int| 0 <= i < opts.len() && #[trigger] opts[i].name@ == key ==> !(opts[i].value is Other)
}

/// Every option named `key` has a string value.
pub open spec fn all_text(opts: Seq<CommandOption>, key: Seq<char>) -> bool {
    forall|i: int| 0 <= i < opts.len() && #[trigger] opts[i].name@ == key ==> opts[i].value is Text
}

/// Joins the string values of the options named `key`, in order; options
/// without a value are passed over.
fn join_text(options: &Vec<CommandOption>, key: &String) -> (r: String)
    requires
        given_values_are_text(options@, key@),
    ensures
        r@ == joined_text(options@, key@),
{
    let mut out = String::new();
    let n = options.len();
    for i in 0..n
        invariant
            n == options@.len(),
            out@ == joined_text(options@.take(i as int), key@),
    {
        assert(options@.take(i + 1).drop_last() =~= options@.take(i as int));
        let o = &options[i];
        if o.name == *key {
            match &o.value {
                OptionValue::Text(t) => {
                    out.append(t.as_str());
                },
                _ => {},
            }
        }
    }
    assert(options@.take(n as int) =~= options@);
    out
}

/// The generals.io username asked for by `/profile`: the values of the
/// options named "username", joined. A "username" option whose value is
/// there but is not a string is not accepted.
pub fn profile_username(options: &Vec<CommandOption>) -> (r: String)
    requires
        given_values_are_text(options@, "username"@),
    ensures
        r@ == joined_text(options@, "username"@),
{
    let key = String::from_str("username");
    join_text(options, &key)
}

/// The generals.io username given to `/register`: the values of the
/// options named "username", joined. Each "username" option must carry a
/// string.
pub fn register_username(options: &Vec<CommandOption>) -> (r: String)
    requires
        all_text(options@, "username"@),
    ensures
        r@ == joined_text(options@, "username"@),
{
    let key = String::from_str("username");
    join_text(options, &key)
}

/// The Discord user that `/user` is about: the author `author`, replaced by
/// the id read from each "mention" option with a value, in order; at the
/// first mention that does not read as an id, `Err` of its text.
pub open spec fn mention_target_spec(author: u64, opts: Seq<CommandOption>) -> Result<
    u64,
    Seq<char>,
>
    decreases opts.len(),
{
    if opts.len() == 0 {
        Ok(author)
    } else {
        match mention_target_spec(author, opts.drop_last()) {
            Err(t) => Err(t),
            Ok(u) => if given(opts.last(), "mention"@) {
                match opts.last().value {
                    OptionValue::Text(t) => match parse_u64_spec(t@) {
                        Some(v) => Ok(v),
                        None => Err(t@),
                    },
                    _ => Ok(u),
                }
            } else {
                Ok(u)
            },
        }
    }
}

/// With no options, `/user` is about its author.
pub proof fn no_mention_means_author(author: u64)
    ensures
        mention_target_spec(author, Seq::<CommandOption>::empty()) == Ok::<u64, Seq<char>>(author),
{
}

/// An option that is not a "mention" with a value changes nothing.
pub proof fn other_options_keep_target(author: u64, opts: Seq<CommandOption>, o: CommandOption)
    requires
        !given(o, "mention"@),
    ensures
        mention_target_spec(author, opts.push(o)) == mention_target_spec(author, opts),
{
    assert(opts.push(o).drop_last() =~= opts);
}

/// A "mention" whose text reads as the number `v`, after options that read
/// well, makes `/user` about the user `v` itself, whoever was named
/// before; a mention that does not read gives its own text as the failure.
pub proof fn last_mention_wins(author: u64, opts: Seq<CommandOption>, name: String, t: String)
    requires
        name@ == "mention"@,
        mention_target_spec(author, opts) is Ok,
    ensures
        ({
            let o = CommandOption { name: name, value: OptionValue::Text(t) };
            &&& forall|v: u64| parse_u64_spec(t@) == Some(v)
                ==> mention_target_spec(author, opts.push(o)) == Ok::<u64, Seq<char>>(v)
            &&& parse_u64_spec(t@) is None ==> mention_target_spec(author, opts.push(o))
                == Err::<u64, Seq<char>>(t@)
        }),
{
    let o = CommandOption { name: name, value: OptionValue::Text(t) };
    assert(opts.push(o).drop_last() =~= opts);
    assert(opts.push(o).last() == o);
}

/// A mention of the decimal form of any id names that id.
pub proof fn mention_of_id_names_it(author: u64, opts: Seq<CommandOption>, name: String, t: String, v: u64)
    requires
        name@ == "mention"@,
        t@ == crate::text::decimal(v as nat),
        mention_target_spec(author, opts) is Ok,
    ensures
        mention_target_spec(author, opts.push(CommandOption { name: name, value: OptionValue::Text(t) }))
            == Ok::<u64, Seq<char>>(v),
{
    crate::text::parse_reads_decimal(v);
    last_mention_wins(author, opts, name, t);
}

/// The error that `str::parse::<u64>` gives for a text `s` it does not read
/// as a number.
pub uninterp spec fn parse_failure(s: Seq<char>) -> std::num::ParseIntError;

/// Reads `s` as a Discord id. Calls `str::parse::<u64>`, which std documents
/// to accept an optional `+` followed by decimal digits, and to fail on an
/// empty string, on any other character and on a value too large; its error
/// is only named here, as a function of `s`.
#[verifier::external_body]
fn parse_id(s: &str) -> (r: Result<u64, std::num::ParseIntError>)
    ensures
        r is Ok <==> parse_u64_spec(s@) is Some,
        r matches Ok(v) ==> parse_u64_spec(s@) == Some(v),
        r matches Err(e) ==> e == parse_failure(s@),
{
    s.parse::<u64>()
}

/// The Discord user that `/user` is about: the author, or the user given in
/// the last "mention" option. Stops at the first mention that is not an id
/// and returns the error of reading it.
pub fn mention_target(author: u64, options: &Vec<CommandOption>) -> (r: Result<
    u64,
    std::num::ParseIntError,
>)
    requires
        given_values_are_text(options@, "mention"@),
    ensures
        match mention_target_spec(author, options@) {
            Ok(u) => r == Ok::<u64, std::num::ParseIntError>(u),
            Err(t) => r == Err::<u64, std::num::ParseIntError>(parse_failure(t)),
        },
{
    let key = String::from_str("mention");
    let mut user = author;
    let n = options.len();
    for i in 0..n
        invariant
            n == options@.len(),
            key@ == "mention"@,
            given_values_are_text(options@, "mention"@),
            mention_target_spec(author, options@.take(i as int)) == Ok::<u64, Seq<char>>(user),
    {
        assert(options@.take(i + 1).drop_last() =~= options@.take(i as int));
        let o = &options[i];
        if o.name == key {
            match &o.value {
                OptionValue::Text(t) => {
                    match parse_id(t.as_str()) {
                        Ok(v) => {
                            user = v;
                        },
                        Err(e) => {
                            proof {
                                lemma_mention_failure_sticks(author, options@, i as int + 1, t@);
                            }
                            return Err(e);
                        },
                    }
                },
                OptionValue::Missing => {},
                OptionValue::Other => {},
            }
        }
    }
    assert(options@.take(n as int) =~= options@);
    Ok(user)
}

/// Once a mention fails to read, every longer list of options fails with
/// the same text.
proof fn lemma_mention_failure_sticks(
    author: u64,
    opts: Seq<CommandOption>,
    k: int,
    t: Seq<char>,
)
    requires
        0 <= k <= opts.len(),
        mention_target_spec(author, opts.take(k)) == Err::<u64, Seq<char>>(t),
    ensures
        mention_target_spec(author, opts) == Err::<u64, Seq<char>>(t),
    decreases opts.len() - k,
{
    if k < opts.len() {
        assert(opts.take(k + 1).drop_last() =~= opts.take(k));
        lemma_mention_failure_sticks(author, opts, k + 1, t);
    } else {
        assert(opts.take(k) =~= opts);
    }
}

} // verus!
