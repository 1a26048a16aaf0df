//! The embeds the bot answers with: their titles, texts and colours.

use vstd::prelude::*;
use vstd::string::StringExecFns;
use crate::text::{decimal, i64_to_string, signed_decimal, u64_to_string};

verus! {

/// The colour of an embed: the one for game information or the one for
/// errors.
#[derive(Clone, Copy, Debug, PartialEq, Eq, Structural)]
pub enum EmbedColor {
    Game,
    Error,
}

/// An embed of a reply: its title, its text and its colour.
#[derive(Clone, Debug)]
pub struct Embed {
    pub title: String,
    pub description: String,
    pub color: EmbedColor,
}

/// The title of an error embed: the given one, or "Error".
pub open spec fn error_title(title: Option<Seq<char>>) -> Seq<char> {
    match title {
        Some(t) => t,
        None => "Error"@,
    }
}

/// An error embed with the given title (or "Error") and text.
pub fn error(title: Option<String>, desc: String) -> (r: Embed)
    ensures
        r.title@ == error_title(
            match title {
                Some(t) => Some(t@),
                None => None,
            },
        ),
        r.description@ == desc@,
        r.color == EmbedColor::Error,
{
    let t = match title {
        Some(t) => t,
        None => String::from_str("Error"),
    };
    Embed { title: t, description: desc, color: EmbedColor::Error }
}

/// The text of the embed that reports a failed handler: the error as
/// displayed, a blank line, then its debug form in a Rust code block.
pub open spec fn internal_error_text(display: Seq<char>, debug: Seq<char>) -> Seq<char> {
    display + "\n\n```rust\n"@ + debug + "\n```"@
}

/// The embed that reports a failed handler, titled "Internal Error".
pub fn internal_error(display: &str, debug: &str) -> (r: Embed)
    ensures
        r.title@ == "Internal Error"@,
        r.description@ == internal_error_text(display@, debug@),
        r.color == EmbedColor::Error,
{
    let mut text = String::from_str(display);
    text.append("\n\n```rust\n");
    text.append(debug);
    text.append("\n```");
    error(Some(String::from_str("Internal Error")), text)
}

/// The title of a player's profile.
pub open spec fn profile_title(username: Seq<char>) -> Seq<char> {
    "Profile: "@ + username
}

/// The line that names the linked Discord user, if there is one.
pub open spec fn discord_line(discord: Option<u64>) -> Seq<char> {
    match discord {
        Some(d) => "**Discord**: <@"@ + decimal(d as nat) + ">\n"@,
        None => Seq::empty(),
    }
}

/// A star count as shown, or "---" when the player has none.
pub open spec fn stars_text(stars: Option<Seq<char>>) -> Seq<char> {
    match stars {
        Some(s) => s,
        None => "---"@,
    }
}

/// The text of a player's profile.
pub open spec fn profile_text(
    discord: Option<u64>,
    ffa: Option<Seq<char>>,
    duel: Option<Seq<char>>,
    iq: i64,
) -> Seq<char> {
    discord_line(discord) + "**FFA Stars**: "@ + stars_text(ffa) + "\n"@ + "**1v1 Stars**: "@
        + stars_text(duel) + "\n"@ + "**Estimated IQ**: "@ + signed_decimal(iq as int)
}

/// The profile text, line by line: the Discord line when there is a linked
/// user, then "**FFA Stars**: " with the free-for-all stars (or "---"),
/// then "**1v1 Stars**: " with the duel stars (or "---"), each star line
/// taking its own count only, then "**Estimated IQ**: " with the estimate.
pub proof fn profile_text_layout(d: Option<u64>, f: Seq<char>, u: Seq<char>, iq: i64)
    ensures
        profile_text(d, Some(f), Some(u), iq) == discord_line(d) + "**FFA Stars**: "@ + f
            + "\n**1v1 Stars**: "@ + u + "\n**Estimated IQ**: "@ + signed_decimal(iq as int),
        profile_text(d, Some(f), None, iq) == discord_line(d) + "**FFA Stars**: "@ + f
            + "\n**1v1 Stars**: ---\n**Estimated IQ**: "@ + signed_decimal(iq as int),
        profile_text(d, None, Some(u), iq) == discord_line(d)
            + "**FFA Stars**: ---\n**1v1 Stars**: "@ + u + "\n**Estimated IQ**: "@
            + signed_decimal(iq as int),
        profile_text(d, None, None, iq) == discord_line(d)
            + "**FFA Stars**: ---\n**1v1 Stars**: ---\n**Estimated IQ**: "@ + signed_decimal(
            iq as int,
        ),
        discord_line(None) == Seq::<char>::empty(),
        forall|id: u64| #[trigger] discord_line(Some(id)) == "**Discord**: <@"@ + decimal(id as nat) + ">\n"@,
{
    reveal_strlit("**FFA Stars**: ");
    reveal_strlit("\n");
    reveal_strlit("**1v1 Stars**: ");
    reveal_strlit("**Estimated IQ**: ");
    reveal_strlit("---");
    reveal_strlit("\n**1v1 Stars**: ");
    reveal_strlit("\n**Estimated IQ**: ");
    reveal_strlit("\n**1v1 Stars**: ---\n**Estimated IQ**: ");
    reveal_strlit("**FFA Stars**: ---\n**1v1 Stars**: ");
    reveal_strlit("**FFA Stars**: ---\n**1v1 Stars**: ---\n**Estimated IQ**: ");
    let dl = discord_line(d);
    let iqs = signed_decimal(iq as int);
    assert(profile_text(d, Some(f), Some(u), iq) =~= dl + "**FFA Stars**: "@ + f
        + "\n**1v1 Stars**: "@ + u + "\n**Estimated IQ**: "@ + iqs);
    assert(profile_text(d, Some(f), None, iq) =~= dl + "**FFA Stars**: "@ + f
        + "\n**1v1 Stars**: ---\n**Estimated IQ**: "@ + iqs);
    assert(profile_text(d, None, Some(u), iq) =~= dl + "**FFA Stars**: ---\n**1v1 Stars**: "@ + u
        + "\n**Estimated IQ**: "@ + iqs);
    assert(profile_text(d, None, None, iq) =~= dl
        + "**FFA Stars**: ---\n**1v1 Stars**: ---\n**Estimated IQ**: "@ + iqs);
}

/// The view of an optional string.
pub open spec fn opt_view(s: Option<String>) -> Option<Seq<char>> {
    match s {
        Some(t) => Some(t@),
        None => None,
    }
}

/// The profile embed of the player `username`: the Discord user linked to
/// it, the free-for-all and duel star counts as already formatted (none when
/// the player has no stars there), and the estimated IQ.
pub fn profile(
    username: &str,
    discord: Option<u64>,
    ffa: Option<String>,
    duel: Option<String>,
    iq: i64,
) -> (r: Embed)
    ensures
        r.title@ == profile_title(username@),
        r.description@ == profile_text(discord, opt_view(ffa), opt_view(duel), iq),
        r.color == EmbedColor::Game,
{
    let mut title = String::from_str("Profile: ");
    title.append(username);
    let mut text = String::new();
    match discord {
        Some(d) => {
            let id = u64_to_string(d);
            text.append("**Discord**: <@");
            text.append(id.as_str());
            text.append(">\n");
        },
        None => {},
    }
    text.append("**FFA Stars**: ");
    match &ffa {
        Some(s) => text.append(s.as_str()),
        None => text.append("---"),
    }
    text.append("\n");
    text.append("**1v1 Stars**: ");
    match &duel {
        Some(s) => text.append(s.as_str()),
        None => text.append("---"),
    }
    text.append("\n");
    text.append("**Estimated IQ**: ");
    let iq_text = i64_to_string(iq);
    text.append(iq_text.as_str());
    Embed { title, description: text, color: EmbedColor::Game }
}

/// The text that confirms a registration.
pub open spec fn registered_text(username: Seq<char>, discord: u64) -> Seq<char> {
    "Username: "@ + username + "\nDiscord: <@"@ + decimal(discord as nat) + ">"@
}

/// The embed that confirms that `username` was linked to the Discord user
/// `discord`.
pub fn registered(username: &str, discord: u64) -> (r: Embed)
    ensures
        r.title@ == "Registered"@,
        r.description@ == registered_text(username@, discord),
        r.color == EmbedColor::Game,
{
    let mut text = String::from_str("Username: ");
    text.append(username);
    text.append("\nDiscord: <@");
    let id = u64_to_string(discord);
    text.append(id.as_str());
    text.append(">");
    Embed { title: String::from_str("Registered"), description: text, color: EmbedColor::Game }
}

} // verus!
