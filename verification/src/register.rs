//! `/register`: linking a Discord user to a generals.io username.
//!
//! The checks are made in turn; the caller performs each action (a web
//! request, a database query, a reply) and hands back what came of it.

use vstd::prelude::*;
use vstd::string::StringExecFns;
use crate::embeds::{error, registered, registered_text, Embed, EmbedColor};
use crate::text::{lowercase, to_lowercase, url_encode, url_encode_bytes};

verus! {

/// The address that tells whether `username` is a generals.io account.
pub open spec fn validate_url_spec(username: Seq<char>) -> Seq<char> {
    "https://generals.io/api/validateUsername?u="@ + url_encode_bytes(
        vstd::utf8::encode_utf8(username),
    )
}

/// The address that lists at most one replay of `username`.
pub open spec fn replays_url_spec(username: Seq<char>) -> Seq<char> {
    "https://generals.io/api/replaysForUsername?u="@ + url_encode_bytes(
        vstd::utf8::encode_utf8(username),
    ) + "&offset=0&count=1"@
}

/// The address of the stars and ranks of `username`.
pub open spec fn stars_url_spec(username: Seq<char>) -> Seq<char> {
    "https://generals.io/api/starsAndRanks?u="@ + url_encode_bytes(
        vstd::utf8::encode_utf8(username),
    )
}

/// The address that tells whether `username` is a generals.io account.
pub fn validate_url(username: &str) -> (r: String)
    ensures
        r@ == validate_url_spec(username@),
{
    let mut url = String::from_str("https://generals.io/api/validateUsername?u=");
    let enc = url_encode(username);
    url.append(enc.as_str());
    url
}

/// The address that lists at most one replay of `username`.
pub fn replays_url(username: &str) -> (r: String)
    ensures
        r@ == replays_url_spec(username@),
{
    let mut url = String::from_str("https://generals.io/api/replaysForUsername?u=");
    let enc = url_encode(username);
    url.append(enc.as_str());
    url.append("&offset=0&count=1");
    url
}

/// The address of the stars and ranks of `username`.
pub fn stars_url(username: &str) -> (r: String)
    ensures
        r@ == stars_url_spec(username@),
{
    let mut url = String::from_str("https://generals.io/api/starsAndRanks?u=");
    let enc = url_encode(username);
    url.append(enc.as_str());
    url
}

/// The prefix that a username must begin with, in lower case, to be
/// registered.
pub open spec fn tier_prefix() -> Seq<char> {
    seq!['[', 'b', '-', 't', 'i', 'e', 'r', ']']
}

/// Whether `s` begins with `p`.
pub open spec fn starts_with(s: Seq<char>, p: Seq<char>) -> bool {
    p.len() <= s.len() && s.take(p.len() as int) == p
}

/// The prefix is the eight characters of "[b-tier]".
pub proof fn tier_prefix_is_b_tier()
    ensures
        tier_prefix() == "[b-tier]"@,
        tier_prefix().len() == 8,
{
    reveal_strlit("[b-tier]");
    assert(tier_prefix() =~= "[b-tier]"@);
}

/// `s` begins with `p` exactly when `s` is at least as long and its first
/// `p.len()` characters are those of `p`.
pub proof fn starts_with_is_literal_prefix(s: Seq<char>, p: Seq<char>)
    ensures
        starts_with(s, p) <==> (s.len() >= p.len() && s.subrange(0, p.len() as int) == p),
        starts_with(s, p) ==> forall|k: int| 0 <= k < p.len() ==> s[k] == p[k],
{
    if s.len() >= p.len() {
        assert(s.take(p.len() as int) =~= s.subrange(0, p.len() as int));
    }
    if starts_with(s, p) {
        assert forall|k: int| 0 <= k < p.len() implies s[k] == p[k] by {
            assert(s.take(p.len() as int)[k] == s[k]);
        }
    }
}

/// Every name made of "[b-tier]" followed by anything passes the check.
pub proof fn b_tier_names_pass(rest: Seq<char>)
    ensures
        starts_with(tier_prefix() + rest, tier_prefix()),
{
    assert((tier_prefix() + rest).take(8) =~= tier_prefix());
}

/// A lower-case name whose characters differ from "[b-tier]" at any of its
/// first eight places, such as "[a-tier]bob", fails the check; so does a
/// name shorter than eight characters.
pub proof fn other_names_fail(s: Seq<char>, k: int)
    requires
        s.len() < 8 || (0 <= k < 8 && s[k] != "[b-tier]"@[k]),
    ensures
        !starts_with(s, tier_prefix()),
{
    tier_prefix_is_b_tier();
    starts_with_is_literal_prefix(s, tier_prefix());
}

/// Whether `lowered`, a username in lower case, begins with "[b-tier]".
pub fn has_tier_prefix(lowered: &str) -> (r: bool)
    ensures
        r == starts_with(lowered@, tier_prefix()),
{
    let p: [char; 8] = ['[', 'b', '-', 't', 'i', 'e', 'r', ']'];
    assert(p@ =~= tier_prefix());
    let n = lowered.unicode_len();
    if n < 8 {
        return false;
    }
    let mut i: usize = 0;
    while i < 8
        invariant
            i <= 8,
            8 <= n,
            n == lowered@.len(),
            p@ == tier_prefix(),
            forall|k: int| 0 <= k < i ==> lowered@[k] == p@[k],
        decreases 8 - i,
    {
        if lowered.get_char(i) != p[i] {
            assert(lowered@.take(8)[i as int] != tier_prefix()[i as int]);
            return false;
        }
        i = i + 1;
    }
    assert(lowered@.take(8) =~= tier_prefix());
    true
}

/// Where a registration stands: waiting for the answer of the generals.io
/// account check, of the replay check, of the database lookup, of the
/// database insert, or finished.
#[derive(Clone, Copy, Debug, PartialEq, Eq, Structural)]
pub enum RegisterStage {
    ValidateName,
    CheckReplays,
    CheckDatabase,
    Inserting,
    Finished,
}

/// What came of the last action.
#[derive(Clone, Copy, Debug, PartialEq, Eq, Structural)]
pub enum RegisterEvent {
    /// The account check answered: `Some(b)` when its answer was the
    /// boolean `b`, `None` when it was not a boolean.
    NameChecked(Option<bool>),
    /// The replay list came back: `Some(n)` when it was a list of `n`
    /// replays, `None` when it was not a list.
    ReplaysChecked(Option<usize>),
    /// The database lookup: whether the Discord user already has a username,
    /// and whether the username already has a Discord user.
    Looked { has_discord: bool, has_username: bool },
    /// The new link was written to the database.
    Inserted,
}

/// What to do next.
#[derive(Clone, Debug)]
pub enum RegisterAction {
    /// Answer with this error embed; the registration is over.
    Refuse(Embed),
    /// Fetch this address and hand back its JSON answer.
    Fetch(String),
    /// Look up both sides of the link in the database.
    Lookup { discord: u64, username: String },
    /// Write the link to the database.
    Insert { discord: u64, username: String },
    /// Answer with this embed; the registration is over.
    Confirm(Embed),
    /// The event does not belong to this stage: nothing to do.
    Nothing,
}

/// A registration of `username` for the Discord user `discord`.
#[derive(Clone, Debug)]
pub struct Registration {
    pub username: String,
    pub discord: u64,
    pub stage: RegisterStage,
}

/// The stage after `e` happened in stage `s`.
pub open spec fn next_stage(s: RegisterStage, e: RegisterEvent) -> RegisterStage {
    match (s, e) {
        (RegisterStage::ValidateName, RegisterEvent::NameChecked(v)) => {
            if v == Some(true) {
                RegisterStage::CheckReplays
            } else {
                RegisterStage::Finished
            }
        },
        (RegisterStage::CheckReplays, RegisterEvent::ReplaysChecked(n)) => {
            if n == Some(1usize) {
                RegisterStage::CheckDatabase
            } else {
                RegisterStage::Finished
            }
        },
        (RegisterStage::CheckDatabase, RegisterEvent::Looked { has_discord, has_username }) => {
            if has_discord || has_username {
                RegisterStage::Finished
            } else {
                RegisterStage::Inserting
            }
        },
        (RegisterStage::Inserting, RegisterEvent::Inserted) => RegisterStage::Finished,
        _ => s,
    }
}

/// Whether `e` is the answer that stage `s` waits for.
pub open spec fn expected(s: RegisterStage, e: RegisterEvent) -> bool {
    match (s, e) {
        (RegisterStage::ValidateName, RegisterEvent::NameChecked(_)) => true,
        (RegisterStage::CheckReplays, RegisterEvent::ReplaysChecked(_)) => true,
        (RegisterStage::CheckDatabase, RegisterEvent::Looked { .. }) => true,
        (RegisterStage::Inserting, RegisterEvent::Inserted) => true,
        _ => false,
    }
}

/// The stage reached from `s` after the events `evs`, one after another.
pub open spec fn run_stages(s: RegisterStage, evs: Seq<RegisterEvent>) -> RegisterStage
    decreases evs.len(),
{
    if evs.len() == 0 {
        s
    } else {
        next_stage(run_stages(s, evs.drop_last()), evs.last())
    }
}

/// Whether the account was confirmed among `evs`.
pub open spec fn name_confirmed(evs: Seq<RegisterEvent>) -> bool {
    exists|i: int| 0 <= i < evs.len() && evs[i] == RegisterEvent::NameChecked(Some(true))
}

/// Whether the account was confirmed and then found to have exactly one
/// replay among `evs`.
pub open spec fn replays_confirmed(evs: Seq<RegisterEvent>) -> bool {
    exists|i: int, j: int|
        0 <= i < j < evs.len() && evs[i] == RegisterEvent::NameChecked(Some(true)) && evs[j]
            == RegisterEvent::ReplaysChecked(Some(1))
}

/// Whether, among `evs`, the account was confirmed, then found to have
/// exactly one replay, then found in the database neither by its Discord
/// user nor by its username.
pub open spec fn all_checks_passed(evs: Seq<RegisterEvent>) -> bool {
    exists|i: int, j: int, k: int|
        0 <= i < j < k < evs.len() && evs[i] == RegisterEvent::NameChecked(Some(true)) && evs[j]
            == RegisterEvent::ReplaysChecked(Some(1)) && evs[k] == (RegisterEvent::Looked {
            has_discord: false,
            has_username: false,
        })
}

/// What the stage reached from the account check says of the events seen.
proof fn lemma_stage_history(evs: Seq<RegisterEvent>)
    ensures
        run_stages(RegisterStage::ValidateName, evs) == RegisterStage::CheckReplays
            ==> name_confirmed(evs),
        run_stages(RegisterStage::ValidateName, evs) == RegisterStage::CheckDatabase
            ==> replays_confirmed(evs),
        run_stages(RegisterStage::ValidateName, evs) == RegisterStage::Inserting
            ==> all_checks_passed(evs),
    decreases evs.len(),
{
    if evs.len() > 0 {
        let pre = evs.drop_last();
        let e = evs.last();
        let n = evs.len() - 1;
        lemma_stage_history(pre);
        let s0 = run_stages(RegisterStage::ValidateName, pre);
        let s1 = run_stages(RegisterStage::ValidateName, evs);
        assert(s1 == next_stage(s0, e));
        if s1 == RegisterStage::CheckReplays {
            if s0 == RegisterStage::CheckReplays {
                let i = choose|i: int| 0 <= i < pre.len() && pre[i] == RegisterEvent::NameChecked(Some(true));
                assert(evs[i] == pre[i]);
            } else {
                assert(evs[n] == RegisterEvent::NameChecked(Some(true)));
            }
        }
        if s1 == RegisterStage::CheckDatabase {
            if s0 == RegisterStage::CheckDatabase {
                let (i, j) = choose|i: int, j: int|
                    0 <= i < j < pre.len() && pre[i] == RegisterEvent::NameChecked(Some(true))
                        && pre[j] == RegisterEvent::ReplaysChecked(Some(1));
                assert(evs[i] == pre[i] && evs[j] == pre[j]);
            } else {
                assert(s0 == RegisterStage::CheckReplays);
                let i = choose|i: int| 0 <= i < pre.len() && pre[i] == RegisterEvent::NameChecked(Some(true));
                assert(evs[i] == pre[i]);
                assert(evs[n] == RegisterEvent::ReplaysChecked(Some(1)));
            }
        }
        if s1 == RegisterStage::Inserting {
            if s0 == RegisterStage::Inserting {
                let (i, j, k) = choose|i: int, j: int, k: int|
                    0 <= i < j < k < pre.len() && pre[i] == RegisterEvent::NameChecked(Some(true))
                        && pre[j] == RegisterEvent::ReplaysChecked(Some(1)) && pre[k] == (
                    RegisterEvent::Looked { has_discord: false, has_username: false });
                assert(evs[i] == pre[i] && evs[j] == pre[j] && evs[k] == pre[k]);
            } else {
                assert(s0 == RegisterStage::CheckDatabase);
                let (i, j) = choose|i: int, j: int|
                    0 <= i < j < pre.len() && pre[i] == RegisterEvent::NameChecked(Some(true))
                        && pre[j] == RegisterEvent::ReplaysChecked(Some(1));
                assert(evs[i] == pre[i] && evs[j] == pre[j]);
                assert(evs[n] == (RegisterEvent::Looked { has_discord: false, has_username: false }));
            }
        }
    }
}

/// A registration whose username passed the "[b-tier]" check writes its
/// link to the database only after the account was confirmed to exist, then
/// found to have played a game, then found unregistered on both sides: for
/// any answers `evs` handed to `step` one after another, the step that
/// issues the insert (the one that reaches the insert stage) comes after
/// those three answers, in that order.
pub proof fn insert_only_after_all_checks(evs: Seq<RegisterEvent>)
    requires
        run_stages(RegisterStage::ValidateName, evs) == RegisterStage::Inserting,
    ensures
        all_checks_passed(evs),
{
    lemma_stage_history(evs);
}

/// A finished registration stays finished, whatever is handed to it.
pub proof fn finished_stays_finished(evs: Seq<RegisterEvent>)
    ensures
        run_stages(RegisterStage::Finished, evs) == RegisterStage::Finished,
    decreases evs.len(),
{
    if evs.len() > 0 {
        finished_stays_finished(evs.drop_last());
    }
}

/// Whether an action is an error answer with the title "Register Error" and
/// the text `text`.
pub open spec fn refuses_with(a: RegisterAction, text: Seq<char>) -> bool {
    match a {
        RegisterAction::Refuse(e) => {
            &&& e.title@ == "Register Error"@
            &&& e.description@ == text
            &&& e.color == EmbedColor::Error
        },
        _ => false,
    }
}

/// The error embed of a refused registration.
fn refusal(text: &str) -> (r: RegisterAction)
    ensures
        refuses_with(r, text@),
{
    let e = error(Some(String::from_str("Register Error")), String::from_str(text));
    RegisterAction::Refuse(e)
}

impl Registration {
    /// Begins registering `username` for `discord`, given `lowered`, the
    /// username in lower case: the username must begin with "[b-tier]",
    /// else the registration is refused; then the account is checked.
    pub fn start_lowered(username: String, lowered: &str, discord: u64) -> (r: (
        Registration,
        RegisterAction,
    ))
        ensures
            r.0.username@ == username@,
            r.0.discord == discord,
            starts_with(lowered@, tier_prefix()) ==> {
                &&& r.0.stage == RegisterStage::ValidateName
                &&& r.1 matches RegisterAction::Fetch(url) && url@ == validate_url_spec(username@)
            },
            !starts_with(lowered@, tier_prefix()) ==> {
                &&& r.0.stage == RegisterStage::Finished
                &&& refuses_with(r.1, "generals.io username does not begin with [B-tier]"@)
            },
    {
        if !has_tier_prefix(lowered) {
            let a = refusal("generals.io username does not begin with [B-tier]");
            (Registration { username, discord, stage: RegisterStage::Finished }, a)
        } else {
            let url = validate_url(username.as_str());
            (Registration { username, discord, stage: RegisterStage::ValidateName }, RegisterAction::Fetch(url))
        }
    }

    /// Begins registering `username` for `discord`: the lower-case form of
    /// the username must begin with "[b-tier]", else the registration is
    /// refused; then the account is checked.
    pub fn start(username: String, discord: u64) -> (r: (Registration, RegisterAction))
        ensures
            r.0.username@ == username@,
            r.0.discord == discord,
            starts_with(lowercase(username@), tier_prefix()) ==> {
                &&& r.0.stage == RegisterStage::ValidateName
                &&& r.1 matches RegisterAction::Fetch(url) && url@ == validate_url_spec(username@)
            },
            !starts_with(lowercase(username@), tier_prefix()) ==> {
                &&& r.0.stage == RegisterStage::Finished
                &&& refuses_with(r.1, "generals.io username does not begin with [B-tier]"@)
            },
    {
        let lowered = to_lowercase(username.as_str());
        Self::start_lowered(username, lowered.as_str(), discord)
    }

    /// The event that the JSON answer of a fetch stands for in this stage:
    /// while the account is checked, its boolean value (`as_bool`, none when
    /// it is not a boolean); otherwise the length of the replay list
    /// (`list_len`, none when it is not a list).
    pub fn fetch_answer(&self, as_bool: Option<bool>, list_len: Option<usize>) -> (r: RegisterEvent)
        ensures
            self.stage == RegisterStage::ValidateName ==> r == RegisterEvent::NameChecked(as_bool),
            self.stage != RegisterStage::ValidateName ==> r == RegisterEvent::ReplaysChecked(
                list_len,
            ),
    {
        match self.stage {
            RegisterStage::ValidateName => RegisterEvent::NameChecked(as_bool),
            _ => RegisterEvent::ReplaysChecked(list_len),
        }
    }

    /// Takes the answer `event` to the last action and says what to do next.
    pub fn step(self, event: RegisterEvent) -> (r: (Registration, RegisterAction))
        ensures
            r.0.username == self.username,
            r.0.discord == self.discord,
            r.0.stage == next_stage(self.stage, event),
            !expected(self.stage, event) ==> r.1 is Nothing,
            r.1 is Insert <==> (self.stage == RegisterStage::CheckDatabase && event == (
            RegisterEvent::Looked { has_discord: false, has_username: false })),
            self.stage == RegisterStage::ValidateName && event == RegisterEvent::NameChecked(
                Some(true),
            ) ==> (r.1 matches RegisterAction::Fetch(url) && url@ == replays_url_spec(
                self.username@,
            )),
            (self.stage == RegisterStage::ValidateName && event is NameChecked && event
                != RegisterEvent::NameChecked(Some(true))) ==> refuses_with(
                r.1,
                "generals.io username does not exist"@,
            ),
            self.stage == RegisterStage::CheckReplays && event == RegisterEvent::ReplaysChecked(
                Some(1),
            ) ==> (r.1 matches RegisterAction::Lookup { discord, username } && discord
                == self.discord && username@ == self.username@),
            (self.stage == RegisterStage::CheckReplays && event is ReplaysChecked && event
                != RegisterEvent::ReplaysChecked(Some(1))) ==> refuses_with(
                r.1,
                "generals.io username does not have games"@,
            ),
            self.stage == RegisterStage::CheckDatabase && event == (RegisterEvent::Looked {
                has_discord: false,
                has_username: false,
            }) ==> (r.1 matches RegisterAction::Insert { discord, username } && discord
                == self.discord && username@ == self.username@),
            (self.stage == RegisterStage::CheckDatabase && event is Looked && event
                != (RegisterEvent::Looked { has_discord: false, has_username: false }))
                ==> refuses_with(
                r.1,
                "generals.io username or discord user already registered"@,
            ),
            self.stage == RegisterStage::Inserting && event == RegisterEvent::Inserted
                ==> (r.1 matches RegisterAction::Confirm(e) && e.title@ == "Registered"@
                && e.description@ == registered_text(self.username@, self.discord) && e.color
                == EmbedColor::Game),
    {
        let stage = self.stage;
        match (stage, event) {
            (RegisterStage::ValidateName, RegisterEvent::NameChecked(v)) => {
                if v == Some(true) {
                    let url = replays_url(self.username.as_str());
                    (Registration { stage: RegisterStage::CheckReplays, ..self }, RegisterAction::Fetch(url))
                } else {
                    let a = refusal("generals.io username does not exist");
                    (Registration { stage: RegisterStage::Finished, ..self }, a)
                }
            },
            (RegisterStage::CheckReplays, RegisterEvent::ReplaysChecked(n)) => {
                if n == Some(1usize) {
                    let a = RegisterAction::Lookup {
                        discord: self.discord,
                        username: self.username.clone(),
                    };
                    (Registration { stage: RegisterStage::CheckDatabase, ..self }, a)
                } else {
                    let a = refusal("generals.io username does not have games");
                    (Registration { stage: RegisterStage::Finished, ..self }, a)
                }
            },
            (RegisterStage::CheckDatabase, RegisterEvent::Looked { has_discord, has_username }) => {
                if has_discord || has_username {
                    let a = refusal("generals.io username or discord user already registered");
                    (Registration { stage: RegisterStage::Finished, ..self }, a)
                } else {
                    let a = RegisterAction::Insert {
                        discord: self.discord,
                        username: self.username.clone(),
                    };
                    (Registration { stage: RegisterStage::Inserting, ..self }, a)
                }
            },
            (RegisterStage::Inserting, RegisterEvent::Inserted) => {
                let e = registered(self.username.as_str(), self.discord);
                (Registration { stage: RegisterStage::Finished, ..self }, RegisterAction::Confirm(e))
            },
            _ => (self, RegisterAction::Nothing),
        }
    }
}

} // verus!
