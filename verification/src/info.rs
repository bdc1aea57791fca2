//! What is read from the system, once it has been read: remembered values,
//! the range of user identifiers, the accounts.

use vstd::prelude::*;
use vstd::string::*;

use crate::numbers::{decimal_text, format_number, parse_u16, parse_usize, parsed_u16, parsed_usize};
use crate::text::{
    chain, is_space, replace, same_text, spec_replace, spec_split, spec_trim, spec_trim_start,
    split, trim, trim_start, unicode_whitespace,
};
use crate::users::{User, UserView};

verus! {

/// The least user identifier of the user menu, unless one is given.
pub const DEFAULT_MIN_UID: u16 = 1000;

/// The greatest user identifier of the user menu, unless one is given.
pub const DEFAULT_MAX_UID: u16 = 60000;

/// A value that was written down, as it is read back: without the white
/// space around it, and nothing if nothing else is left or nothing was
/// read.
pub open spec fn remembered_value(content: Option<Seq<char>>) -> Option<Seq<char>> {
    match content {
        Some(content) => if spec_trim(content).len() == 0 {
            None
        } else {
            Some(spec_trim(content))
        },
        None => None,
    }
}

/// Reads back a value that was written down.
fn read_value(content: &Option<String>) -> (r: Option<String>)
    ensures
        r.deep_view() == remembered_value(content.deep_view()),
{
    match content {
        Some(content) => {
            let value = trim(content.as_str());
            if value.unicode_len() == 0 {
                None
            } else {
                Some(String::from_str(value))
            }
        },
        None => None,
    }
}

/// The login name of the user who logged in last, from the content of the
/// file that remembers it.
pub fn get_last_user_username(content: &Option<String>) -> (r: Option<String>)
    ensures
        r.deep_view() == remembered_value(content.deep_view()),
{
    read_value(content)
}

/// The full name of the user who logged in last, from the content of the
/// file that remembers it.
pub fn get_last_user_name(content: &Option<String>) -> (r: Option<String>)
    ensures
        r.deep_view() == remembered_value(content.deep_view()),
{
    read_value(content)
}

/// The number of characters before the first white space of a text.
pub open spec fn word_end(text: Seq<char>) -> int
    decreases text.len(),
{
    if text.len() == 0 || unicode_whitespace(text.first()) {
        0
    } else {
        1 + word_end(text.drop_first())
    }
}

/// The first word of a text: the characters between the white space at its
/// start and the white space that follows. Nothing if the text is white
/// space only.
pub open spec fn first_word(text: Seq<char>) -> Option<Seq<char>> {
    let rest = spec_trim_start(text);
    if rest.len() == 0 {
        None
    } else {
        Some(rest.take(word_end(rest)))
    }
}

/// What follows the first word of a text.
pub open spec fn after_first_word(text: Seq<char>) -> Seq<char> {
    let rest = spec_trim_start(text);
    rest.skip(word_end(rest))
}

/// The second word of a text.
pub open spec fn second_word(text: Seq<char>) -> Option<Seq<char>> {
    first_word(after_first_word(text))
}

/// The number of characters before the first white space.
fn word_length(text: &str) -> (r: usize)
    ensures
        r == word_end(text@),
        r <= text@.len(),
{
    let n = text.unicode_len();
    let mut i: usize = 0;
    assert(text@.subrange(0, n as int) == text@);
    while i < n && !is_space(text.get_char(i))
        invariant
            i <= n == text@.len(),
            word_end(text@) == i + word_end(text@.subrange(i as int, n as int)),
        decreases n - i,
    {
        assert(text@.subrange(i as int, n as int).drop_first() == text@.subrange(i + 1, n as int));
        i += 1;
    }
    i
}

/// Splits off the first word of a text.
fn take_word(text: &str) -> (r: (Option<&str>, &str))
    ensures
        r.0.deep_view() == first_word(text@),
        r.1@ == after_first_word(text@),
{
    let rest = trim_start(text);
    let n = rest.unicode_len();
    let end = word_length(rest);
    let after = rest.substring_char(end, n);
    if n == 0 {
        (None, after)
    } else {
        (Some(rest.substring_char(0, end)), after)
    }
}

/// The range of user identifiers after one line of the file that defines
/// it: a line whose first word is `UID_MIN` sets the least identifier to
/// the number that follows, and a line whose first word is `UID_MAX` the
/// greatest, unless that end of the range was given (`given_min`,
/// `given_max`) or what follows is not a number.
pub open spec fn uids_after_line(
    uids: (u16, u16),
    given_min: bool,
    given_max: bool,
    line: Seq<char>,
) -> (u16, u16) {
    match (first_word(line), second_word(line)) {
        (Some(key), Some(value)) => if !given_min && key == "UID_MIN"@ {
            match parsed_u16(value) {
                Some(min) => (min, uids.1),
                None => uids,
            }
        } else if !given_max && key == "UID_MAX"@ {
            match parsed_u16(value) {
                Some(max) => (uids.0, max),
                None => uids,
            }
        } else {
            uids
        },
        _ => uids,
    }
}

/// The range of user identifiers after the lines of the file that defines
/// it, taken in order.
pub open spec fn uids_after_lines(
    uids: (u16, u16),
    given_min: bool,
    given_max: bool,
    lines: Seq<Seq<char>>,
) -> (u16, u16)
    decreases lines.len(),
{
    if lines.len() == 0 {
        uids
    } else {
        uids_after_line(
            uids_after_lines(uids, given_min, given_max, lines.drop_last()),
            given_min,
            given_max,
            lines.last(),
        )
    }
}

/// The range of user identifiers of the user menu.
///
/// Where both ends are given, they are the range. Else each end that is
/// given stands, and the other is what the file that defines the range for
/// the system says last, or 1000 and 60000 where it says nothing or could
/// not be read.
pub open spec fn uid_range(min_uid: Option<u16>, max_uid: Option<u16>, login_defs: Option<Seq<char>>) -> (
    u16,
    u16,
) {
    let default = (
        match min_uid {
            Some(min) => min,
            None => DEFAULT_MIN_UID,
        },
        match max_uid {
            Some(max) => max,
            None => DEFAULT_MAX_UID,
        },
    );
    match login_defs {
        Some(content) => if min_uid is Some && max_uid is Some {
            default
        } else {
            uids_after_lines(default, min_uid is Some, max_uid is Some, spec_split(content, '\n'))
        },
        None => default,
    }
}

/// Applies one line of the file that defines the range of user identifiers.
fn apply_line(uids: (u16, u16), given_min: bool, given_max: bool, line: &str) -> (r: (u16, u16))
    ensures
        r == uids_after_line(uids, given_min, given_max, line@),
{
    let (key, rest) = take_word(line);
    let (value, _) = take_word(rest);
    match (key, value) {
        (Some(key), Some(value)) => {
            if !given_min && same_text(key, "UID_MIN") {
                match parse_u16(value) {
                    Some(min) => (min, uids.1),
                    None => uids,
                }
            } else if !given_max && same_text(key, "UID_MAX") {
                match parse_u16(value) {
                    Some(max) => (uids.0, max),
                    None => uids,
                }
            } else {
                uids
            }
        },
        _ => uids,
    }
}

/// Determines the range of user identifiers of the user menu, from the ends
/// that are given and the content of the file that defines the range for the
/// system, if it could be read.
pub fn get_min_max_uids(min_uid: Option<u16>, max_uid: Option<u16>, login_defs: &Option<String>) -> (r: (
    u16,
    u16,
))
    ensures
        r == uid_range(min_uid, max_uid, login_defs.deep_view()),
{
    let default = (
        match min_uid {
            Some(min) => min,
            None => DEFAULT_MIN_UID,
        },
        match max_uid {
            Some(max) => max,
            None => DEFAULT_MAX_UID,
        },
    );
    if min_uid.is_some() && max_uid.is_some() {
        return default;
    }
    match login_defs {
        None => default,
        Some(content) => {
            let lines = split(content.as_str(), '\n');
            let ghost all = lines.deep_view();
            let mut uids = default;
            let mut i: usize = 0;
            assert(all.subrange(0, 0) =~= Seq::<Seq<char>>::empty());
            while i < lines.len()
                invariant
                    i <= lines.len(),
                    all == lines.deep_view(),
                    uids == uids_after_lines(
                        default,
                        min_uid is Some,
                        max_uid is Some,
                        all.subrange(0, i as int),
                    ),
                decreases lines.len() - i,
            {
                assert(all.subrange(0, i + 1).drop_last() == all.subrange(0, i as int));
                assert(all.subrange(0, i + 1).last() == lines[i as int]@);
                uids = apply_line(uids, min_uid.is_some(), max_uid.is_some(), lines[i].as_str());
                i += 1;
            }
            assert(all.subrange(0, lines.len() as int) == all);
            uids
        },
    }
}

/// An account of the system.
pub struct Account {
    /// The user identifier.
    pub uid: u32,
    /// The login name.
    pub name: String,
    /// The description of the account: the full name of the user, which
    /// other fields may follow, separated by commas.
    pub gecos: String,
}

/// The mathematical content of an [`Account`].
pub struct AccountView {
    pub uid: u32,
    pub name: Seq<char>,
    pub gecos: Seq<char>,
}

impl View for Account {
    type V = AccountView;

    open spec fn view(&self) -> AccountView {
        AccountView { uid: self.uid, name: self.name@, gecos: self.gecos@ }
    }
}

impl DeepView for Account {
    type V = AccountView;

    open spec fn deep_view(&self) -> AccountView {
        self@
    }
}

/// The number of characters before the first comma of a text.
pub open spec fn comma_position(text: Seq<char>) -> int
    decreases text.len(),
{
    if text.len() == 0 || text.first() == ',' {
        0
    } else {
        1 + comma_position(text.drop_first())
    }
}

/// The full name that a description holds: what stands before its first
/// comma. An empty description holds none.
pub open spec fn full_name(gecos: Seq<char>) -> Option<Seq<char>> {
    if gecos.len() == 0 {
        None
    } else {
        Some(gecos.take(comma_position(gecos)))
    }
}

/// The entry of the user menu for an account.
pub open spec fn user_of(account: AccountView) -> UserView {
    UserView { username: account.name, name: full_name(account.gecos) }
}

/// The users that the user menu lists: one for each account whose
/// identifier is between `min_uid` and `max_uid`, in the order of the
/// accounts.
pub open spec fn listed_users(accounts: Seq<AccountView>, min_uid: u16, max_uid: u16) -> Seq<UserView>
    decreases accounts.len(),
{
    if accounts.len() == 0 {
        Seq::empty()
    } else {
        let before = listed_users(accounts.drop_last(), min_uid, max_uid);
        if min_uid <= accounts.last().uid <= max_uid {
            before.push(user_of(accounts.last()))
        } else {
            before
        }
    }
}

/// The full name that a description holds.
fn name_of(gecos: &str) -> (r: Option<String>)
    ensures
        r.deep_view() == full_name(gecos@),
{
    let n = gecos.unicode_len();
    if n == 0 {
        return None;
    }
    let mut i: usize = 0;
    assert(gecos@.subrange(0, n as int) == gecos@);
    while i < n && gecos.get_char(i) != ','
        invariant
            i <= n == gecos@.len(),
            comma_position(gecos@) == i + comma_position(gecos@.subrange(i as int, n as int)),
        decreases n - i,
    {
        assert(gecos@.subrange(i as int, n as int).drop_first() == gecos@.subrange(i + 1, n as int));
        i += 1;
    }
    Some(String::from_str(gecos.substring_char(0, i)))
}

/// Lists the users of the user menu: the accounts whose identifier is
/// between `min_uid` and `max_uid`.
pub fn get_users(accounts: &Vec<Account>, min_uid: u16, max_uid: u16) -> (r: Vec<User>)
    ensures
        r.deep_view() == listed_users(accounts.deep_view(), min_uid, max_uid),
{
    let ghost all = accounts.deep_view();
    let mut users: Vec<User> = Vec::new();
    let mut i: usize = 0;
    assert(users.deep_view() =~= listed_users(all.subrange(0, 0), min_uid, max_uid));
    while i < accounts.len()
        invariant
            i <= accounts.len(),
            all == accounts.deep_view(),
            users.deep_view() == listed_users(all.subrange(0, i as int), min_uid, max_uid),
        decreases accounts.len() - i,
    {
        assert(all.subrange(0, i + 1).drop_last() == all.subrange(0, i as int));
        assert(all.subrange(0, i + 1).last() == accounts[i as int]@);
        let account = &accounts[i];
        if account.uid >= min_uid as u32 && account.uid <= max_uid as u32 {
            let ghost before = users.deep_view();
            let user = User {
                username: account.name.clone(),
                name: name_of(account.gecos.as_str()),
            };
            users.push(user);
            assert(users.deep_view() =~= before.push(user_of(account@)));
        }
        i += 1;
    }
    assert(all.subrange(0, accounts.len() as int) == all);
    users
}

/// A remembered session as it is read back: the content of the file that
/// remembers it, without the white space around it; nothing if nothing was
/// read.
pub open spec fn remembered_session(content: Option<Seq<char>>) -> Option<Seq<char>> {
    match content {
        Some(content) => Some(spec_trim(content)),
        None => None,
    }
}

/// Reads back a remembered session.
fn read_session(content: &Option<String>) -> (r: Option<String>)
    ensures
        r.deep_view() == remembered_session(content.deep_view()),
{
    match content {
        Some(content) => Some(String::from_str(trim(content.as_str()))),
        None => None,
    }
}

/// The path of the session file that was launched last, from the content
/// of the file that remembers it.
pub fn get_last_session_path(content: &Option<String>) -> (r: Option<String>)
    ensures
        r.deep_view() == remembered_session(content.deep_view()),
{
    read_session(content)
}

/// The command that was launched last, from the content of the file that
/// remembers it.
pub fn get_last_command(content: &Option<String>) -> (r: Option<String>)
    ensures
        r.deep_view() == remembered_session(content.deep_view()),
{
    read_session(content)
}

/// The path of the session file that a user launched last, from the content
/// of the file that remembers it.
pub fn get_last_user_session(content: &Option<String>) -> (r: Option<String>)
    ensures
        r.deep_view() == remembered_session(content.deep_view()),
{
    read_session(content)
}

/// The command that a user launched last, from the content of the file that
/// remembers it.
pub fn get_last_user_command(content: &Option<String>) -> (r: Option<String>)
    ensures
        r.deep_view() == remembered_session(content.deep_view()),
{
    read_session(content)
}

/// What the operating system says of itself.
pub struct Uts {
    pub sysname: String,
    pub release: String,
    pub version: String,
    pub nodename: String,
    pub machine: String,
    pub domainname: String,
}

/// What the escape sequences of an issue file stand for.
pub struct IssueFacts {
    /// The date.
    pub date: String,
    /// The time.
    pub time: String,
    /// The number of users who are logged in.
    pub users: usize,
    /// The number of the virtual terminal, as the environment gives it.
    pub vtnr: Option<String>,
    /// What the operating system says of itself, if it says anything.
    pub uts: Option<Uts>,
}

/// The number of users in words.
pub open spec fn user_count(users: usize) -> Seq<char> {
    if users < 2 {
        decimal_text(users as nat) + " user"@
    } else {
        decimal_text(users as nat) + " users"@
    }
}

/// The name of the terminal: `tty` and the number of the virtual terminal,
/// 0 where the environment gives none.
pub open spec fn terminal_name(vtnr: Option<String>) -> Seq<char> {
    let number = match vtnr {
        Some(text) => match parsed_usize(text@) {
            Some(number) => number,
            None => 0,
        },
        None => 0,
    };
    "tty"@ + decimal_text(number as nat)
}

/// An issue with the escape sequences for the system replaced.
pub open spec fn issue_with_uts(issue: Seq<char>, uts: Option<Uts>) -> Seq<char> {
    match uts {
        Some(uts) => {
            let a = spec_replace(issue, "\\s"@, uts.sysname@);
            let b = spec_replace(a, "\\r"@, uts.release@);
            let c = spec_replace(b, "\\v"@, uts.version@);
            let d = spec_replace(c, "\\n"@, uts.nodename@);
            let e = spec_replace(d, "\\m"@, uts.machine@);
            spec_replace(e, "\\o"@, uts.domainname@)
        },
        None => issue,
    }
}

/// An issue with the escape sequences for colors replaced by the escape
/// character, and two backslashes by one.
pub open spec fn issue_unescaped(issue: Seq<char>) -> Seq<char> {
    let a = spec_replace(issue, "\\x1b"@, "\x1b"@);
    let b = spec_replace(a, "\\033"@, "\x1b"@);
    let c = spec_replace(b, "\\e"@, "\x1b"@);
    spec_replace(c, "\\\\"@, "\\"@)
}

/// The issue of the host as it is shown: each escape sequence is replaced
/// by what it stands for, one kind of sequence after the other.
pub open spec fn shown_issue(issue: Seq<char>, facts: IssueFacts) -> Seq<char> {
    let a = spec_replace(issue, "\\S"@, "Linux"@);
    let b = spec_replace(a, "\\l"@, terminal_name(facts.vtnr));
    let c = spec_replace(b, "\\d"@, facts.date@);
    let d = spec_replace(c, "\\t"@, facts.time@);
    let e = spec_replace(d, "\\U"@, user_count(facts.users));
    issue_unescaped(issue_with_uts(e, facts.uts))
}

/// Replaces the escape sequences for the system.
fn replace_uts(issue: String, uts: &Option<Uts>) -> (r: String)
    ensures
        r@ == issue_with_uts(issue@, *uts),
{
    match uts {
        Some(uts) => {
            let a = replace(issue.as_str(), "\\s", uts.sysname.as_str());
            let b = replace(a.as_str(), "\\r", uts.release.as_str());
            let c = replace(b.as_str(), "\\v", uts.version.as_str());
            let d = replace(c.as_str(), "\\n", uts.nodename.as_str());
            let e = replace(d.as_str(), "\\m", uts.machine.as_str());
            replace(e.as_str(), "\\o", uts.domainname.as_str())
        },
        None => issue,
    }
}

/// Replaces the escape sequences for colors and for the backslash.
fn unescape(issue: String) -> (r: String)
    ensures
        r@ == issue_unescaped(issue@),
{
    let a = replace(issue.as_str(), "\\x1b", "\x1b");
    let b = replace(a.as_str(), "\\033", "\x1b");
    let c = replace(b.as_str(), "\\e", "\x1b");
    replace(c.as_str(), "\\\\", "\\")
}

/// Prepares the issue of the host to be shown. `issue` is the content of the
/// issue file, if it could be read.
pub fn get_issue(issue: &Option<String>, facts: &IssueFacts) -> (r: Option<String>)
    ensures
        r.deep_view() == match issue.deep_view() {
            Some(issue) => Some(shown_issue(issue, *facts)),
            None => None,
        },
{
    match issue {
        Some(issue) => {
            let number = match &facts.vtnr {
                Some(text) => match parse_usize(text.as_str()) {
                    Some(number) => number,
                    None => 0,
                },
                None => 0,
            };
            let number = format_number(number);
            let terminal = chain("tty", number.as_str());
            let count = format_number(facts.users);
            let users = if facts.users < 2 {
                chain(count.as_str(), " user")
            } else {
                chain(count.as_str(), " users")
            };
            let a = replace(issue.as_str(), "\\S", "Linux");
            let b = replace(a.as_str(), "\\l", terminal.as_str());
            let c = replace(b.as_str(), "\\d", facts.date.as_str());
            let d = replace(c.as_str(), "\\t", facts.time.as_str());
            let e = replace(d.as_str(), "\\U", users.as_str());
            Some(unescape(replace_uts(e, &facts.uts)))
        },
        None => None,
    }
}

/// What was read from the system for the configuration.
pub struct System {
    /// The content of the issue file, if it could be read.
    pub issue: Option<String>,
    /// What the escape sequences of the issue file stand for.
    pub facts: IssueFacts,
    /// The content of the file that defines the range of user identifiers,
    /// if it could be read.
    pub login_defs: Option<String>,
    /// The accounts of the system.
    pub accounts: Vec<Account>,
}

impl System {
    /// The issue of the host as it is shown, if the issue file could be
    /// read.
    pub open spec fn shown_issue(self) -> Option<Seq<char>> {
        match self.issue {
            Some(issue) => Some(shown_issue(issue@, self.facts)),
            None => None,
        }
    }
}

} // verus!
