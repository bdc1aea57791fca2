//! Sessions as session files describe them.

use ini::Ini;
use vstd::prelude::*;
use vstd::string::*;

use crate::sessions::{Session, SessionType, SessionView};
use crate::text::{chain, same_text, spec_split, split};

verus! {

/// A file of sections, each a list of keys with their values.
#[verifier::external_type_specification]
#[verifier::external_body]
pub struct ExIni(Ini);

/// What a parsed file holds: for each name of a section, the keys of the
/// first section of that name, each with the first of its values.
pub uninterp spec fn ini_entries(ini: Ini) -> Map<Seq<char>, Map<Seq<char>, Seq<char>>>;

/// What a text holds when it is parsed as a file of sections; nothing if
/// it cannot be parsed.
pub uninterp spec fn parsed_entries(content: Seq<char>) -> Option<
    Map<Seq<char>, Map<Seq<char>, Seq<char>>>,
>;

/// The name of a file without its directories and without its extension.
pub uninterp spec fn file_stem(path: Seq<char>) -> Option<Seq<char>>;

/// `Ini::load_from_str`: whether a text can be parsed, and what the parsed
/// file holds, is a function of the text alone; it is given the name
/// [`parsed_entries`].
#[verifier::external_body]
fn load_ini(content: &str) -> (r: Option<Ini>)
    ensures
        match r {
            Some(ini) => parsed_entries(content@) == Some(ini_entries(ini)),
            None => parsed_entries(content@) is None,
        },
{
    Ini::load_from_str(content).ok()
}

/// `Ini::section`: whether the file has a section of the given name.
#[verifier::external_body]
fn has_section(ini: &Ini, section: &str) -> (r: bool)
    ensures
        r == ini_entries(*ini).contains_key(section@),
{
    ini.section(Some(section)).is_some()
}

/// `Ini::section` and `Properties::get`: the first value of a key in the
/// first section of the given name.
#[verifier::external_body]
fn get_property(ini: &Ini, section: &str, key: &str) -> (r: Option<String>)
    ensures
        r.deep_view() == property(ini_entries(*ini), section@, key@),
{
    ini.section(Some(section)).and_then(|properties| properties.get(key)).map(|value| value.to_string())
}

/// `Path::file_stem`: the name of a file without its directories and its
/// extension is a function of the path alone; it is given the name
/// [`file_stem`].
#[verifier::external_body]
fn stem(path: &str) -> (r: Option<String>)
    ensures
        r.deep_view() == file_stem(path@),
{
    std::path::Path::new(path).file_stem().map(|stem| stem.to_string_lossy().to_string())
}

/// The value of a key of a section, if the section and the key are there.
pub open spec fn property(
    entries: Map<Seq<char>, Map<Seq<char>, Seq<char>>>,
    section: Seq<char>,
    key: Seq<char>,
) -> Option<Seq<char>> {
    if entries.contains_key(section) && entries[section].contains_key(key) {
        Some(entries[section][key])
    } else {
        None
    }
}

/// Why a session file describes no session.
#[derive(Debug, Copy, Clone, PartialEq, Eq, Structural)]
pub enum DesktopError {
    /// The file cannot be parsed.
    Parse,
    /// The file has no `Desktop Entry` section.
    NoEntry,
    /// The entry has no `Name`.
    NoName,
    /// The entry has no `Exec`.
    NoExec,
}

/// The name of the section that describes a session.
pub open spec fn entry_section() -> Seq<char> {
    "Desktop Entry"@
}

/// Whether a property of the entry of a file is the text `true`.
pub open spec fn is_set(entries: Map<Seq<char>, Map<Seq<char>, Seq<char>>>, key: Seq<char>) -> bool {
    property(entries, entry_section(), key) == Some("true"@)
}

/// The session that the entries of a session file describe.
///
/// A file without an entry describes none, and that is an error. An entry
/// that is hidden or not to be displayed describes none, without an error.
/// Any other entry must have a name and a command; the session takes its
/// slug from the name of the file and its kind from where the file was
/// found.
pub open spec fn described_session(
    path: Seq<char>,
    entries: Map<Seq<char>, Map<Seq<char>, Seq<char>>>,
    session_type: SessionType,
) -> Result<Option<SessionView>, DesktopError> {
    if !entries.contains_key(entry_section()) {
        Err(DesktopError::NoEntry)
    } else if is_set(entries, "Hidden"@) || is_set(entries, "NoDisplay"@) {
        Ok(None)
    } else {
        match (
            property(entries, entry_section(), "Name"@),
            property(entries, entry_section(), "Exec"@),
        ) {
            (Some(name), Some(command)) => Ok(
                Some(
                    SessionView {
                        slug: file_stem(path),
                        name,
                        command,
                        session_type,
                        path: Some(path),
                        xdg_desktop_names: property(entries, entry_section(), "DesktopNames"@),
                    },
                ),
            ),
            (None, _) => Err(DesktopError::NoName),
            (Some(_), None) => Err(DesktopError::NoExec),
        }
    }
}

/// The session that the content of a session file describes.
pub open spec fn loaded_session(path: Seq<char>, content: Seq<char>, session_type: SessionType) -> Result<
    Option<SessionView>,
    DesktopError,
> {
    match parsed_entries(content) {
        Some(entries) => described_session(path, entries, session_type),
        None => Err(DesktopError::Parse),
    }
}

/// Whether a property of the entry is the text `true`.
fn flag(ini: &Ini, key: &str) -> (r: bool)
    ensures
        r == is_set(ini_entries(*ini), key@),
{
    match get_property(ini, "Desktop Entry", key) {
        Some(value) => same_text(value.as_str(), "true"),
        None => false,
    }
}

/// Makes the session that a parsed session file describes.
pub fn session_from_entries(path: &str, desktop: &Ini, session_type: SessionType) -> (r: Result<
    Option<Session>,
    DesktopError,
>)
    ensures
        match (r, described_session(path@, ini_entries(*desktop), session_type)) {
            (Ok(session), Ok(described)) => session.deep_view() == described,
            (Err(error), Err(described)) => error == described,
            _ => false,
        },
{
    if !has_section(desktop, "Desktop Entry") {
        return Err(DesktopError::NoEntry);
    }
    if flag(desktop, "Hidden") {
        return Ok(None);
    }
    if flag(desktop, "NoDisplay") {
        return Ok(None);
    }
    let slug = stem(path);
    let name = match get_property(desktop, "Desktop Entry", "Name") {
        Some(name) => name,
        None => {
            return Err(DesktopError::NoName);
        },
    };
    let exec = match get_property(desktop, "Desktop Entry", "Exec") {
        Some(exec) => exec,
        None => {
            return Err(DesktopError::NoExec);
        },
    };
    let xdg_desktop_names = get_property(desktop, "Desktop Entry", "DesktopNames");

    Ok(
        Some(
            Session {
                slug,
                name,
                command: exec,
                session_type,
                path: Some(String::from_str(path)),
                xdg_desktop_names,
            },
        ),
    )
}

/// Makes the session that a session file describes, from the path of the
/// file and its content.
pub fn load_desktop_file(path: &str, content: &str, session_type: SessionType) -> (r: Result<
    Option<Session>,
    DesktopError,
>)
    ensures
        match (r, loaded_session(path@, content@, session_type)) {
            (Ok(session), Ok(described)) => session.deep_view() == described,
            (Err(error), Err(described)) => error == described,
            _ => false,
        },
{
    match load_ini(content) {
        Some(desktop) => session_from_entries(path, &desktop, session_type),
        None => Err(DesktopError::Parse),
    }
}

/// Whether a text stands before another in the order of the dictionary,
/// character by character.
pub open spec fn text_before(a: Seq<char>, b: Seq<char>) -> bool
    decreases a.len(),
{
    if b.len() == 0 {
        false
    } else if a.len() == 0 {
        true
    } else if a.first() != b.first() {
        a.first() < b.first()
    } else {
        text_before(a.drop_first(), b.drop_first())
    }
}

/// A list of sessions in the order of their names, with one more session:
/// it stands behind every session whose name does not stand behind its own.
pub open spec fn inserted_by_name(sessions: Seq<SessionView>, session: SessionView) -> Seq<SessionView>
    decreases sessions.len(),
{
    if sessions.len() == 0 || !text_before(session.name, sessions.last().name) {
        sessions.push(session)
    } else {
        inserted_by_name(sessions.drop_last(), session).push(sessions.last())
    }
}

/// The sessions in the order of their names. Sessions of the same name
/// stay in the order in which they are given.
pub open spec fn sorted_by_name(sessions: Seq<SessionView>) -> Seq<SessionView>
    decreases sessions.len(),
{
    if sessions.len() == 0 {
        Seq::empty()
    } else {
        inserted_by_name(sorted_by_name(sessions.drop_last()), sessions.last())
    }
}

/// A session file as it was found: its path, its content, and the kind of
/// sessions of the directory in which it was found.
pub struct DesktopFile {
    pub path: String,
    pub content: String,
    pub session_type: SessionType,
}

/// The mathematical content of a [`DesktopFile`].
pub struct DesktopFileView {
    pub path: Seq<char>,
    pub content: Seq<char>,
    pub session_type: SessionType,
}

impl View for DesktopFile {
    type V = DesktopFileView;

    open spec fn view(&self) -> DesktopFileView {
        DesktopFileView { path: self.path@, content: self.content@, session_type: self.session_type }
    }
}

impl DeepView for DesktopFile {
    type V = DesktopFileView;

    open spec fn deep_view(&self) -> DesktopFileView {
        self@
    }
}

/// The sessions that a list of session files describes, in the order of the
/// files. A file that describes no session is left out, whatever the
/// reason.
pub open spec fn described_sessions(files: Seq<DesktopFileView>) -> Seq<SessionView>
    decreases files.len(),
{
    if files.len() == 0 {
        Seq::empty()
    } else {
        let before = described_sessions(files.drop_last());
        match loaded_session(files.last().path, files.last().content, files.last().session_type) {
            Ok(Some(session)) => before.push(session),
            _ => before,
        }
    }
}

/// Whether a text stands before another in the order of the dictionary.
fn name_before(a: &str, b: &str) -> (r: bool)
    ensures
        r == text_before(a@, b@),
{
    let n = a.unicode_len();
    let m = b.unicode_len();
    let mut i: usize = 0;
    assert(a@.subrange(0, n as int) == a@);
    assert(b@.subrange(0, m as int) == b@);
    while i < n && i < m
        invariant
            i <= n == a@.len(),
            i <= m == b@.len(),
            text_before(a@, b@) == text_before(
                a@.subrange(i as int, n as int),
                b@.subrange(i as int, m as int),
            ),
        decreases n - i,
    {
        let x = a.get_char(i);
        let y = b.get_char(i);
        assert(a@.subrange(i as int, n as int).drop_first() == a@.subrange(i + 1, n as int));
        assert(b@.subrange(i as int, m as int).drop_first() == b@.subrange(i + 1, m as int));
        if x != y {
            return x < y;
        }
        i += 1;
    }
    i < m
}

/// Puts a session into a list that is in the order of the names.
fn insert_by_name(sessions: &mut Vec<Session>, session: Session)
    ensures
        final(sessions).deep_view() == inserted_by_name(old(sessions).deep_view(), session@),
{
    let ghost all = sessions.deep_view();
    let mut i: usize = sessions.len();
    assert(all.subrange(0, i as int) == all);
    assert(all.subrange(i as int, all.len() as int) =~= Seq::<SessionView>::empty());
    while i > 0 && name_before(session.name.as_str(), sessions[i - 1].name.as_str())
        invariant
            i <= sessions.len(),
            all == sessions.deep_view(),
            inserted_by_name(all, session@) == inserted_by_name(all.subrange(0, i as int), session@)
                + all.subrange(i as int, all.len() as int),
        decreases i,
    {
        let ghost head = all.subrange(0, i as int);
        assert(head.last() == sessions[i - 1]@);
        assert(head.drop_last() == all.subrange(0, i - 1));
        assert(inserted_by_name(head, session@) == inserted_by_name(head.drop_last(), session@).push(
            head.last(),
        ));
        assert(inserted_by_name(head.drop_last(), session@).push(head.last()) + all.subrange(
            i as int,
            all.len() as int,
        ) =~= inserted_by_name(head.drop_last(), session@) + all.subrange(i - 1, all.len() as int));
        i -= 1;
    }
    proof {
        let head = all.subrange(0, i as int);
        if i > 0 {
            assert(head.last() == sessions[i - 1]@);
        }
        assert(inserted_by_name(head, session@) == head.push(session@));
    }
    sessions.insert(i, session);
    assert(sessions.deep_view() =~= all.subrange(0, i as int).push(session@) + all.subrange(
        i as int,
        all.len() as int,
    ));
}

/// Lists the sessions that the session files describe, in the order of
/// their names.
pub fn get_sessions(files: &Vec<DesktopFile>) -> (r: Vec<Session>)
    ensures
        r.deep_view() == sorted_by_name(described_sessions(files.deep_view())),
{
    let ghost all = files.deep_view();
    let mut sessions: Vec<Session> = Vec::new();
    let mut i: usize = 0;
    assert(all.subrange(0, 0) =~= Seq::<DesktopFileView>::empty());
    assert(sessions.deep_view() =~= Seq::<SessionView>::empty());
    while i < files.len()
        invariant
            i <= files.len(),
            all == files.deep_view(),
            sessions.deep_view() == sorted_by_name(described_sessions(all.subrange(0, i as int))),
        decreases files.len() - i,
    {
        assert(all.subrange(0, i + 1).drop_last() == all.subrange(0, i as int));
        assert(all.subrange(0, i + 1).last() == files[i as int]@);
        let file = &files[i];
        match load_desktop_file(file.path.as_str(), file.content.as_str(), file.session_type) {
            Ok(Some(session)) => {
                let ghost before = described_sessions(all.subrange(0, i as int));
                assert(before.push(session@).drop_last() == before);
                insert_by_name(&mut sessions, session);
            },
            _ => {},
        }
        i += 1;
    }
    assert(all.subrange(0, files.len() as int) == all);
    sessions
}

/// The directories in which data of the system is looked for, unless the
/// environment names others.
pub open spec fn default_data_dirs() -> Seq<char> {
    "/usr/local/share:/usr/share"@
}

/// A directory within another.
pub open spec fn joined(directory: Seq<char>, name: Seq<char>) -> Seq<char> {
    if directory.len() > 0 && directory.last() == '/' {
        directory + name
    } else {
        directory + "/"@ + name
    }
}

/// For each directory of a list that is given by an absolute path, the
/// directory of the given name within it, with the kind of its sessions.
pub open spec fn session_dirs(directories: Seq<Seq<char>>, name: Seq<char>, kind: SessionType) -> Seq<
    (Seq<char>, SessionType),
>
    decreases directories.len(),
{
    if directories.len() == 0 {
        Seq::empty()
    } else {
        let before = session_dirs(directories.drop_last(), name, kind);
        let directory = directories.last();
        if directory.len() > 0 && directory.first() == '/' {
            before.push((joined(directory, name), kind))
        } else {
            before
        }
    }
}

/// The directories in which session files are looked for unless others are
/// configured: `wayland-sessions` and then `xsessions` within each data
/// directory of the system. `xdg_data_dirs` is the list of data directories
/// that the environment names, separated by colons, if it names any.
pub open spec fn default_paths(xdg_data_dirs: Option<Seq<char>>) -> Seq<(Seq<char>, SessionType)> {
    let directories = spec_split(
        match xdg_data_dirs {
            Some(list) => list,
            None => default_data_dirs(),
        },
        ':',
    );
    session_dirs(directories, "wayland-sessions"@, SessionType::Wayland) + session_dirs(
        directories,
        "xsessions"@,
        SessionType::X11,
    )
}

/// Adds the session directories of one kind to a list.
fn add_session_dirs(
    paths: &mut Vec<(String, SessionType)>,
    directories: &Vec<String>,
    name: &str,
    kind: SessionType,
)
    ensures
        final(paths).deep_view() == old(paths).deep_view() + session_dirs(
            directories.deep_view(),
            name@,
            kind,
        ),
{
    let ghost before = paths.deep_view();
    let ghost all = directories.deep_view();
    let mut i: usize = 0;
    assert(paths.deep_view() =~= before + session_dirs(all.subrange(0, 0), name@, kind));
    while i < directories.len()
        invariant
            i <= directories.len(),
            all == directories.deep_view(),
            paths.deep_view() == before + session_dirs(all.subrange(0, i as int), name@, kind),
        decreases directories.len() - i,
    {
        assert(all.subrange(0, i + 1).drop_last() == all.subrange(0, i as int));
        assert(all.subrange(0, i + 1).last() == directories[i as int]@);
        let directory = directories[i].as_str();
        let n = directory.unicode_len();
        if n > 0 && directory.get_char(0) == '/' {
            let path = if directory.get_char(n - 1) == '/' {
                chain(directory, name)
            } else {
                let mut path = chain(directory, "/");
                path.append(name);
                path
            };
            let ghost so_far = paths.deep_view();
            paths.push((path, kind));
            assert(paths.deep_view() =~= so_far.push((joined(directory@, name@), kind)));
            assert(paths.deep_view() =~= before + session_dirs(all.subrange(0, i + 1), name@, kind));
        }
        i += 1;
    }
    assert(all.subrange(0, directories.len() as int) == all);
}

/// Lists the directories in which session files are looked for unless
/// others are configured.
pub fn default_session_paths(xdg_data_dirs: &Option<String>) -> (r: Vec<(String, SessionType)>)
    ensures
        r.deep_view() == default_paths(xdg_data_dirs.deep_view()),
{
    let directories = match xdg_data_dirs {
        Some(list) => split(list.as_str(), ':'),
        None => split("/usr/local/share:/usr/share", ':'),
    };
    let mut paths: Vec<(String, SessionType)> = Vec::new();
    assert(paths.deep_view() =~= Seq::<(Seq<char>, SessionType)>::empty());
    add_session_dirs(&mut paths, &directories, "wayland-sessions", SessionType::Wayland);
    add_session_dirs(&mut paths, &directories, "xsessions", SessionType::X11);
    paths
}

} // verus!
