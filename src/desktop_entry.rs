//! Turning a desktop entry into a command line to start.

use vstd::prelude::*;

verus! {

/// The words that POSIX shell syntax splits `s` into, stopping at the
/// first malformed word.
pub uninterp spec fn shell_words_of(s: Seq<char>) -> Seq<Seq<char>>;

/// The `Exec` value of the `[Desktop Entry]` group of the entry read from
/// `contents`, for an entry file at `path`; `None` where the entry has no
/// such key or `path` names no application.
pub uninterp spec fn desktop_exec_of(path: Seq<char>, contents: Seq<char>) -> Option<Seq<char>>;

/// The characters that `char::is_whitespace` accepts (Unicode
/// White_Space), which `str::trim` removes.
pub open spec fn is_white(c: char) -> bool {
    let u = c as u32;
    ||| 0x09 <= u <= 0x0D
    ||| u == 0x20
    ||| u == 0x85
    ||| u == 0xA0
    ||| u == 0x1680
    ||| 0x2000 <= u <= 0x200A
    ||| u == 0x2028
    ||| u == 0x2029
    ||| u == 0x202F
    ||| u == 0x205F
    ||| u == 0x3000
}

/// Only whitespace stands between the start of the line holding position
/// `k` of `c` (lines end at `'\n'`) and that position.
pub open spec fn line_blank_before(c: Seq<char>, k: int) -> bool
    decreases k,
{
    if k <= 0 {
        true
    } else if c[k - 1] == '\n' {
        true
    } else {
        is_white(c[k - 1]) && line_blank_before(c, k - 1)
    }
}

/// Some line of `c` begins with `=` once its leading whitespace is
/// dropped: an entry line with an empty key, which the desktop entry
/// decoder cannot handle.
pub open spec fn empty_key_line(c: Seq<char>) -> bool {
    exists|j: int| 0 <= j < c.len() && c[j] == '=' && #[trigger] line_blank_before(c, j)
}

/// The views of a list of strings.
pub open spec fn views(v: Seq<String>) -> Seq<Seq<char>> {
    v.map_values(|w: String| w@)
}

/// Relies on `shlex::Shlex`: the words of `s`, as the iterator yields
/// them until the input ends or a word is malformed. An empty input
/// yields no word.
#[verifier::external_body]
fn shell_words(s: &str) -> (r: Vec<String>)
    ensures
        views(r@) == shell_words_of(s@),
        s@.len() == 0 ==> r@.len() == 0,
{
    shlex::Shlex::new(s).collect()
}

/// Relies on `freedesktop_desktop_entry::DesktopEntry::decode` and
/// `DesktopEntry::exec`: the `Exec` value of the entry, or `None` where
/// decoding fails or the key is absent. Empty contents hold no key. The
/// decoder reads the last byte of every key, so a line with an empty key
/// is left out.
#[verifier::external_body]
fn desktop_exec(path: &str, contents: &str) -> (r: Option<String>)
    requires
        !empty_key_line(contents@),
    ensures
        match r {
            Some(e) => desktop_exec_of(path@, contents@) == Some(e@),
            None => desktop_exec_of(path@, contents@).is_none(),
        },
        contents@.len() == 0 ==> r.is_none(),
{
    match freedesktop_desktop_entry::DesktopEntry::decode(std::path::Path::new(path), contents) {
        Ok(entry) => match entry.exec() {
            Some(exec) => Some(exec.to_string()),
            None => None,
        },
        Err(_) => None,
    }
}

fn is_white_exec(c: char) -> (r: bool)
    ensures
        r == is_white(c),
{
    let u = c as u32;
    (0x09 <= u && u <= 0x0D) || u == 0x20 || u == 0x85 || u == 0xA0 || u == 0x1680 || (0x2000 <= u
        && u <= 0x200A) || u == 0x2028 || u == 0x2029 || u == 0x202F || u == 0x205F || u == 0x3000
}

/// Whether some line of `contents` begins with `=` once its leading
/// whitespace is dropped.
pub fn has_empty_key_line(contents: &str) -> (r: bool)
    ensures
        r == empty_key_line(contents@),
{
    broadcast use vstd::string::group_string_axioms;

    let ghost c = contents@;
    let mut blank = true;
    for ch in it: contents.chars()
        invariant
            it.seq() == c,
            c == contents@,
            blank == line_blank_before(c, it.index() as int),
            forall|j: int| 0 <= j < it.index() ==> !(c[j] == '=' && #[trigger] line_blank_before(c, j)),
    {
        if blank && ch == '=' {
            assert(c[it.index() as int] == '=' && line_blank_before(c, it.index() as int));
            return true;
        }
        blank = ch == '\n' || (blank && is_white_exec(ch));
    }
    false
}

/// A program to start, with its arguments.
#[derive(Debug, Clone, PartialEq, Eq)]
pub struct LaunchCommand {
    pub program: String,
    pub args: Vec<String>,
}

/// The mathematical value of a [`LaunchCommand`].
pub struct CommandModel {
    pub program: Seq<char>,
    pub args: Seq<Seq<char>>,
}

impl View for LaunchCommand {
    type V = CommandModel;

    open spec fn view(&self) -> CommandModel {
        CommandModel { program: self.program@, args: views(self.args@) }
    }
}

/// The command that a list of words names: the first word is the
/// program, the others its arguments; no command without a word.
pub open spec fn command_of_words(words: Seq<Seq<char>>) -> Option<CommandModel> {
    if words.len() == 0 {
        None
    } else {
        Some(CommandModel { program: words[0], args: words.drop_first() })
    }
}

/// The command that a desktop entry at `path` with `contents` starts; an
/// entry with a line of empty key is malformed and starts nothing.
pub open spec fn entry_command(path: Seq<char>, contents: Seq<char>) -> Option<CommandModel> {
    if empty_key_line(contents) {
        None
    } else {
        match desktop_exec_of(path, contents) {
            Some(exec) => command_of_words(shell_words_of(exec)),
            None => None,
        }
    }
}

/// The view of an optional command.
pub open spec fn command_view(c: Option<LaunchCommand>) -> Option<CommandModel> {
    match c {
        Some(c) => Some(c@),
        None => None,
    }
}

/// Builds the command named by already split words.
pub fn command_from_words(words: Vec<String>) -> (r: Option<LaunchCommand>)
    ensures
        command_view(r) == command_of_words(views(words@)),
{
    let ghost given = views(words@);
    let mut words = words;
    if words.len() == 0 {
        return None;
    }
    let program = words.remove(0);
    let cmd = LaunchCommand { program, args: words };
    assert(views(cmd.args@) =~= given.drop_first());
    Some(cmd)
}

/// The command that an `Exec` value starts once split into shell words.
pub fn command_from_exec(exec: &str) -> (r: Option<LaunchCommand>)
    ensures
        command_view(r) == command_of_words(shell_words_of(exec@)),
        exec@.len() == 0 ==> r.is_none(),
{
    command_from_words(shell_words(exec))
}

/// The command that the desktop entry at `path`, whose file holds
/// `contents`, starts; `None` where the entry names none.
pub fn command_line(path: &str, contents: &str) -> (r: Option<LaunchCommand>)
    ensures
        command_view(r) == entry_command(path@, contents@),
        contents@.len() == 0 ==> r.is_none(),
{
    if has_empty_key_line(contents) {
        return None;
    }
    match desktop_exec(path, contents) {
        Some(exec) => command_from_exec(exec.as_str()),
        None => None,
    }
}

} // verus!
