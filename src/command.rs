//! Shell commands run on behalf of the user interface, and folders opened
//! in the platform's file manager: how a command line is split and how the
//! outcomes are reported.
use vstd::prelude::*;
use crate::locate::views;

verus! {

/// Unicode white space, the characters that separate words of a command.
pub open spec fn is_space(c: char) -> bool {
    let u = c as u32;
    ||| 0x9 <= u <= 0xD
    ||| u == 0x20
    ||| u == 0x85
    ||| u == 0xA0
    ||| u == 0x1680
    ||| 0x2000 <= u <= 0x200A
    ||| u == 0x2028
    ||| u == 0x2029
    ||| u == 0x202F
    ||| u == 0x205F
    ||| u == 0x3000
}

/// The words of `s`: its maximal runs of characters that are not white
/// space, in order.
pub open spec fn words(s: Seq<char>) -> Seq<Seq<char>>
    decreases s.len(),
{
    if s.len() == 0 {
        Seq::empty()
    } else {
        let w = words(s.drop_last());
        if is_space(s.last()) {
            w
        } else if s.len() >= 2 && !is_space(s[s.len() - 2]) {
            w.drop_last().push(w.last().push(s.last()))
        } else {
            w.push(seq![s.last()])
        }
    }
}

/// Whether `c` is white space.
pub fn is_space_char(c: char) -> (r: bool)
    ensures
        r == is_space(c),
{
    let u = c as u32;
    (0x9 <= u && u <= 0xD) || u == 0x20 || u == 0x85 || u == 0xA0 || u == 0x1680 || (0x2000 <= u
        && u <= 0x200A) || u == 0x2028 || u == 0x2029 || u == 0x202F || u == 0x205F || u == 0x3000
}

/// Splits `s` into its words.
pub fn split_words(s: &str) -> (r: Vec<String>)
    ensures
        views(r@) == words(s@),
{
    let n = s.unicode_len();
    let mut out: Vec<String> = Vec::new();
    let mut start: usize = 0;
    let mut in_word = false;
    let mut i: usize = 0;
    assert(s@.take(0) =~= Seq::<char>::empty());
    assert(views(out@) =~= Seq::<Seq<char>>::empty());
    while i < n
        invariant
            i <= n,
            n == s@.len(),
            in_word <==> (i > 0 && !is_space(s@[i - 1])),
            in_word ==> start < i,
            words(s@.take(i as int)) == views(out@) + if in_word {
                seq![s@.subrange(start as int, i as int)]
            } else {
                Seq::empty()
            },
        decreases n - i,
    {
        let c = s.get_char(i);
        let ghost w = words(s@.take(i as int));
        proof {
            let t = s@.take(i + 1);
            assert(t.drop_last() =~= s@.take(i as int));
            assert(t.last() == c);
            if i > 0 {
                assert(t[t.len() - 2] == s@[i - 1]);
            }
        }
        if is_space_char(c) {
            if in_word {
                let word = String::from_str(s.substring_char(start, i));
                let ghost before = out@;
                out.push(word);
                assert(views(out@) =~= views(before).push(word@));
                assert(w =~= views(before) + seq![s@.subrange(start as int, i as int)]);
            } else {
                assert(w =~= views(out@));
            }
            in_word = false;
        } else {
            if in_word {
                assert(s@.subrange(start as int, i + 1) =~= s@.subrange(start as int, i as int).push(
                    c,
                ));
                assert(w.drop_last() =~= views(out@));
            } else {
                start = i;
                in_word = true;
                assert(s@.subrange(start as int, i + 1) =~= seq![c]);
            }
        }
        i = i + 1;
    }
    assert(s@.take(n as int) =~= s@);
    if in_word {
        let word = String::from_str(s.substring_char(start, n));
        let ghost before = out@;
        out.push(word);
        assert(views(out@) =~= views(before).push(word@));
    } else {
        assert(views(out@) + Seq::empty() =~= views(out@));
    }
    out
}

/// A command split into the program to run and its arguments.
#[derive(Debug)]
pub struct CommandLine {
    pub program: String,
    pub args: Vec<String>,
}

/// The complaint about a command with no words.
pub open spec fn empty_command_text() -> Seq<char> {
    "命令不能为空"@
}

/// Splits `command` at white space: its first word names the program, the
/// others are its arguments. A command with no words is refused.
pub fn parse_command(command: &str) -> (r: Result<CommandLine, String>)
    ensures
        r is Err <==> words(command@).len() == 0,
        r matches Ok(c) ==> c.program@ == words(command@)[0] && views(c.args@) == words(
            command@,
        ).drop_first(),
        r matches Err(m) ==> m@ == empty_command_text(),
{
    let mut parts = split_words(command);
    if parts.len() == 0 {
        return Err(String::from_str("命令不能为空"));
    }
    let ghost all = parts@;
    let program = parts.remove(0);
    assert(views(parts@) =~= views(all).drop_first());
    Ok(CommandLine { program, args: parts })
}

/// The report of a command that ran: its standard output on success, its
/// standard error otherwise.
pub open spec fn command_report(success: bool, stdout: Seq<char>, stderr: Seq<char>) -> Result<
    Seq<char>,
    Seq<char>,
> {
    if success {
        Ok("执行成功:\n"@ + stdout)
    } else {
        Err("执行失败:\n"@ + stderr)
    }
}

/// Reports a command that ran to its end.
pub fn command_outcome(success: bool, stdout: &str, stderr: &str) -> (r: Result<String, String>)
    ensures
        match r {
            Ok(m) => command_report(success, stdout@, stderr@) == Ok::<Seq<char>, Seq<char>>(m@),
            Err(m) => command_report(success, stdout@, stderr@) == Err::<Seq<char>, Seq<char>>(m@),
        },
{
    if success {
        let mut m = String::from_str("执行成功:\n");
        m.append(stdout);
        Ok(m)
    } else {
        let mut m = String::from_str("执行失败:\n");
        m.append(stderr);
        Err(m)
    }
}

/// Reports a command that could not be started.
pub fn launch_failure(reason: &str) -> (r: String)
    ensures
        r@ == "命令执行错误: "@ + reason@,
{
    let mut m = String::from_str("命令执行错误: ");
    m.append(reason);
    m
}

/// The platforms that have a known way to open a folder.
#[derive(Clone, Copy, PartialEq, Eq, Debug, Structural)]
pub enum HostOs {
    Windows,
    MacOs,
    Linux,
    Other,
}

/// The program that opens a folder on `os`, and the name the failure
/// message gives the platform; none on other platforms, where opening a
/// folder does nothing.
pub open spec fn opener_of(os: HostOs) -> Option<(Seq<char>, Seq<char>)> {
    match os {
        HostOs::Windows => Some(("explorer"@, "Windows"@)),
        HostOs::MacOs => Some(("open"@, "Mac"@)),
        HostOs::Linux => Some(("xdg-open"@, "Linux"@)),
        HostOs::Other => None,
    }
}

/// The program that opens a folder on `os`, run with the folder as its only
/// argument.
pub fn folder_opener(os: HostOs) -> (r: Option<String>)
    ensures
        r is Some <==> opener_of(os) is Some,
        r matches Some(p) ==> p@ == opener_of(os)->Some_0.0,
{
    match os {
        HostOs::Windows => Some(String::from_str("explorer")),
        HostOs::MacOs => Some(String::from_str("open")),
        HostOs::Linux => Some(String::from_str("xdg-open")),
        HostOs::Other => None,
    }
}

/// The message for a folder opener that could not be started on `os`.
pub fn open_failure(os: HostOs, reason: &str) -> (r: String)
    requires
        opener_of(os) is Some,
    ensures
        r@ == "打开"@ + opener_of(os)->Some_0.1 + "文件夹失败: "@ + reason@,
{
    let mut m = String::from_str("打开");
    match os {
        HostOs::Windows => m.append("Windows"),
        HostOs::MacOs => m.append("Mac"),
        _ => m.append("Linux"),
    }
    m.append("文件夹失败: ");
    m.append(reason);
    m
}

} // verus!
