use vstd::prelude::*;
use crate::text::{replace_char, replace_char_with};

verus! {

/// What `str::to_uppercase` makes of a text (Unicode upper-casing).
pub uninterp spec fn uppercase(s: Seq<char>) -> Seq<char>;

/// The characters with the Unicode White_Space property.
pub open spec fn is_white_space(c: char) -> bool {
    ||| '\u{9}' <= c <= '\u{d}'
    ||| c == ' '
    ||| c == '\u{85}'
    ||| c == '\u{a0}'
    ||| c == '\u{1680}'
    ||| '\u{2000}' <= c <= '\u{200a}'
    ||| c == '\u{2028}'
    ||| c == '\u{2029}'
    ||| c == '\u{202f}'
    ||| c == '\u{205f}'
    ||| c == '\u{3000}'
}

/// A text without its leading white space.
pub open spec fn trim_front(s: Seq<char>) -> Seq<char>
    decreases s.len(),
{
    if s.len() > 0 && is_white_space(s[0]) {
        trim_front(s.drop_first())
    } else {
        s
    }
}

/// A text without its trailing white space.
pub open spec fn trim_back(s: Seq<char>) -> Seq<char>
    decreases s.len(),
{
    if s.len() > 0 && is_white_space(s.last()) {
        trim_back(s.drop_last())
    } else {
        s
    }
}

/// A text without its leading and trailing white space.
pub open spec fn trimmed(s: Seq<char>) -> Seq<char> {
    trim_back(trim_front(s))
}

/// `str::to_uppercase`; its result is named `uppercase`.
#[verifier::external_body]
fn to_upper(s: &str) -> (r: String)
    ensures
        r@ == uppercase(s@),
{
    s.to_uppercase()
}

/// `str::trim`, copied into a `String`: the text without its leading and
/// trailing Unicode White_Space characters.
#[verifier::external_body]
fn trim_text(s: &str) -> (r: String)
    ensures
        r@ == trimmed(s@),
{
    s.trim().to_string()
}

/// A callable's name: spaces become underscores.
pub open spec fn command_name(nickname: Seq<char>) -> Seq<char> {
    replace_char(nickname, ' ', "_"@)
}

/// An application name as the shell reads it: spaces are escaped.
pub open spec fn shell_app_name(appname: Seq<char>) -> Seq<char> {
    replace_char(appname, ' ', "\\ "@)
}

/// The shell function that opens an application.
pub open spec fn app_script(appname: Seq<char>, nickname: Seq<char>, system: bool) -> Seq<char> {
    let nick = command_name(nickname);
    "\nfunction "@ + nick + "() {\n"@ + "    echo \"Opening "@ + nick + "...\"\n    "@ + (if system {
        "open /System/Applications/"@
    } else {
        "open /Applications/"@
    }) + shell_app_name(appname) + ".app\n    "@ + "echo \"done.\"\n}"@
}

/// Where the application and its nickname come from, given the values
/// after the application flag.
pub enum AppTarget {
    /// Only the application was named: the nickname is to be asked for.
    AskNickname(String),
    /// The application and its nickname (both empty when the values were
    /// neither one nor two).
    Named(String, String),
}

/// Reads the application and nickname from the values after the
/// application flag.
pub fn app_target(values: &Vec<String>) -> (r: AppTarget)
    ensures
        values.len() == 1 ==> (r matches AppTarget::AskNickname(a) && a@ == values[0]@),
        values.len() == 2 ==> (r matches AppTarget::Named(a, n) && a@ == values[0]@ && n@
            == values[1]@),
        values.len() != 1 && values.len() != 2 ==> (r matches AppTarget::Named(a, n) && a@.len()
            == 0 && n@.len() == 0),
{
    if values.len() == 1 {
        AppTarget::AskNickname(values[0].clone())
    } else if values.len() == 2 {
        AppTarget::Named(values[0].clone(), values[1].clone())
    } else {
        AppTarget::Named(String::new(), String::new())
    }
}

/// A nickname typed in: the line without surrounding white space.
pub fn typed_nickname(line: &String) -> (r: String)
    ensures
        r@ == trimmed(line@),
{
    trim_text(line.as_str())
}

/// A callable for an application: the shell text to append and the two
/// names shown to the user.
pub struct AppTrigger {
    pub script: String,
    pub app_label: String,
    pub nick_label: String,
}

/// Builds the callable that opens `appname` under `nickname`.
pub fn app_trigger(appname: &String, nickname: &String, system: bool) -> (r: AppTrigger)
    ensures
        r.script@ == app_script(appname@, nickname@, system),
        r.app_label@ == replace_char(uppercase(shell_app_name(appname@)), '\\', Seq::empty()),
        r.nick_label@ == uppercase(command_name(nickname@)),
{
    let app = replace_char_with(appname.as_str(), ' ', "\\ ");
    let nick = replace_char_with(nickname.as_str(), ' ', "_");
    let mut script = String::from_str("\nfunction ");
    script.append(nick.as_str());
    script.append("() {\n");
    script.append("    echo \"Opening ");
    script.append(nick.as_str());
    script.append("...\"\n    ");
    if system {
        script.append("open /System/Applications/");
    } else {
        script.append("open /Applications/");
    }
    script.append(app.as_str());
    script.append(".app\n    ");
    script.append("echo \"done.\"\n}");
    let upper_app = to_upper(app.as_str());
    let app_label = replace_char_with(upper_app.as_str(), '\\', "");
    proof {
        assert(""@ =~= Seq::<char>::empty()) by {
            reveal_strlit("");
        }
    }
    let nick_label = to_upper(nick.as_str());
    AppTrigger { script, app_label, nick_label }
}

/// The body lines of a shell callable, each indented by four spaces.
pub open spec fn indented_body(lines: Seq<Seq<char>>) -> Seq<char>
    decreases lines.len(),
{
    if lines.len() == 0 {
        Seq::empty()
    } else {
        indented_body(lines.drop_last()) + "    "@ + lines.last()
    }
}

/// The description used when none was typed: a line that holds nothing
/// but its line break (or nothing at all) gives the default.
pub open spec fn description_or_default(description: Seq<char>) -> Seq<char> {
    if replace_char(description, '\n', Seq::empty()).len() == 0 {
        "Callable Command"@
    } else {
        description
    }
}

/// The shell text of a callable running typed-in shell code.
pub open spec fn shell_script(
    name: Seq<char>,
    nickname: Seq<char>,
    description: Seq<char>,
    body: Seq<Seq<char>>,
) -> Seq<char> {
    let nick = command_name(nickname);
    "\n# command: "@ + name + "# nickname: "@ + nick + "# description: "@
        + description_or_default(description) + "function "@ + replace_char(nick, '\n', Seq::empty())
        + "() {\n"@ + indented_body(body) + "}\n"@
}

/// A callable running shell code: its shell text and its name.
pub struct ShellCallable {
    pub script: String,
    pub nickname: String,
}

/// Builds the callable named `nickname` (as typed, spaces become
/// underscores) that runs the `body` lines.
pub fn shell_callable(
    name: &String,
    nickname: &String,
    description: &String,
    body: &Vec<String>,
) -> (r: ShellCallable)
    ensures
        r.script@ == shell_script(name@, nickname@, description@, body.deep_view()),
        r.nickname@ == command_name(nickname@),
{
    let nick = replace_char_with(nickname.as_str(), ' ', "_");
    let typed = replace_char_with(description.as_str(), '\n', "");
    proof {
        assert(""@ =~= Seq::<char>::empty()) by {
            reveal_strlit("");
        }
    }
    let empty = String::new();
    assert(typed@.len() == 0 ==> typed@ =~= empty@);
    let desc = if typed == empty {
        String::from_str("Callable Command")
    } else {
        description.clone()
    };
    assert(desc@ == description_or_default(description@));
    let fname = replace_char_with(nick.as_str(), '\n', "");
    proof {
        assert(""@ =~= Seq::<char>::empty()) by {
            reveal_strlit("");
        }
    }
    let mut script = String::from_str("\n# command: ");
    script.append(name.as_str());
    script.append("# nickname: ");
    script.append(nick.as_str());
    script.append("# description: ");
    script.append(desc.as_str());
    script.append("function ");
    script.append(fname.as_str());
    script.append("() {\n");
    let ghost head = script@;
    let ghost lines = body.deep_view();
    let n = body.len();
    let mut i: usize = 0;
    while i < n
        invariant
            n == body.len(),
            lines == body.deep_view(),
            i <= n,
            script@ == head + indented_body(lines.take(i as int)),
        decreases n - i,
    {
        assert(lines.take(i + 1).drop_last() =~= lines.take(i as int));
        assert(lines.take(i + 1).last() == body[i as int]@);
        script.append("    ");
        script.append(body[i].as_str());
        assert(script@ =~= head + indented_body(lines.take(i + 1)));
        i = i + 1;
    }
    assert(lines.take(n as int) =~= lines);
    script.append("}\n");
    assert(script@ =~= shell_script(name@, nickname@, description@, body.deep_view()));
    ShellCallable { script, nickname: nick }
}

/// Whether a typed line ends the body of a shell callable.
pub fn is_body_end(line: &String) -> (r: bool)
    ensures
        r == (line@ == "END\n"@),
{
    *line == String::from_str("END\n")
}

/// The start-up file of a shell, from the shell's program name.
pub fn rc_file_name(shell: &str) -> (r: String)
    ensures
        r@ == "."@ + shell@ + "rc"@,
{
    let mut r = String::from_str(".");
    r.append(shell);
    r.append("rc");
    r
}

/// The start-up file named by a typed line: the line, without
/// surrounding white space, between "." and "rc".
pub fn typed_rc_file_name(line: &String) -> (r: String)
    ensures
        r@ == "."@ + trimmed(line@) + "rc"@,
{
    let name = trim_text(line.as_str());
    rc_file_name(name.as_str())
}

/// The line added to a shell's start-up file to load the callables file.
pub fn source_line(path: &str) -> (r: String)
    ensures
        r@ == "\nsource "@ + path@ + "\n"@,
{
    let mut r = String::from_str("\nsource ");
    r.append(path);
    r.append("\n");
    r
}

/// Adding a character to an application name adds exactly its escaped
/// form to the name the shell reads: a space becomes a backslash and a
/// space, any other character stays.
pub proof fn law_shell_app_name_push(appname: Seq<char>, c: char)
    ensures
        shell_app_name(appname.push(c)) == shell_app_name(appname) + (if c == ' ' {
            seq!['\\', ' ']
        } else {
            seq![c]
        }),
        shell_app_name(Seq::<char>::empty()) == Seq::<char>::empty(),
{
    assert(appname.push(c).drop_last() =~= appname);
    assert("\\ "@ =~= seq!['\\', ' ']) by {
        reveal_strlit("\\ ");
    }
}

/// In the name the shell reads, every space is escaped by a backslash
/// just before it, and the name grows by one character per space.
pub proof fn law_shell_app_name_escapes_every_space(appname: Seq<char>)
    ensures
        forall|k: int|
            0 <= k < shell_app_name(appname).len() && #[trigger] shell_app_name(appname)[k]
                == ' ' ==> k > 0 && shell_app_name(appname)[k - 1] == '\\',
        shell_app_name(appname).len() == appname.len() + appname.filter(|c: char| c == ' ').len(),
    decreases appname.len(),
{
    reveal_with_fuel(Seq::filter, 1);
    if appname.len() > 0 {
        let a = appname.drop_last();
        let c = appname.last();
        assert(a.push(c) =~= appname);
        law_shell_app_name_escapes_every_space(a);
        law_shell_app_name_push(a, c);
        let e = shell_app_name(a);
        let r = shell_app_name(appname);
        assert forall|k: int| 0 <= k < r.len() && #[trigger] r[k] == ' ' implies k > 0 && r[k
            - 1] == '\\' by {
            if k < e.len() {
                assert(r[k] == e[k]);
                assert(r[k - 1] == e[k - 1]);
            } else if c == ' ' {
                assert(k == e.len() + 1);
                assert(r[k - 1] == '\\');
            }
        }
    }
}

/// A nickname's spaces become underscores, one character for one.
pub proof fn law_command_name_push(nickname: Seq<char>, c: char)
    ensures
        command_name(nickname.push(c)) == command_name(nickname) + seq![
            if c == ' ' {
                '_'
            } else {
                c
            },
        ],
{
    assert(nickname.push(c).drop_last() =~= nickname);
    assert("_"@ =~= seq!['_']) by {
        reveal_strlit("_");
    }
}

/// The application script with one more character in the application's
/// name is the same script with that character, escaped, inserted just
/// before the closing `.app` part.
pub proof fn law_app_script_grows_with_name(appname: Seq<char>, c: char, nickname: Seq<char>, system: bool)
    ensures
        ({
            let suffix = ".app\n    "@ + "echo \"done.\"\n}"@;
            let before = app_script(appname, nickname, system);
            &&& before.len() >= suffix.len()
            &&& before.skip(before.len() - suffix.len()) == suffix
            &&& app_script(appname.push(c), nickname, system) == before.take(
                before.len() - suffix.len(),
            ) + (if c == ' ' {
                seq!['\\', ' ']
            } else {
                seq![c]
            }) + suffix
        }),
{
    law_shell_app_name_push(appname, c);
    let suffix = ".app\n    "@ + "echo \"done.\"\n}"@;
    let nick = command_name(nickname);
    let head = "\nfunction "@ + nick + "() {\n"@ + "    echo \"Opening "@ + nick + "...\"\n    "@ + (
    if system {
        "open /System/Applications/"@
    } else {
        "open /Applications/"@
    });
    let esc = if c == ' ' {
        seq!['\\', ' ']
    } else {
        seq![c]
    };
    let x = head + shell_app_name(appname);
    assert(app_script(appname, nickname, system) =~= x + suffix);
    assert((x + suffix).take(x.len() as int) =~= x);
    assert((x + suffix).skip(x.len() as int) =~= suffix);
    assert(app_script(appname.push(c), nickname, system) =~= x + esc + suffix);
}

/// The indented body of some lines followed by more lines is the two
/// indented bodies one after the other.
pub proof fn law_indented_body_concat(a: Seq<Seq<char>>, b: Seq<Seq<char>>)
    ensures
        indented_body(a + b) == indented_body(a) + indented_body(b),
    decreases b.len(),
{
    if b.len() == 0 {
        assert(a + b =~= a);
    } else {
        law_indented_body_concat(a, b.drop_last());
        assert((a + b).drop_last() =~= a + b.drop_last());
        assert((a + b).last() == b.last());
    }
}

/// One body line is indented by four spaces.
pub proof fn law_indented_body_single(line: Seq<char>)
    ensures
        indented_body(seq![line]) == seq![' ', ' ', ' ', ' '] + line,
{
    assert("    "@ =~= seq![' ', ' ', ' ', ' ']) by {
        reveal_strlit("    ");
    }
    let one = seq![line];
    assert(one.len() == 1 && one.last() == line);
    assert(one.drop_last() =~= Seq::<Seq<char>>::empty());
    assert(indented_body(one.drop_last()) == Seq::<char>::empty());
    assert(indented_body(one) == indented_body(one.drop_last()) + "    "@ + one.last());
    assert(Seq::<char>::empty() + "    "@ + line =~= seq![' ', ' ', ' ', ' '] + line);
}

/// The shell script with one more body line is the same script with
/// that line, indented by four spaces, inserted just before the closing
/// `}`; with no body line the function is empty.
pub proof fn law_shell_script_grows_with_body(
    name: Seq<char>,
    nickname: Seq<char>,
    description: Seq<char>,
    body: Seq<Seq<char>>,
    line: Seq<char>,
)
    ensures
        ({
            let end = seq!['}', '\n'];
            let before = shell_script(name, nickname, description, body);
            &&& before.len() >= 2
            &&& before.skip(before.len() - 2) == end
            &&& shell_script(name, nickname, description, body.push(line)) == before.take(
                before.len() - 2,
            ) + seq![' ', ' ', ' ', ' '] + line + end
        }),
{
    assert("}\n"@ =~= seq!['}', '\n']) by {
        reveal_strlit("}\n");
    }
    assert("    "@ =~= seq![' ', ' ', ' ', ' ']) by {
        reveal_strlit("    ");
    }
    let end = seq!['}', '\n'];
    let nick = command_name(nickname);
    let head = "\n# command: "@ + name + "# nickname: "@ + nick + "# description: "@
        + description_or_default(description) + "function "@ + replace_char(nick, '\n', Seq::empty())
        + "() {\n"@;
    let x = head + indented_body(body);
    assert(body.push(line).drop_last() =~= body);
    assert(shell_script(name, nickname, description, body) =~= x + end);
    assert((x + end).take(x.len() as int) =~= x);
    assert((x + end).skip(x.len() as int) =~= end);
    assert(shell_script(name, nickname, description, body.push(line)) =~= x
        + seq![' ', ' ', ' ', ' '] + line + end);
}

} // verus!
